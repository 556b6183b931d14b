//! The journey executor: fixed scenarios as ordered step lists, and a pure
//! interpreter of step outcomes.
//!
//! A scenario is data — an ordered list of steps — so the discipline around
//! it (wait, click, capture, threshold check) is independent of the concrete
//! selectors and stage names. Performing a step against the browser is
//! external work; the driver performs one step at a time and reports its
//! outcome back. The interpreter decides, for each step and outcome, whether
//! the run continues, which artifact path was produced, which log line is
//! emitted, and which error aborts the remainder of the scenario. A breached
//! load-time threshold is deliberately a logged observation, never an abort.

use vstd::prelude::*;
use vstd::string::*;
use crate::classifier::{
    contains_seq, emission_view, lemma_contains_middle, Emission, EmissionLevel, EmissionModel,
};
use crate::config::{join_path, Config, ConfigModel};
use crate::errors::JourneyError;
use crate::metrics::{
    get_load_time, has_metric, load_time_of, samples_view, valid_sample_set, MetricSample,
    SampleModel,
};
use crate::numfmt::{dec_int, i64_to_string};

verus! {

/// Mathematical image of a [`Step`].
pub enum StepModel {
    Navigate(Seq<char>),
    WaitForNavigation,
    CaptureScreenshot(Seq<char>),
    ThresholdCheck,
    WaitForElement(Seq<char>),
    Click,
    TypeText(Seq<char>),
    SleepMs(u64),
}

/// One step of a scenario, executed strictly in sequence.
#[derive(Debug)]
pub enum Step {
    /// Navigate the tab to the given URL.
    Navigate(String),
    /// Block until the pending navigation completes.
    WaitForNavigation,
    /// Capture a screenshot and write it under the given stage name.
    CaptureScreenshot(String),
    /// Fetch a performance snapshot and check the derived load time.
    ThresholdCheck,
    /// Block until an element matches the given selector, up to the timeout.
    WaitForElement(String),
    /// Click the element found by the preceding wait.
    Click,
    /// Send the given characters to the focused element.
    TypeText(String),
    /// Pause for the given grace period, in milliseconds.
    SleepMs(u64),
}

impl View for Step {
    type V = StepModel;

    open spec fn view(&self) -> StepModel {
        match self {
            Step::Navigate(u) => StepModel::Navigate(u@),
            Step::WaitForNavigation => StepModel::WaitForNavigation,
            Step::CaptureScreenshot(s) => StepModel::CaptureScreenshot(s@),
            Step::ThresholdCheck => StepModel::ThresholdCheck,
            Step::WaitForElement(s) => StepModel::WaitForElement(s@),
            Step::Click => StepModel::Click,
            Step::TypeText(t) => StepModel::TypeText(t@),
            Step::SleepMs(d) => StepModel::SleepMs(*d),
        }
    }
}

/// Mathematical image of a [`StepOutcome`].
pub enum OutcomeModel {
    Done,
    ScreenshotSaved,
    ScreenshotFailed,
    ElementFound,
    ElementTimedOut,
    NavigationFailed,
    Metrics { samples: Seq<SampleModel>, page_url: Seq<char> },
}

/// What performing one step against the browser reported back.
#[derive(Debug)]
pub enum StepOutcome {
    /// The step completed (navigation, click, typed text, sleep).
    Done,
    /// The screenshot bytes were written.
    ScreenshotSaved,
    /// The screenshot could not be written.
    ScreenshotFailed,
    /// The awaited element appeared within the timeout.
    ElementFound,
    /// The element wait exceeded the timeout.
    ElementTimedOut,
    /// The navigation or the navigation wait failed.
    NavigationFailed,
    /// The performance snapshot, with the URL the tab currently shows.
    Metrics { samples: Vec<MetricSample>, page_url: String },
}

impl View for StepOutcome {
    type V = OutcomeModel;

    open spec fn view(&self) -> OutcomeModel {
        match self {
            StepOutcome::Done => OutcomeModel::Done,
            StepOutcome::ScreenshotSaved => OutcomeModel::ScreenshotSaved,
            StepOutcome::ScreenshotFailed => OutcomeModel::ScreenshotFailed,
            StepOutcome::ElementFound => OutcomeModel::ElementFound,
            StepOutcome::ElementTimedOut => OutcomeModel::ElementTimedOut,
            StepOutcome::NavigationFailed => OutcomeModel::NavigationFailed,
            StepOutcome::Metrics { samples, page_url } => OutcomeModel::Metrics {
                samples: samples_view(samples@),
                page_url: page_url@,
            },
        }
    }
}

/// An outcome that performing the step can actually report.
pub open spec fn compatible(step: StepModel, out: OutcomeModel) -> bool {
    match step {
        StepModel::Navigate(_) => out is Done || out is NavigationFailed,
        StepModel::WaitForNavigation => out is Done || out is NavigationFailed,
        StepModel::CaptureScreenshot(_) => out is ScreenshotSaved || out is ScreenshotFailed,
        StepModel::ThresholdCheck => out matches OutcomeModel::Metrics { samples, .. }
            && valid_sample_set(samples),
        StepModel::WaitForElement(_) => out is ElementFound || out is ElementTimedOut,
        StepModel::Click => out is Done,
        StepModel::TypeText(_) => out is Done,
        StepModel::SleepMs(_) => out is Done,
    }
}

/// Mathematical image of a [`Progress`].
pub enum ProgressModel {
    Continue { artifact: Option<Seq<char>>, emission: Option<EmissionModel> },
    Abort { error: JourneyError },
}

/// The interpreter's verdict on one performed step.
#[derive(Debug)]
pub enum Progress {
    /// The scenario goes on; the step may have produced an artifact path
    /// and a log emission.
    Continue { artifact: Option<String>, emission: Option<Emission> },
    /// The scenario stops here with the given error.
    Abort { error: JourneyError },
}

impl View for Progress {
    type V = ProgressModel;

    open spec fn view(&self) -> ProgressModel {
        match self {
            Progress::Continue { artifact, emission } => ProgressModel::Continue {
                artifact: match artifact {
                    Some(a) => Some(a@),
                    None => None,
                },
                emission: match emission {
                    Some(e) => Some(e@),
                    None => None,
                },
            },
            Progress::Abort { error } => ProgressModel::Abort { error: *error },
        }
    }
}

/// The message of a threshold-violation emission.
pub open spec fn threshold_message(page_url: Seq<char>, load_time_ms: int) -> Seq<char> {
    "timeout target url: "@ + page_url + "; load time: "@ + dec_int(load_time_ms)
}

/// The emission of one threshold check: an error line exactly when the
/// measured load time strictly exceeds the configured bound.
pub open spec fn threshold_emission_of(
    load_time_ms: int,
    fail_load_time_ms: int,
    page_url: Seq<char>,
) -> Option<EmissionModel> {
    if load_time_ms > fail_load_time_ms {
        Some(
            EmissionModel {
                level: EmissionLevel::Error,
                text: threshold_message(page_url, load_time_ms),
            },
        )
    } else {
        None
    }
}

/// Checks a measured load time against the configured bound.
pub fn threshold_emission(load_time_ms: i64, fail_load_time_ms: i64, page_url: &str) -> (r: Option<
    Emission,
>)
    ensures
        emission_view(r) == threshold_emission_of(
            load_time_ms as int,
            fail_load_time_ms as int,
            page_url@,
        ),
{
    if load_time_ms > fail_load_time_ms {
        let mut t = String::from_str("timeout target url: ");
        t.append(page_url);
        t.append("; load time: ");
        let rendered = i64_to_string(load_time_ms);
        t.append(rendered.as_str());
        Some(Emission { level: EmissionLevel::Error, text: t })
    } else {
        None
    }
}

/// The verdict on one step, given the outcome the browser reported.
pub open spec fn apply_step_spec(
    cfg: ConfigModel,
    step: StepModel,
    out: OutcomeModel,
) -> ProgressModel {
    match step {
        StepModel::Navigate(_) | StepModel::WaitForNavigation => if out is Done {
            ProgressModel::Continue { artifact: None, emission: None }
        } else {
            ProgressModel::Abort { error: JourneyError::NavigationError }
        },
        StepModel::CaptureScreenshot(stage) => if out is ScreenshotSaved {
            ProgressModel::Continue {
                artifact: Some(join_path(cfg.screenshot_dir, stage + ".png"@)),
                emission: None,
            }
        } else {
            ProgressModel::Abort { error: JourneyError::ScreenshotWriteError }
        },
        StepModel::ThresholdCheck => match out {
            OutcomeModel::Metrics { samples, page_url } => if has_metric(
                samples,
                "FirstMeaningfulPaint"@,
            ) && has_metric(samples, "NavigationStart"@) {
                ProgressModel::Continue {
                    artifact: None,
                    emission: threshold_emission_of(
                        load_time_of(samples),
                        cfg.fail_load_time_ms as int,
                        page_url,
                    ),
                }
            } else {
                ProgressModel::Abort { error: JourneyError::MetricUnavailable }
            },
            _ => ProgressModel::Abort { error: JourneyError::MetricUnavailable },
        },
        StepModel::WaitForElement(_) => if out is ElementFound {
            ProgressModel::Continue { artifact: None, emission: None }
        } else {
            ProgressModel::Abort { error: JourneyError::ElementNotFound }
        },
        StepModel::Click | StepModel::TypeText(_) | StepModel::SleepMs(_) => ProgressModel::Continue {
            artifact: None,
            emission: None,
        },
    }
}

/// Interprets one performed step: decides continuation, the artifact path
/// and the emission, exactly as [`apply_step_spec`] states.
pub fn apply_step(cfg: &Config, step: &Step, outcome: &StepOutcome) -> (p: Progress)
    requires
        compatible(step@, outcome@),
    ensures
        p@ == apply_step_spec(cfg@, step@, outcome@),
{
    match step {
        Step::Navigate(_) | Step::WaitForNavigation => match outcome {
            StepOutcome::Done => Progress::Continue { artifact: None, emission: None },
            _ => Progress::Abort { error: JourneyError::NavigationError },
        },
        Step::CaptureScreenshot(stage) => match outcome {
            StepOutcome::ScreenshotSaved => {
                let mut name = stage.clone();
                name.append(".png");
                let path = cfg.get_screenshot_path(name.as_str());
                Progress::Continue { artifact: Some(path), emission: None }
            },
            _ => Progress::Abort { error: JourneyError::ScreenshotWriteError },
        },
        Step::ThresholdCheck => match outcome {
            StepOutcome::Metrics { samples, page_url } => match get_load_time(samples) {
                Ok(lt) => Progress::Continue {
                    artifact: None,
                    emission: threshold_emission(lt, cfg.fail_load_time_ms, page_url.as_str()),
                },
                Err(e) => Progress::Abort { error: e },
            },
            _ => Progress::Abort { error: JourneyError::MetricUnavailable },
        },
        Step::WaitForElement(_) => match outcome {
            StepOutcome::ElementFound => Progress::Continue { artifact: None, emission: None },
            _ => Progress::Abort { error: JourneyError::ElementNotFound },
        },
        Step::Click | Step::TypeText(_) | Step::SleepMs(_) => Progress::Continue {
            artifact: None,
            emission: None,
        },
    }
}

/// The image of a step list.
pub open spec fn steps_view(s: Seq<Step>) -> Seq<StepModel> {
    s.map_values(|x: Step| x@)
}

/// The image of an outcome list.
pub open spec fn outcomes_view(s: Seq<StepOutcome>) -> Seq<OutcomeModel> {
    s.map_values(|x: StepOutcome| x@)
}

/// An optional value as a sequence of zero or one elements.
pub open spec fn opt_seq<A>(o: Option<A>) -> Seq<A> {
    match o {
        Some(a) => seq![a],
        None => Seq::empty(),
    }
}

/// Mathematical image of a [`JourneyLog`].
pub struct JourneyLogModel {
    pub artifacts: Seq<Seq<char>>,
    pub emissions: Seq<EmissionModel>,
    pub result: Result<(), JourneyError>,
}

/// Everything one run of a scenario produced: the artifact paths written in
/// order, the log lines emitted in order, and how the run ended.
#[derive(Debug)]
pub struct JourneyLog {
    pub artifacts: Vec<String>,
    pub emissions: Vec<Emission>,
    pub result: Result<(), JourneyError>,
}

impl View for JourneyLog {
    type V = JourneyLogModel;

    open spec fn view(&self) -> JourneyLogModel {
        JourneyLogModel {
            artifacts: self.artifacts@.map_values(|s: String| s@),
            emissions: self.emissions@.map_values(|e: Emission| e@),
            result: self.result,
        }
    }
}

/// What running the scenario from step `i` on produces: a step that aborts
/// drops everything after it, any other step contributes its artifact and
/// emission and the run goes on.
pub open spec fn run_from_spec(
    cfg: ConfigModel,
    steps: Seq<StepModel>,
    outs: Seq<OutcomeModel>,
    i: int,
) -> JourneyLogModel
    decreases steps.len() - i,
{
    if i < 0 || i >= steps.len() {
        JourneyLogModel { artifacts: Seq::empty(), emissions: Seq::empty(), result: Ok(()) }
    } else {
        match apply_step_spec(cfg, steps[i], outs[i]) {
            ProgressModel::Abort { error } => JourneyLogModel {
                artifacts: Seq::empty(),
                emissions: Seq::empty(),
                result: Err(error),
            },
            ProgressModel::Continue { artifact, emission } => {
                let rest = run_from_spec(cfg, steps, outs, i + 1);
                JourneyLogModel {
                    artifacts: opt_seq(artifact) + rest.artifacts,
                    emissions: opt_seq(emission) + rest.emissions,
                    result: rest.result,
                }
            },
        }
    }
}

/// What running a whole scenario produces.
pub open spec fn run_journey_spec(
    cfg: ConfigModel,
    steps: Seq<StepModel>,
    outs: Seq<OutcomeModel>,
) -> JourneyLogModel {
    run_from_spec(cfg, steps, outs, 0)
}

/// Runs the tail of a scenario that starts at step `i`.
fn run_from(cfg: &Config, steps: &Vec<Step>, outcomes: &Vec<StepOutcome>, i: usize) -> (log:
    JourneyLog)
    requires
        steps@.len() == outcomes@.len(),
        i <= steps@.len(),
        forall|j: int| 0 <= j < steps@.len() ==> compatible(#[trigger] steps@[j]@, outcomes@[j]@),
    ensures
        log@ == run_from_spec(cfg@, steps_view(steps@), outcomes_view(outcomes@), i as int),
    decreases steps@.len() - i,
{
    let ghost sv = steps_view(steps@);
    let ghost ov = outcomes_view(outcomes@);
    if i == steps.len() {
        let log = JourneyLog { artifacts: Vec::new(), emissions: Vec::new(), result: Ok(()) };
        proof {
            assert(log@.artifacts =~= run_from_spec(cfg@, sv, ov, i as int).artifacts);
            assert(log@.emissions =~= run_from_spec(cfg@, sv, ov, i as int).emissions);
        }
        log
    } else {
        proof {
            assert(sv[i as int] == steps@[i as int]@);
            assert(ov[i as int] == outcomes@[i as int]@);
        }
        let p = apply_step(cfg, &steps[i], &outcomes[i]);
        match p {
            Progress::Abort { error } => {
                let log = JourneyLog {
                    artifacts: Vec::new(),
                    emissions: Vec::new(),
                    result: Err(error),
                };
                proof {
                    assert(log@.artifacts =~= run_from_spec(cfg@, sv, ov, i as int).artifacts);
                    assert(log@.emissions =~= run_from_spec(cfg@, sv, ov, i as int).emissions);
                }
                log
            },
            Progress::Continue { artifact, emission } => {
                let ghost pm = ProgressModel::Continue {
                    artifact: match artifact {
                        Some(ref a) => Some(a@),
                        None => None,
                    },
                    emission: match emission {
                        Some(ref e) => Some(e@),
                        None => None,
                    },
                };
                let mut rest = run_from(cfg, steps, outcomes, i + 1);
                let mut artifacts: Vec<String> = Vec::new();
                match artifact {
                    Some(a) => artifacts.push(a),
                    None => (),
                }
                artifacts.append(&mut rest.artifacts);
                let mut emissions: Vec<Emission> = Vec::new();
                match emission {
                    Some(e) => emissions.push(e),
                    None => (),
                }
                emissions.append(&mut rest.emissions);
                let log = JourneyLog { artifacts, emissions, result: rest.result };
                proof {
                    let spec_log = run_from_spec(cfg@, sv, ov, i as int);
                    let spec_rest = run_from_spec(cfg@, sv, ov, i as int + 1);
                    assert(spec_log.artifacts == opt_seq(pm->Continue_artifact)
                        + spec_rest.artifacts);
                    assert(log@.artifacts =~= spec_log.artifacts);
                    assert(log@.emissions =~= spec_log.emissions);
                }
                log
            },
        }
    }
}

/// Runs a scenario against the outcomes its steps reported, in order, and
/// returns exactly what [`run_journey_spec`] states: the artifact paths and
/// emissions of every step up to the first aborting one, and how it ended.
pub fn run_journey(cfg: &Config, steps: &Vec<Step>, outcomes: &Vec<StepOutcome>) -> (log:
    JourneyLog)
    requires
        steps@.len() == outcomes@.len(),
        forall|j: int| 0 <= j < steps@.len() ==> compatible(#[trigger] steps@[j]@, outcomes@[j]@),
    ensures
        log@ == run_journey_spec(cfg@, steps_view(steps@), outcomes_view(outcomes@)),
{
    run_from(cfg, steps, outcomes, 0)
}

/// The entrance scenario: enter a username on the entrance page and follow
/// the client-side transition home, capturing evidence at each stage.
pub open spec fn entrance_plan(cfg: ConfigModel) -> Seq<StepModel> {
    seq![
        StepModel::Navigate(cfg.target_url + "/entrance"@),
        StepModel::WaitForNavigation,
        StepModel::CaptureScreenshot("entrance"@),
        StepModel::ThresholdCheck,
        StepModel::WaitForElement("#github_username"@),
        StepModel::Click,
        StepModel::TypeText("user"@),
        StepModel::CaptureScreenshot("entrance-input-username"@),
        StepModel::WaitForElement("body > div > div > main > div > form > button"@),
        StepModel::Click,
        StepModel::SleepMs(1000),
        StepModel::WaitForNavigation,
        StepModel::CaptureScreenshot("entrance-to-home"@),
    ]
}

/// The home scenario: open the home page, click through the avatar and the
/// newest product figure, and capture the result.
pub open spec fn home_plan(cfg: ConfigModel) -> Seq<StepModel> {
    seq![
        StepModel::Navigate(cfg.target_url),
        StepModel::WaitForNavigation,
        StepModel::CaptureScreenshot("entrance"@),
        StepModel::ThresholdCheck,
        StepModel::WaitForElement(CHARA_SELECTOR@),
        StepModel::Click,
        StepModel::WaitForElement(NEW_PROD_SELECTOR@),
        StepModel::Click,
        StepModel::SleepMs(1000),
        StepModel::CaptureScreenshot("new-prod-click"@),
    ]
}

/// The full journey: the entrance scenario, then the home scenario.
pub open spec fn journey_plan(cfg: ConfigModel) -> Seq<StepModel> {
    entrance_plan(cfg) + home_plan(cfg)
}

/// Selector of the avatar element on the home page.
pub const CHARA_SELECTOR: &'static str = r###"body > div > div > main > div > div:nth-child(1) > div.absolute.select-none.-top-\[32px\].-left-\[32px\].w-\[64px\].h-\[64px\].rounded-full.transform-gpu.translate-x-\[40vw\].translate-y-\[50vh\].z-\[900\].ease-out.duration-200.overflow-hidden.border-4.border-green-500"###;

/// Selector of the newest product figure on the home page.
pub const NEW_PROD_SELECTOR: &'static str = r###"body > div > div > main > div > div:nth-child(3) > div.flex.flex-row.justify-center.items-center.mb-\[170px\] > div > div.w-fit.h-fit.m-8.flex.max-w-\[512px\].hover\:border-2.hover\:border-picture-frame.mt-\[300px\].bg-gradient-to-r.from-\[\#6080B0\].via-\[\#08DCF9\].to-\[\#FF2775\].p-2.m-0.z-\[600\] > figure"###;

/// Builds the entrance scenario against the configured origin.
pub fn test_exhibition_lp_entrance(cfg: &Config) -> (r: Vec<Step>)
    ensures
        steps_view(r@) == entrance_plan(cfg@),
{
    let mut v: Vec<Step> = Vec::new();
    let url = cfg.target_url.clone();
    v.push(Step::Navigate(url.concat("/entrance")));
    v.push(Step::WaitForNavigation);
    v.push(Step::CaptureScreenshot(String::from_str("entrance")));
    v.push(Step::ThresholdCheck);
    v.push(Step::WaitForElement(String::from_str("#github_username")));
    v.push(Step::Click);
    v.push(Step::TypeText(String::from_str("user")));
    v.push(Step::CaptureScreenshot(String::from_str("entrance-input-username")));
    v.push(
        Step::WaitForElement(String::from_str("body > div > div > main > div > form > button")),
    );
    v.push(Step::Click);
    v.push(Step::SleepMs(1000));
    v.push(Step::WaitForNavigation);
    v.push(Step::CaptureScreenshot(String::from_str("entrance-to-home")));
    proof {
        assert(steps_view(v@) =~= entrance_plan(cfg@));
    }
    v
}

/// Builds the home scenario against the configured origin.
pub fn test_exhibition_lp_home(cfg: &Config) -> (r: Vec<Step>)
    ensures
        steps_view(r@) == home_plan(cfg@),
{
    let mut v: Vec<Step> = Vec::new();
    v.push(Step::Navigate(cfg.target_url.clone()));
    v.push(Step::WaitForNavigation);
    v.push(Step::CaptureScreenshot(String::from_str("entrance")));
    v.push(Step::ThresholdCheck);
    v.push(Step::WaitForElement(String::from_str(CHARA_SELECTOR)));
    v.push(Step::Click);
    v.push(Step::WaitForElement(String::from_str(NEW_PROD_SELECTOR)));
    v.push(Step::Click);
    v.push(Step::SleepMs(1000));
    v.push(Step::CaptureScreenshot(String::from_str("new-prod-click")));
    proof {
        assert(steps_view(v@) =~= home_plan(cfg@));
    }
    v
}

/// Builds the full journey: every step of the entrance scenario, then every
/// step of the home scenario, in order.
pub fn test_exhibition_lp(cfg: &Config) -> (r: Vec<Step>)
    ensures
        steps_view(r@) == journey_plan(cfg@),
{
    let mut v = test_exhibition_lp_entrance(cfg);
    let mut h = test_exhibition_lp_home(cfg);
    v.append(&mut h);
    proof {
        assert(steps_view(v@) =~= journey_plan(cfg@));
    }
    v
}

/// Law: a threshold check on a snapshot carrying both required samples never
/// aborts the scenario; it emits exactly one error-level line — carrying the
/// page URL — when the load time strictly exceeds the bound, and nothing at
/// or below it.
pub proof fn lemma_threshold_breach_is_soft(
    cfg: ConfigModel,
    samples: Seq<SampleModel>,
    page_url: Seq<char>,
)
    requires
        valid_sample_set(samples),
        has_metric(samples, "FirstMeaningfulPaint"@),
        has_metric(samples, "NavigationStart"@),
    ensures
        apply_step_spec(
            cfg,
            StepModel::ThresholdCheck,
            OutcomeModel::Metrics { samples, page_url },
        ) matches ProgressModel::Continue { artifact, emission } && artifact is None && (emission
            is Some <==> load_time_of(samples) > cfg.fail_load_time_ms) && (emission matches Some(
            em,
        ) ==> em.level == EmissionLevel::Error && contains_seq(em.text, page_url)),
{
    let lt = load_time_of(samples);
    if lt > cfg.fail_load_time_ms {
        let msg = threshold_message(page_url, lt);
        let pre = "timeout target url: "@;
        let suf = "; load time: "@ + dec_int(lt);
        assert(msg =~= pre + page_url + suf);
        lemma_contains_middle(pre, page_url, suf, pre + page_url + suf);
        assert(contains_seq(msg, page_url));
    }
}

} // verus!
