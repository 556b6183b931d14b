use exhibition_lp_e2e::classifier::EmissionLevel;
use exhibition_lp_e2e::config::Config;
use exhibition_lp_e2e::errors::JourneyError;
use exhibition_lp_e2e::journey::{
    run_journey, test_exhibition_lp, test_exhibition_lp_entrance, test_exhibition_lp_home,
    threshold_emission, Step, StepOutcome,
};
use exhibition_lp_e2e::metrics::MetricSample;

fn test_config() -> Config {
    Config {
        timeout_ms: 60000,
        fail_load_time_ms: 3000,
        target_url: String::from("https://e.test"),
        screenshot_dir: String::from("screenshot"),
    }
}

fn snapshot(navigation_start: i64, first_meaningful_paint: i64) -> Vec<MetricSample> {
    vec![
        MetricSample { name: String::from("Timestamp"), value: 12 },
        MetricSample { name: String::from("NavigationStart"), value: navigation_start },
        MetricSample { name: String::from("FirstMeaningfulPaint"), value: first_meaningful_paint },
    ]
}

fn metrics_outcome(navigation_start: i64, first_meaningful_paint: i64) -> StepOutcome {
    StepOutcome::Metrics {
        samples: snapshot(navigation_start, first_meaningful_paint),
        page_url: String::from("https://e.test/entrance"),
    }
}

#[test]
fn threshold_is_exclusive_below() {
    assert!(threshold_emission(2900, 3000, "https://e.test").is_none());
}

#[test]
fn threshold_is_exclusive_at_the_boundary() {
    assert!(threshold_emission(3000, 3000, "https://e.test").is_none());
}

#[test]
fn threshold_breach_emits_one_error_line() {
    let em = threshold_emission(3100, 3000, "https://e.test")
        .expect("a breached threshold must be reported");
    assert_eq!(em.level, EmissionLevel::Error);
    assert_eq!(em.text, "timeout target url: https://e.test; load time: 3100");
}

#[test]
fn threshold_breach_does_not_stop_the_scenario() {
    let cfg = test_config();
    let steps = vec![
        Step::ThresholdCheck,
        Step::CaptureScreenshot(String::from("after")),
    ];
    let outcomes = vec![metrics_outcome(1000, 4100), StepOutcome::ScreenshotSaved];
    let log = run_journey(&cfg, &steps, &outcomes);
    assert_eq!(log.result, Ok(()));
    assert_eq!(log.emissions.len(), 1);
    assert_eq!(log.emissions[0].level, EmissionLevel::Error);
    assert_eq!(log.artifacts, vec![String::from("screenshot/after.png")]);
}

#[test]
fn missing_sample_aborts_the_threshold_check() {
    let cfg = test_config();
    let steps = vec![Step::ThresholdCheck];
    let outcomes = vec![StepOutcome::Metrics {
        samples: vec![MetricSample { name: String::from("NavigationStart"), value: 1000 }],
        page_url: String::from("https://e.test"),
    }];
    let log = run_journey(&cfg, &steps, &outcomes);
    assert_eq!(log.result, Err(JourneyError::MetricUnavailable));
}

#[test]
fn failed_navigation_aborts_the_scenario() {
    let cfg = test_config();
    let steps = vec![
        Step::Navigate(String::from("https://e.test")),
        Step::CaptureScreenshot(String::from("never")),
    ];
    let outcomes = vec![StepOutcome::NavigationFailed, StepOutcome::ScreenshotSaved];
    let log = run_journey(&cfg, &steps, &outcomes);
    assert_eq!(log.result, Err(JourneyError::NavigationError));
    assert!(log.artifacts.is_empty());
}

#[test]
fn failed_screenshot_write_aborts_the_scenario() {
    let cfg = test_config();
    let steps = vec![Step::CaptureScreenshot(String::from("entrance"))];
    let outcomes = vec![StepOutcome::ScreenshotFailed];
    let log = run_journey(&cfg, &steps, &outcomes);
    assert_eq!(log.result, Err(JourneyError::ScreenshotWriteError));
}

#[test]
fn entrance_scenario_produces_its_artifacts_in_order() {
    let cfg = test_config();
    let steps = test_exhibition_lp_entrance(&cfg);
    assert_eq!(steps.len(), 13);
    let outcomes = vec![
        StepOutcome::Done,
        StepOutcome::Done,
        StepOutcome::ScreenshotSaved,
        metrics_outcome(1000, 2500),
        StepOutcome::ElementFound,
        StepOutcome::Done,
        StepOutcome::Done,
        StepOutcome::ScreenshotSaved,
        StepOutcome::ElementFound,
        StepOutcome::Done,
        StepOutcome::Done,
        StepOutcome::Done,
        StepOutcome::ScreenshotSaved,
    ];
    let log = run_journey(&cfg, &steps, &outcomes);
    assert_eq!(log.result, Ok(()));
    assert_eq!(
        log.artifacts,
        vec![
            String::from("screenshot/entrance.png"),
            String::from("screenshot/entrance-input-username.png"),
            String::from("screenshot/entrance-to-home.png"),
        ]
    );
    assert!(log.emissions.is_empty());
}

#[test]
fn home_scenario_element_wait_failure_stops_before_the_last_capture() {
    let cfg = test_config();
    let steps = test_exhibition_lp_home(&cfg);
    assert_eq!(steps.len(), 10);
    let outcomes = vec![
        StepOutcome::Done,
        StepOutcome::Done,
        StepOutcome::ScreenshotSaved,
        metrics_outcome(1000, 2500),
        StepOutcome::ElementTimedOut,
        StepOutcome::Done,
        StepOutcome::ElementFound,
        StepOutcome::Done,
        StepOutcome::Done,
        StepOutcome::ScreenshotSaved,
    ];
    let log = run_journey(&cfg, &steps, &outcomes);
    assert_eq!(log.result, Err(JourneyError::ElementNotFound));
    assert_eq!(log.artifacts, vec![String::from("screenshot/entrance.png")]);
    assert!(!log
        .artifacts
        .iter()
        .any(|a| a.contains("new-prod-click")));
}

#[test]
fn full_journey_is_entrance_then_home() {
    let cfg = test_config();
    let all = test_exhibition_lp(&cfg);
    let entrance = test_exhibition_lp_entrance(&cfg);
    let home = test_exhibition_lp_home(&cfg);
    assert_eq!(all.len(), entrance.len() + home.len());
    match &all[0] {
        Step::Navigate(url) => assert_eq!(url, "https://e.test/entrance"),
        other => panic!("unexpected first step: {:?}", other),
    }
    match &all[13] {
        Step::Navigate(url) => assert_eq!(url, "https://e.test"),
        other => panic!("unexpected first home step: {:?}", other),
    }
    match &all[22] {
        Step::CaptureScreenshot(stage) => assert_eq!(stage, "new-prod-click"),
        other => panic!("unexpected last step: {:?}", other),
    }
}
