//! Process-wide, immutable run configuration.
//!
//! One value is constructed at process start and handed by reference to every
//! component; there is no hidden global. Durations and the load-time failure
//! threshold are held in integer milliseconds so that the derived metric and
//! the threshold share one exact unit.

use vstd::prelude::*;
use vstd::string::*;

verus! {

/// Mathematical image of a [`Config`]: strings as character sequences.
pub struct ConfigModel {
    pub timeout_ms: u64,
    pub fail_load_time_ms: i64,
    pub target_url: Seq<char>,
    pub screenshot_dir: Seq<char>,
}

/// Immutable settings read by every component of the run.
pub struct Config {
    /// Default per-call timeout applied to the controlled tab, in milliseconds.
    pub timeout_ms: u64,
    /// Load times strictly above this bound (milliseconds) are reported.
    pub fail_load_time_ms: i64,
    /// Origin against which the journeys run.
    pub target_url: String,
    /// Directory that receives the screenshot artifacts.
    pub screenshot_dir: String,
}

impl View for Config {
    type V = ConfigModel;

    open spec fn view(&self) -> ConfigModel {
        ConfigModel {
            timeout_ms: self.timeout_ms,
            fail_load_time_ms: self.fail_load_time_ms,
            target_url: self.target_url@,
            screenshot_dir: self.screenshot_dir@,
        }
    }
}

/// `dir/name`, with exactly one separator between the two parts whether or
/// not `dir` already ends in one.
pub open spec fn join_path(dir: Seq<char>, name: Seq<char>) -> Seq<char> {
    if dir.len() > 0 && dir.last() == '/' {
        dir + name
    } else {
        dir + "/"@ + name
    }
}

impl Config {
    /// Path under `screenshot_dir` at which the artifact `file_name` is written.
    pub fn get_screenshot_path(&self, file_name: &str) -> (r: String)
        ensures
            r@ == join_path(self.screenshot_dir@, file_name@),
    {
        let n = self.screenshot_dir.as_str().unicode_len();
        let mut r = self.screenshot_dir.clone();
        if n == 0 || self.screenshot_dir.as_str().get_char(n - 1) != '/' {
            r.append("/");
        }
        r.append(file_name);
        r
    }

    /// The compiled-in defaults of a run: a one-minute protocol timeout, a
    /// three-second load-time bound, the exhibition origin and a
    /// `screenshot` output directory.
    pub fn default_config() -> (r: Config)
        ensures
            r.timeout_ms == 60000,
            r.fail_load_time_ms == 3000,
            r.target_url@ == "https://exhibition.yukinissie.com"@,
            r.screenshot_dir@ == "screenshot"@,
    {
        Config {
            timeout_ms: 60000,
            fail_load_time_ms: 3000,
            target_url: String::from_str("https://exhibition.yukinissie.com"),
            screenshot_dir: String::from_str("screenshot"),
        }
    }
}

} // verus!
