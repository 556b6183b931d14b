use exhibition_lp_e2e::config::Config;
use exhibition_lp_e2e::session::{required_domains, Domain, LaunchParams};

#[test]
fn screenshot_path_joins_with_one_separator() {
    let cfg = Config {
        timeout_ms: 60000,
        fail_load_time_ms: 3000,
        target_url: String::from("https://e.test"),
        screenshot_dir: String::from("screenshot"),
    };
    assert_eq!(cfg.get_screenshot_path("x.png"), "screenshot/x.png");
}

#[test]
fn screenshot_path_keeps_a_trailing_separator_single() {
    let cfg = Config {
        timeout_ms: 60000,
        fail_load_time_ms: 3000,
        target_url: String::from("https://e.test"),
        screenshot_dir: String::from("screenshot/"),
    };
    assert_eq!(cfg.get_screenshot_path("x.png"), "screenshot/x.png");
}

#[test]
fn screenshot_path_handles_nested_directories() {
    let cfg = Config {
        timeout_ms: 60000,
        fail_load_time_ms: 3000,
        target_url: String::from("https://e.test"),
        screenshot_dir: String::from("out/run-1"),
    };
    assert_eq!(cfg.get_screenshot_path("entrance.png"), "out/run-1/entrance.png");
}

#[test]
fn default_config_holds_the_fixed_run_settings() {
    let cfg = Config::default_config();
    assert_eq!(cfg.timeout_ms, 60000);
    assert_eq!(cfg.fail_load_time_ms, 3000);
    assert_eq!(cfg.target_url, "https://exhibition.yukinissie.com");
    assert_eq!(cfg.screenshot_dir, "screenshot");
}

#[test]
fn standard_launch_is_sandboxed_at_fixed_viewport() {
    let p = LaunchParams::standard();
    assert!(p.sandbox);
    assert_eq!(p.width, 1280);
    assert_eq!(p.height, 720);
}

#[test]
fn required_domains_cover_instrumentation_in_order() {
    let d = required_domains();
    assert_eq!(
        d,
        vec![
            Domain::Log,
            Domain::Runtime,
            Domain::Debugger,
            Domain::Profiler,
            Domain::Fetch,
            Domain::Performance,
            Domain::Dom,
            Domain::Network,
            Domain::Page,
        ]
    );
}
