use exhibition_lp_e2e::errors::JourneyError;
use exhibition_lp_e2e::metrics::{get_load_time, MetricSample};

fn sample(name: &str, value: i64) -> MetricSample {
    MetricSample { name: String::from(name), value }
}

#[test]
fn load_time_is_exactly_the_difference() {
    let samples = vec![
        sample("Timestamp", 999),
        sample("NavigationStart", 1000),
        sample("FirstMeaningfulPaint", 2500),
        sample("JSHeapUsedSize", 123456),
    ];
    assert_eq!(get_load_time(&samples), Ok(1500));
}

#[test]
fn load_time_ignores_unrelated_names_and_order() {
    let samples = vec![
        sample("FirstMeaningfulPaint", 4200),
        sample("Frames", 17),
        sample("NavigationStart", 4300),
    ];
    assert_eq!(get_load_time(&samples), Ok(-100));
}

#[test]
fn load_time_fails_without_first_meaningful_paint() {
    let samples = vec![sample("NavigationStart", 1000), sample("Nodes", 5)];
    assert_eq!(get_load_time(&samples), Err(JourneyError::MetricUnavailable));
}

#[test]
fn load_time_fails_without_navigation_start() {
    let samples = vec![sample("FirstMeaningfulPaint", 2500)];
    assert_eq!(get_load_time(&samples), Err(JourneyError::MetricUnavailable));
}

#[test]
fn load_time_fails_on_empty_snapshot() {
    let samples: Vec<MetricSample> = Vec::new();
    assert_eq!(get_load_time(&samples), Err(JourneyError::MetricUnavailable));
}

#[test]
fn load_time_uses_the_first_sample_of_each_name() {
    let samples = vec![
        sample("NavigationStart", 100),
        sample("FirstMeaningfulPaint", 350),
        sample("NavigationStart", 999),
        sample("FirstMeaningfulPaint", 777),
    ];
    assert_eq!(get_load_time(&samples), Ok(250));
}
