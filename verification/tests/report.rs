use job_engine::outcome::WorkResult;
use job_engine::report::{summarize, RunReport};

fn mixed() -> Vec<WorkResult<u32, &'static str>> {
    vec![
        WorkResult::Success(1),
        WorkResult::Failure("a", 3),
        WorkResult::Success(2),
        WorkResult::Success(3),
        WorkResult::Failure("b", 1),
    ]
}

#[test]
fn summary_counts_each_result_once() {
    let report = summarize(&mixed(), 2_000_000_000);
    assert_eq!(report.success_count, 3);
    assert_eq!(report.failure_count, 2);
    assert_eq!(report.success_count + report.failure_count, 5);
    assert_eq!(report.elapsed_nanos, 2_000_000_000);
    assert!(!report.all_succeeded());
}

#[test]
fn summary_rate_is_jobs_per_second_in_thousandths() {
    // 5 jobs in 2 s: 2.5 per second.
    assert_eq!(summarize(&mixed(), 2_000_000_000).rate_milli, Some(2_500));
    // 5 jobs in 3 s: 1.666.. per second, rounded down.
    assert_eq!(summarize(&mixed(), 3_000_000_000).rate_milli, Some(1_666));
    // 5 jobs in 1 ns.
    assert_eq!(summarize(&mixed(), 1).rate_milli, Some(5_000_000_000_000));
}

#[test]
fn summary_without_elapsed_time_has_no_rate() {
    assert_eq!(summarize(&mixed(), 0).rate_milli, None);
}

#[test]
fn summary_of_nothing() {
    let none: Vec<WorkResult<u32, &str>> = Vec::new();
    let report = summarize(&none, 1_000);
    assert_eq!(
        report,
        RunReport { elapsed_nanos: 1_000, rate_milli: Some(0), success_count: 0, failure_count: 0 }
    );
    assert!(report.all_succeeded());
}

#[test]
fn summary_twice_gives_the_same_report() {
    let results = mixed();
    let first = summarize(&results, 1_234_567);
    let second = summarize(&results, 1_234_567);
    assert_eq!(first, second);
}
