use governor::clock::{Clock, FakeRelativeClock, Reference};
use governor::{Quota, RateLimiter};
use job_engine::admission::LimiterCheck;
use job_engine::config::RunConfig;
use job_engine::outcome::{ErrorClass, WorkResult};
use job_engine::retry::{RetryDecision, RetryExecutor};
use job_engine::runner::{AdmissionToken, Dispatch, JobRunner, Paced};
use std::num::NonZeroU32;
use std::time::Duration;

const MILLIS: u64 = 1_000_000;

/// Runs one job to its end, without waiting between attempts, and returns
/// the result with the number of attempts made.
fn run_job(
    max_attempts: usize,
    work: &mut dyn FnMut(usize) -> Result<u32, (String, ErrorClass)>,
) -> (WorkResult<u32, String>, usize) {
    let mut executor = RetryExecutor::new(max_attempts);
    loop {
        let number = executor.begin_attempt();
        let (outcome, class) = match work(number) {
            Ok(v) => (Ok(v), ErrorClass::Transient),
            Err((e, class)) => (Err(e), class),
        };
        if let RetryDecision::Done(result) = executor.on_outcome(outcome, class, 0) {
            return (result, executor.attempts());
        }
    }
}

#[test]
fn paced_run_of_ten_at_five_per_second() {
    let clock = FakeRelativeClock::default();
    let limiter =
        RateLimiter::direct_with_clock(Quota::per_second(NonZeroU32::new(5).unwrap()), &clock);
    let start = clock.now();
    let config = RunConfig::new(10, 5, None, 1).unwrap();
    let mut runner: JobRunner<u32, String> = JobRunner::new(config);
    let mut ids = Vec::new();
    let mut waits = 0;
    loop {
        let token = match runner.next() {
            Dispatch::Start(_) | Dispatch::Parked => panic!("the token bucket paces this run"),
            Dispatch::Drained => break,
            Dispatch::AskLimiter => {
                let check = match limiter.check() {
                    Ok(_) => LimiterCheck::Granted,
                    Err(denied) => {
                        LimiterCheck::Denied(denied.wait_time_from(clock.now()).as_nanos() as u64)
                    }
                };
                match runner.on_limiter(check) {
                    Paced::Start(token) => token,
                    Paced::WaitFor(nanos) => {
                        assert!(nanos >= 200 * MILLIS);
                        waits += 1;
                        clock.advance(Duration::from_nanos(nanos));
                        continue;
                    }
                }
            }
        };
        ids.push(token.job().number());
        let (result, attempts) = run_job(config.max_attempts(), &mut |_| Ok(1));
        assert_eq!(attempts, 1);
        runner.complete(token, result);
    }
    assert!(runner.is_finished());
    assert_eq!(ids, (1..=10).collect::<Vec<usize>>());
    let elapsed = Duration::from(clock.now().duration_since(start)).as_nanos() as u64;
    let report = runner.finish(elapsed).unwrap();
    assert_eq!(report.success_count, 10);
    assert_eq!(report.failure_count, 0);
    // Five jobs pass in the first burst; each of the other five needs a
    // cell of its own, replenished every 200 ms.
    assert!(waits >= 1);
    assert!(elapsed >= 1_000 * MILLIS, "{}", elapsed);
    assert!(report.rate_milli.unwrap() <= 10_000);
}

#[test]
fn gated_run_of_five_one_at_a_time() {
    let config = RunConfig::new(5, 0, Some(1), 1).unwrap();
    let mut runner: JobRunner<u32, String> = JobRunner::new(config);
    let mut now = 0u64;
    let mut running: Vec<(AdmissionToken, u64)> = Vec::new();
    let mut intervals: Vec<(u64, u64)> = Vec::new();
    let mut most_at_once = 0;
    loop {
        match runner.next() {
            Dispatch::Start(token) => {
                intervals.push((now, now + 100 * MILLIS));
                running.push((token, now + 100 * MILLIS));
                most_at_once = most_at_once.max(running.len());
                assert_eq!(runner.in_flight(), running.len());
            }
            Dispatch::AskLimiter => panic!("the concurrency gate bounds this run"),
            Dispatch::Parked | Dispatch::Drained => {
                if running.is_empty() {
                    break;
                }
                let (token, done_at) = running.remove(0);
                now = done_at;
                runner.complete(token, WorkResult::Success(1));
            }
        }
    }
    assert!(runner.is_finished());
    assert_eq!(most_at_once, 1);
    assert_eq!(intervals.len(), 5);
    for pair in intervals.windows(2) {
        assert!(pair[0].1 <= pair[1].0, "{:?} overlaps {:?}", pair[0], pair[1]);
    }
    assert!(now >= 500 * MILLIS);
    let report = runner.finish(now).unwrap();
    assert_eq!(report.success_count, 5);
    assert_eq!(report.failure_count, 0);
    assert_eq!(report.rate_milli, Some(10_000));
}

#[test]
fn gate_of_two_never_has_three_in_flight() {
    let config = RunConfig::new(7, 0, Some(2), 1).unwrap();
    let mut runner: JobRunner<u32, String> = JobRunner::new(config);
    let mut running: Vec<AdmissionToken> = Vec::new();
    let mut started = Vec::new();
    loop {
        assert!(runner.in_flight() <= 2);
        match runner.next() {
            Dispatch::Start(token) => {
                started.push(token.job().number());
                running.push(token);
            }
            Dispatch::AskLimiter => panic!("the concurrency gate bounds this run"),
            Dispatch::Parked => {
                assert_eq!(running.len(), 2);
                let token = running.pop().unwrap();
                runner.complete(token, WorkResult::Success(0));
            }
            Dispatch::Drained => match running.pop() {
                Some(token) => runner.complete(token, WorkResult::Failure("late".to_string(), 1)),
                None => break,
            },
        }
    }
    assert_eq!(started, vec![1, 2, 3, 4, 5, 6, 7]);
    assert_eq!(runner.completed(), 7);
    assert_eq!(runner.admitted(), 7);
    let report = runner.finish(1).unwrap();
    assert_eq!(report.success_count + report.failure_count, 7);
    assert_eq!(report.failure_count, 2);
}

#[test]
fn permanent_errors_fail_every_job_after_one_attempt() {
    let config = RunConfig::new(3, 0, None, 4).unwrap();
    let mut runner: JobRunner<u32, String> = JobRunner::new(config);
    let mut attempts_made = Vec::new();
    loop {
        match runner.next() {
            Dispatch::Start(token) => {
                let (result, attempts) = run_job(config.max_attempts(), &mut |_| {
                    Err(("invalid request".to_string(), ErrorClass::Permanent))
                });
                attempts_made.push(attempts);
                runner.complete(token, result);
            }
            Dispatch::Drained => break,
            Dispatch::AskLimiter | Dispatch::Parked => panic!("nothing limits this run"),
        }
    }
    assert_eq!(attempts_made, vec![1, 1, 1]);
    let report = runner.finish(5).unwrap();
    assert_eq!(report.success_count, 0);
    assert_eq!(report.failure_count, 3);
    assert!(!report.all_succeeded());
    for result in runner.results() {
        assert_eq!(*result, WorkResult::Failure("invalid request".to_string(), 1));
    }
}

#[test]
fn failing_job_does_not_stop_the_others() {
    let config = RunConfig::new(4, 0, None, 2).unwrap();
    let mut runner: JobRunner<u32, String> = JobRunner::new(config);
    loop {
        match runner.next() {
            Dispatch::Start(token) => {
                let id = token.job().number();
                let (result, _) = run_job(config.max_attempts(), &mut |_| {
                    if id == 2 {
                        Err(("busy".to_string(), ErrorClass::Transient))
                    } else {
                        Ok(id as u32)
                    }
                });
                runner.complete(token, result);
            }
            Dispatch::Drained => break,
            Dispatch::AskLimiter | Dispatch::Parked => panic!("nothing limits this run"),
        }
    }
    let report = runner.finish(1_000_000_000).unwrap();
    assert_eq!(report.success_count, 3);
    assert_eq!(report.failure_count, 1);
    assert_eq!(runner.results()[1], WorkResult::Failure("busy".to_string(), 2));
    assert_eq!(report.rate_milli, Some(4_000));
}

#[test]
fn run_without_jobs_finishes_at_once() {
    let config = RunConfig::new(0, 0, None, 1).unwrap();
    let mut runner: JobRunner<u32, String> = JobRunner::new(config);
    assert!(runner.is_finished());
    assert!(matches!(runner.next(), Dispatch::Drained));
    let report = runner.finish(10).unwrap();
    assert_eq!(report.success_count + report.failure_count, 0);
}

#[test]
fn report_waits_for_every_job() {
    let config = RunConfig::new(2, 0, None, 1).unwrap();
    let mut runner: JobRunner<u32, String> = JobRunner::new(config);
    assert_eq!(runner.config().job_count(), 2);
    assert_eq!(runner.finish(1), None);
    let first = match runner.next() {
        Dispatch::Start(token) => token,
        _ => panic!("the first job starts at once"),
    };
    assert_eq!(first.job().number(), 1);
    runner.complete(first, WorkResult::Success(1));
    assert_eq!(runner.finish(1), None);
    assert!(!runner.is_finished());
    let second = match runner.next() {
        Dispatch::Start(token) => token,
        _ => panic!("the second job starts at once"),
    };
    assert_eq!(second.job().number(), 2);
    runner.complete(second, WorkResult::Success(2));
    assert!(runner.finish(1).is_some());
}

#[test]
fn unpaced_run_never_asks_the_limiter() {
    let config = RunConfig::new(50, 0, None, 1).unwrap();
    let mut runner: JobRunner<u32, String> = JobRunner::new(config);
    let mut tokens = Vec::new();
    loop {
        match runner.next() {
            Dispatch::Start(token) => tokens.push(token),
            Dispatch::Drained => break,
            Dispatch::AskLimiter | Dispatch::Parked => panic!("nothing limits this run"),
        }
    }
    assert_eq!(tokens.len(), 50);
    assert_eq!(runner.in_flight(), 50);
}
