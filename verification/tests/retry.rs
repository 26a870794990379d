use job_engine::outcome::{ErrorClass, WorkResult};
use job_engine::retry::{settle, Phase, RetryDecision, RetryExecutor, RetryState};

fn run_job(
    max_attempts: usize,
    outcomes: &[Result<u32, (String, ErrorClass)>],
) -> (WorkResult<u32, String>, usize, Vec<u64>) {
    let mut executor = RetryExecutor::new(max_attempts);
    let mut delays = Vec::new();
    let mut clock = 0u64;
    loop {
        assert_eq!(executor.phase(), Phase::Ready);
        let number = executor.begin_attempt();
        assert_eq!(executor.phase(), Phase::Running);
        let (outcome, class) = match &outcomes[number - 1] {
            Ok(v) => (Ok(*v), ErrorClass::Transient),
            Err((e, class)) => (Err(e.clone()), *class),
        };
        clock += 10;
        match executor.on_outcome(outcome, class, clock) {
            RetryDecision::Done(result) => {
                assert_eq!(executor.phase(), Phase::Finished);
                return (result, executor.attempts(), delays);
            }
            RetryDecision::RetryAfter(nanos) => {
                clock += nanos;
                delays.push(nanos);
            }
        }
    }
}

fn transient(text: &str) -> Result<u32, (String, ErrorClass)> {
    Err((text.to_string(), ErrorClass::Transient))
}

fn permanent(text: &str) -> Result<u32, (String, ErrorClass)> {
    Err((text.to_string(), ErrorClass::Permanent))
}

#[test]
fn succeeds_on_third_attempt_after_two_transient_failures() {
    let (result, attempts, delays) = run_job(3, &[transient("busy"), transient("busy"), Ok(7)]);
    assert_eq!(result, WorkResult::Success(7));
    assert_eq!(attempts, 3);
    assert_eq!(delays.len(), 2);
}

#[test]
fn transient_failures_use_the_whole_budget() {
    let outcomes = vec![transient("a"), transient("b"), transient("c"), Ok(1)];
    let (result, attempts, delays) = run_job(3, &outcomes);
    assert_eq!(result, WorkResult::Failure("c".to_string(), 3));
    assert_eq!(attempts, 3);
    assert_eq!(delays.len(), 2);
}

#[test]
fn permanent_failure_is_tried_once() {
    let (result, attempts, delays) = run_job(5, &[permanent("bad request"), Ok(1)]);
    assert_eq!(result, WorkResult::Failure("bad request".to_string(), 1));
    assert_eq!(attempts, 1);
    assert!(delays.is_empty());
}

#[test]
fn success_at_once_makes_one_attempt() {
    let (result, attempts, delays) = run_job(3, &[Ok(42)]);
    assert_eq!(result, WorkResult::Success(42));
    assert_eq!(attempts, 1);
    assert!(delays.is_empty());
}

#[test]
fn budget_of_one_never_retries() {
    let (result, attempts, _) = run_job(1, &[transient("busy"), Ok(1)]);
    assert_eq!(result, WorkResult::Failure("busy".to_string(), 1));
    assert_eq!(attempts, 1);
}

#[test]
fn permanent_failure_after_a_retry_stops_there() {
    let (result, attempts, delays) = run_job(4, &[transient("busy"), permanent("gone"), Ok(1)]);
    assert_eq!(result, WorkResult::Failure("gone".to_string(), 2));
    assert_eq!(attempts, 2);
    assert_eq!(delays.len(), 1);
}

#[test]
fn first_delays_follow_the_default_schedule() {
    // The schedule starts at half a second and grows by half each time,
    // each delay drawn from within a half of its interval on either side.
    let (_, _, delays) = run_job(3, &[transient("a"), transient("b"), transient("c")]);
    assert_eq!(delays.len(), 2);
    assert!(delays[0] >= 250_000_000 && delays[0] <= 750_000_001, "{}", delays[0]);
    assert!(delays[1] >= 375_000_000 && delays[1] <= 1_125_000_001, "{}", delays[1]);
}

#[test]
fn fresh_executor_has_made_no_attempt() {
    let executor = RetryExecutor::new(3);
    assert_eq!(executor.max_attempts(), 3);
    assert_eq!(executor.attempts(), 0);
    assert_eq!(executor.state(), RetryState { attempts: 0, last_failure_at: None });
    assert_eq!(executor.phase(), Phase::Ready);
}

#[test]
fn failure_time_is_recorded() {
    let mut executor = RetryExecutor::new(3);
    assert_eq!(executor.begin_attempt(), 1);
    let decision = executor.on_outcome::<u32, &str>(Err("busy"), ErrorClass::Transient, 1234);
    assert!(matches!(decision, RetryDecision::RetryAfter(_)));
    assert_eq!(executor.state(), RetryState { attempts: 1, last_failure_at: Some(1234) });
    assert_eq!(executor.begin_attempt(), 2);
    let decision = executor.on_outcome::<u32, &str>(Ok(5), ErrorClass::Transient, 5678);
    assert_eq!(decision, RetryDecision::Done(WorkResult::Success(5)));
    assert_eq!(executor.state(), RetryState { attempts: 2, last_failure_at: Some(1234) });
}

#[test]
fn settle_follows_the_rule() {
    let ok: Result<u32, &str> = Ok(1);
    let err: Result<u32, &str> = Err("e");
    assert_eq!(
        settle(1, 3, ok, ErrorClass::Permanent, Some(9)),
        RetryDecision::Done(WorkResult::Success(1))
    );
    assert_eq!(settle(1, 3, err, ErrorClass::Transient, Some(9)), RetryDecision::RetryAfter(9));
    assert_eq!(
        settle(1, 3, err, ErrorClass::Transient, None),
        RetryDecision::Done(WorkResult::Failure("e", 1))
    );
    assert_eq!(
        settle(3, 3, err, ErrorClass::Transient, Some(9)),
        RetryDecision::Done(WorkResult::Failure("e", 3))
    );
    assert_eq!(
        settle(1, 3, err, ErrorClass::Permanent, Some(9)),
        RetryDecision::Done(WorkResult::Failure("e", 1))
    );
}

#[test]
fn work_result_converts_to_result() {
    let success: WorkResult<u32, &str> = WorkResult::Success(3);
    let failure: WorkResult<u32, &str> = WorkResult::Failure("e", 2);
    assert!(success.is_success() && !success.is_failure());
    assert!(failure.is_failure() && !failure.is_success());
    assert_eq!(success.into_result(), Ok(3));
    assert_eq!(failure.into_result(), Err("e"));
}
