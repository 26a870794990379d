//! Bounded retry with backoff.
//!
//! One `RetryExecutor` serves one job. It counts the attempts, and after
//! each failed one decides between giving up and waiting for another try.
//! The waiting itself is the caller's.

use crate::outcome::{ErrorClass, WorkResult};
use backoff::backoff::Backoff;
use backoff::exponential::ExponentialBackoff;
use backoff::SystemClock;
use vstd::prelude::*;

verus! {

/// The backoff crate's exponential schedule, carried as an opaque value.
#[verifier::external_type_specification]
#[verifier::external_body]
#[verifier::reject_recursive_types(C)]
pub struct ExExponentialBackoff<C>(ExponentialBackoff<C>);

/// The backoff crate's clock, which reads the system's time.
#[verifier::external_type_specification]
#[verifier::external_body]
pub struct ExSystemClock(SystemClock);

/// `ExponentialBackoff::default` of the backoff crate: a schedule with the
/// crate's default intervals, whose elapsed time starts at the call. Nothing
/// is claimed of the value.
#[verifier::external_body]
fn default_schedule() -> (schedule: ExponentialBackoff<SystemClock>) {
    ExponentialBackoff::default()
}

/// `Backoff::next_backoff` on an exponential schedule: the next delay in
/// nanoseconds, or `None` once the schedule's elapsed-time budget is spent.
/// The delay is drawn at random and the budget is measured by the clock, so
/// nothing is claimed of the result.
#[verifier::external_body]
fn next_delay(schedule: &mut ExponentialBackoff<SystemClock>) -> (delay: Option<u64>) {
    schedule.next_backoff().map(|d| d.as_nanos() as u64)
}

/// What follows one attempt.
#[derive(Clone, Debug, PartialEq, Eq)]
pub enum RetryDecision<T, E> {
    /// The job is over, with this outcome.
    Done(WorkResult<T, E>),
    /// Wait this many nanoseconds, then try again.
    RetryAfter(u64),
}

/// The rule of the executor. `attempts` counts the attempt that gave
/// `outcome`; `class` is the class of the error, if there is one; `delay` is
/// what the backoff schedule offers.
///
/// A success ends the job at once. A permanent error ends it at once. A
/// transient error ends it when the attempt budget is spent or the schedule
/// offers no further delay; otherwise the job waits and tries again.
pub open spec fn decide<T, E>(
    attempts: usize,
    max_attempts: usize,
    outcome: Result<T, E>,
    class: ErrorClass,
    delay: Option<u64>,
) -> RetryDecision<T, E> {
    match outcome {
        Ok(v) => RetryDecision::Done(WorkResult::Success(v)),
        Err(e) => if class == ErrorClass::Permanent || attempts >= max_attempts {
            RetryDecision::Done(WorkResult::Failure(e, attempts))
        } else {
            match delay {
                Some(d) => RetryDecision::RetryAfter(d),
                None => RetryDecision::Done(WorkResult::Failure(e, attempts)),
            }
        },
    }
}

/// True where `decide` looks at the delay: a transient error with budget left.
pub open spec fn wants_delay<T, E>(
    attempts: usize,
    max_attempts: usize,
    outcome: Result<T, E>,
    class: ErrorClass,
) -> bool {
    outcome is Err && class == ErrorClass::Transient && attempts < max_attempts
}

/// The class of every error where nothing is known of errors: worth another
/// try, for as long as the budget lasts.
pub fn always_transient<E>(error: &E) -> (class: ErrorClass)
    ensures
        class == ErrorClass::Transient,
{
    ErrorClass::Transient
}

/// The pure form of the rule: it takes the schedule's offer as an argument.
pub fn settle<T, E>(
    attempts: usize,
    max_attempts: usize,
    outcome: Result<T, E>,
    class: ErrorClass,
    delay: Option<u64>,
) -> (d: RetryDecision<T, E>)
    ensures
        d == decide(attempts, max_attempts, outcome, class, delay),
{
    match outcome {
        Ok(v) => RetryDecision::Done(WorkResult::Success(v)),
        Err(e) => {
            let permanent = match class {
                ErrorClass::Permanent => true,
                ErrorClass::Transient => false,
            };
            if permanent || attempts >= max_attempts {
                RetryDecision::Done(WorkResult::Failure(e, attempts))
            } else {
                match delay {
                    Some(d) => RetryDecision::RetryAfter(d),
                    None => RetryDecision::Done(WorkResult::Failure(e, attempts)),
                }
            }
        },
    }
}

/// Where an executor stands between two calls.
#[derive(Clone, Copy, Debug, PartialEq, Eq, Structural)]
pub enum Phase {
    /// The next attempt may begin.
    Ready,
    /// An attempt is under way and its outcome is awaited.
    Running,
    /// The job is over.
    Finished,
}

/// The mutable state of one job's retries.
#[derive(Clone, Copy, Debug, PartialEq, Eq, Structural)]
pub struct RetryState {
    /// Attempts begun so far.
    pub attempts: usize,
    /// When the latest failed attempt ended, in nanoseconds on the
    /// caller's clock; `None` before the first failure.
    pub last_failure_at: Option<u64>,
}

/// Retries one job within an attempt budget.
pub struct RetryExecutor {
    max_attempts: usize,
    state: RetryState,
    phase: Phase,
    schedule: ExponentialBackoff<SystemClock>,
}

impl RetryExecutor {
    pub closed spec fn spec_max_attempts(&self) -> usize {
        self.max_attempts
    }

    pub closed spec fn spec_state(&self) -> RetryState {
        self.state
    }

    pub closed spec fn spec_phase(&self) -> Phase {
        self.phase
    }

    /// Attempts begun so far.
    pub open spec fn spec_attempts(&self) -> usize {
        self.spec_state().attempts
    }

    /// The invariant: an executor that is ready has budget for the attempt
    /// it is ready for, and one that has begun an attempt is within budget.
    pub open spec fn wf(&self) -> bool {
        let n = self.spec_attempts();
        let m = self.spec_max_attempts();
        match self.spec_phase() {
            Phase::Ready => n == 0 || n < m,
            Phase::Running => n == 1 || (1 <= n && n <= m),
            Phase::Finished => n == 1 || (1 <= n && n <= m),
        }
    }

    /// A fresh executor: no attempt made, no failure seen, ready to begin.
    pub fn new(max_attempts: usize) -> (ex: RetryExecutor)
        ensures
            ex.wf(),
            ex.spec_max_attempts() == max_attempts,
            ex.spec_state() == (RetryState { attempts: 0, last_failure_at: None }),
            ex.spec_phase() == Phase::Ready,
    {
        RetryExecutor {
            max_attempts,
            state: RetryState { attempts: 0, last_failure_at: None },
            phase: Phase::Ready,
            schedule: default_schedule(),
        }
    }

    /// The attempt budget.
    #[verifier::when_used_as_spec(spec_max_attempts)]
    pub fn max_attempts(&self) -> (m: usize)
        ensures
            m == self.spec_max_attempts(),
    {
        self.max_attempts
    }

    /// Attempts begun so far.
    #[verifier::when_used_as_spec(spec_attempts)]
    pub fn attempts(&self) -> (n: usize)
        ensures
            n == self.spec_attempts(),
    {
        self.state.attempts
    }

    /// The retry state.
    #[verifier::when_used_as_spec(spec_state)]
    pub fn state(&self) -> (s: RetryState)
        ensures
            s == self.spec_state(),
    {
        self.state
    }

    /// Where the executor stands.
    #[verifier::when_used_as_spec(spec_phase)]
    pub fn phase(&self) -> (p: Phase)
        ensures
            p == self.spec_phase(),
    {
        self.phase
    }

    /// Counts the attempt that is about to run and returns its number,
    /// starting at one.
    pub fn begin_attempt(&mut self) -> (number: usize)
        requires
            old(self).wf(),
            old(self).spec_phase() == Phase::Ready,
        ensures
            final(self).wf(),
            final(self).spec_phase() == Phase::Running,
            final(self).spec_max_attempts() == old(self).spec_max_attempts(),
            number == old(self).spec_attempts() + 1,
            final(self).spec_state() == (RetryState {
                attempts: number,
                last_failure_at: old(self).spec_state().last_failure_at,
            }),
    {
        let number: usize = self.state.attempts + 1;
        self.state.attempts = number;
        self.phase = Phase::Running;
        number
    }

    /// Takes the outcome of the attempt under way, with the class of its
    /// error and the time `now` at which it ended, and decides what follows.
    ///
    /// The backoff schedule is asked for a delay only after a transient
    /// error with budget left. What it answers depends on chance and on the
    /// clock: the decision is then `decide` of whatever it answered.
    pub fn on_outcome<T, E>(&mut self, outcome: Result<T, E>, class: ErrorClass, now: u64) -> (d:
        RetryDecision<T, E>)
        requires
            old(self).wf(),
            old(self).spec_phase() == Phase::Running,
        ensures
            final(self).wf(),
            final(self).spec_max_attempts() == old(self).spec_max_attempts(),
            final(self).spec_attempts() == old(self).spec_attempts(),
            final(self).spec_state().last_failure_at == (if outcome is Err {
                Some(now)
            } else {
                old(self).spec_state().last_failure_at
            }),
            final(self).spec_phase() == (if d is RetryAfter {
                Phase::Ready
            } else {
                Phase::Finished
            }),
            wants_delay(old(self).spec_attempts(), old(self).spec_max_attempts(), outcome, class)
                ==> exists|delay: Option<u64>|
                d == decide(
                    old(self).spec_attempts(),
                    old(self).spec_max_attempts(),
                    outcome,
                    class,
                    delay,
                ),
            !wants_delay(old(self).spec_attempts(), old(self).spec_max_attempts(), outcome, class)
                ==> d == decide(
                old(self).spec_attempts(),
                old(self).spec_max_attempts(),
                outcome,
                class,
                None,
            ),
    {
        let attempts = self.state.attempts;
        let failed = outcome.is_err();
        let transient = match class {
            ErrorClass::Transient => true,
            ErrorClass::Permanent => false,
        };
        let delay = if failed && transient && attempts < self.max_attempts {
            next_delay(&mut self.schedule)
        } else {
            None
        };
        if failed {
            self.state.last_failure_at = Some(now);
        }
        let d = settle(attempts, self.max_attempts, outcome, class, delay);
        match &d {
            RetryDecision::RetryAfter(_) => {
                self.phase = Phase::Ready;
            },
            RetryDecision::Done(_) => {
                self.phase = Phase::Finished;
            },
        }
        d
    }
}

/// One attempt as the executor sees it: what the work returned, the class
/// of its error, and the delay that the backoff schedule would offer.
pub struct AttemptEvent<T, E> {
    pub outcome: Result<T, E>,
    pub class: ErrorClass,
    pub delay: Option<u64>,
}

/// A whole job, given the attempts in the order in which they would run.
/// `done` attempts lie behind. The result is the final outcome with the
/// number of attempts made, or `None` where the events end before the job
/// does.
pub open spec fn replay<T, E>(
    events: Seq<AttemptEvent<T, E>>,
    max_attempts: usize,
    done: usize,
) -> Option<(WorkResult<T, E>, usize)>
    decreases events.len(),
{
    if events.len() == 0 {
        None
    } else {
        let number = (done + 1) as usize;
        let first = events[0];
        match decide(number, max_attempts, first.outcome, first.class, first.delay) {
            RetryDecision::Done(result) => Some((result, number)),
            RetryDecision::RetryAfter(_) => replay(events.drop_first(), max_attempts, number),
        }
    }
}

/// True where the attempt fails with a transient error and the schedule
/// offers a delay.
pub open spec fn retryable<T, E>(event: AttemptEvent<T, E>) -> bool {
    event.outcome is Err && event.class == ErrorClass::Transient && event.delay is Some
}

proof fn lemma_replay_exhausts<T, E>(
    events: Seq<AttemptEvent<T, E>>,
    max_attempts: usize,
    done: usize,
)
    requires
        done < max_attempts,
        events.len() >= max_attempts - done,
        forall|i: int| 0 <= i < max_attempts - done ==> retryable(#[trigger] events[i]),
    ensures
        replay(events, max_attempts, done) == Some(
            (
                WorkResult::<T, E>::Failure(events[max_attempts - done - 1].outcome->Err_0, max_attempts),
                max_attempts,
            ),
        ),
    decreases max_attempts - done,
{
    let number = (done + 1) as usize;
    assert(retryable(events[0]));
    if number < max_attempts {
        let rest = events.drop_first();
        assert forall|i: int| 0 <= i < max_attempts - number implies retryable(
            #[trigger] rest[i],
        ) by {
            assert(rest[i] == events[i + 1]);
        }
        lemma_replay_exhausts(rest, max_attempts, number);
        assert(rest[max_attempts - number - 1] == events[max_attempts - done - 1]);
    }
}

/// A job whose every attempt fails with a transient error, and whose
/// schedule keeps offering delays, is tried exactly `max_attempts` times and
/// then fails with the error of its last attempt.
pub proof fn law_transient_failures_exhaust_budget<T, E>(
    events: Seq<AttemptEvent<T, E>>,
    max_attempts: usize,
)
    requires
        max_attempts >= 1,
        events.len() >= max_attempts,
        forall|i: int| 0 <= i < max_attempts ==> retryable(#[trigger] events[i]),
    ensures
        replay(events, max_attempts, 0) == Some(
            (
                WorkResult::<T, E>::Failure(events[max_attempts - 1].outcome->Err_0, max_attempts),
                max_attempts,
            ),
        ),
{
    lemma_replay_exhausts(events, max_attempts, 0);
}

/// A job whose first attempt fails with a permanent error is tried exactly
/// once, whatever the budget and whatever would have followed.
pub proof fn law_permanent_failure_stops_at_once<T, E>(
    events: Seq<AttemptEvent<T, E>>,
    max_attempts: usize,
)
    requires
        events.len() >= 1,
        events[0].outcome is Err,
        events[0].class == ErrorClass::Permanent,
    ensures
        replay(events, max_attempts, 0) == Some(
            (WorkResult::<T, E>::Failure(events[0].outcome->Err_0, 1), 1usize),
        ),
{
}

/// A job that succeeds at some attempt within the budget, after nothing but
/// retryable failures, ends in that success at that attempt.
pub proof fn law_success_ends_the_job<T, E>(
    events: Seq<AttemptEvent<T, E>>,
    max_attempts: usize,
    done: usize,
    at: int,
)
    requires
        0 <= at < events.len(),
        done + at < max_attempts,
        events[at].outcome is Ok,
        forall|i: int| 0 <= i < at ==> retryable(#[trigger] events[i]),
    ensures
        replay(events, max_attempts, done) == Some(
            (WorkResult::<T, E>::Success(events[at].outcome->Ok_0), (done + at + 1) as usize),
        ),
    decreases at,
{
    if at > 0 {
        let rest = events.drop_first();
        assert(retryable(events[0]));
        assert forall|i: int| 0 <= i < at - 1 implies retryable(#[trigger] rest[i]) by {
            assert(rest[i] == events[i + 1]);
        }
        assert(rest[at - 1] == events[at]);
        law_success_ends_the_job(rest, max_attempts, (done + 1) as usize, at - 1);
    }
}

/// No job is retried without end: one that ends has made at least one
/// attempt and, with a budget of at least one, no more than the budget. A
/// failure carries the number of attempts made.
pub proof fn law_attempts_within_budget<T, E>(
    events: Seq<AttemptEvent<T, E>>,
    max_attempts: usize,
    done: usize,
)
    requires
        done < max_attempts,
        replay(events, max_attempts, done) is Some,
    ensures
        done < replay(events, max_attempts, done)->Some_0.1 <= max_attempts,
        replay(events, max_attempts, done)->Some_0.0 matches WorkResult::Failure(_, n) ==> n
            == replay(events, max_attempts, done)->Some_0.1,
    decreases events.len(),
{
    let number = (done + 1) as usize;
    let first = events[0];
    match decide(number, max_attempts, first.outcome, first.class, first.delay) {
        RetryDecision::Done(_) => {},
        RetryDecision::RetryAfter(_) => {
            law_attempts_within_budget(events.drop_first(), max_attempts, number);
        },
    }
}

} // verus!
