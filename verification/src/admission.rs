//! Admission control: pacing by a token bucket, or a gate on concurrency.
//!
//! The token bucket itself is the governor crate's rate limiter, which the
//! caller owns and asks; `Pacing` turns its answer into a decision. The
//! concurrency gate is a counter of permits held here.

use governor::{Jitter, Quota};
use std::num::NonZeroU32;
use std::time::Duration;
use tokio::sync::Semaphore;
use vstd::prelude::*;

verus! {

/// Nanoseconds in a second.
pub const NANOS_PER_SECOND: u64 = 1_000_000_000;

/// `Quota::per_second` followed by `Quota::replenish_interval`: the time in
/// which a limiter of `rate` cells per second replenishes one cell, which
/// is a second divided by `rate`, rounded down to whole nanoseconds.
#[verifier::external_body]
fn replenish_interval(rate: u32) -> (nanos: u64)
    requires
        rate >= 1,
    ensures
        nanos == NANOS_PER_SECOND / (rate as u64),
{
    Quota::per_second(NonZeroU32::new(rate).unwrap()).replenish_interval().as_nanos() as u64
}

/// `Jitter::new(min, span)` added to a zero duration: a random number of
/// nanoseconds that is at least `min` and below `min + span`, or `min`
/// itself where `span` is zero.
#[verifier::external_body]
fn draw_jitter(min: u64, span: u64) -> (nanos: u64)
    requires
        min + span <= u64::MAX,
    ensures
        min <= nanos,
        span == 0 ==> nanos == min,
        span > 0 ==> nanos < min + span,
{
    let jitter = Jitter::new(Duration::from_nanos(min), Duration::from_nanos(span));
    (jitter + Duration::from_nanos(0)).as_nanos() as u64
}

/// `Semaphore::MAX_PERMITS` of tokio: the most permits that a semaphore can
/// hold, an eighth of `usize::MAX`, rounded down.
#[verifier::external_body]
fn semaphore_max_permits() -> (permits: usize)
    ensures
        permits == usize::MAX / 8,
{
    Semaphore::MAX_PERMITS
}

/// What the rate limiter answered when asked for one cell.
#[derive(Clone, Copy, Debug, PartialEq, Eq, Structural)]
pub enum LimiterCheck {
    /// A cell was available and has been taken.
    Granted,
    /// No cell before this many nanoseconds have passed.
    Denied(u64),
}

/// What a job that asks for admission is told.
#[derive(Clone, Copy, Debug, PartialEq, Eq, Structural)]
pub enum AdmissionDecision {
    /// Go ahead.
    Admit,
    /// Wait this many nanoseconds, then ask again.
    WaitFor(u64),
}

/// The rate that a rate limit stands for: zero means no limit, which the
/// limiter is given as the largest rate it can hold.
pub open spec fn spec_effective_rate(rate_limit: u32) -> u32 {
    if rate_limit == 0 {
        u32::MAX
    } else {
        rate_limit
    }
}

/// See `spec_effective_rate`.
#[verifier::when_used_as_spec(spec_effective_rate)]
pub fn effective_rate(rate_limit: u32) -> (rate: u32)
    ensures
        rate == spec_effective_rate(rate_limit),
        rate >= 1,
{
    if rate_limit == 0 {
        u32::MAX
    } else {
        rate_limit
    }
}

/// Pacing of admissions at `rate_limit` per second.
#[derive(Clone, Copy, Debug)]
pub struct Pacing {
    rate_limit: u32,
    interval: u64,
}

impl Pacing {
    pub closed spec fn spec_rate_limit(&self) -> u32 {
        self.rate_limit
    }

    pub closed spec fn spec_interval(&self) -> u64 {
        self.interval
    }

    /// True where nothing is paced.
    pub open spec fn spec_is_unlimited(&self) -> bool {
        self.spec_rate_limit() == 0
    }

    /// The invariant: the interval is that in which one token is
    /// replenished at the effective rate.
    pub open spec fn wf(&self) -> bool {
        self.spec_interval() == NANOS_PER_SECOND / (spec_effective_rate(
            self.spec_rate_limit(),
        ) as u64)
    }

    /// Pacing for a rate limit, where zero stands for no limit.
    pub fn new(rate_limit: u32) -> (p: Pacing)
        ensures
            p.wf(),
            p.spec_rate_limit() == rate_limit,
    {
        Pacing { rate_limit, interval: replenish_interval(effective_rate(rate_limit)) }
    }

    /// The rate limit; zero stands for no limit.
    #[verifier::when_used_as_spec(spec_rate_limit)]
    pub fn rate_limit(&self) -> (r: u32)
        ensures
            r == self.spec_rate_limit(),
    {
        self.rate_limit
    }

    /// Nanoseconds in which one token is replenished.
    #[verifier::when_used_as_spec(spec_interval)]
    pub fn replenish_interval(&self) -> (nanos: u64)
        ensures
            nanos == self.spec_interval(),
    {
        self.interval
    }

    /// True where nothing is paced: the limiter need not be asked.
    #[verifier::when_used_as_spec(spec_is_unlimited)]
    pub fn is_unlimited(&self) -> (b: bool)
        ensures
            b == self.spec_is_unlimited(),
    {
        self.rate_limit == 0
    }

    /// The decision, given the limiter's answer and the jitter drawn.
    ///
    /// Without a limit every job is admitted at once, whatever the limiter
    /// says. With one, a job is admitted when the limiter grants a cell;
    /// when it does not, the job waits for as long as the limiter says and
    /// for the jitter on top, or for `u64::MAX` nanoseconds where the sum
    /// is beyond that.
    pub open spec fn decision(&self, check: LimiterCheck, jitter: u64) -> AdmissionDecision {
        if self.spec_is_unlimited() {
            AdmissionDecision::Admit
        } else {
            match check {
                LimiterCheck::Granted => AdmissionDecision::Admit,
                LimiterCheck::Denied(wait) => if wait + jitter <= u64::MAX {
                    AdmissionDecision::WaitFor((wait + jitter) as u64)
                } else {
                    AdmissionDecision::WaitFor(u64::MAX)
                },
            }
        }
    }

    /// True where `jitter` lies in the window of this pacing: from one
    /// replenish interval up to, and without, three of them.
    pub open spec fn in_jitter_window(&self, jitter: u64) -> bool {
        let i = self.spec_interval();
        i <= jitter && (i == 0 ==> jitter == 0) && (i > 0 ==> jitter < 3 * i)
    }

    /// The pure form of the decision: it takes the jitter as an argument.
    pub fn decide(&self, check: LimiterCheck, jitter: u64) -> (d: AdmissionDecision)
        ensures
            d == self.decision(check, jitter),
    {
        if self.rate_limit == 0 {
            return AdmissionDecision::Admit;
        }
        match check {
            LimiterCheck::Granted => AdmissionDecision::Admit,
            LimiterCheck::Denied(wait) => match wait.checked_add(jitter) {
                Some(total) => AdmissionDecision::WaitFor(total),
                None => AdmissionDecision::WaitFor(u64::MAX),
            },
        }
    }

    /// Takes the limiter's answer and decides. Where the job has to wait,
    /// jitter is drawn at random from the window, so that jobs which were
    /// refused at the same moment do not come back at the same moment: the
    /// decision is then `decision` of whatever was drawn.
    pub fn on_check(&self, check: LimiterCheck) -> (d: AdmissionDecision)
        requires
            self.wf(),
        ensures
            self.spec_is_unlimited() || check == LimiterCheck::Granted ==> d
                == AdmissionDecision::Admit,
            !self.spec_is_unlimited() && check is Denied ==> exists|jitter: u64|
                self.in_jitter_window(jitter) && d == self.decision(check, jitter),
    {
        if self.rate_limit == 0 {
            return AdmissionDecision::Admit;
        }
        match check {
            LimiterCheck::Granted => AdmissionDecision::Admit,
            LimiterCheck::Denied(_) => {
                let jitter = draw_jitter(self.interval, 2 * self.interval);
                assert(self.in_jitter_window(jitter));
                self.decide(check, jitter)
            },
        }
    }
}

/// Without a rate limit no job is ever delayed: whatever the limiter
/// answers and whatever jitter is drawn, the decision is to go ahead.
pub proof fn law_no_limit_no_delay(pacing: Pacing, check: LimiterCheck, jitter: u64)
    requires
        pacing.spec_is_unlimited(),
    ensures
        pacing.decision(check, jitter) == AdmissionDecision::Admit,
{
}

/// Under a rate limit the slack that jitter adds is bounded: a job that was
/// refused waits at least one replenish interval longer than the limiter
/// asks, and no more than three, and an interval is at most a second.
pub proof fn law_jitter_slack_is_bounded(pacing: Pacing, wait: u64, jitter: u64)
    requires
        pacing.wf(),
        !pacing.spec_is_unlimited(),
        pacing.in_jitter_window(jitter),
        wait + jitter <= u64::MAX,
    ensures
        pacing.spec_interval() <= NANOS_PER_SECOND,
        pacing.decision(LimiterCheck::Denied(wait), jitter) matches AdmissionDecision::WaitFor(
            nanos,
        ) && wait + pacing.spec_interval() <= nanos <= wait + 3 * pacing.spec_interval(),
{
}

/// What can happen at a gate.
#[derive(Clone, Copy, Debug, PartialEq, Eq, Structural)]
pub enum GateEvent {
    /// A job asks for a permit.
    Acquire,
    /// A job hands its permit back.
    Release,
}

/// The permits that a concurrency limit stands for, given the most that a
/// gate can hold: no limit stands for that most, and a limit beyond it is
/// cut down to it.
pub open spec fn gate_capacity(limit: Option<u32>, most: usize) -> usize {
    match limit {
        None => most,
        Some(k) => if k as int <= most as int {
            k as usize
        } else {
            most
        },
    }
}

/// The permits outstanding after one event at a gate of `capacity` permits
/// with `outstanding` of them handed out. A request is granted while a
/// permit is left, and otherwise changes nothing; a release returns one
/// permit, if one is out.
pub open spec fn gate_step(capacity: usize, outstanding: usize, event: GateEvent) -> usize {
    match event {
        GateEvent::Acquire => if outstanding < capacity {
            (outstanding + 1) as usize
        } else {
            outstanding
        },
        GateEvent::Release => if outstanding > 0 {
            (outstanding - 1) as usize
        } else {
            outstanding
        },
    }
}

/// The permits outstanding after a run of events at a gate that started
/// with none handed out.
pub open spec fn gate_after(capacity: usize, events: Seq<GateEvent>) -> usize
    decreases events.len(),
{
    if events.len() == 0 {
        0
    } else {
        gate_step(capacity, gate_after(capacity, events.drop_last()), events.last())
    }
}

/// At no moment of any run are more permits outstanding than there are:
/// after every prefix of every run of events the count is within the
/// capacity.
pub proof fn law_gate_never_exceeds_capacity(capacity: usize, events: Seq<GateEvent>, upto: int)
    requires
        0 <= upto <= events.len(),
    ensures
        gate_after(capacity, events.take(upto)) <= capacity,
    decreases upto,
{
    let prefix = events.take(upto);
    if upto > 0 {
        assert(prefix.drop_last() == events.take(upto - 1));
        law_gate_never_exceeds_capacity(capacity, events, upto - 1);
    }
}

/// A gate that lets at most a fixed number of jobs run at once.
#[derive(Debug)]
pub struct ConcurrencyGate {
    capacity: usize,
    outstanding: usize,
}

impl ConcurrencyGate {
    pub closed spec fn spec_capacity(&self) -> usize {
        self.capacity
    }

    pub closed spec fn spec_outstanding(&self) -> usize {
        self.outstanding
    }

    /// The invariant: never more permits out than there are.
    pub open spec fn wf(&self) -> bool {
        self.spec_outstanding() <= self.spec_capacity()
    }

    /// A gate of `limit` permits, none of them handed out. `None` stands
    /// for no limit: there are then as many permits as a semaphore can
    /// hold, and a limit beyond that number is cut down to it.
    pub fn new(limit: Option<u32>) -> (gate: ConcurrencyGate)
        ensures
            gate.wf(),
            gate.spec_outstanding() == 0,
            gate.spec_capacity() == gate_capacity(limit, (usize::MAX / 8) as usize),
            limit matches Some(k) ==> gate.spec_capacity() <= k,
    {
        let most = semaphore_max_permits();
        let capacity = match limit {
            None => most,
            Some(k) => {
                let wanted = k as usize;
                if wanted <= most {
                    wanted
                } else {
                    most
                }
            },
        };
        ConcurrencyGate { capacity, outstanding: 0 }
    }

    /// Permits in all.
    #[verifier::when_used_as_spec(spec_capacity)]
    pub fn capacity(&self) -> (n: usize)
        ensures
            n == self.spec_capacity(),
    {
        self.capacity
    }

    /// Permits handed out and not yet returned.
    #[verifier::when_used_as_spec(spec_outstanding)]
    pub fn outstanding(&self) -> (n: usize)
        ensures
            n == self.spec_outstanding(),
    {
        self.outstanding
    }

    /// Permits left to hand out.
    pub fn available(&self) -> (n: usize)
        requires
            self.wf(),
        ensures
            n == self.spec_capacity() - self.spec_outstanding(),
    {
        self.capacity - self.outstanding
    }

    /// Hands out a permit if one is left, and says whether it did.
    pub fn try_acquire(&mut self) -> (granted: bool)
        requires
            old(self).wf(),
        ensures
            final(self).wf(),
            final(self).spec_capacity() == old(self).spec_capacity(),
            granted == (old(self).spec_outstanding() < old(self).spec_capacity()),
            final(self).spec_outstanding() == gate_step(
                old(self).spec_capacity(),
                old(self).spec_outstanding(),
                GateEvent::Acquire,
            ),
    {
        if self.outstanding < self.capacity {
            self.outstanding = self.outstanding + 1;
            true
        } else {
            false
        }
    }

    /// Takes a permit back. Without a permit out, nothing changes.
    pub fn release(&mut self)
        requires
            old(self).wf(),
        ensures
            final(self).wf(),
            final(self).spec_capacity() == old(self).spec_capacity(),
            final(self).spec_outstanding() == gate_step(
                old(self).spec_capacity(),
                old(self).spec_outstanding(),
                GateEvent::Release,
            ),
    {
        if self.outstanding > 0 {
            self.outstanding = self.outstanding - 1;
        }
    }
}

} // verus!
