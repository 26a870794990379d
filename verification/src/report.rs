//! The throughput report of a run.

use crate::outcome::WorkResult;
use vstd::prelude::*;

verus! {

/// Thousandths of a job in one job, times nanoseconds in a second: the
/// factor between jobs per nanosecond and thousandths of a job per second.
pub const MILLI_JOBS_PER_JOB_NANOS: u128 = 1_000_000_000_000;

/// The aggregate of a run.
#[derive(Clone, Copy, Debug, PartialEq, Eq, Structural)]
pub struct RunReport {
    /// Wall-clock time of the whole run, in nanoseconds.
    pub elapsed_nanos: u64,
    /// Throughput in thousandths of a job per second, rounded down; `None`
    /// where no time has passed.
    pub rate_milli: Option<u128>,
    /// Jobs that ended in `Success`.
    pub success_count: usize,
    /// Jobs that ended in `Failure`.
    pub failure_count: usize,
}

/// Number of successes among the results.
pub open spec fn count_successes<T, E>(results: Seq<WorkResult<T, E>>) -> nat
    decreases results.len(),
{
    if results.len() == 0 {
        0
    } else {
        count_successes(results.drop_last()) + if results.last() is Success {
            1nat
        } else {
            0nat
        }
    }
}

/// Throughput of `jobs` jobs in `elapsed_nanos` nanoseconds, in thousandths
/// of a job per second, rounded down.
pub open spec fn rate_milli_of(jobs: nat, elapsed_nanos: u64) -> Option<u128> {
    if elapsed_nanos == 0 {
        None
    } else {
        Some(((jobs * MILLI_JOBS_PER_JOB_NANOS) / (elapsed_nanos as int)) as u128)
    }
}

/// The report of the given results and elapsed time.
pub open spec fn summary_of<T, E>(results: Seq<WorkResult<T, E>>, elapsed_nanos: u64) -> RunReport {
    RunReport {
        elapsed_nanos,
        rate_milli: rate_milli_of(results.len(), elapsed_nanos),
        success_count: count_successes(results) as usize,
        failure_count: (results.len() - count_successes(results)) as usize,
    }
}

/// There are no more successes than results.
pub proof fn lemma_successes_bounded<T, E>(results: Seq<WorkResult<T, E>>)
    ensures
        count_successes(results) <= results.len(),
    decreases results.len(),
{
    if results.len() > 0 {
        lemma_successes_bounded(results.drop_last());
    }
}

/// Every result is counted once: successes and failures add up to the
/// number of results, for any results of a length that a machine can hold.
pub proof fn law_every_result_counted<T, E>(results: Seq<WorkResult<T, E>>, elapsed_nanos: u64)
    requires
        results.len() <= usize::MAX,
    ensures
        summary_of(results, elapsed_nanos).success_count + summary_of(
            results,
            elapsed_nanos,
        ).failure_count == results.len(),
{
    lemma_successes_bounded(results);
}

/// The report depends on the results and the elapsed time alone: the same
/// arguments give the same report, however often it is asked for.
pub proof fn law_same_arguments_same_report<T, E>(
    first: Seq<WorkResult<T, E>>,
    first_elapsed: u64,
    second: Seq<WorkResult<T, E>>,
    second_elapsed: u64,
)
    requires
        first == second,
        first_elapsed == second_elapsed,
    ensures
        summary_of(first, first_elapsed) == summary_of(second, second_elapsed),
{
}

impl RunReport {
    /// True where no job failed.
    pub open spec fn spec_all_succeeded(&self) -> bool {
        self.failure_count == 0
    }

    /// True where no job failed. Whether failures fail the run is for the
    /// caller to say.
    #[verifier::when_used_as_spec(spec_all_succeeded)]
    pub fn all_succeeded(&self) -> (b: bool)
        ensures
            b == self.spec_all_succeeded(),
    {
        self.failure_count == 0
    }
}

/// Counts successes and failures and derives the rate.
pub fn summarize<T, E>(results: &[WorkResult<T, E>], elapsed_nanos: u64) -> (report: RunReport)
    ensures
        report == summary_of(results@, elapsed_nanos),
        report.success_count + report.failure_count == results@.len(),
{
    let n = results.len();
    let mut successes: usize = 0;
    let mut i: usize = 0;
    while i < n
        invariant
            n == results@.len(),
            i <= n,
            successes == count_successes(results@.take(i as int)),
            successes <= i,
        decreases n - i,
    {
        assert(results@.take(i + 1).drop_last() == results@.take(i as int));
        if results[i].is_success() {
            successes = successes + 1;
        }
        i = i + 1;
    }
    assert(results@.take(n as int) == results@);
    let rate_milli = if elapsed_nanos == 0 {
        None
    } else {
        Some((n as u128) * MILLI_JOBS_PER_JOB_NANOS / (elapsed_nanos as u128))
    };
    RunReport { elapsed_nanos, rate_milli, success_count: successes, failure_count: n - successes }
}

} // verus!
