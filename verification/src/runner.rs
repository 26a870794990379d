//! Dispatch bookkeeping for one run of independent jobs.
//!
//! The runner hands out job numbers and admission tokens, in the order and
//! at the pace that the configured policy allows, and collects one result
//! per job. The caller starts the work for each token and brings back its
//! result together with the token.

use crate::admission::{
    gate_capacity, AdmissionDecision, ConcurrencyGate, LimiterCheck, Pacing,
};
use crate::config::{AdmissionPolicy, RunConfig};
use crate::outcome::WorkResult;
use crate::report::{lemma_successes_bounded, summarize, summary_of, RunReport};
use vstd::prelude::*;

verus! {

/// The number of a job within its run: 1 for the first job admitted, 2 for
/// the second, and so on.
#[derive(Clone, Copy, Debug, PartialEq, Eq, Structural)]
pub struct JobId {
    number: usize,
}

impl JobId {
    pub closed spec fn spec_number(&self) -> usize {
        self.number
    }

    /// The number of the job.
    #[verifier::when_used_as_spec(spec_number)]
    pub fn number(&self) -> (n: usize)
        ensures
            n == self.spec_number(),
    {
        self.number
    }
}

/// Permission for one job to run. It is handed out once per job and given
/// back with the job's result; it cannot be copied.
#[derive(Debug)]
pub struct AdmissionToken {
    job: JobId,
}

impl AdmissionToken {
    pub closed spec fn spec_job(&self) -> JobId {
        self.job
    }

    /// The job that the token admits.
    #[verifier::when_used_as_spec(spec_job)]
    pub fn job(&self) -> (id: JobId)
        ensures
            id == self.spec_job(),
    {
        self.job
    }
}

/// What the runner asks of its caller next.
#[derive(Debug)]
pub enum Dispatch {
    /// Start the work of this job.
    Start(AdmissionToken),
    /// Ask the rate limiter for a cell and bring its answer to `on_limiter`.
    AskLimiter,
    /// Every permit is out: wait until a job has completed.
    Parked,
    /// Every job has been admitted.
    Drained,
}

/// What follows the rate limiter's answer.
#[derive(Debug)]
pub enum Paced {
    /// Start the work of this job.
    Start(AdmissionToken),
    /// Wait this many nanoseconds, then ask again.
    WaitFor(u64),
}

/// The bookkeeping of one run.
pub struct JobRunner<T, E> {
    config: RunConfig,
    pacing: Pacing,
    gate: ConcurrencyGate,
    admitted: usize,
    results: Vec<WorkResult<T, E>>,
}

impl<T, E> JobRunner<T, E> {
    pub closed spec fn spec_config(&self) -> RunConfig {
        self.config
    }

    pub closed spec fn spec_pacing(&self) -> Pacing {
        self.pacing
    }

    pub closed spec fn spec_admitted(&self) -> usize {
        self.admitted
    }

    pub closed spec fn spec_results(&self) -> Seq<WorkResult<T, E>> {
        self.results@
    }

    /// Jobs admitted and not yet completed.
    pub open spec fn spec_in_flight(&self) -> int {
        self.spec_admitted() - self.spec_results().len()
    }

    /// True once every job has a result.
    pub open spec fn spec_is_finished(&self) -> bool {
        self.spec_results().len() == self.spec_config().spec_job_count()
    }

    /// The permits of the concurrency gate that are out are the jobs in
    /// flight.
    pub closed spec fn gate_agrees(&self) -> bool {
        &&& self.gate.wf()
        &&& self.config.spec_policy() matches AdmissionPolicy::ConcurrencyGate { permits } ==> {
            &&& self.gate.spec_capacity() == gate_capacity(Some(permits), (usize::MAX / 8) as usize)
            &&& self.gate.spec_outstanding() == self.admitted - self.results@.len()
        }
    }

    /// The invariant. No job completes before it is admitted, none is
    /// admitted beyond the job count, and under the concurrency gate never
    /// more jobs are in flight than the concurrency limit allows.
    pub open spec fn wf(&self) -> bool {
        &&& self.spec_config().wf()
        &&& self.spec_pacing().wf()
        &&& self.spec_pacing().spec_rate_limit() == self.spec_config().spec_rate_limit()
        &&& self.gate_agrees()
        &&& self.spec_results().len() <= self.spec_admitted()
        &&& self.spec_admitted() <= self.spec_config().spec_job_count()
        &&& self.spec_config().spec_policy() matches AdmissionPolicy::ConcurrencyGate { permits }
            ==> self.spec_in_flight() <= permits
    }

    /// A finished run has exactly one result per job, nothing left in
    /// flight, and a report whose successes and failures add up to the job
    /// count, whatever the job count is.
    pub proof fn law_finished_run_counts_every_job(&self, elapsed_nanos: u64)
        requires
            self.wf(),
            self.spec_is_finished(),
        ensures
            self.spec_results().len() == self.spec_config().spec_job_count(),
            self.spec_admitted() == self.spec_config().spec_job_count(),
            self.spec_in_flight() == 0,
            summary_of(self.spec_results(), elapsed_nanos).success_count + summary_of(
                self.spec_results(),
                elapsed_nanos,
            ).failure_count == self.spec_config().spec_job_count(),
    {
        lemma_successes_bounded(self.spec_results());
    }

    /// Under the concurrency gate never more jobs are in flight than the
    /// concurrency limit allows, in any state that the runner can reach.
    pub proof fn law_in_flight_within_limit(&self, permits: u32)
        requires
            self.wf(),
            self.spec_config().spec_concurrency_limit() == Some(permits),
        ensures
            0 <= self.spec_in_flight() <= permits,
    {
    }

    /// A runner for one run: nothing admitted, nothing completed.
    pub fn new(config: RunConfig) -> (runner: JobRunner<T, E>)
        requires
            config.wf(),
        ensures
            runner.wf(),
            runner.spec_config() == config,
            runner.spec_admitted() == 0,
            runner.spec_results() == Seq::<WorkResult<T, E>>::empty(),
    {
        JobRunner {
            config,
            pacing: Pacing::new(config.rate_limit()),
            gate: ConcurrencyGate::new(config.concurrency_limit()),
            admitted: 0,
            results: Vec::new(),
        }
    }

    /// The configuration of the run.
    #[verifier::when_used_as_spec(spec_config)]
    pub fn config(&self) -> (c: RunConfig)
        ensures
            c == self.spec_config(),
    {
        self.config
    }

    /// Jobs admitted so far.
    #[verifier::when_used_as_spec(spec_admitted)]
    pub fn admitted(&self) -> (n: usize)
        ensures
            n == self.spec_admitted(),
    {
        self.admitted
    }

    /// Jobs completed so far.
    pub fn completed(&self) -> (n: usize)
        ensures
            n == self.spec_results().len(),
    {
        self.results.len()
    }

    /// Jobs admitted and not yet completed.
    pub fn in_flight(&self) -> (n: usize)
        requires
            self.wf(),
        ensures
            n == self.spec_in_flight(),
    {
        self.admitted - self.results.len()
    }

    /// The results so far, in the order in which the jobs completed.
    pub fn results(&self) -> (r: &Vec<WorkResult<T, E>>)
        ensures
            r@ == self.spec_results(),
    {
        &self.results
    }

    /// True once every job has a result.
    #[verifier::when_used_as_spec(spec_is_finished)]
    pub fn is_finished(&self) -> (b: bool)
        ensures
            b == self.spec_is_finished(),
    {
        self.results.len() == self.config.job_count()
    }

    /// Says what to do next for the job that is next in line.
    ///
    /// Once every job has been admitted the answer is `Drained`. Otherwise
    /// it goes by the policy. Without a limit the job starts at once. Under
    /// the token bucket the rate limiter has to be asked. Under the
    /// concurrency gate the job starts if a permit is left and is parked if
    /// none is.
    pub fn next(&mut self) -> (d: Dispatch)
        requires
            old(self).wf(),
        ensures
            final(self).wf(),
            final(self).spec_config() == old(self).spec_config(),
            final(self).spec_results() == old(self).spec_results(),
            match d {
                Dispatch::Start(token) => {
                    &&& old(self).spec_admitted() < old(self).spec_config().spec_job_count()
                    &&& match old(self).spec_config().spec_policy() {
                        AdmissionPolicy::Unlimited => true,
                        AdmissionPolicy::TokenBucket { .. } => false,
                        AdmissionPolicy::ConcurrencyGate { permits } => old(self).spec_in_flight()
                            < gate_capacity(Some(permits), (usize::MAX / 8) as usize),
                    }
                    &&& final(self).spec_admitted() == old(self).spec_admitted() + 1
                    &&& token.spec_job().spec_number() == old(self).spec_admitted() + 1
                },
                Dispatch::AskLimiter => {
                    &&& old(self).spec_admitted() < old(self).spec_config().spec_job_count()
                    &&& old(self).spec_config().spec_policy() is TokenBucket
                    &&& final(self).spec_admitted() == old(self).spec_admitted()
                },
                Dispatch::Parked => {
                    &&& old(self).spec_admitted() < old(self).spec_config().spec_job_count()
                    &&& old(self).spec_config().spec_policy() matches AdmissionPolicy::ConcurrencyGate {
                        permits,
                    }
                    &&& old(self).spec_in_flight() == gate_capacity(
                        Some(permits),
                        (usize::MAX / 8) as usize,
                    )
                    &&& final(self).spec_admitted() == old(self).spec_admitted()
                },
                Dispatch::Drained => {
                    &&& old(self).spec_admitted() == old(self).spec_config().spec_job_count()
                    &&& final(self).spec_admitted() == old(self).spec_admitted()
                },
            },
    {
        if self.admitted == self.config.job_count() {
            return Dispatch::Drained;
        }
        match self.config.policy() {
            AdmissionPolicy::Unlimited => Dispatch::Start(self.issue_token()),
            AdmissionPolicy::TokenBucket { rate: _ } => Dispatch::AskLimiter,
            AdmissionPolicy::ConcurrencyGate { permits: _ } => {
                if self.gate.try_acquire() {
                    Dispatch::Start(self.issue_token())
                } else {
                    Dispatch::Parked
                }
            },
        }
    }

    /// Takes the rate limiter's answer for the job that is next in line.
    /// The job starts where the limiter granted a cell; otherwise it waits,
    /// for as long as `Pacing::on_check` says.
    pub fn on_limiter(&mut self, check: LimiterCheck) -> (p: Paced)
        requires
            old(self).wf(),
            old(self).spec_admitted() < old(self).spec_config().spec_job_count(),
            old(self).spec_config().spec_policy() is TokenBucket,
        ensures
            final(self).wf(),
            final(self).spec_config() == old(self).spec_config(),
            final(self).spec_results() == old(self).spec_results(),
            match p {
                Paced::Start(token) => {
                    &&& check == LimiterCheck::Granted
                    &&& final(self).spec_admitted() == old(self).spec_admitted() + 1
                    &&& token.spec_job().spec_number() == old(self).spec_admitted() + 1
                },
                Paced::WaitFor(nanos) => {
                    &&& check is Denied
                    &&& final(self).spec_admitted() == old(self).spec_admitted()
                    &&& exists|jitter: u64|
                        old(self).spec_pacing().in_jitter_window(jitter)
                            && AdmissionDecision::WaitFor(nanos) == old(
                            self,
                        ).spec_pacing().decision(check, jitter)
                },
            },
    {
        match self.pacing.on_check(check) {
            AdmissionDecision::Admit => Paced::Start(self.issue_token()),
            AdmissionDecision::WaitFor(nanos) => Paced::WaitFor(nanos),
        }
    }

    fn issue_token(&mut self) -> (token: AdmissionToken)
        requires
            old(self).admitted < old(self).config.spec_job_count(),
        ensures
            final(self).admitted == old(self).admitted + 1,
            token.spec_job().spec_number() == old(self).admitted + 1,
            final(self).config == old(self).config,
            final(self).pacing == old(self).pacing,
            final(self).gate == old(self).gate,
            final(self).results == old(self).results,
    {
        let number: usize = self.admitted + 1;
        self.admitted = number;
        AdmissionToken { job: JobId { number } }
    }

    /// Takes a job's token back together with its result: the permit is
    /// released and the result recorded.
    pub fn complete(&mut self, token: AdmissionToken, result: WorkResult<T, E>)
        requires
            old(self).wf(),
            old(self).spec_in_flight() >= 1,
        ensures
            final(self).wf(),
            final(self).spec_config() == old(self).spec_config(),
            final(self).spec_admitted() == old(self).spec_admitted(),
            final(self).spec_results() == old(self).spec_results().push(result),
    {
        self.gate.release();
        self.results.push(result);
    }

    /// The report of a finished run, or `None` while jobs are missing. The
    /// report counts exactly as many jobs as the run has.
    pub fn finish(&self, elapsed_nanos: u64) -> (report: Option<RunReport>)
        requires
            self.wf(),
        ensures
            report == (if self.spec_is_finished() {
                Some(summary_of(self.spec_results(), elapsed_nanos))
            } else {
                None
            }),
            report matches Some(r) ==> r.success_count + r.failure_count
                == self.spec_config().spec_job_count(),
    {
        if self.results.len() == self.config.job_count() {
            Some(summarize(self.results.as_slice(), elapsed_nanos))
        } else {
            None
        }
    }
}

} // verus!
