//! Configuration of one run, checked when it is built.

use vstd::prelude::*;

verus! {

/// Why a configuration was turned down.
#[derive(Clone, Copy, Debug, PartialEq, Eq, Structural)]
pub enum ConfigError {
    /// The attempt budget is zero: no job could ever be tried.
    ZeroAttempts,
    /// A concurrency limit of zero: no job could ever be admitted.
    ZeroConcurrency,
    /// Both a rate limit and a concurrency limit were given.
    ConflictingPolicies,
}

/// The admission policy that a configuration selects.
#[derive(Clone, Copy, Debug, PartialEq, Eq, Structural)]
pub enum AdmissionPolicy {
    /// Nothing paces or bounds admission.
    Unlimited,
    /// At most this many admissions per second, on average.
    TokenBucket { rate: u32 },
    /// At most this many jobs in flight at once.
    ConcurrencyGate { permits: u32 },
}

/// What a configuration must satisfy.
pub open spec fn valid_config(
    rate_limit: u32,
    concurrency_limit: Option<u32>,
    max_attempts: usize,
) -> bool {
    &&& max_attempts >= 1
    &&& concurrency_limit != Some(0u32)
    &&& (rate_limit == 0 || concurrency_limit is None)
}

/// The error that `RunConfig::new` reports, the first that applies.
pub open spec fn config_verdict(
    rate_limit: u32,
    concurrency_limit: Option<u32>,
    max_attempts: usize,
) -> Option<ConfigError> {
    if max_attempts == 0 {
        Some(ConfigError::ZeroAttempts)
    } else if concurrency_limit == Some(0u32) {
        Some(ConfigError::ZeroConcurrency)
    } else if rate_limit != 0 && concurrency_limit is Some {
        Some(ConfigError::ConflictingPolicies)
    } else {
        None
    }
}

/// The policy that a valid pair of limits selects.
pub open spec fn select_policy(rate_limit: u32, concurrency_limit: Option<u32>) -> AdmissionPolicy {
    match concurrency_limit {
        Some(permits) => AdmissionPolicy::ConcurrencyGate { permits },
        None => if rate_limit == 0 {
            AdmissionPolicy::Unlimited
        } else {
            AdmissionPolicy::TokenBucket { rate: rate_limit }
        },
    }
}

/// Immutable configuration of one run.
#[derive(Clone, Copy, Debug)]
pub struct RunConfig {
    job_count: usize,
    rate_limit: u32,
    concurrency_limit: Option<u32>,
    max_attempts: usize,
}

impl RunConfig {
    /// The invariant that every value built by `new` has: at least one
    /// attempt per job, no concurrency limit of zero, and at most one of the
    /// two limits.
    pub open spec fn wf(&self) -> bool {
        valid_config(
            self.spec_rate_limit(),
            self.spec_concurrency_limit(),
            self.spec_max_attempts(),
        )
    }

    pub closed spec fn spec_job_count(&self) -> usize {
        self.job_count
    }

    pub closed spec fn spec_rate_limit(&self) -> u32 {
        self.rate_limit
    }

    pub closed spec fn spec_concurrency_limit(&self) -> Option<u32> {
        self.concurrency_limit
    }

    pub closed spec fn spec_max_attempts(&self) -> usize {
        self.max_attempts
    }

    /// The policy of a valid configuration.
    pub open spec fn spec_policy(&self) -> AdmissionPolicy {
        select_policy(self.spec_rate_limit(), self.spec_concurrency_limit())
    }

    /// Builds a configuration, or says what is wrong with the values.
    pub fn new(
        job_count: usize,
        rate_limit: u32,
        concurrency_limit: Option<u32>,
        max_attempts: usize,
    ) -> (r: Result<RunConfig, ConfigError>)
        ensures
            match r {
                Ok(c) => {
                    &&& config_verdict(rate_limit, concurrency_limit, max_attempts) is None
                    &&& c.wf()
                    &&& c.spec_job_count() == job_count
                    &&& c.spec_rate_limit() == rate_limit
                    &&& c.spec_concurrency_limit() == concurrency_limit
                    &&& c.spec_max_attempts() == max_attempts
                },
                Err(e) => config_verdict(rate_limit, concurrency_limit, max_attempts) == Some(e),
            },
    {
        if max_attempts == 0 {
            return Err(ConfigError::ZeroAttempts);
        }
        match concurrency_limit {
            Some(permits) => {
                if permits == 0 {
                    return Err(ConfigError::ZeroConcurrency);
                }
                if rate_limit != 0 {
                    return Err(ConfigError::ConflictingPolicies);
                }
            },
            None => {},
        }
        Ok(RunConfig { job_count, rate_limit, concurrency_limit, max_attempts })
    }

    /// Number of jobs in the run.
    #[verifier::when_used_as_spec(spec_job_count)]
    pub fn job_count(&self) -> (n: usize)
        ensures
            n == self.spec_job_count(),
    {
        self.job_count
    }

    /// Admissions per second; zero stands for no limit.
    #[verifier::when_used_as_spec(spec_rate_limit)]
    pub fn rate_limit(&self) -> (n: u32)
        ensures
            n == self.spec_rate_limit(),
    {
        self.rate_limit
    }

    /// Jobs in flight at once, where the run is gated by concurrency.
    #[verifier::when_used_as_spec(spec_concurrency_limit)]
    pub fn concurrency_limit(&self) -> (n: Option<u32>)
        ensures
            n == self.spec_concurrency_limit(),
    {
        self.concurrency_limit
    }

    /// Attempts that each job may use.
    #[verifier::when_used_as_spec(spec_max_attempts)]
    pub fn max_attempts(&self) -> (n: usize)
        ensures
            n == self.spec_max_attempts(),
    {
        self.max_attempts
    }

    /// The admission policy of this run.
    #[verifier::when_used_as_spec(spec_policy)]
    pub fn policy(&self) -> (p: AdmissionPolicy)
        ensures
            p == self.spec_policy(),
    {
        match self.concurrency_limit {
            Some(permits) => AdmissionPolicy::ConcurrencyGate { permits },
            None => {
                if self.rate_limit == 0 {
                    AdmissionPolicy::Unlimited
                } else {
                    AdmissionPolicy::TokenBucket { rate: self.rate_limit }
                }
            },
        }
    }
}

} // verus!
