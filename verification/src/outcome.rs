//! What one attempt, and one job, can come to.

use vstd::prelude::*;

verus! {

/// Whether a failed attempt is worth repeating.
#[derive(Clone, Copy, Debug, PartialEq, Eq, Structural)]
pub enum ErrorClass {
    /// Likely to succeed when tried again.
    Transient,
    /// Trying again cannot help.
    Permanent,
}

/// The final outcome of one job.
#[derive(Clone, Debug, PartialEq, Eq)]
pub enum WorkResult<T, E> {
    /// The work returned this value.
    Success(T),
    /// The work failed for good, with its last error and the number of
    /// attempts that were made.
    Failure(E, usize),
}

impl<T, E> WorkResult<T, E> {
    /// True for `Success`.
    #[verifier::when_used_as_spec(spec_is_success)]
    pub fn is_success(&self) -> (b: bool)
        ensures
            b == self.spec_is_success(),
    {
        match self {
            WorkResult::Success(_) => true,
            WorkResult::Failure(_, _) => false,
        }
    }

    pub open spec fn spec_is_success(&self) -> bool {
        self is Success
    }

    /// True for `Failure`.
    #[verifier::when_used_as_spec(spec_is_failure)]
    pub fn is_failure(&self) -> (b: bool)
        ensures
            b == self.spec_is_failure(),
    {
        match self {
            WorkResult::Success(_) => false,
            WorkResult::Failure(_, _) => true,
        }
    }

    pub open spec fn spec_is_failure(&self) -> bool {
        self is Failure
    }

    /// Turns the outcome into a `Result`, dropping the attempt count.
    pub fn into_result(self) -> (r: Result<T, E>)
        ensures
            r == match self {
                WorkResult::Success(v) => Ok::<T, E>(v),
                WorkResult::Failure(e, _) => Err::<T, E>(e),
            },
    {
        match self {
            WorkResult::Success(v) => Ok(v),
            WorkResult::Failure(e, _) => Err(e),
        }
    }
}

} // verus!
