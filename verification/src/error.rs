//! Typed errors for lifecycle commands. Every guard failure surfaces to the
//! caller as one of these kinds; callers can tell retryable failures (worth
//! retrying after topping up funds or after losing a same-job race) from
//! terminal ones (the job's state has already moved on).

use vstd::prelude::*;

verus! {

/// One error kind per guard that a lifecycle command can fail.
#[derive(Clone, Copy, Debug, PartialEq, Eq, Structural)]
pub enum JobError {
    /// The invoking party is not the identity the action requires.
    Unauthorized,
    /// The transition is not legal from the job's current status.
    InvalidState,
    /// Unknown job identifier or milestone index.
    NotFound,
    /// The freelancer (or the milestone's completion flag) is already set.
    AlreadySet,
    /// The caller's balance is below the amount the action requires.
    InsufficientFunds,
    /// Milestone completion was attempted after the milestone's deadline.
    DeadlineExceeded,
    /// A rating outside [1, 5], or a malformed payload.
    OutOfRange,
    /// The proof verifier refused the proof, or a proof component is empty.
    ProofRejected,
    /// Another command won a race on the same job; reload and retry.
    ConcurrentModification,
    /// A release asked for more than the escrow holds; this indicates a
    /// logic bug, never an expected runtime condition.
    InsufficientEscrowBalance,
}

/// Which error kinds are worth retrying: a caller may retry after topping up
/// funds or after losing a same-job race; every other kind is terminal.
pub open spec fn retryable(e: JobError) -> bool {
    e == JobError::InsufficientFunds || e == JobError::ConcurrentModification
}

impl JobError {
    /// True exactly for the retryable kinds.
    pub fn is_retryable(&self) -> (r: bool)
        ensures
            r == retryable(*self),
    {
        match self {
            JobError::InsufficientFunds => true,
            JobError::ConcurrentModification => true,
            _ => false,
        }
    }
}

} // verus!
