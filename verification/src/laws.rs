//! The lifecycle's global laws, stated once over the spec-level predicates
//! that every command's contract is written in: the status order only ever
//! advances, terminal statuses are final, a completed job has every
//! milestone completed, and the escrow balance is conserved.

use vstd::prelude::*;
use crate::market::{advances, JobRecord};
use crate::types::{is_terminal, sum_released, JobStatus};

verus! {

/// How far along the lifecycle a status is. `Completed` and `Cancelled`
/// share the last position: both end the lifecycle.
pub open spec fn status_rank(s: JobStatus) -> int {
    match s {
        JobStatus::Posted => 0,
        JobStatus::Accepted => 1,
        JobStatus::InProgress => 2,
        JobStatus::Completed => 3,
        JobStatus::Cancelled => 3,
    }
}

/// A job's status only ever advances along the lifecycle table: every
/// admitted status change moves rank forward or stays put, never back.
pub proof fn lemma_status_only_advances(from: JobStatus, to: JobStatus)
    requires
        advances(from, to),
    ensures
        status_rank(from) <= status_rank(to),
{
}

/// Terminal statuses are final: no admitted status change leaves one.
pub proof fn lemma_terminal_is_final(from: JobStatus, to: JobStatus)
    requires
        advances(from, to),
        is_terminal(from),
    ensures
        to == from,
{
}

/// A job cannot reach `Completed` without every milestone completed.
pub proof fn lemma_completed_means_all_milestones(rec: JobRecord)
    requires
        rec.wf(),
        rec.posting.status == JobStatus::Completed,
    ensures
        forall|i: int|
            0 <= i < rec.posting.milestones@.len() ==> rec.posting.milestones@[i].completed,
{
}

/// Escrow conservation: while a job is live, its escrow balance plus
/// everything released so far equals the payment committed at posting;
/// once the job is terminal (the remainder released on completion, or
/// refunded on cancellation) the escrow holds nothing.
pub proof fn lemma_escrow_conservation(rec: JobRecord)
    requires
        rec.wf(),
    ensures
        !is_terminal(rec.posting.status) ==> rec.escrow.balance + sum_released(
            rec.posting.milestones@,
        ) == rec.posting.total_payment,
        is_terminal(rec.posting.status) ==> rec.escrow.balance == 0,
{
}

} // verus!
