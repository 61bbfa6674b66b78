//! The job lifecycle state machine. A `Marketplace` owns the job record
//! store, the escrow custodian's per-job accounts and the reputation
//! ledger; every lifecycle command loads the addressed record, checks its
//! access-control and state-validity guards, and mutates record and escrow
//! together or not at all. Mutating commands carry the version stamp the
//! caller loaded; a stale stamp fails with `ConcurrentModification`, so a
//! lost same-job race is surfaced, never silently overwritten.

use vstd::prelude::*;
use crate::error::JobError;
use crate::reputation::{apply_rating, find_reputation, has_rep, rated};
use crate::types::{
    is_terminal, lemma_sum_payments_take_le, lemma_sum_released_none_completed,
    lemma_sums_take_step, lemma_take_all, proof_accepted, reputation_wf, sum_payments,
    sum_released, verify_zk_proof, EscrowAccount, Identity, JobPosting, JobRating, JobStatus,
    Milestone, ZkProof,
};

verus! {

/// A job's combined persisted state: the posting record, its escrow
/// account, and the version stamp the optimistic single-writer-per-job
/// update protocol compares.
pub struct JobRecord {
    pub posting: JobPosting,
    pub escrow: EscrowAccount,
    /// Bumped on every committed mutation of this record.
    pub version: u64,
}

impl JobRecord {
    /// Escrow conservation, tied to the posting's lifecycle: while the job
    /// is live the escrow holds exactly the committed total minus what the
    /// completed milestones have released; once the job is terminal the
    /// escrow holds nothing.
    pub open spec fn wf(self) -> bool {
        &&& self.posting.wf()
        &&& if is_terminal(self.posting.status) {
            self.escrow.balance == 0
        } else {
            self.escrow.balance as int == self.posting.total_payment - sum_released(
                self.posting.milestones@,
            )
        }
    }
}

/// The version stamp after one committed mutation.
pub open spec fn version_after(v: u64) -> u64 {
    if v == u64::MAX {
        0
    } else {
        (v + 1) as u64
    }
}

/// Bumps a record's version stamp.
fn next_version(v: u64) -> (r: u64)
    ensures
        r == version_after(v),
{
    if v == u64::MAX {
        0
    } else {
        v + 1
    }
}

/// The status changes the lifecycle table admits: staying put, posting to
/// acceptance, acceptance or progress to progress, progress to completion,
/// and cancellation from any non-terminal status.
pub open spec fn advances(from: JobStatus, to: JobStatus) -> bool {
    ||| from == to
    ||| (from == JobStatus::Posted && to == JobStatus::Accepted)
    ||| ((from == JobStatus::Accepted || from == JobStatus::InProgress) && to
        == JobStatus::InProgress)
    ||| (from == JobStatus::InProgress && to == JobStatus::Completed)
    ||| (!is_terminal(from) && to == JobStatus::Cancelled)
}

/// Milestones admissible at posting time: their payments stay within the
/// committed total, and none is already completed.
pub open spec fn milestones_postable(ms: Seq<Milestone>, total_payment: u64) -> bool {
    &&& sum_payments(ms) <= total_payment
    &&& forall|i: int| 0 <= i < ms.len() ==> !ms[i].completed
}

/// An absent proof is admissible; a present one must verify.
pub open spec fn proof_admissible(zk_proof: Option<ZkProof>) -> bool {
    match zk_proof {
        Some(p) => proof_accepted(p),
        None => true,
    }
}

/// All the guards of the Post command together.
pub open spec fn post_allowed(
    employer_balance: u64,
    total_payment: u64,
    ms: Seq<Milestone>,
    zk_proof: Option<ZkProof>,
) -> bool {
    &&& employer_balance >= total_payment
    &&& proof_admissible(zk_proof)
    &&& milestones_postable(ms, total_payment)
}

/// The marketplace's whole persisted state: one record per job (the job
/// identifier is the record's index), the append-only rating log, and the
/// derived per-freelancer reputations.
pub struct Marketplace {
    pub jobs: Vec<JobRecord>,
    pub ratings: Vec<JobRating>,
    pub reputations: Vec<crate::types::Reputation>,
}

impl Marketplace {
    /// Every record conserves its escrow, every logged rating is on the
    /// rating scale, and the reputation ledger holds at most one
    /// well-formed entry per freelancer.
    pub open spec fn wf(self) -> bool {
        &&& forall|i: int| 0 <= i < self.jobs@.len() ==> (#[trigger] self.jobs@[i]).wf()
        &&& forall|i: int|
            0 <= i < self.ratings@.len() ==> 1 <= (#[trigger] self.ratings@[i]).rating <= 5
        &&& forall|i: int|
            0 <= i < self.reputations@.len() ==> reputation_wf(#[trigger] self.reputations@[i])
        &&& forall|i: int, j: int|
            0 <= i < j < self.reputations@.len() ==> (#[trigger] self.reputations@[i]).pubkey != (
            #[trigger] self.reputations@[j]).pubkey
    }

    /// An empty marketplace.
    pub fn new() -> (m: Marketplace)
        ensures
            m.wf(),
            m.jobs@.len() == 0,
            m.ratings@.len() == 0,
            m.reputations@.len() == 0,
    {
        Marketplace { jobs: Vec::new(), ratings: Vec::new(), reputations: Vec::new() }
    }

    /// Posts a new job: the employer commits `total_payment`, staged over
    /// `milestones`, and the whole committed value is deposited into a
    /// fresh escrow account. The posting is refused when the employer's
    /// balance cannot cover the commitment, when an attached proof does not
    /// verify, and when the milestones are malformed (already completed, or
    /// staging more than the committed total). On success the new job's
    /// identifier is returned.
    pub fn post_job(
        &mut self,
        employer: Identity,
        employer_balance: u64,
        total_payment: u64,
        milestones: Vec<Milestone>,
        expiration_time: i64,
        zk_proof: Option<ZkProof>,
    ) -> (r: Result<usize, JobError>)
        requires
            old(self).wf(),
        ensures
            final(self).wf(),
            final(self).ratings@ == old(self).ratings@,
            final(self).reputations@ == old(self).reputations@,
            r is Ok <==> post_allowed(employer_balance, total_payment, milestones@, zk_proof),
            match r {
                Ok(id) => {
                    &&& id == old(self).jobs@.len()
                    &&& final(self).jobs@ == old(self).jobs@.push(
                        (JobRecord {
                            posting: (JobPosting {
                                employer,
                                freelancer: None,
                                status: JobStatus::Posted,
                                milestones,
                                total_payment,
                                expiration_time,
                            }),
                            escrow: (EscrowAccount { balance: total_payment }),
                            version: 0,
                        }),
                    )
                },
                Err(e) => {
                    &&& *final(self) == *old(self)
                    &&& (e == JobError::InsufficientFunds <==> employer_balance < total_payment)
                    &&& (e == JobError::ProofRejected <==> (employer_balance >= total_payment
                        && !proof_admissible(zk_proof)))
                    &&& (e == JobError::OutOfRange <==> (employer_balance >= total_payment
                        && proof_admissible(zk_proof) && !milestones_postable(
                        milestones@,
                        total_payment,
                    )))
                },
            },
    {
        if employer_balance < total_payment {
            return Err(JobError::InsufficientFunds);
        }
        if let Some(p) = &zk_proof {
            if !verify_zk_proof(p) {
                return Err(JobError::ProofRejected);
            }
        }
        let ghost ms = milestones@;
        let mut staged: u64 = 0;
        let mut idx: usize = 0;
        while idx < milestones.len()
            invariant
                *self == *old(self),
                old(self).wf(),
                idx <= ms.len(),
                ms == milestones@,
                total_payment <= employer_balance,
                proof_admissible(zk_proof),
                staged as int == sum_payments(ms.take(idx as int)),
                staged <= total_payment,
                forall|j: int| 0 <= j < idx ==> !ms[j].completed,
            decreases ms.len() - idx,
        {
            let m = &milestones[idx];
            if m.completed {
                assert(!milestones_postable(ms, total_payment));
                return Err(JobError::OutOfRange);
            }
            if m.payment_amount > total_payment - staged {
                proof {
                    lemma_sums_take_step(ms, idx as int);
                    lemma_sum_payments_take_le(ms, idx as int + 1);
                }
                return Err(JobError::OutOfRange);
            }
            proof {
                lemma_sums_take_step(ms, idx as int);
            }
            staged = staged + m.payment_amount;
            idx = idx + 1;
        }
        proof {
            lemma_take_all(ms);
            lemma_sum_released_none_completed(ms);
        }
        let mut escrow = EscrowAccount { balance: 0 };
        escrow.deposit(total_payment);
        let record = JobRecord {
            posting: JobPosting {
                employer,
                freelancer: None,
                status: JobStatus::Posted,
                milestones,
                total_payment,
                expiration_time,
            },
            escrow,
            version: 0,
        };
        let id = self.jobs.len();
        self.jobs.push(record);
        Ok(id)
    }

    /// Accepts a posted job: the caller becomes its freelancer, set exactly
    /// once. The employer cannot accept their own posting. `expected_version`
    /// is the version stamp the caller loaded; a stale one loses the race.
    pub fn accept_job(&mut self, job_id: usize, expected_version: u64, caller: Identity) -> (r:
        Result<(), JobError>)
        requires
            old(self).wf(),
        ensures
            final(self).wf(),
            final(self).ratings@ == old(self).ratings@,
            final(self).reputations@ == old(self).reputations@,
            r is Ok <==> (job_id < old(self).jobs@.len() && old(
                self,
            ).jobs@[job_id as int].version == expected_version && old(
                self,
            ).jobs@[job_id as int].posting.freelancer is None && old(
                self,
            ).jobs@[job_id as int].posting.status == JobStatus::Posted && caller != old(
                self,
            ).jobs@[job_id as int].posting.employer),
            match r {
                Ok(()) => {
                    &&& job_id < old(self).jobs@.len()
                    &&& old(self).jobs@[job_id as int].version == expected_version
                    &&& old(self).jobs@[job_id as int].posting.freelancer is None
                    &&& old(self).jobs@[job_id as int].posting.status == JobStatus::Posted
                    &&& caller != old(self).jobs@[job_id as int].posting.employer
                    &&& final(self).jobs@ == old(self).jobs@.update(
                        job_id as int,
                        (JobRecord {
                            posting: (JobPosting {
                                freelancer: Some(caller),
                                status: JobStatus::Accepted,
                                ..old(self).jobs@[job_id as int].posting
                            }),
                            version: version_after(expected_version),
                            ..old(self).jobs@[job_id as int]
                        }),
                    )
                    &&& advances(
                        old(self).jobs@[job_id as int].posting.status,
                        final(self).jobs@[job_id as int].posting.status,
                    )
                },
                Err(e) => {
                    &&& *final(self) == *old(self)
                    &&& (e == JobError::NotFound <==> job_id >= old(self).jobs@.len())
                    &&& (e == JobError::ConcurrentModification <==> (job_id < old(
                        self,
                    ).jobs@.len() && old(self).jobs@[job_id as int].version != expected_version))
                    &&& (e == JobError::AlreadySet <==> (job_id < old(self).jobs@.len() && old(
                        self,
                    ).jobs@[job_id as int].version == expected_version && old(self).jobs@[job_id as int].posting.freelancer is Some))
                    &&& (e == JobError::InvalidState <==> (job_id < old(self).jobs@.len() && old(
                        self,
                    ).jobs@[job_id as int].version == expected_version && old(self).jobs@[job_id as int].posting.freelancer is None && old(
                        self,
                    ).jobs@[job_id as int].posting.status != JobStatus::Posted))
                    &&& (e == JobError::Unauthorized <==> (job_id < old(self).jobs@.len() && old(
                        self,
                    ).jobs@[job_id as int].version == expected_version && old(self).jobs@[job_id as int].posting.freelancer is None && old(
                        self,
                    ).jobs@[job_id as int].posting.status == JobStatus::Posted && caller == old(
                        self,
                    ).jobs@[job_id as int].posting.employer))
                },
            },
    {
        if job_id >= self.jobs.len() {
            return Err(JobError::NotFound);
        }
        if self.jobs[job_id].version != expected_version {
            return Err(JobError::ConcurrentModification);
        }
        if self.jobs[job_id].posting.freelancer.is_some() {
            return Err(JobError::AlreadySet);
        }
        if !(self.jobs[job_id].posting.status == JobStatus::Posted) {
            return Err(JobError::InvalidState);
        }
        if caller == self.jobs[job_id].posting.employer {
            return Err(JobError::Unauthorized);
        }
        let rec = &mut self.jobs[job_id];
        rec.posting.freelancer = Some(caller);
        rec.posting.status = JobStatus::Accepted;
        rec.version = next_version(expected_version);
        Ok(())
    }

    /// Completes one milestone: releases its payment amount from escrow and
    /// marks it completed, moving the job into progress. Rejected when the
    /// caller is not the employer, when the job is not being worked, when
    /// the index is unknown, when the milestone is already completed (so a
    /// repeat never releases funds twice), and when its deadline has passed.
    /// Returns the amount released.
    pub fn complete_milestone(
        &mut self,
        job_id: usize,
        expected_version: u64,
        caller: Identity,
        index: usize,
        now: i64,
    ) -> (r: Result<u64, JobError>)
        requires
            old(self).wf(),
        ensures
            final(self).wf(),
            final(self).ratings@ == old(self).ratings@,
            final(self).reputations@ == old(self).reputations@,
            r is Ok <==> ({
                let j = job_id as int;
                let jobs = old(self).jobs@;
                let ms = jobs[j].posting.milestones@;
                &&& job_id < jobs.len()
                &&& jobs[j].version == expected_version
                &&& caller == jobs[j].posting.employer
                &&& (jobs[j].posting.status == JobStatus::Accepted || jobs[j].posting.status
                    == JobStatus::InProgress)
                &&& index < ms.len()
                &&& !ms[index as int].completed
                &&& (ms[index as int].deadline matches Some(d) ==> now <= d)
            }),
            match r {
                Ok(released) => ({
                    let j = job_id as int;
                    let jobs = old(self).jobs@;
                    let ms = jobs[j].posting.milestones@;
                    &&& job_id < jobs.len()
                    &&& jobs[j].version == expected_version
                    &&& caller == jobs[j].posting.employer
                    &&& (jobs[j].posting.status == JobStatus::Accepted || jobs[j].posting.status
                        == JobStatus::InProgress)
                    &&& index < ms.len()
                    &&& !ms[index as int].completed
                    &&& (ms[index as int].deadline matches Some(d) ==> now <= d)
                    &&& released == ms[index as int].payment_amount
                    &&& final(self).jobs@.len() == jobs.len()
                    &&& (forall|k: int| 0 <= k < jobs.len() && k != j ==> final(self).jobs@[k]
                        == jobs[k])
                    &&& final(self).jobs@[j].posting.employer == jobs[j].posting.employer
                    &&& final(self).jobs@[j].posting.freelancer == jobs[j].posting.freelancer
                    &&& final(self).jobs@[j].posting.status == JobStatus::InProgress
                    &&& final(self).jobs@[j].posting.total_payment
                        == jobs[j].posting.total_payment
                    &&& final(self).jobs@[j].posting.expiration_time
                        == jobs[j].posting.expiration_time
                    &&& final(self).jobs@[j].posting.milestones@ == ms.update(
                        index as int,
                        (Milestone { completed: true, ..ms[index as int] }),
                    )
                    &&& final(self).jobs@[j].escrow.balance == jobs[j].escrow.balance - released
                    &&& final(self).jobs@[j].version == version_after(expected_version)
                    &&& advances(jobs[j].posting.status, final(self).jobs@[j].posting.status)
                }),
                Err(e) => ({
                    let j = job_id as int;
                    let jobs = old(self).jobs@;
                    let in_range = job_id < jobs.len();
                    let ver_ok = in_range && jobs[j].version == expected_version;
                    let auth_ok = ver_ok && caller == jobs[j].posting.employer;
                    let status_ok = auth_ok && (jobs[j].posting.status == JobStatus::Accepted
                        || jobs[j].posting.status == JobStatus::InProgress);
                    let index_ok = status_ok && index < jobs[j].posting.milestones@.len();
                    let fresh_ok = index_ok && !jobs[j].posting.milestones@[index as int].completed;
                    &&& *final(self) == *old(self)
                    &&& (e == JobError::NotFound <==> (!in_range || (status_ok && index
                        >= jobs[j].posting.milestones@.len())))
                    &&& (e == JobError::ConcurrentModification <==> (in_range
                        && jobs[j].version != expected_version))
                    &&& (e == JobError::Unauthorized <==> (ver_ok && caller
                        != jobs[j].posting.employer))
                    &&& (e == JobError::InvalidState <==> (auth_ok && !(jobs[j].posting.status
                        == JobStatus::Accepted || jobs[j].posting.status
                        == JobStatus::InProgress)))
                    &&& (e == JobError::AlreadySet <==> (index_ok
                        && jobs[j].posting.milestones@[index as int].completed))
                    &&& (e == JobError::DeadlineExceeded <==> (fresh_ok && (
                    jobs[j].posting.milestones@[index as int].deadline matches Some(d) && now
                        > d)))
                }),
            },
    {
        if job_id >= self.jobs.len() {
            return Err(JobError::NotFound);
        }
        if self.jobs[job_id].version != expected_version {
            return Err(JobError::ConcurrentModification);
        }
        if !(caller == self.jobs[job_id].posting.employer) {
            return Err(JobError::Unauthorized);
        }
        let working = match self.jobs[job_id].posting.status {
            JobStatus::Accepted => true,
            JobStatus::InProgress => true,
            _ => false,
        };
        if !working {
            return Err(JobError::InvalidState);
        }
        if index >= self.jobs[job_id].posting.milestones.len() {
            return Err(JobError::NotFound);
        }
        if self.jobs[job_id].posting.milestones[index].completed {
            return Err(JobError::AlreadySet);
        }
        if let Some(d) = self.jobs[job_id].posting.milestones[index].deadline {
            if now > d {
                return Err(JobError::DeadlineExceeded);
            }
        }
        let amount = self.jobs[job_id].posting.milestones[index].payment_amount;
        let ghost ms = self.jobs@[job_id as int].posting.milestones@;
        proof {
            // The released sums of the milestones before and after this
            // completion bound the payment within the escrow balance.
            crate::types::lemma_sums_update(
                ms,
                index as int,
                Milestone { completed: true, ..ms[index as int] },
            );
            crate::types::lemma_sums_bounds(
                ms.update(index as int, Milestone { completed: true, ..ms[index as int] }),
            );
        }
        let mstone = &mut self.jobs[job_id].posting.milestones[index];
        mstone.completed = true;
        let rec = &mut self.jobs[job_id];
        match rec.escrow.release(amount) {
            Ok(()) => {},
            Err(e) => {
                return Err(e);
            },
        }
        rec.posting.status = JobStatus::InProgress;
        rec.version = next_version(expected_version);
        Ok(amount)
    }

    /// Confirms completion of a job in progress whose milestones are all
    /// completed: the remaining escrow balance is released to the
    /// freelancer and the job becomes `Completed`. Returns the amount
    /// released.
    pub fn confirm_completion(&mut self, job_id: usize, expected_version: u64, caller: Identity)
        -> (r: Result<u64, JobError>)
        requires
            old(self).wf(),
        ensures
            final(self).wf(),
            final(self).ratings@ == old(self).ratings@,
            final(self).reputations@ == old(self).reputations@,
            r is Ok <==> ({
                let j = job_id as int;
                let jobs = old(self).jobs@;
                &&& job_id < jobs.len()
                &&& jobs[j].version == expected_version
                &&& caller == jobs[j].posting.employer
                &&& jobs[j].posting.status == JobStatus::InProgress
                &&& (forall|k: int|
                    0 <= k < jobs[j].posting.milestones@.len()
                        ==> (#[trigger] jobs[j].posting.milestones@[k]).completed)
            }),
            match r {
                Ok(released) => ({
                    let j = job_id as int;
                    let jobs = old(self).jobs@;
                    &&& job_id < jobs.len()
                    &&& jobs[j].version == expected_version
                    &&& caller == jobs[j].posting.employer
                    &&& jobs[j].posting.status == JobStatus::InProgress
                    &&& (forall|k: int|
                        0 <= k < jobs[j].posting.milestones@.len()
                            ==> jobs[j].posting.milestones@[k].completed)
                    &&& released == jobs[j].escrow.balance
                    &&& final(self).jobs@.len() == jobs.len()
                    &&& (forall|k: int| 0 <= k < jobs.len() && k != j ==> final(self).jobs@[k]
                        == jobs[k])
                    &&& final(self).jobs@[j] == (JobRecord {
                        posting: (JobPosting {
                            status: JobStatus::Completed,
                            ..jobs[j].posting
                        }),
                        escrow: (EscrowAccount { balance: 0 }),
                        version: version_after(expected_version),
                    })
                    &&& advances(jobs[j].posting.status, final(self).jobs@[j].posting.status)
                }),
                Err(e) => ({
                    let j = job_id as int;
                    let jobs = old(self).jobs@;
                    let in_range = job_id < jobs.len();
                    let ver_ok = in_range && jobs[j].version == expected_version;
                    let auth_ok = ver_ok && caller == jobs[j].posting.employer;
                    &&& *final(self) == *old(self)
                    &&& (e == JobError::NotFound <==> !in_range)
                    &&& (e == JobError::ConcurrentModification <==> (in_range
                        && jobs[j].version != expected_version))
                    &&& (e == JobError::Unauthorized <==> (ver_ok && caller
                        != jobs[j].posting.employer))
                    &&& (e == JobError::InvalidState <==> (auth_ok && (jobs[j].posting.status
                        != JobStatus::InProgress || exists|k: int|
                        0 <= k < jobs[j].posting.milestones@.len()
                            && !(#[trigger] jobs[j].posting.milestones@[k]).completed)))
                }),
            },
    {
        if job_id >= self.jobs.len() {
            return Err(JobError::NotFound);
        }
        if self.jobs[job_id].version != expected_version {
            return Err(JobError::ConcurrentModification);
        }
        if !(caller == self.jobs[job_id].posting.employer) {
            return Err(JobError::Unauthorized);
        }
        if !(self.jobs[job_id].posting.status == JobStatus::InProgress) {
            return Err(JobError::InvalidState);
        }
        let n = self.jobs[job_id].posting.milestones.len();
        let mut k: usize = 0;
        while k < n
            invariant
                *self == *old(self),
                old(self).wf(),
                job_id < self.jobs@.len(),
                n == self.jobs@[job_id as int].posting.milestones@.len(),
                self.jobs@[job_id as int].version == expected_version,
                caller == self.jobs@[job_id as int].posting.employer,
                self.jobs@[job_id as int].posting.status == JobStatus::InProgress,
                k <= n,
                forall|i: int|
                    0 <= i < k ==> (#[trigger] self.jobs@[job_id as int].posting.milestones@[i]).completed,
            decreases n - k,
        {
            if !self.jobs[job_id].posting.milestones[k].completed {
                return Err(JobError::InvalidState);
            }
            k = k + 1;
        }
        let rec = &mut self.jobs[job_id];
        let remaining = rec.escrow.balance;
        match rec.escrow.release(remaining) {
            Ok(()) => {},
            Err(e) => {
                return Err(e);
            },
        }
        rec.posting.status = JobStatus::Completed;
        rec.version = next_version(expected_version);
        Ok(remaining)
    }

    /// Cancels a job that is not yet terminal: the remaining escrow is
    /// refunded to the employer and the job becomes `Cancelled`. Returns
    /// the amount refunded.
    pub fn cancel_job(&mut self, job_id: usize, expected_version: u64, caller: Identity) -> (r:
        Result<u64, JobError>)
        requires
            old(self).wf(),
        ensures
            final(self).wf(),
            final(self).ratings@ == old(self).ratings@,
            final(self).reputations@ == old(self).reputations@,
            r is Ok <==> (job_id < old(self).jobs@.len() && old(
                self,
            ).jobs@[job_id as int].version == expected_version && caller == old(
                self,
            ).jobs@[job_id as int].posting.employer && !is_terminal(
                old(self).jobs@[job_id as int].posting.status,
            )),
            match r {
                Ok(refunded) => ({
                    let j = job_id as int;
                    let jobs = old(self).jobs@;
                    &&& job_id < jobs.len()
                    &&& jobs[j].version == expected_version
                    &&& caller == jobs[j].posting.employer
                    &&& !is_terminal(jobs[j].posting.status)
                    &&& refunded == jobs[j].escrow.balance
                    &&& final(self).jobs@.len() == jobs.len()
                    &&& (forall|k: int| 0 <= k < jobs.len() && k != j ==> final(self).jobs@[k]
                        == jobs[k])
                    &&& final(self).jobs@[j] == (JobRecord {
                        posting: (JobPosting {
                            status: JobStatus::Cancelled,
                            ..jobs[j].posting
                        }),
                        escrow: (EscrowAccount { balance: 0 }),
                        version: version_after(expected_version),
                    })
                    &&& advances(jobs[j].posting.status, final(self).jobs@[j].posting.status)
                }),
                Err(e) => ({
                    let j = job_id as int;
                    let jobs = old(self).jobs@;
                    let in_range = job_id < jobs.len();
                    let ver_ok = in_range && jobs[j].version == expected_version;
                    let auth_ok = ver_ok && caller == jobs[j].posting.employer;
                    &&& *final(self) == *old(self)
                    &&& (e == JobError::NotFound <==> !in_range)
                    &&& (e == JobError::ConcurrentModification <==> (in_range
                        && jobs[j].version != expected_version))
                    &&& (e == JobError::Unauthorized <==> (ver_ok && caller
                        != jobs[j].posting.employer))
                    &&& (e == JobError::InvalidState <==> (auth_ok && is_terminal(
                        jobs[j].posting.status,
                    )))
                }),
            },
    {
        if job_id >= self.jobs.len() {
            return Err(JobError::NotFound);
        }
        if self.jobs[job_id].version != expected_version {
            return Err(JobError::ConcurrentModification);
        }
        if !(caller == self.jobs[job_id].posting.employer) {
            return Err(JobError::Unauthorized);
        }
        if self.jobs[job_id].posting.status.terminal() {
            return Err(JobError::InvalidState);
        }
        let rec = &mut self.jobs[job_id];
        let refunded = rec.escrow.refund();
        rec.posting.status = JobStatus::Cancelled;
        rec.version = next_version(expected_version);
        Ok(refunded)
    }

    /// Raises a dispute on a non-terminal job. The lifecycle defines no
    /// target state or effect for a dispute, so this command deliberately
    /// validates its guards and changes nothing; resolution policy lives
    /// outside the core.
    pub fn dispute_job(&self, job_id: usize, caller: Identity) -> (r: Result<(), JobError>)
        ensures
            r is Ok <==> (job_id < self.jobs@.len() && caller
                == self.jobs@[job_id as int].posting.employer && !is_terminal(
                self.jobs@[job_id as int].posting.status,
            )),
            match r {
                Ok(()) => true,
                Err(e) => ({
                    let j = job_id as int;
                    let in_range = job_id < self.jobs@.len();
                    let auth_ok = in_range && caller == self.jobs@[j].posting.employer;
                    &&& (e == JobError::NotFound <==> !in_range)
                    &&& (e == JobError::Unauthorized <==> (in_range && caller
                        != self.jobs@[j].posting.employer))
                    &&& (e == JobError::InvalidState <==> (auth_ok && is_terminal(
                        self.jobs@[j].posting.status,
                    )))
                }),
            },
    {
        if job_id >= self.jobs.len() {
            return Err(JobError::NotFound);
        }
        if !(caller == self.jobs[job_id].posting.employer) {
            return Err(JobError::Unauthorized);
        }
        if self.jobs[job_id].posting.status.terminal() {
            return Err(JobError::InvalidState);
        }
        Ok(())
    }

    /// Replaces the progress note (the description) of one milestone of a
    /// non-terminal job. Payments and completion flags are untouched, so
    /// the escrow is unaffected.
    pub fn update_milestone_progress(
        &mut self,
        job_id: usize,
        expected_version: u64,
        caller: Identity,
        index: usize,
        progress: String,
    ) -> (r: Result<(), JobError>)
        requires
            old(self).wf(),
        ensures
            final(self).wf(),
            final(self).ratings@ == old(self).ratings@,
            final(self).reputations@ == old(self).reputations@,
            r is Ok <==> (job_id < old(self).jobs@.len() && old(
                self,
            ).jobs@[job_id as int].version == expected_version && caller == old(
                self,
            ).jobs@[job_id as int].posting.employer && !is_terminal(
                old(self).jobs@[job_id as int].posting.status,
            ) && index < old(self).jobs@[job_id as int].posting.milestones@.len()),
            match r {
                Ok(()) => ({
                    let j = job_id as int;
                    let jobs = old(self).jobs@;
                    let ms = jobs[j].posting.milestones@;
                    &&& job_id < jobs.len()
                    &&& jobs[j].version == expected_version
                    &&& caller == jobs[j].posting.employer
                    &&& !is_terminal(jobs[j].posting.status)
                    &&& index < ms.len()
                    &&& final(self).jobs@.len() == jobs.len()
                    &&& (forall|k: int| 0 <= k < jobs.len() && k != j ==> final(self).jobs@[k]
                        == jobs[k])
                    &&& final(self).jobs@[j].posting.employer == jobs[j].posting.employer
                    &&& final(self).jobs@[j].posting.freelancer == jobs[j].posting.freelancer
                    &&& final(self).jobs@[j].posting.status == jobs[j].posting.status
                    &&& final(self).jobs@[j].posting.total_payment
                        == jobs[j].posting.total_payment
                    &&& final(self).jobs@[j].posting.expiration_time
                        == jobs[j].posting.expiration_time
                    &&& final(self).jobs@[j].posting.milestones@ == ms.update(
                        index as int,
                        (Milestone { description: progress, ..ms[index as int] }),
                    )
                    &&& final(self).jobs@[j].escrow == jobs[j].escrow
                    &&& final(self).jobs@[j].version == version_after(expected_version)
                }),
                Err(e) => ({
                    let j = job_id as int;
                    let jobs = old(self).jobs@;
                    let in_range = job_id < jobs.len();
                    let ver_ok = in_range && jobs[j].version == expected_version;
                    let auth_ok = ver_ok && caller == jobs[j].posting.employer;
                    let status_ok = auth_ok && !is_terminal(jobs[j].posting.status);
                    &&& *final(self) == *old(self)
                    &&& (e == JobError::NotFound <==> (!in_range || (status_ok && index
                        >= jobs[j].posting.milestones@.len())))
                    &&& (e == JobError::ConcurrentModification <==> (in_range
                        && jobs[j].version != expected_version))
                    &&& (e == JobError::Unauthorized <==> (ver_ok && caller
                        != jobs[j].posting.employer))
                    &&& (e == JobError::InvalidState <==> (auth_ok && is_terminal(
                        jobs[j].posting.status,
                    )))
                }),
            },
    {
        if job_id >= self.jobs.len() {
            return Err(JobError::NotFound);
        }
        if self.jobs[job_id].version != expected_version {
            return Err(JobError::ConcurrentModification);
        }
        if !(caller == self.jobs[job_id].posting.employer) {
            return Err(JobError::Unauthorized);
        }
        if self.jobs[job_id].posting.status.terminal() {
            return Err(JobError::InvalidState);
        }
        if index >= self.jobs[job_id].posting.milestones.len() {
            return Err(JobError::NotFound);
        }
        let ghost ms = self.jobs@[job_id as int].posting.milestones@;
        proof {
            // Neither the payment nor the completion flag changes, so both
            // milestone sums are untouched.
            crate::types::lemma_sums_update(
                ms,
                index as int,
                Milestone { description: progress, ..ms[index as int] },
            );
        }
        let mstone = &mut self.jobs[job_id].posting.milestones[index];
        mstone.description = progress;
        let rec = &mut self.jobs[job_id];
        rec.version = next_version(expected_version);
        Ok(())
    }

    /// Rates the freelancer of a job: appends an immutable rating to the
    /// log and folds it into the freelancer's reputation by the
    /// running-mean formula. Ratings outside [1, 5] always fail with
    /// `OutOfRange`; a job without a freelancer cannot be rated; only the
    /// employer rates. The job record itself never changes. The counter
    /// bound on existing entries is a machine limit: one more rating must
    /// fit.
    pub fn rate_job(
        &mut self,
        job_id: usize,
        caller: Identity,
        rating: u8,
        feedback: String,
    ) -> (r: Result<(), JobError>)
        requires
            old(self).wf(),
            forall|i: int|
                0 <= i < old(self).reputations@.len() ==> (#[trigger] old(
                    self,
                ).reputations@[i]).total_ratings < u32::MAX,
        ensures
            final(self).wf(),
            final(self).jobs@ == old(self).jobs@,
            r is Ok <==> (1 <= rating <= 5 && job_id < old(self).jobs@.len() && old(
                self,
            ).jobs@[job_id as int].posting.freelancer is Some && caller == old(
                self,
            ).jobs@[job_id as int].posting.employer),
            match r {
                Ok(()) => ({
                    let jobs = old(self).jobs@;
                    let j = job_id as int;
                    let f = jobs[j].posting.freelancer.unwrap();
                    &&& final(self).ratings@ == old(self).ratings@.push(
                        (JobRating {
                            employer: jobs[j].posting.employer,
                            freelancer: f,
                            rating,
                            feedback,
                        }),
                    )
                    &&& (has_rep(old(self).reputations@, f) ==> exists|i: int|
                        0 <= i < old(self).reputations@.len() && (#[trigger] old(
                            self,
                        ).reputations@[i]).pubkey == f && final(self).reputations@ == old(
                            self,
                        ).reputations@.update(i, rated(old(self).reputations@[i], rating)))
                    &&& (!has_rep(old(self).reputations@, f) ==> final(self).reputations@ == old(
                        self,
                    ).reputations@.push(
                        (crate::types::Reputation {
                            pubkey: f,
                            average_rating: rating,
                            total_ratings: 1,
                        }),
                    ))
                }),
                Err(e) => ({
                    let jobs = old(self).jobs@;
                    let j = job_id as int;
                    let bounds_ok = 1 <= rating <= 5;
                    let in_range = bounds_ok && job_id < jobs.len();
                    let set_ok = in_range && jobs[j].posting.freelancer is Some;
                    &&& *final(self) == *old(self)
                    &&& (e == JobError::OutOfRange <==> !bounds_ok)
                    &&& (e == JobError::NotFound <==> (bounds_ok && job_id >= jobs.len()))
                    &&& (e == JobError::InvalidState <==> (in_range
                        && jobs[j].posting.freelancer is None))
                    &&& (e == JobError::Unauthorized <==> (set_ok && caller
                        != jobs[j].posting.employer))
                }),
            },
    {
        if rating < 1 || rating > 5 {
            return Err(JobError::OutOfRange);
        }
        if job_id >= self.jobs.len() {
            return Err(JobError::NotFound);
        }
        let freelancer = match self.jobs[job_id].posting.freelancer {
            Some(f) => f,
            None => {
                return Err(JobError::InvalidState);
            },
        };
        let employer = self.jobs[job_id].posting.employer;
        if !(caller == employer) {
            return Err(JobError::Unauthorized);
        }
        self.ratings.push(JobRating { employer, freelancer, rating, feedback });
        match find_reputation(&self.reputations, freelancer) {
            Some(i) => {
                let ghost reps = self.reputations@;
                let entry = &mut self.reputations[i];
                apply_rating(entry, rating);
                assert(0 <= i < reps.len() && reps[i as int].pubkey == freelancer
                    && self.reputations@ == reps.update(i as int, rated(reps[i as int], rating)));
            },
            None => {
                self.reputations.push(
                    crate::types::Reputation {
                        pubkey: freelancer,
                        average_rating: rating,
                        total_ratings: 1,
                    },
                );
            },
        }
        Ok(())
    }
}

} // verus!
