//! Data model of the marketplace: identities, job postings, milestones,
//! escrow accounts, ratings and reputations, together with their
//! well-formedness predicates and the milestone-sum lemmas the escrow
//! conservation proofs rest on.

use vstd::prelude::*;

verus! {

/// An opaque party identity: the ledger substrate's account key, carried
/// here as a plain numeric handle. Only equality of identities matters to
/// the lifecycle rules.
#[derive(Clone, Copy, Debug, PartialEq, Eq, Structural, Hash)]
pub struct Identity {
    pub id: u64,
}

/// Lifecycle status of a job posting. `Completed` and `Cancelled` are the
/// terminal statuses: no transition leaves them.
#[derive(Clone, Copy, Debug, PartialEq, Eq, Structural)]
pub enum JobStatus {
    Posted,
    Accepted,
    InProgress,
    Completed,
    Cancelled,
}

/// True of the statuses from which no further transition is defined.
pub open spec fn is_terminal(s: JobStatus) -> bool {
    s == JobStatus::Completed || s == JobStatus::Cancelled
}

impl JobStatus {
    /// Executable terminal-status test.
    pub fn terminal(&self) -> (r: bool)
        ensures
            r == is_terminal(*self),
    {
        match self {
            JobStatus::Completed => true,
            JobStatus::Cancelled => true,
            _ => false,
        }
    }
}

/// A discrete, independently payable unit of job work.
#[derive(Clone, Debug)]
pub struct Milestone {
    pub description: String,
    /// Value released from escrow when this milestone is completed.
    pub payment_amount: u64,
    /// Monotonic: set once, never cleared.
    pub completed: bool,
    /// Optional absolute deadline; completion after it is rejected.
    pub deadline: Option<i64>,
}

/// The zero-knowledge proof attached to a privileged posting. Its
/// cryptographic content is opaque to the core; the core only checks that
/// no component is empty before admitting the posting.
#[derive(Clone, Debug)]
pub struct ZkProof {
    /// The proof data from the zk-SNARK.
    pub a: Vec<u8>,
    /// The verification key.
    pub b: Vec<u8>,
    /// The proof data.
    pub c: Vec<u8>,
}

/// True when every component of the proof is present. This is the only
/// validation the core performs; the verifier's cryptographic internals are
/// an external concern.
pub open spec fn proof_accepted(p: ZkProof) -> bool {
    p.a@.len() > 0 && p.b@.len() > 0 && p.c@.len() > 0
}

/// Verifies a proof as far as the core is concerned: rejects a proof with
/// any empty component. This is the integration point for the external
/// proof-verifier capability; its cryptographic internals are out of scope.
pub fn verify_zk_proof(zk_proof: &ZkProof) -> (ok: bool)
    ensures
        ok == proof_accepted(*zk_proof),
{
    zk_proof.a.len() > 0 && zk_proof.b.len() > 0 && zk_proof.c.len() > 0
}

/// One recorded rating of a freelancer by an employer. Immutable once
/// recorded.
#[derive(Clone, Debug)]
pub struct JobRating {
    pub employer: Identity,
    pub freelancer: Identity,
    /// Always in [1, 5].
    pub rating: u8,
    pub feedback: String,
}

/// Derived running mean of the ratings a freelancer has received.
#[derive(Clone, Copy, Debug, PartialEq, Eq, Structural)]
pub struct Reputation {
    pub pubkey: Identity,
    pub average_rating: u8,
    pub total_ratings: u32,
}

/// Well-formedness of a reputation entry: the average stays within the
/// rating scale, is zero exactly while no rating has been recorded, and is
/// at least one as soon as one has.
pub open spec fn reputation_wf(r: Reputation) -> bool {
    &&& r.average_rating <= 5
    &&& (r.total_ratings == 0 <==> r.average_rating == 0)
}

/// One job posting: who funds it, who (if anyone) works it, where it stands
/// in the lifecycle, and how its payment is staged.
#[derive(Clone, Debug)]
pub struct JobPosting {
    /// The funding party; set at creation, immutable.
    pub employer: Identity,
    /// Set exactly once, on acceptance.
    pub freelancer: Option<Identity>,
    pub status: JobStatus,
    pub milestones: Vec<Milestone>,
    /// Total value committed at posting time; deposited into escrow whole.
    pub total_payment: u64,
    /// Informational absolute deadline for the posting as a whole.
    pub expiration_time: i64,
}

/// Custody balance associated one-to-one with a job posting.
#[derive(Clone, Copy, Debug, PartialEq, Eq, Structural)]
pub struct EscrowAccount {
    pub balance: u64,
}

impl EscrowAccount {
    /// Deposits `amount` into custody. The lifecycle calls this exactly
    /// once per job, at posting time.
    pub fn deposit(&mut self, amount: u64)
        requires
            old(self).balance + amount <= u64::MAX,
        ensures
            final(self).balance == old(self).balance + amount,
    {
        self.balance = self.balance + amount;
    }

    /// Releases `amount` from custody toward a payee. Asking for more than
    /// the account holds signals a logic bug in the caller's guards, not an
    /// expected runtime condition, and leaves the balance untouched. The
    /// payee's side of the transfer belongs to the ledger substrate.
    pub fn release(&mut self, amount: u64) -> (r: Result<(), crate::error::JobError>)
        ensures
            amount <= old(self).balance ==> r is Ok && final(self).balance == old(self).balance
                - amount,
            amount > old(self).balance ==> r == Err::<(), crate::error::JobError>(
                crate::error::JobError::InsufficientEscrowBalance,
            ) && *final(self) == *old(self),
    {
        if amount > self.balance {
            return Err(crate::error::JobError::InsufficientEscrowBalance);
        }
        self.balance = self.balance - amount;
        Ok(())
    }

    /// Refunds the whole remaining balance toward a payee, returning how
    /// much was refunded and leaving the account empty.
    pub fn refund(&mut self) -> (refunded: u64)
        ensures
            refunded == old(self).balance,
            final(self).balance == 0,
    {
        let b = self.balance;
        self.balance = 0;
        b
    }
}

/// Sum of all milestone payment amounts.
pub open spec fn sum_payments(ms: Seq<Milestone>) -> int
    decreases ms.len(),
{
    if ms.len() == 0 {
        0
    } else {
        sum_payments(ms.drop_last()) + ms.last().payment_amount
    }
}

/// Sum of the payment amounts of the completed milestones: the value
/// released from escrow so far through the milestone path.
pub open spec fn sum_released(ms: Seq<Milestone>) -> int
    decreases ms.len(),
{
    if ms.len() == 0 {
        0
    } else {
        sum_released(ms.drop_last()) + if ms.last().completed {
            ms.last().payment_amount as int
        } else {
            0
        }
    }
}

/// The released sum is bounded by the total of all milestone payments, and
/// both sums are nonnegative.
pub proof fn lemma_sums_bounds(ms: Seq<Milestone>)
    ensures
        0 <= sum_released(ms) <= sum_payments(ms),
    decreases ms.len(),
{
    if ms.len() > 0 {
        lemma_sums_bounds(ms.drop_last());
    }
}

/// While no milestone is completed, nothing has been released.
pub proof fn lemma_sum_released_none_completed(ms: Seq<Milestone>)
    requires
        forall|i: int| 0 <= i < ms.len() ==> !ms[i].completed,
    ensures
        sum_released(ms) == 0,
    decreases ms.len(),
{
    if ms.len() > 0 {
        assert(forall|i: int|
            0 <= i < ms.drop_last().len() ==> !ms.drop_last()[i].completed);
        lemma_sum_released_none_completed(ms.drop_last());
    }
}

/// How the two sums change when one milestone is replaced by another with
/// the same payment amount: the payment total is unchanged; the released
/// sum is unchanged if the completion flag is unchanged, and grows by the
/// milestone's payment when an incomplete milestone becomes completed.
pub proof fn lemma_sums_update(ms: Seq<Milestone>, i: int, m: Milestone)
    requires
        0 <= i < ms.len(),
        m.payment_amount == ms[i].payment_amount,
    ensures
        sum_payments(ms.update(i, m)) == sum_payments(ms),
        m.completed == ms[i].completed ==> sum_released(ms.update(i, m)) == sum_released(ms),
        m.completed && !ms[i].completed ==> sum_released(ms.update(i, m)) == sum_released(ms)
            + m.payment_amount,
        !m.completed && ms[i].completed ==> sum_released(ms.update(i, m)) == sum_released(ms)
            - m.payment_amount,
    decreases ms.len(),
{
    let upd = ms.update(i, m);
    if i == ms.len() - 1 {
        assert(upd.drop_last() =~= ms.drop_last());
        assert(upd.last() == m);
    } else {
        assert(upd.drop_last() =~= ms.drop_last().update(i, m));
        assert(upd.last() == ms.last());
        lemma_sums_update(ms.drop_last(), i, m);
    }
}

/// The payment sum over a prefix grows by exactly the next milestone's
/// payment amount; likewise the released sum, when that milestone counts.
pub proof fn lemma_sums_take_step(ms: Seq<Milestone>, i: int)
    requires
        0 <= i < ms.len(),
    ensures
        sum_payments(ms.take(i + 1)) == sum_payments(ms.take(i)) + ms[i].payment_amount,
        sum_released(ms.take(i + 1)) == sum_released(ms.take(i)) + if ms[i].completed {
            ms[i].payment_amount as int
        } else {
            0
        },
{
    assert(ms.take(i + 1).drop_last() =~= ms.take(i));
    assert(ms.take(i + 1).last() == ms[i]);
}

/// A prefix's payment sum never exceeds the whole sequence's.
pub proof fn lemma_sum_payments_take_le(ms: Seq<Milestone>, k: int)
    requires
        0 <= k <= ms.len(),
    ensures
        sum_payments(ms.take(k)) <= sum_payments(ms),
    decreases ms.len() - k,
{
    if k == ms.len() {
        lemma_take_all(ms);
    } else {
        lemma_sums_take_step(ms, k);
        lemma_sum_payments_take_le(ms, k + 1);
    }
}

/// A sequence is its own full prefix.
pub proof fn lemma_take_all(ms: Seq<Milestone>)
    ensures
        ms.take(ms.len() as int) =~= ms,
{
}

impl JobPosting {
    /// Well-formedness of a posting: the staged payments never exceed the
    /// committed total; the freelancer is unset exactly while the job is
    /// merely posted and set in every working or completed status; no
    /// milestone is completed before work is accepted; and a completed job
    /// has every milestone completed.
    pub open spec fn wf(self) -> bool {
        &&& sum_payments(self.milestones@) <= self.total_payment
        &&& (self.status == JobStatus::Posted ==> self.freelancer is None)
        &&& ((self.status == JobStatus::Accepted || self.status == JobStatus::InProgress
            || self.status == JobStatus::Completed) ==> self.freelancer is Some)
        &&& ((self.status == JobStatus::Posted || self.status == JobStatus::Accepted)
            ==> (forall|i: int| 0 <= i < self.milestones@.len() ==> !self.milestones@[i].completed))
        &&& (self.status == JobStatus::Completed ==> (forall|i: int|
            0 <= i < self.milestones@.len() ==> self.milestones@[i].completed))
    }
}

} // verus!
