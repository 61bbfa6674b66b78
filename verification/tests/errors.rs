use job_escrow::error::JobError;
use job_escrow::market::Marketplace;
use job_escrow::types::{EscrowAccount, Identity, JobStatus, Milestone, ZkProof};

fn employer() -> Identity {
    Identity { id: 1 }
}

fn milestone(amount: u64) -> Milestone {
    Milestone {
        description: String::new(),
        payment_amount: amount,
        completed: false,
        deadline: None,
    }
}

#[test]
fn post_insufficient_funds() {
    let mut m = Marketplace::new();
    let r = m.post_job(employer(), 999, 1000, vec![milestone(1000)], 0, None);
    assert_eq!(r, Err(JobError::InsufficientFunds));
    assert!(r.unwrap_err().is_retryable());
    assert_eq!(m.jobs.len(), 0);
}

#[test]
fn post_overstaged_milestones_out_of_range() {
    let mut m = Marketplace::new();
    let ms = vec![milestone(600), milestone(600)];
    let r = m.post_job(employer(), 1000, 1000, ms, 0, None);
    assert_eq!(r, Err(JobError::OutOfRange));
    assert_eq!(m.jobs.len(), 0);
}

#[test]
fn post_precompleted_milestone_out_of_range() {
    let mut m = Marketplace::new();
    let mut done = milestone(100);
    done.completed = true;
    let r = m.post_job(employer(), 1000, 1000, vec![done], 0, None);
    assert_eq!(r, Err(JobError::OutOfRange));
}

#[test]
fn unknown_job_not_found() {
    let mut m = Marketplace::new();
    assert_eq!(m.accept_job(0, 0, employer()), Err(JobError::NotFound));
    assert_eq!(
        m.complete_milestone(7, 0, employer(), 0, 0),
        Err(JobError::NotFound)
    );
    assert_eq!(m.confirm_completion(7, 0, employer()), Err(JobError::NotFound));
    assert_eq!(m.cancel_job(7, 0, employer()), Err(JobError::NotFound));
    assert_eq!(m.dispute_job(7, employer()), Err(JobError::NotFound));
    assert_eq!(
        m.rate_job(7, employer(), 3, String::new()),
        Err(JobError::NotFound)
    );
}

#[test]
fn employer_cannot_accept_own_job() {
    let mut m = Marketplace::new();
    let id = m
        .post_job(employer(), 100, 100, vec![milestone(100)], 0, None)
        .unwrap();
    let v = m.jobs[id].version;
    assert_eq!(m.accept_job(id, v, employer()), Err(JobError::Unauthorized));
    assert_eq!(m.jobs[id].posting.freelancer, None);
}

#[test]
fn non_employer_cannot_release_funds() {
    let mut m = Marketplace::new();
    let id = m
        .post_job(employer(), 100, 100, vec![milestone(100)], 0, None)
        .unwrap();
    let f = Identity { id: 2 };
    let v = m.jobs[id].version;
    m.accept_job(id, v, f).unwrap();
    let v = m.jobs[id].version;
    assert_eq!(
        m.complete_milestone(id, v, f, 0, 0),
        Err(JobError::Unauthorized)
    );
    assert_eq!(m.confirm_completion(id, v, f), Err(JobError::Unauthorized));
    assert_eq!(m.cancel_job(id, v, f), Err(JobError::Unauthorized));
    assert_eq!(m.jobs[id].escrow.balance, 100);
}

#[test]
fn milestone_before_acceptance_invalid_state() {
    let mut m = Marketplace::new();
    let id = m
        .post_job(employer(), 100, 100, vec![milestone(100)], 0, None)
        .unwrap();
    let v = m.jobs[id].version;
    assert_eq!(
        m.complete_milestone(id, v, employer(), 0, 0),
        Err(JobError::InvalidState)
    );
}

#[test]
fn milestone_index_not_found() {
    let mut m = Marketplace::new();
    let id = m
        .post_job(employer(), 100, 100, vec![milestone(100)], 0, None)
        .unwrap();
    let v = m.jobs[id].version;
    m.accept_job(id, v, Identity { id: 2 }).unwrap();
    let v = m.jobs[id].version;
    assert_eq!(
        m.complete_milestone(id, v, employer(), 1, 0),
        Err(JobError::NotFound)
    );
}

#[test]
fn escrow_release_over_balance_is_flagged() {
    let mut escrow = EscrowAccount { balance: 100 };
    assert_eq!(
        escrow.release(101),
        Err(JobError::InsufficientEscrowBalance)
    );
    assert_eq!(escrow.balance, 100);
    assert!(!JobError::InsufficientEscrowBalance.is_retryable());
    assert_eq!(escrow.release(40), Ok(()));
    assert_eq!(escrow.balance, 60);
    assert_eq!(escrow.refund(), 60);
    assert_eq!(escrow.balance, 0);
}

#[test]
fn escrow_deposit_adds() {
    let mut escrow = EscrowAccount { balance: 0 };
    escrow.deposit(250);
    assert_eq!(escrow.balance, 250);
}

#[test]
fn retryable_kinds() {
    assert!(JobError::InsufficientFunds.is_retryable());
    assert!(JobError::ConcurrentModification.is_retryable());
    assert!(!JobError::Unauthorized.is_retryable());
    assert!(!JobError::InvalidState.is_retryable());
    assert!(!JobError::NotFound.is_retryable());
    assert!(!JobError::AlreadySet.is_retryable());
    assert!(!JobError::DeadlineExceeded.is_retryable());
    assert!(!JobError::OutOfRange.is_retryable());
    assert!(!JobError::ProofRejected.is_retryable());
}

#[test]
fn terminal_statuses() {
    assert!(JobStatus::Completed.terminal());
    assert!(JobStatus::Cancelled.terminal());
    assert!(!JobStatus::Posted.terminal());
    assert!(!JobStatus::Accepted.terminal());
    assert!(!JobStatus::InProgress.terminal());
}

#[test]
fn zero_milestone_job_can_only_cancel() {
    let mut m = Marketplace::new();
    let id = m.post_job(employer(), 500, 500, Vec::new(), 0, None).unwrap();
    let v = m.jobs[id].version;
    m.accept_job(id, v, Identity { id: 2 }).unwrap();
    // Without a milestone the job never reaches `InProgress`, so
    // confirmation is rejected and cancellation refunds everything.
    let v = m.jobs[id].version;
    assert_eq!(
        m.confirm_completion(id, v, employer()),
        Err(JobError::InvalidState)
    );
    assert_eq!(m.cancel_job(id, v, employer()), Ok(500));
}

#[test]
fn proof_with_all_components_passes_gate() {
    let zk = ZkProof {
        a: vec![1],
        b: vec![1],
        c: vec![1],
    };
    assert!(job_escrow::types::verify_zk_proof(&zk));
    let empty_c = ZkProof {
        a: vec![1],
        b: vec![1],
        c: Vec::new(),
    };
    assert!(!job_escrow::types::verify_zk_proof(&empty_c));
}
