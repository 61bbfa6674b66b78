use job_escrow::error::JobError;
use job_escrow::market::Marketplace;
use job_escrow::types::{Identity, Milestone};

fn employer() -> Identity {
    Identity { id: 1 }
}

fn freelancer() -> Identity {
    Identity { id: 2 }
}

fn accepted_job(m: &mut Marketplace) -> usize {
    let ms = vec![Milestone {
        description: String::new(),
        payment_amount: 50,
        completed: false,
        deadline: None,
    }];
    let id = m.post_job(employer(), 50, 50, ms, 0, None).unwrap();
    let v = m.jobs[id].version;
    m.accept_job(id, v, freelancer()).unwrap();
    id
}

#[test]
fn rating_zero_and_six_out_of_range() {
    let mut m = Marketplace::new();
    let id = accepted_job(&mut m);
    assert_eq!(
        m.rate_job(id, employer(), 0, String::new()),
        Err(JobError::OutOfRange)
    );
    assert_eq!(
        m.rate_job(id, employer(), 6, String::new()),
        Err(JobError::OutOfRange)
    );
    assert_eq!(m.ratings.len(), 0);
    assert_eq!(m.reputations.len(), 0);
}

#[test]
fn ratings_one_to_five_succeed() {
    for rating in 1u8..=5u8 {
        let mut m = Marketplace::new();
        let id = accepted_job(&mut m);
        assert_eq!(m.rate_job(id, employer(), rating, String::new()), Ok(()));
        assert_eq!(m.ratings.len(), 1);
        assert_eq!(m.ratings[0].rating, rating);
        assert_eq!(m.reputations.len(), 1);
        assert_eq!(m.reputations[0].pubkey, freelancer());
        assert_eq!(m.reputations[0].average_rating, rating);
        assert_eq!(m.reputations[0].total_ratings, 1);
    }
}

#[test]
fn running_mean_follows_formula() {
    let mut m = Marketplace::new();
    let id = accepted_job(&mut m);
    // avg' = avg + (rating - avg) / (total + 1), truncating toward zero.
    assert_eq!(m.rate_job(id, employer(), 5, String::new()), Ok(()));
    assert_eq!(m.reputations[0].average_rating, 5);
    // 5 + (4 - 5) / 2 truncates to 5.
    assert_eq!(m.rate_job(id, employer(), 4, String::new()), Ok(()));
    assert_eq!(m.reputations[0].average_rating, 5);
    // 5 + (1 - 5) / 3 = 5 - 1 = 4.
    assert_eq!(m.rate_job(id, employer(), 1, String::new()), Ok(()));
    assert_eq!(m.reputations[0].average_rating, 4);
    assert_eq!(m.reputations[0].total_ratings, 3);
    assert_eq!(m.ratings.len(), 3);
}

#[test]
fn rating_without_freelancer_invalid_state() {
    let mut m = Marketplace::new();
    let id = m
        .post_job(employer(), 50, 50, Vec::new(), 0, None)
        .unwrap();
    assert_eq!(
        m.rate_job(id, employer(), 3, String::new()),
        Err(JobError::InvalidState)
    );
}

#[test]
fn only_employer_rates() {
    let mut m = Marketplace::new();
    let id = accepted_job(&mut m);
    assert_eq!(
        m.rate_job(id, freelancer(), 3, String::new()),
        Err(JobError::Unauthorized)
    );
}

#[test]
fn rating_keeps_feedback_and_parties() {
    let mut m = Marketplace::new();
    let id = accepted_job(&mut m);
    assert_eq!(
        m.rate_job(id, employer(), 4, String::from("solid work")),
        Ok(())
    );
    assert_eq!(m.ratings[0].employer, employer());
    assert_eq!(m.ratings[0].freelancer, freelancer());
    assert_eq!(m.ratings[0].feedback, "solid work");
}

#[test]
fn reputations_are_per_freelancer() {
    let mut m = Marketplace::new();
    let id_a = accepted_job(&mut m);
    let ms = vec![Milestone {
        description: String::new(),
        payment_amount: 10,
        completed: false,
        deadline: None,
    }];
    let id_b = m.post_job(employer(), 10, 10, ms, 0, None).unwrap();
    let v = m.jobs[id_b].version;
    let other = Identity { id: 3 };
    m.accept_job(id_b, v, other).unwrap();

    assert_eq!(m.rate_job(id_a, employer(), 5, String::new()), Ok(()));
    assert_eq!(m.rate_job(id_b, employer(), 2, String::new()), Ok(()));
    assert_eq!(m.reputations.len(), 2);
    assert_eq!(m.reputations[0].pubkey, freelancer());
    assert_eq!(m.reputations[0].average_rating, 5);
    assert_eq!(m.reputations[1].pubkey, other);
    assert_eq!(m.reputations[1].average_rating, 2);
}
