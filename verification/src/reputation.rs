//! Reputation ledger arithmetic: the running mean a freelancer's recorded
//! ratings feed, and the lookup the rating path uses to find a freelancer's
//! entry.

use vstd::prelude::*;
use vstd::arithmetic::div_mod::{lemma_div_basics, lemma_div_nonincreasing, lemma_div_pos_is_pos};
use crate::types::{Identity, Reputation, reputation_wf};

verus! {

/// The running mean after one more rating: `avg + (rating - avg) / (total + 1)`,
/// with integer division truncating toward zero (written branched so that
/// both divisions act on nonnegative values).
pub open spec fn next_average(avg: int, total: int, rating: int) -> int {
    if rating >= avg {
        avg + (rating - avg) / (total + 1)
    } else {
        avg - (avg - rating) / (total + 1)
    }
}

/// The reputation entry after absorbing one more rating: the count grows by
/// one and the average moves by the running-mean formula.
pub open spec fn rated(rep: Reputation, rating: u8) -> Reputation {
    Reputation {
        pubkey: rep.pubkey,
        average_rating: next_average(
            rep.average_rating as int,
            rep.total_ratings as int,
            rating as int,
        ) as u8,
        total_ratings: (rep.total_ratings + 1) as u32,
    }
}

/// Absorbs one rating into a reputation entry, per the running-mean
/// formula. The count bound is a machine limit: one more rating must fit in
/// the counter.
pub fn apply_rating(rep: &mut Reputation, rating: u8)
    requires
        reputation_wf(*old(rep)),
        1 <= rating <= 5,
        old(rep).total_ratings < u32::MAX,
    ensures
        *final(rep) == rated(*old(rep), rating),
        reputation_wf(*final(rep)),
        1 <= final(rep).average_rating <= 5,
{
    let divisor: u64 = rep.total_ratings as u64 + 1;
    if rating >= rep.average_rating {
        let diff: u64 = (rating - rep.average_rating) as u64;
        let delta: u64 = diff / divisor;
        proof {
            lemma_div_pos_is_pos(diff as int, divisor as int);
            lemma_div_nonincreasing(diff as int, divisor as int);
            // While no rating is recorded the average is zero, so the first
            // rating becomes the average whole: the divisor is one.
            if rep.average_rating == 0 {
                lemma_div_basics(diff as int);
            }
        }
        rep.average_rating = rep.average_rating + (delta as u8);
    } else {
        let diff: u64 = (rep.average_rating - rating) as u64;
        let delta: u64 = diff / divisor;
        proof {
            lemma_div_pos_is_pos(diff as int, divisor as int);
            lemma_div_nonincreasing(diff as int, divisor as int);
        }
        rep.average_rating = rep.average_rating - (delta as u8);
    }
    rep.total_ratings = rep.total_ratings + 1;
}

/// True when the ledger holds an entry for `who`.
pub open spec fn has_rep(reps: Seq<Reputation>, who: Identity) -> bool {
    exists|i: int| 0 <= i < reps.len() && (#[trigger] reps[i]).pubkey == who
}

/// Finds the reputation entry recorded for `who`, if any.
pub fn find_reputation(reps: &Vec<Reputation>, who: Identity) -> (r: Option<usize>)
    ensures
        match r {
            Some(i) => i < reps@.len() && reps@[i as int].pubkey == who,
            None => forall|i: int| 0 <= i < reps@.len() ==> reps@[i].pubkey != who,
        },
{
    let mut idx: usize = 0;
    while idx < reps.len()
        invariant
            idx <= reps@.len(),
            forall|i: int| 0 <= i < idx ==> reps@[i].pubkey != who,
        decreases reps@.len() - idx,
    {
        if reps[idx].pubkey == who {
            return Some(idx);
        }
        idx = idx + 1;
    }
    None
}

} // verus!
