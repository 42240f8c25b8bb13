//! The reference scoring policy, and the accessors of [`Reputable`].

use crate::batch::{batch_at, batch_items, batch_len, RatingBatch, MAXIMUM_RATINGS_PER};
use crate::pallet::{AccountId, CredibilityUnit, Rating, ReputationUnit, Reputable};
use crate::traits::{HasAccountId, HasCredibility, HasReputation};
use vstd::prelude::*;

verus! {

/// The neutral rating: ratings above it raise a reputation, ratings below
/// lower it.
pub const MIDPOINT: i64 = 3;

/// The sum of `r - MIDPOINT` over the ratings, in order.
pub open spec fn rating_deltas(ratings: Seq<Rating>) -> int
    decreases ratings.len(),
{
    if ratings.len() == 0 {
        0
    } else {
        rating_deltas(ratings.drop_last()) + (ratings.last() - MIDPOINT)
    }
}

/// The reputation reached from `reputation` by applying every rating of the
/// batch once, as a wide integer.
pub fn reputation_total(reputation: ReputationUnit, ratings: &RatingBatch) -> (t: i64)
    ensures
        t == reputation + rating_deltas(batch_items(*ratings)),
{
    let ghost items = batch_items(*ratings);
    let n = batch_len(ratings);
    let mut total: i64 = reputation as i64;
    let mut i: usize = 0;
    while i < n
        invariant
            n == items.len() <= MAXIMUM_RATINGS_PER,
            items == batch_items(*ratings),
            i <= n,
            total == reputation + rating_deltas(items.take(i as int)),
            ReputationUnit::MIN - 3 * i <= total <= ReputationUnit::MAX + 252 * i,
        decreases n - i,
    {
        assert(items.take(i + 1).drop_last() =~= items.take(i as int));
        total = total + (batch_at(ratings, i) as i64 - MIDPOINT);
        i = i + 1;
    }
    assert(items.take(i as int) =~= items);
    total
}

/// The reference policy: every rating moves the reputation by its distance
/// from the midpoint, and the credibility is left as it is.
pub struct ReputationHandler;

impl crate::traits::ReputationHandler for ReputationHandler {
    open spec fn spec_reputation(
        reputation: ReputationUnit,
        credibility: CredibilityUnit,
        ratings: Seq<Rating>,
    ) -> int {
        reputation + rating_deltas(ratings)
    }

    open spec fn spec_credibility(credibility: CredibilityUnit, ratings: Seq<Rating>) -> CredibilityUnit {
        credibility
    }

    proof fn lemma_credibility_bounded(credibility: CredibilityUnit, ratings: Seq<Rating>) {
    }

    fn calculate_reputation<N: HasCredibility + HasReputation + HasAccountId>(
        item: &N,
        score: &RatingBatch,
    ) -> (r: ReputationUnit) {
        let total = reputation_total(item.get_reputation(), score);
        total as ReputationUnit
    }

    fn reputation_in_range<N: HasCredibility + HasReputation + HasAccountId>(
        item: &N,
        score: &RatingBatch,
    ) -> (b: bool) {
        let total = reputation_total(item.get_reputation(), score);
        ReputationUnit::MIN as i64 <= total && total <= ReputationUnit::MAX as i64
    }

    fn calculate_credibility<N: HasCredibility>(item: &N, score: &RatingBatch) -> (r: CredibilityUnit) {
        item.get_credibility()
    }
}

impl HasCredibility for Reputable {
    open spec fn spec_credibility(&self) -> CredibilityUnit {
        self.credibility
    }

    fn get_credibility(&self) -> (r: CredibilityUnit) {
        self.credibility
    }
}

impl HasReputation for Reputable {
    open spec fn spec_reputation(&self) -> ReputationUnit {
        self.reputation
    }

    fn get_reputation(&self) -> (r: ReputationUnit) {
        self.reputation
    }
}

impl HasAccountId for Reputable {
    open spec fn spec_account_id(&self) -> AccountId {
        self.account
    }

    fn get_account_id(&self) -> (r: &AccountId) {
        &self.account
    }
}

} // verus!
