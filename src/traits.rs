//! Capabilities a rated entity exposes, and the scoring policy interface.

use crate::batch::{batch_items, RatingBatch};
use crate::pallet::{AccountId, CredibilityUnit, Rating, ReputationUnit, MAX_CREDIBILITY};
use vstd::prelude::*;

verus! {

/// Whether a reputation computed over the integers fits the stored width.
pub open spec fn reputation_fits(value: int) -> bool {
    ReputationUnit::MIN <= value <= ReputationUnit::MAX
}

/// The policy that turns a record's current scores and a batch of ratings
/// into its new scores.
///
/// An implementation fixes its formulas as the spec functions
/// `spec_reputation` and `spec_credibility`, and proves that the credibility
/// it produces stays within `[0, MAX_CREDIBILITY]`.
pub trait ReputationHandler {
    /// The new reputation, as an unbounded integer.
    spec fn spec_reputation(
        reputation: ReputationUnit,
        credibility: CredibilityUnit,
        ratings: Seq<Rating>,
    ) -> int;

    /// The new credibility.
    spec fn spec_credibility(credibility: CredibilityUnit, ratings: Seq<Rating>) -> CredibilityUnit;

    /// A policy never lifts a credibility above the maximum.
    proof fn lemma_credibility_bounded(credibility: CredibilityUnit, ratings: Seq<Rating>)
        requires
            credibility <= MAX_CREDIBILITY,
        ensures
            Self::spec_credibility(credibility, ratings) <= MAX_CREDIBILITY,
    ;

    /// Calculate the new reputation of an entity from a batch of ratings.
    fn calculate_reputation<N: HasCredibility + HasReputation + HasAccountId>(
        item: &N,
        score: &RatingBatch,
    ) -> (r: ReputationUnit)
        requires
            reputation_fits(
                Self::spec_reputation(item.spec_reputation(), item.spec_credibility(), batch_items(*score)),
            ),
        ensures
            r == Self::spec_reputation(item.spec_reputation(), item.spec_credibility(), batch_items(*score)),
    ;

    /// Whether `calculate_reputation` on these arguments has a result that
    /// fits a `ReputationUnit`.
    fn reputation_in_range<N: HasCredibility + HasReputation + HasAccountId>(
        item: &N,
        score: &RatingBatch,
    ) -> (b: bool)
        ensures
            b == reputation_fits(
                Self::spec_reputation(item.spec_reputation(), item.spec_credibility(), batch_items(*score)),
            ),
    ;

    /// Calculate the new credibility of an entity, used to weigh its own
    /// votes; it lies between 0 and 1000, higher is better.
    fn calculate_credibility<N: HasCredibility>(item: &N, score: &RatingBatch) -> (r:
        CredibilityUnit)
        requires
            item.spec_credibility() <= MAX_CREDIBILITY,
        ensures
            r == Self::spec_credibility(item.spec_credibility(), batch_items(*score)),
            r <= MAX_CREDIBILITY,
    ;
}

/// An entity that carries a reputation.
pub trait HasReputation {
    spec fn spec_reputation(&self) -> ReputationUnit;

    /// Return the reputation of the entity.
    fn get_reputation(&self) -> (r: ReputationUnit)
        ensures
            r == self.spec_reputation(),
    ;
}

/// An entity that carries a credibility.
pub trait HasCredibility {
    spec fn spec_credibility(&self) -> CredibilityUnit;

    /// Return the credibility of the entity.
    fn get_credibility(&self) -> (r: CredibilityUnit)
        ensures
            r == self.spec_credibility(),
    ;
}

/// An entity owned by an account.
pub trait HasAccountId {
    spec fn spec_account_id(&self) -> AccountId;

    /// Return the account that owns the entity.
    fn get_account_id(&self) -> (r: &AccountId)
        ensures
            *r == self.spec_account_id(),
    ;
}

} // verus!
