//! Laws of the record store that relate several operations.

use crate::pallet::{
    create_step, fresh_record, rate_step, ratings_sum, records_wf, remove_step,
    saturate, AccountId, Error, Rating, ReputationUnit, Reputable,
};
use crate::traits::ReputationHandler;
use vstd::prelude::*;

verus! {

/// Creating a record for an account without one succeeds and leaves the
/// default record; creating it again fails with `ReputationAlreadyExists`
/// and changes nothing.
pub proof fn lemma_create_then_duplicate(
    m: Map<AccountId, Reputable>,
    account: AccountId,
    default_reputation: ReputationUnit,
)
    requires
        !m.contains_key(account),
    ensures
        ({
            let (r1, m1) = create_step(m, account, default_reputation);
            let (r2, m2) = create_step(m1, account, default_reputation);
            &&& r1 == Ok::<(), Error>(())
            &&& m1.contains_key(account)
            &&& m1[account] == fresh_record(account, default_reputation)
            &&& r2 == Err::<(), Error>(Error::ReputationAlreadyExists)
            &&& m2 == m1
        }),
{
}

/// Removing a missing record fails with `CannotRemoveNothing` and changes
/// nothing; removing a present one leaves the account without a record, and
/// a later create gives it the default record again.
pub proof fn lemma_remove_then_create(
    m: Map<AccountId, Reputable>,
    account: AccountId,
    default_reputation: ReputationUnit,
)
    ensures
        !m.contains_key(account) ==> remove_step(m, account) == (
            Err::<(), Error>(Error::CannotRemoveNothing),
            m,
        ),
        m.contains_key(account) ==> ({
            let (r1, m1) = remove_step(m, account);
            let (r2, m2) = create_step(m1, account, default_reputation);
            &&& r1 == Ok::<(), Error>(())
            &&& !m1.contains_key(account)
            &&& r2 == Ok::<(), Error>(())
            &&& m2[account] == fresh_record(account, default_reputation)
            &&& m2 == m.insert(account, fresh_record(account, default_reputation))
        }),
{
    if m.contains_key(account) {
        let m1 = m.remove(account);
        assert(m1.insert(account, fresh_record(account, default_reputation)) =~= m.insert(
            account,
            fresh_record(account, default_reputation),
        ));
    }
}

/// Rating an account without a record fails with `RecordNotFound` and
/// changes nothing, so a later create still gives the default record.
pub proof fn lemma_rate_missing_then_create<H: ReputationHandler>(
    m: Map<AccountId, Reputable>,
    account: AccountId,
    ratings: Seq<Rating>,
    default_reputation: ReputationUnit,
)
    requires
        !m.contains_key(account),
    ensures
        ({
            let (r1, m1) = rate_step::<H>(m, account, ratings);
            let (r2, m2) = create_step(m1, account, default_reputation);
            &&& r1 == Err::<(), Error>(Error::RecordNotFound)
            &&& m1 == m
            &&& r2 == Ok::<(), Error>(())
            &&& m2[account] == fresh_record(account, default_reputation)
        }),
{
}

/// Every operation keeps each record filed under its own account and its
/// credibility within `[0, MAX_CREDIBILITY]`, whatever the policy.
pub proof fn lemma_steps_keep_wf<H: ReputationHandler>(
    m: Map<AccountId, Reputable>,
    account: AccountId,
    ratings: Seq<Rating>,
    default_reputation: ReputationUnit,
)
    requires
        records_wf(m),
    ensures
        records_wf(create_step(m, account, default_reputation).1),
        records_wf(remove_step(m, account).1),
        records_wf(rate_step::<H>(m, account, ratings).1),
{
    if m.contains_key(account) {
        H::lemma_credibility_bounded(m[account].credibility, ratings);
    }
}

/// The number of ratings in all batches.
pub open spec fn total_count(batches: Seq<Seq<Rating>>) -> int
    decreases batches.len(),
{
    if batches.len() == 0 {
        0
    } else {
        total_count(batches.drop_last()) + batches.last().len()
    }
}

/// The sum of the rating values in all batches.
pub open spec fn total_sum(batches: Seq<Seq<Rating>>) -> int
    decreases batches.len(),
{
    if batches.len() == 0 {
        0
    } else {
        total_sum(batches.drop_last()) + ratings_sum(batches.last())
    }
}

proof fn lemma_ratings_sum_nonneg(ratings: Seq<Rating>)
    ensures
        ratings_sum(ratings) >= 0,
    decreases ratings.len(),
{
    if ratings.len() > 0 {
        lemma_ratings_sum_nonneg(ratings.drop_last());
    }
}

/// After a run of successful ratings of one account, the count of ratings is
/// the starting count plus the lengths of all batches, and the aggregate is
/// the starting aggregate plus every rating value, each clamped at
/// `u64::MAX` and never wrapped.
pub proof fn lemma_rating_counters<H: ReputationHandler>(
    states: Seq<Map<AccountId, Reputable>>,
    account: AccountId,
    batches: Seq<Seq<Rating>>,
)
    requires
        states.len() == batches.len() + 1,
        states[0].contains_key(account),
        forall|i: int|
            0 <= i < batches.len() ==> #[trigger] rate_step::<H>(states[i], account, batches[i])
                == (Ok::<(), Error>(()), states[i + 1]),
    ensures
        states.last().contains_key(account),
        states.last()[account].num_of_ratings == saturate(
            states[0][account].num_of_ratings + total_count(batches),
        ),
        states.last()[account].aggregate_rating == saturate(
            states[0][account].aggregate_rating + total_sum(batches),
        ),
    decreases batches.len(),
{
    let n = batches.len() as int;
    if n > 0 {
        let prefix = states.drop_last();
        let front = batches.drop_last();
        assert forall|i: int| 0 <= i < front.len() implies #[trigger] rate_step::<H>(
            prefix[i],
            account,
            front[i],
        ) == (Ok::<(), Error>(()), prefix[i + 1]) by {
            assert(rate_step::<H>(states[i], account, batches[i]) == (
                Ok::<(), Error>(()),
                states[i + 1],
            ));
        }
        lemma_rating_counters::<H>(prefix, account, front);
        assert(rate_step::<H>(states[n - 1], account, batches[n - 1]) == (
            Ok::<(), Error>(()),
            states[n],
        ));
        lemma_ratings_sum_nonneg(batches[n - 1]);
        lemma_total_sum_nonneg(front);
        lemma_total_count_nonneg(front);
    }
}

proof fn lemma_total_sum_nonneg(batches: Seq<Seq<Rating>>)
    ensures
        total_sum(batches) >= 0,
    decreases batches.len(),
{
    if batches.len() > 0 {
        lemma_total_sum_nonneg(batches.drop_last());
        lemma_ratings_sum_nonneg(batches.last());
    }
}

proof fn lemma_total_count_nonneg(batches: Seq<Seq<Rating>>)
    ensures
        total_count(batches) >= 0,
    decreases batches.len(),
{
    if batches.len() > 0 {
        lemma_total_count_nonneg(batches.drop_last());
    }
}

} // verus!
