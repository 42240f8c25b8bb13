//! The record store: one reputation record per account.

use crate::batch::{batch_at, batch_items, batch_len, batch_try_from, RatingBatch, MAXIMUM_RATINGS_PER};
use crate::traits::{reputation_fits, ReputationHandler};
use std::collections::HashMap;
use vstd::prelude::*;

verus! {

pub type ReputationUnit = i32;

pub type CredibilityUnit = u32;

pub type Rating = u8;

pub type AccountId = u64;

/// The largest credibility a record can hold.
pub const MAX_CREDIBILITY: CredibilityUnit = 1000;

/// The reputation record of one account.
#[derive(Clone, Copy, Debug, PartialEq, Eq)]
pub struct Reputable {
    pub reputation: ReputationUnit,
    pub credibility: CredibilityUnit,
    /// The saturated sum of all ratings ever applied.
    pub aggregate_rating: u64,
    /// The saturated count of all ratings ever applied.
    pub num_of_ratings: u64,
    pub account: AccountId,
}


/// The fixed parameters of a store.
#[derive(Clone, Copy, Debug, PartialEq, Eq)]
pub struct Config {
    /// The reputation a new record starts with.
    pub default_reputation: ReputationUnit,
}

/// A notification emitted after a successful change of the store.
#[derive(Clone, Copy, Debug, PartialEq, Eq)]
pub enum Event {
    /// Reputation record created.
    ReputationRecordCreated { who: AccountId },
    /// Reputation record removed.
    ReputationRecordRemoved { who: AccountId },
    /// Account rated.
    AccountRated { who: AccountId },
}

/// Why an operation of the store was refused.
#[derive(Clone, Copy, Debug, PartialEq, Eq)]
pub enum Error {
    /// You cannot create duplicate reputation records.
    ReputationAlreadyExists,
    /// Reputation record does not exist.
    CannotRemoveNothing,
    /// Reputation record not found.
    RecordNotFound,
    /// The batch holds more ratings than the store accepts at once.
    BatchTooLarge,
    /// The new reputation does not fit a `ReputationUnit`.
    ReputationOverflow,
}

/// `x` clamped to the range of `u64`.
pub open spec fn saturate(x: int) -> u64 {
    if x > u64::MAX {
        u64::MAX
    } else {
        x as u64
    }
}

/// The sum of the raw rating values.
pub open spec fn ratings_sum(ratings: Seq<Rating>) -> int
    decreases ratings.len(),
{
    if ratings.len() == 0 {
        0
    } else {
        ratings_sum(ratings.drop_last()) + ratings.last()
    }
}

/// The record a new account starts with.
pub open spec fn fresh_record(account: AccountId, default_reputation: ReputationUnit) -> Reputable {
    Reputable {
        reputation: default_reputation,
        credibility: MAX_CREDIBILITY / 2,
        aggregate_rating: 0,
        num_of_ratings: 0,
        account,
    }
}

/// The record after one batch of ratings under policy `H`.
pub open spec fn rated_record<H: ReputationHandler>(r: Reputable, ratings: Seq<Rating>) -> Reputable {
    Reputable {
        reputation: H::spec_reputation(r.reputation, r.credibility, ratings) as ReputationUnit,
        credibility: H::spec_credibility(r.credibility, ratings),
        aggregate_rating: saturate(r.aggregate_rating + ratings_sum(ratings)),
        num_of_ratings: saturate(r.num_of_ratings + ratings.len()),
        account: r.account,
    }
}

/// Every record is filed under its own account and has a credibility
/// within bounds.
pub open spec fn records_wf(m: Map<AccountId, Reputable>) -> bool {
    forall|k: AccountId|
        #[trigger] m.contains_key(k) ==> m[k].account == k && m[k].credibility <= MAX_CREDIBILITY
}

/// Outcome and records after creating a record for `account`.
pub open spec fn create_step(
    m: Map<AccountId, Reputable>,
    account: AccountId,
    default_reputation: ReputationUnit,
) -> (Result<(), Error>, Map<AccountId, Reputable>) {
    if m.contains_key(account) {
        (Err(Error::ReputationAlreadyExists), m)
    } else {
        (Ok(()), m.insert(account, fresh_record(account, default_reputation)))
    }
}

/// Outcome and records after removing the record of `account`.
pub open spec fn remove_step(m: Map<AccountId, Reputable>, account: AccountId) -> (
    Result<(), Error>,
    Map<AccountId, Reputable>,
) {
    if m.contains_key(account) {
        (Ok(()), m.remove(account))
    } else {
        (Err(Error::CannotRemoveNothing), m)
    }
}

/// Outcome and records after rating `account` with one batch under policy `H`.
pub open spec fn rate_step<H: ReputationHandler>(
    m: Map<AccountId, Reputable>,
    account: AccountId,
    ratings: Seq<Rating>,
) -> (Result<(), Error>, Map<AccountId, Reputable>) {
    if m.contains_key(account) {
        (Ok(()), m.insert(account, rated_record::<H>(m[account], ratings)))
    } else {
        (Err(Error::RecordNotFound), m)
    }
}

/// The sum of the raw rating values, computed in `u64`.
pub fn sum_ratings(ratings: &RatingBatch) -> (s: u64)
    ensures
        s == ratings_sum(batch_items(*ratings)),
{
    let ghost items = batch_items(*ratings);
    let n = batch_len(ratings);
    let mut s: u64 = 0;
    let mut i: usize = 0;
    while i < n
        invariant
            n == items.len() <= MAXIMUM_RATINGS_PER,
            items == batch_items(*ratings),
            i <= n,
            s == ratings_sum(items.take(i as int)),
            s <= 255 * i,
        decreases n - i,
    {
        assert(items.take(i + 1).drop_last() =~= items.take(i as int));
        s = s + batch_at(ratings, i) as u64;
        i = i + 1;
    }
    assert(items.take(i as int) =~= items);
    s
}

/// The store of reputation records, scored by policy `H`.
pub struct Pallet<H: ReputationHandler> {
    records: HashMap<AccountId, Reputable>,
    config: Config,
    events: Vec<Event>,
    /// The scoring policy; its functions are associated, so the value only
    /// fixes which policy the store uses.
    #[allow(dead_code)]
    handler: H,
}

impl<H: ReputationHandler> Pallet<H> {
    /// The records, by account.
    pub closed spec fn spec_records(&self) -> Map<AccountId, Reputable> {
        self.records@
    }

    /// The parameters the store was made with.
    pub closed spec fn spec_config(&self) -> Config {
        self.config
    }

    /// The notifications emitted so far and not yet taken.
    pub closed spec fn spec_events(&self) -> Seq<Event> {
        self.events@
    }

    /// The invariant every operation keeps: see `records_wf`.
    pub open spec fn wf(&self) -> bool {
        records_wf(self.spec_records())
    }

    /// Whether rating `account` with `ratings` gives a new reputation that
    /// fits a `ReputationUnit`.
    pub open spec fn can_rate(&self, account: AccountId, ratings: Seq<Rating>) -> bool {
        self.spec_records().contains_key(account) ==> reputation_fits(
            H::spec_reputation(
                self.spec_records()[account].reputation,
                self.spec_records()[account].credibility,
                ratings,
            ),
        )
    }

    /// An empty store.
    pub fn new(config: Config, handler: H) -> (p: Self)
        ensures
            p.wf(),
            p.spec_records() == Map::<AccountId, Reputable>::empty(),
            p.spec_config() == config,
            p.spec_events() == Seq::<Event>::empty(),
    {
        Pallet { records: HashMap::new(), config, events: Vec::new(), handler }
    }

    /// The parameters the store was made with.
    pub fn config(&self) -> (c: Config)
        ensures
            c == self.spec_config(),
    {
        self.config
    }

    /// The record of `account`, if there is one.
    pub fn reputation_of(&self, account: &AccountId) -> (r: Option<Reputable>)
        ensures
            r == (if self.spec_records().contains_key(*account) {
                Some(self.spec_records()[*account])
            } else {
                None::<Reputable>
            }),
    {
        match self.records.get(account) {
            Some(rec) => Some(*rec),
            None => None,
        }
    }

    /// Hands out the notifications emitted so far, oldest first, and
    /// forgets them.
    pub fn take_events(&mut self) -> (e: Vec<Event>)
        ensures
            e@ == old(self).spec_events(),
            final(self).spec_events() == Seq::<Event>::empty(),
            final(self).spec_records() == old(self).spec_records(),
            final(self).spec_config() == old(self).spec_config(),
    {
        let mut taken: Vec<Event> = Vec::new();
        std::mem::swap(&mut taken, &mut self.events);
        taken
    }

    fn deposit_event(&mut self, event: Event)
        ensures
            final(self).spec_events() == old(self).spec_events().push(event),
            final(self).spec_records() == old(self).spec_records(),
            final(self).spec_config() == old(self).spec_config(),
    {
        self.events.push(event);
    }

    /// Creates a reputation record for a given account id.
    pub fn create_reputation_record(&mut self, account: &AccountId) -> (r: Result<(), Error>)
        requires
            old(self).wf(),
        ensures
            final(self).wf(),
            (r, final(self).spec_records()) == create_step(
                old(self).spec_records(),
                *account,
                old(self).spec_config().default_reputation,
            ),
            final(self).spec_config() == old(self).spec_config(),
            final(self).spec_events() == (if r is Ok {
                old(self).spec_events().push(Event::ReputationRecordCreated { who: *account })
            } else {
                old(self).spec_events()
            }),
    {
        if self.records.contains_key(account) {
            return Err(Error::ReputationAlreadyExists);
        }
        let rep = Reputable {
            account: *account,
            reputation: self.config.default_reputation,
            credibility: MAX_CREDIBILITY / 2,
            aggregate_rating: 0,
            num_of_ratings: 0,
        };
        self.records.insert(*account, rep);
        self.deposit_event(Event::ReputationRecordCreated { who: *account });
        Ok(())
    }

    /// Removes the reputation record of an account.
    pub fn remove_reputation_record(&mut self, account: AccountId) -> (r: Result<(), Error>)
        requires
            old(self).wf(),
        ensures
            final(self).wf(),
            (r, final(self).spec_records()) == remove_step(old(self).spec_records(), account),
            final(self).spec_config() == old(self).spec_config(),
            final(self).spec_events() == (if r is Ok {
                old(self).spec_events().push(Event::ReputationRecordRemoved { who: account })
            } else {
                old(self).spec_events()
            }),
    {
        if !self.records.contains_key(&account) {
            return Err(Error::CannotRemoveNothing);
        }
        self.records.remove(&account);
        self.deposit_event(Event::ReputationRecordRemoved { who: account });
        Ok(())
    }

    /// Rates the account and adjusts its reputation and credibility as the
    /// policy `H` defines; the counters add up with saturation.
    pub fn rate_account(&mut self, account: &AccountId, ratings: &RatingBatch) -> (r: Result<(), Error>)
        requires
            old(self).wf(),
            old(self).can_rate(*account, batch_items(*ratings)),
        ensures
            final(self).wf(),
            (r, final(self).spec_records()) == rate_step::<H>(
                old(self).spec_records(),
                *account,
                batch_items(*ratings),
            ),
            final(self).spec_config() == old(self).spec_config(),
            final(self).spec_events() == (if r is Ok {
                old(self).spec_events().push(Event::AccountRated { who: *account })
            } else {
                old(self).spec_events()
            }),
    {
        let mut record: Reputable = match self.records.get(account) {
            Some(rec) => *rec,
            None => return Err(Error::RecordNotFound),
        };
        let new_credibility = H::calculate_credibility(&record, ratings);
        let new_reputation = H::calculate_reputation(&record, ratings);
        let ratings_total = sum_ratings(ratings);
        let count = batch_len(ratings);

        record.reputation = new_reputation;
        record.num_of_ratings = record.num_of_ratings.saturating_add(count as u64);
        record.aggregate_rating = record.aggregate_rating.saturating_add(ratings_total);
        record.credibility = new_credibility;

        self.records.insert(*account, record);
        self.deposit_event(Event::AccountRated { who: *account });
        Ok(())
    }

    /// Rates the account with raw ratings after checking what
    /// `rate_account` needs: that they fit in one batch, then that a record
    /// exists, then that the new reputation fits.
    pub fn submit_ratings(&mut self, account: &AccountId, ratings: Vec<Rating>) -> (r: Result<(), Error>)
        requires
            old(self).wf(),
        ensures
            final(self).wf(),
            final(self).spec_config() == old(self).spec_config(),
            ratings@.len() > MAXIMUM_RATINGS_PER ==> r == Err::<(), Error>(Error::BatchTooLarge),
            r == Err::<(), Error>(Error::ReputationOverflow) <==> (ratings@.len()
                <= MAXIMUM_RATINGS_PER && !old(self).can_rate(*account, ratings@)),
            ratings@.len() <= MAXIMUM_RATINGS_PER && old(self).can_rate(*account, ratings@) ==> {
                &&& (r, final(self).spec_records()) == rate_step::<H>(
                    old(self).spec_records(),
                    *account,
                    ratings@,
                )
                &&& final(self).spec_events() == (if r is Ok {
                    old(self).spec_events().push(Event::AccountRated { who: *account })
                } else {
                    old(self).spec_events()
                })
            },
            r is Err ==> {
                &&& final(self).spec_records() == old(self).spec_records()
                &&& final(self).spec_events() == old(self).spec_events()
            },
    {
        let batch = match batch_try_from(ratings) {
            Ok(b) => b,
            Err(_) => return Err(Error::BatchTooLarge),
        };
        match self.records.get(account) {
            Some(rec) => {
                if !H::reputation_in_range(rec, &batch) {
                    return Err(Error::ReputationOverflow);
                }
            },
            None => {},
        }
        self.rate_account(account, &batch)
    }
}

} // verus!
