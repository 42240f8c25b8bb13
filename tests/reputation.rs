use pallet_reputation::impls::{reputation_total, ReputationHandler};
use pallet_reputation::pallet::sum_ratings;
use pallet_reputation::traits::{HasAccountId, HasCredibility, HasReputation};
use pallet_reputation::traits::ReputationHandler as Policy;
use pallet_reputation::{
    Config, Error, Event, Pallet, RatingBatch, Reputable, MAXIMUM_RATINGS_PER, MAX_CREDIBILITY,
};

fn batch(ratings: Vec<u8>) -> RatingBatch {
    RatingBatch::try_from(ratings).unwrap()
}

fn new_pallet() -> Pallet<ReputationHandler> {
    Pallet::new(
        Config { default_reputation: 0 },
        ReputationHandler,
    )
}

#[test]
fn test_reputation_can_be_created() {
    let mut p = new_pallet();
    assert_eq!(p.create_reputation_record(&0), Ok(()));
    assert!(p.reputation_of(&0).is_some());
}

#[test]
fn test_reputation_can_be_removed() {
    let mut p = new_pallet();
    assert_eq!(p.create_reputation_record(&0), Ok(()));
    assert!(p.reputation_of(&0).is_some());

    assert_eq!(p.remove_reputation_record(0u64), Ok(()));
    assert!(p.reputation_of(&0).is_none());
}

#[test]
fn duplicate_records_cannot_be_created() {
    let mut p = new_pallet();
    assert_eq!(p.create_reputation_record(&0), Ok(()));
    assert!(p.reputation_of(&0).is_some());

    let before = p.reputation_of(&0);
    assert_eq!(p.create_reputation_record(&0), Err(Error::ReputationAlreadyExists));
    assert_eq!(p.reputation_of(&0), before);
}

#[test]
fn placeholder_rep_function_works() {
    let mut p = new_pallet();
    assert_eq!(p.create_reputation_record(&0), Ok(()));

    assert_eq!(p.rate_account(&0, &batch(vec![1u8, 1u8])), Ok(()));
    let rep_record = p.reputation_of(&0).unwrap();
    assert!(rep_record.reputation == (-4));

    assert_eq!(p.rate_account(&0, &batch(vec![5u8, 5u8])), Ok(()));
    let rep_record = p.reputation_of(&0).unwrap();
    assert!(rep_record.reputation == 0);

    assert_eq!(p.rate_account(&0, &batch(vec![5u8, 5u8])), Ok(()));
    let rep_record = p.reputation_of(&0).unwrap();
    assert!(rep_record.reputation == 4);
}

#[test]
fn fresh_record_has_defaults() {
    let mut p = Pallet::new(
        Config { default_reputation: 17 },
        ReputationHandler,
    );
    assert_eq!(p.create_reputation_record(&9), Ok(()));
    let rec = p.reputation_of(&9).unwrap();
    assert_eq!(
        rec,
        Reputable {
            reputation: 17,
            credibility: MAX_CREDIBILITY / 2,
            aggregate_rating: 0,
            num_of_ratings: 0,
            account: 9,
        }
    );
    assert_eq!(rec.credibility, 500);
}

#[test]
fn duplicate_create_keeps_rated_record() {
    let mut p = new_pallet();
    assert_eq!(p.create_reputation_record(&3), Ok(()));
    assert_eq!(p.rate_account(&3, &batch(vec![5u8, 4u8])), Ok(()));
    let before = p.reputation_of(&3).unwrap();
    assert_eq!(before.reputation, 3);
    assert_eq!(p.create_reputation_record(&3), Err(Error::ReputationAlreadyExists));
    assert_eq!(p.reputation_of(&3), Some(before));
}

#[test]
fn remove_missing_record_fails() {
    let mut p = new_pallet();
    assert_eq!(p.remove_reputation_record(1), Err(Error::CannotRemoveNothing));
    assert!(p.take_events().is_empty());
}

#[test]
fn create_after_remove_is_fresh() {
    let mut p = new_pallet();
    assert_eq!(p.create_reputation_record(&1), Ok(()));
    assert_eq!(p.rate_account(&1, &batch(vec![5u8, 5u8, 5u8])), Ok(()));
    assert_eq!(p.remove_reputation_record(1), Ok(()));
    assert_eq!(p.reputation_of(&1), None);
    assert_eq!(p.create_reputation_record(&1), Ok(()));
    let rec = p.reputation_of(&1).unwrap();
    assert_eq!(rec.reputation, 0);
    assert_eq!(rec.credibility, 500);
    assert_eq!(rec.aggregate_rating, 0);
    assert_eq!(rec.num_of_ratings, 0);
}

#[test]
fn rating_missing_record_fails() {
    let mut p = new_pallet();
    assert_eq!(p.rate_account(&4, &batch(vec![1u8])), Err(Error::RecordNotFound));
    assert_eq!(p.reputation_of(&4), None);
    assert!(p.take_events().is_empty());
    assert_eq!(p.create_reputation_record(&4), Ok(()));
    let rec = p.reputation_of(&4).unwrap();
    assert_eq!(rec.reputation, 0);
    assert_eq!(rec.credibility, 500);
    assert_eq!(rec.aggregate_rating, 0);
    assert_eq!(rec.num_of_ratings, 0);
}

#[test]
fn counters_add_up_over_batches() {
    let mut p = new_pallet();
    assert_eq!(p.create_reputation_record(&2), Ok(()));
    assert_eq!(p.rate_account(&2, &batch(vec![1u8, 2u8, 3u8])), Ok(()));
    assert_eq!(p.rate_account(&2, &batch(vec![])), Ok(()));
    assert_eq!(p.rate_account(&2, &batch(vec![255u8, 4u8])), Ok(()));
    let rec = p.reputation_of(&2).unwrap();
    assert_eq!(rec.num_of_ratings, 5);
    assert_eq!(rec.aggregate_rating, 265);
    assert_eq!(rec.reputation, -3 + 252 + 1);
}

#[test]
fn credibility_stays_in_bounds() {
    let mut p = new_pallet();
    assert_eq!(p.create_reputation_record(&5), Ok(()));
    for ratings in [vec![1u8, 1u8], vec![5u8], vec![0u8, 255u8, 3u8]] {
        assert_eq!(p.rate_account(&5, &batch(ratings)), Ok(()));
        let rec = p.reputation_of(&5).unwrap();
        assert!(rec.credibility <= MAX_CREDIBILITY);
        assert_eq!(rec.credibility, 500);
    }
}

#[test]
fn events_follow_successful_operations() {
    let mut p = new_pallet();
    assert_eq!(p.create_reputation_record(&6), Ok(()));
    assert_eq!(p.create_reputation_record(&6), Err(Error::ReputationAlreadyExists));
    assert_eq!(p.rate_account(&6, &batch(vec![3u8])), Ok(()));
    assert_eq!(p.rate_account(&7, &batch(vec![3u8])), Err(Error::RecordNotFound));
    assert_eq!(p.remove_reputation_record(6), Ok(()));
    assert_eq!(
        p.take_events(),
        vec![
            Event::ReputationRecordCreated { who: 6 },
            Event::AccountRated { who: 6 },
            Event::ReputationRecordRemoved { who: 6 },
        ]
    );
    assert!(p.take_events().is_empty());
}

#[test]
fn submit_rejects_oversized_batch() {
    let mut p = new_pallet();
    assert_eq!(p.create_reputation_record(&8), Ok(()));
    assert_eq!(
        p.submit_ratings(&8, vec![5u8; MAXIMUM_RATINGS_PER as usize + 1]),
        Err(Error::BatchTooLarge)
    );
    assert_eq!(p.reputation_of(&8).unwrap().num_of_ratings, 0);
    assert_eq!(p.submit_ratings(&8, vec![5u8; MAXIMUM_RATINGS_PER as usize]), Ok(()));
    assert_eq!(p.reputation_of(&8).unwrap().reputation, 20);
    assert_eq!(p.reputation_of(&8).unwrap().num_of_ratings, 10);
    assert!(RatingBatch::try_from(vec![0u8; 11]).is_err());
}

#[test]
fn submit_on_missing_record_fails() {
    let mut p = new_pallet();
    assert_eq!(p.submit_ratings(&8, vec![5u8]), Err(Error::RecordNotFound));
}

#[test]
fn submit_rejects_reputation_overflow() {
    let mut p = Pallet::new(
        Config { default_reputation: i32::MAX - 1 },
        ReputationHandler,
    );
    assert_eq!(p.create_reputation_record(&1), Ok(()));
    assert_eq!(p.submit_ratings(&1, vec![4u8]), Ok(()));
    assert_eq!(p.reputation_of(&1).unwrap().reputation, i32::MAX);
    assert_eq!(p.submit_ratings(&1, vec![4u8]), Err(Error::ReputationOverflow));
    assert_eq!(p.reputation_of(&1).unwrap().reputation, i32::MAX);
    assert_eq!(p.submit_ratings(&1, vec![1u8, 5u8]), Ok(()));
}

#[test]
fn reference_policy_values() {
    assert_eq!(reputation_total(0, &batch(vec![])), 0);
    assert_eq!(reputation_total(-7, &batch(vec![3u8, 3u8])), -7);
    assert_eq!(reputation_total(i32::MIN, &batch(vec![0u8])), i32::MIN as i64 - 3);
    assert_eq!(sum_ratings(&batch(vec![255u8, 255u8, 1u8])), 511);

    let rec = Reputable {
        reputation: 10,
        credibility: 700,
        aggregate_rating: 0,
        num_of_ratings: 0,
        account: 42,
    };
    assert_eq!(ReputationHandler::calculate_reputation(&rec, &batch(vec![1u8, 4u8])), 9);
    assert_eq!(ReputationHandler::calculate_credibility(&rec, &batch(vec![1u8, 4u8])), 700);
    assert!(ReputationHandler::reputation_in_range(&rec, &batch(vec![255u8])));
    assert_eq!(rec.get_reputation(), 10);
    assert_eq!(rec.get_credibility(), 700);
    assert_eq!(*rec.get_account_id(), 42);
}

#[test]
fn config_is_kept() {
    let p = new_pallet();
    assert_eq!(p.config(), Config { default_reputation: 0 });
    assert_eq!(MAXIMUM_RATINGS_PER, 10);
}
