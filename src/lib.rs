//! Per-account reputation and credibility ledger.
//!
//! Each tracked account has one [`Reputable`] record. Records are created,
//! removed and rated through [`Pallet`]; how a batch of ratings changes the
//! reputation and the credibility of a record is decided by a pluggable
//! [`traits::ReputationHandler`] policy.

pub mod batch;
pub mod impls;
pub mod laws;
pub mod pallet;
pub mod traits;

pub use batch::{RatingBatch, MAXIMUM_RATINGS_PER};
pub use pallet::{
    AccountId, Config, CredibilityUnit, Error, Event, Pallet, Rating, ReputationUnit, Reputable,
    MAX_CREDIBILITY,
};
