//! Rating batches: a `BoundedVec` of frame_support, capped by the type.

use crate::pallet::Rating;
use frame_support::traits::ConstU32;
use frame_support::BoundedVec;
use vstd::prelude::*;

verus! {

/// The most ratings one batch can hold.
pub const MAXIMUM_RATINGS_PER: u32 = 10;

#[verifier::external_type_specification]
#[verifier::external_body]
#[verifier::reject_recursive_types(T)]
#[verifier::reject_recursive_types(S)]
pub struct ExBoundedVec<T, S>(BoundedVec<T, S>);

#[verifier::external_type_specification]
#[verifier::external_body]
pub struct ExConstU32<const N: u32>(ConstU32<N>);

/// One batch of ratings, at most `MAXIMUM_RATINGS_PER` long.
pub type RatingBatch = BoundedVec<Rating, ConstU32<MAXIMUM_RATINGS_PER>>;

/// The ratings a batch holds, in order.
pub uninterp spec fn batch_items(b: RatingBatch) -> Seq<Rating>;

/// Relies on `BoundedVec::len` (through `Deref` to its `Vec`): the number
/// of items, which the type keeps within its bound.
#[verifier::external_body]
pub(crate) fn batch_len(b: &RatingBatch) -> (n: usize)
    ensures
        n == batch_items(*b).len(),
        n <= MAXIMUM_RATINGS_PER,
{
    b.len()
}

/// Relies on indexing a `BoundedVec` (through `Deref` to its `Vec`): the
/// item at position `i`.
#[verifier::external_body]
pub(crate) fn batch_at(b: &RatingBatch, i: usize) -> (r: Rating)
    requires
        i < batch_items(*b).len(),
    ensures
        r == batch_items(*b)[i as int],
{
    b[i]
}

/// Relies on `BoundedVec::try_from(Vec)`: the same items when the vector is
/// within the bound, else the vector handed back.
#[verifier::external_body]
pub(crate) fn batch_try_from(v: Vec<Rating>) -> (r: Result<RatingBatch, Vec<Rating>>)
    ensures
        match r {
            Ok(b) => v@.len() <= MAXIMUM_RATINGS_PER && batch_items(b) == v@,
            Err(back) => v@.len() > MAXIMUM_RATINGS_PER && back@ == v@,
        },
{
    RatingBatch::try_from(v)
}

} // verus!
