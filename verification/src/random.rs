//! The random choices of the game, made by the `rand` crate.
use vstd::prelude::*;
use crate::logic::{ItemType, TetrominoType};

verus! {

/// The thread-local random number generator of `rand`.
#[verifier::external_type_specification]
#[verifier::external_body]
pub struct ExThreadRng(rand::rngs::ThreadRng);

/// Wraps `rand::thread_rng`: a handle on the thread-local generator. Nothing
/// is stated of its state.
#[verifier::external_body]
pub fn thread_rng() -> (r: rand::rngs::ThreadRng) {
    rand::thread_rng()
}

/// Wraps `SliceRandom::shuffle` on a list of shapes. Its source swaps each
/// position with a random earlier one (Fisher-Yates), so the list keeps the
/// same elements with the same multiplicities; which order comes out is chance
/// and is not stated.
#[verifier::external_body]
pub fn shuffle_shapes(v: &mut Vec<TetrominoType>, rng: &mut rand::rngs::ThreadRng)
    ensures
        final(v)@.len() == old(v)@.len(),
        final(v)@.to_multiset() == old(v)@.to_multiset(),
{
    rand::seq::SliceRandom::shuffle(v.as_mut_slice(), rng)
}

/// Wraps `Rng::gen_range(0..n)` on `i32`: some value in `0..n`, chosen by
/// chance. `gen_range` panics on an empty range, so `n` must be positive.
#[verifier::external_body]
pub fn gen_below(rng: &mut rand::rngs::ThreadRng, n: i32) -> (r: i32)
    requires
        0 < n,
    ensures
        0 <= r < n,
{
    rand::Rng::gen_range(rng, 0..n)
}

/// Wraps `SliceRandom::choose` on a list of items: `None` for an empty list,
/// otherwise one of its elements, chosen by chance.
#[verifier::external_body]
pub fn choose_item<'a>(items: &'a [ItemType], rng: &mut rand::rngs::ThreadRng) -> (r: Option<
    &'a ItemType,
>)
    ensures
        items@.len() == 0 <==> r is None,
        r matches Some(x) ==> items@.contains(*x),
{
    rand::seq::SliceRandom::choose(items, rng)
}

} // verus!
