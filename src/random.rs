use rand::seq::{IteratorRandom, SliceRandom};
use rand::rngs::StdRng;
use vstd::prelude::*;

use crate::card::Card;

verus! {

/// The seedable generator every random choice of a game is drawn from.
#[verifier::external_type_specification]
#[verifier::external_body]
pub struct ExStdRng(StdRng);

/// Relies on rand's `SliceRandom::shuffle`, which only swaps elements:
/// the result is a permutation of the input.
#[verifier::external_body]
pub(crate) fn shuffle_cards(cards: &mut Vec<Card>, rng: &mut StdRng)
    ensures
        final(cards)@.to_multiset() == old(cards)@.to_multiset(),
        final(cards)@.len() == old(cards)@.len(),
{
    cards.shuffle(rng);
}

/// Relies on rand's `IteratorRandom::choose` over the exact-size range `0..n`:
/// it yields an element of the range, and nothing only when the range is empty.
#[verifier::external_body]
pub(crate) fn choose_index(n: usize, rng: &mut StdRng) -> (r: Option<usize>)
    ensures
        r is Some <==> n > 0,
        r matches Some(i) ==> i < n,
{
    (0..n).choose(rng)
}

} // verus!
