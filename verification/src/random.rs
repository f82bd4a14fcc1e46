//! The random draws that the pet's behaviour makes, through `rand`.
use rand::rngs::SmallRng;
use rand::seq::SliceRandom;
use rand::Rng;
use vstd::prelude::*;

use crate::state::PetState;

verus! {

/// The small, fast generator of `rand` that the pet draws from.
#[verifier::external_type_specification]
#[verifier::external_body]
pub struct ExSmallRng(SmallRng);

/// `Rng::gen_range` on the half-open range `lo..hi` of `u64`: `rand` draws a
/// value uniformly from the range and panics on an empty one. Claimed here:
/// the value lies in the range. Which value comes out rests on the generator.
#[verifier::external_body]
pub(crate) fn draw_in_range(rng: &mut SmallRng, lo: u64, hi: u64) -> (r: u64)
    requires
        lo < hi,
    ensures
        lo <= r < hi,
{
    rng.gen_range(lo..hi)
}

/// `Rng::gen_ratio(numerator, denominator)`: `true` with probability
/// `numerator / denominator`; `rand` panics when the denominator is 0 or the
/// numerator is larger. Claimed here: a numerator of 0 always gives `false`
/// and a numerator equal to the denominator always gives `true`, as its
/// documentation says. Any other outcome rests on the generator.
#[verifier::external_body]
pub(crate) fn draw_ratio(rng: &mut SmallRng, numerator: u32, denominator: u32) -> (r: bool)
    requires
        0 < denominator,
        numerator <= denominator,
    ensures
        numerator == 0 ==> !r,
        numerator == denominator ==> r,
{
    rng.gen_ratio(numerator, denominator)
}

/// `SliceRandom::choose` on a slice of states, the chosen element copied out:
/// `rand` gives `None` exactly for an empty slice and otherwise an element at
/// an index it draws. Claimed here: exactly that, without saying which element.
#[verifier::external_body]
pub(crate) fn choose_state(rng: &mut SmallRng, pool: &[PetState]) -> (r: Option<PetState>)
    ensures
        r is None <==> pool@.len() == 0,
        r matches Some(s) ==> pool@.contains(s),
{
    pool.choose(rng).copied()
}

} // verus!
