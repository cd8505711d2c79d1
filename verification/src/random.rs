//! Draws from the thread's random number generator.
//!
//! Nothing here is proved: each function hands one draw to the `rand` crate
//! and states what holds of whatever comes back.

use rand::distr::Distribution;
use rand::distr::Uniform;
use rand::rngs::ThreadRng;
use rand::seq::IndexedRandom;
use vstd::prelude::*;

verus! {

/// `rand::rngs::ThreadRng`, the generator that `rand::rng()` hands out. Its
/// state is hidden: a draw may return any value its contract admits.
#[verifier::external_type_specification]
#[verifier::external_body]
pub struct ExThreadRng(ThreadRng);

/// One uniformly chosen item of `items`, by `IndexedRandom::choose` of `rand`.
///
/// Claimed of `choose`: on an empty slice it returns `None`; otherwise it
/// returns a reference to the item at an index below the length, which is
/// copied out here.
#[verifier::external_body]
pub(crate) fn choose_byte(items: &[u8], rng: &mut ThreadRng) -> (picked: Option<u8>)
    ensures
        picked is None <==> items@.len() == 0,
        picked matches Some(item) ==> items@.contains(item),
{
    items.choose(rng).copied()
}

/// One value drawn uniformly from `low..high`, by `Uniform::new` and
/// `Distribution::sample` of `rand`.
///
/// Claimed of `Uniform::new`: for `u8` it fails exactly when the range is
/// empty, that is unless `low < high`. Claimed of `sample` on the
/// distribution so made: the value is at least `low` and below `high`.
#[verifier::external_body]
pub(crate) fn sample_uniform(low: u8, high: u8, rng: &mut ThreadRng) -> (drawn: Option<u8>)
    ensures
        drawn is Some <==> low < high,
        drawn matches Some(value) ==> low <= value < high,
{
    let made: Result<Uniform<u8>, rand::distr::uniform::Error> = Uniform::new(low, high);
    match made {
        Ok(dist) => Some(dist.sample(rng)),
        Err(_) => None,
    }
}

} // verus!
