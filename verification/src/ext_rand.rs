//! What the library takes from `rand`.
use vstd::prelude::*;
use rand::{Rng, SeedableRng};
use rand::seq::SliceRandom;

verus! {

/// A small, fast pseudo-random generator.
#[verifier::external_type_specification]
#[verifier::external_body]
pub struct ExSmallRng(rand::rngs::SmallRng);

/// `SmallRng::from_entropy()`: a generator seeded by the operating system.
/// Nothing is promised of its state; the call panics where the operating
/// system gives no randomness.
#[verifier::external_body]
pub(crate) fn small_rng_from_entropy() -> (r: rand::rngs::SmallRng) {
    rand::rngs::SmallRng::from_entropy()
}

/// `SmallRng::from_seed(seed)`. The generator's algorithm depends on the
/// platform, so nothing is promised of what it draws.
#[verifier::external_body]
pub(crate) fn small_rng_from_seed(seed: [u8; 32]) -> (r: rand::rngs::SmallRng) {
    rand::rngs::SmallRng::from_seed(seed)
}

/// `rng.gen_range(low..=high)`: a number from `low` to `high`, both included.
#[verifier::external_body]
pub(crate) fn gen_range_inclusive_u32(rng: &mut rand::rngs::SmallRng, low: u32, high: u32) -> (r: u32)
    requires
        low <= high,
    ensures
        low <= r <= high,
{
    rng.gen_range(low..=high)
}

/// `rng.gen_range(low..high)`: a number from `low` included to `high`
/// excluded.
#[verifier::external_body]
pub(crate) fn gen_range_i32(rng: &mut rand::rngs::SmallRng, low: i32, high: i32) -> (r: i32)
    requires
        low < high,
    ensures
        low <= r < high,
{
    rng.gen_range(low..high)
}

/// `items.choose(rng)`: one of the items, or `None` for an empty slice.
#[verifier::external_body]
pub(crate) fn choose_from<'a, T>(rng: &mut rand::rngs::SmallRng, items: &'a [T]) -> (r: Option<&'a T>)
    ensures
        r is None <==> items@.len() == 0,
        r matches Some(x) ==> items@.contains(*x),
{
    items.choose(rng)
}

} // verus!
