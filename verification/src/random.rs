//! The source of random numbers.

use vstd::prelude::*;
use rand::Rng;

verus! {

/// `rand::Rng::gen_range` on the generator that `rand::thread_rng` hands out.
/// Trusted: the number lies from `low` up to, but not including, `high`;
/// which one it is is left open. `gen_range` panics where `low >= high`.
#[verifier::external_body]
pub(crate) fn random_in(low: u16, high: u16) -> (r: u16)
    requires
        low < high,
    ensures
        low <= r < high,
{
    rand::thread_rng().gen_range(low, high)
}

/// A random byte: each of the 256 values can come.
pub(crate) fn random_byte() -> u8 {
    random_in(0, 256) as u8
}

} // verus!
