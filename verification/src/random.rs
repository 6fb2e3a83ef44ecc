//! Random start-up values of registers that the hardware leaves undefined.
use rand::Rng;
use vstd::prelude::*;

verus! {

/// A random byte from `rand::thread_rng()`. Nothing is promised of its value.
#[verifier::external_body]
pub(crate) fn random_u8() -> u8 {
    rand::thread_rng().gen()
}

/// A random 32-bit word from `rand::thread_rng()`. Nothing is promised of its
/// value.
#[verifier::external_body]
pub(crate) fn random_u32() -> u32 {
    rand::thread_rng().gen()
}

/// A random index from `rand::thread_rng().gen_range(0..bound)`: the
/// documentation of `gen_range` promises a value of the half-open range.
#[verifier::external_body]
pub(crate) fn random_below(bound: usize) -> (r: usize)
    requires
        bound > 0,
    ensures
        r < bound,
{
    rand::thread_rng().gen_range(0..bound)
}

} // verus!
