//! Trusted boundary to the outside random source. Hazard parameters, pad
//! geometry and spawn coordinates are drawn through these two wrappers;
//! everything downstream is verified for every value they can hand back.

use vstd::prelude::*;

verus! {

/// Declares bracket_lib's generator type so that verified code can hold one
/// and pass it around; its inside stays opaque.
#[verifier::external_type_specification]
#[verifier::external_body]
pub struct ExRandomNumberGenerator(bracket_lib::random::RandomNumberGenerator);

/// Relies on `RandomNumberGenerator::new`, which builds an xorshift
/// generator seeded from system entropy. Nothing is promised of the values
/// it will produce.
#[verifier::external_body]
pub(crate) fn rng_new() -> bracket_lib::random::RandomNumberGenerator {
    bracket_lib::random::RandomNumberGenerator::new()
}

/// Relies on `RandomNumberGenerator::range`, which returns a value inclusive
/// of `min` and exclusive of `max`, and panics on an empty range; no more is
/// assumed of the distribution.
#[verifier::external_body]
pub(crate) fn rng_range(
    random: &mut bracket_lib::random::RandomNumberGenerator,
    min: i64,
    max: i64,
) -> (r: i64)
    requires
        min < max,
    ensures
        min <= r < max,
{
    random.range(min, max)
}

} // verus!
