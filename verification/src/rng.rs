//! Trusted boundary to the random number generator of `bracket_lib`, the one
//! outside service the core logic draws on (once per obstacle created).

use bracket_lib::random::RandomNumberGenerator;
use vstd::prelude::*;

verus! {

#[verifier::external_type_specification]
#[verifier::external_body]
pub struct ExRandomNumberGenerator(RandomNumberGenerator);

/// Relies on bracket_lib's RandomNumberGenerator::new: a generator freshly
/// seeded from entropy. Nothing is promised of it.
#[verifier::external_body]
pub(crate) fn new_rng() -> RandomNumberGenerator {
    RandomNumberGenerator::new()
}

/// Relies on bracket_lib's RandomNumberGenerator::range: a draw from
/// [min, max), inclusive of min and exclusive of max. The call panics on an
/// empty range, so one is required to be non-empty here.
#[verifier::external_body]
pub(crate) fn rng_range(rng: &mut RandomNumberGenerator, min: i32, max: i32) -> (r: i32)
    requires
        min < max,
    ensures
        min <= r < max,
{
    rng.range(min, max)
}

} // verus!
