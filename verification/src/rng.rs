//! The engine's only source of randomness.
//!
//! One trusted wrapper draws a uniformly distributed integer from an
//! inclusive range. Nothing can be promised about which value comes back,
//! only that it lies within the bounds; every function that consumes a drawn
//! value is therefore verified for all values the contract admits.

use vstd::prelude::*;
use rand::Rng;

verus! {

/// Upper bound (exclusive) of the fixed-point probability scale: a chance of
/// `p` per mille fires when a draw from `[0, PERMILLE_SCALE)` lands below `p`.
pub const PERMILLE_SCALE: i64 = 1000;

/// Relies on `rand::Rng::gen_range` over the inclusive range `lo..=hi` of
/// `i64`: the sample lies within the bounds. The range must be non-empty,
/// since `gen_range` panics on an empty range.
#[verifier::external_body]
pub(crate) fn sample_inclusive(lo: i64, hi: i64) -> (r: i64)
    requires
        lo <= hi,
    ensures
        lo <= r <= hi,
{
    rand::thread_rng().gen_range(lo..=hi)
}

/// One d20 throw: uniform over 1 through 20.
pub fn roll_d20() -> (r: i64)
    ensures
        1 <= r <= 20,
{
    sample_inclusive(1, 20)
}

/// One chance draw on the per-mille scale: uniform over `[0, PERMILLE_SCALE)`.
pub(crate) fn roll_permille() -> (r: i64)
    ensures
        0 <= r < PERMILLE_SCALE,
{
    sample_inclusive(0, PERMILLE_SCALE - 1)
}

} // verus!
