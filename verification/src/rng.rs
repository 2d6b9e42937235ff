//! The one source of randomness the simulation uses, behind a trusted
//! wrapper around macroquad's pseudo-random generator.

use vstd::prelude::*;

verus! {

/// Relies on `macroquad::rand::gen_range::<i64>` (quad-rand): it returns
/// `low + (high - low) * r` with `r` drawn in `[0, 1)`, computed in `f64` and
/// truncated toward zero, so for bounds of moderate magnitude the result
/// never leaves `[low, high]`. For a nonnegative `low` the value before
/// truncation is below `high` by at least `(high - low) * 2^-32`, but the
/// rounding of the final addition can still reach `high` when that margin
/// falls under half a unit in the last place at `high`; below `2^21` the
/// spacing is at most `2^-32`, the margin wins, and `high` never comes back.
#[verifier::external_body]
pub(crate) fn gen_range_fix(low: i64, high: i64) -> (r: i64)
    requires
        low < high,
        -1_000_000_000_000 <= low,
        high <= 1_000_000_000_000,
    ensures
        low <= r <= high,
        0 <= low && high <= 2_097_152 ==> r < high,
{
    macroquad::rand::gen_range(low, high)
}

} // verus!
