//! World-level configuration, in fixed-point units.

use vstd::prelude::*;

verus! {

/// Width of the world, in fixed-point units (4000.0).
pub const WORLD_WIDTH: i64 = 4_000_000;

/// Height of the world, in fixed-point units (4000.0).
pub const WORLD_HEIGHT: i64 = 4_000_000;

} // verus!
