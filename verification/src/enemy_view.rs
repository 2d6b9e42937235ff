//! The immutable per-frame snapshot of an enemy that skills and targeting
//! read, so that hit resolution never aliases the arrays they inspect.

use vstd::prelude::*;
use crate::vecfix::Vec2Fix;

verus! {

/// Read-only snapshot of one enemy: position, bounding-box size and
/// whether it is live this frame.
#[derive(Clone, Copy, PartialEq, Eq, Structural, Debug)]
pub struct EnemyView {
    pub position: Vec2Fix,
    pub size: Vec2Fix,
    pub alive: bool,
}

/// A snapshot entry whose geometry stays inside the world, so every
/// hit test on it is free of overflow.
pub open spec fn view_wf(v: EnemyView) -> bool {
    &&& 0 <= v.position.x <= crate::constants::WORLD_WIDTH
    &&& 0 <= v.position.y <= crate::constants::WORLD_HEIGHT
    &&& 0 <= v.size.x <= 1_000_000
    &&& 0 <= v.size.y <= 1_000_000
}

} // verus!
