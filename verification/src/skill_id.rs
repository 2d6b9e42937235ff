//! Skill-unit identifiers and the hit events the skill pass produces.
//! Ids are allocated by each manager from its own counter, monotonically,
//! and are never reused while their unit lives; they serve purely as keys
//! inside that manager.

use vstd::prelude::*;

verus! {

#[derive(Clone, Copy, PartialEq, Eq, Structural, Debug, Hash)]
pub struct SkillId(pub u64);

impl SkillId {
    pub fn new(raw: u64) -> (r: SkillId)
        ensures
            r.0 == raw,
    {
        SkillId(raw)
    }
}

/// One hit reported by the skill pass: which skill unit, how much damage,
/// which enemy index of the frame's snapshot.
#[derive(Clone, Copy, PartialEq, Eq, Structural, Debug)]
pub struct HitEvent {
    pub skill_id: SkillId,
    pub damage: i64,
    pub enemy_index: usize,
}

} // verus!
