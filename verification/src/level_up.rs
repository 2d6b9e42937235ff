//! The level-up offer: three skill names drawn at random from a small
//! pool.

use vstd::prelude::*;
use crate::rng::gen_range_fix;

verus! {

/// The name offered for a drawn index; indices outside the pool fall back
/// to a placeholder, which the draw never produces.
pub open spec fn skill_name_spec(index: int) -> Seq<char> {
    if index == 0 {
        "Fireball 0"@
    } else if index == 1 {
        "Ice Shard 1"@
    } else if index == 2 {
        "Lightning Bolt 2"@
    } else if index == 3 {
        "Blablabla 3"@
    } else if index == 4 {
        "Fireball 4"@
    } else {
        "Unknown Skill"@
    }
}

/// `s` is one of the five names of the pool.
pub open spec fn is_skill_name(s: Seq<char>) -> bool {
    exists|i: int| 0 <= i <= 4 && s == skill_name_spec(i)
}

/// The fixed name for a drawn index.
fn skill_name_for(index: i64) -> (r: &'static str)
    ensures
        r@ == skill_name_spec(index as int),
{
    if index == 0 {
        "Fireball 0"
    } else if index == 1 {
        "Ice Shard 1"
    } else if index == 2 {
        "Lightning Bolt 2"
    } else if index == 3 {
        "Blablabla 3"
    } else if index == 4 {
        "Fireball 4"
    } else {
        "Unknown Skill"
    }
}

/// Three names drawn at random from the pool.
pub fn get_random_skills() -> (r: Vec<&'static str>)
    ensures
        r@.len() == 3,
        forall|k: int| 0 <= k < 3 ==> is_skill_name((#[trigger] r@[k])@),
{
    let mut skills: Vec<&'static str> = Vec::new();
    let mut t: usize = 0;
    while t < 3
        invariant
            0 <= t <= 3,
            skills@.len() == t,
            forall|k: int| 0 <= k < t ==> is_skill_name((#[trigger] skills@[k])@),
        decreases 3 - t,
    {
        let index = gen_range_fix(0, 5);
        let name = skill_name_for(index);
        proof {
            assert(0 <= index <= 4 && name@ == skill_name_spec(index as int));
        }
        skills.push(name);
        t = t + 1;
    }
    skills
}

} // verus!
