//! The standard skill configurations, fixed at assembly time.

use vstd::prelude::*;
use crate::simple_projectile::SimpleProjectileManager;
use crate::force_field::ForceFieldManager;

verus! {

pub struct SkillsFactory {}

impl SkillsFactory {
    /// The projectile skill as configured in the game: damage 1.0, speed
    /// 300.0, radius 5.0, life 2.0 s, cooldown 0.5 s.
    pub fn create_simple_projectile_manager() -> (m: SimpleProjectileManager)
        ensures
            m.wf(),
            m.damage == 1_000,
            m.speed == 300_000,
            m.radius == 5_000,
            m.life == 2_000,
            m.cooldown == 500,
            m.is_active,
            m.timer == 0,
            m.projectiles@.len() == 0,
            m.next_id == 0,
    {
        SimpleProjectileManager {
            projectiles: Vec::new(),
            damage: 1_000,
            speed: 300_000,
            radius: 5_000,
            life: 2_000,
            cooldown: 500,
            is_active: true,
            timer: 0,
            next_id: 0,
        }
    }

    /// The field skill as configured in the game: damage 0.1 per frame,
    /// radius 128.0.
    pub fn create_force_field_manager() -> (m: ForceFieldManager)
        ensures
            m.wf(),
            m.damage == 100,
            m.radius == 128_000,
            m.is_active,
            !m.initialized,
            m.projectiles@.len() == 0,
            m.next_id == 0,
    {
        ForceFieldManager {
            projectiles: Vec::new(),
            damage: 100,
            radius: 128_000,
            is_active: true,
            initialized: false,
            next_id: 0,
        }
    }
}

} // verus!
