//! The player-controlled entity: position, health, progression. Input
//! reading and drawing live outside the library; this is the state and
//! the rules that change it.

use vstd::prelude::*;
use crate::vecfix::{Vec2Fix, in_range, unit_toward_spec, unit_toward};
use crate::fixed::{abs, tdiv, spec_clamp, mul_div_trunc, clamp_fix, SCALE, FIX_MAX};
use crate::constants::{WORLD_WIDTH, WORLD_HEIGHT};

verus! {

pub const PLAYER_MAX_HEALTH: i64 = 200_000;

pub const PLAYER_SPEED: i64 = 3_000;

pub const PLAYER_SIZE: i64 = 64_000;

/// Experience needed to reach the second level.
pub const FIRST_LEVEL_EXPERIENCE: i64 = 10_000;

pub struct Player {
    pub x: i64,
    pub y: i64,
    pub max_health: i64,
    pub health: i64,
    pub speed: i64,
    pub size: i64,
    pub level: u32,
    pub current_experience: i64,
    pub experience_to_next_level: i64,
}

/// Where the player stands after one movement step in direction `dir`:
/// the direction is normalised, scaled by the player's speed, the vertical
/// axis runs downward on screen, and the result is clamped into the world.
pub open spec fn moved_spec(p: Player, dir: Vec2Fix) -> (int, int) {
    if dir.x == 0 && dir.y == 0 {
        (p.x as int, p.y as int)
    } else {
        let u = unit_toward_spec(Vec2Fix { x: 0, y: 0 }, dir);
        (
            spec_clamp(p.x + tdiv(u.0 * p.speed, SCALE as int), 0, WORLD_WIDTH - p.size),
            spec_clamp(p.y - tdiv(u.1 * p.speed, SCALE as int), 0, WORLD_HEIGHT - p.size),
        )
    }
}

impl Player {
    pub open spec fn wf(self) -> bool {
        &&& 0 < self.size <= 1_000_000
        &&& 0 <= self.x <= WORLD_WIDTH - self.size
        &&& 0 <= self.y <= WORLD_HEIGHT - self.size
        &&& 0 <= self.speed <= FIX_MAX
        &&& 0 <= self.health <= self.max_health
        &&& 0 < self.max_health <= FIX_MAX
        &&& 0 <= self.current_experience <= FIX_MAX
        &&& 1 <= self.experience_to_next_level <= FIX_MAX
    }

    pub fn new(x: i64, y: i64) -> (p: Player)
        requires
            0 <= x <= WORLD_WIDTH - PLAYER_SIZE,
            0 <= y <= WORLD_HEIGHT - PLAYER_SIZE,
        ensures
            p.wf(),
            p.x == x,
            p.y == y,
            p.health == PLAYER_MAX_HEALTH,
            p.max_health == PLAYER_MAX_HEALTH,
            p.speed == PLAYER_SPEED,
            p.size == PLAYER_SIZE,
            p.level == 1,
            p.current_experience == 0,
            p.experience_to_next_level == FIRST_LEVEL_EXPERIENCE,
    {
        Player {
            x,
            y,
            max_health: PLAYER_MAX_HEALTH,
            health: PLAYER_MAX_HEALTH,
            speed: PLAYER_SPEED,
            size: PLAYER_SIZE,
            level: 1,
            current_experience: 0,
            experience_to_next_level: FIRST_LEVEL_EXPERIENCE,
        }
    }

    pub fn position(&self) -> (r: Vec2Fix)
        ensures
            r.x == self.x,
            r.y == self.y,
    {
        Vec2Fix { x: self.x, y: self.y }
    }

    /// One movement step toward `direction`; a zero direction stands still.
    pub fn move_by_direction(&mut self, direction: Vec2Fix)
        requires
            old(self).wf(),
            in_range(direction, FIX_MAX as int),
        ensures
            final(self).wf(),
            (final(self).x as int, final(self).y as int) == moved_spec(*old(self), direction),
            final(self).health == old(self).health,
            final(self).max_health == old(self).max_health,
            final(self).speed == old(self).speed,
            final(self).size == old(self).size,
            final(self).level == old(self).level,
            final(self).current_experience == old(self).current_experience,
            final(self).experience_to_next_level == old(self).experience_to_next_level,
    {
        if direction.x == 0 && direction.y == 0 {
            return ;
        }
        let u = unit_toward(Vec2Fix { x: 0, y: 0 }, direction);
        proof {
            crate::fixed::lemma_abs_mul_bound(u.x as int, self.speed as int, SCALE as int, FIX_MAX as int);
            crate::fixed::lemma_abs_mul_bound(u.y as int, self.speed as int, SCALE as int, FIX_MAX as int);
        }
        let dx = mul_div_trunc(u.x, self.speed, SCALE);
        let dy = mul_div_trunc(u.y, self.speed, SCALE);
        self.x = clamp_fix(self.x + dx, 0, WORLD_WIDTH - self.size);
        self.y = clamp_fix(self.y - dy, 0, WORLD_HEIGHT - self.size);
    }

    /// Damage floors health at zero; a dead player stays at zero.
    pub fn take_damage(&mut self, amount: i64)
        requires
            old(self).wf(),
            0 <= amount <= FIX_MAX,
        ensures
            final(self).wf(),
            final(self).health == if old(self).health - amount < 0 {
                0int
            } else {
                old(self).health - amount
            },
            final(self).x == old(self).x,
            final(self).y == old(self).y,
            final(self).max_health == old(self).max_health,
            final(self).speed == old(self).speed,
            final(self).size == old(self).size,
            final(self).level == old(self).level,
            final(self).current_experience == old(self).current_experience,
            final(self).experience_to_next_level == old(self).experience_to_next_level,
    {
        if self.health - amount < 0 {
            self.health = 0;
        } else {
            self.health = self.health - amount;
        }
    }

    /// Collected experience accumulates, saturating at the scalar bound.
    pub fn add_experience(&mut self, value: i64)
        requires
            old(self).wf(),
            0 <= value <= FIX_MAX,
        ensures
            final(self).wf(),
            final(self).current_experience == if old(self).current_experience + value > FIX_MAX {
                FIX_MAX as int
            } else {
                old(self).current_experience + value
            },
            final(self).x == old(self).x,
            final(self).y == old(self).y,
            final(self).health == old(self).health,
            final(self).max_health == old(self).max_health,
            final(self).speed == old(self).speed,
            final(self).size == old(self).size,
            final(self).level == old(self).level,
            final(self).experience_to_next_level == old(self).experience_to_next_level,
    {
        if self.current_experience + value > FIX_MAX {
            self.current_experience = FIX_MAX;
        } else {
            self.current_experience = self.current_experience + value;
        }
    }

    /// Advance one level: experience resets and the next threshold doubles,
    /// both saturating at the scalar bound.
    pub fn level_up(&mut self)
        requires
            old(self).wf(),
        ensures
            final(self).wf(),
            final(self).level == if old(self).level == u32::MAX {
                old(self).level as int
            } else {
                old(self).level + 1
            },
            final(self).current_experience == 0,
            final(self).experience_to_next_level == if 2 * old(self).experience_to_next_level
                > FIX_MAX {
                FIX_MAX as int
            } else {
                2 * old(self).experience_to_next_level
            },
            final(self).x == old(self).x,
            final(self).y == old(self).y,
            final(self).health == old(self).health,
            final(self).max_health == old(self).max_health,
            final(self).speed == old(self).speed,
            final(self).size == old(self).size,
    {
        if self.level < u32::MAX {
            self.level = self.level + 1;
        }
        self.current_experience = 0;
        if self.experience_to_next_level > FIX_MAX / 2 {
            self.experience_to_next_level = FIX_MAX;
        } else {
            self.experience_to_next_level = 2 * self.experience_to_next_level;
        }
    }
}

} // verus!
