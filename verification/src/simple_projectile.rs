//! The projectile skill: on cooldown, spawn a projectile at the nearest
//! live enemy; each projectile flies straight, hits at most one enemy
//! (circle against box), then expires; expired units are removed once per
//! update pass.

use vstd::prelude::*;
use crate::vecfix::{Vec2Fix, in_range, dist2, norm2, unit_toward_spec, unit_toward, norm2_exec};
use crate::fixed::{abs, tdiv, spec_clamp, clamp_fix, div_trunc, mul_div_trunc, SCALE, FIX_MAX};
use crate::enemy_view::{EnemyView, view_wf};
use crate::movement::views_wf;
use crate::skill_id::{SkillId, HitEvent};
use crate::player::Player;

verus! {

#[derive(Clone, Copy, PartialEq, Eq, Structural, Debug)]
pub struct SimpleProjectile {
    pub id: SkillId,
    pub position: Vec2Fix,
    pub direction: Vec2Fix,
    pub speed: i64,
    pub radius: i64,
    pub life: i64,
    pub active: bool,
}

pub open spec fn proj_wf(p: SimpleProjectile) -> bool {
    &&& in_range(p.position, FIX_MAX as int)
    &&& in_range(p.direction, SCALE as int)
    &&& 0 <= p.speed <= FIX_MAX
    &&& 0 <= p.radius <= FIX_MAX
    &&& -FIX_MAX <= p.life <= FIX_MAX
}

/// The point of an enemy's box closest to `c`.
pub open spec fn closest_point(c: Vec2Fix, v: EnemyView) -> (int, int) {
    (
        spec_clamp(c.x as int, v.position.x as int, v.position.x + v.size.x),
        spec_clamp(c.y as int, v.position.y as int, v.position.y + v.size.y),
    )
}

/// Circle-versus-box: the projectile at `c` with radius `r` hits the
/// enemy when the clamped point lies strictly closer than the radius.
pub open spec fn proj_hits(c: Vec2Fix, r: int, v: EnemyView) -> bool {
    let p = closest_point(c, v);
    norm2(p.0 - c.x, p.1 - c.y) < r * r
}

/// The first live enemy from index `j` on that the projectile hits.
pub open spec fn first_hit_from(views: Seq<EnemyView>, c: Vec2Fix, r: int, j: int) -> Option<int>
    decreases views.len() - j,
{
    if j < 0 || j >= views.len() {
        None
    } else if views[j].alive && proj_hits(c, r, views[j]) {
        Some(j)
    } else {
        first_hit_from(views, c, r, j + 1)
    }
}

/// The first live enemy the projectile hits this step, if any.
pub open spec fn first_hit(views: Seq<EnemyView>, c: Vec2Fix, r: int) -> Option<int> {
    first_hit_from(views, c, r, 0)
}

/// The projectile's new position after integrating `direction * speed`
/// over `dt`, kept within the scalar bounds.
pub open spec fn proj_moved(p: SimpleProjectile, dt: int) -> Vec2Fix {
    Vec2Fix {
        x: spec_clamp(
            p.position.x + tdiv(tdiv(p.direction.x * p.speed, SCALE as int) * dt, SCALE as int),
            -FIX_MAX as int,
            FIX_MAX as int,
        ) as i64,
        y: spec_clamp(
            p.position.y + tdiv(tdiv(p.direction.y * p.speed, SCALE as int) * dt, SCALE as int),
            -FIX_MAX as int,
            FIX_MAX as int,
        ) as i64,
    }
}

/// One projectile step: an inactive unit does nothing; an active one
/// moves, reports its first hit (and only that one) and deactivates on a
/// hit or when its remaining life runs out.
pub open spec fn proj_step_spec(p: SimpleProjectile, views: Seq<EnemyView>, dt: int) -> (
    SimpleProjectile,
    Option<int>,
) {
    if !p.active {
        (p, None::<int>)
    } else {
        let np = proj_moved(p, dt);
        let hit = first_hit(views, np, p.radius as int);
        let life2 = if p.life - dt < -FIX_MAX {
            -FIX_MAX as int
        } else {
            p.life - dt
        };
        let active2 = hit is None && life2 > 0;
        (
            SimpleProjectile {
                position: np,
                life: life2 as i64,
                active: active2,
                ..p
            },
            hit,
        )
    }
}

/// A unit is expired when inactive or out of life; expired units leave
/// the manager at the end of the pass.
pub open spec fn proj_expired(p: SimpleProjectile) -> bool {
    !p.active || p.life <= 0
}

impl SimpleProjectile {
    /// One step of this projectile; returns the index of the single enemy
    /// hit this step, if any.
    pub fn update(&mut self, delta: i64, views: &Vec<EnemyView>) -> (hit: Option<usize>)
        requires
            proj_wf(*old(self)),
            0 <= delta <= FIX_MAX,
            views_wf(views@),
        ensures
            proj_wf(*final(self)),
            *final(self) == proj_step_spec(*old(self), views@, delta as int).0,
            ({
                let sh = proj_step_spec(*old(self), views@, delta as int).1;
                &&& (hit is None <==> sh is None)
                &&& (hit matches Some(h) ==> sh == Some(h as int))
            }),
    {
        if !self.active {
            return None;
        }
        proof {
            crate::fixed::lemma_abs_mul_bound(
                self.direction.x as int,
                self.speed as int,
                SCALE as int,
                FIX_MAX as int,
            );
            crate::fixed::lemma_abs_mul_bound(
                self.direction.y as int,
                self.speed as int,
                SCALE as int,
                FIX_MAX as int,
            );
            crate::fixed::lemma_tdiv_scaled_bound(
                self.direction.x as int * self.speed as int,
                SCALE as int,
                FIX_MAX as int,
            );
            crate::fixed::lemma_tdiv_scaled_bound(
                self.direction.y as int * self.speed as int,
                SCALE as int,
                FIX_MAX as int,
            );
        }
        let vx = mul_div_trunc(self.direction.x, self.speed, SCALE);
        let vy = mul_div_trunc(self.direction.y, self.speed, SCALE);
        proof {
            crate::fixed::lemma_abs_mul_bound(vx as int, delta as int, FIX_MAX as int, FIX_MAX as int);
            crate::fixed::lemma_abs_mul_bound(vy as int, delta as int, FIX_MAX as int, FIX_MAX as int);
        }
        let dx = mul_div_trunc(vx, delta, SCALE);
        let dy = mul_div_trunc(vy, delta, SCALE);
        let np = Vec2Fix {
            x: clamp_fix(self.position.x + dx, -FIX_MAX, FIX_MAX),
            y: clamp_fix(self.position.y + dy, -FIX_MAX, FIX_MAX),
        };
        self.position = np;
        let ghost r = self.radius as int;
        let ghost p0 = *self;
        let mut hit: Option<usize> = None;
        let mut j: usize = 0;
        while j < views.len() && hit.is_none()
            invariant
                views_wf(views@),
                proj_wf(*self),
                0 <= j <= views@.len(),
                self.radius as int == r,
                self.position == np,
                self.id == p0.id,
                self.direction == p0.direction,
                self.speed == p0.speed,
                self.life == p0.life,
                self.active == (hit is None),
                hit is None ==> first_hit(views@, np, r) == first_hit_from(views@, np, r, j as int),
                hit matches Some(h) ==> first_hit(views@, np, r) == Some(h as int) && h
                    < views@.len(),
            decreases views@.len() - j,
        {
            let v = views[j];
            if v.alive {
                let cx = clamp_fix(np.x, v.position.x, v.position.x + v.size.x);
                let cy = clamp_fix(np.y, v.position.y, v.position.y + v.size.y);
                let d2 = norm2_exec(cx - np.x, cy - np.y);
                proof {
                    crate::fixed::lemma_abs_mul_bound(r, r, FIX_MAX as int, FIX_MAX as int);
                }
                if d2 < self.radius * self.radius {
                    hit = Some(j);
                    self.active = false;
                }
            }
            j = j + 1;
        }
        let life2 = if self.life - delta < -FIX_MAX {
            -FIX_MAX
        } else {
            self.life - delta
        };
        self.life = life2;
        if self.life <= 0 {
            self.active = false;
        }
        hit
    }
}

/// A hit is only ever reported against a live enemy.
pub proof fn lemma_first_hit_alive(views: Seq<EnemyView>, c: Vec2Fix, r: int, j: int)
    requires
        0 <= j,
    ensures
        first_hit_from(views, c, r, j) matches Some(h) ==> j <= h < views.len() && views[h].alive
            && proj_hits(c, r, views[h]),
    decreases views.len() - j,
{
    if j < views.len() && !(views[j].alive && proj_hits(c, r, views[j])) {
        lemma_first_hit_alive(views, c, r, j + 1);
    }
}

/// Projectile single-hit: one step reports at most one hit; a step that
/// hits leaves the unit expired, and an expired or inactive unit reports
/// nothing and never changes again.
pub proof fn lemma_projectile_single_hit(
    p: SimpleProjectile,
    views: Seq<EnemyView>,
    dt: int,
    views2: Seq<EnemyView>,
    dt2: int,
)
    ensures
        proj_step_spec(p, views, dt).1 is Some ==> {
            let p1 = proj_step_spec(p, views, dt).0;
            &&& !p1.active
            &&& proj_expired(p1)
            &&& proj_step_spec(p1, views2, dt2).1 is None
            &&& proj_step_spec(p1, views2, dt2).0 == p1
        },
        !p.active ==> proj_step_spec(p, views, dt).1 is None && proj_step_spec(p, views, dt).0
            == p,
{
}

/// Nearest-enemy targeting over the first `n` snapshot entries: the live
/// enemy of least squared distance to `from`; the earliest wins ties.
pub open spec fn nearest_upto(views: Seq<EnemyView>, from: Vec2Fix, n: int) -> Option<int>
    decreases n,
{
    if n <= 0 {
        None
    } else {
        let prev = nearest_upto(views, from, n - 1);
        let j = n - 1;
        if !views[j].alive {
            prev
        } else {
            match prev {
                None => Some(j),
                Some(b) => if dist2(from, views[j].position) < dist2(from, views[b].position) {
                    Some(j)
                } else {
                    prev
                },
            }
        }
    }
}

/// The nearest live enemy in the whole snapshot.
pub open spec fn nearest_alive(views: Seq<EnemyView>, from: Vec2Fix) -> Option<int> {
    nearest_upto(views, from, views.len() as int)
}

/// Targeting correctness: a target exists exactly when some enemy is
/// live, it is live itself, no live enemy is strictly closer, and among
/// the closest it is the first.
pub proof fn lemma_nearest_correct(views: Seq<EnemyView>, from: Vec2Fix, n: int)
    requires
        0 <= n <= views.len(),
    ensures
        nearest_upto(views, from, n) is None <==> (forall|j: int|
            0 <= j < n ==> !(#[trigger] views[j]).alive),
        nearest_upto(views, from, n) matches Some(b) ==> {
            &&& 0 <= b < n
            &&& views[b].alive
            &&& forall|j: int|
                0 <= j < n && (#[trigger] views[j]).alive ==> dist2(from, views[b].position)
                    <= dist2(from, views[j].position)
            &&& forall|j: int|
                0 <= j < b && (#[trigger] views[j]).alive ==> dist2(from, views[j].position)
                    > dist2(from, views[b].position)
        },
    decreases n,
{
    if n > 0 {
        lemma_nearest_correct(views, from, n - 1);
    }
}

/// The nearest live enemy to `from`, or nothing when none is live.
pub fn nearest_live_index(views: &Vec<EnemyView>, from: Vec2Fix) -> (r: Option<usize>)
    requires
        views_wf(views@),
        in_range(from, FIX_MAX as int),
    ensures
        r is None <==> nearest_alive(views@, from) is None,
        r matches Some(b) ==> nearest_alive(views@, from) == Some(b as int),
{
    let mut best: Option<usize> = None;
    let mut j: usize = 0;
    while j < views.len()
        invariant
            views_wf(views@),
            in_range(from, FIX_MAX as int),
            0 <= j <= views@.len(),
            best is None <==> nearest_upto(views@, from, j as int) is None,
            best matches Some(b) ==> b < views@.len() && nearest_upto(views@, from, j as int)
                == Some(b as int),
        decreases views@.len() - j,
    {
        let v = views[j];
        if v.alive {
            match best {
                None => {
                    best = Some(j);
                },
                Some(b) => {
                    let db = crate::vecfix::dist2_exec(from, views[b].position);
                    let dj = crate::vecfix::dist2_exec(from, v.position);
                    if dj < db {
                        best = Some(j);
                    }
                },
            }
        }
        j = j + 1;
    }
    best
}

/// Owns the projectiles, keyed by their unique ids, with the spawn
/// configuration and the cooldown timer.
pub struct SimpleProjectileManager {
    pub projectiles: Vec<SimpleProjectile>,
    pub damage: i64,
    pub cooldown: i64,
    pub timer: i64,
    pub speed: i64,
    pub radius: i64,
    pub life: i64,
    pub is_active: bool,
    pub next_id: u64,
}

/// No two units share an id.
pub open spec fn ids_distinct(projs: Seq<SimpleProjectile>) -> bool {
    forall|k1: int, k2: int|
        0 <= k1 < k2 < projs.len() ==> (#[trigger] projs[k1].id) != (#[trigger] projs[k2].id)
}

/// The projectile the manager spawns at `player` aimed at `target`.
pub open spec fn spawned_projectile(
    m: SimpleProjectileManager,
    player: Player,
    target: EnemyView,
) -> SimpleProjectile {
    let center = Vec2Fix {
        x: (player.x + tdiv(player.size as int, 2)) as i64,
        y: (player.y + tdiv(player.size as int, 2)) as i64,
    };
    let u = unit_toward_spec(Vec2Fix { x: player.x, y: player.y }, target.position);
    SimpleProjectile {
        id: SkillId(m.next_id),
        position: center,
        direction: Vec2Fix { x: u.0 as i64, y: u.1 as i64 },
        speed: m.speed,
        radius: m.radius,
        life: m.life,
        active: true,
    }
}

/// How one spawn opportunity relates the manager before and after:
/// nothing happens while it is disabled or cooling down, or when no enemy
/// is live; otherwise one projectile aimed at the nearest live enemy
/// joins the map and the cooldown restarts. A failed spawn does not
/// restart the cooldown.
pub open spec fn proj_spawned_rel(
    m: SimpleProjectileManager,
    m2: SimpleProjectileManager,
    player: Player,
    views: Seq<EnemyView>,
) -> bool {
    &&& m2.damage == m.damage
    &&& m2.cooldown == m.cooldown
    &&& m2.speed == m.speed
    &&& m2.radius == m.radius
    &&& m2.life == m.life
    &&& m2.is_active == m.is_active
    &&& if !m.is_active || m.timer > 0 || m.next_id >= 0xffff_ffff_ffff_fffe {
        m2.projectiles@ == m.projectiles@ && m2.timer == m.timer && m2.next_id == m.next_id
    } else {
        match nearest_alive(views, Vec2Fix { x: player.x, y: player.y }) {
            None => m2.projectiles@ == m.projectiles@ && m2.timer == m.timer && m2.next_id
                == m.next_id,
            Some(t) => {
                &&& m2.projectiles@ == m.projectiles@.push(spawned_projectile(m, player, views[t]))
                &&& m2.timer == m.cooldown
                &&& m2.next_id == m.next_id + 1
            },
        }
    }
}

/// The units left after one pass steps the first `n` of them and drops
/// the expired ones.
pub open spec fn stepped_projs(
    projs: Seq<SimpleProjectile>,
    views: Seq<EnemyView>,
    dt: int,
    n: int,
) -> Seq<SimpleProjectile>
    decreases n,
{
    if n <= 0 {
        Seq::empty()
    } else {
        let rest = stepped_projs(projs, views, dt, n - 1);
        let sp = proj_step_spec(projs[n - 1], views, dt).0;
        if proj_expired(sp) {
            rest
        } else {
            rest.push(sp)
        }
    }
}

/// The hit events the first `n` units report in one pass, in unit order:
/// at most one per unit, carrying the manager's damage.
pub open spec fn proj_events(
    projs: Seq<SimpleProjectile>,
    views: Seq<EnemyView>,
    dt: int,
    damage: i64,
    n: int,
) -> Seq<HitEvent>
    decreases n,
{
    if n <= 0 {
        Seq::empty()
    } else {
        let rest = proj_events(projs, views, dt, damage, n - 1);
        match proj_step_spec(projs[n - 1], views, dt).1 {
            None => rest,
            Some(e) => rest.push(
                HitEvent { skill_id: projs[n - 1].id, damage, enemy_index: e as usize },
            ),
        }
    }
}

/// How one update pass relates the manager before and after, and the
/// events it reports: the cooldown ticks down (floored at zero), every
/// unit steps once, expired units leave.
pub open spec fn proj_updated_rel(
    m: SimpleProjectileManager,
    m2: SimpleProjectileManager,
    views: Seq<EnemyView>,
    dt: int,
    events: Seq<HitEvent>,
) -> bool {
    &&& m2.damage == m.damage
    &&& m2.cooldown == m.cooldown
    &&& m2.speed == m.speed
    &&& m2.radius == m.radius
    &&& m2.life == m.life
    &&& m2.is_active == m.is_active
    &&& m2.next_id == m.next_id
    &&& m2.timer == if m.timer - dt > 0 {
        m.timer - dt
    } else {
        0int
    }
    &&& m2.projectiles@ == stepped_projs(m.projectiles@, views, dt, m.projectiles@.len() as int)
    &&& events == proj_events(m.projectiles@, views, dt, m.damage, m.projectiles@.len() as int)
}

/// Stepping preserves unit soundness, the id bound, and id distinctness:
/// the surviving units' ids all come from the stepped prefix.
pub proof fn lemma_stepped_projs_wf(
    projs: Seq<SimpleProjectile>,
    views: Seq<EnemyView>,
    dt: int,
    n: int,
    bound: int,
)
    requires
        0 <= n <= projs.len(),
        0 <= dt <= FIX_MAX,
        forall|k: int| 0 <= k < projs.len() ==> proj_wf(#[trigger] projs[k]),
        forall|k: int| 0 <= k < projs.len() ==> (#[trigger] projs[k]).id.0 < bound,
        ids_distinct(projs),
    ensures
        forall|m: int|
            0 <= m < stepped_projs(projs, views, dt, n).len() ==> proj_wf(
                #[trigger] stepped_projs(projs, views, dt, n)[m],
            ),
        forall|m: int|
            0 <= m < stepped_projs(projs, views, dt, n).len() ==> (#[trigger] stepped_projs(
                projs,
                views,
                dt,
                n,
            )[m]).id.0 < bound,
        forall|m: int|
            0 <= m < stepped_projs(projs, views, dt, n).len() ==> exists|k: int|
                0 <= k < n && (#[trigger] stepped_projs(projs, views, dt, n)[m]).id == projs[k].id,
        ids_distinct(stepped_projs(projs, views, dt, n)),
    decreases n,
{
    if n > 0 {
        lemma_stepped_projs_wf(projs, views, dt, n - 1, bound);
        let rest = stepped_projs(projs, views, dt, n - 1);
        let sp = proj_step_spec(projs[n - 1], views, dt).0;
        let cur = stepped_projs(projs, views, dt, n);
        assert(sp.id == projs[n - 1].id);
        assert(proj_wf(sp));
        if !proj_expired(sp) {
            assert(cur == rest.push(sp));
            assert forall|m: int| 0 <= m < cur.len() implies exists|k: int|
                0 <= k < n && (#[trigger] cur[m]).id == projs[k].id by {
                if m < rest.len() {
                    assert(exists|k: int|
                        0 <= k < n - 1 && (#[trigger] rest[m]).id == projs[k].id);
                    let k0 = choose|k: int| 0 <= k < n - 1 && (#[trigger] rest[m]).id
                        == projs[k].id;
                    assert(0 <= k0 < n && cur[m].id == projs[k0].id);
                } else {
                    assert(cur[m] == sp);
                    assert(cur[m].id == projs[n - 1].id);
                }
            }
            assert forall|k1: int, k2: int| 0 <= k1 < k2 < cur.len() implies (
            #[trigger] cur[k1].id) != (#[trigger] cur[k2].id) by {
                if k2 == cur.len() - 1 {
                    let k0 = choose|k: int| 0 <= k < n - 1 && (#[trigger] rest[k1]).id
                        == projs[k].id;
                    assert(projs[k0].id != projs[n - 1].id);
                }
            }
        }
    }
}

impl SimpleProjectileManager {
    pub open spec fn wf(self) -> bool {
        &&& 0 <= self.damage <= FIX_MAX
        &&& 0 <= self.cooldown <= FIX_MAX
        &&& 0 <= self.timer <= FIX_MAX
        &&& 0 <= self.speed <= FIX_MAX
        &&& 0 <= self.radius <= FIX_MAX
        &&& 0 <= self.life <= FIX_MAX
        &&& self.next_id < 0xffff_ffff_ffff_ffff
        &&& forall|k: int|
            0 <= k < self.projectiles@.len() ==> proj_wf(#[trigger] self.projectiles@[k])
        &&& forall|k: int|
            0 <= k < self.projectiles@.len() ==> (#[trigger] self.projectiles@[k]).id.0
                < self.next_id
        &&& ids_distinct(self.projectiles@)
    }

    /// One spawn opportunity, as [`proj_spawned_rel`] describes.
    pub fn spawn(&mut self, player: &Player, enemy_views: &Vec<EnemyView>)
        requires
            old(self).wf(),
            player.wf(),
            views_wf(enemy_views@),
        ensures
            final(self).wf(),
            proj_spawned_rel(*old(self), *final(self), *player, enemy_views@),
    {
        if !self.is_active {
            return ;
        }
        if self.timer > 0 {
            return ;
        }
        if self.next_id >= 0xffff_ffff_ffff_fffe {
            return ;
        }
        match nearest_live_index(enemy_views, player.position()) {
            None => {},
            Some(t) => {
                proof {
                    crate::simple_projectile::lemma_nearest_correct(
                        enemy_views@,
                        Vec2Fix { x: player.x, y: player.y },
                        enemy_views@.len() as int,
                    );
                }
                let half = div_trunc(player.size, 2);
                let center = Vec2Fix { x: player.x + half, y: player.y + half };
                let dir = unit_toward(player.position(), enemy_views[t].position);
                let p = SimpleProjectile {
                    id: SkillId(self.next_id),
                    position: center,
                    direction: dir,
                    speed: self.speed,
                    radius: self.radius,
                    life: self.life,
                    active: true,
                };
                self.projectiles.push(p);
                self.timer = self.cooldown;
                self.next_id = self.next_id + 1;
            },
        }
    }

    /// One update pass, as [`proj_updated_rel`] describes: every unit
    /// steps once against the snapshot, the reported hits come back in
    /// unit order, and expired units are removed.
    pub fn update(&mut self, delta: i64, enemy_views: &Vec<EnemyView>) -> (events: Vec<HitEvent>)
        requires
            old(self).wf(),
            0 <= delta <= FIX_MAX,
            views_wf(enemy_views@),
        ensures
            final(self).wf(),
            proj_updated_rel(*old(self), *final(self), enemy_views@, delta as int, events@),
    {
        let ghost m0 = *old(self);
        self.timer = if self.timer - delta > 0 {
            self.timer - delta
        } else {
            0
        };
        let mut new_projs: Vec<SimpleProjectile> = Vec::new();
        let mut events: Vec<HitEvent> = Vec::new();
        let mut k: usize = 0;
        while k < self.projectiles.len()
            invariant
                self.wf(),
                views_wf(enemy_views@),
                0 <= delta <= FIX_MAX,
                self.projectiles@ == m0.projectiles@,
                self.damage == m0.damage,
                0 <= k <= self.projectiles@.len(),
                new_projs@ == stepped_projs(m0.projectiles@, enemy_views@, delta as int, k as int),
                events@ == proj_events(
                    m0.projectiles@,
                    enemy_views@,
                    delta as int,
                    m0.damage,
                    k as int,
                ),
            decreases self.projectiles@.len() - k,
        {
            let mut p = self.projectiles[k];
            let hit = p.update(delta, enemy_views);
            match hit {
                Some(e) => {
                    events.push(HitEvent { skill_id: p.id, damage: self.damage, enemy_index: e });
                },
                None => {},
            }
            if !(!p.active || p.life <= 0) {
                new_projs.push(p);
            }
            k = k + 1;
        }
        proof {
            lemma_stepped_projs_wf(
                m0.projectiles@,
                enemy_views@,
                delta as int,
                m0.projectiles@.len() as int,
                m0.next_id as int,
            );
        }
        self.projectiles = new_projs;
        events
    }
}

} // verus!
