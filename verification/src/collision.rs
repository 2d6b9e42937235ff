//! Enemy-versus-player collision: an axis-aligned box overlap test for
//! every live enemy, emitting one damage event per overlapping enemy,
//! every frame the overlap persists. The resolver never mutates enemy
//! state.

use vstd::prelude::*;
use crate::vecfix::Vec2Fix;
use crate::movement::in_world;
use crate::player::Player;
use crate::event_bus::{EventBus, EventType, EventPayload, sub_count};
use crate::enemies::EnemyData;
use crate::enemy_view::view_wf;

verus! {

/// Damage dealt to the player by each enemy overlapping it, per frame.
pub const ENEMY_CONTACT_DAMAGE: u32 = 1;

/// Strict axis-aligned box overlap: touching edges do not overlap.
pub open spec fn aabb_overlap(
    apos: Vec2Fix,
    asize: Vec2Fix,
    bpos: Vec2Fix,
    bsize: Vec2Fix,
) -> bool {
    &&& apos.x < bpos.x + bsize.x
    &&& apos.x + asize.x > bpos.x
    &&& apos.y < bpos.y + bsize.y
    &&& apos.y + asize.y > bpos.y
}

/// Enemy `i` is live and its box overlaps the player's box.
pub open spec fn hits_player(
    positions: Seq<Vec2Fix>,
    sizes: Seq<Vec2Fix>,
    data: Seq<EnemyData>,
    player: Player,
    i: int,
) -> bool {
    &&& data[i].status is Live
    &&& aabb_overlap(
        positions[i],
        sizes[i],
        Vec2Fix { x: player.x, y: player.y },
        Vec2Fix { x: player.size, y: player.size },
    )
}

/// How many of the first `n` enemies are live and overlapping the player.
pub open spec fn overlap_count(
    positions: Seq<Vec2Fix>,
    sizes: Seq<Vec2Fix>,
    data: Seq<EnemyData>,
    player: Player,
    n: int,
) -> int
    decreases n,
{
    if n <= 0 {
        0
    } else {
        overlap_count(positions, sizes, data, player, n - 1) + if hits_player(
            positions,
            sizes,
            data,
            player,
            n - 1,
        ) {
            1int
        } else {
            0int
        }
    }
}

pub proof fn lemma_overlap_count_nonneg(
    positions: Seq<Vec2Fix>,
    sizes: Seq<Vec2Fix>,
    data: Seq<EnemyData>,
    player: Player,
    n: int,
)
    ensures
        overlap_count(positions, sizes, data, player, n) >= 0,
    decreases n,
{
    if n > 0 {
        lemma_overlap_count_nonneg(positions, sizes, data, player, n - 1);
    }
}

/// The one delivery record contact damage produces.
pub open spec fn damage_record() -> (EventType, EventPayload) {
    (EventType::Damage, EventPayload::Damage { amount: ENEMY_CONTACT_DAMAGE })
}

/// Axis-aligned bounding-box collision testing.
pub struct AABBCollision;

/// The collision test family, selected at assembly time.
pub enum CollisionStrategy {
    Aabb(AABBCollision),
}

impl CollisionStrategy {
    /// Test every live enemy against the player's box and emit one damage
    /// event per overlap; enemy state is read, never written. The queue
    /// grows by one record per overlap and per damage subscription.
    pub fn check_collisions(
        &self,
        positions: &Vec<Vec2Fix>,
        sizes: &Vec<Vec2Fix>,
        data: &Vec<EnemyData>,
        player: &Player,
        bus: &mut EventBus,
    )
        requires
            positions@.len() == sizes@.len() == data@.len(),
            forall|i: int| 0 <= i < positions@.len() ==> in_world(#[trigger] positions@[i]),
            forall|i: int|
                0 <= i < sizes@.len() ==> 0 <= (#[trigger] sizes@[i]).x <= 1_000_000 && 0
                    <= sizes@[i].y <= 1_000_000,
            player.wf(),
        ensures
            final(bus).subscriptions@ == old(bus).subscriptions@,
            final(bus).queue@ == old(bus).queue@ + Seq::new(
                (overlap_count(positions@, sizes@, data@, *player, positions@.len() as int)
                    * sub_count(old(bus).subscriptions@, EventType::Damage)) as nat,
                |k: int| damage_record(),
            ),
    {
        match self {
            CollisionStrategy::Aabb(_) => {
                let ghost q0 = bus.queue@;
                let ghost subs0 = bus.subscriptions@;
                let ghost sc = sub_count(old(bus).subscriptions@, EventType::Damage);
                proof {
                    crate::event_bus::lemma_sub_count_prefix_nonneg(
                        subs0,
                        EventType::Damage,
                        subs0.len() as int,
                    );
                }
                let mut i: usize = 0;
                while i < positions.len()
                    invariant
                        positions@.len() == sizes@.len() == data@.len(),
                        forall|k: int|
                            0 <= k < positions@.len() ==> in_world(#[trigger] positions@[k]),
                        forall|k: int|
                            0 <= k < sizes@.len() ==> 0 <= (#[trigger] sizes@[k]).x <= 1_000_000
                                && 0 <= sizes@[k].y <= 1_000_000,
                        player.wf(),
                        0 <= i <= positions@.len(),
                        sc >= 0,
                        sc == sub_count(subs0, EventType::Damage),
                        bus.subscriptions@ == subs0,
                        overlap_count(positions@, sizes@, data@, *player, i as int) >= 0,
                        bus.queue@ == q0 + Seq::new(
                            (overlap_count(positions@, sizes@, data@, *player, i as int)
                                * sc) as nat,
                            |k: int| damage_record(),
                        ),
                    decreases positions@.len() - i,
                {
                    proof {
                        lemma_overlap_count_nonneg(positions@, sizes@, data@, *player, i as int);
                        lemma_overlap_count_nonneg(positions@, sizes@, data@, *player, i + 1);
                    }
                    let ghost c_before = overlap_count(positions@, sizes@, data@, *player, i as int);
                    let is_live = matches!(data[i].status, crate::enemies::EnemyStatus::Live);
                    let epos = positions[i];
                    let esize = sizes[i];
                    let overlap = epos.x < player.x + player.size && epos.x + esize.x > player.x
                        && epos.y < player.y + player.size && epos.y + esize.y > player.y;
                    if is_live && overlap {
                        bus.emit(
                            &EventType::Damage,
                            &EventPayload::Damage { amount: ENEMY_CONTACT_DAMAGE },
                        );
                        proof {
                            assert((c_before + 1) * sc == c_before * sc + sc) by (nonlinear_arith)
                            {}
                            assert(bus.queue@ =~= q0 + Seq::new(
                                (overlap_count(positions@, sizes@, data@, *player, i + 1)
                                    * sc) as nat,
                                |k: int| damage_record(),
                            ));
                        }
                    } else {
                        proof {
                            assert(bus.queue@ =~= q0 + Seq::new(
                                (overlap_count(positions@, sizes@, data@, *player, i + 1)
                                    * sc) as nat,
                                |k: int| damage_record(),
                            ));
                        }
                    }
                    i = i + 1;
                }
            },
        }
    }
}

} // verus!
