use swarm_core::collision::{AABBCollision, CollisionStrategy};
use swarm_core::enemies::{EnemyData, EnemyStatus, EnemySystem, PositionOverlap};
use swarm_core::enemy_view::EnemyView;
use swarm_core::event_bus::{EventBus, EventPayload, EventType};
use swarm_core::experience::ExperienceSystem;
use swarm_core::fixed::{clamp_fix, cos_fix, div_trunc, isqrt, mul_div_trunc, sin_fix};
use swarm_core::force_field::{ForceFieldManager, ForceFieldUnit};
use swarm_core::game::Game;
use swarm_core::movement::{BoidsMovement, DirectMovement, MovementStrategy};
use swarm_core::player::Player;
use swarm_core::scheduler::ChunkScheduler;
use swarm_core::simple_projectile::{
    nearest_live_index, SimpleProjectile, SimpleProjectileManager,
};
use swarm_core::skill_id::SkillId;
use swarm_core::skills_factory::SkillsFactory;
use swarm_core::state::GameState;
use swarm_core::vecfix::{dist2_exec, unit_exec, Vec2Fix};

fn view(x: i64, y: i64, alive: bool) -> EnemyView {
    EnemyView {
        position: Vec2Fix { x, y },
        size: Vec2Fix {
            x: 64_000,
            y: 64_000,
        },
        alive,
    }
}

#[test]
fn fixed_point_arithmetic_exact_values() {
    assert_eq!(isqrt(0), 0);
    assert_eq!(isqrt(16), 4);
    assert_eq!(isqrt(17), 4);
    assert_eq!(isqrt(24), 4);
    assert_eq!(isqrt(25), 5);
    assert_eq!(div_trunc(-7, 2), -3);
    assert_eq!(div_trunc(7, 2), 3);
    assert_eq!(mul_div_trunc(300, -400, 1000), -120);
    assert_eq!(clamp_fix(5, 0, 3), 3);
    assert_eq!(clamp_fix(-5, 0, 3), 0);
}

#[test]
fn trigonometry_peaks_and_zeroes() {
    assert_eq!(sin_fix(0), 0);
    // a quarter turn reaches exactly one
    assert_eq!(sin_fix(1_571), 1_000);
    assert_eq!(cos_fix(0), 1_000);
    // the second half turn is the mirrored negative of the first
    assert_eq!(sin_fix(1_571 + 3_142), -sin_fix(1_571));
}

#[test]
fn unit_direction_is_a_scaled_three_four_five() {
    let u = unit_exec(3_000, 4_000);
    assert_eq!(u.x, 600);
    assert_eq!(u.y, 800);
    let z = unit_exec(0, 0);
    assert_eq!(z.x, 0);
    assert_eq!(z.y, 0);
}

#[test]
fn scheduler_clamps_zero_chunk_count() {
    let s = ChunkScheduler::new(0);
    assert_eq!(s.max_chunks, 1);
    assert_eq!(s.chunk_index, 0);
}

#[test]
fn scheduler_cycles_fairly_over_population() {
    // ten enemies in four chunks: [0,2) [2,4) [4,6) and the final [6,10)
    let mut s = ChunkScheduler::new(4);
    let mut seen = [0usize; 10];
    for _frame in 0..4 {
        s.advance();
        let (start, end) = s.chunk_bounds(10);
        for i in start..end {
            seen[i] += 1;
        }
    }
    // over exactly max_chunks consecutive frames every index is updated once
    for i in 0..10 {
        assert_eq!(seen[i], 1, "index {} updated {} times", i, seen[i]);
    }
    // the same chunk comes back after exactly max_chunks frames
    let idx_before = s.chunk_index;
    for _frame in 0..4 {
        s.advance();
    }
    assert_eq!(s.chunk_index, idx_before);
}

fn small_system(count: usize) -> EnemySystem {
    EnemySystem::new(
        count,
        MovementStrategy::Direct(DirectMovement { speed: 3_000 }),
        CollisionStrategy::Aabb(AABBCollision {}),
        4,
    )
}

#[test]
fn create_places_enemies_inside_world_bounds() {
    macroquad::rand::srand(11);
    let s = small_system(40);
    assert_eq!(s.positions.len(), 40);
    for p in s.positions.iter() {
        assert!(0 <= p.x && p.x <= 4_000_000);
        assert!(0 <= p.y && p.y <= 4_000_000);
    }
    for d in s.data.iter() {
        assert!(matches!(d.status, EnemyStatus::Pending));
        assert_eq!(d.health, 5_000);
        assert_eq!(d.max_health, 5_000);
    }
}

#[test]
fn spawn_all_turns_pending_live_but_never_raises_the_dead() {
    macroquad::rand::srand(12);
    let mut s = small_system(3);
    s.spawn_all();
    assert!(matches!(s.data[0].status, EnemyStatus::Live));
    // kill one, then spawn again: the dead row must stay dead
    let orb = s.take_damage(1, 5_000);
    assert!(orb.is_some());
    s.spawn_all();
    assert!(matches!(s.data[1].status, EnemyStatus::Dead));
    assert!(matches!(s.data[2].status, EnemyStatus::Live));
}

#[test]
fn death_drops_exactly_one_pickup_and_dead_rows_are_inert() {
    macroquad::rand::srand(13);
    let mut s = small_system(2);
    s.spawn_all();
    let px = s.positions[0].x;
    let py = s.positions[0].y;
    // below-lethal damage: no pickup, health drops, still live
    let none = s.take_damage(0, 4_999);
    assert!(none.is_none());
    assert_eq!(s.data[0].health, 1);
    assert!(matches!(s.data[0].status, EnemyStatus::Live));
    // the lethal hit: exactly one pickup, a fifth of max health, centered
    let orb = s.take_damage(0, 2_000).expect("death must drop a pickup");
    assert_eq!(orb.value, 1_000);
    assert_eq!(orb.position.x, px + 32_000);
    assert_eq!(orb.position.y, py + 32_000);
    assert!(matches!(s.data[0].status, EnemyStatus::Dead));
    // further damage is a no-op: no second pickup, nothing changes
    let health_after = s.data[0].health;
    let again = s.take_damage(0, 9_000);
    assert!(again.is_none());
    assert_eq!(s.data[0].health, health_after);
    // an out-of-range index is a no-op as well
    assert!(s.take_damage(99, 1_000).is_none());
}

#[test]
fn dead_enemies_do_not_move() {
    macroquad::rand::srand(14);
    let mut s = small_system(8);
    s.spawn_all();
    for i in 0..8 {
        s.take_damage(i, 5_000);
    }
    let before: Vec<(i64, i64)> = s.positions.iter().map(|p| (p.x, p.y)).collect();
    for _ in 0..8 {
        s.update_movement(Vec2Fix { x: 0, y: 0 }, 16);
    }
    let after: Vec<(i64, i64)> = s.positions.iter().map(|p| (p.x, p.y)).collect();
    assert_eq!(before, after);
}

#[test]
fn every_enemy_moves_within_one_scheduler_cycle() {
    macroquad::rand::srand(42);
    let mut s = EnemySystem::new(
        100,
        MovementStrategy::Boids(BoidsMovement {
            visual_range: 32_000,
            separation_dist: 40_000,
            max_speed: 3_000,
            player_weight: 800,
            player_distance: 2_000_000,
            noise_strength: 50,
            separation_weight: 3_200,
            alignment_weight: 1_500,
            cohesion_weight: 300,
        }),
        CollisionStrategy::Aabb(AABBCollision {}),
        4,
    );
    s.spawn_all();
    let initial: Vec<(i64, i64)> = s.positions.iter().map(|p| (p.x, p.y)).collect();
    let target = Vec2Fix {
        x: 2_000_000,
        y: 2_000_000,
    };
    // run exactly max_chunks frames: every enemy is updated exactly once
    for _ in 0..4 {
        s.update_movement(target, 16);
    }
    let mut moved = 0;
    for i in 0..100 {
        if (s.positions[i].x, s.positions[i].y) != initial[i] {
            moved += 1;
        }
    }
    assert_eq!(moved, 100, "only {} of 100 enemies moved", moved);
}

#[test]
fn separation_pushes_close_neighbors_apart() {
    // two enemies ten units apart, the player at the first one's position,
    // no noise: the separation force dominates and pushes it away
    let b = BoidsMovement {
        visual_range: 32_000,
        separation_dist: 40_000,
        max_speed: 3_000,
        player_weight: 800,
        player_distance: 2_000_000,
        noise_strength: 0,
        separation_weight: 3_200,
        alignment_weight: 1_500,
        cohesion_weight: 300,
    };
    let me = Vec2Fix {
        x: 2_000_000,
        y: 2_000_000,
    };
    let views = vec![view(2_000_000, 2_000_000, true), view(2_010_000, 2_000_000, true)];
    let r = b.step(me, me, 0, &views, 0, 0);
    assert_eq!(r.x, 1_997_000);
    assert_eq!(r.y, 2_000_000);
}

#[test]
fn nearest_targeting_picks_the_closest_live_enemy() {
    let from = Vec2Fix { x: 0, y: 0 };
    let views = vec![
        view(50_000, 0, true),
        view(10_000, 0, true),
        view(30_000, 0, true),
    ];
    assert_eq!(nearest_live_index(&views, from), Some(1));
    // a dead nearest enemy is skipped
    let views2 = vec![
        view(50_000, 0, true),
        view(10_000, 0, false),
        view(30_000, 0, true),
    ];
    assert_eq!(nearest_live_index(&views2, from), Some(2));
    let views3 = vec![view(50_000, 0, false)];
    assert_eq!(nearest_live_index(&views3, from), None);
    let views4: Vec<EnemyView> = Vec::new();
    assert_eq!(nearest_live_index(&views4, from), None);
}

#[test]
fn projectile_hits_once_then_expires() {
    let mut m = SkillsFactory::create_simple_projectile_manager();
    m.projectiles.push(SimpleProjectile {
        id: SkillId::new(7),
        position: Vec2Fix { x: 90_000, y: 32_000 },
        direction: Vec2Fix { x: -1_000, y: 0 },
        speed: 300_000,
        radius: 5_000,
        life: 2_000,
        active: true,
    });
    // enemy box [0, 64000] x [0, 64000]; projectile flies left into it
    let views = vec![view(0, 0, true)];
    let mut total_hits = 0;
    for _ in 0..10 {
        let events = m.update(100, &views);
        total_hits += events.len();
        for e in &events {
            assert_eq!(e.enemy_index, 0);
            assert_eq!(e.damage, 1_000);
            assert_eq!(e.skill_id, SkillId::new(7));
        }
    }
    assert_eq!(total_hits, 1);
    assert_eq!(m.projectiles.len(), 0);
}

#[test]
fn projectile_spawn_aims_at_nearest_and_respects_cooldown() {
    let mut m = SkillsFactory::create_simple_projectile_manager();
    let player = Player::new(0, 0);
    let views = vec![view(200_000, 0, true), view(100_000, 0, true)];
    m.spawn(&player, &views);
    assert_eq!(m.projectiles.len(), 1);
    assert_eq!(m.timer, 500);
    let p = &m.projectiles[0];
    // spawned at the player's center, aimed straight at the nearer enemy
    assert_eq!(p.position.x, 32_000);
    assert_eq!(p.position.y, 32_000);
    assert!(p.direction.x > 0);
    // cooling down: no second projectile
    m.spawn(&player, &views);
    assert_eq!(m.projectiles.len(), 1);
}

#[test]
fn spawn_without_live_enemy_keeps_cooldown_ready() {
    let mut m = SkillsFactory::create_simple_projectile_manager();
    let player = Player::new(0, 0);
    let views = vec![view(200_000, 0, false)];
    m.spawn(&player, &views);
    assert_eq!(m.projectiles.len(), 0);
    assert_eq!(m.timer, 0);
}

#[test]
fn field_hits_every_frame_the_overlap_lasts() {
    let mut m = SkillsFactory::create_force_field_manager();
    let player = Player::new(0, 0);
    let views = vec![view(50_000, 0, true), view(3_000_000, 0, true)];
    m.spawn(&player, &views);
    assert_eq!(m.projectiles.len(), 1);
    // an enemy stationary inside the radius for k frames: k hit events
    let k = 5;
    let mut hits_near = 0;
    let mut hits_far = 0;
    for _ in 0..k {
        let events = m.update(16, &player, &views);
        for e in &events {
            if e.enemy_index == 0 {
                hits_near += 1;
                assert_eq!(e.damage, 100);
            } else {
                hits_far += 1;
            }
        }
    }
    assert_eq!(hits_near, k);
    assert_eq!(hits_far, 0);
    // the field spawns only once
    m.spawn(&player, &views);
    assert_eq!(m.projectiles.len(), 1);
}

#[test]
fn field_ignores_dead_enemies() {
    let mut m = SkillsFactory::create_force_field_manager();
    let player = Player::new(0, 0);
    let views = vec![view(50_000, 0, false)];
    m.spawn(&player, &views);
    let events = m.update(16, &player, &views);
    assert_eq!(events.len(), 0);
}

#[test]
fn event_bus_delivers_once_per_subscription() {
    let mut bus = EventBus::new();
    bus.subscribe(EventType::Damage);
    bus.subscribe(EventType::Damage);
    bus.subscribe(EventType::Heal);
    bus.emit(&EventType::Damage, &EventPayload::Damage { amount: 1 });
    assert_eq!(bus.queue.len(), 2);
    bus.emit(&EventType::Heal, &EventPayload::Heal { amount: 3 });
    assert_eq!(bus.queue.len(), 3);
    let events = bus.take_events();
    assert_eq!(events.len(), 3);
    assert_eq!(bus.queue.len(), 0);
    // an event type with no subscription is dropped
    bus.emit(
        &EventType::Custom(String::from("quake")),
        &EventPayload::Custom(String::from("zone")),
    );
    assert_eq!(bus.queue.len(), 0);
}

#[test]
fn collision_emits_damage_per_overlapping_live_enemy() {
    let player = Player::new(1_000_000, 1_000_000);
    let positions = vec![
        Vec2Fix { x: 1_010_000, y: 1_010_000 }, // overlapping, live
        Vec2Fix { x: 1_010_000, y: 1_010_000 }, // overlapping but dead
        Vec2Fix { x: 3_000_000, y: 3_000_000 }, // far away
    ];
    let sizes = vec![Vec2Fix { x: 64_000, y: 64_000 }; 3];
    let mk = |status, health| EnemyData {
        status,
        last_movement: Vec2Fix { x: 1_000, y: 0 },
        max_health: 5_000,
        health,
    };
    let data = vec![
        mk(EnemyStatus::Live, 5_000),
        mk(EnemyStatus::Dead, 0),
        mk(EnemyStatus::Live, 5_000),
    ];
    let mut bus = EventBus::new();
    bus.subscribe(EventType::Damage);
    let strategy = CollisionStrategy::Aabb(AABBCollision {});
    strategy.check_collisions(&positions, &sizes, &data, &player, &mut bus);
    assert_eq!(bus.queue.len(), 1);
    match &bus.queue[0].1 {
        EventPayload::Damage { amount } => assert_eq!(*amount, 1),
        _ => panic!("expected a damage payload"),
    }
}

#[test]
fn orbs_are_consumed_atomically_on_first_overlap() {
    let mut xs = ExperienceSystem::new();
    let mut player = Player::new(1_000_000, 1_000_000);
    xs.spawn_experience_orb(Vec2Fix { x: 1_010_000, y: 1_010_000 }, 1_000);
    xs.spawn_experience_orb(Vec2Fix { x: 3_000_000, y: 3_000_000 }, 2_000);
    xs.check_experience_orbs_collisions(&mut player);
    assert_eq!(player.current_experience, 1_000);
    assert_eq!(xs.experience_orbs.len(), 1);
    assert_eq!(xs.experience_orbs[0].value, 2_000);
    // collecting again changes nothing: the orb is gone
    xs.check_experience_orbs_collisions(&mut player);
    assert_eq!(player.current_experience, 1_000);
}

#[test]
fn full_experience_bar_levels_up() {
    let mut xs = ExperienceSystem::new();
    let mut player = Player::new(1_000_000, 1_000_000);
    for _ in 0..10 {
        xs.spawn_experience_orb(Vec2Fix { x: 1_010_000, y: 1_010_000 }, 1_000);
    }
    let r = xs.update(&mut player);
    assert_eq!(r, Some(GameState::LevelUp));
    assert_eq!(player.level, 2);
    assert_eq!(player.current_experience, 0);
    assert_eq!(player.experience_to_next_level, 20_000);
}

#[test]
fn player_movement_damage_and_progression() {
    let mut p = Player::new(2_000_000, 2_000_000);
    p.move_by_direction(Vec2Fix { x: 1_000, y: 0 });
    assert_eq!(p.x, 2_003_000);
    assert_eq!(p.y, 2_000_000);
    // screen coordinates: moving up decreases y
    p.move_by_direction(Vec2Fix { x: 0, y: 1_000 });
    assert_eq!(p.y, 1_997_000);
    // a zero direction stands still
    p.move_by_direction(Vec2Fix { x: 0, y: 0 });
    assert_eq!(p.x, 2_003_000);
    p.take_damage(300_000);
    assert_eq!(p.health, 0);
    p.take_damage(1_000);
    assert_eq!(p.health, 0);
}

#[test]
fn player_clamps_to_world_bounds() {
    let mut p = Player::new(0, 0);
    p.move_by_direction(Vec2Fix { x: -1_000, y: 0 });
    assert_eq!(p.x, 0);
    p.move_by_direction(Vec2Fix { x: 0, y: 1_000 });
    assert_eq!(p.y, 0);
}

#[test]
fn draw_order_is_back_to_front() {
    macroquad::rand::srand(15);
    let mut s = small_system(3);
    s.spawn_all();
    s.positions[0] = Vec2Fix { x: 0, y: 100_000 };
    s.positions[1] = Vec2Fix { x: 0, y: 300_000 };
    s.positions[2] = Vec2Fix { x: 0, y: 200_000 };
    let target = Vec2Fix { x: 0, y: 50_000 };
    let behind = s.draw_order_indices(target, PositionOverlap::Behind);
    assert_eq!(behind, vec![1, 2, 0]);
    let front = s.draw_order_indices(target, PositionOverlap::InFront);
    assert_eq!(front.len(), 0);
}

#[test]
fn random_skill_offers_come_from_the_pool() {
    macroquad::rand::srand(16);
    let names = [
        "Fireball 0",
        "Ice Shard 1",
        "Lightning Bolt 2",
        "Blablabla 3",
        "Fireball 4",
    ];
    for _ in 0..20 {
        let skills = swarm_core::level_up::get_random_skills();
        assert_eq!(skills.len(), 3);
        for s in &skills {
            assert!(names.contains(s), "unexpected skill name {}", s);
        }
    }
}

#[test]
fn distances_are_symmetric_squares() {
    let a = Vec2Fix { x: 1_000, y: 2_000 };
    let b = Vec2Fix { x: 4_000, y: 6_000 };
    assert_eq!(dist2_exec(a, b), 25_000_000);
    assert_eq!(dist2_exec(b, a), 25_000_000);
}

#[test]
fn end_to_end_game_runs_one_level_cycle() {
    macroquad::rand::srand(17);
    let mut g = Game::new();
    g.init();
    let mut outcome = None;
    for _ in 0..200 {
        let r = g.update(16, Vec2Fix { x: 0, y: 0 });
        if r.is_some() {
            outcome = r;
            break;
        }
    }
    // the game is in a sound state whatever happened
    assert_eq!(g.enemies.positions.len(), 50);
    if let Some(state) = outcome {
        assert!(state == GameState::LevelUp || state == GameState::GameOver);
    }
}

#[test]
fn force_field_unit_recenters_on_player() {
    let mut m = SkillsFactory::create_force_field_manager();
    m.projectiles.push(ForceFieldUnit {
        id: SkillId::new(1),
        position: Vec2Fix { x: 0, y: 0 },
        radius: 128_000,
        active: true,
    });
    let mut player = Player::new(1_000_000, 2_000_000);
    let views: Vec<EnemyView> = Vec::new();
    let _ = m.update(16, &player, &views);
    assert_eq!(m.projectiles[0].position.x, 1_032_000);
    assert_eq!(m.projectiles[0].position.y, 2_032_000);
    player.move_by_direction(Vec2Fix { x: 1_000, y: 0 });
    let _ = m.update(16, &player, &views);
    assert_eq!(m.projectiles[0].position.x, 1_035_000);
}
