//! Core simulation of a swarm of hostile agents that flock toward a player,
//! collide with it, take damage from skills, die and drop pickups.
//!
//! All scalar quantities (positions, sizes, health, speeds, weights, times)
//! are fixed-point numbers: an `i64` holding the value times [`fixed::SCALE`].

pub mod collision;
pub mod constants;
pub mod draw_order;
pub mod enemies;
pub mod enemy_view;
pub mod event_bus;
pub mod experience;
pub mod fixed;
pub mod force_field;
pub mod game;
pub mod level_up;
pub mod movement;
pub mod player;
pub mod rng;
pub mod scheduler;
pub mod simple_projectile;
pub mod skill_id;
pub mod skills_factory;
pub mod skills_system;
pub mod state;
pub mod vecfix;
