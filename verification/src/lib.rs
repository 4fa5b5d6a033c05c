//! Simulation core for a two-player side-scrolling arcade game.
//!
//! Two players roam a rectangular arena, shoot fireballs at enemy waves that
//! drift in from the right edge, collect a timed diamond power-up, and lose
//! lives to enemy contact until both are out of lives and the round ends.
//!
//! All world coordinates and velocities are fixed-point integers with 1000
//! units per world pixel, so one simulation tick advances positions by exact
//! integer amounts. The host is expected to run `tick` at a fixed rate of
//! `TICKS_PER_SECOND` frames per second and to supply edge-detected input
//! flags; rendering, audio and input devices stay outside this crate.

use vstd::prelude::*;

pub mod arena;
pub mod collision;
pub mod components;
pub mod enemy;
pub mod entities;
pub mod game;
pub mod input;
pub mod item;
pub mod laws;
pub mod motion;
pub mod player;
pub mod rng;
pub mod scenery;
pub mod states;
pub mod tick;
pub mod timer;
pub mod world;

verus! {

/// Fixed simulation rate: ticks per second of game time.
pub const TICKS_PER_SECOND: u32 = 60;

/// Fixed-point scale: coordinate units per world pixel.
pub const UNITS_PER_PIXEL: i64 = 1000;

/// Base speed in pixels per second that velocity factors scale.
pub const BASE_SPEED: i64 = 500;

/// Player movement speed in pixels per second.
pub const PLAYER_SPEED: i64 = 500;

/// Drift speed factor, in thousandths, given to corpses and scenery.
pub const SCROLL_X_VELOCITY: i64 = 100;

/// Vertical counterpart of `SCROLL_X_VELOCITY`.
pub const SCROLL_Y_VELOCITY: i64 = 100;

/// Enemies spawned per burst.
pub const NUMBER_OF_ENEMIES: u8 = 10;

/// Scenery trees spawned per timed burst.
pub const NUMBER_OF_TREES: u8 = 4;

/// Scenery trees spawned by the initial burst at round start.
pub const TREE_INIT_COUNT: u8 = 40;

/// Largest velocity factor, in thousandths, any entity is given.
pub const VEL_LIMIT: i64 = 10_000;

} // verus!
