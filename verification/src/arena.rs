//! The rectangular arena: its dimensions, margins and derived bounds.
//!
//! All lengths are in coordinate units (`UNITS_PER_PIXEL` per world pixel).
//! The arena is centred on the origin, so visible x spans
//! `[-width/2, width/2]` and visible y spans `[-height/2, height/2]`.

use vstd::prelude::*;
use crate::UNITS_PER_PIXEL;

verus! {

/// Farthest coordinate magnitude the simulation tracks; drift saturates
/// here, far outside any arena.
pub const COORD_LIMIT: i64 = 1_000_000_000_000;

/// Largest arena side length accepted, in coordinate units.
pub const MAX_ARENA_SIDE: i64 = 10_000_000;

/// Smallest arena side length accepted (one hundred pixels): room for the
/// confinement margins and the spawn bands.
pub const MIN_ARENA_SIDE: i64 = 100_000;

/// How far past the left edge an auto-despawning entity may drift before it
/// is removed (20 pixels).
pub const OFFSCREEN_MARGIN: i64 = 20_000;

/// Vertical margin kept clear at the top and bottom of the enemy spawn band
/// (50 pixels).
pub const SPAWN_Y_MARGIN: i64 = 50_000;

/// An enemy must be this far inside the right edge before projectiles can
/// hit it (20 pixels).
pub const ENTER_MARGIN: i64 = 20_000;

/// Margin kept between a spawned power-up and every arena edge (20 pixels).
pub const POWER_UP_MARGIN: i64 = 20_000;

/// Distance from each arena edge that player confinement enforces: the
/// sprite size plus 5 pixels.
pub const CONFINE_MARGIN: i64 = 37_000;

/// Sprite half-width of a player, the radius used for round collisions.
pub const PLAYER_HALF_SIZE: i64 = 16_000;

/// Sprite half-width of an enemy, the radius used for round collisions.
pub const ENEMY_HALF_SIZE: i64 = 16_000;

/// Enemy bounding-box half extents (32 x 32 pixel sprite).
pub const ENEMY_HALF_WIDTH: i64 = 16_000;
pub const ENEMY_HALF_HEIGHT: i64 = 16_000;

/// Fireball bounding-box half extents (32 x 32 pixel sprite at scale 3).
pub const FIREBALL_HALF_WIDTH: i64 = 48_000;
pub const FIREBALL_HALF_HEIGHT: i64 = 48_000;

/// Sprite half-width of the diamond power-up (18 pixel sprite).
pub const DIAMOND_HALF_SIZE: i64 = 9_000;

/// A fireball leaves the muzzle this far right of the player's centre.
pub const FIRE_OFFSET_X: i64 = 58_000;

/// The playing field, centred on the origin.
#[derive(Clone, Copy, PartialEq, Eq, Structural, Debug)]
pub struct Arena {
    /// Horizontal extent in coordinate units.
    pub width: i64,
    /// Vertical extent in coordinate units.
    pub height: i64,
}

impl Arena {
    /// An arena must be large enough to hold the spawn bands and the
    /// player confinement margins, and small enough that every derived
    /// bound stays far from overflow.
    pub open spec fn wf(self) -> bool {
        &&& MIN_ARENA_SIDE <= self.width <= MAX_ARENA_SIDE
        &&& MIN_ARENA_SIDE <= self.height <= MAX_ARENA_SIDE
        &&& 2 * SPAWN_Y_MARGIN + UNITS_PER_PIXEL <= self.height
        &&& 2 * POWER_UP_MARGIN + UNITS_PER_PIXEL <= self.width
        &&& self.width / 8 + UNITS_PER_PIXEL <= self.width / 2
    }

    pub open spec fn spec_half_width(self) -> int {
        self.width / 2
    }

    pub open spec fn spec_half_height(self) -> int {
        self.height / 2
    }

    /// x below which an auto-despawning entity is removed.
    pub open spec fn spec_despawn_x(self) -> int {
        -self.spec_half_width() - OFFSCREEN_MARGIN
    }

    /// x beyond which a fireball leaves the arena and is removed.
    pub open spec fn spec_fireball_limit_x(self) -> int {
        self.spec_half_width()
    }

    /// x an enemy must be left of before projectiles can hit it.
    pub open spec fn spec_enter_x(self) -> int {
        self.spec_half_width() - ENTER_MARGIN
    }

    pub fn new(width: i64, height: i64) -> (a: Arena)
        requires
            MIN_ARENA_SIDE <= width <= MAX_ARENA_SIDE,
            MIN_ARENA_SIDE <= height <= MAX_ARENA_SIDE,
            2 * SPAWN_Y_MARGIN + UNITS_PER_PIXEL <= height,
            2 * POWER_UP_MARGIN + UNITS_PER_PIXEL <= width,
            width / 8 + UNITS_PER_PIXEL <= width / 2,
        ensures
            a.wf(),
            a.width == width,
            a.height == height,
    {
        Arena { width, height }
    }

    pub fn half_width(&self) -> (r: i64)
        requires
            self.wf(),
        ensures
            r == self.spec_half_width(),
    {
        self.width / 2
    }

    pub fn half_height(&self) -> (r: i64)
        requires
            self.wf(),
        ensures
            r == self.spec_half_height(),
    {
        self.height / 2
    }

    pub fn despawn_x(&self) -> (r: i64)
        requires
            self.wf(),
        ensures
            r == self.spec_despawn_x(),
    {
        -(self.width / 2) - OFFSCREEN_MARGIN
    }

    pub fn enter_x(&self) -> (r: i64)
        requires
            self.wf(),
        ensures
            r == self.spec_enter_x(),
    {
        self.width / 2 - ENTER_MARGIN
    }
}

} // verus!
