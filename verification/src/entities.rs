//! The entity records the simulation tracks, one struct per category.
//!
//! Entities are bags of components plus a pool-issued identifier; no entity
//! refers to another, and all cross-entity interaction is recomputed from
//! positions each tick.

use vstd::prelude::*;
use crate::arena::COORD_LIMIT;
use crate::components::{
    EnemyVariant, EntityLocation, ItemPower, ItemVariant, Lives, Movable, PlayerVariant, Score,
    Velocity, Vitality,
};
use crate::VEL_LIMIT;

verus! {

pub open spec fn coord_ok(v: int) -> bool {
    -COORD_LIMIT <= v <= COORD_LIMIT
}

pub open spec fn velocity_ok(v: Velocity) -> bool {
    &&& 0 <= v.x <= VEL_LIMIT
    &&& 0 <= v.y <= VEL_LIMIT
}

/// A player character.
#[derive(Clone, Copy, PartialEq, Eq, Structural, Debug)]
pub struct Player {
    pub id: u64,
    pub variant: PlayerVariant,
    pub vitality: Vitality,
    pub lives: Lives,
    pub score: Score,
    pub x: i64,
    pub y: i64,
    pub item_power: ItemPower,
}

impl Player {
    /// A live player always has a life left to lose: death consumes one
    /// life, and respawning demands one.
    pub open spec fn wf(self) -> bool {
        &&& coord_ok(self.x as int)
        &&& coord_ok(self.y as int)
        &&& self.vitality == Vitality::Alive ==> self.lives.count >= 1
    }
}

/// An active enemy combatant.
#[derive(Clone, Copy, PartialEq, Eq, Structural, Debug)]
pub struct Enemy {
    pub id: u64,
    pub variant: EnemyVariant,
    pub vitality: Vitality,
    pub x: i64,
    pub y: i64,
    pub velocity: Velocity,
    pub movable: Movable,
}

impl Enemy {
    pub open spec fn wf(self) -> bool {
        &&& coord_ok(self.x as int)
        &&& coord_ok(self.y as int)
        &&& velocity_ok(self.velocity)
        &&& self.movable.auto_despawn
    }
}

/// A projectile fired by a player.
#[derive(Clone, Copy, PartialEq, Eq, Structural, Debug)]
pub struct Fireball {
    pub id: u64,
    pub owner: PlayerVariant,
    pub x: i64,
    pub y: i64,
    pub velocity: Velocity,
    pub movable: Movable,
}

impl Fireball {
    pub open spec fn wf(self) -> bool {
        &&& coord_ok(self.x as int)
        &&& coord_ok(self.y as int)
        &&& velocity_ok(self.velocity)
        &&& self.movable.auto_despawn
    }
}

/// A collectible power-up waiting in the arena.
#[derive(Clone, Copy, PartialEq, Eq, Structural, Debug)]
pub struct PowerUp {
    pub id: u64,
    pub variant: ItemVariant,
    pub x: i64,
    pub y: i64,
}

impl PowerUp {
    pub open spec fn wf(self) -> bool {
        &&& coord_ok(self.x as int)
        &&& coord_ok(self.y as int)
    }
}

/// A decorative enemy corpse drifting off the arena.
#[derive(Clone, Copy, PartialEq, Eq, Structural, Debug)]
pub struct EnemyDead {
    pub id: u64,
    pub variant: EnemyVariant,
    pub x: i64,
    pub y: i64,
    pub velocity: Velocity,
    pub movable: Movable,
}

impl EnemyDead {
    pub open spec fn wf(self) -> bool {
        &&& coord_ok(self.x as int)
        &&& coord_ok(self.y as int)
        &&& velocity_ok(self.velocity)
        &&& self.movable.auto_despawn
    }
}

/// A decorative player corpse drifting off the arena.
#[derive(Clone, Copy, PartialEq, Eq, Structural, Debug)]
pub struct PlayerDead {
    pub id: u64,
    pub x: i64,
    pub y: i64,
    pub velocity: Velocity,
    pub movable: Movable,
}

impl PlayerDead {
    pub open spec fn wf(self) -> bool {
        &&& coord_ok(self.x as int)
        &&& coord_ok(self.y as int)
        &&& velocity_ok(self.velocity)
        &&& self.movable.auto_despawn
    }
}

/// A one-tick marker recording where and what kind of enemy died; consumed
/// by the corpse-spawn pass.
#[derive(Clone, Copy, PartialEq, Eq, Structural, Debug)]
pub struct EnemyDeadLocation {
    pub id: u64,
    pub variant: EnemyVariant,
    pub location: EntityLocation,
}

impl EnemyDeadLocation {
    pub open spec fn wf(self) -> bool {
        &&& coord_ok(self.location.x as int)
        &&& coord_ok(self.location.y as int)
    }
}

/// A one-tick marker recording where a player died.
#[derive(Clone, Copy, PartialEq, Eq, Structural, Debug)]
pub struct PlayerDeadLocation {
    pub id: u64,
    pub location: EntityLocation,
}

impl PlayerDeadLocation {
    pub open spec fn wf(self) -> bool {
        &&& coord_ok(self.location.x as int)
        &&& coord_ok(self.location.y as int)
    }
}

/// A decorative scenery tree scrolling through the arena.
#[derive(Clone, Copy, PartialEq, Eq, Structural, Debug)]
pub struct Tree {
    pub id: u64,
    pub x: i64,
    pub y: i64,
    pub velocity: Velocity,
    pub movable: Movable,
}

impl Tree {
    pub open spec fn wf(self) -> bool {
        &&& coord_ok(self.x as int)
        &&& coord_ok(self.y as int)
        &&& velocity_ok(self.velocity)
        &&& self.movable.auto_despawn
    }
}

} // verus!
