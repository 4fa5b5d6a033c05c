//! The data components that entities carry: combat state, motion, counters
//! and the closed variant taxonomies for players, enemies and items.

use vstd::prelude::*;

verus! {

/// Whether a combatant takes part in combat collisions.
#[derive(Clone, Copy, PartialEq, Eq, Structural, Debug)]
pub enum Vitality {
    Alive,
    Dead,
}

impl Default for Vitality {
    /// Entities spawn combat-active.
    fn default() -> (r: Vitality)
        ensures
            r == Vitality::Alive,
    {
        Vitality::Alive
    }
}

/// Speed factors in thousandths of the base speed, one per axis.
#[derive(Clone, Copy, PartialEq, Eq, Structural, Debug)]
pub struct Velocity {
    pub x: i64,
    pub y: i64,
}

impl Default for Velocity {
    fn default() -> (r: Velocity)
        ensures
            r.x == 0 && r.y == 0,
    {
        Velocity { x: 0, y: 0 }
    }
}

/// Whether the entity is removed once it drifts out of the visible arena.
#[derive(Clone, Copy, PartialEq, Eq, Structural, Debug)]
pub struct Movable {
    pub auto_despawn: bool,
}

impl Default for Movable {
    fn default() -> (r: Movable)
        ensures
            !r.auto_despawn,
    {
        Movable { auto_despawn: false }
    }
}

/// A recorded position, in coordinate units, where something died.
#[derive(Clone, Copy, PartialEq, Eq, Structural, Debug)]
pub struct EntityLocation {
    pub x: i64,
    pub y: i64,
    pub z: i64,
}

/// Remaining lives of a player; never decremented below zero.
#[derive(Clone, Copy, PartialEq, Eq, Structural, Debug)]
pub struct Lives {
    pub count: u8,
}

impl Default for Lives {
    /// Players start each round with three lives.
    fn default() -> (r: Lives)
        ensures
            r.count == 3,
    {
        Lives { count: 3 }
    }
}

/// A player's score; grows only through confirmed kills and never drops
/// below zero.
#[derive(Clone, Copy, PartialEq, Eq, Structural, Debug)]
pub struct Score {
    pub value: u32,
}

impl Default for Score {
    fn default() -> (r: Score)
        ensures
            r.value == 0,
    {
        Score { value: 0 }
    }
}

/// Timed buff flags a player can hold.
#[derive(Clone, Copy, PartialEq, Eq, Structural, Debug)]
pub struct ItemPower {
    /// True while the diamond buff window is open for this player.
    pub diamond: bool,
}

impl Default for ItemPower {
    fn default() -> (r: ItemPower)
        ensures
            !r.diamond,
    {
        ItemPower { diamond: false }
    }
}

#[derive(Clone, Copy, PartialEq, Eq, Structural, Debug)]
pub enum PlayerVariant {
    One,
    Two,
}

#[derive(Clone, Copy, PartialEq, Eq, Structural, Debug)]
pub enum EnemyVariant {
    Zombie,
    Skelton,
    Goblin,
}

impl Default for EnemyVariant {
    fn default() -> (r: EnemyVariant)
        ensures
            r == EnemyVariant::Zombie,
    {
        EnemyVariant::Zombie
    }
}

/// The closed set of collectible item kinds.
#[derive(Clone, Copy, PartialEq, Eq, Structural, Debug)]
pub enum ItemVariant {
    Diamond,
    Mushroom,
}

/// Marker kind: a diamond grants the timed invulnerability buff.
#[derive(Clone, Copy, PartialEq, Eq, Structural, Debug)]
pub struct Diamond;

/// Marker kind: when consumed, a mushroom makes the player invincible for a
/// fixed window.
#[derive(Clone, Copy, PartialEq, Eq, Structural, Debug)]
pub struct Mushroom;

/// The abstract input actions a player can issue, independent of the
/// physical device they are mapped from.
#[derive(Clone, Copy, PartialEq, Eq, Structural, Debug)]
pub enum ControlAction {
    Up,
    Down,
    Left,
    Right,
    AxisMove,
    Fire,
    Pause,
    Restart,
}

impl ControlAction {
    /// The unit direction, in world axes, of a directional action.
    pub fn direction(self) -> (r: Option<(i64, i64)>)
        ensures
            self == ControlAction::Up ==> r == Some((0i64, 1i64)),
            self == ControlAction::Down ==> r == Some((0i64, -1i64)),
            self == ControlAction::Left ==> r == Some((-1i64, 0i64)),
            self == ControlAction::Right ==> r == Some((1i64, 0i64)),
            !(self == ControlAction::Up || self == ControlAction::Down
                || self == ControlAction::Left || self == ControlAction::Right)
                ==> r is None,
    {
        match self {
            ControlAction::Up => Some((0, 1)),
            ControlAction::Down => Some((0, -1)),
            ControlAction::Left => Some((-1, 0)),
            ControlAction::Right => Some((1, 0)),
            _ => None,
        }
    }
}

} // verus!
