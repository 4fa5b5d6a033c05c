//! The world state: every live entity, the shared timers and counters, and
//! the round/application state machines, advanced tick by tick by the
//! system passes.

use vstd::prelude::*;
use crate::arena::Arena;
use crate::components::PlayerVariant;
use crate::entities::{
    Enemy, EnemyDead, EnemyDeadLocation, Fireball, Player, PlayerDead, PlayerDeadLocation,
    PowerUp, Tree,
};
use crate::states::{AppState, GameState};
use crate::timer::{DiamondPowerTimer, DiamondSpawnTimer, EnemySpawnTimer, TreeSpawnTimer};

verus! {

/// Rules that the project's own history toggles rather than fixes.
#[derive(Clone, Copy, PartialEq, Eq, Structural, Debug)]
pub struct GameConfig {
    /// Whether an enemy escaping off the left edge costs each player one
    /// point (clamped at zero).
    pub escape_penalty: bool,
}

/// The whole simulation state. Systems mutate it in place; rendering reads
/// it after a tick completes.
pub struct GameWorld {
    pub arena: Arena,
    pub config: GameConfig,
    pub app_state: AppState,
    pub game_state: GameState,
    /// Identifier for the next spawned entity; every live id is below it.
    pub next_id: u64,
    pub players: Vec<Player>,
    pub enemies: Vec<Enemy>,
    pub fireballs: Vec<Fireball>,
    pub power_ups: Vec<PowerUp>,
    pub enemy_corpses: Vec<EnemyDead>,
    pub player_corpses: Vec<PlayerDead>,
    pub enemy_marks: Vec<EnemyDeadLocation>,
    pub player_marks: Vec<PlayerDeadLocation>,
    pub trees: Vec<Tree>,
    pub enemy_spawn_timer: EnemySpawnTimer,
    pub diamond_spawn_timer: DiamondSpawnTimer,
    pub diamond_power_timer: DiamondPowerTimer,
    pub tree_spawn_timer: TreeSpawnTimer,
}

impl GameWorld {
    /// There are at most two players; when both are present they sit at
    /// fixed indices, player one first.
    pub open spec fn players_indexed(self) -> bool {
        &&& self.players@.len() <= 2
        &&& self.players@.len() == 2 ==> self.players@[0].variant == PlayerVariant::One
            && self.players@[1].variant == PlayerVariant::Two
    }

    pub open spec fn lists_wf(self) -> bool {
        &&& forall|i: int| 0 <= i < self.players@.len() ==> (#[trigger] self.players@[i]).wf()
        &&& forall|i: int| 0 <= i < self.enemies@.len() ==> (#[trigger] self.enemies@[i]).wf()
        &&& forall|i: int|
            0 <= i < self.fireballs@.len() ==> (#[trigger] self.fireballs@[i]).wf()
        &&& forall|i: int|
            0 <= i < self.power_ups@.len() ==> (#[trigger] self.power_ups@[i]).wf()
        &&& forall|i: int|
            0 <= i < self.enemy_corpses@.len() ==> (#[trigger] self.enemy_corpses@[i]).wf()
        &&& forall|i: int|
            0 <= i < self.player_corpses@.len() ==> (#[trigger] self.player_corpses@[i]).wf()
        &&& forall|i: int|
            0 <= i < self.enemy_marks@.len() ==> (#[trigger] self.enemy_marks@[i]).wf()
        &&& forall|i: int|
            0 <= i < self.player_marks@.len() ==> (#[trigger] self.player_marks@[i]).wf()
        &&& forall|i: int| 0 <= i < self.trees@.len() ==> (#[trigger] self.trees@[i]).wf()
    }

    /// Every live entity was issued an identifier below the pool counter,
    /// so the next issued identifier is fresh.
    pub open spec fn ids_fresh(self) -> bool {
        &&& forall|i: int|
            0 <= i < self.players@.len() ==> (#[trigger] self.players@[i]).id < self.next_id
        &&& forall|i: int|
            0 <= i < self.enemies@.len() ==> (#[trigger] self.enemies@[i]).id < self.next_id
        &&& forall|i: int|
            0 <= i < self.fireballs@.len() ==> (#[trigger] self.fireballs@[i]).id < self.next_id
        &&& forall|i: int|
            0 <= i < self.power_ups@.len() ==> (#[trigger] self.power_ups@[i]).id < self.next_id
        &&& forall|i: int|
            0 <= i < self.enemy_corpses@.len() ==> (#[trigger] self.enemy_corpses@[i]).id
                < self.next_id
        &&& forall|i: int|
            0 <= i < self.player_corpses@.len() ==> (#[trigger] self.player_corpses@[i]).id
                < self.next_id
        &&& forall|i: int|
            0 <= i < self.enemy_marks@.len() ==> (#[trigger] self.enemy_marks@[i]).id
                < self.next_id
        &&& forall|i: int|
            0 <= i < self.player_marks@.len() ==> (#[trigger] self.player_marks@[i]).id
                < self.next_id
        &&& forall|i: int|
            0 <= i < self.trees@.len() ==> (#[trigger] self.trees@[i]).id < self.next_id
    }

    pub open spec fn spec_any_player_powered(self) -> bool {
        exists|i: int|
            0 <= i < self.players@.len() && (#[trigger] self.players@[i]).item_power.diamond
    }

    /// At most one power-up exists, and none while a player holds the
    /// buff: the spawner is exclusive, so a pickup is impossible while the
    /// buff is already active.
    pub open spec fn power_exclusive(self) -> bool {
        &&& self.power_ups@.len() <= 1
        &&& self.spec_any_player_powered() ==> self.power_ups@.len() == 0
    }

    pub open spec fn timers_wf(self) -> bool {
        &&& self.enemy_spawn_timer.wf()
        &&& self.diamond_spawn_timer.wf()
        &&& self.diamond_power_timer.wf()
        &&& self.tree_spawn_timer.wf()
    }

    pub open spec fn wf(self) -> bool {
        &&& self.arena.wf()
        &&& self.players_indexed()
        &&& self.lists_wf()
        &&& self.power_exclusive()
        &&& self.timers_wf()
        &&& self.ids_fresh()
    }

    /// A fresh world: empty entity pool, timers at zero, main menu shown
    /// and the round waiting for a restart.
    pub fn new(arena: Arena, config: GameConfig) -> (w: GameWorld)
        requires
            arena.wf(),
        ensures
            w.wf(),
            w.arena == arena,
            w.config == config,
            w.app_state == AppState::MainMenu,
            w.game_state == GameState::GameOver,
            w.players@.len() == 0,
            w.enemies@.len() == 0,
            w.fireballs@.len() == 0,
            w.power_ups@.len() == 0,
            w.enemy_corpses@.len() == 0,
            w.player_corpses@.len() == 0,
            w.enemy_marks@.len() == 0,
            w.player_marks@.len() == 0,
            w.trees@.len() == 0,
            w.next_id == 0,
            !w.enemy_spawn_timer.timer.spec_finished(),
            !w.diamond_spawn_timer.timer.spec_finished(),
            !w.diamond_power_timer.timer.spec_finished(),
            !w.tree_spawn_timer.timer.spec_finished(),
    {
        GameWorld {
            arena,
            config,
            app_state: AppState::MainMenu,
            game_state: GameState::GameOver,
            next_id: 0,
            players: Vec::new(),
            enemies: Vec::new(),
            fireballs: Vec::new(),
            power_ups: Vec::new(),
            enemy_corpses: Vec::new(),
            player_corpses: Vec::new(),
            enemy_marks: Vec::new(),
            player_marks: Vec::new(),
            trees: Vec::new(),
            enemy_spawn_timer: EnemySpawnTimer::default(),
            diamond_spawn_timer: DiamondSpawnTimer::default(),
            diamond_power_timer: DiamondPowerTimer::default(),
            tree_spawn_timer: TreeSpawnTimer::default(),
        }
    }

    /// Issue the next entity identifier. The pool contract: the issued id
    /// differs from the id of every live entity.
    pub fn take_id(&mut self) -> (id: u64)
        requires
            old(self).next_id < u64::MAX,
            old(self).ids_fresh(),
        ensures
            id == old(self).next_id,
            final(self).next_id == old(self).next_id + 1,
            final(self).ids_fresh(),
            forall|i: int|
                0 <= i < old(self).players@.len() ==> (#[trigger] old(self).players@[i]).id
                    != id,
            forall|i: int|
                0 <= i < old(self).enemies@.len() ==> (#[trigger] old(self).enemies@[i]).id
                    != id,
            forall|i: int|
                0 <= i < old(self).fireballs@.len() ==> (#[trigger] old(
                    self,
                ).fireballs@[i]).id != id,
            forall|i: int|
                0 <= i < old(self).power_ups@.len() ==> (#[trigger] old(
                    self,
                ).power_ups@[i]).id != id,
            final(self).arena == old(self).arena,
            final(self).config == old(self).config,
            final(self).app_state == old(self).app_state,
            final(self).game_state == old(self).game_state,
            final(self).players == old(self).players,
            final(self).enemies == old(self).enemies,
            final(self).fireballs == old(self).fireballs,
            final(self).power_ups == old(self).power_ups,
            final(self).enemy_corpses == old(self).enemy_corpses,
            final(self).player_corpses == old(self).player_corpses,
            final(self).enemy_marks == old(self).enemy_marks,
            final(self).player_marks == old(self).player_marks,
            final(self).trees == old(self).trees,
            final(self).enemy_spawn_timer == old(self).enemy_spawn_timer,
            final(self).diamond_spawn_timer == old(self).diamond_spawn_timer,
            final(self).diamond_power_timer == old(self).diamond_power_timer,
            final(self).tree_spawn_timer == old(self).tree_spawn_timer,
    {
        let id = self.next_id;
        self.next_id = self.next_id + 1;
        id
    }

    pub fn any_player_powered(&self) -> (r: bool)
        ensures
            r == self.spec_any_player_powered(),
    {
        let mut i: usize = 0;
        while i < self.players.len()
            invariant
                0 <= i <= self.players@.len(),
                forall|j: int|
                    0 <= j < i ==> !(#[trigger] self.players@[j]).item_power.diamond,
            decreases self.players@.len() - i,
        {
            if self.players[i].item_power.diamond {
                return true;
            }
            i = i + 1;
        }
        false
    }
}

} // verus!
