//! One fixed-duration simulation tick: the system passes in their fixed
//! deterministic order, gated on the round state read at the start of the
//! tick, as a host scheduler would gate them.

use vstd::prelude::*;
use crate::enemy::{
    enemies_spawn_over_time_system, enemy_dead_movement_system, enemy_dead_spawn_system,
    enemy_hit_player_system, enemy_movement_system, enemy_spawn_timer_tick_system,
};
use crate::game::{
    game_over_system, restart_game_system, spec_all_players_out, spec_player_out,
    toggle_game_state_system,
};
use crate::input::InputFrame;
use crate::item::{
    diamond_power_timer_tick_system, diamond_spawn_system, diamond_spawn_timer_tick_system,
};
use crate::player::{
    fireball_movement_system, player_confinement_system, player_dead_movement_system,
    player_dead_spawn_system, player_diamond_power_system, player_fire_system,
    player_fireball_hit_enemy_system, player_hit_power_up_system, player_movement_system,
    player_respawn_system,
};
use crate::scenery::{
    tree_movement_system, tree_spawn_timer_tick_system, trees_spawn_over_time_system,
};
use crate::states::GameState;
use crate::timer::GameTimer;
use crate::world::GameWorld;

verus! {

/// Identifier headroom one tick can consume at most: the spawn bursts,
/// the fired projectiles, one kill marker per fireball and the corpses
/// the pending markers materialise.
pub open spec fn spec_tick_id_headroom(w: GameWorld) -> int {
    32 + 2 * w.fireballs@.len() as int + w.enemy_marks@.len() as int + w.player_marks@.len() as int
}

/// The gameplay passes of one playing tick, in the fixed order: spawners,
/// movement, combat, corpse materialisation, buff expiry, then the
/// round-over transition.
#[verifier::rlimit(100)]
#[verifier::spinoff_prover]
fn run_playing_systems(w: &mut GameWorld, inputs: &InputFrame)
    requires
        old(w).wf(),
        inputs.wf(),
        old(w).next_id + spec_tick_id_headroom(*old(w)) <= u64::MAX,
    ensures
        final(w).wf(),
        final(w).arena == old(w).arena,
        final(w).config == old(w).config,
        final(w).players@.len() == old(w).players@.len(),
        (final(w).game_state == GameState::GameOver) <==> (spec_all_players_out(*final(w))
            || old(w).game_state == GameState::GameOver),
        forall|i: int|
            0 <= i < old(w).players@.len() && spec_player_out(#[trigger] old(w).players@[i])
                ==> spec_player_out(final(w).players@[i]),
        final(w).enemy_spawn_timer.timer == GameTimer::spec_ticked(
            old(w).enemy_spawn_timer.timer,
        ),
        final(w).diamond_spawn_timer.timer == GameTimer::spec_ticked(
            old(w).diamond_spawn_timer.timer,
        ),
        final(w).tree_spawn_timer.timer == GameTimer::spec_ticked(
            old(w).tree_spawn_timer.timer,
        ),
{
    enemy_spawn_timer_tick_system(w);
    enemies_spawn_over_time_system(w);
    tree_spawn_timer_tick_system(w);
    trees_spawn_over_time_system(w);
    diamond_spawn_timer_tick_system(w);
    diamond_spawn_system(w);
    player_movement_system(w, inputs);
    player_confinement_system(w);
    player_fire_system(w, inputs);
    fireball_movement_system(w);
    enemy_movement_system(w);
    tree_movement_system(w);
    enemy_dead_movement_system(w);
    player_dead_movement_system(w);
    player_fireball_hit_enemy_system(w);
    enemy_hit_player_system(w);
    player_hit_power_up_system(w);
    enemy_dead_spawn_system(w);
    player_dead_spawn_system(w);
    diamond_power_timer_tick_system(w);
    player_diamond_power_system(w);
    game_over_system(w);
}

/// Advances the whole simulation by one tick. The pause toggle, the
/// restart and the respawn inputs act in every state; the gameplay
/// passes run only when the tick started in the `Playing` state.
pub fn tick(w: &mut GameWorld, inputs: &InputFrame)
    requires
        old(w).wf(),
        inputs.wf(),
        old(w).next_id + spec_tick_id_headroom(*old(w)) <= u64::MAX,
    ensures
        final(w).wf(),
        final(w).arena == old(w).arena,
        final(w).config == old(w).config,
        // the round ends exactly when a playing tick leaves both players
        // dead with no lives left
        old(w).game_state == GameState::Playing ==> ((final(w).game_state
            == GameState::GameOver) <==> spec_all_players_out(*final(w))),
        // a restart while the round is over resets the pool and both
        // players and resumes play
        old(w).game_state == GameState::GameOver && inputs.spec_any_restart() ==> {
            &&& final(w).game_state == GameState::Playing
            &&& final(w).enemies@.len() == 0
            &&& final(w).fireballs@.len() == 0
            &&& final(w).enemy_corpses@.len() == 0
            &&& final(w).player_corpses@.len() == 0
            &&& final(w).enemy_marks@.len() == 0
            &&& final(w).player_marks@.len() == 0
            &&& final(w).players@.len() == old(w).players@.len()
            &&& forall|i: int|
                0 <= i < final(w).players@.len() ==> final(w).players@[i]
                    == crate::game::spec_reset_player(#[trigger] old(w).players@[i])
        },
        // a player who is dead with no lives left stays so through any
        // tick that is not a restart of an ended round
        !(old(w).game_state == GameState::GameOver && inputs.spec_any_restart())
            ==> final(w).players@.len() == old(w).players@.len() && (forall|i: int|
            0 <= i < old(w).players@.len() && spec_player_out(#[trigger] old(w).players@[i])
                ==> spec_player_out(final(w).players@[i])),
        // a playing tick always advances the spawn cadences
        old(w).game_state == GameState::Playing ==> {
            &&& final(w).enemy_spawn_timer.timer == GameTimer::spec_ticked(
                old(w).enemy_spawn_timer.timer,
            )
            &&& final(w).diamond_spawn_timer.timer == GameTimer::spec_ticked(
                old(w).diamond_spawn_timer.timer,
            )
            &&& final(w).tree_spawn_timer.timer == GameTimer::spec_ticked(
                old(w).tree_spawn_timer.timer,
            )
        },
        // a paused tick leaves the entity pool and the counters alone
        old(w).game_state == GameState::Paused ==> {
            &&& final(w).enemies == old(w).enemies
            &&& final(w).fireballs == old(w).fireballs
            &&& final(w).power_ups == old(w).power_ups
            &&& final(w).enemy_corpses == old(w).enemy_corpses
            &&& final(w).player_corpses == old(w).player_corpses
            &&& final(w).trees == old(w).trees
            &&& final(w).next_id == old(w).next_id
        },
{
    let initial_state = w.game_state;
    toggle_game_state_system(w, inputs.any_pause());
    if initial_state == GameState::GameOver {
        restart_game_system(w, inputs.any_restart());
    }
    player_respawn_system(w, inputs);
    if initial_state == GameState::Playing {
        run_playing_systems(w, inputs);
    }
}

} // verus!
