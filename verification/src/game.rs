//! Round-level systems: pause toggling, the game-over condition and the
//! full round restart.

use vstd::prelude::*;
use crate::components::{Lives, Score, Vitality};
use crate::entities::Player;
use crate::states::{AppState, GameState};
use crate::world::GameWorld;

verus! {

/// A player is out of the round when dead with no lives left.
pub open spec fn spec_player_out(p: Player) -> bool {
    p.vitality == Vitality::Dead && p.lives.count == 0
}

/// The round is lost when both players are out at the same time.
pub open spec fn spec_all_players_out(w: GameWorld) -> bool {
    &&& w.players@.len() == 2
    &&& spec_player_out(w.players@[0])
    &&& spec_player_out(w.players@[1])
}

/// How one player looks after a round restart: combat-active again with
/// full lives and a cleared score, everything else kept.
pub open spec fn spec_reset_player(p: Player) -> Player {
    Player {
        vitality: Vitality::Alive,
        lives: Lives { count: 3 },
        score: Score { value: 0 },
        ..p
    }
}

/// The pause toggle: flips between the playing field and the main menu,
/// and does nothing while the round is over.
pub fn toggle_game_state_system(w: &mut GameWorld, pause_pressed: bool)
    requires
        old(w).wf(),
    ensures
        final(w).wf(),
        final(w).game_state == if old(w).game_state != GameState::GameOver && pause_pressed {
            if old(w).app_state == AppState::InGame {
                GameState::Paused
            } else {
                GameState::Playing
            }
        } else {
            old(w).game_state
        },
        final(w).app_state == if old(w).game_state != GameState::GameOver && pause_pressed {
            if old(w).app_state == AppState::InGame {
                AppState::MainMenu
            } else {
                AppState::InGame
            }
        } else {
            old(w).app_state
        },
        *final(w) == (GameWorld {
            game_state: final(w).game_state,
            app_state: final(w).app_state,
            ..*old(w)
        }),
{
    if w.game_state != GameState::GameOver && pause_pressed {
        match w.app_state {
            AppState::InGame => {
                w.game_state = GameState::Paused;
                w.app_state = AppState::MainMenu;
            },
            AppState::MainMenu => {
                w.app_state = AppState::InGame;
                w.game_state = GameState::Playing;
            },
        }
    }
}

/// Whether both players are simultaneously dead with zero lives.
pub fn all_players_out(w: &GameWorld) -> (r: bool)
    ensures
        r == spec_all_players_out(*w),
{
    if w.players.len() != 2 {
        return false;
    }
    let p0 = w.players[0];
    let p1 = w.players[1];
    let out0 = p0.vitality == Vitality::Dead && p0.lives.count == 0;
    let out1 = p1.vitality == Vitality::Dead && p1.lives.count == 0;
    out0 && out1
}

/// Ends the round exactly when both players are out: afterwards the round
/// state is `GameOver` if and only if it already was, or both players are
/// dead with zero lives.
pub fn game_over_system(w: &mut GameWorld)
    requires
        old(w).wf(),
    ensures
        final(w).wf(),
        final(w).game_state == if spec_all_players_out(*old(w)) {
            GameState::GameOver
        } else {
            old(w).game_state
        },
        final(w).app_state == if spec_all_players_out(*old(w)) {
            AppState::MainMenu
        } else {
            old(w).app_state
        },
        (final(w).game_state == GameState::GameOver) <==> (spec_all_players_out(*old(w))
            || old(w).game_state == GameState::GameOver),
        *final(w) == (GameWorld {
            game_state: final(w).game_state,
            app_state: final(w).app_state,
            ..*old(w)
        }),
{
    if all_players_out(w) {
        w.game_state = GameState::GameOver;
        w.app_state = AppState::MainMenu;
    }
}

/// The round restart: on a restart input while the round is over, every
/// enemy, projectile, corpse and death marker is despawned, both players
/// get their lives, score and vitality back, and play resumes.
pub fn restart_game_system(w: &mut GameWorld, restart_pressed: bool)
    requires
        old(w).wf(),
    ensures
        final(w).wf(),
        old(w).game_state == GameState::GameOver && restart_pressed ==> {
            &&& final(w).enemies@.len() == 0
            &&& final(w).fireballs@.len() == 0
            &&& final(w).enemy_corpses@.len() == 0
            &&& final(w).player_corpses@.len() == 0
            &&& final(w).enemy_marks@.len() == 0
            &&& final(w).player_marks@.len() == 0
            &&& final(w).players@.len() == old(w).players@.len()
            &&& forall|i: int|
                0 <= i < old(w).players@.len() ==> final(w).players@[i] == spec_reset_player(
                    #[trigger] old(w).players@[i],
                )
            &&& final(w).game_state == GameState::Playing
            &&& final(w).app_state == AppState::InGame
            &&& *final(w) == (GameWorld {
                enemies: final(w).enemies,
                fireballs: final(w).fireballs,
                enemy_corpses: final(w).enemy_corpses,
                player_corpses: final(w).player_corpses,
                enemy_marks: final(w).enemy_marks,
                player_marks: final(w).player_marks,
                players: final(w).players,
                game_state: GameState::Playing,
                app_state: AppState::InGame,
                ..*old(w)
            })
        },
        !(old(w).game_state == GameState::GameOver && restart_pressed) ==> *final(w) == *old(w),
{
    if w.game_state == GameState::GameOver && restart_pressed {
        w.enemies = Vec::new();
        w.fireballs = Vec::new();
        w.enemy_corpses = Vec::new();
        w.player_corpses = Vec::new();
        w.enemy_marks = Vec::new();
        w.player_marks = Vec::new();
        let mut i: usize = 0;
        while i < w.players.len()
            invariant
                0 <= i <= w.players@.len(),
                old(w).wf(),
                *w == (GameWorld {
                    enemies: w.enemies,
                    fireballs: w.fireballs,
                    enemy_corpses: w.enemy_corpses,
                    player_corpses: w.player_corpses,
                    enemy_marks: w.enemy_marks,
                    player_marks: w.player_marks,
                    players: w.players,
                    ..*old(w)
                }),
                w.enemies@.len() == 0,
                w.fireballs@.len() == 0,
                w.enemy_corpses@.len() == 0,
                w.player_corpses@.len() == 0,
                w.enemy_marks@.len() == 0,
                w.player_marks@.len() == 0,
                w.players@.len() == old(w).players@.len(),
                forall|j: int|
                    0 <= j < i ==> w.players@[j] == spec_reset_player(
                        #[trigger] old(w).players@[j],
                    ),
                forall|j: int|
                    i <= j < w.players@.len() ==> w.players@[j] == old(w).players@[j],
            decreases w.players@.len() - i,
        {
            let mut p = w.players[i];
            p.vitality = Vitality::Alive;
            p.lives = Lives { count: 3 };
            p.score = Score { value: 0 };
            w.players.set(i, p);
            i = i + 1;
        }
        w.game_state = GameState::Playing;
        w.app_state = AppState::InGame;
    }
}

} // verus!
