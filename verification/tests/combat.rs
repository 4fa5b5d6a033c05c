use monster_arena::arena::Arena;
use monster_arena::components::{
    EnemyVariant, ItemPower, Lives, Movable, PlayerVariant, Score, Velocity, Vitality,
};
use monster_arena::entities::{Enemy, Fireball, Player};
use monster_arena::enemy::enemy_hit_player_system;
use monster_arena::game::game_over_system;
use monster_arena::input::{InputFrame, PlayerInput};
use monster_arena::player::{player_fireball_hit_enemy_system, player_respawn_system};
use monster_arena::states::GameState;
use monster_arena::world::{GameConfig, GameWorld};

fn test_world() -> GameWorld {
    let arena = Arena::new(800_000, 600_000);
    let mut w = GameWorld::new(arena, GameConfig { escape_penalty: false });
    w.next_id = 1000;
    w
}

fn make_player(id: u64, variant: PlayerVariant, x: i64, y: i64) -> Player {
    Player {
        id,
        variant,
        vitality: Vitality::Alive,
        lives: Lives { count: 3 },
        score: Score { value: 0 },
        x,
        y,
        item_power: ItemPower { diamond: false },
    }
}

fn make_enemy(id: u64, x: i64, y: i64) -> Enemy {
    Enemy {
        id,
        variant: EnemyVariant::Zombie,
        vitality: Vitality::Alive,
        x,
        y,
        velocity: Velocity { x: 50, y: 50 },
        movable: Movable { auto_despawn: true },
    }
}

fn make_fireball(id: u64, owner: PlayerVariant, x: i64, y: i64) -> Fireball {
    Fireball {
        id,
        owner,
        x,
        y,
        velocity: Velocity { x: 1000, y: 0 },
        movable: Movable { auto_despawn: true },
    }
}

#[test]
fn single_overlap_kills_once_and_scores_once() {
    let mut w = test_world();
    w.players.push(make_player(0, PlayerVariant::One, -200_000, 0));
    w.players.push(make_player(1, PlayerVariant::Two, -150_000, 10_000));
    // one enemy under the fireball, one far away
    w.enemies.push(make_enemy(10, 0, 0));
    w.enemies.push(make_enemy(11, 200_000, 200_000));
    w.fireballs.push(make_fireball(20, PlayerVariant::One, 10_000, 0));
    player_fireball_hit_enemy_system(&mut w);
    assert_eq!(w.enemies.len(), 1);
    assert_eq!(w.enemies[0].id, 11);
    assert_eq!(w.fireballs.len(), 0);
    assert_eq!(w.players[0].score.value, 1);
    assert_eq!(w.players[1].score.value, 0);
    assert_eq!(w.enemy_marks.len(), 1);
    assert_eq!(w.enemy_marks[0].variant, EnemyVariant::Zombie);
    assert_eq!(w.enemy_marks[0].location.x, 0);
    assert_eq!(w.enemy_marks[0].location.y, 0);
}

#[test]
fn two_overlapping_enemies_still_one_score_increment() {
    let mut w = test_world();
    w.players.push(make_player(0, PlayerVariant::One, -200_000, 0));
    w.players.push(make_player(1, PlayerVariant::Two, -150_000, 10_000));
    // both enemies overlap the single fireball
    w.enemies.push(make_enemy(10, 5_000, 0));
    w.enemies.push(make_enemy(11, -5_000, 0));
    w.fireballs.push(make_fireball(20, PlayerVariant::One, 0, 0));
    player_fireball_hit_enemy_system(&mut w);
    // the fireball consumes exactly the first enemy; the other survives
    assert_eq!(w.enemies.len(), 1);
    assert_eq!(w.enemies[0].id, 11);
    assert_eq!(w.fireballs.len(), 0);
    assert_eq!(w.players[0].score.value, 1);
    assert_eq!(w.enemy_marks.len(), 1);
}

#[test]
fn one_enemy_cannot_absorb_two_fireballs() {
    let mut w = test_world();
    w.players.push(make_player(0, PlayerVariant::One, -200_000, 0));
    w.players.push(make_player(1, PlayerVariant::Two, -150_000, 10_000));
    w.enemies.push(make_enemy(10, 0, 0));
    w.fireballs.push(make_fireball(20, PlayerVariant::One, 10_000, 0));
    w.fireballs.push(make_fireball(21, PlayerVariant::One, -10_000, 0));
    player_fireball_hit_enemy_system(&mut w);
    // first fireball consumes the enemy; the second finds nothing
    assert_eq!(w.enemies.len(), 0);
    assert_eq!(w.fireballs.len(), 1);
    assert_eq!(w.fireballs[0].id, 21);
    assert_eq!(w.players[0].score.value, 1);
}

#[test]
fn enemy_not_yet_on_screen_cannot_be_hit() {
    let mut w = test_world();
    w.players.push(make_player(0, PlayerVariant::One, -200_000, 0));
    w.players.push(make_player(1, PlayerVariant::Two, -150_000, 10_000));
    // enter margin is half width minus 20 pixels: 380 pixels
    w.enemies.push(make_enemy(10, 390_000, 0));
    w.fireballs.push(make_fireball(20, PlayerVariant::One, 390_000, 0));
    player_fireball_hit_enemy_system(&mut w);
    assert_eq!(w.enemies.len(), 1);
    assert_eq!(w.fireballs.len(), 1);
    assert_eq!(w.players[0].score.value, 0);
}

#[test]
fn degenerate_distance_zero_collision_registers() {
    let mut w = test_world();
    w.players.push(make_player(0, PlayerVariant::One, 0, 0));
    w.players.push(make_player(1, PlayerVariant::Two, -150_000, 10_000));
    // enemy spawned exactly on top of player one: distance zero
    w.enemies.push(make_enemy(10, 0, 0));
    enemy_hit_player_system(&mut w);
    assert_eq!(w.players[0].vitality, Vitality::Dead);
    assert_eq!(w.players[0].lives.count, 2);
    assert_eq!(w.players[1].vitality, Vitality::Alive);
    assert_eq!(w.player_marks.len(), 1);
    assert_eq!(w.player_marks[0].location.x, 0);
    assert_eq!(w.player_marks[0].location.y, 0);
}

#[test]
fn dead_player_is_skipped_by_enemy_contact() {
    let mut w = test_world();
    let mut p = make_player(0, PlayerVariant::One, 0, 0);
    p.vitality = Vitality::Dead;
    p.lives = Lives { count: 2 };
    w.players.push(p);
    w.players.push(make_player(1, PlayerVariant::Two, -150_000, 10_000));
    w.enemies.push(make_enemy(10, 0, 0));
    enemy_hit_player_system(&mut w);
    // no further life is lost and no marker appears
    assert_eq!(w.players[0].lives.count, 2);
    assert_eq!(w.player_marks.len(), 0);
}

#[test]
fn game_over_exactly_when_both_players_out() {
    let mut w = test_world();
    w.game_state = GameState::Playing;
    let mut p0 = make_player(0, PlayerVariant::One, 0, 0);
    p0.vitality = Vitality::Dead;
    p0.lives = Lives { count: 0 };
    let mut p1 = make_player(1, PlayerVariant::Two, -150_000, 10_000);
    p1.vitality = Vitality::Dead;
    p1.lives = Lives { count: 1 };
    w.players.push(p0);
    w.players.push(p1);
    game_over_system(&mut w);
    // player two still has a life: the round goes on
    assert_eq!(w.game_state, GameState::Playing);
    let mut q1 = w.players[1];
    q1.lives = Lives { count: 0 };
    w.players[1] = q1;
    game_over_system(&mut w);
    assert_eq!(w.game_state, GameState::GameOver);
}

#[test]
fn respawn_needs_a_life_left() {
    let mut w = test_world();
    let mut p0 = make_player(0, PlayerVariant::One, 0, 0);
    p0.vitality = Vitality::Dead;
    p0.lives = Lives { count: 0 };
    let mut p1 = make_player(1, PlayerVariant::Two, -150_000, 10_000);
    p1.vitality = Vitality::Dead;
    p1.lives = Lives { count: 2 };
    w.players.push(p0);
    w.players.push(p1);
    let mut restart = PlayerInput::idle();
    restart.restart = true;
    let inputs = InputFrame { one: restart, two: restart };
    player_respawn_system(&mut w, &inputs);
    // no lives left: the respawn input must never revive player one
    assert_eq!(w.players[0].vitality, Vitality::Dead);
    assert_eq!(w.players[0].lives.count, 0);
    // player two had lives left and comes back without losing one
    assert_eq!(w.players[1].vitality, Vitality::Alive);
    assert_eq!(w.players[1].lives.count, 2);
}
