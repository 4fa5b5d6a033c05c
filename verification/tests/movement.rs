use monster_arena::arena::Arena;
use monster_arena::components::{
    EnemyVariant, ItemPower, Lives, Movable, PlayerVariant, Score, Velocity, Vitality,
};
use monster_arena::entities::{Enemy, Fireball, Player};
use monster_arena::enemy::enemy_movement_system;
use monster_arena::input::{InputFrame, PlayerInput};
use monster_arena::player::{
    fireball_movement_system, player_confinement_system, player_fire_system,
    player_movement_system,
};
use monster_arena::world::{GameConfig, GameWorld};

fn test_world(escape_penalty: bool) -> GameWorld {
    let arena = Arena::new(800_000, 600_000);
    let mut w = GameWorld::new(arena, GameConfig { escape_penalty });
    w.next_id = 1000;
    w
}

fn make_player(id: u64, variant: PlayerVariant, x: i64, y: i64) -> Player {
    Player {
        id,
        variant,
        vitality: Vitality::Alive,
        lives: Lives { count: 3 },
        score: Score { value: 0 },
        x,
        y,
        item_power: ItemPower { diamond: false },
    }
}

fn make_enemy(id: u64, x: i64, y: i64, vx: i64, vy: i64) -> Enemy {
    Enemy {
        id,
        variant: EnemyVariant::Zombie,
        vitality: Vitality::Alive,
        x,
        y,
        velocity: Velocity { x: vx, y: vy },
        movable: Movable { auto_despawn: true },
    }
}

#[test]
fn drifting_enemy_despawns_exactly_past_left_margin() {
    // arena 800 x 600 pixels, enemy just right of centre at x = 410 with
    // drift factor 0.05: each tick moves it 0.05 * 500/2 / 60 + 1 pixels
    // left, i.e. 1208 thousandths; the despawn line is -420 pixels.
    let mut w = test_world(false);
    w.enemies.push(make_enemy(10, 410_000, 0, 50, 50));
    // after 687 passes: x = 410000 - 687 * 1208 = -419896, still on screen
    for _ in 0..687 {
        enemy_movement_system(&mut w);
        assert_eq!(w.enemies.len(), 1);
    }
    assert_eq!(w.enemies[0].x, 410_000 - 687 * 1208);
    assert_eq!(w.enemies[0].y, 0);
    // the very next pass takes it below -420000 and despawns it
    enemy_movement_system(&mut w);
    assert_eq!(w.enemies.len(), 0);
}

#[test]
fn escape_penalty_costs_each_player_one_point_clamped() {
    let mut w = test_world(true);
    let mut p0 = make_player(0, PlayerVariant::One, -200_000, 0);
    p0.score = Score { value: 2 };
    let p1 = make_player(1, PlayerVariant::Two, -150_000, 10_000);
    w.players.push(p0);
    w.players.push(p1);
    // already past the despawn line after one step
    w.enemies.push(make_enemy(10, -421_000, 0, 50, 0));
    enemy_movement_system(&mut w);
    assert_eq!(w.enemies.len(), 0);
    assert_eq!(w.players[0].score.value, 1);
    // player two was at zero and stays there: never negative
    assert_eq!(w.players[1].score.value, 0);
}

#[test]
fn escape_without_penalty_leaves_scores_alone() {
    let mut w = test_world(false);
    let mut p0 = make_player(0, PlayerVariant::One, -200_000, 0);
    p0.score = Score { value: 2 };
    let p1 = make_player(1, PlayerVariant::Two, -150_000, 10_000);
    w.players.push(p0);
    w.players.push(p1);
    w.enemies.push(make_enemy(10, -421_000, 0, 50, 0));
    enemy_movement_system(&mut w);
    assert_eq!(w.enemies.len(), 0);
    assert_eq!(w.players[0].score.value, 2);
    assert_eq!(w.players[1].score.value, 0);
}

#[test]
fn enemy_weave_stays_within_one_nudge_per_player() {
    let mut w = test_world(false);
    w.players.push(make_player(0, PlayerVariant::One, -200_000, 100_000));
    w.players.push(make_player(1, PlayerVariant::Two, -150_000, 100_000));
    // weave step at factor 0.05 is 50 * 25 / 6 = 208 thousandths
    w.enemies.push(make_enemy(10, 100_000, 0, 50, 50));
    enemy_movement_system(&mut w);
    assert_eq!(w.enemies.len(), 1);
    assert_eq!(w.enemies[0].x, 100_000 - 1208);
    assert!(w.enemies[0].y.abs() <= 2 * 208);
}

#[test]
fn player_moves_one_step_per_direction_unit() {
    let mut w = test_world(false);
    w.players.push(make_player(0, PlayerVariant::One, 0, 0));
    w.players.push(make_player(1, PlayerVariant::Two, -150_000, 10_000));
    let mut right_up = PlayerInput::idle();
    right_up.right = true;
    right_up.up = true;
    let inputs = InputFrame { one: right_up, two: PlayerInput::idle() };
    player_movement_system(&mut w, &inputs);
    // one full unit per axis: 500 px/s over a sixtieth of a second
    assert_eq!(w.players[0].x, 8333);
    assert_eq!(w.players[0].y, 8333);
    assert_eq!(w.players[1].x, -150_000);
    assert_eq!(w.players[1].y, 10_000);
}

#[test]
fn analogue_axis_adds_to_digital_direction() {
    let mut w = test_world(false);
    w.players.push(make_player(0, PlayerVariant::One, 0, 0));
    w.players.push(make_player(1, PlayerVariant::Two, -150_000, 10_000));
    let mut inp = PlayerInput::idle();
    inp.left = true;
    inp.axis_engaged = true;
    inp.axis_x = -500;
    inp.axis_y = 250;
    let inputs = InputFrame { one: inp, two: PlayerInput::idle() };
    player_movement_system(&mut w, &inputs);
    // x direction -1500 thousandths, y direction 250 thousandths
    assert_eq!(w.players[0].x, -(1500 * 8333 / 1000));
    assert_eq!(w.players[0].y, 250 * 8333 / 1000);
}

#[test]
fn confinement_clamps_players_into_the_arena() {
    let mut w = test_world(false);
    w.players.push(make_player(0, PlayerVariant::One, 500_000, -500_000));
    w.players.push(make_player(1, PlayerVariant::Two, 0, 0));
    player_confinement_system(&mut w);
    // margin is the 32 pixel sprite plus 5 pixels on each edge
    assert_eq!(w.players[0].x, 400_000 - 37_000);
    assert_eq!(w.players[0].y, -(300_000 - 37_000));
    assert_eq!(w.players[1].x, 0);
    assert_eq!(w.players[1].y, 0);
}

#[test]
fn live_players_fire_from_the_muzzle_offset() {
    let mut w = test_world(false);
    w.players.push(make_player(0, PlayerVariant::One, -200_000, 5_000));
    let mut dead = make_player(1, PlayerVariant::Two, -150_000, 10_000);
    dead.vitality = Vitality::Dead;
    dead.lives = Lives { count: 2 };
    w.players.push(dead);
    let mut fire = PlayerInput::idle();
    fire.fire = true;
    let inputs = InputFrame { one: fire, two: fire };
    player_fire_system(&mut w, &inputs);
    // only the live player gets a shot off
    assert_eq!(w.fireballs.len(), 1);
    assert_eq!(w.fireballs[0].owner, PlayerVariant::One);
    assert_eq!(w.fireballs[0].x, -200_000 + 58_000);
    assert_eq!(w.fireballs[0].y, 5_000);
    assert!(w.fireballs[0].movable.auto_despawn);
}

#[test]
fn fireball_flies_right_and_despawns_off_screen() {
    let mut w = test_world(false);
    w.fireballs.push(Fireball {
        id: 20,
        owner: PlayerVariant::One,
        x: 390_000,
        y: 0,
        velocity: Velocity { x: 1000, y: 0 },
        movable: Movable { auto_despawn: true },
    });
    fireball_movement_system(&mut w);
    // full speed step: 1000 * 25/3 + 500 = 8833 thousandths per tick
    assert_eq!(w.fireballs.len(), 1);
    assert_eq!(w.fireballs[0].x, 390_000 + 8833);
    // the next step carries it past half the arena width
    fireball_movement_system(&mut w);
    assert_eq!(w.fireballs.len(), 0);
}
