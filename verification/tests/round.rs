use monster_arena::arena::Arena;
use monster_arena::components::{
    ControlAction, EnemyVariant, ItemPower, ItemVariant, Lives, Movable, PlayerVariant, Score,
    Velocity, Vitality,
};
use monster_arena::enemy::{enemy_dead_spawn_system, enemy_spawn_system, variant_for_roll};
use monster_arena::entities::{Enemy, EnemyDeadLocation, Player, PowerUp};
use monster_arena::components::EntityLocation;
use monster_arena::game::restart_game_system;
use monster_arena::input::{InputFrame, PlayerInput};
use monster_arena::item::diamond_spawn_system;
use monster_arena::player::{
    player_diamond_power_system, player_hit_power_up_system, player_spawn_system,
};
use monster_arena::scenery::{tree_spawn_system, tree_spawn_system_init};
use monster_arena::states::{AppState, GameState};
use monster_arena::tick::tick;
use monster_arena::timer::DIAMOND_POWER_TICKS;
use monster_arena::world::{GameConfig, GameWorld};

fn test_world() -> GameWorld {
    let arena = Arena::new(800_000, 600_000);
    GameWorld::new(arena, GameConfig { escape_penalty: false })
}

fn make_enemy(id: u64, x: i64, y: i64) -> Enemy {
    Enemy {
        id,
        variant: EnemyVariant::Goblin,
        vitality: Vitality::Alive,
        x,
        y,
        velocity: Velocity { x: 50, y: 50 },
        movable: Movable { auto_despawn: true },
    }
}

#[test]
fn world_starts_at_the_main_menu_with_an_empty_pool() {
    let w = test_world();
    assert_eq!(w.app_state, AppState::MainMenu);
    assert_eq!(w.game_state, GameState::GameOver);
    assert_eq!(w.players.len(), 0);
    assert_eq!(w.enemies.len(), 0);
    assert_eq!(w.power_ups.len(), 0);
}

#[test]
fn players_spawn_alive_at_their_start_marks() {
    let mut w = test_world();
    player_spawn_system(&mut w);
    assert_eq!(w.players.len(), 2);
    assert_eq!(w.players[0].variant, PlayerVariant::One);
    assert_eq!(w.players[0].x, -200_000);
    assert_eq!(w.players[0].y, 0);
    assert_eq!(w.players[0].lives.count, 3);
    assert_eq!(w.players[0].score.value, 0);
    assert_eq!(w.players[0].vitality, Vitality::Alive);
    assert_eq!(w.players[1].variant, PlayerVariant::Two);
    assert_eq!(w.players[1].x, -150_000);
    assert_eq!(w.players[1].y, 10_000);
    assert_ne!(w.players[0].id, w.players[1].id);
}

#[test]
fn restart_resets_players_and_clears_the_pool() {
    let mut w = test_world();
    player_spawn_system(&mut w);
    for i in 0..2 {
        let mut p = w.players[i];
        p.vitality = Vitality::Dead;
        p.lives = Lives { count: 0 };
        p.score = Score { value: 7 };
        w.players[i] = p;
    }
    w.enemies.push(make_enemy(500, 0, 0));
    w.game_state = GameState::GameOver;
    w.next_id = 1000;
    restart_game_system(&mut w, true);
    assert_eq!(w.game_state, GameState::Playing);
    assert_eq!(w.app_state, AppState::InGame);
    assert_eq!(w.enemies.len(), 0);
    assert_eq!(w.fireballs.len(), 0);
    assert_eq!(w.enemy_corpses.len(), 0);
    assert_eq!(w.player_corpses.len(), 0);
    for i in 0..2 {
        assert_eq!(w.players[i].vitality, Vitality::Alive);
        assert_eq!(w.players[i].lives.count, 3);
        assert_eq!(w.players[i].score.value, 0);
    }
}

#[test]
fn restart_scenario_through_a_whole_tick() {
    let mut w = test_world();
    player_spawn_system(&mut w);
    for i in 0..2 {
        let mut p = w.players[i];
        p.vitality = Vitality::Dead;
        p.lives = Lives { count: 0 };
        p.score = Score { value: 3 };
        w.players[i] = p;
    }
    w.enemies.push(make_enemy(500, 0, 0));
    w.next_id = 1000;
    w.game_state = GameState::GameOver;
    let mut restart = PlayerInput::idle();
    restart.restart = true;
    let inputs = InputFrame { one: restart, two: PlayerInput::idle() };
    tick(&mut w, &inputs);
    assert_eq!(w.game_state, GameState::Playing);
    assert_eq!(w.enemies.len(), 0);
    for i in 0..2 {
        assert_eq!(w.players[i].vitality, Vitality::Alive);
        assert_eq!(w.players[i].lives.count, 3);
        assert_eq!(w.players[i].score.value, 0);
    }
}

#[test]
fn pause_toggles_only_outside_game_over() {
    let mut w = test_world();
    player_spawn_system(&mut w);
    w.game_state = GameState::Playing;
    w.app_state = AppState::InGame;
    let mut pause = PlayerInput::idle();
    pause.pause = true;
    let inputs = InputFrame { one: pause, two: PlayerInput::idle() };
    tick(&mut w, &inputs);
    assert_eq!(w.game_state, GameState::Paused);
    assert_eq!(w.app_state, AppState::MainMenu);
    tick(&mut w, &inputs);
    assert_eq!(w.game_state, GameState::Playing);
    assert_eq!(w.app_state, AppState::InGame);
    w.game_state = GameState::GameOver;
    tick(&mut w, &inputs);
    assert_eq!(w.game_state, GameState::GameOver);
}

#[test]
fn enemy_burst_spawns_into_the_right_band() {
    let mut w = test_world();
    enemy_spawn_system(&mut w);
    assert_eq!(w.enemies.len(), 10);
    for e in &w.enemies {
        assert_eq!(e.vitality, Vitality::Alive);
        assert!(e.movable.auto_despawn);
        // x inside [400, 700) pixels, y inside [-250, 250) pixels
        assert!(e.x >= 400_000 && e.x < 700_000);
        assert!(e.y >= -250_000 && e.y < 250_000);
        assert!(e.velocity.x >= 10 && e.velocity.x < 100);
        assert!(e.velocity.y >= 10 && e.velocity.y < 100);
    }
    // pool identifiers are pairwise fresh
    for i in 0..10 {
        for j in (i + 1)..10 {
            assert_ne!(w.enemies[i].id, w.enemies[j].id);
        }
    }
}

#[test]
fn variant_partition_is_exhaustive_and_fixed() {
    assert_eq!(variant_for_roll(0), EnemyVariant::Zombie);
    assert_eq!(variant_for_roll(3000), EnemyVariant::Zombie);
    assert_eq!(variant_for_roll(3001), EnemyVariant::Skelton);
    assert_eq!(variant_for_roll(7000), EnemyVariant::Skelton);
    assert_eq!(variant_for_roll(7001), EnemyVariant::Goblin);
    assert_eq!(variant_for_roll(9999), EnemyVariant::Goblin);
}

#[test]
fn tree_bursts_fill_their_bands() {
    let mut w = test_world();
    tree_spawn_system_init(&mut w);
    assert_eq!(w.trees.len(), 40);
    for t in &w.trees {
        assert!(t.x >= -800_000 + 5_000 && t.x < 400_000 - 5_000);
        assert!(t.y >= -600_000 + 5_000 && t.y < 300_000 - 5_000);
        assert!(t.movable.auto_despawn);
    }
    tree_spawn_system(&mut w);
    assert_eq!(w.trees.len(), 44);
    for t in &w.trees[40..] {
        assert!(t.x >= 400_000 && t.x < 700_000);
        assert!(t.y >= -250_000 && t.y < 250_000);
    }
}

#[test]
fn corpse_spawn_consumes_every_marker() {
    let mut w = test_world();
    w.next_id = 50;
    w.enemy_marks.push(EnemyDeadLocation {
        id: 1,
        variant: EnemyVariant::Skelton,
        location: EntityLocation { x: 12_000, y: -7_000, z: 0 },
    });
    w.enemy_marks.push(EnemyDeadLocation {
        id: 2,
        variant: EnemyVariant::Goblin,
        location: EntityLocation { x: 1_000, y: 2_000, z: 0 },
    });
    enemy_dead_spawn_system(&mut w);
    assert_eq!(w.enemy_marks.len(), 0);
    assert_eq!(w.enemy_corpses.len(), 2);
    assert_eq!(w.enemy_corpses[0].variant, EnemyVariant::Skelton);
    assert_eq!(w.enemy_corpses[0].x, 12_000);
    assert_eq!(w.enemy_corpses[0].y, -7_000);
    assert_eq!(w.enemy_corpses[1].variant, EnemyVariant::Goblin);
    assert!(w.enemy_corpses[0].movable.auto_despawn);
    assert_ne!(w.enemy_corpses[0].id, w.enemy_corpses[1].id);
}

#[test]
fn pickup_sets_the_buff_at_once_and_resets_the_window() {
    let mut w = test_world();
    player_spawn_system(&mut w);
    w.diamond_power_timer.timer.tick();
    w.power_ups.push(PowerUp { id: 40, variant: ItemVariant::Diamond, x: -200_000, y: 0 });
    player_hit_power_up_system(&mut w);
    assert!(w.players[0].item_power.diamond);
    assert!(!w.players[1].item_power.diamond);
    assert_eq!(w.power_ups.len(), 0);
    assert_eq!(w.diamond_power_timer.timer.elapsed, 0);
}

#[test]
fn pickup_needs_overlap_and_a_live_player() {
    let mut w = test_world();
    player_spawn_system(&mut w);
    // far from both players: nobody picks it up
    w.power_ups.push(PowerUp { id: 40, variant: ItemVariant::Diamond, x: 200_000, y: 0 });
    player_hit_power_up_system(&mut w);
    assert!(!w.players[0].item_power.diamond);
    assert_eq!(w.power_ups.len(), 1);
}

#[test]
fn buff_clears_exactly_when_the_window_finishes() {
    let mut w = test_world();
    player_spawn_system(&mut w);
    let mut p = w.players[0];
    p.item_power = ItemPower { diamond: true };
    w.players[0] = p;
    w.power_ups.clear();
    // one tick short of the window: the buff stays
    for _ in 0..(DIAMOND_POWER_TICKS - 1) {
        w.diamond_power_timer.timer.tick();
    }
    player_diamond_power_system(&mut w);
    assert!(w.players[0].item_power.diamond);
    // the finishing tick clears it
    w.diamond_power_timer.timer.tick();
    player_diamond_power_system(&mut w);
    assert!(!w.players[0].item_power.diamond);
}

#[test]
fn diamond_spawner_is_exclusive() {
    let mut w = test_world();
    player_spawn_system(&mut w);
    // cadence has not fired: no spawn
    diamond_spawn_system(&mut w);
    assert_eq!(w.power_ups.len(), 0);
    // fire the repeating cadence by ticking through one full period
    for _ in 0..600 {
        w.diamond_spawn_timer.timer.tick();
    }
    assert!(w.diamond_spawn_timer.timer.finished());
    // a player holds the buff: spawn suppressed
    let mut p = w.players[0];
    p.item_power = ItemPower { diamond: true };
    w.players[0] = p;
    diamond_spawn_system(&mut w);
    assert_eq!(w.power_ups.len(), 0);
    // buff gone: the spawn goes through, inside the margins
    let mut q = w.players[0];
    q.item_power = ItemPower { diamond: false };
    w.players[0] = q;
    diamond_spawn_system(&mut w);
    assert_eq!(w.power_ups.len(), 1);
    assert_eq!(w.power_ups[0].variant, ItemVariant::Diamond);
    assert!(w.power_ups[0].x >= -380_000 && w.power_ups[0].x < 380_000);
    assert!(w.power_ups[0].y >= -280_000 && w.power_ups[0].y < 280_000);
    // one already present: no second spawn even though the cadence fired
    diamond_spawn_system(&mut w);
    assert_eq!(w.power_ups.len(), 1);
}

#[test]
fn playing_ticks_keep_lives_and_scores_in_range() {
    let mut w = test_world();
    player_spawn_system(&mut w);
    enemy_spawn_system(&mut w);
    tree_spawn_system_init(&mut w);
    w.game_state = GameState::Playing;
    w.app_state = AppState::InGame;
    let mut inp = PlayerInput::idle();
    inp.right = true;
    inp.fire = true;
    let inputs = InputFrame { one: inp, two: PlayerInput::idle() };
    for _ in 0..300 {
        tick(&mut w, &inputs);
        for p in &w.players {
            if p.vitality == Vitality::Alive {
                assert!(p.lives.count >= 1);
            }
        }
    }
}

#[test]
fn paused_ticks_freeze_the_entity_pool() {
    let mut w = test_world();
    player_spawn_system(&mut w);
    enemy_spawn_system(&mut w);
    w.game_state = GameState::Paused;
    w.app_state = AppState::MainMenu;
    let before_enemies: Vec<u64> = w.enemies.iter().map(|e| e.id).collect();
    let before_next = w.next_id;
    for _ in 0..50 {
        tick(&mut w, &InputFrame::idle());
    }
    assert_eq!(w.game_state, GameState::Paused);
    let after_enemies: Vec<u64> = w.enemies.iter().map(|e| e.id).collect();
    assert_eq!(before_enemies, after_enemies);
    assert_eq!(w.next_id, before_next);
}

#[test]
fn enemy_trickle_fires_on_the_spawn_cadence() {
    let mut w = test_world();
    player_spawn_system(&mut w);
    w.game_state = GameState::Playing;
    w.app_state = AppState::InGame;
    let inputs = InputFrame::idle();
    // the repeating cadence is two seconds: 119 playing ticks spawn nothing
    for _ in 0..119 {
        tick(&mut w, &inputs);
        assert_eq!(w.enemies.len(), 0);
    }
    // the 120th tick fires the cadence and a full burst appears
    tick(&mut w, &inputs);
    assert_eq!(w.enemies.len(), 10);
}

#[test]
fn directional_actions_map_to_unit_axes() {
    assert_eq!(ControlAction::Up.direction(), Some((0, 1)));
    assert_eq!(ControlAction::Down.direction(), Some((0, -1)));
    assert_eq!(ControlAction::Left.direction(), Some((-1, 0)));
    assert_eq!(ControlAction::Right.direction(), Some((1, 0)));
    assert_eq!(ControlAction::Fire.direction(), None);
    assert_eq!(ControlAction::Pause.direction(), None);
    assert_eq!(ControlAction::AxisMove.direction(), None);
    assert_eq!(ControlAction::Restart.direction(), None);
}
