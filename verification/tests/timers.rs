use monster_arena::timer::{
    DiamondPowerTimer, DiamondSpawnTimer, EnemySpawnTimer, GameTimer, TimerMode, TreeSpawnTimer,
    DIAMOND_POWER_TICKS, DIAMOND_SPAWN_TICKS, ENEMY_SPAWN_TICKS, TREE_SPAWN_TICKS,
};

#[test]
fn repeating_timer_fires_once_per_period() {
    let mut t = GameTimer::new(3, TimerMode::Repeating);
    assert!(!t.finished());
    t.tick();
    assert!(!t.finished());
    t.tick();
    assert!(!t.finished());
    t.tick();
    assert!(t.finished());
    t.tick();
    assert!(!t.finished());
    t.tick();
    t.tick();
    assert!(t.finished());
}

#[test]
fn once_timer_stays_finished() {
    let mut t = GameTimer::new(2, TimerMode::Once);
    t.tick();
    assert!(!t.finished());
    t.tick();
    assert!(t.finished());
    t.tick();
    assert!(t.finished());
    assert_eq!(t.elapsed, 2);
}

#[test]
fn reset_restarts_countdown_without_changing_mode() {
    let mut t = GameTimer::new(2, TimerMode::Once);
    t.tick();
    t.tick();
    assert!(t.finished());
    t.reset();
    assert!(!t.finished());
    assert_eq!(t.elapsed, 0);
    assert_eq!(t.mode, TimerMode::Once);
    t.tick();
    t.tick();
    assert!(t.finished());
}

#[test]
fn repeating_reset_mid_period() {
    let mut t = GameTimer::new(4, TimerMode::Repeating);
    t.tick();
    t.tick();
    t.reset();
    t.tick();
    t.tick();
    t.tick();
    assert!(!t.finished());
    t.tick();
    assert!(t.finished());
}

#[test]
fn resource_timer_defaults() {
    let e = EnemySpawnTimer::default();
    assert_eq!(e.timer.duration, ENEMY_SPAWN_TICKS);
    assert_eq!(e.timer.mode, TimerMode::Repeating);
    let d = DiamondSpawnTimer::default();
    assert_eq!(d.timer.duration, DIAMOND_SPAWN_TICKS);
    assert_eq!(d.timer.mode, TimerMode::Repeating);
    let p = DiamondPowerTimer::default();
    assert_eq!(p.timer.duration, DIAMOND_POWER_TICKS);
    assert_eq!(p.timer.mode, TimerMode::Once);
    let t = TreeSpawnTimer::default();
    assert_eq!(t.timer.duration, TREE_SPAWN_TICKS);
    assert_eq!(t.timer.mode, TimerMode::Repeating);
    assert_eq!(ENEMY_SPAWN_TICKS, 120);
    assert_eq!(DIAMOND_SPAWN_TICKS, 600);
    assert_eq!(DIAMOND_POWER_TICKS, 3600);
    assert_eq!(TREE_SPAWN_TICKS, 300);
}
