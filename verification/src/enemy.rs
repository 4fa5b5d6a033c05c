//! Enemy systems: the spawn bursts from the right edge, leftward drift
//! with the random vertical weave, body contact with players, and the
//! enemy corpse lifecycle.

use vstd::prelude::*;
use crate::arena::{ENEMY_HALF_SIZE, PLAYER_HALF_SIZE, SPAWN_Y_MARGIN, COORD_LIMIT};
use crate::collision::{circles_overlap, spec_abs, spec_circles_overlap};
use crate::components::{
    EntityLocation, EnemyVariant, Lives, Movable, Score, Velocity, Vitality,
};
use crate::entities::{coord_ok, Enemy, EnemyDead, EnemyDeadLocation, Player, PlayerDeadLocation};
use crate::motion::{drift_step, shift_coord, spec_clamp, spec_drift_step, spec_weave_step, weave_step};
use crate::rng::random_in_range;
use crate::world::GameWorld;
use crate::{NUMBER_OF_ENEMIES, SCROLL_X_VELOCITY, SCROLL_Y_VELOCITY};

verus! {

/// The canonical variant partition of a uniform roll in `[0, 10000)`,
/// fixed in the proportions three-tenths zombie, four-tenths skeleton,
/// three-tenths goblin.
pub open spec fn spec_variant_for_roll(roll: int) -> EnemyVariant {
    if roll <= 3000 {
        EnemyVariant::Zombie
    } else if roll <= 7000 {
        EnemyVariant::Skelton
    } else {
        EnemyVariant::Goblin
    }
}

/// Picks the enemy variant a spawn roll selects.
pub fn variant_for_roll(roll: i64) -> (r: EnemyVariant)
    ensures
        r == spec_variant_for_roll(roll as int),
{
    if roll <= 3000 {
        EnemyVariant::Zombie
    } else if roll <= 7000 {
        EnemyVariant::Skelton
    } else {
        EnemyVariant::Goblin
    }
}

/// What holds of the `t`-th enemy of a spawn burst, whatever the random
/// draws returned: combat-active, auto-despawning, placed in the spawn
/// band off the right edge, with a drift factor inside the spawn range.
pub open spec fn spec_spawned_enemy_ok(pre: GameWorld, e: Enemy, t: int) -> bool {
    &&& e.id == pre.next_id + t
    &&& e.vitality == Vitality::Alive
    &&& e.movable.auto_despawn
    &&& pre.arena.spec_half_width() <= e.x < pre.arena.width - pre.arena.width / 8
    &&& -pre.arena.spec_half_height() + SPAWN_Y_MARGIN <= e.y < pre.arena.spec_half_height()
        - SPAWN_Y_MARGIN
    &&& 10 <= e.velocity.x < 100
    &&& 10 <= e.velocity.y < 100
}

/// One spawn burst: the existing enemies keep their places and a full
/// batch of fresh, well-placed enemies is appended.
pub open spec fn spec_enemy_batch_spawned(pre: GameWorld, post: GameWorld) -> bool {
    &&& post.enemies@.len() == pre.enemies@.len() + NUMBER_OF_ENEMIES
    &&& forall|k: int|
        0 <= k < pre.enemies@.len() ==> post.enemies@[k] == pre.enemies@[k]
    &&& forall|k: int|
        pre.enemies@.len() <= k < post.enemies@.len() ==> spec_spawned_enemy_ok(
            pre,
            #[trigger] post.enemies@[k],
            k - pre.enemies@.len(),
        )
    &&& post.next_id == pre.next_id + NUMBER_OF_ENEMIES
    &&& post == (GameWorld { enemies: post.enemies, next_id: post.next_id, ..pre })
}

/// Spawns one burst of enemies in the band off the right edge, each with
/// a random variant, position and drift speed.
pub fn enemy_spawn_system(w: &mut GameWorld)
    requires
        old(w).wf(),
        old(w).next_id + NUMBER_OF_ENEMIES <= u64::MAX,
    ensures
        final(w).wf(),
        spec_enemy_batch_spawned(*old(w), *final(w)),
{
    let half_w = w.arena.half_width();
    let half_h = w.arena.half_height();
    let band_hi: i64 = w.arena.width - w.arena.width / 8;
    assert(half_w < band_hi);
    assert(-half_h + SPAWN_Y_MARGIN < half_h - SPAWN_Y_MARGIN);
    let count: usize = NUMBER_OF_ENEMIES as usize;
    let mut t: usize = 0;
    while t < count
        invariant
            0 <= t <= count,
            count == NUMBER_OF_ENEMIES,
            old(w).wf(),
            old(w).next_id + NUMBER_OF_ENEMIES <= u64::MAX,
            half_w == old(w).arena.spec_half_width(),
            half_h == old(w).arena.spec_half_height(),
            band_hi == old(w).arena.width - old(w).arena.width / 8,
            half_w < band_hi,
            -half_h + SPAWN_Y_MARGIN < half_h - SPAWN_Y_MARGIN,
            *w == (GameWorld { enemies: w.enemies, next_id: w.next_id, ..*old(w) }),
            w.next_id == old(w).next_id + t,
            w.enemies@.len() == old(w).enemies@.len() + t,
            forall|k: int|
                0 <= k < old(w).enemies@.len() ==> w.enemies@[k] == old(w).enemies@[k],
            forall|k: int|
                old(w).enemies@.len() <= k < w.enemies@.len() ==> spec_spawned_enemy_ok(
                    *old(w),
                    #[trigger] w.enemies@[k],
                    k - old(w).enemies@.len(),
                ),
            forall|k: int| 0 <= k < w.enemies@.len() ==> (#[trigger] w.enemies@[k]).wf(),
        decreases count - t,
    {
        let roll = random_in_range(0, 10_000);
        let variant = variant_for_roll(roll);
        let x = random_in_range(half_w, band_hi);
        let y = random_in_range(-half_h + SPAWN_Y_MARGIN, half_h - SPAWN_Y_MARGIN);
        let vx = random_in_range(10, 100);
        let vy = random_in_range(10, 100);
        let id = w.next_id;
        w.next_id = w.next_id + 1;
        let e = Enemy {
            id,
            variant,
            vitality: Vitality::Alive,
            x,
            y,
            velocity: Velocity { x: vx, y: vy },
            movable: Movable { auto_despawn: true },
        };
        w.enemies.push(e);
        t = t + 1;
    }
}

/// Spawns a fresh burst on the debug respawn input.
pub fn respawn_enemy_system(w: &mut GameWorld, respawn_pressed: bool)
    requires
        old(w).wf(),
        old(w).next_id + NUMBER_OF_ENEMIES <= u64::MAX,
    ensures
        final(w).wf(),
        respawn_pressed ==> spec_enemy_batch_spawned(*old(w), *final(w)),
        !respawn_pressed ==> *final(w) == *old(w),
{
    if respawn_pressed {
        enemy_spawn_system(w);
    }
}

/// Advances the enemy spawn cadence by one tick.
pub fn enemy_spawn_timer_tick_system(w: &mut GameWorld)
    requires
        old(w).wf(),
    ensures
        final(w).wf(),
        final(w).enemy_spawn_timer.timer == crate::timer::GameTimer::spec_ticked(
            old(w).enemy_spawn_timer.timer,
        ),
        *final(w) == (GameWorld {
            enemy_spawn_timer: final(w).enemy_spawn_timer,
            ..*old(w)
        }),
{
    w.enemy_spawn_timer.timer.tick();
}

/// Spawns a burst exactly on the ticks the spawn cadence fires.
pub fn enemies_spawn_over_time_system(w: &mut GameWorld)
    requires
        old(w).wf(),
        old(w).next_id + NUMBER_OF_ENEMIES <= u64::MAX,
    ensures
        final(w).wf(),
        old(w).enemy_spawn_timer.timer.spec_finished() ==> spec_enemy_batch_spawned(
            *old(w),
            *final(w),
        ),
        !old(w).enemy_spawn_timer.timer.spec_finished() ==> *final(w) == *old(w),
{
    if w.enemy_spawn_timer.timer.finished() {
        enemy_spawn_system(w);
    }
}

/// Where one tick of drift takes an enemy horizontally; the vertical
/// weave is random and bounded separately.
pub open spec fn spec_moved_enemy_x(e: Enemy) -> Enemy {
    Enemy {
        x: spec_clamp(
            e.x - spec_drift_step(e.velocity.x as int),
            -COORD_LIMIT as int,
            COORD_LIMIT as int,
        ) as i64,
        ..e
    }
}

/// Whether an enemy is still on screen after its drift: an auto-despawning
/// enemy whose x falls past the left margin is removed, unconditionally.
pub open spec fn spec_enemy_kept(e: Enemy, w: GameWorld) -> bool {
    !(e.movable.auto_despawn && spec_moved_enemy_x(e).x < w.arena.spec_despawn_x())
}

/// The enemy list after one drift pass, vertical weave not yet applied:
/// every enemy advanced left, the escaped ones removed, order kept.
pub open spec fn spec_enemies_after_drift(s: Seq<Enemy>, w: GameWorld) -> Seq<Enemy>
    decreases s.len(),
{
    if s.len() == 0 {
        Seq::empty()
    } else {
        let prev = spec_enemies_after_drift(s.drop_last(), w);
        if spec_enemy_kept(s.last(), w) {
            prev.push(spec_moved_enemy_x(s.last()))
        } else {
            prev
        }
    }
}

/// How many enemies escape off the left edge in one drift pass.
pub open spec fn spec_escapes(s: Seq<Enemy>, w: GameWorld) -> int
    decreases s.len(),
{
    if s.len() == 0 {
        0
    } else {
        spec_escapes(s.drop_last(), w) + (if spec_enemy_kept(s.last(), w) {
            0int
        } else {
            1int
        })
    }
}

/// How an enemy that survived the pass relates to its drifted position:
/// everything but y is exact, and y moved by at most one bounded weave
/// nudge per player — none at all when no player exists.
pub open spec fn spec_weave_within(moved: Enemy, actual: Enemy, players: int) -> bool {
    &&& actual == (Enemy { y: actual.y, ..moved })
    &&& spec_abs(actual.y - moved.y) <= players * spec_weave_step(moved.velocity.y as int)
    &&& players == 0 ==> actual.y == moved.y
    &&& coord_ok(actual.y as int)
}

/// A score after `k` escape penalties, clamped at zero.
pub open spec fn spec_score_minus(s: u32, k: int) -> u32 {
    if s - k >= 0 {
        (s - k) as u32
    } else {
        0
    }
}

/// Subtract escape penalties from a score, clamping at zero.
fn score_sub(s: u32, k: usize) -> (r: u32)
    ensures
        r == spec_score_minus(s, k as int),
{
    if (k as u64) >= (s as u64) {
        0
    } else {
        s - (k as u32)
    }
}

/// Enemy drift and despawn: every enemy moves left by its exact step and
/// weaves vertically at random, biased around each player's height; any
/// auto-despawning enemy past the left margin is removed this pass. When
/// the escape penalty is configured, each escape costs both players one
/// point, clamped at zero.
#[verifier::rlimit(100)]
pub fn enemy_movement_system(w: &mut GameWorld)
    requires
        old(w).wf(),
    ensures
        final(w).wf(),
        final(w).enemies@.len() == spec_enemies_after_drift(old(w).enemies@, *old(w)).len(),
        final(w).enemies@.len() <= old(w).enemies@.len(),
        forall|k: int|
            0 <= k < final(w).enemies@.len() ==> spec_weave_within(
                spec_enemies_after_drift(old(w).enemies@, *old(w))[k],
                #[trigger] final(w).enemies@[k],
                old(w).players@.len() as int,
            ),
        final(w).players@.len() == old(w).players@.len(),
        old(w).config.escape_penalty ==> forall|i: int|
            0 <= i < old(w).players@.len() ==> final(w).players@[i] == (Player {
                score: Score {
                    value: spec_score_minus(
                        (#[trigger] old(w).players@[i]).score.value,
                        spec_escapes(old(w).enemies@, *old(w)),
                    ),
                },
                ..old(w).players@[i]
            }),
        !old(w).config.escape_penalty ==> final(w).players@ == old(w).players@,
        *final(w) == (GameWorld {
            enemies: final(w).enemies,
            players: final(w).players,
            ..*old(w)
        }),
{
    let margin = w.arena.despawn_x();
    let ghost es = old(w).enemies@;
    let n_en = w.enemies.len();
    let np = w.players.len();
    let mut out: Vec<Enemy> = Vec::new();
    let mut escapes: usize = 0;
    let mut i: usize = 0;
    while i < n_en
        invariant
            0 <= i <= n_en,
            old(w).wf(),
            *w == *old(w),
            es == old(w).enemies@,
            n_en == es.len(),
            np == old(w).players@.len(),
            margin == old(w).arena.spec_despawn_x(),
            out@.len() == spec_enemies_after_drift(es.subrange(0, i as int), *old(w)).len(),
            out@.len() <= i,
            forall|k: int|
                0 <= k < out@.len() ==> spec_weave_within(
                    spec_enemies_after_drift(es.subrange(0, i as int), *old(w))[k],
                    #[trigger] out@[k],
                    np as int,
                ),
            forall|k: int| 0 <= k < out@.len() ==> (#[trigger] out@[k]).wf(),
            forall|k: int| 0 <= k < out@.len() ==> (#[trigger] out@[k]).id < old(w).next_id,
            escapes == spec_escapes(es.subrange(0, i as int), *old(w)),
            escapes <= i,
        decreases n_en - i,
    {
        let e = w.enemies[i];
        let mut m = e;
        m.x = shift_coord(e.x, -drift_step(e.velocity.x));
        let ghost drifted = spec_moved_enemy_x(e);
        assert(m == drifted);
        let wstep = weave_step(e.velocity.y);
        let mut q: usize = 0;
        while q < np
            invariant
                0 <= q <= np,
                old(w).wf(),
                *w == *old(w),
                np == old(w).players@.len(),
                wstep == spec_weave_step(drifted.velocity.y as int),
                0 <= wstep <= 43_666,
                m == (Enemy { y: m.y, ..drifted }),
                spec_abs(m.y - drifted.y) <= q * wstep,
                coord_ok(m.y as int),
            decreases np - q,
        {
            let flip = random_in_range(0, 10_000);
            if flip > 5000 {
                let py = w.players[q].y;
                if py > m.y {
                    m.y = shift_coord(m.y, wstep);
                } else {
                    m.y = shift_coord(m.y, -wstep);
                }
            }
            proof {
                assert(((q as int) + 1) * (wstep as int) == (q as int) * (wstep as int)
                    + (wstep as int)) by (nonlinear_arith);
            }
            q = q + 1;
        }
        proof {
            assert(es.subrange(0, i + 1).drop_last() =~= es.subrange(0, i as int));
            assert(es.subrange(0, i + 1).last() == es[i as int]);
        }
        if !(m.movable.auto_despawn && m.x < margin) {
            assert(spec_enemy_kept(e, *old(w)));
            out.push(m);
        } else {
            assert(!spec_enemy_kept(e, *old(w)));
            escapes = escapes + 1;
        }
        i = i + 1;
    }
    proof {
        assert(es.subrange(0, n_en as int) =~= es);
    }
    w.enemies = out;
    if w.config.escape_penalty {
        let mut p_i: usize = 0;
        while p_i < w.players.len()
            invariant
                0 <= p_i <= w.players@.len(),
                old(w).wf(),
                w.players@.len() == old(w).players@.len(),
                escapes == spec_escapes(es, *old(w)),
                es == old(w).enemies@,
                *w == (GameWorld {
                    enemies: w.enemies,
                    players: w.players,
                    ..*old(w)
                }),
                w.enemies@.len() == spec_enemies_after_drift(es, *old(w)).len(),
                w.enemies@.len() <= es.len(),
                forall|k: int|
                    0 <= k < w.enemies@.len() ==> spec_weave_within(
                        spec_enemies_after_drift(es, *old(w))[k],
                        #[trigger] w.enemies@[k],
                        old(w).players@.len() as int,
                    ),
                forall|k: int| 0 <= k < w.enemies@.len() ==> (#[trigger] w.enemies@[k]).wf(),
                forall|k: int|
                    0 <= k < w.enemies@.len() ==> (#[trigger] w.enemies@[k]).id < old(
                        w,
                    ).next_id,
                forall|j: int|
                    0 <= j < p_i ==> w.players@[j] == (Player {
                        score: Score {
                            value: spec_score_minus(
                                (#[trigger] old(w).players@[j]).score.value,
                                spec_escapes(old(w).enemies@, *old(w)),
                            ),
                        },
                        ..old(w).players@[j]
                    }),
                forall|j: int|
                    p_i <= j < w.players@.len() ==> w.players@[j] == old(w).players@[j],
            decreases w.players@.len() - p_i,
        {
            let mut p = w.players[p_i];
            p.score = Score { value: score_sub(p.score.value, escapes) };
            w.players.set(p_i, p);
            p_i = p_i + 1;
        }
    }
}

/// Whether any enemy's body overlaps this player.
pub open spec fn spec_enemy_contact(p: Player, es: Seq<Enemy>) -> bool {
    exists|j: int|
        0 <= j < es.len() && spec_circles_overlap(
            p.x as int,
            p.y as int,
            (#[trigger] es[j]).x as int,
            es[j].y as int,
            PLAYER_HALF_SIZE as int,
            ENEMY_HALF_SIZE as int,
        )
}

/// Whether this player dies this tick: alive with an enemy body on them.
pub open spec fn spec_struck(p: Player, es: Seq<Enemy>) -> bool {
    p.vitality == Vitality::Alive && spec_enemy_contact(p, es)
}

/// How a struck player comes out of the pass: dead, one life down.
pub open spec fn spec_struck_player(p: Player) -> Player {
    Player {
        vitality: Vitality::Dead,
        lives: Lives { count: (p.lives.count - 1) as u8 },
        ..p
    }
}

/// The death marker a struck player leaves behind.
pub open spec fn spec_player_death_mark(p: Player, id: u64) -> PlayerDeadLocation {
    PlayerDeadLocation { id, location: EntityLocation { x: p.x, y: p.y, z: 0 } }
}

/// The death markers this pass appends, in player order, with identifiers
/// issued in order.
pub open spec fn spec_player_death_marks(w: GameWorld) -> Seq<PlayerDeadLocation> {
    let after_one = if w.players@.len() >= 1 && spec_struck(w.players@[0], w.enemies@) {
        Seq::<PlayerDeadLocation>::empty().push(
            spec_player_death_mark(w.players@[0], w.next_id),
        )
    } else {
        Seq::<PlayerDeadLocation>::empty()
    };
    if w.players@.len() >= 2 && spec_struck(w.players@[1], w.enemies@) {
        after_one.push(
            spec_player_death_mark(w.players@[1], (w.next_id + after_one.len()) as u64),
        )
    } else {
        after_one
    }
}

/// Whether any enemy body overlaps the player right now.
fn enemy_contact(w: &GameWorld, p: &Player) -> (r: bool)
    requires
        w.wf(),
        p.wf(),
    ensures
        r == spec_enemy_contact(*p, w.enemies@),
{
    let mut j: usize = 0;
    while j < w.enemies.len()
        invariant
            0 <= j <= w.enemies@.len(),
            w.wf(),
            p.wf(),
            forall|j2: int|
                0 <= j2 < j ==> !spec_circles_overlap(
                    p.x as int,
                    p.y as int,
                    (#[trigger] w.enemies@[j2]).x as int,
                    w.enemies@[j2].y as int,
                    PLAYER_HALF_SIZE as int,
                    ENEMY_HALF_SIZE as int,
                ),
        decreases w.enemies@.len() - j,
    {
        let e = w.enemies[j];
        if circles_overlap(p.x, p.y, e.x, e.y, PLAYER_HALF_SIZE, ENEMY_HALF_SIZE) {
            return true;
        }
        j = j + 1;
    }
    false
}

/// Body contact: a live player touched by any enemy dies on the spot,
/// loses one life and leaves a death marker at their position. Dead
/// players are not tested; one collision suffices, however many enemies
/// overlap.
pub fn enemy_hit_player_system(w: &mut GameWorld)
    requires
        old(w).wf(),
        old(w).next_id + 2 <= u64::MAX,
    ensures
        final(w).wf(),
        final(w).players@.len() == old(w).players@.len(),
        forall|i: int|
            0 <= i < old(w).players@.len() ==> final(w).players@[i] == (if spec_struck(
                #[trigger] old(w).players@[i],
                old(w).enemies@,
            ) {
                spec_struck_player(old(w).players@[i])
            } else {
                old(w).players@[i]
            }),
        final(w).player_marks@ == old(w).player_marks@ + spec_player_death_marks(*old(w)),
        final(w).next_id == old(w).next_id + spec_player_death_marks(*old(w)).len(),
        *final(w) == (GameWorld {
            players: final(w).players,
            player_marks: final(w).player_marks,
            next_id: final(w).next_id,
            ..*old(w)
        }),
{
    let np = w.players.len();
    if np >= 1 {
        let p = w.players[0];
        if p.vitality == Vitality::Alive && enemy_contact(w, &p) {
            let mut q = p;
            q.vitality = Vitality::Dead;
            q.lives = Lives { count: p.lives.count - 1 };
            w.players.set(0, q);
            let id = w.next_id;
            w.next_id = w.next_id + 1;
            let mark = PlayerDeadLocation {
                id,
                location: EntityLocation { x: p.x, y: p.y, z: 0 },
            };
            w.player_marks.push(mark);
        }
    }
    if np >= 2 {
        let p = w.players[1];
        if p.vitality == Vitality::Alive && enemy_contact(w, &p) {
            let mut q = p;
            q.vitality = Vitality::Dead;
            q.lives = Lives { count: p.lives.count - 1 };
            w.players.set(1, q);
            let id = w.next_id;
            w.next_id = w.next_id + 1;
            let mark = PlayerDeadLocation {
                id,
                location: EntityLocation { x: p.x, y: p.y, z: 0 },
            };
            w.player_marks.push(mark);
        }
    }
}

/// The corpse a consumed enemy death marker materialises: it keeps the
/// variant and death position and drifts off at the scroll speed.
pub open spec fn spec_enemy_corpse(m: EnemyDeadLocation, id: u64) -> EnemyDead {
    EnemyDead {
        id,
        variant: m.variant,
        x: m.location.x,
        y: m.location.y,
        velocity: Velocity { x: SCROLL_X_VELOCITY, y: SCROLL_Y_VELOCITY },
        movable: Movable { auto_despawn: true },
    }
}

/// The corpses a batch of markers materialises, with identifiers issued
/// in order starting at `id0`.
pub open spec fn spec_enemy_corpses_of(s: Seq<EnemyDeadLocation>, id0: int) -> Seq<EnemyDead>
    decreases s.len(),
{
    if s.len() == 0 {
        Seq::empty()
    } else {
        spec_enemy_corpses_of(s.drop_last(), id0).push(
            spec_enemy_corpse(s.last(), (id0 + s.len() - 1) as u64),
        )
    }
}

/// Consumes every pending enemy death marker: each one materialises a
/// drifting corpse of the recorded variant at the recorded position, and
/// no marker survives this pass.
pub fn enemy_dead_spawn_system(w: &mut GameWorld)
    requires
        old(w).wf(),
        old(w).next_id + old(w).enemy_marks@.len() <= u64::MAX,
    ensures
        final(w).wf(),
        final(w).enemy_marks@.len() == 0,
        final(w).enemy_corpses@ == old(w).enemy_corpses@ + spec_enemy_corpses_of(
            old(w).enemy_marks@,
            old(w).next_id as int,
        ),
        final(w).next_id == old(w).next_id + old(w).enemy_marks@.len(),
        *final(w) == (GameWorld {
            enemy_marks: final(w).enemy_marks,
            enemy_corpses: final(w).enemy_corpses,
            next_id: final(w).next_id,
            ..*old(w)
        }),
{
    let mut i: usize = 0;
    while i < w.enemy_marks.len()
        invariant
            0 <= i <= w.enemy_marks@.len(),
            old(w).wf(),
            old(w).next_id + old(w).enemy_marks@.len() <= u64::MAX,
            *w == (GameWorld {
                enemy_corpses: w.enemy_corpses,
                next_id: w.next_id,
                ..*old(w)
            }),
            w.next_id == old(w).next_id + i,
            w.enemy_corpses@ == old(w).enemy_corpses@ + spec_enemy_corpses_of(
                w.enemy_marks@.subrange(0, i as int),
                old(w).next_id as int,
            ),
            forall|k: int|
                0 <= k < w.enemy_corpses@.len() ==> (#[trigger] w.enemy_corpses@[k]).wf(),
            forall|k: int|
                0 <= k < w.enemy_corpses@.len() ==> (#[trigger] w.enemy_corpses@[k]).id
                    < w.next_id,
        decreases w.enemy_marks@.len() - i,
    {
        let m = w.enemy_marks[i];
        let id = w.next_id;
        w.next_id = w.next_id + 1;
        let c = EnemyDead {
            id,
            variant: m.variant,
            x: m.location.x,
            y: m.location.y,
            velocity: Velocity { x: SCROLL_X_VELOCITY, y: SCROLL_Y_VELOCITY },
            movable: Movable { auto_despawn: true },
        };
        w.enemy_corpses.push(c);
        proof {
            assert(w.enemy_marks@.subrange(0, i + 1).drop_last() =~= w.enemy_marks@.subrange(
                0,
                i as int,
            ));
            assert(w.enemy_marks@.subrange(0, i + 1).last() == w.enemy_marks@[i as int]);
        }
        i = i + 1;
    }
    proof {
        assert(w.enemy_marks@.subrange(0, w.enemy_marks@.len() as int) =~= w.enemy_marks@);
    }
    w.enemy_marks = Vec::new();
}

/// Where one tick of drift takes an enemy corpse.
pub open spec fn spec_moved_enemy_corpse(c: EnemyDead) -> EnemyDead {
    EnemyDead {
        x: spec_clamp(
            c.x - spec_drift_step(c.velocity.x as int),
            -COORD_LIMIT as int,
            COORD_LIMIT as int,
        ) as i64,
        ..c
    }
}

pub open spec fn spec_enemy_corpse_kept(c: EnemyDead, w: GameWorld) -> bool {
    !(c.movable.auto_despawn && spec_moved_enemy_corpse(c).x < w.arena.spec_despawn_x())
}

/// The enemy corpse list after one drift pass.
pub open spec fn spec_surviving_enemy_corpses(s: Seq<EnemyDead>, w: GameWorld) -> Seq<EnemyDead>
    decreases s.len(),
{
    if s.len() == 0 {
        Seq::empty()
    } else {
        let prev = spec_surviving_enemy_corpses(s.drop_last(), w);
        if spec_enemy_corpse_kept(s.last(), w) {
            prev.push(spec_moved_enemy_corpse(s.last()))
        } else {
            prev
        }
    }
}

/// Drifts every enemy corpse left and removes the ones that left the
/// visible arena.
pub fn enemy_dead_movement_system(w: &mut GameWorld)
    requires
        old(w).wf(),
    ensures
        final(w).wf(),
        final(w).enemy_corpses@ == spec_surviving_enemy_corpses(
            old(w).enemy_corpses@,
            *old(w),
        ),
        *final(w) == (GameWorld { enemy_corpses: final(w).enemy_corpses, ..*old(w) }),
{
    let margin = w.arena.despawn_x();
    let mut out: Vec<EnemyDead> = Vec::new();
    let mut i: usize = 0;
    while i < w.enemy_corpses.len()
        invariant
            0 <= i <= w.enemy_corpses@.len(),
            old(w).wf(),
            *w == *old(w),
            margin == old(w).arena.spec_despawn_x(),
            out@ == spec_surviving_enemy_corpses(
                w.enemy_corpses@.subrange(0, i as int),
                *old(w),
            ),
            forall|k: int| 0 <= k < out@.len() ==> (#[trigger] out@[k]).wf(),
            forall|k: int|
                0 <= k < out@.len() ==> (#[trigger] out@[k]).id < old(w).next_id,
        decreases w.enemy_corpses@.len() - i,
    {
        let c = w.enemy_corpses[i];
        let mut m = c;
        m.x = shift_coord(c.x, -drift_step(c.velocity.x));
        if !(m.movable.auto_despawn && m.x < margin) {
            out.push(m);
        }
        proof {
            assert(w.enemy_corpses@.subrange(0, i + 1).drop_last()
                =~= w.enemy_corpses@.subrange(0, i as int));
            assert(w.enemy_corpses@.subrange(0, i + 1).last() == w.enemy_corpses@[i as int]);
        }
        i = i + 1;
    }
    proof {
        assert(w.enemy_corpses@.subrange(0, w.enemy_corpses@.len() as int)
            =~= w.enemy_corpses@);
    }
    w.enemy_corpses = out;
}

} // verus!
