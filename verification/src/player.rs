//! Player systems: spawning, respawning, movement and confinement, firing,
//! projectile flight, buff handling and the player corpse lifecycle.

use vstd::prelude::*;
use crate::arena::{
    COORD_LIMIT, CONFINE_MARGIN, DIAMOND_HALF_SIZE, ENEMY_HALF_HEIGHT, ENEMY_HALF_WIDTH,
    FIREBALL_HALF_HEIGHT, FIREBALL_HALF_WIDTH, FIRE_OFFSET_X, PLAYER_HALF_SIZE,
};
use crate::collision::{aabb_overlap, circles_overlap, spec_aabb_overlap, spec_circles_overlap};
use crate::components::EntityLocation;
use crate::entities::{Enemy, EnemyDeadLocation};
use crate::components::{
    ItemPower, Lives, Movable, PlayerVariant, Score, Velocity, Vitality,
};
use crate::entities::{Fireball, Player, PlayerDead, PlayerDeadLocation};
use crate::input::{spec_dir_x, spec_dir_y, InputFrame};
use crate::entities::PowerUp;
use crate::motion::{
    drift_step, fireball_step, player_step, shift_coord, spec_clamp, spec_drift_step,
    spec_fireball_step, spec_player_step,
};
use crate::world::GameWorld;
use crate::{SCROLL_X_VELOCITY, SCROLL_Y_VELOCITY};

verus! {

/// Where player one starts: a quarter arena-width left of centre.
pub open spec fn spec_player_one_start(w: GameWorld) -> (int, int) {
    (-(w.arena.width / 4), 0int)
}

/// Where player two starts: fifty pixels right and ten pixels up of player
/// one.
pub open spec fn spec_player_two_start(w: GameWorld) -> (int, int) {
    (-(w.arena.width / 4) + 50_000, 10_000int)
}

/// Spawns the two player characters at round start, each alive with full
/// lives, an empty score and no buff.
pub fn player_spawn_system(w: &mut GameWorld)
    requires
        old(w).wf(),
        old(w).players@.len() == 0,
        old(w).next_id + 2 <= u64::MAX,
    ensures
        final(w).wf(),
        final(w).players@.len() == 2,
        final(w).players@[0] == (Player {
            id: old(w).next_id,
            variant: PlayerVariant::One,
            vitality: Vitality::Alive,
            lives: Lives { count: 3 },
            score: Score { value: 0 },
            x: spec_player_one_start(*old(w)).0 as i64,
            y: spec_player_one_start(*old(w)).1 as i64,
            item_power: ItemPower { diamond: false },
        }),
        final(w).players@[1] == (Player {
            id: (old(w).next_id + 1) as u64,
            variant: PlayerVariant::Two,
            vitality: Vitality::Alive,
            lives: Lives { count: 3 },
            score: Score { value: 0 },
            x: spec_player_two_start(*old(w)).0 as i64,
            y: spec_player_two_start(*old(w)).1 as i64,
            item_power: ItemPower { diamond: false },
        }),
        final(w).next_id == old(w).next_id + 2,
        *final(w) == (GameWorld {
            players: final(w).players,
            next_id: final(w).next_id,
            ..*old(w)
        }),
{
    let quarter: i64 = w.arena.width / 4;
    let id0 = w.take_id();
    let p0 = Player {
        id: id0,
        variant: PlayerVariant::One,
        vitality: Vitality::Alive,
        lives: Lives { count: 3 },
        score: Score { value: 0 },
        x: -quarter,
        y: 0,
        item_power: ItemPower { diamond: false },
    };
    w.players.push(p0);
    let id1 = w.take_id();
    let p1 = Player {
        id: id1,
        variant: PlayerVariant::Two,
        vitality: Vitality::Alive,
        lives: Lives { count: 3 },
        score: Score { value: 0 },
        x: -quarter + 50_000,
        y: 10_000,
        item_power: ItemPower { diamond: false },
    };
    w.players.push(p1);
}

/// How one player comes back: the respawn input returns a dead player to
/// the fight, but only while a life is left. A dead player with zero lives
/// never returns this way.
pub open spec fn spec_respawned(p: Player, inputs: InputFrame) -> Player {
    if p.vitality == Vitality::Dead && p.lives.count >= 1 && inputs.spec_for_player(
        p.variant,
    ).restart {
        Player { vitality: Vitality::Alive, ..p }
    } else {
        p
    }
}

/// Returns dead players with lives left to the fight on their respawn
/// input; a player out of lives stays dead.
pub fn player_respawn_system(w: &mut GameWorld, inputs: &InputFrame)
    requires
        old(w).wf(),
    ensures
        final(w).wf(),
        final(w).players@.len() == old(w).players@.len(),
        forall|i: int|
            0 <= i < old(w).players@.len() ==> final(w).players@[i] == spec_respawned(
                #[trigger] old(w).players@[i],
                *inputs,
            ),
        *final(w) == (GameWorld { players: final(w).players, ..*old(w) }),
{
    let mut i: usize = 0;
    while i < w.players.len()
        invariant
            0 <= i <= w.players@.len(),
            old(w).wf(),
            *w == (GameWorld { players: w.players, ..*old(w) }),
            w.players@.len() == old(w).players@.len(),
            forall|j: int|
                0 <= j < i ==> w.players@[j] == spec_respawned(
                    #[trigger] old(w).players@[j],
                    *inputs,
                ),
            forall|j: int| i <= j < w.players@.len() ==> w.players@[j] == old(w).players@[j],
        decreases w.players@.len() - i,
    {
        let p = w.players[i];
        if p.vitality == Vitality::Dead && p.lives.count >= 1 {
            let inp = inputs.for_player(p.variant);
            if inp.restart {
                let mut q = p;
                q.vitality = Vitality::Alive;
                w.players.set(i, q);
            }
        }
        i = i + 1;
    }
}

/// Where one tick of movement input takes a player, before confinement:
/// each axis advances by the player step of the summed direction input,
/// saturating at the tracked world limit.
pub open spec fn spec_moved_player(p: Player, inputs: InputFrame) -> Player {
    let inp = inputs.spec_for_player(p.variant);
    Player {
        x: spec_clamp(
            p.x + spec_player_step(spec_dir_x(inp)),
            -COORD_LIMIT as int,
            COORD_LIMIT as int,
        ) as i64,
        y: spec_clamp(
            p.y + spec_player_step(spec_dir_y(inp)),
            -COORD_LIMIT as int,
            COORD_LIMIT as int,
        ) as i64,
        ..p
    }
}

/// Advances every player by their direction input at the fixed step.
#[verifier::rlimit(60)]
pub fn player_movement_system(w: &mut GameWorld, inputs: &InputFrame)
    requires
        old(w).wf(),
        inputs.wf(),
    ensures
        final(w).wf(),
        final(w).players@.len() == old(w).players@.len(),
        forall|i: int|
            0 <= i < old(w).players@.len() ==> final(w).players@[i] == spec_moved_player(
                #[trigger] old(w).players@[i],
                *inputs,
            ),
        *final(w) == (GameWorld { players: final(w).players, ..*old(w) }),
{
    let mut i: usize = 0;
    while i < w.players.len()
        invariant
            0 <= i <= w.players@.len(),
            old(w).wf(),
            *w == (GameWorld { players: w.players, ..*old(w) }),
            w.players@.len() == old(w).players@.len(),
            inputs.wf(),
            forall|j: int| 0 <= j < w.players@.len() ==> (#[trigger] w.players@[j]).wf(),
            forall|j: int|
                0 <= j < i ==> w.players@[j] == spec_moved_player(
                    #[trigger] old(w).players@[j],
                    *inputs,
                ),
            forall|j: int| i <= j < w.players@.len() ==> w.players@[j] == old(w).players@[j],
        decreases w.players@.len() - i,
    {
        let mut p = w.players[i];
        let inp = inputs.for_player(p.variant);
        let dx: i64 = (if inp.right {
            1000i64
        } else {
            0i64
        }) - (if inp.left {
            1000i64
        } else {
            0i64
        }) + (if inp.axis_engaged {
            inp.axis_x
        } else {
            0i64
        });
        let dy: i64 = (if inp.up {
            1000i64
        } else {
            0i64
        }) - (if inp.down {
            1000i64
        } else {
            0i64
        }) + (if inp.axis_engaged {
            inp.axis_y
        } else {
            0i64
        });
        p.x = shift_coord(p.x, player_step(dx));
        p.y = shift_coord(p.y, player_step(dy));
        w.players.set(i, p);
        i = i + 1;
    }
}

/// Where confinement puts a player: clamped into the arena with the
/// sprite-size margin on every edge.
pub open spec fn spec_confined_player(p: Player, w: GameWorld) -> Player {
    Player {
        x: spec_clamp(
            p.x as int,
            -w.arena.spec_half_width() + CONFINE_MARGIN,
            w.arena.spec_half_width() - CONFINE_MARGIN,
        ) as i64,
        y: spec_clamp(
            p.y as int,
            -w.arena.spec_half_height() + CONFINE_MARGIN,
            w.arena.spec_half_height() - CONFINE_MARGIN,
        ) as i64,
        ..p
    }
}

/// Keeps every player inside the visible arena.
pub fn player_confinement_system(w: &mut GameWorld)
    requires
        old(w).wf(),
    ensures
        final(w).wf(),
        final(w).players@.len() == old(w).players@.len(),
        forall|i: int|
            0 <= i < old(w).players@.len() ==> final(w).players@[i] == spec_confined_player(
                #[trigger] old(w).players@[i],
                *old(w),
            ),
        *final(w) == (GameWorld { players: final(w).players, ..*old(w) }),
{
    let half_w = w.arena.half_width();
    let half_h = w.arena.half_height();
    let mut i: usize = 0;
    while i < w.players.len()
        invariant
            0 <= i <= w.players@.len(),
            old(w).wf(),
            *w == (GameWorld { players: w.players, ..*old(w) }),
            w.players@.len() == old(w).players@.len(),
            half_w == old(w).arena.spec_half_width(),
            half_h == old(w).arena.spec_half_height(),
            old(w).arena.wf(),
            forall|j: int|
                0 <= j < i ==> w.players@[j] == spec_confined_player(
                    #[trigger] old(w).players@[j],
                    *old(w),
                ),
            forall|j: int| i <= j < w.players@.len() ==> w.players@[j] == old(w).players@[j],
        decreases w.players@.len() - i,
    {
        let mut p = w.players[i];
        p.x = crate::motion::clamp(p.x, -half_w + CONFINE_MARGIN, half_w - CONFINE_MARGIN);
        p.y = crate::motion::clamp(p.y, -half_h + CONFINE_MARGIN, half_h - CONFINE_MARGIN);
        w.players.set(i, p);
        i = i + 1;
    }
}

/// Whether a player gets a fireball off this tick: alive and the fire
/// edge pressed.
pub open spec fn spec_fires(p: Player, inputs: InputFrame) -> bool {
    p.vitality == Vitality::Alive && inputs.spec_for_player(p.variant).fire
}

/// The projectile a player launches: it starts at the muzzle offset right
/// of the player, drifts right at full speed and despawns off-screen.
pub open spec fn spec_spawned_fireball(p: Player, id: u64) -> Fireball {
    Fireball {
        id,
        owner: p.variant,
        x: spec_clamp(p.x + FIRE_OFFSET_X, -COORD_LIMIT as int, COORD_LIMIT as int) as i64,
        y: p.y,
        velocity: Velocity { x: 1000, y: 0 },
        movable: Movable { auto_despawn: true },
    }
}

/// How many fireballs this tick's fire inputs launch.
pub open spec fn spec_fire_count(w: GameWorld, inputs: InputFrame) -> int {
    spec_fired_fireballs(w, inputs).len() as int
}

/// The fireballs this tick's fire inputs append, in player order, with
/// identifiers issued in order.
pub open spec fn spec_fired_fireballs(w: GameWorld, inputs: InputFrame) -> Seq<Fireball> {
    let after_one = if w.players@.len() >= 1 && spec_fires(w.players@[0], inputs) {
        Seq::<Fireball>::empty().push(spec_spawned_fireball(w.players@[0], w.next_id))
    } else {
        Seq::<Fireball>::empty()
    };
    if w.players@.len() >= 2 && spec_fires(w.players@[1], inputs) {
        after_one.push(
            spec_spawned_fireball(w.players@[1], (w.next_id + after_one.len()) as u64),
        )
    } else {
        after_one
    }
}

/// Launches one fireball for every live player whose fire edge is pressed,
/// in player order.
pub fn player_fire_system(w: &mut GameWorld, inputs: &InputFrame)
    requires
        old(w).wf(),
        old(w).next_id + 2 <= u64::MAX,
    ensures
        final(w).wf(),
        final(w).fireballs@ == old(w).fireballs@ + spec_fired_fireballs(*old(w), *inputs),
        final(w).next_id == old(w).next_id + spec_fire_count(*old(w), *inputs),
        *final(w) == (GameWorld {
            fireballs: final(w).fireballs,
            next_id: final(w).next_id,
            ..*old(w)
        }),
{
    let n = w.players.len();
    if n >= 1 {
        let p = w.players[0];
        let inp = inputs.for_player(p.variant);
        if p.vitality == Vitality::Alive && inp.fire {
            let id = w.take_id();
            let fb = Fireball {
                id,
                owner: p.variant,
                x: shift_coord(p.x, FIRE_OFFSET_X),
                y: p.y,
                velocity: Velocity { x: 1000, y: 0 },
                movable: Movable { auto_despawn: true },
            };
            w.fireballs.push(fb);
        }
    }
    if n >= 2 {
        let p = w.players[1];
        let inp = inputs.for_player(p.variant);
        if p.vitality == Vitality::Alive && inp.fire {
            let id = w.take_id();
            let fb = Fireball {
                id,
                owner: p.variant,
                x: shift_coord(p.x, FIRE_OFFSET_X),
                y: p.y,
                velocity: Velocity { x: 1000, y: 0 },
                movable: Movable { auto_despawn: true },
            };
            w.fireballs.push(fb);
        }
    }
}

/// Where one tick of flight takes a fireball: right by its step, saturated
/// at the tracked world limit.
pub open spec fn spec_moved_fireball(f: Fireball) -> Fireball {
    Fireball {
        x: spec_clamp(
            f.x + spec_fireball_step(f.velocity.x as int),
            -COORD_LIMIT as int,
            COORD_LIMIT as int,
        ) as i64,
        ..f
    }
}

/// Whether a fireball is still on screen after its move.
pub open spec fn spec_fireball_kept(f: Fireball, w: GameWorld) -> bool {
    !(f.movable.auto_despawn && spec_moved_fireball(f).x > w.arena.spec_fireball_limit_x())
}

/// The fireball list after one movement pass: every fireball advanced,
/// those past the right edge removed, order kept.
pub open spec fn spec_surviving_fireballs(s: Seq<Fireball>, w: GameWorld) -> Seq<Fireball>
    decreases s.len(),
{
    if s.len() == 0 {
        Seq::empty()
    } else {
        let prev = spec_surviving_fireballs(s.drop_last(), w);
        if spec_fireball_kept(s.last(), w) {
            prev.push(spec_moved_fireball(s.last()))
        } else {
            prev
        }
    }
}

/// Advances every fireball and removes the ones that left the arena on the
/// right, unconditionally, in the same pass.
pub fn fireball_movement_system(w: &mut GameWorld)
    requires
        old(w).wf(),
    ensures
        final(w).wf(),
        final(w).fireballs@ == spec_surviving_fireballs(old(w).fireballs@, *old(w)),
        final(w).fireballs@.len() <= old(w).fireballs@.len(),
        *final(w) == (GameWorld { fireballs: final(w).fireballs, ..*old(w) }),
{
    let limit = w.arena.half_width();
    let mut out: Vec<Fireball> = Vec::new();
    let mut i: usize = 0;
    while i < w.fireballs.len()
        invariant
            0 <= i <= w.fireballs@.len(),
            old(w).wf(),
            *w == *old(w),
            limit == old(w).arena.spec_fireball_limit_x(),
            out@ == spec_surviving_fireballs(w.fireballs@.subrange(0, i as int), *old(w)),
            out@.len() <= i,
            forall|k: int| 0 <= k < out@.len() ==> (#[trigger] out@[k]).wf(),
            forall|k: int|
                0 <= k < out@.len() ==> (#[trigger] out@[k]).id < old(w).next_id,
        decreases w.fireballs@.len() - i,
    {
        let f = w.fireballs[i];
        let mut m = f;
        m.x = shift_coord(f.x, fireball_step(f.velocity.x));
        if !(m.movable.auto_despawn && m.x > limit) {
            out.push(m);
        }
        proof {
            assert(w.fireballs@.subrange(0, i + 1).drop_last() =~= w.fireballs@.subrange(
                0,
                i as int,
            ));
            assert(w.fireballs@.subrange(0, i + 1).last() == w.fireballs@[i as int]);
        }
        i = i + 1;
    }
    proof {
        assert(w.fireballs@.subrange(0, w.fireballs@.len() as int) =~= w.fireballs@);
    }
    w.fireballs = out;
}

/// The corpse a consumed player death marker materialises: it keeps the
/// death position and drifts off at the scroll speed.
pub open spec fn spec_player_corpse(m: PlayerDeadLocation, id: u64) -> PlayerDead {
    PlayerDead {
        id,
        x: m.location.x,
        y: m.location.y,
        velocity: Velocity { x: SCROLL_X_VELOCITY, y: SCROLL_Y_VELOCITY },
        movable: Movable { auto_despawn: true },
    }
}

/// The corpses that a batch of markers materialises, with identifiers
/// issued in order starting at `id0`.
pub open spec fn spec_player_corpses_of(s: Seq<PlayerDeadLocation>, id0: int) -> Seq<PlayerDead>
    decreases s.len(),
{
    if s.len() == 0 {
        Seq::empty()
    } else {
        spec_player_corpses_of(s.drop_last(), id0).push(
            spec_player_corpse(s.last(), (id0 + s.len() - 1) as u64),
        )
    }
}

/// Consumes every pending player death marker: each one materialises a
/// drifting corpse at the recorded position, and no marker survives.
pub fn player_dead_spawn_system(w: &mut GameWorld)
    requires
        old(w).wf(),
        old(w).next_id + old(w).player_marks@.len() <= u64::MAX,
    ensures
        final(w).wf(),
        final(w).player_marks@.len() == 0,
        final(w).player_corpses@ == old(w).player_corpses@ + spec_player_corpses_of(
            old(w).player_marks@,
            old(w).next_id as int,
        ),
        final(w).next_id == old(w).next_id + old(w).player_marks@.len(),
        *final(w) == (GameWorld {
            player_marks: final(w).player_marks,
            player_corpses: final(w).player_corpses,
            next_id: final(w).next_id,
            ..*old(w)
        }),
{
    let mut i: usize = 0;
    while i < w.player_marks.len()
        invariant
            0 <= i <= w.player_marks@.len(),
            old(w).wf(),
            old(w).next_id + old(w).player_marks@.len() <= u64::MAX,
            *w == (GameWorld {
                player_corpses: w.player_corpses,
                next_id: w.next_id,
                ..*old(w)
            }),
            w.next_id == old(w).next_id + i,
            w.player_corpses@ == old(w).player_corpses@ + spec_player_corpses_of(
                w.player_marks@.subrange(0, i as int),
                old(w).next_id as int,
            ),
            forall|k: int|
                0 <= k < w.player_corpses@.len() ==> (#[trigger] w.player_corpses@[k]).wf(),
            forall|k: int|
                0 <= k < w.player_corpses@.len() ==> (#[trigger] w.player_corpses@[k]).id
                    < w.next_id,
        decreases w.player_marks@.len() - i,
    {
        let m = w.player_marks[i];
        let id = w.take_id();
        let c = PlayerDead {
            id,
            x: m.location.x,
            y: m.location.y,
            velocity: Velocity { x: SCROLL_X_VELOCITY, y: SCROLL_Y_VELOCITY },
            movable: Movable { auto_despawn: true },
        };
        w.player_corpses.push(c);
        proof {
            assert(w.player_marks@.subrange(0, i + 1).drop_last() =~= w.player_marks@.subrange(
                0,
                i as int,
            ));
            assert(w.player_marks@.subrange(0, i + 1).last() == w.player_marks@[i as int]);
        }
        i = i + 1;
    }
    proof {
        assert(w.player_marks@.subrange(0, w.player_marks@.len() as int) =~= w.player_marks@);
    }
    w.player_marks = Vec::new();
}

/// Where one tick of drift takes a player corpse.
pub open spec fn spec_moved_player_corpse(c: PlayerDead) -> PlayerDead {
    PlayerDead {
        x: spec_clamp(
            c.x - spec_drift_step(c.velocity.x as int),
            -COORD_LIMIT as int,
            COORD_LIMIT as int,
        ) as i64,
        ..c
    }
}

pub open spec fn spec_player_corpse_kept(c: PlayerDead, w: GameWorld) -> bool {
    !(c.movable.auto_despawn && spec_moved_player_corpse(c).x < w.arena.spec_despawn_x())
}

/// The player corpse list after one drift pass.
pub open spec fn spec_surviving_player_corpses(s: Seq<PlayerDead>, w: GameWorld) -> Seq<
    PlayerDead,
>
    decreases s.len(),
{
    if s.len() == 0 {
        Seq::empty()
    } else {
        let prev = spec_surviving_player_corpses(s.drop_last(), w);
        if spec_player_corpse_kept(s.last(), w) {
            prev.push(spec_moved_player_corpse(s.last()))
        } else {
            prev
        }
    }
}

/// Drifts every player corpse left and removes the ones that left the
/// visible arena.
pub fn player_dead_movement_system(w: &mut GameWorld)
    requires
        old(w).wf(),
    ensures
        final(w).wf(),
        final(w).player_corpses@ == spec_surviving_player_corpses(
            old(w).player_corpses@,
            *old(w),
        ),
        *final(w) == (GameWorld { player_corpses: final(w).player_corpses, ..*old(w) }),
{
    let margin = w.arena.despawn_x();
    let mut out: Vec<PlayerDead> = Vec::new();
    let mut i: usize = 0;
    while i < w.player_corpses.len()
        invariant
            0 <= i <= w.player_corpses@.len(),
            old(w).wf(),
            *w == *old(w),
            margin == old(w).arena.spec_despawn_x(),
            out@ == spec_surviving_player_corpses(
                w.player_corpses@.subrange(0, i as int),
                *old(w),
            ),
            forall|k: int| 0 <= k < out@.len() ==> (#[trigger] out@[k]).wf(),
            forall|k: int|
                0 <= k < out@.len() ==> (#[trigger] out@[k]).id < old(w).next_id,
        decreases w.player_corpses@.len() - i,
    {
        let c = w.player_corpses[i];
        let mut m = c;
        m.x = shift_coord(c.x, -drift_step(c.velocity.x));
        if !(m.movable.auto_despawn && m.x < margin) {
            out.push(m);
        }
        proof {
            assert(w.player_corpses@.subrange(0, i + 1).drop_last()
                =~= w.player_corpses@.subrange(0, i as int));
            assert(w.player_corpses@.subrange(0, i + 1).last() == w.player_corpses@[i as int]);
        }
        i = i + 1;
    }
    proof {
        assert(w.player_corpses@.subrange(0, w.player_corpses@.len() as int)
            =~= w.player_corpses@);
    }
    w.player_corpses = out;
}

/// Clears the diamond buff of every player exactly on the ticks the shared
/// buff window reports finished; on all other ticks every flag is kept.
pub fn player_diamond_power_system(w: &mut GameWorld)
    requires
        old(w).wf(),
    ensures
        final(w).wf(),
        final(w).players@.len() == old(w).players@.len(),
        old(w).diamond_power_timer.timer.spec_finished() ==> forall|i: int|
            0 <= i < final(w).players@.len() ==> final(w).players@[i] == (Player {
                item_power: ItemPower { diamond: false },
                ..#[trigger] old(w).players@[i]
            }),
        !old(w).diamond_power_timer.timer.spec_finished() ==> final(w).players@ == old(
            w,
        ).players@,
        *final(w) == (GameWorld { players: final(w).players, ..*old(w) }),
{
    if w.diamond_power_timer.timer.finished() {
        let mut i: usize = 0;
        while i < w.players.len()
            invariant
                0 <= i <= w.players@.len(),
                old(w).wf(),
                *w == (GameWorld { players: w.players, ..*old(w) }),
                w.players@.len() == old(w).players@.len(),
                forall|j: int|
                    0 <= j < i ==> w.players@[j] == (Player {
                        item_power: ItemPower { diamond: false },
                        ..#[trigger] old(w).players@[j]
                    }),
                forall|j: int|
                    i <= j < w.players@.len() ==> w.players@[j] == old(w).players@[j],
            decreases w.players@.len() - i,
        {
            let mut p = w.players[i];
            p.item_power = ItemPower { diamond: false };
            w.players.set(i, p);
            i = i + 1;
        }
    }
}

/// Whether a live player's body overlaps the power-up.
pub open spec fn spec_pickup_overlap(p: Player, u: PowerUp) -> bool {
    &&& p.vitality == Vitality::Alive
    &&& spec_circles_overlap(
        p.x as int,
        p.y as int,
        u.x as int,
        u.y as int,
        PLAYER_HALF_SIZE as int,
        DIAMOND_HALF_SIZE as int,
    )
}

/// Which player, if any, picks the power-up up this tick: the first live
/// player in player order whose body overlaps it.
pub open spec fn spec_pickup_index(w: GameWorld) -> Option<int> {
    if w.power_ups@.len() == 0 {
        None
    } else if w.players@.len() >= 1 && spec_pickup_overlap(w.players@[0], w.power_ups@[0]) {
        Some(0int)
    } else if w.players@.len() >= 2 && spec_pickup_overlap(w.players@[1], w.power_ups@[0]) {
        Some(1int)
    } else {
        None
    }
}

/// Pickup detection: the first live player overlapping the power-up takes
/// it, the power-up despawns, the player's buff flag turns on at once and
/// the shared buff window resets.
pub fn player_hit_power_up_system(w: &mut GameWorld)
    requires
        old(w).wf(),
    ensures
        final(w).wf(),
        final(w).players@.len() == old(w).players@.len(),
        match spec_pickup_index(*old(w)) {
            Some(i) => {
                &&& final(w).power_ups@.len() == 0
                &&& final(w).players@[i] == (Player {
                    item_power: ItemPower { diamond: true },
                    ..old(w).players@[i]
                })
                &&& forall|j: int|
                    0 <= j < old(w).players@.len() && j != i ==> final(w).players@[j] == old(
                        w,
                    ).players@[j]
                &&& final(w).diamond_power_timer.timer.elapsed == 0
                &&& !final(w).diamond_power_timer.timer.spec_finished()
                &&& final(w).diamond_power_timer.wf()
                &&& *final(w) == (GameWorld {
                    players: final(w).players,
                    power_ups: final(w).power_ups,
                    diamond_power_timer: final(w).diamond_power_timer,
                    ..*old(w)
                })
            },
            None => *final(w) == *old(w),
        },
{
    if w.power_ups.len() == 0 {
        return ;
    }
    let u = w.power_ups[0];
    let n = w.players.len();
    let mut picked: bool = false;
    let mut idx: usize = 0;
    if n >= 1 {
        let p = w.players[0];
        if p.vitality == Vitality::Alive && circles_overlap(
            p.x,
            p.y,
            u.x,
            u.y,
            PLAYER_HALF_SIZE,
            DIAMOND_HALF_SIZE,
        ) {
            picked = true;
            idx = 0;
        }
    }
    if !picked && n >= 2 {
        let p = w.players[1];
        if p.vitality == Vitality::Alive && circles_overlap(
            p.x,
            p.y,
            u.x,
            u.y,
            PLAYER_HALF_SIZE,
            DIAMOND_HALF_SIZE,
        ) {
            picked = true;
            idx = 1;
        }
    }
    if picked {
        let mut p = w.players[idx];
        p.item_power = ItemPower { diamond: true };
        w.players.set(idx, p);
        w.power_ups = Vec::new();
        w.diamond_power_timer.timer.reset();
    }
}

/// Whether a fireball can destroy an enemy this tick: the enemy is still
/// combat-active, has entered the screen from the right, and the two
/// bounding boxes overlap.
pub open spec fn spec_can_hit(f: Fireball, e: Enemy, w: GameWorld) -> bool {
    &&& e.vitality != Vitality::Dead
    &&& e.x < w.arena.spec_enter_x()
    &&& spec_aabb_overlap(
        f.x as int,
        f.y as int,
        FIREBALL_HALF_WIDTH as int,
        FIREBALL_HALF_HEIGHT as int,
        e.x as int,
        e.y as int,
        ENEMY_HALF_WIDTH as int,
        ENEMY_HALF_HEIGHT as int,
    )
}

/// The first enemy index at or after `j` that is not yet consumed this
/// tick and that the fireball can hit.
pub open spec fn spec_first_target_from(
    f: Fireball,
    es: Seq<Enemy>,
    used: Seq<bool>,
    j: int,
    w: GameWorld,
) -> Option<int>
    decreases es.len() - j,
{
    if j < 0 || j >= es.len() {
        None
    } else if !used[j] && spec_can_hit(f, es[j], w) {
        Some(j)
    } else {
        spec_first_target_from(f, es, used, j + 1, w)
    }
}

/// The greedy per-tick resolution, fireballs in order: each fireball takes
/// the first enemy it can hit that no earlier fireball already consumed,
/// so a fireball kills at most one enemy and an enemy absorbs at most one
/// fireball per tick.
pub open spec fn spec_resolve_from(
    fbs: Seq<Fireball>,
    i: int,
    es: Seq<Enemy>,
    used: Seq<bool>,
    w: GameWorld,
) -> Seq<Option<int>>
    decreases fbs.len() - i,
{
    if i < 0 || i >= fbs.len() {
        Seq::empty()
    } else {
        match spec_first_target_from(fbs[i], es, used, 0, w) {
            Some(j) => seq![Some(j)] + spec_resolve_from(fbs, i + 1, es, used.update(j, true), w),
            None => seq![None] + spec_resolve_from(fbs, i + 1, es, used, w),
        }
    }
}

/// Which enemy each fireball kills this tick, if any.
pub open spec fn spec_hit_assignment(w: GameWorld) -> Seq<Option<int>> {
    spec_resolve_from(
        w.fireballs@,
        0,
        w.enemies@,
        Seq::new(w.enemies@.len(), |j: int| false),
        w,
    )
}

/// Whether enemy `j` is consumed by one of the first `n` fireballs.
pub open spec fn spec_killed_upto(assign: Seq<Option<int>>, n: int, j: int) -> bool {
    exists|i: int| 0 <= i < n && assign[i] == Some(j)
}

/// The enemies that survive the pass, in order.
pub open spec fn spec_enemies_after_hits(
    es: Seq<Enemy>,
    assign: Seq<Option<int>>,
    n: int,
) -> Seq<Enemy>
    decreases n,
{
    if n <= 0 {
        Seq::empty()
    } else {
        let prev = spec_enemies_after_hits(es, assign, n - 1);
        if spec_killed_upto(assign, assign.len() as int, n - 1) {
            prev
        } else {
            prev.push(es[n - 1])
        }
    }
}

/// The fireballs that survive the pass, in order.
pub open spec fn spec_fireballs_after_hits(
    fbs: Seq<Fireball>,
    assign: Seq<Option<int>>,
    n: int,
) -> Seq<Fireball>
    decreases n,
{
    if n <= 0 {
        Seq::empty()
    } else {
        let prev = spec_fireballs_after_hits(fbs, assign, n - 1);
        if assign[n - 1] is Some {
            prev
        } else {
            prev.push(fbs[n - 1])
        }
    }
}

/// How many of the first `n` fireballs kill an enemy.
pub open spec fn spec_kills_upto(assign: Seq<Option<int>>, n: int) -> int
    decreases n,
{
    if n <= 0 {
        0
    } else {
        spec_kills_upto(assign, n - 1) + (if assign[n - 1] is Some {
            1int
        } else {
            0int
        })
    }
}

/// How many of the first `n` fireballs owned by player `v` kill an enemy.
pub open spec fn spec_owner_kills_upto(
    fbs: Seq<Fireball>,
    assign: Seq<Option<int>>,
    v: PlayerVariant,
    n: int,
) -> int
    decreases n,
{
    if n <= 0 {
        0
    } else {
        spec_owner_kills_upto(fbs, assign, v, n - 1) + (if assign[n - 1] is Some && fbs[n
            - 1].owner == v {
            1int
        } else {
            0int
        })
    }
}

/// The death marker a killed enemy leaves behind.
pub open spec fn spec_kill_mark(e: Enemy, id: u64) -> EnemyDeadLocation {
    EnemyDeadLocation {
        id,
        variant: e.variant,
        location: EntityLocation { x: e.x, y: e.y, z: 0 },
    }
}

/// The death markers the first `n` fireballs leave, in fireball order,
/// with identifiers issued in kill order starting at `id0`.
pub open spec fn spec_kill_marks(
    fbs: Seq<Fireball>,
    assign: Seq<Option<int>>,
    es: Seq<Enemy>,
    id0: int,
    n: int,
) -> Seq<EnemyDeadLocation>
    decreases n,
{
    if n <= 0 {
        Seq::empty()
    } else {
        let prev = spec_kill_marks(fbs, assign, es, id0, n - 1);
        match assign[n - 1] {
            Some(j) => prev.push(
                spec_kill_mark(es[j], (id0 + spec_kills_upto(assign, n - 1)) as u64),
            ),
            None => prev,
        }
    }
}

/// A score after `k` confirmed kills, saturating at the counter limit.
pub open spec fn spec_score_plus(s: u32, k: int) -> u32 {
    if s + k <= u32::MAX {
        (s + k) as u32
    } else {
        u32::MAX
    }
}

/// At most one kill per fireball: the kill count over a prefix is bounded
/// by the prefix length.
proof fn lemma_kills_upto_bounds(assign: Seq<Option<int>>, n: int)
    requires
        n >= 0,
    ensures
        0 <= spec_kills_upto(assign, n) <= n,
    decreases n,
{
    if n > 0 {
        lemma_kills_upto_bounds(assign, n - 1);
    }
}

/// The resolution list pairs one entry with each fireball from `i` on.
proof fn lemma_resolve_len(fbs: Seq<Fireball>, i: int, es: Seq<Enemy>, used: Seq<bool>, w: GameWorld)
    requires
        0 <= i <= fbs.len(),
    ensures
        spec_resolve_from(fbs, i, es, used, w).len() == fbs.len() - i,
    decreases fbs.len() - i,
{
    if i < fbs.len() {
        match spec_first_target_from(fbs[i], es, used, 0, w) {
            Some(j) => {
                lemma_resolve_len(fbs, i + 1, es, used.update(j, true), w);
            },
            None => {
                lemma_resolve_len(fbs, i + 1, es, used, w);
            },
        }
    }
}

/// A scan that found nothing hittable below `j` may start at `j`.
proof fn lemma_first_target_skip(
    f: Fireball,
    es: Seq<Enemy>,
    used: Seq<bool>,
    j: int,
    w: GameWorld,
)
    requires
        0 <= j <= es.len(),
        forall|j2: int| 0 <= j2 < j ==> !(!used[j2] && spec_can_hit(f, #[trigger] es[j2], w)),
    ensures
        spec_first_target_from(f, es, used, 0, w) == spec_first_target_from(f, es, used, j, w),
    decreases j,
{
    if j > 0 {
        assert(spec_first_target_from(f, es, used, j - 1, w) == spec_first_target_from(
            f,
            es,
            used,
            j,
            w,
        ));
        lemma_first_target_skip(f, es, used, j - 1, w);
    }
}

/// Add kills to a score counter, saturating at its limit.
fn score_add(s: u32, k: usize) -> (r: u32)
    ensures
        r == spec_score_plus(s, k as int),
{
    if (k as u64) <= (u32::MAX as u64) - (s as u64) {
        s + (k as u32)
    } else {
        u32::MAX
    }
}

/// Projectile combat: each fireball consumes the first not-yet-consumed
/// on-screen enemy whose box it overlaps. Both are despawned, the kill
/// leaves a death marker carrying the enemy's variant and position, and
/// the owning player scores one point per kill. No fireball kills twice
/// and no enemy absorbs two fireballs in one tick.
#[verifier::rlimit(100)]
pub fn player_fireball_hit_enemy_system(w: &mut GameWorld)
    requires
        old(w).wf(),
        old(w).next_id + old(w).fireballs@.len() <= u64::MAX,
    ensures
        final(w).wf(),
        final(w).enemies@ == spec_enemies_after_hits(
            old(w).enemies@,
            spec_hit_assignment(*old(w)),
            old(w).enemies@.len() as int,
        ),
        final(w).fireballs@ == spec_fireballs_after_hits(
            old(w).fireballs@,
            spec_hit_assignment(*old(w)),
            old(w).fireballs@.len() as int,
        ),
        final(w).enemy_marks@ == old(w).enemy_marks@ + spec_kill_marks(
            old(w).fireballs@,
            spec_hit_assignment(*old(w)),
            old(w).enemies@,
            old(w).next_id as int,
            old(w).fireballs@.len() as int,
        ),
        final(w).next_id == old(w).next_id + spec_kills_upto(
            spec_hit_assignment(*old(w)),
            old(w).fireballs@.len() as int,
        ),
        old(w).next_id <= final(w).next_id <= old(w).next_id + old(w).fireballs@.len(),
        final(w).enemy_marks@.len() <= old(w).enemy_marks@.len() + old(w).fireballs@.len(),
        final(w).fireballs@.len() <= old(w).fireballs@.len(),
        final(w).players@.len() == old(w).players@.len(),
        forall|i: int|
            0 <= i < old(w).players@.len() ==> final(w).players@[i] == (Player {
                score: Score {
                    value: spec_score_plus(
                        (#[trigger] old(w).players@[i]).score.value,
                        spec_owner_kills_upto(
                            old(w).fireballs@,
                            spec_hit_assignment(*old(w)),
                            old(w).players@[i].variant,
                            old(w).fireballs@.len() as int,
                        ),
                    ),
                },
                ..old(w).players@[i]
            }),
        *final(w) == (GameWorld {
            enemies: final(w).enemies,
            fireballs: final(w).fireballs,
            enemy_marks: final(w).enemy_marks,
            players: final(w).players,
            next_id: final(w).next_id,
            ..*old(w)
        }),
{
    let ghost assign = spec_hit_assignment(*old(w));
    let ghost fbs = old(w).fireballs@;
    let ghost es = old(w).enemies@;
    let ghost id0 = old(w).next_id as int;
    proof {
        lemma_resolve_len(fbs, 0, es, Seq::new(es.len(), |j: int| false), *old(w));
    }
    let enter_limit = w.arena.enter_x();
    let n_en = w.enemies.len();
    let n_fb = w.fireballs.len();

    let mut hit: Vec<bool> = Vec::new();
    while hit.len() < n_en
        invariant
            hit@.len() <= n_en,
            forall|j: int| 0 <= j < hit@.len() ==> !(#[trigger] hit@[j]),
        decreases n_en - hit@.len(),
    {
        hit.push(false);
    }
    proof {
        assert(hit@ =~= Seq::new(es.len(), |j: int| false));
        assert(assign.skip(0) =~= assign);
    }

    let mut new_fbs: Vec<Fireball> = Vec::new();
    let mut kills_one: usize = 0;
    let mut kills_two: usize = 0;
    let mut i: usize = 0;
    while i < n_fb
        invariant
            0 <= i <= n_fb,
            old(w).wf(),
            n_fb == fbs.len(),
            n_en == es.len(),
            id0 + n_fb <= u64::MAX,
            assign.len() == n_fb,
            assign == spec_hit_assignment(*old(w)),
            fbs == old(w).fireballs@,
            es == old(w).enemies@,
            enter_limit == old(w).arena.spec_enter_x(),
            *w == (GameWorld {
                enemy_marks: w.enemy_marks,
                next_id: w.next_id,
                ..*old(w)
            }),
            hit@.len() == n_en,
            forall|j: int| 0 <= j < n_en ==> hit@[j] == spec_killed_upto(assign, i as int, j),
            spec_resolve_from(fbs, i as int, es, hit@, *old(w)) == assign.skip(i as int),
            new_fbs@ == spec_fireballs_after_hits(fbs, assign, i as int),
            kills_one == spec_owner_kills_upto(fbs, assign, PlayerVariant::One, i as int),
            kills_two == spec_owner_kills_upto(fbs, assign, PlayerVariant::Two, i as int),
            kills_one + kills_two == spec_kills_upto(assign, i as int),
            w.next_id == id0 + spec_kills_upto(assign, i as int),
            w.enemy_marks@ == old(w).enemy_marks@ + spec_kill_marks(
                fbs,
                assign,
                es,
                id0,
                i as int,
            ),
            w.enemy_marks@.len() <= old(w).enemy_marks@.len() + i,
            new_fbs@.len() <= i,
            forall|k: int|
                0 <= k < w.enemy_marks@.len() ==> (#[trigger] w.enemy_marks@[k]).wf(),
            forall|k: int|
                0 <= k < w.enemy_marks@.len() ==> (#[trigger] w.enemy_marks@[k]).id
                    < w.next_id,
            forall|k: int| 0 <= k < new_fbs@.len() ==> (#[trigger] new_fbs@[k]).wf(),
            forall|k: int|
                0 <= k < new_fbs@.len() ==> (#[trigger] new_fbs@[k]).id < old(w).next_id,
        decreases n_fb - i,
    {
        proof {
            lemma_kills_upto_bounds(assign, i as int);
        }
        let f = w.fireballs[i];
        let mut found: bool = false;
        let mut target: usize = 0;
        let mut j: usize = 0;
        while j < n_en && !found
            invariant
                0 <= j <= n_en,
                old(w).wf(),
                n_en == es.len(),
                es == old(w).enemies@,
                *w == (GameWorld {
                    enemy_marks: w.enemy_marks,
                    next_id: w.next_id,
                    ..*old(w)
                }),
                enter_limit == old(w).arena.spec_enter_x(),
                hit@.len() == n_en,
                f == fbs[i as int],
                0 <= i < fbs.len(),
                fbs == old(w).fireballs@,
                !found ==> forall|j2: int|
                    0 <= j2 < j ==> !(!hit@[j2] && spec_can_hit(f, #[trigger] es[j2], *old(
                        w,
                    ))),
                found ==> j < n_en && target == j && !hit@[j as int] && spec_can_hit(
                    f,
                    es[j as int],
                    *old(w),
                ) && (forall|j2: int|
                    0 <= j2 < j ==> !(!hit@[j2] && spec_can_hit(f, #[trigger] es[j2], *old(
                        w,
                    )))),
            decreases n_en - j + (if found {
                0int
            } else {
                1int
            }),
        {
            let e = w.enemies[j];
            if !hit[j] && e.vitality != Vitality::Dead && e.x < enter_limit && aabb_overlap(
                f.x,
                f.y,
                FIREBALL_HALF_WIDTH,
                FIREBALL_HALF_HEIGHT,
                e.x,
                e.y,
                ENEMY_HALF_WIDTH,
                ENEMY_HALF_HEIGHT,
            ) {
                found = true;
                target = j;
            } else {
                j = j + 1;
            }
        }
        proof {
            lemma_first_target_skip(f, es, hit@, j as int, *old(w));
            assert(assign.skip(i as int)[0] == assign[i as int]);
            assert(assign.skip(i as int).drop_first() =~= assign.skip(i + 1));
        }
        if found {
            proof {
                assert(spec_first_target_from(f, es, hit@, 0, *old(w)) == Some(
                    target as int,
                ));
                assert(assign[i as int] == Some(target as int));
            }
            let e = w.enemies[target];
            let id = w.next_id;
            w.next_id = w.next_id + 1;
            let mark = EnemyDeadLocation {
                id,
                variant: e.variant,
                location: EntityLocation { x: e.x, y: e.y, z: 0 },
            };
            w.enemy_marks.push(mark);
            hit.set(target, true);
            if f.owner == PlayerVariant::One {
                kills_one = kills_one + 1;
            } else {
                kills_two = kills_two + 1;
            }
            proof {
                assert forall|jj: int| 0 <= jj < n_en implies hit@[jj] == spec_killed_upto(
                    assign,
                    i + 1,
                    jj,
                ) by {
                    if jj == target {
                        assert(assign[i as int] == Some(jj));
                        assert(spec_killed_upto(assign, i + 1, jj));
                    } else {
                        assert(hit@[jj] == spec_killed_upto(assign, i as int, jj));
                        if spec_killed_upto(assign, i + 1, jj) {
                            let witness = choose|k: int|
                                0 <= k < i + 1 && assign[k] == Some(jj);
                            assert(witness < i + 1 && assign[witness] == Some(jj));
                            assert(witness != i);
                            assert(spec_killed_upto(assign, i as int, jj));
                        }
                        if spec_killed_upto(assign, i as int, jj) {
                            let witness = choose|k: int|
                                0 <= k < i && assign[k] == Some(jj);
                            assert(0 <= witness < i + 1 && assign[witness] == Some(jj));
                            assert(spec_killed_upto(assign, i + 1, jj));
                        }
                    }
                }
            }
        } else {
            proof {
                assert(j == n_en);
                assert(spec_first_target_from(f, es, hit@, 0, *old(w)) is None);
                assert(assign[i as int] is None);
                assert forall|jj: int| 0 <= jj < n_en implies hit@[jj] == spec_killed_upto(
                    assign,
                    i + 1,
                    jj,
                ) by {
                    assert(hit@[jj] == spec_killed_upto(assign, i as int, jj));
                    if spec_killed_upto(assign, i + 1, jj) {
                        let witness = choose|k: int| 0 <= k < i + 1 && assign[k] == Some(jj);
                        assert(witness != i);
                        assert(spec_killed_upto(assign, i as int, jj));
                    }
                    if spec_killed_upto(assign, i as int, jj) {
                        let witness = choose|k: int| 0 <= k < i && assign[k] == Some(jj);
                        assert(0 <= witness < i + 1 && assign[witness] == Some(jj));
                    }
                }
            }
            new_fbs.push(f);
        }
        i = i + 1;
    }
    proof {
        assert(assign.skip(n_fb as int) =~= Seq::<Option<int>>::empty());
    }

    w.fireballs = new_fbs;

    let mut new_en: Vec<Enemy> = Vec::new();
    let mut j: usize = 0;
    while j < n_en
        invariant
            0 <= j <= n_en,
            old(w).wf(),
            n_en == es.len(),
            es == old(w).enemies@,
            w.enemies@ == es,
            assign.len() == old(w).fireballs@.len(),
            hit@.len() == n_en,
            forall|k: int|
                0 <= k < n_en ==> hit@[k] == spec_killed_upto(assign, assign.len() as int, k),
            new_en@ == spec_enemies_after_hits(es, assign, j as int),
            forall|k: int| 0 <= k < new_en@.len() ==> (#[trigger] new_en@[k]).wf(),
            forall|k: int|
                0 <= k < new_en@.len() ==> (#[trigger] new_en@[k]).id < old(w).next_id,
        decreases n_en - j,
    {
        if !hit[j] {
            new_en.push(w.enemies[j]);
        }
        j = j + 1;
    }
    w.enemies = new_en;

    let np = w.players.len();
    if np >= 1 {
        let mut p = w.players[0];
        let k = if p.variant == PlayerVariant::One {
            kills_one
        } else {
            kills_two
        };
        p.score = Score { value: score_add(p.score.value, k) };
        w.players.set(0, p);
    }
    if np >= 2 {
        let mut p = w.players[1];
        let k = if p.variant == PlayerVariant::One {
            kills_one
        } else {
            kills_two
        };
        p.score = Score { value: score_add(p.score.value, k) };
        w.players.set(1, p);
    }
    proof {
        lemma_kills_upto_bounds(assign, n_fb as int);
        assert forall|k: int| 0 <= k < w.players@.len() implies (#[trigger] w.players@[k]).id
            < w.next_id by {
            assert(w.players@[k].id == old(w).players@[k].id);
        };
        assert forall|k: int| 0 <= k < w.power_ups@.len() implies (#[trigger] w.power_ups@[k]).id
            < w.next_id by {
            assert(w.power_ups@[k] == old(w).power_ups@[k]);
        };
        assert forall|k: int|
            0 <= k < w.enemy_corpses@.len() implies (#[trigger] w.enemy_corpses@[k]).id
            < w.next_id by {
            assert(w.enemy_corpses@[k] == old(w).enemy_corpses@[k]);
        };
        assert forall|k: int|
            0 <= k < w.player_corpses@.len() implies (#[trigger] w.player_corpses@[k]).id
            < w.next_id by {
            assert(w.player_corpses@[k] == old(w).player_corpses@[k]);
        };
        assert forall|k: int|
            0 <= k < w.player_marks@.len() implies (#[trigger] w.player_marks@[k]).id
            < w.next_id by {
            assert(w.player_marks@[k] == old(w).player_marks@[k]);
        };
        assert forall|k: int| 0 <= k < w.trees@.len() implies (#[trigger] w.trees@[k]).id
            < w.next_id by {
            assert(w.trees@[k] == old(w).trees@[k]);
        };
    }
}

} // verus!
