//! Scenery systems: decorative trees spawned over the arena at round
//! start, trickled in from the right while playing, and scrolled off the
//! left edge like every other drifting entity.

use vstd::prelude::*;
use crate::arena::{COORD_LIMIT, SPAWN_Y_MARGIN};
use crate::components::{Movable, Velocity};
use crate::entities::Tree;
use crate::motion::{drift_step, shift_coord, spec_clamp, spec_drift_step};
use crate::rng::random_in_range;
use crate::timer::GameTimer;
use crate::world::GameWorld;
use crate::{NUMBER_OF_TREES, TREE_INIT_COUNT};

verus! {

/// The drift factor, in thousandths, every tree is given.
pub const TREE_VELOCITY: i64 = 10;

/// Margin kept from the initial-burst band edges (5 pixels).
pub const TREE_MARGIN: i64 = 5_000;

/// What holds of the `t`-th tree of the initial burst: scattered over a
/// band reaching left of the arena, drifting and auto-despawning.
pub open spec fn spec_init_tree_ok(pre: GameWorld, t: Tree, k: int) -> bool {
    &&& t.id == pre.next_id + k
    &&& t.movable.auto_despawn
    &&& t.velocity == (Velocity { x: TREE_VELOCITY, y: TREE_VELOCITY })
    &&& -pre.arena.width + TREE_MARGIN <= t.x < pre.arena.spec_half_width() - TREE_MARGIN
    &&& -pre.arena.height + TREE_MARGIN <= t.y < pre.arena.spec_half_height() - TREE_MARGIN
}

/// What holds of the `t`-th tree of a timed trickle: it enters from the
/// same off-right band as the enemies.
pub open spec fn spec_trickle_tree_ok(pre: GameWorld, t: Tree, k: int) -> bool {
    &&& t.id == pre.next_id + k
    &&& t.movable.auto_despawn
    &&& t.velocity == (Velocity { x: TREE_VELOCITY, y: TREE_VELOCITY })
    &&& pre.arena.spec_half_width() <= t.x < pre.arena.width - pre.arena.width / 8
    &&& -pre.arena.spec_half_height() + SPAWN_Y_MARGIN <= t.y < pre.arena.spec_half_height()
        - SPAWN_Y_MARGIN
}

/// Scatters the initial burst of trees over the arena at round start.
pub fn tree_spawn_system_init(w: &mut GameWorld)
    requires
        old(w).wf(),
        old(w).next_id + TREE_INIT_COUNT <= u64::MAX,
    ensures
        final(w).wf(),
        final(w).trees@.len() == old(w).trees@.len() + TREE_INIT_COUNT,
        forall|k: int| 0 <= k < old(w).trees@.len() ==> final(w).trees@[k] == old(w).trees@[k],
        forall|k: int|
            old(w).trees@.len() <= k < final(w).trees@.len() ==> spec_init_tree_ok(
                *old(w),
                #[trigger] final(w).trees@[k],
                k - old(w).trees@.len(),
            ),
        final(w).next_id == old(w).next_id + TREE_INIT_COUNT,
        *final(w) == (GameWorld { trees: final(w).trees, next_id: final(w).next_id, ..*old(w) }),
{
    let lo_x: i64 = -w.arena.width + TREE_MARGIN;
    let hi_x: i64 = w.arena.half_width() - TREE_MARGIN;
    let lo_y: i64 = -w.arena.height + TREE_MARGIN;
    let hi_y: i64 = w.arena.half_height() - TREE_MARGIN;
    let count: usize = TREE_INIT_COUNT as usize;
    let mut t: usize = 0;
    while t < count
        invariant
            0 <= t <= count,
            count == TREE_INIT_COUNT,
            old(w).wf(),
            old(w).next_id + TREE_INIT_COUNT <= u64::MAX,
            lo_x == -old(w).arena.width + TREE_MARGIN,
            hi_x == old(w).arena.spec_half_width() - TREE_MARGIN,
            lo_y == -old(w).arena.height + TREE_MARGIN,
            hi_y == old(w).arena.spec_half_height() - TREE_MARGIN,
            lo_x < hi_x,
            lo_y < hi_y,
            *w == (GameWorld { trees: w.trees, next_id: w.next_id, ..*old(w) }),
            w.next_id == old(w).next_id + t,
            w.trees@.len() == old(w).trees@.len() + t,
            forall|k: int| 0 <= k < old(w).trees@.len() ==> w.trees@[k] == old(w).trees@[k],
            forall|k: int|
                old(w).trees@.len() <= k < w.trees@.len() ==> spec_init_tree_ok(
                    *old(w),
                    #[trigger] w.trees@[k],
                    k - old(w).trees@.len(),
                ),
            forall|k: int| 0 <= k < w.trees@.len() ==> (#[trigger] w.trees@[k]).wf(),
        decreases count - t,
    {
        let x = random_in_range(lo_x, hi_x);
        let y = random_in_range(lo_y, hi_y);
        let id = w.next_id;
        w.next_id = w.next_id + 1;
        let tree = Tree {
            id,
            x,
            y,
            velocity: Velocity { x: TREE_VELOCITY, y: TREE_VELOCITY },
            movable: Movable { auto_despawn: true },
        };
        w.trees.push(tree);
        t = t + 1;
    }
}

/// Trickles a small burst of trees in from the off-right band.
pub fn tree_spawn_system(w: &mut GameWorld)
    requires
        old(w).wf(),
        old(w).next_id + NUMBER_OF_TREES <= u64::MAX,
    ensures
        final(w).wf(),
        final(w).trees@.len() == old(w).trees@.len() + NUMBER_OF_TREES,
        forall|k: int| 0 <= k < old(w).trees@.len() ==> final(w).trees@[k] == old(w).trees@[k],
        forall|k: int|
            old(w).trees@.len() <= k < final(w).trees@.len() ==> spec_trickle_tree_ok(
                *old(w),
                #[trigger] final(w).trees@[k],
                k - old(w).trees@.len(),
            ),
        final(w).next_id == old(w).next_id + NUMBER_OF_TREES,
        *final(w) == (GameWorld { trees: final(w).trees, next_id: final(w).next_id, ..*old(w) }),
{
    let lo_x: i64 = w.arena.half_width();
    let hi_x: i64 = w.arena.width - w.arena.width / 8;
    let lo_y: i64 = -w.arena.half_height() + SPAWN_Y_MARGIN;
    let hi_y: i64 = w.arena.half_height() - SPAWN_Y_MARGIN;
    let count: usize = NUMBER_OF_TREES as usize;
    let mut t: usize = 0;
    while t < count
        invariant
            0 <= t <= count,
            count == NUMBER_OF_TREES,
            old(w).wf(),
            old(w).next_id + NUMBER_OF_TREES <= u64::MAX,
            lo_x == old(w).arena.spec_half_width(),
            hi_x == old(w).arena.width - old(w).arena.width / 8,
            lo_y == -old(w).arena.spec_half_height() + SPAWN_Y_MARGIN,
            hi_y == old(w).arena.spec_half_height() - SPAWN_Y_MARGIN,
            lo_x < hi_x,
            lo_y < hi_y,
            *w == (GameWorld { trees: w.trees, next_id: w.next_id, ..*old(w) }),
            w.next_id == old(w).next_id + t,
            w.trees@.len() == old(w).trees@.len() + t,
            forall|k: int| 0 <= k < old(w).trees@.len() ==> w.trees@[k] == old(w).trees@[k],
            forall|k: int|
                old(w).trees@.len() <= k < w.trees@.len() ==> spec_trickle_tree_ok(
                    *old(w),
                    #[trigger] w.trees@[k],
                    k - old(w).trees@.len(),
                ),
            forall|k: int| 0 <= k < w.trees@.len() ==> (#[trigger] w.trees@[k]).wf(),
        decreases count - t,
    {
        let x = random_in_range(lo_x, hi_x);
        let y = random_in_range(lo_y, hi_y);
        let id = w.next_id;
        w.next_id = w.next_id + 1;
        let tree = Tree {
            id,
            x,
            y,
            velocity: Velocity { x: TREE_VELOCITY, y: TREE_VELOCITY },
            movable: Movable { auto_despawn: true },
        };
        w.trees.push(tree);
        t = t + 1;
    }
}

/// Advances the scenery trickle cadence by one tick.
pub fn tree_spawn_timer_tick_system(w: &mut GameWorld)
    requires
        old(w).wf(),
    ensures
        final(w).wf(),
        final(w).tree_spawn_timer.timer == GameTimer::spec_ticked(
            old(w).tree_spawn_timer.timer,
        ),
        *final(w) == (GameWorld { tree_spawn_timer: final(w).tree_spawn_timer, ..*old(w) }),
{
    w.tree_spawn_timer.timer.tick();
}

/// Trickles a burst exactly on the ticks the scenery cadence fires.
pub fn trees_spawn_over_time_system(w: &mut GameWorld)
    requires
        old(w).wf(),
        old(w).next_id + NUMBER_OF_TREES <= u64::MAX,
    ensures
        final(w).wf(),
        !old(w).tree_spawn_timer.timer.spec_finished() ==> *final(w) == *old(w),
        old(w).tree_spawn_timer.timer.spec_finished() ==> {
            &&& final(w).trees@.len() == old(w).trees@.len() + NUMBER_OF_TREES
            &&& (forall|k: int|
                0 <= k < old(w).trees@.len() ==> final(w).trees@[k] == old(w).trees@[k])
            &&& (forall|k: int|
                old(w).trees@.len() <= k < final(w).trees@.len() ==> spec_trickle_tree_ok(
                    *old(w),
                    #[trigger] final(w).trees@[k],
                    k - old(w).trees@.len(),
                ))
            &&& final(w).next_id == old(w).next_id + NUMBER_OF_TREES
            &&& *final(w) == (GameWorld {
                trees: final(w).trees,
                next_id: final(w).next_id,
                ..*old(w)
            })
        },
{
    if w.tree_spawn_timer.timer.finished() {
        tree_spawn_system(w);
    }
}

/// Where one tick of drift takes a tree.
pub open spec fn spec_moved_tree(t: Tree) -> Tree {
    Tree {
        x: spec_clamp(
            t.x - spec_drift_step(t.velocity.x as int),
            -COORD_LIMIT as int,
            COORD_LIMIT as int,
        ) as i64,
        ..t
    }
}

pub open spec fn spec_tree_kept(t: Tree, w: GameWorld) -> bool {
    !(t.movable.auto_despawn && spec_moved_tree(t).x < w.arena.spec_despawn_x())
}

/// The tree list after one drift pass.
pub open spec fn spec_surviving_trees(s: Seq<Tree>, w: GameWorld) -> Seq<Tree>
    decreases s.len(),
{
    if s.len() == 0 {
        Seq::empty()
    } else {
        let prev = spec_surviving_trees(s.drop_last(), w);
        if spec_tree_kept(s.last(), w) {
            prev.push(spec_moved_tree(s.last()))
        } else {
            prev
        }
    }
}

/// Drifts every tree left and removes the ones that left the visible
/// arena.
pub fn tree_movement_system(w: &mut GameWorld)
    requires
        old(w).wf(),
    ensures
        final(w).wf(),
        final(w).trees@ == spec_surviving_trees(old(w).trees@, *old(w)),
        *final(w) == (GameWorld { trees: final(w).trees, ..*old(w) }),
{
    let margin = w.arena.despawn_x();
    let mut out: Vec<Tree> = Vec::new();
    let mut i: usize = 0;
    while i < w.trees.len()
        invariant
            0 <= i <= w.trees@.len(),
            old(w).wf(),
            *w == *old(w),
            margin == old(w).arena.spec_despawn_x(),
            out@ == spec_surviving_trees(w.trees@.subrange(0, i as int), *old(w)),
            forall|k: int| 0 <= k < out@.len() ==> (#[trigger] out@[k]).wf(),
            forall|k: int| 0 <= k < out@.len() ==> (#[trigger] out@[k]).id < old(w).next_id,
        decreases w.trees@.len() - i,
    {
        let t = w.trees[i];
        let mut m = t;
        m.x = shift_coord(t.x, -drift_step(t.velocity.x));
        if !(m.movable.auto_despawn && m.x < margin) {
            out.push(m);
        }
        proof {
            assert(w.trees@.subrange(0, i + 1).drop_last() =~= w.trees@.subrange(0, i as int));
            assert(w.trees@.subrange(0, i + 1).last() == w.trees@[i as int]);
        }
        i = i + 1;
    }
    proof {
        assert(w.trees@.subrange(0, w.trees@.len() as int) =~= w.trees@);
    }
    w.trees = out;
}

} // verus!
