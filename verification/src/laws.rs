//! The library's stated laws: properties of the simulation that hold in
//! every reachable world, written out and proved rather than left implicit
//! in the system contracts they follow from.

use vstd::prelude::*;
use crate::entities::{Enemy, Player};
use crate::enemy::{spec_enemies_after_drift, spec_enemy_kept, spec_moved_enemy_x};
use crate::game::spec_reset_player;
use crate::input::InputFrame;
use crate::player::{
    spec_can_hit, spec_enemies_after_hits, spec_fireballs_after_hits, spec_first_target_from,
    spec_hit_assignment, spec_kill_mark, spec_kill_marks, spec_killed_upto, spec_kills_upto,
    spec_owner_kills_upto, spec_respawned, spec_resolve_from,
};
use crate::components::Vitality;
use crate::world::GameWorld;

verus! {

/// Lives never fall below zero: every well-formed world counts them in a
/// non-negative range, and a live player always has one left to lose.
pub proof fn lemma_lives_never_negative(w: GameWorld)
    requires
        w.wf(),
    ensures
        forall|i: int|
            0 <= i < w.players@.len() ==> (#[trigger] w.players@[i]).lives.count as int >= 0,
        forall|i: int|
            0 <= i < w.players@.len() && (#[trigger] w.players@[i]).vitality
                == Vitality::Alive ==> w.players@[i].lives.count as int >= 1,
{
}

/// Scores never fall below zero in any well-formed world.
pub proof fn lemma_score_never_negative(w: GameWorld)
    requires
        w.wf(),
    ensures
        forall|i: int|
            0 <= i < w.players@.len() ==> (#[trigger] w.players@[i]).score.value as int >= 0,
{
}

/// A dead player with no lives left is unmoved by any respawn input; only
/// a full round restart brings them back.
pub proof fn lemma_no_respawn_without_lives(p: Player, inputs: InputFrame)
    requires
        p.vitality == Vitality::Dead,
        p.lives.count == 0,
    ensures
        spec_respawned(p, inputs) == p,
{
}

/// A round restart revives a player with full lives and a cleared score,
/// whatever state they were in.
pub proof fn lemma_restart_revives(p: Player)
    ensures
        spec_reset_player(p).vitality == Vitality::Alive,
        spec_reset_player(p).lives.count == 3,
        spec_reset_player(p).score.value == 0,
{
}

/// While a player holds the buff, no power-up entity exists in a
/// well-formed world, so no pickup is possible until the buff expires.
pub proof fn lemma_no_pickup_while_buffed(w: GameWorld)
    requires
        w.wf(),
        w.spec_any_player_powered(),
    ensures
        w.power_ups@.len() == 0,
        crate::player::spec_pickup_index(w) is None,
{
}

/// A scan that found nothing hittable below `j` may start at `j`.
proof fn lemma_first_target_skip_to(
    f: crate::entities::Fireball,
    es: Seq<Enemy>,
    used: Seq<bool>,
    j: int,
    w: GameWorld,
)
    requires
        0 <= j <= es.len(),
        forall|j2: int| 0 <= j2 < j ==> !(!used[j2] && spec_can_hit(f, #[trigger] es[j2], w)),
    ensures
        spec_first_target_from(f, es, used, 0, w) == spec_first_target_from(f, es, used, j, w),
    decreases j,
{
    if j > 0 {
        assert(spec_first_target_from(f, es, used, j - 1, w) == spec_first_target_from(
            f,
            es,
            used,
            j,
            w,
        ));
        lemma_first_target_skip_to(f, es, used, j - 1, w);
    }
}

/// Removing the enemies killed by a one-entry assignment takes exactly
/// one enemy out of any prefix that contains the target.
proof fn lemma_single_kill_filter(es: Seq<Enemy>, assign: Seq<Option<int>>, j: int, n: int)
    requires
        assign =~= seq![Some(j)],
        0 <= j,
        0 <= n <= es.len(),
    ensures
        spec_enemies_after_hits(es, assign, n).len() == n - (if j < n {
            1int
        } else {
            0int
        }),
    decreases n,
{
    if n > 0 {
        lemma_single_kill_filter(es, assign, j, n - 1);
        assert(assign.len() == 1);
        assert(spec_killed_upto(assign, assign.len() as int, n - 1) == (j == n - 1)) by {
            if j == n - 1 {
                assert(assign[0] == Some(n - 1));
                assert(spec_killed_upto(assign, assign.len() as int, n - 1));
            }
            if spec_killed_upto(assign, assign.len() as int, n - 1) {
                let witness = choose|i: int|
                    0 <= i < assign.len() && assign[i] == Some(n - 1);
                assert(witness == 0);
                assert(j == n - 1);
            }
        }
        assert(spec_enemies_after_hits(es, assign, n) == (if spec_killed_upto(
            assign,
            assign.len() as int,
            n - 1,
        ) {
            spec_enemies_after_hits(es, assign, n - 1)
        } else {
            spec_enemies_after_hits(es, assign, n - 1).push(es[n - 1])
        }));
    }
}

/// A projectile that can hit exactly one enemy kills exactly that enemy:
/// one enemy despawn, one projectile despawn, one death marker and one
/// score increment for its owner — never two, by resolved-set
/// exclusivity.
pub proof fn lemma_single_overlap_single_kill(w: GameWorld, j: int)
    requires
        w.fireballs@.len() == 1,
        0 <= j < w.enemies@.len(),
        spec_can_hit(w.fireballs@[0], w.enemies@[j], w),
        forall|k: int|
            0 <= k < w.enemies@.len() && k != j ==> !spec_can_hit(
                w.fireballs@[0],
                #[trigger] w.enemies@[k],
                w,
            ),
    ensures
        spec_hit_assignment(w) =~= seq![Some(j)],
        spec_kills_upto(spec_hit_assignment(w), 1) == 1,
        spec_owner_kills_upto(w.fireballs@, spec_hit_assignment(w), w.fireballs@[0].owner, 1)
            == 1,
        spec_enemies_after_hits(w.enemies@, spec_hit_assignment(w), w.enemies@.len() as int).len()
            == w.enemies@.len() - 1,
        spec_fireballs_after_hits(w.fireballs@, spec_hit_assignment(w), 1).len() == 0,
        spec_kill_marks(w.fireballs@, spec_hit_assignment(w), w.enemies@, w.next_id as int, 1)
            =~= seq![spec_kill_mark(w.enemies@[j], w.next_id)],
{
    let es = w.enemies@;
    let fbs = w.fireballs@;
    let used = Seq::new(es.len(), |k: int| false);
    lemma_first_target_skip_to(fbs[0], es, used, j, w);
    assert(spec_first_target_from(fbs[0], es, used, j, w) == Some(j));
    assert(spec_resolve_from(fbs, 1, es, used.update(j, true), w) =~= Seq::<Option<
        int,
    >>::empty());
    let a = spec_hit_assignment(w);
    assert(a =~= seq![Some(j)]);
    assert(spec_kills_upto(a, 0) == 0);
    assert(spec_kills_upto(a, 1) == 1);
    assert(spec_owner_kills_upto(fbs, a, fbs[0].owner, 0) == 0);
    assert(spec_owner_kills_upto(fbs, a, fbs[0].owner, 1) == 1);
    assert(spec_fireballs_after_hits(fbs, a, 0).len() == 0);
    assert(spec_fireballs_after_hits(fbs, a, 1).len() == 0);
    assert(spec_kill_marks(fbs, a, es, w.next_id as int, 0) =~= Seq::<
        crate::entities::EnemyDeadLocation,
    >::empty());
    assert(spec_kill_marks(fbs, a, es, w.next_id as int, 1) =~= seq![
        spec_kill_mark(es[j], w.next_id),
    ]);
    lemma_single_kill_filter(es, a, j, es.len() as int);
}

/// However many enemies overlap one projectile, it scores at most one
/// kill in a tick.
pub proof fn lemma_one_projectile_at_most_one_kill(w: GameWorld)
    requires
        w.fireballs@.len() == 1,
    ensures
        0 <= spec_kills_upto(spec_hit_assignment(w), 1) <= 1,
{
    assert(spec_kills_upto(spec_hit_assignment(w), 0) == 0);
}

/// No auto-despawning enemy survives a drift pass beyond the left
/// despawn margin: whatever drifts past it is removed in that same pass.
pub proof fn lemma_no_escaped_enemy_survives(s: Seq<Enemy>, w: GameWorld)
    ensures
        forall|k: int|
            0 <= k < spec_enemies_after_drift(s, w).len() && (#[trigger] spec_enemies_after_drift(
                s,
                w,
            )[k]).movable.auto_despawn ==> spec_enemies_after_drift(s, w)[k].x
                >= w.arena.spec_despawn_x(),
    decreases s.len(),
{
    if s.len() > 0 {
        lemma_no_escaped_enemy_survives(s.drop_last(), w);
        if spec_enemy_kept(s.last(), w) {
            assert(spec_moved_enemy_x(s.last()).movable.auto_despawn ==> spec_moved_enemy_x(
                s.last(),
            ).x >= w.arena.spec_despawn_x());
        }
    }
}

} // verus!
