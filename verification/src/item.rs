//! Item systems: the exclusive diamond spawner and the two item timers.

use vstd::prelude::*;
use crate::arena::POWER_UP_MARGIN;
use crate::components::ItemVariant;
use crate::entities::PowerUp;
use crate::rng::random_in_range;
use crate::timer::GameTimer;
use crate::world::GameWorld;

verus! {

/// The spawner's exclusivity precondition: its timer fired, no player
/// holds the buff, and no power-up already waits in the arena. Violating
/// any part suppresses the spawn without resetting the cadence.
pub open spec fn spec_diamond_spawn_allowed(w: GameWorld) -> bool {
    &&& w.diamond_spawn_timer.timer.spec_finished()
    &&& !w.spec_any_player_powered()
    &&& w.power_ups@.len() == 0
}

/// What holds of a spawned diamond, whatever the draws returned: placed
/// inside the arena with the edge margin kept.
pub open spec fn spec_spawned_diamond_ok(pre: GameWorld, u: PowerUp) -> bool {
    &&& u.id == pre.next_id
    &&& u.variant == ItemVariant::Diamond
    &&& -pre.arena.spec_half_width() + POWER_UP_MARGIN <= u.x < pre.arena.spec_half_width()
        - POWER_UP_MARGIN
    &&& -pre.arena.spec_half_height() + POWER_UP_MARGIN <= u.y
        < pre.arena.spec_half_height() - POWER_UP_MARGIN
}

/// Spawns one diamond at a random spot exactly when the cadence fired, no
/// player holds the buff and no power-up exists; otherwise the tick
/// passes without a spawn and without touching the cadence.
pub fn diamond_spawn_system(w: &mut GameWorld)
    requires
        old(w).wf(),
        old(w).next_id + 1 <= u64::MAX,
    ensures
        final(w).wf(),
        spec_diamond_spawn_allowed(*old(w)) ==> {
            &&& final(w).power_ups@.len() == 1
            &&& spec_spawned_diamond_ok(*old(w), final(w).power_ups@[0])
            &&& final(w).next_id == old(w).next_id + 1
            &&& *final(w) == (GameWorld {
                power_ups: final(w).power_ups,
                next_id: final(w).next_id,
                ..*old(w)
            })
        },
        !spec_diamond_spawn_allowed(*old(w)) ==> *final(w) == *old(w),
{
    let powered = w.any_player_powered();
    let occupied = w.power_ups.len() != 0;
    if w.diamond_spawn_timer.timer.finished() && !powered && !occupied {
        let half_w = w.arena.half_width();
        let half_h = w.arena.half_height();
        let x = random_in_range(-half_w + POWER_UP_MARGIN, half_w - POWER_UP_MARGIN);
        let y = random_in_range(-half_h + POWER_UP_MARGIN, half_h - POWER_UP_MARGIN);
        let id = w.take_id();
        let u = PowerUp { id, variant: ItemVariant::Diamond, x, y };
        w.power_ups.push(u);
    }
}

/// Advances the power-up spawn cadence by one tick.
pub fn diamond_spawn_timer_tick_system(w: &mut GameWorld)
    requires
        old(w).wf(),
    ensures
        final(w).wf(),
        final(w).diamond_spawn_timer.timer == GameTimer::spec_ticked(
            old(w).diamond_spawn_timer.timer,
        ),
        *final(w) == (GameWorld {
            diamond_spawn_timer: final(w).diamond_spawn_timer,
            ..*old(w)
        }),
{
    w.diamond_spawn_timer.timer.tick();
}

/// Advances the shared buff window by one tick.
pub fn diamond_power_timer_tick_system(w: &mut GameWorld)
    requires
        old(w).wf(),
    ensures
        final(w).wf(),
        final(w).diamond_power_timer.timer == GameTimer::spec_ticked(
            old(w).diamond_power_timer.timer,
        ),
        *final(w) == (GameWorld {
            diamond_power_timer: final(w).diamond_power_timer,
            ..*old(w)
        }),
{
    w.diamond_power_timer.timer.tick();
}

} // verus!
