//! Per-tick position integration at the fixed simulation step.
//!
//! Velocity factors are in thousandths: a factor of 1000 means one full
//! `BASE_SPEED`. With the fixed step of one sixtieth of a second, a hazard
//! drifting left at factor `v` covers `v * BASE_SPEED / 2` thousandth-pixels
//! per second, i.e. `v * 25 / 6` coordinate units per tick, plus a constant
//! one-pixel scroll; a fireball covers the full `v * 25 / 3` units plus half
//! a pixel.

use vstd::prelude::*;
use crate::arena::COORD_LIMIT;
use crate::VEL_LIMIT;

verus! {

/// Units an enemy, corpse or tree moves left in one tick at factor `v`.
pub open spec fn spec_drift_step(v: int) -> int {
    v * 25 / 6 + 1000
}

/// Units of one vertical weave nudge in one tick at factor `v`.
pub open spec fn spec_weave_step(v: int) -> int {
    v * 25 / 6
}

/// Units a fireball moves right in one tick at factor `v`.
pub open spec fn spec_fireball_step(v: int) -> int {
    v * 25 / 3 + 500
}

/// Units a player moves along one axis in one tick for a direction input
/// `d` in thousandths (1000 is one full direction unit).
pub open spec fn spec_player_step(d: int) -> int {
    if d >= 0 {
        d * 8333 / 1000
    } else {
        -((-d) * 8333 / 1000)
    }
}

pub open spec fn spec_clamp(v: int, lo: int, hi: int) -> int {
    if v < lo {
        lo
    } else if v > hi {
        hi
    } else {
        v
    }
}

pub fn drift_step(v: i64) -> (r: i64)
    requires
        0 <= v <= VEL_LIMIT,
    ensures
        r == spec_drift_step(v as int),
        1000 <= r <= 42666 + 1000,
{
    v * 25 / 6 + 1000
}

pub fn weave_step(v: i64) -> (r: i64)
    requires
        0 <= v <= VEL_LIMIT,
    ensures
        r == spec_weave_step(v as int),
        0 <= r <= 42666,
{
    v * 25 / 6
}

pub fn fireball_step(v: i64) -> (r: i64)
    requires
        0 <= v <= VEL_LIMIT,
    ensures
        r == spec_fireball_step(v as int),
        500 <= r <= 83333 + 500,
{
    v * 25 / 3 + 500
}

pub fn player_step(d: i64) -> (r: i64)
    requires
        -10_000 <= d <= 10_000,
    ensures
        r == spec_player_step(d as int),
        -83_330 <= r <= 83_330,
{
    if d >= 0 {
        d * 8333 / 1000
    } else {
        -((-d) * 8333 / 1000)
    }
}

pub fn clamp(v: i64, lo: i64, hi: i64) -> (r: i64)
    requires
        lo <= hi,
    ensures
        r == spec_clamp(v as int, lo as int, hi as int),
        lo <= r <= hi,
{
    if v < lo {
        lo
    } else if v > hi {
        hi
    } else {
        v
    }
}

/// Move a coordinate by a delta, saturating at the tracked world limit.
pub fn shift_coord(x: i64, delta: i64) -> (r: i64)
    requires
        -COORD_LIMIT <= x <= COORD_LIMIT,
        -1_000_000 <= delta <= 1_000_000,
    ensures
        r == spec_clamp(x + delta, -COORD_LIMIT as int, COORD_LIMIT as int),
        -COORD_LIMIT <= r <= COORD_LIMIT,
{
    clamp(x + delta, -COORD_LIMIT, COORD_LIMIT)
}

} // verus!
