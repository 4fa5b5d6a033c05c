//! Overlap predicates: axis-aligned boxes for projectile hits, centre
//! distance against summed radii for body contact.

use vstd::prelude::*;
use crate::arena::COORD_LIMIT;

verus! {

pub open spec fn spec_abs(v: int) -> int {
    if v >= 0 {
        v
    } else {
        -v
    }
}

/// Two axis-aligned boxes, given by centre and half extents, overlap when
/// they intersect with positive area on both axes.
pub open spec fn spec_aabb_overlap(
    ax: int,
    ay: int,
    a_half_w: int,
    a_half_h: int,
    bx: int,
    by: int,
    b_half_w: int,
    b_half_h: int,
) -> bool {
    &&& spec_abs(ax - bx) < a_half_w + b_half_w
    &&& spec_abs(ay - by) < a_half_h + b_half_h
}

/// Two round bodies overlap when their centre distance is below the sum of
/// their radii (compared without square roots).
pub open spec fn spec_circles_overlap(
    ax: int,
    ay: int,
    bx: int,
    by: int,
    ra: int,
    rb: int,
) -> bool {
    (ax - bx) * (ax - bx) + (ay - by) * (ay - by) < (ra + rb) * (ra + rb)
}

pub fn aabb_overlap(
    ax: i64,
    ay: i64,
    a_half_w: i64,
    a_half_h: i64,
    bx: i64,
    by: i64,
    b_half_w: i64,
    b_half_h: i64,
) -> (r: bool)
    requires
        -COORD_LIMIT <= ax <= COORD_LIMIT,
        -COORD_LIMIT <= ay <= COORD_LIMIT,
        -COORD_LIMIT <= bx <= COORD_LIMIT,
        -COORD_LIMIT <= by <= COORD_LIMIT,
        0 <= a_half_w <= 1_000_000,
        0 <= a_half_h <= 1_000_000,
        0 <= b_half_w <= 1_000_000,
        0 <= b_half_h <= 1_000_000,
    ensures
        r == spec_aabb_overlap(
            ax as int,
            ay as int,
            a_half_w as int,
            a_half_h as int,
            bx as int,
            by as int,
            b_half_w as int,
            b_half_h as int,
        ),
{
    let dx: i64 = if ax >= bx {
        ax - bx
    } else {
        bx - ax
    };
    let dy: i64 = if ay >= by {
        ay - by
    } else {
        by - ay
    };
    dx < a_half_w + b_half_w && dy < a_half_h + b_half_h
}

pub fn circles_overlap(ax: i64, ay: i64, bx: i64, by: i64, ra: i64, rb: i64) -> (r: bool)
    requires
        -COORD_LIMIT <= ax <= COORD_LIMIT,
        -COORD_LIMIT <= ay <= COORD_LIMIT,
        -COORD_LIMIT <= bx <= COORD_LIMIT,
        -COORD_LIMIT <= by <= COORD_LIMIT,
        0 <= ra <= 1_000_000,
        0 <= rb <= 1_000_000,
    ensures
        r == spec_circles_overlap(ax as int, ay as int, bx as int, by as int, ra as int, rb as int),
{
    let dx: i128 = ax as i128 - bx as i128;
    let dy: i128 = ay as i128 - by as i128;
    let rs: i128 = ra as i128 + rb as i128;
    proof {
        assert(0 <= dx * dx <= 4_000_000_000_000_000_000_000_000i128) by (nonlinear_arith)
            requires
                -2_000_000_000_000 <= dx <= 2_000_000_000_000,
        ;
        assert(0 <= dy * dy <= 4_000_000_000_000_000_000_000_000i128) by (nonlinear_arith)
            requires
                -2_000_000_000_000 <= dy <= 2_000_000_000_000,
        ;
        assert(0 <= rs * rs <= 4_000_000_000_000i128) by (nonlinear_arith)
            requires
                0 <= rs <= 2_000_000,
        ;
    }
    dx * dx + dy * dy < rs * rs
}

} // verus!
