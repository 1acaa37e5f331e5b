//! Fixed-point kinematics: how far a body moves in a frame, and the
//! saturation of vertical positions.

use vstd::prelude::*;
use crate::config::{MAX_DT, MAX_SPIN, POS_LIMIT, TIME_SCALE};

verus! {

/// Largest displacement one frame can produce: `MAX_SPIN * MAX_DT`
/// over `TIME_SCALE`.
pub const MAX_STEP: i64 = 22_500_000;

/// Distance covered in `dt` time units at `v` milliunits per second,
/// rounded toward zero.
pub open spec fn spec_displacement(v: int, dt: int) -> int {
    if v >= 0 {
        (v * dt) / (TIME_SCALE as int)
    } else {
        -(((-v) * dt) / (TIME_SCALE as int))
    }
}

/// A vertical position pushed back inside `[-POS_LIMIT, POS_LIMIT]`.
pub open spec fn spec_saturate(p: int) -> int {
    if p > POS_LIMIT {
        POS_LIMIT as int
    } else if p < -POS_LIMIT {
        -POS_LIMIT as int
    } else {
        p
    }
}

/// One frame never displaces a body by more than `MAX_STEP`, and
/// never against the sign of its velocity.
pub proof fn lemma_displacement_bounds(v: int, dt: int)
    requires
        -MAX_SPIN <= v <= MAX_SPIN,
        0 <= dt <= MAX_DT,
    ensures
        -MAX_STEP <= spec_displacement(v, dt) <= MAX_STEP,
        v >= 0 ==> spec_displacement(v, dt) >= 0,
        v <= 0 ==> spec_displacement(v, dt) <= 0,
        v >= 0 ==> 0 <= v * dt <= MAX_SPIN * MAX_DT,
        v <= 0 ==> 0 <= (-v) * dt <= MAX_SPIN * MAX_DT,
{
    assert(v * dt <= MAX_SPIN * MAX_DT && (-v) * dt <= MAX_SPIN * MAX_DT && (v >= 0 ==> v * dt
        >= 0) && (v <= 0 ==> (-v) * dt >= 0)) by (nonlinear_arith)
        requires
            -MAX_SPIN <= v <= MAX_SPIN,
            0 <= dt <= MAX_DT,
    ;
    if v >= 0 {
        vstd::arithmetic::div_mod::lemma_div_is_ordered(v * dt, MAX_SPIN * MAX_DT, TIME_SCALE as int);
        vstd::arithmetic::div_mod::lemma_div_pos_is_pos(v * dt, TIME_SCALE as int);
    } else {
        vstd::arithmetic::div_mod::lemma_div_is_ordered((-v) * dt, MAX_SPIN * MAX_DT, TIME_SCALE as int);
        vstd::arithmetic::div_mod::lemma_div_pos_is_pos((-v) * dt, TIME_SCALE as int);
    }
}

/// How far a body at `v` milliunits per second moves in `dt` time
/// units.
pub fn displacement(v: i64, dt: i64) -> (r: i64)
    requires
        -MAX_SPIN <= v <= MAX_SPIN,
        0 <= dt <= MAX_DT,
    ensures
        r == spec_displacement(v as int, dt as int),
        -MAX_STEP <= r <= MAX_STEP,
        v >= 0 ==> r >= 0,
        v <= 0 ==> r <= 0,
{
    proof {
        lemma_displacement_bounds(v as int, dt as int);
    }
    if v >= 0 {
        let prod: i64 = v * dt;
        prod / TIME_SCALE
    } else {
        let mag: i64 = -v;
        let prod: i64 = mag * dt;
        -(prod / TIME_SCALE)
    }
}

/// A vertical position pushed back inside `[-POS_LIMIT, POS_LIMIT]`.
pub fn saturate(p: i64) -> (r: i64)
    ensures
        r == spec_saturate(p as int),
        -POS_LIMIT <= r <= POS_LIMIT,
{
    if p > POS_LIMIT {
        POS_LIMIT
    } else if p < -POS_LIMIT {
        -POS_LIMIT
    } else {
        p
    }
}

} // verus!
