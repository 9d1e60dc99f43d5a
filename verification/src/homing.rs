//! Homing movement for drill enemies: every tick a drill steps DRILL_STEP
//! milli-units along the straight line toward the player and is then
//! clamped into the arena. The step is computed on integers: each axis
//! moves by its share of the step, offset * DRILL_STEP / distance, rounded
//! toward zero; a drill within one step of the player moves exactly onto
//! it rather than overshooting. The facing that accompanies the motion is
//! the direction of the step itself, derivable from the two positions, and
//! is left to the renderer: the simulation stores no rotation.

use vstd::prelude::*;

use vstd::arithmetic::div_mod::lemma_div_is_ordered;
use vstd::arithmetic::div_mod::lemma_div_multiples_vanish;
use vstd::arithmetic::div_mod::lemma_div_pos_is_pos;
use vstd::arithmetic::div_mod::lemma_small_div_converse;
use vstd::arithmetic::mul::lemma_mul_inequality;
use vstd::arithmetic::mul::lemma_mul_is_commutative;

use crate::geom::abs_i64;
use crate::geom::abs_spec;
use crate::geom::clamp_i64;
use crate::geom::clamp_spec;
use crate::geom::dist2;
use crate::geom::is_sqrt;
use crate::geom::isqrt;
use crate::geom::lemma_sqrt_floor;
use crate::geom::sqrt_floor;
use crate::geom::Vec2i;
use crate::DRILL_STEP;
use crate::HALF_X;
use crate::HALF_Y;

verus! {

/// The homing movement along one axis: `d` is the signed offset to the
/// player, `dist` the (rounded-down) distance; the axis moves by
/// `d * DRILL_STEP / dist`, rounded toward zero.
pub open spec fn step_comp_spec(d: int, dist: int) -> int {
    if d >= 0 {
        (d * DRILL_STEP) / dist
    } else {
        -(((-d) * DRILL_STEP) / dist)
    }
}

/// Where a drill at `e` homing on a player at `p` stands after one step,
/// before clamping. A drill exactly on the player has nothing to steer
/// toward and stays put; one within a step of the player lands on it.
pub open spec fn drill_step_spec(e: Vec2i, p: Vec2i) -> Vec2i {
    if e.x == p.x && e.y == p.y {
        e
    } else if dist2(e, p) <= DRILL_STEP * DRILL_STEP {
        p
    } else {
        let dist = sqrt_floor(dist2(e, p));
        Vec2i {
            x: (e.x + step_comp_spec(p.x - e.x, dist)) as i64,
            y: (e.y + step_comp_spec(p.y - e.y, dist)) as i64,
        }
    }
}

/// A position clamped into the arena's half-extents on both axes.
pub open spec fn clamp_pos_spec(v: Vec2i) -> Vec2i {
    Vec2i {
        x: clamp_spec(v.x as int, HALF_X as int) as i64,
        y: clamp_spec(v.y as int, HALF_Y as int) as i64,
    }
}

/// A drill's position after one full tick of homing: one step toward the
/// player, then the clamp.
pub open spec fn drill_tick_spec(e: Vec2i, p: Vec2i) -> Vec2i {
    clamp_pos_spec(drill_step_spec(e, p))
}

/// The one-axis step never overshoots the offset and never backs away.
proof fn lemma_step_comp_bounds(d: int, dist: int)
    requires
        0 < DRILL_STEP <= dist,
    ensures
        d >= 0 ==> 0 <= step_comp_spec(d, dist) <= d,
        d < 0 ==> d <= step_comp_spec(d, dist) <= 0,
{
    let a = abs_spec(d);
    lemma_div_pos_is_pos(a * DRILL_STEP, dist);
    lemma_mul_inequality(DRILL_STEP as int, dist, a);
    lemma_mul_is_commutative(DRILL_STEP as int, a);
    lemma_mul_is_commutative(dist, a);
    lemma_div_is_ordered(a * DRILL_STEP, a * dist, dist);
    lemma_mul_is_commutative(a, dist);
    lemma_div_multiples_vanish(a, dist);
}

/// A zero step on one axis means the offset's share of the step rounds
/// away entirely: |d| * DRILL_STEP < dist.
proof fn lemma_step_comp_zero(d: int, dist: int)
    requires
        0 < dist,
        step_comp_spec(d, dist) == 0,
    ensures
        abs_spec(d) * DRILL_STEP < dist,
{
    let a = abs_spec(d);
    assert(a * DRILL_STEP >= 0) by (nonlinear_arith)
        requires
            a >= 0,
    ;
    lemma_small_div_converse(a * DRILL_STEP, dist);
}

/// Moving one axis part of the way toward the target, without changing
/// sign or overshooting, shrinks that axis's square by at least the square
/// of the move.
proof fn lemma_axis_reduction(d: int, m: int)
    by (nonlinear_arith)
    requires
        d >= 0 ==> 0 <= m <= d,
        d < 0 ==> d <= m <= 0,
    ensures
        (d - m) * (d - m) <= d * d - m * m,
{
}

/// The heart of the homing proof: one unclamped steering step strictly
/// shrinks the squared distance when the drill is farther than one step.
proof fn lemma_step_reduces(dx: int, dy: int, r: int)
    requires
        is_sqrt(dx * dx + dy * dy, r),
        dx * dx + dy * dy > DRILL_STEP * DRILL_STEP,
        !(dx == 0 && dy == 0),
    ensures
        (dx - step_comp_spec(dx, r)) * (dx - step_comp_spec(dx, r)) + (dy - step_comp_spec(
            dy,
            r,
        )) * (dy - step_comp_spec(dy, r)) < dx * dx + dy * dy,
{
    let n = dx * dx + dy * dy;
    let s = DRILL_STEP as int;
    assert(r >= s) by (nonlinear_arith)
        requires
            r >= 0,
            s > 0,
            (r + 1) * (r + 1) > n,
            n > s * s,
    ;
    lemma_step_comp_bounds(dx, r);
    lemma_step_comp_bounds(dy, r);
    let mx = step_comp_spec(dx, r);
    let my = step_comp_spec(dy, r);
    if mx == 0 && my == 0 {
        lemma_step_comp_zero(dx, r);
        lemma_step_comp_zero(dy, r);
        let ax = abs_spec(dx);
        let ay = abs_spec(dy);
        assert(ax * ax == dx * dx && ay * ay == dy * dy) by (nonlinear_arith)
            requires
                ax == dx || ax == -dx,
                ay == dy || ay == -dy,
        ;
        assert(r <= ax + ay) by (nonlinear_arith)
            requires
                r >= 0,
                ax >= 0,
                ay >= 0,
                r * r <= ax * ax + ay * ay,
        ;
        assert(false) by (nonlinear_arith)
            requires
                ax * s < r,
                ay * s < r,
                r <= ax + ay,
                ax + ay >= 1,
                s == 3333,
        ;
    }
    lemma_axis_reduction(dx, mx);
    lemma_axis_reduction(dy, my);
    assert(mx * mx + my * my > 0) by (nonlinear_arith)
        requires
            !(mx == 0 && my == 0),
    ;
}

/// Clamping one axis toward an interval that contains the target never
/// moves that axis away from the target.
proof fn lemma_clamp_toward(v: int, t: int, bound: int)
    requires
        0 <= bound,
        -bound <= t <= bound,
    ensures
        abs_spec(clamp_spec(v, bound) - t) <= abs_spec(v - t),
{
}

/// |a| <= |b| carries over to the squares.
proof fn lemma_sq_monotone(a: int, b: int)
    by (nonlinear_arith)
    requires
        abs_spec(a) <= abs_spec(b),
    ensures
        a * a <= b * b,
{
}

/// Monotonic approach: a drill that is not exactly on the player ends
/// every tick strictly closer to the player, clamping included, provided
/// the player stands inside the arena's half-extents.
pub proof fn lemma_drill_tick_approaches(e: Vec2i, p: Vec2i)
    requires
        !(e.x == p.x && e.y == p.y),
        -HALF_X <= p.x <= HALF_X,
        -HALF_Y <= p.y <= HALF_Y,
    ensures
        dist2(drill_tick_spec(e, p), p) < dist2(e, p),
{
    let dx = p.x - e.x;
    let dy = p.y - e.y;
    let n = dist2(e, p);
    assert(n == dx * dx + dy * dy) by (nonlinear_arith)
        requires
            e.x - p.x == -dx,
            e.y - p.y == -dy,
            n == (e.x - p.x) * (e.x - p.x) + (e.y - p.y) * (e.y - p.y),
    ;
    assert(n > 0) by (nonlinear_arith)
        requires
            !(dx == 0 && dy == 0),
            n == dx * dx + dy * dy,
    ;
    let stepped = drill_step_spec(e, p);
    if n <= DRILL_STEP * DRILL_STEP {
        assert(stepped == p);
        assert(dist2(p, p) == 0) by (nonlinear_arith);
    } else {
        lemma_sqrt_floor(n);
        let r = sqrt_floor(n);
        lemma_step_reduces(dx, dy, r);
        assert(r >= DRILL_STEP) by (nonlinear_arith)
            requires
                r >= 0,
                DRILL_STEP > 0,
                (r + 1) * (r + 1) > n,
                n > DRILL_STEP * DRILL_STEP,
        ;
        lemma_step_comp_bounds(dx, r);
        lemma_step_comp_bounds(dy, r);
        let mx = step_comp_spec(dx, r);
        let my = step_comp_spec(dy, r);
        assert(stepped.x == e.x + mx && stepped.y == e.y + my);
        assert(stepped.x - p.x == -(dx - mx) && stepped.y - p.y == -(dy - my));
        assert(dist2(stepped, p) == (dx - mx) * (dx - mx) + (dy - my) * (dy - my))
            by (nonlinear_arith)
            requires
                stepped.x - p.x == -(dx - mx),
                stepped.y - p.y == -(dy - my),
                dist2(stepped, p) == (stepped.x - p.x) * (stepped.x - p.x) + (stepped.y - p.y) * (
                stepped.y - p.y),
        ;
        assert((dx - mx) * (dx - mx) + (dy - my) * (dy - my) < n);
    }
    assert(dist2(stepped, p) < n);
    let clamped = clamp_pos_spec(stepped);
    lemma_clamp_toward(stepped.x as int, p.x as int, HALF_X as int);
    lemma_clamp_toward(stepped.y as int, p.y as int, HALF_Y as int);
    lemma_sq_monotone(clamped.x - p.x, stepped.x - p.x);
    lemma_sq_monotone(clamped.y - p.y, stepped.y - p.y);
}

/// One axis of the homing step.
fn step_comp(d: i64, dist: i64) -> (m: i64)
    requires
        -2_000_000 <= d <= 2_000_000,
        DRILL_STEP <= dist <= 2_000_000,
    ensures
        m == step_comp_spec(d as int, dist as int),
        d >= 0 ==> 0 <= m <= d,
        d < 0 ==> d <= m <= 0,
{
    let a = abs_i64(d);
    assert(a * DRILL_STEP <= 2_000_000 * 3_333) by (nonlinear_arith)
        requires
            0 <= a <= 2_000_000,
    ;
    let q = ((a as u64) * (DRILL_STEP as u64)) / (dist as u64);
    proof {
        lemma_step_comp_bounds(d as int, dist as int);
    }
    let m = q as i64;
    if d >= 0 {
        m
    } else {
        -m
    }
}

/// One unclamped homing step of a drill at `e` toward the player at `p`.
pub fn drill_step(e: Vec2i, p: Vec2i) -> (r: Vec2i)
    requires
        -700_000 <= e.x <= 700_000,
        -700_000 <= e.y <= 700_000,
        -700_000 <= p.x <= 700_000,
        -700_000 <= p.y <= 700_000,
    ensures
        r == drill_step_spec(e, p),
{
    if e.x == p.x && e.y == p.y {
        return e;
    }
    let dx = p.x - e.x;
    let dy = p.y - e.y;
    assert(dx * dx + dy * dy <= 3_920_000_000_000 && dx * dx >= 0 && dy * dy >= 0)
        by (nonlinear_arith)
        requires
            -1_400_000 <= dx <= 1_400_000,
            -1_400_000 <= dy <= 1_400_000,
    ;
    let d2 = dx * dx + dy * dy;
    proof {
        assert(d2 == dist2(e, p)) by (nonlinear_arith)
            requires
                e.x - p.x == -dx,
                e.y - p.y == -dy,
                d2 == dx * dx + dy * dy,
                dist2(e, p) == (e.x - p.x) * (e.x - p.x) + (e.y - p.y) * (e.y - p.y),
        ;
    }
    if d2 <= DRILL_STEP * DRILL_STEP {
        return p;
    }
    let dist = isqrt(d2);
    proof {
        assert(dist >= DRILL_STEP) by (nonlinear_arith)
            requires
                dist >= 0,
                DRILL_STEP > 0,
                (dist + 1) * (dist + 1) > d2,
                d2 > DRILL_STEP * DRILL_STEP,
        ;
    }
    let mx = step_comp(dx, dist);
    let my = step_comp(dy, dist);
    Vec2i { x: e.x + mx, y: e.y + my }
}

/// The full homing tick: one step toward the player, then the clamp.
pub fn drill_tick(e: Vec2i, p: Vec2i) -> (r: Vec2i)
    requires
        -700_000 <= e.x <= 700_000,
        -700_000 <= e.y <= 700_000,
        -700_000 <= p.x <= 700_000,
        -700_000 <= p.y <= 700_000,
    ensures
        r == drill_tick_spec(e, p),
        -HALF_X <= r.x <= HALF_X,
        -HALF_Y <= r.y <= HALF_Y,
{
    let stepped = drill_step(e, p);
    Vec2i { x: clamp_i64(stepped.x, HALF_X), y: clamp_i64(stepped.y, HALF_Y) }
}

} // verus!
