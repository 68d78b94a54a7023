//! Per-tick orientation movement: explicit rotation from key input, and
//! auto-centering toward the closest cardinal direction when no key is held.

use vstd::prelude::*;

use crate::direction::{spec_closest, OriginDirection};
use crate::fixed::{abs_int, div_i64, div_trunc, spec_angle_between, Vec2, SCALE};
use crate::play_area::{
    lemma_orientation_component_bound, orientation_ok, PlayArea, ORIENT_LIMIT,
};

verus! {

/// Cosine of the 5-degree explicit rotation step, in `SCALE` units.  Both
/// rotation constants are rounded toward zero, so the squared norm of the
/// constant pair stays at most `SCALE * SCALE` and repeated rotation never
/// grows the orientation's magnitude.
pub const ROTATE_COS: i64 = 9961;

/// Sine of the 5-degree explicit rotation step, in `SCALE` units.
pub const ROTATE_SIN: i64 = 871;

/// Cosine of the 2.5-degree auto-centering correction step.
pub const SNAP_COS: i64 = 9990;

/// Sine of the 2.5-degree auto-centering correction step.
pub const SNAP_SIN: i64 = 436;

/// Deadband below which auto-centering stops correcting, in fixed-point
/// angle units (about 0.01 radians, since the angle measure agrees with
/// radians near zero).
pub const SNAP_THRESHOLD: i64 = 100;

/// `v` rotated by the angle whose cosine and sine are `cos_v / SCALE` and
/// `sin_v / SCALE` (counterclockwise for positive sine).
pub open spec fn spec_rotate(v: Vec2, cos_v: int, sin_v: int) -> Vec2 {
    Vec2 {
        x: div_trunc(v.x * cos_v - v.y * sin_v, SCALE as int) as i64,
        y: div_trunc(v.x * sin_v + v.y * cos_v, SCALE as int) as i64,
    }
}

/// The orientation after one movement tick: a 5-degree step in the key's
/// direction while a key is held (both keys cancel); otherwise a 2.5-degree
/// correction toward the closest cardinal direction, unless the deviation
/// already lies within the deadband, in which case the orientation stays
/// put.
pub open spec fn spec_next_orientation(o: Vec2, left_pressed: bool, right_pressed: bool) -> Vec2 {
    let dir0 = (if left_pressed {
        -1int
    } else {
        0int
    }) + (if right_pressed {
        1int
    } else {
        0int
    });
    if dir0 != 0 {
        spec_rotate(o, ROTATE_COS as int, dir0 * (ROTATE_SIN as int))
    } else {
        let a = spec_angle_between(spec_closest(o).spec_origin(), o);
        if abs_int(a) > SNAP_THRESHOLD {
            spec_rotate(
                o,
                SNAP_COS as int,
                (if a < 0 {
                    1int
                } else {
                    -1int
                }) * (SNAP_SIN as int),
            )
        } else {
            o
        }
    }
}

/// `v` rotated by the angle with the given fixed-point cosine and sine.
fn rotate(v: Vec2, cos_v: i64, sin_v: i64) -> (r: Vec2)
    requires
        -ORIENT_LIMIT <= v.x <= ORIENT_LIMIT,
        -ORIENT_LIMIT <= v.y <= ORIENT_LIMIT,
        -SCALE <= cos_v <= SCALE,
        -SCALE <= sin_v <= SCALE,
    ensures
        r == spec_rotate(v, cos_v as int, sin_v as int),
{
    proof {
        assert(abs_int(v.x * cos_v) <= 800_000_000 && abs_int(v.y * sin_v) <= 800_000_000
            && abs_int(v.x * sin_v) <= 800_000_000 && abs_int(v.y * cos_v) <= 800_000_000)
            by (nonlinear_arith)
            requires
                -ORIENT_LIMIT <= v.x <= ORIENT_LIMIT,
                -ORIENT_LIMIT <= v.y <= ORIENT_LIMIT,
                -SCALE <= cos_v <= SCALE,
                -SCALE <= sin_v <= SCALE,
                ORIENT_LIMIT == 80_000,
                SCALE == 10000,
        ;
    }
    Vec2 {
        x: div_i64(v.x * cos_v - v.y * sin_v, SCALE),
        y: div_i64(v.x * sin_v + v.y * cos_v, SCALE),
    }
}

/// Rotating by any of the four movement constant pairs never grows the
/// orientation's squared norm: the constants are rounded toward zero, so
/// their squared norm is below `SCALE * SCALE`, and truncation only shrinks
/// magnitudes further.
pub proof fn lemma_rotate_keeps_orientation_ok(v: Vec2, cos_v: int, sin_v: int)
    requires
        orientation_ok(v),
        (cos_v == ROTATE_COS && (sin_v == ROTATE_SIN || sin_v == -ROTATE_SIN)) || (cos_v
            == SNAP_COS && (sin_v == SNAP_SIN || sin_v == -SNAP_SIN)),
    ensures
        orientation_ok(spec_rotate(v, cos_v, sin_v)),
{
    let x = v.x as int;
    let y = v.y as int;
    let a = x * cos_v - y * sin_v;
    let b = x * sin_v + y * cos_v;
    let qa = div_trunc(a, SCALE as int);
    let qb = div_trunc(b, SCALE as int);
    crate::fixed::lemma_div_trunc_magnitude(a, SCALE as int);
    crate::fixed::lemma_div_trunc_magnitude(b, SCALE as int);
    lemma_orientation_component_bound(v);
    assert(abs_int(a) <= 1_600_000_000 && abs_int(b) <= 1_600_000_000) by (nonlinear_arith)
        requires
            -80_000 <= x <= 80_000,
            -80_000 <= y <= 80_000,
            -10000 <= cos_v <= 10000,
            -10000 <= sin_v <= 10000,
            a == x * cos_v - y * sin_v,
            b == x * sin_v + y * cos_v,
    ;
    assert(abs_int(qa) <= 160_000 && abs_int(qb) <= 160_000) by (nonlinear_arith)
        requires
            abs_int(qa) * SCALE <= abs_int(a),
            abs_int(qb) * SCALE <= abs_int(b),
            abs_int(a) <= 1_600_000_000,
            abs_int(b) <= 1_600_000_000,
            0 <= abs_int(qa),
            0 <= abs_int(qb),
            SCALE == 10000,
    ;
    assert(a * a + b * b <= 100_000_000 * (x * x + y * y) && 0 <= x * x + y * y)
        by (nonlinear_arith)
        requires
            a == x * cos_v - y * sin_v,
            b == x * sin_v + y * cos_v,
            (cos_v == 9961 && (sin_v == 871 || sin_v == -871)) || (cos_v == 9990 && (sin_v == 436
                || sin_v == -436)),
    ;
    assert(x * x + y * y <= 6_400_000_000) by (nonlinear_arith)
        requires
            x == v.x,
            y == v.y,
            v.x * v.x + v.y * v.y <= 6_400_000_000i64,
    ;
    assert(qa * qa + qb * qb <= 6_400_000_000) by (nonlinear_arith)
        requires
            abs_int(qa) * SCALE <= abs_int(a),
            abs_int(qb) * SCALE <= abs_int(b),
            a * a + b * b <= 100_000_000 * (x * x + y * y),
            x * x + y * y <= 6_400_000_000,
            SCALE == 10000,
            0 <= abs_int(qa),
            0 <= abs_int(qb),
    ;
    assert(orientation_ok(spec_rotate(v, cos_v, sin_v))) by (nonlinear_arith)
        requires
            spec_rotate(v, cos_v, sin_v) == (Vec2 { x: qa as i64, y: qb as i64 }),
            qa * qa + qb * qb <= 6_400_000_000,
            abs_int(qa) <= 160_000,
            abs_int(qb) <= 160_000,
            ORIENT_LIMIT == 80_000,
    ;
}

/// One movement tick.  A held key rotates the orientation by the fixed
/// 5-degree step (Left clockwise, Right counterclockwise; both keys cancel).
/// With no key held, the orientation is corrected by the reduced 2.5-degree
/// step toward the closest cardinal direction, unless its deviation from
/// that direction already lies within the deadband, in which case nothing
/// moves this tick.
pub fn play_area_movement(play_area: &mut PlayArea, left_pressed: bool, right_pressed: bool)
    requires
        old(play_area).wf(),
    ensures
        final(play_area).wf(),
        final(play_area).orientation == spec_next_orientation(
            old(play_area).orientation,
            left_pressed,
            right_pressed,
        ),
        final(play_area).max_play_area == old(play_area).max_play_area,
        final(play_area).horizontal_main_area == old(play_area).horizontal_main_area,
        final(play_area).horizontal_side_area == old(play_area).horizontal_side_area,
        final(play_area).vertical_main_area == old(play_area).vertical_main_area,
        final(play_area).vertical_side_area == old(play_area).vertical_side_area,
{
    proof {
        lemma_orientation_component_bound(play_area.orientation);
    }
    let mut direction: i64 = 0;
    let mut snap = false;
    if left_pressed {
        direction = direction - 1;
    }
    if right_pressed {
        direction = direction + 1;
    }
    if direction == 0 {
        let closest_cardinal_direction = OriginDirection::closest(play_area.orientation());
        let angle_between = closest_cardinal_direction.origin().angle_between(
            play_area.orientation(),
        );
        let deviation = if angle_between >= 0 {
            angle_between
        } else {
            -angle_between
        };
        if deviation > SNAP_THRESHOLD {
            direction = if angle_between < 0 {
                1
            } else {
                -1
            };
            snap = true;
        }
    }
    if direction == 0 {
        return ;
    }
    let cos_v = if snap {
        SNAP_COS
    } else {
        ROTATE_COS
    };
    let sin_base = if snap {
        SNAP_SIN
    } else {
        ROTATE_SIN
    };
    let sin_v = if direction < 0 {
        -sin_base
    } else {
        sin_base
    };
    proof {
        assert(SNAP_COS * SNAP_COS + SNAP_SIN * SNAP_SIN <= SCALE * SCALE && ROTATE_COS
            * ROTATE_COS + ROTATE_SIN * ROTATE_SIN <= SCALE * SCALE) by (nonlinear_arith)
            requires
                SNAP_COS == 9990,
                SNAP_SIN == 436,
                ROTATE_COS == 9961,
                ROTATE_SIN == 871,
                SCALE == 10000,
        ;
        lemma_rotate_keeps_orientation_ok(
            play_area.orientation,
            cos_v as int,
            sin_v as int,
        );
    }
    let rotated_orientation = rotate(play_area.orientation(), cos_v, sin_v);
    play_area.set_orientation(rotated_orientation);
}

/// Once the orientation lies within the deadband of its closest cardinal
/// direction, a movement tick without key input leaves it exactly where it
/// is: auto-centering settles instead of oscillating around the axis.
pub proof fn lemma_snap_settles(o: Vec2)
    requires
        abs_int(spec_angle_between(spec_closest(o).spec_origin(), o)) <= SNAP_THRESHOLD as int,
    ensures
        spec_next_orientation(o, false, false) == o,
{
}

} // verus!
