//! The four cardinal directions and the closest-direction classifier.

use vstd::prelude::*;

use crate::fixed::{abs_int, spec_angle_between, Vec2, ANGLE_ARG_LIMIT, SCALE};

verus! {

/// One of the four sides of the screen.  Each variant carries three fixed
/// unit vectors: an axis-aligned origin and two diagonal corners at 45
/// degrees on either side of it.
#[derive(Clone, Copy, PartialEq, Eq, Structural, Debug)]
pub enum OriginDirection {
    Up,
    Right,
    Down,
    Left,
}

impl OriginDirection {
    /// The axis-aligned unit vector of this direction.
    pub open spec fn spec_origin(self) -> Vec2 {
        match self {
            OriginDirection::Up => Vec2 { x: 0, y: SCALE },
            OriginDirection::Right => Vec2 { x: SCALE, y: 0 },
            OriginDirection::Down => Vec2 { x: 0, y: ((-SCALE) as i64) },
            OriginDirection::Left => Vec2 { x: ((-SCALE) as i64), y: 0 },
        }
    }

    /// The diagonal corner 45 degrees counterclockwise of the origin.
    pub open spec fn spec_left_corner(self) -> Vec2 {
        match self {
            OriginDirection::Up => Vec2 { x: ((-SCALE) as i64), y: SCALE },
            OriginDirection::Right => Vec2 { x: SCALE, y: SCALE },
            OriginDirection::Down => Vec2 { x: SCALE, y: ((-SCALE) as i64) },
            OriginDirection::Left => Vec2 { x: ((-SCALE) as i64), y: ((-SCALE) as i64) },
        }
    }

    /// The diagonal corner 45 degrees clockwise of the origin.
    pub open spec fn spec_right_corner(self) -> Vec2 {
        match self {
            OriginDirection::Up => Vec2 { x: SCALE, y: SCALE },
            OriginDirection::Right => Vec2 { x: SCALE, y: ((-SCALE) as i64) },
            OriginDirection::Down => Vec2 { x: ((-SCALE) as i64), y: ((-SCALE) as i64) },
            OriginDirection::Left => Vec2 { x: ((-SCALE) as i64), y: SCALE },
        }
    }

    /// The axis-aligned unit vector of this direction.
    pub fn origin(&self) -> (r: Vec2)
        ensures
            r == self.spec_origin(),
    {
        match self {
            OriginDirection::Up => Vec2 { x: 0, y: SCALE },
            OriginDirection::Right => Vec2 { x: SCALE, y: 0 },
            OriginDirection::Down => Vec2 { x: 0, y: -SCALE },
            OriginDirection::Left => Vec2 { x: -SCALE, y: 0 },
        }
    }

    /// The diagonal corner 45 degrees counterclockwise of the origin.
    pub fn left_corner(&self) -> (r: Vec2)
        ensures
            r == self.spec_left_corner(),
    {
        match self {
            OriginDirection::Up => Vec2 { x: -SCALE, y: SCALE },
            OriginDirection::Right => Vec2 { x: SCALE, y: SCALE },
            OriginDirection::Down => Vec2 { x: SCALE, y: -SCALE },
            OriginDirection::Left => Vec2 { x: -SCALE, y: -SCALE },
        }
    }

    /// The diagonal corner 45 degrees clockwise of the origin.
    pub fn right_corner(&self) -> (r: Vec2)
        ensures
            r == self.spec_right_corner(),
    {
        match self {
            OriginDirection::Up => Vec2 { x: SCALE, y: SCALE },
            OriginDirection::Right => Vec2 { x: SCALE, y: -SCALE },
            OriginDirection::Down => Vec2 { x: -SCALE, y: -SCALE },
            OriginDirection::Left => Vec2 { x: -SCALE, y: SCALE },
        }
    }

    /// The direction whose origin vector has the smallest absolute angle to
    /// `vector`.  Directions are scanned in the order Up, Right, Down, Left
    /// and a strictly smaller angle is needed to replace the running best,
    /// so ties keep the earlier direction.
    pub fn closest(vector: Vec2) -> (r: OriginDirection)
        requires
            -ANGLE_ARG_LIMIT <= vector.x <= ANGLE_ARG_LIMIT,
            -ANGLE_ARG_LIMIT <= vector.y <= ANGLE_ARG_LIMIT,
        ensures
            r == spec_closest(vector),
            spec_abs_angle(vector, r) <= spec_abs_angle(vector, OriginDirection::Up),
            spec_abs_angle(vector, r) <= spec_abs_angle(vector, OriginDirection::Right),
            spec_abs_angle(vector, r) <= spec_abs_angle(vector, OriginDirection::Down),
            spec_abs_angle(vector, r) <= spec_abs_angle(vector, OriginDirection::Left),
    {
        let au = abs_angle(vector, OriginDirection::Up);
        let ar = abs_angle(vector, OriginDirection::Right);
        let ad = abs_angle(vector, OriginDirection::Down);
        let al = abs_angle(vector, OriginDirection::Left);
        let mut returned = OriginDirection::Up;
        let mut closest_diff = au;
        if ar < closest_diff {
            returned = OriginDirection::Right;
            closest_diff = ar;
        }
        if ad < closest_diff {
            returned = OriginDirection::Down;
            closest_diff = ad;
        }
        if al < closest_diff {
            returned = OriginDirection::Left;
            closest_diff = al;
        }
        returned
    }
}

/// The absolute angle between `v` and the origin vector of `d`.
pub open spec fn spec_abs_angle(v: Vec2, d: OriginDirection) -> int {
    abs_int(spec_angle_between(v, d.spec_origin()))
}

/// The direction returned by `OriginDirection::closest`.
pub open spec fn spec_closest(v: Vec2) -> OriginDirection {
    let au = spec_abs_angle(v, OriginDirection::Up);
    let ar = spec_abs_angle(v, OriginDirection::Right);
    let ad = spec_abs_angle(v, OriginDirection::Down);
    let al = spec_abs_angle(v, OriginDirection::Left);
    let b1 = if ar < au {
        ar
    } else {
        au
    };
    let b2 = if ad < b1 {
        ad
    } else {
        b1
    };
    if al < b2 {
        OriginDirection::Left
    } else if ad < b1 {
        OriginDirection::Down
    } else if ar < au {
        OriginDirection::Right
    } else {
        OriginDirection::Up
    }
}

/// The absolute angle between `v` and the origin vector of `d`.
fn abs_angle(v: Vec2, d: OriginDirection) -> (r: i64)
    requires
        -ANGLE_ARG_LIMIT <= v.x <= ANGLE_ARG_LIMIT,
        -ANGLE_ARG_LIMIT <= v.y <= ANGLE_ARG_LIMIT,
    ensures
        r == spec_abs_angle(v, d),
{
    let a = v.angle_between(d.origin());
    if a >= 0 {
        a
    } else {
        -a
    }
}

/// A cardinal origin vector is classified as its own direction: querying
/// `closest` on the origin of a direction returns that direction.
pub proof fn lemma_closest_cardinal(d: OriginDirection)
    ensures
        spec_closest(d.spec_origin()) == d,
{
    match d {
        OriginDirection::Up => {
            let v = Vec2 { x: 0, y: SCALE };
            assert(spec_abs_angle(v, OriginDirection::Up) == 0
                && spec_abs_angle(v, OriginDirection::Right) == SCALE
                && spec_abs_angle(v, OriginDirection::Down) == 2 * SCALE
                && spec_abs_angle(v, OriginDirection::Left) == SCALE) by (nonlinear_arith)
                requires
                    v == (Vec2 { x: 0i64, y: 10000i64 }),
                    SCALE == 10000,
            ;
        },
        OriginDirection::Right => {
            let v = Vec2 { x: SCALE, y: 0 };
            assert(spec_abs_angle(v, OriginDirection::Up) == SCALE
                && spec_abs_angle(v, OriginDirection::Right) == 0
                && spec_abs_angle(v, OriginDirection::Down) == SCALE
                && spec_abs_angle(v, OriginDirection::Left) == 2 * SCALE) by (nonlinear_arith)
                requires
                    v == (Vec2 { x: 10000i64, y: 0i64 }),
                    SCALE == 10000,
            ;
        },
        OriginDirection::Down => {
            let v = Vec2 { x: 0, y: ((-SCALE) as i64) };
            assert(spec_abs_angle(v, OriginDirection::Up) == 2 * SCALE
                && spec_abs_angle(v, OriginDirection::Right) == SCALE
                && spec_abs_angle(v, OriginDirection::Down) == 0
                && spec_abs_angle(v, OriginDirection::Left) == SCALE) by (nonlinear_arith)
                requires
                    v == (Vec2 { x: 0i64, y: -10000i64 }),
                    SCALE == 10000,
            ;
        },
        OriginDirection::Left => {
            let v = Vec2 { x: ((-SCALE) as i64), y: 0 };
            assert(spec_abs_angle(v, OriginDirection::Up) == SCALE
                && spec_abs_angle(v, OriginDirection::Right) == 2 * SCALE
                && spec_abs_angle(v, OriginDirection::Down) == SCALE
                && spec_abs_angle(v, OriginDirection::Left) == 0) by (nonlinear_arith)
                requires
                    v == (Vec2 { x: -10000i64, y: 0i64 }),
                    SCALE == 10000,
            ;
        },
    }
}

/// The classifier is idempotent: re-querying `closest` on the origin vector
/// of the direction it returned gives the same direction again.
pub proof fn lemma_closest_idempotent(v: Vec2)
    ensures
        spec_closest(spec_closest(v).spec_origin()) == spec_closest(v),
{
    lemma_closest_cardinal(spec_closest(v));
}

} // verus!
