//! The layout engine: screen bounds, orientation, and the four panels.

use vstd::prelude::*;

use crate::direction::OriginDirection;
use crate::fixed::{
    abs_int, div_i64, div_trunc, lemma_div_trunc_magnitude,
    lemma_lerp_between, lemma_lerp_full, lemma_lerp_monotone,
    lemma_lerp_zero, lerp2, spec_angle_between, spec_clamp, spec_lerp, spec_lerp2, clamp,
    Vec2, ANGLE_ARG_LIMIT, COORD_LIMIT, FRACTION_LIMIT, SCALE,
};

verus! {

/// Largest screen dimension (in pixels) accepted by the engine.
pub const MAX_DIM: i64 = 65536;

/// Numerator and denominator of the rational approximation of the square
/// root of two used by `bounds`: 19601 / 13860 exceeds it by less than one
/// part in seven hundred million, and 13860 / 19601 falls short of its
/// reciprocal by the same margin.
pub const SQRT2_NUM: i64 = 19601;

/// See `SQRT2_NUM`.
pub const SQRT2_DEN: i64 = 13860;

/// Bound on the squared Euclidean norm of an orientation vector, as the
/// square of this component cap: orientations of magnitude up to eight
/// units are accepted, so every intermediate product fits in an `i64`.
pub const ORIENT_LIMIT: i64 = 80_000;

/// Magnitude cap on a stored area component: `MAX_DIM * SCALE`.
pub const AREA_LIMIT: i64 = 655_360_000;

/// Magnitude cap on a panel size component produced from in-range areas.
pub const SIZE_LIMIT: i64 = 6_000_000_000;

/// Both components of the initial orientation: `SCALE / sqrt(2)` rounded
/// down, so the initial orientation is the normalized (0.5, 0.5), pointing
/// exactly between Up and Right.
pub const INITIAL_ORIENTATION_COMPONENT: i64 = 7071;

/// An orientation is accepted whenever its squared norm is bounded; unit
/// vectors are the intended inputs, but nothing forces them.
pub open spec fn orientation_ok(o: Vec2) -> bool {
    o.x * o.x + o.y * o.y <= ORIENT_LIMIT * ORIENT_LIMIT
}

/// A bounded squared norm bounds each component.
pub proof fn lemma_orientation_component_bound(o: Vec2)
    requires
        orientation_ok(o),
    ensures
        -ORIENT_LIMIT <= o.x <= ORIENT_LIMIT,
        -ORIENT_LIMIT <= o.y <= ORIENT_LIMIT,
{
    assert(-80000 <= o.x <= 80000 && -80000 <= o.y <= 80000) by (nonlinear_arith)
        requires
            o.x * o.x + o.y * o.y <= 6_400_000_000i64,
    ;
}

/// `n` rounded down to the nearest even integer (`n` nonnegative).
pub open spec fn spec_floor_even(n: int) -> int {
    (n / 2) * 2
}

/// `n` rounded down to the nearest even integer.
pub fn floor_even(n: i64) -> (r: i64)
    requires
        0 <= n,
    ensures
        r == spec_floor_even(n as int),
        r % 2 == 0,
        0 <= r <= n,
{
    proof {
        vstd::arithmetic::div_mod::lemma_fundamental_div_mod(n as int, 2);
        vstd::arithmetic::div_mod::lemma_div_pos_is_pos(n as int, 2);
        vstd::arithmetic::div_mod::lemma_mod_multiples_basic(n as int / 2, 2);
    }
    (n / 2) * 2
}

/// The main and side rectangle sizes (in pixels) for one screen axis, before
/// swapping: the main rectangle is as tall as the screen and `1 / sqrt(2)`
/// as wide, unless two such rectangles would overflow the width, in which
/// case half the width is taken and the height follows from the ratio.
pub open spec fn spec_bounds_main(width: int, height: int) -> (int, int) {
    let mw0 = spec_floor_even(height * (SQRT2_DEN as int) / (SQRT2_NUM as int));
    let mh0 = spec_floor_even(height);
    if mw0 * 2 > width {
        let mw = spec_floor_even(width / 2);
        (mw, spec_floor_even(mw * (SQRT2_NUM as int) / (SQRT2_DEN as int)))
    } else {
        (mw0, mh0)
    }
}

/// The main and side rectangle sizes for one screen axis, with the side
/// rectangle as wide as the main one and half as tall, components swapped
/// when `swap_xy` is set (the same formula serves both screen axes).
pub open spec fn spec_bounds(width: int, height: int, swap_xy: bool) -> (Vec2, Vec2) {
    let mw = spec_bounds_main(width, height).0;
    let mh = spec_bounds_main(width, height).1;
    let sw = mw;
    let sh = spec_floor_even(mh / 2);
    if swap_xy {
        (Vec2 { x: mh as i64, y: mw as i64 }, Vec2 { x: sh as i64, y: sw as i64 })
    } else {
        (Vec2 { x: mw as i64, y: mh as i64 }, Vec2 { x: sw as i64, y: sh as i64 })
    }
}

/// A pixel-sized vector converted to fixed-point units.
pub open spec fn spec_to_scaled(v: Vec2) -> Vec2 {
    Vec2 { x: (v.x * SCALE) as i64, y: (v.y * SCALE) as i64 }
}

/// A pixel-sized vector converted to fixed-point units.
fn to_scaled(v: Vec2) -> (r: Vec2)
    requires
        0 <= v.x <= MAX_DIM,
        0 <= v.y <= MAX_DIM,
    ensures
        r == spec_to_scaled(v),
        0 <= r.x <= AREA_LIMIT,
        0 <= r.y <= AREA_LIMIT,
{
    proof {
        assert(0 <= v.x * SCALE <= AREA_LIMIT && 0 <= v.y * SCALE <= AREA_LIMIT)
            by (nonlinear_arith)
            requires
                0 <= v.x <= MAX_DIM,
                0 <= v.y <= MAX_DIM,
                SCALE == 10000,
                MAX_DIM == 65536,
                AREA_LIMIT == 655_360_000,
        ;
    }
    Vec2 { x: v.x * SCALE, y: v.y * SCALE }
}

/// One fixed-point component scaled by a unit-box component `u / SCALE`
/// (`u` ranges over `[-SCALE, SCALE]`).
pub open spec fn spec_scale_component(a: int, u: int) -> int {
    div_trunc(a * u, SCALE as int)
}

/// Componentwise product of a half-size vector with a corner or origin
/// vector whose components lie in the unit box.
pub open spec fn spec_corner_point(h: Vec2, u: Vec2) -> Vec2 {
    Vec2 {
        x: spec_scale_component(h.x as int, u.x as int) as i64,
        y: spec_scale_component(h.y as int, u.y as int) as i64,
    }
}

/// Componentwise product of a half-size vector with a unit-box vector.
fn corner_point(h: Vec2, u: Vec2) -> (r: Vec2)
    requires
        -COORD_LIMIT <= h.x <= COORD_LIMIT,
        -COORD_LIMIT <= h.y <= COORD_LIMIT,
        -SCALE <= u.x <= SCALE,
        -SCALE <= u.y <= SCALE,
    ensures
        r == spec_corner_point(h, u),
        abs_int(r.x as int) <= abs_int(h.x as int),
        abs_int(r.y as int) <= abs_int(h.y as int),
{
    proof {
        assert(abs_int(h.x * u.x) <= abs_int(h.x as int) * SCALE && abs_int(h.y * u.y) <= abs_int(
            h.y as int,
        ) * SCALE) by (nonlinear_arith)
            requires
                -SCALE <= u.x <= SCALE,
                -SCALE <= u.y <= SCALE,
                0 < SCALE,
        ;
        assert(abs_int(h.x as int) * SCALE <= COORD_LIMIT * SCALE && abs_int(h.y as int) * SCALE
            <= COORD_LIMIT * SCALE) by (nonlinear_arith)
            requires
                abs_int(h.x as int) <= COORD_LIMIT,
                abs_int(h.y as int) <= COORD_LIMIT,
                0 < SCALE,
        ;
        assert(COORD_LIMIT * SCALE == 100_000_000_000_000int) by (nonlinear_arith)
            requires
                COORD_LIMIT == 10_000_000_000,
                SCALE == 10000,
        ;
        lemma_div_trunc_magnitude(h.x * u.x, SCALE as int);
        lemma_div_trunc_magnitude(h.y * u.y, SCALE as int);
        assert(forall|q: int, hh: int|
            abs_int(q) * SCALE <= abs_int(hh) * SCALE ==> abs_int(q) <= abs_int(hh))
            by (nonlinear_arith)
            requires
                0 < SCALE,
        ;
    }
    let px: i64 = h.x * u.x;
    let py: i64 = h.y * u.y;
    Vec2 { x: div_i64(px, SCALE), y: div_i64(py, SCALE) }
}

/// Each component halved, truncating toward zero.
pub open spec fn spec_half(v: Vec2) -> Vec2 {
    Vec2 { x: div_trunc(v.x as int, 2) as i64, y: div_trunc(v.y as int, 2) as i64 }
}

/// Each component halved, truncating toward zero.
fn half(v: Vec2) -> (r: Vec2)
    requires
        -COORD_LIMIT <= v.x <= COORD_LIMIT,
        -COORD_LIMIT <= v.y <= COORD_LIMIT,
    ensures
        r == spec_half(v),
        abs_int(r.x as int) <= abs_int(v.x as int),
        abs_int(r.y as int) <= abs_int(v.y as int),
{
    proof {
        lemma_div_trunc_magnitude(v.x as int, 2);
        lemma_div_trunc_magnitude(v.y as int, 2);
    }
    Vec2 { x: div_i64(v.x, 2), y: div_i64(v.y, 2) }
}

/// A panel size component stays within `SIZE_LIMIT` when the interpolated
/// areas are in range.
proof fn lemma_scale_component_bounded(a: int, b: int, t: int)
    requires
        0 <= a <= AREA_LIMIT,
        0 <= b <= AREA_LIMIT,
        -FRACTION_LIMIT <= t <= FRACTION_LIMIT,
    ensures
        -SIZE_LIMIT <= spec_lerp(a, b, t) <= SIZE_LIMIT,
{
    lemma_div_trunc_magnitude((b - a) * t, SCALE as int);
    assert(abs_int((b - a) * t) <= 52_428_800_000_000int) by (nonlinear_arith)
        requires
            0 <= a <= AREA_LIMIT,
            0 <= b <= AREA_LIMIT,
            -FRACTION_LIMIT <= t <= FRACTION_LIMIT,
            AREA_LIMIT == 655_360_000,
            FRACTION_LIMIT == 80_000,
    ;
    assert(abs_int(div_trunc((b - a) * t, SCALE as int)) <= 5_242_880_000int) by (nonlinear_arith)
        requires
            abs_int(div_trunc((b - a) * t, SCALE as int)) * SCALE <= abs_int((b - a) * t),
            abs_int((b - a) * t) <= 52_428_800_000_000int,
            SCALE == 10000,
    ;
}

/// A rectangle assigned to one cardinal direction: a center-anchored
/// position and a size, both fully derived from the owning play area's
/// orientation.
#[derive(Clone, Copy, PartialEq, Eq, Structural, Debug)]
pub struct PlayAreaPanel {
    pub size: Vec2,
    pub position: Vec2,
    pub origin_direction: OriginDirection,
}

impl Default for PlayAreaPanel {
    /// A zero-sized panel at the origin, assigned Up.
    fn default() -> (r: Self)
        ensures
            r == (PlayAreaPanel {
                size: Vec2 { x: 0, y: 0 },
                position: Vec2 { x: 0, y: 0 },
                origin_direction: OriginDirection::Up,
            }),
    {
        PlayAreaPanel {
            size: Vec2 { x: 0, y: 0 },
            position: Vec2 { x: 0, y: 0 },
            origin_direction: OriginDirection::Up,
        }
    }
}

impl PlayAreaPanel {
    /// The four zero-sized panels, one per direction, in slot order
    /// Up, Right, Down, Left.
    pub fn init_panel_spread() -> (r: [PlayAreaPanel; 4])
        ensures
            r[0] == (PlayAreaPanel {
                size: Vec2 { x: 0, y: 0 },
                position: Vec2 { x: 0, y: 0 },
                origin_direction: OriginDirection::Up,
            }),
            r[1] == (PlayAreaPanel {
                size: Vec2 { x: 0, y: 0 },
                position: Vec2 { x: 0, y: 0 },
                origin_direction: OriginDirection::Right,
            }),
            r[2] == (PlayAreaPanel {
                size: Vec2 { x: 0, y: 0 },
                position: Vec2 { x: 0, y: 0 },
                origin_direction: OriginDirection::Down,
            }),
            r[3] == (PlayAreaPanel {
                size: Vec2 { x: 0, y: 0 },
                position: Vec2 { x: 0, y: 0 },
                origin_direction: OriginDirection::Left,
            }),
    {
        [
            PlayAreaPanel {
                size: Vec2 { x: 0, y: 0 },
                position: Vec2 { x: 0, y: 0 },
                origin_direction: OriginDirection::Up,
            },
            PlayAreaPanel {
                size: Vec2 { x: 0, y: 0 },
                position: Vec2 { x: 0, y: 0 },
                origin_direction: OriginDirection::Right,
            },
            PlayAreaPanel {
                size: Vec2 { x: 0, y: 0 },
                position: Vec2 { x: 0, y: 0 },
                origin_direction: OriginDirection::Down,
            },
            PlayAreaPanel {
                size: Vec2 { x: 0, y: 0 },
                position: Vec2 { x: 0, y: 0 },
                origin_direction: OriginDirection::Left,
            },
        ]
    }
}

/// The size of the panel owned by direction `d`: the interpolation of the
/// panel's side and main areas by the orientation component that points at
/// `d` (positive toward `d`, negative away from it).
pub open spec fn spec_panel_size_for(main: Vec2, side: Vec2, s: int) -> Vec2 {
    if s >= 0 {
        spec_lerp2(side, main, s)
    } else {
        spec_lerp2(side, Vec2 { x: 0, y: 0 }, -s)
    }
}

/// The position of the panel owned by direction `d`: its half-size box is
/// slid from centered on the direction's axis toward one diagonal corner as
/// the orientation rotates away from that axis; a quarter turn of offset
/// reaches the corner exactly.
pub open spec fn spec_panel_position(orientation: Vec2, size: Vec2, d: OriginDirection) -> Vec2 {
    let h = spec_half(size);
    let s = spec_clamp(
        spec_angle_between(orientation, d.spec_origin()),
        -(SCALE as int),
        SCALE as int,
    );
    if s >= 0 {
        spec_lerp2(
            spec_corner_point(h, d.spec_origin()),
            spec_corner_point(h, d.spec_left_corner()),
            s,
        )
    } else {
        spec_lerp2(
            spec_corner_point(h, d.spec_origin()),
            spec_corner_point(h, d.spec_right_corner()),
            -s,
        )
    }
}

/// The layout engine: fixed area pairs computed once from the screen
/// bounds, the current orientation, and the four derived panels in slot
/// order Up, Right, Down, Left.
#[derive(Clone, Copy, Debug)]
pub struct PlayArea {
    pub max_play_area: Vec2,
    pub horizontal_main_area: Vec2,
    pub horizontal_side_area: Vec2,
    pub vertical_main_area: Vec2,
    pub vertical_side_area: Vec2,
    pub orientation: Vec2,
    pub panels: [PlayAreaPanel; 4],
}

impl PlayArea {
    /// The four area pairs lie in range and each side area fits inside its
    /// main area (equal widths along the axis, at most half the height).
    pub open spec fn areas_ok(self) -> bool {
        &&& 0 <= self.horizontal_main_area.x <= AREA_LIMIT
        &&& 0 <= self.horizontal_main_area.y <= AREA_LIMIT
        &&& 0 <= self.horizontal_side_area.x <= AREA_LIMIT
        &&& 0 <= self.horizontal_side_area.y <= AREA_LIMIT
        &&& 0 <= self.vertical_main_area.x <= AREA_LIMIT
        &&& 0 <= self.vertical_main_area.y <= AREA_LIMIT
        &&& 0 <= self.vertical_side_area.x <= AREA_LIMIT
        &&& 0 <= self.vertical_side_area.y <= AREA_LIMIT
        &&& self.horizontal_side_area.x == self.horizontal_main_area.x
        &&& self.horizontal_side_area.y <= self.horizontal_main_area.y
        &&& self.vertical_side_area.y == self.vertical_main_area.y
        &&& self.vertical_side_area.x <= self.vertical_main_area.x
    }

    /// The main area interpolated toward by the panel of direction `d`.
    pub open spec fn spec_main_area(self, d: OriginDirection) -> Vec2 {
        match d {
            OriginDirection::Up => self.vertical_main_area,
            OriginDirection::Right => self.horizontal_main_area,
            OriginDirection::Down => self.vertical_main_area,
            OriginDirection::Left => self.horizontal_main_area,
        }
    }

    /// The side area interpolated from by the panel of direction `d`.
    pub open spec fn spec_side_area(self, d: OriginDirection) -> Vec2 {
        match d {
            OriginDirection::Up => self.horizontal_side_area,
            OriginDirection::Right => self.vertical_side_area,
            OriginDirection::Down => self.horizontal_side_area,
            OriginDirection::Left => self.vertical_side_area,
        }
    }

    /// The signed interpolation fraction of the panel of direction `d`: the
    /// orientation component along the panel's axis.
    pub open spec fn spec_panel_scale(self, d: OriginDirection) -> int {
        match d {
            OriginDirection::Up => self.orientation.y as int,
            OriginDirection::Right => self.orientation.x as int,
            OriginDirection::Down => -(self.orientation.y as int),
            OriginDirection::Left => -(self.orientation.x as int),
        }
    }

    /// The panel of direction `d`, fully derived from the stored areas and
    /// the current orientation.
    pub open spec fn spec_panel(self, d: OriginDirection) -> PlayAreaPanel {
        let size = spec_panel_size_for(
            self.spec_main_area(d),
            self.spec_side_area(d),
            self.spec_panel_scale(d),
        );
        PlayAreaPanel {
            size,
            position: spec_panel_position(self.orientation, size, d),
            origin_direction: d,
        }
    }

    /// The four stored panels equal the panels derived from the current
    /// orientation, in slot order Up, Right, Down, Left.
    pub open spec fn panels_derived(self) -> bool {
        &&& self.panels[0] == self.spec_panel(OriginDirection::Up)
        &&& self.panels[1] == self.spec_panel(OriginDirection::Right)
        &&& self.panels[2] == self.spec_panel(OriginDirection::Down)
        &&& self.panels[3] == self.spec_panel(OriginDirection::Left)
    }

    /// Well-formedness: areas in range, orientation in range, and panels
    /// derived from the orientation.
    pub open spec fn wf(self) -> bool {
        &&& self.areas_ok()
        &&& orientation_ok(self.orientation)
        &&& self.panels_derived()
    }

    /// The panel size interpolated between `side_size` (at fraction 0) and
    /// `main_size` (at fraction `SCALE`); negative fractions interpolate
    /// from `side_size` down to zero instead.
    pub fn scale_panel_size(main_size: Vec2, side_size: Vec2, s: i64) -> (r: Vec2)
        requires
            0 <= main_size.x <= AREA_LIMIT,
            0 <= main_size.y <= AREA_LIMIT,
            0 <= side_size.x <= AREA_LIMIT,
            0 <= side_size.y <= AREA_LIMIT,
            -FRACTION_LIMIT <= s <= FRACTION_LIMIT,
        ensures
            r == spec_panel_size_for(main_size, side_size, s as int),
            -SIZE_LIMIT <= r.x <= SIZE_LIMIT,
            -SIZE_LIMIT <= r.y <= SIZE_LIMIT,
    {
        if s >= 0 {
            proof {
                lemma_scale_component_bounded(side_size.x as int, main_size.x as int, s as int);
                lemma_scale_component_bounded(side_size.y as int, main_size.y as int, s as int);
            }
            lerp2(side_size, main_size, s)
        } else {
            proof {
                lemma_scale_component_bounded(side_size.x as int, 0, -(s as int));
                lemma_scale_component_bounded(side_size.y as int, 0, -(s as int));
            }
            lerp2(side_size, Vec2 { x: 0, y: 0 }, -s)
        }
    }

    /// The position of a panel of size `panel_size` owned by
    /// `origin_direction`, under the current orientation.
    pub fn lerp_panel_position(&self, panel_size: Vec2, origin_direction: OriginDirection) -> (r:
        Vec2)
        requires
            -ANGLE_ARG_LIMIT <= self.orientation.x <= ANGLE_ARG_LIMIT,
            -ANGLE_ARG_LIMIT <= self.orientation.y <= ANGLE_ARG_LIMIT,
            -COORD_LIMIT <= panel_size.x <= COORD_LIMIT,
            -COORD_LIMIT <= panel_size.y <= COORD_LIMIT,
        ensures
            r == spec_panel_position(self.orientation, panel_size, origin_direction),
    {
        let half_area = half(panel_size);
        let s = clamp(
            self.orientation.angle_between(origin_direction.origin()),
            -SCALE,
            SCALE,
        );
        if s >= 0 {
            let corner_pt = corner_point(half_area, origin_direction.left_corner());
            let direction_pt = corner_point(half_area, origin_direction.origin());
            lerp2(direction_pt, corner_pt, s)
        } else {
            let corner_pt = corner_point(half_area, origin_direction.right_corner());
            let direction_pt = corner_point(half_area, origin_direction.origin());
            lerp2(direction_pt, corner_pt, -s)
        }
    }

    /// Recompute every panel from the current orientation.
    fn update_panels(&mut self)
        requires
            old(self).areas_ok(),
            orientation_ok(old(self).orientation),
        ensures
            final(self).panels_derived(),
            final(self).max_play_area == old(self).max_play_area,
            final(self).horizontal_main_area == old(self).horizontal_main_area,
            final(self).horizontal_side_area == old(self).horizontal_side_area,
            final(self).vertical_main_area == old(self).vertical_main_area,
            final(self).vertical_side_area == old(self).vertical_side_area,
            final(self).orientation == old(self).orientation,
    {
        proof {
            lemma_orientation_component_bound(self.orientation);
        }
        let size_up = Self::scale_panel_size(
            self.vertical_main_area,
            self.horizontal_side_area,
            self.orientation.y,
        );
        let size_right = Self::scale_panel_size(
            self.horizontal_main_area,
            self.vertical_side_area,
            self.orientation.x,
        );
        let size_down = Self::scale_panel_size(
            self.vertical_main_area,
            self.horizontal_side_area,
            -self.orientation.y,
        );
        let size_left = Self::scale_panel_size(
            self.horizontal_main_area,
            self.vertical_side_area,
            -self.orientation.x,
        );
        let pos_up = self.lerp_panel_position(size_up, OriginDirection::Up);
        let pos_right = self.lerp_panel_position(size_right, OriginDirection::Right);
        let pos_down = self.lerp_panel_position(size_down, OriginDirection::Down);
        let pos_left = self.lerp_panel_position(size_left, OriginDirection::Left);
        self.panels = [
            PlayAreaPanel {
                size: size_up,
                position: pos_up,
                origin_direction: OriginDirection::Up,
            },
            PlayAreaPanel {
                size: size_right,
                position: pos_right,
                origin_direction: OriginDirection::Right,
            },
            PlayAreaPanel {
                size: size_down,
                position: pos_down,
                origin_direction: OriginDirection::Down,
            },
            PlayAreaPanel {
                size: size_left,
                position: pos_left,
                origin_direction: OriginDirection::Left,
            },
        ];
    }

    /// Store `orientation` unchanged as the current orientation, then
    /// recompute every panel from it.  Reading the orientation back returns
    /// exactly the stored vector: no normalization is applied.
    pub fn set_orientation(&mut self, orientation: Vec2)
        requires
            old(self).areas_ok(),
            orientation_ok(orientation),
        ensures
            final(self).orientation == orientation,
            final(self).wf(),
            final(self).max_play_area == old(self).max_play_area,
            final(self).horizontal_main_area == old(self).horizontal_main_area,
            final(self).horizontal_side_area == old(self).horizontal_side_area,
            final(self).vertical_main_area == old(self).vertical_main_area,
            final(self).vertical_side_area == old(self).vertical_side_area,
    {
        self.orientation = orientation;
        self.update_panels();
    }

    /// A play area for a screen of the given size: the four area pairs are
    /// computed once from the bounds and never change afterward, and the
    /// orientation starts at the normalized (0.5, 0.5), between Up and
    /// Right.
    pub fn new(max_width: i64, max_height: i64) -> (r: PlayArea)
        requires
            0 <= max_width <= MAX_DIM,
            0 <= max_height <= MAX_DIM,
        ensures
            r.wf(),
            r.orientation == (Vec2 {
                x: INITIAL_ORIENTATION_COMPONENT,
                y: INITIAL_ORIENTATION_COMPONENT,
            }),
            r.horizontal_main_area == spec_to_scaled(
                spec_bounds(max_width as int, max_height as int, false).0,
            ),
            r.horizontal_side_area == spec_to_scaled(
                spec_bounds(max_width as int, max_height as int, false).1,
            ),
            r.vertical_main_area == spec_to_scaled(
                spec_bounds(max_height as int, max_width as int, true).0,
            ),
            r.vertical_side_area == spec_to_scaled(
                spec_bounds(max_height as int, max_width as int, true).1,
            ),
            r.max_play_area == (Vec2 {
                x: r.horizontal_main_area.y,
                y: r.vertical_main_area.x,
            }),
    {
        let horizontal = Self::bounds(max_width, max_height, false);
        let vertical = Self::bounds(max_height, max_width, true);
        let horizontal_main_area = to_scaled(horizontal.0);
        let horizontal_side_area = to_scaled(horizontal.1);
        let vertical_main_area = to_scaled(vertical.0);
        let vertical_side_area = to_scaled(vertical.1);
        let max_play_area = Vec2 { x: horizontal_main_area.y, y: vertical_main_area.x };
        let mut play_area = PlayArea {
            max_play_area,
            horizontal_main_area,
            horizontal_side_area,
            vertical_main_area,
            vertical_side_area,
            orientation: Vec2 { x: 0, y: 0 },
            panels: PlayAreaPanel::init_panel_spread(),
        };
        play_area.set_orientation(
            Vec2 { x: INITIAL_ORIENTATION_COMPONENT, y: INITIAL_ORIENTATION_COMPONENT },
        );
        play_area
    }

    /// The main and side rectangle sizes (in pixels) for one screen axis.
    /// Every component is even and nonnegative, and twice the main width (the
    /// `x` component, or `y` when swapped) never exceeds `width`, so two main
    /// rectangles always fit side by side across the axis.
    pub fn bounds(width: i64, height: i64, swap_xy: bool) -> (r: (Vec2, Vec2))
        requires
            0 <= width <= MAX_DIM,
            0 <= height <= MAX_DIM,
        ensures
            r == spec_bounds(width as int, height as int, swap_xy),
            0 <= r.0.x <= MAX_DIM && 0 <= r.0.y <= MAX_DIM,
            0 <= r.1.x <= MAX_DIM && 0 <= r.1.y <= MAX_DIM,
            r.0.x % 2 == 0 && r.0.y % 2 == 0 && r.1.x % 2 == 0 && r.1.y % 2 == 0,
            (if swap_xy {
                r.0.y
            } else {
                r.0.x
            }) * 2 <= width,
            (if swap_xy {
                r.1.y == r.0.y && r.1.x <= r.0.x
            } else {
                r.1.x == r.0.x && r.1.y <= r.0.y
            }),
    {
        proof {
            assert(0 <= height * SQRT2_DEN <= 1_000_000_000) by (nonlinear_arith)
                requires
                    0 <= height <= 65536,
                    SQRT2_DEN == 13860,
            ;
            assert(height * SQRT2_DEN <= height * SQRT2_NUM) by (nonlinear_arith)
                requires
                    0 <= height,
                    SQRT2_DEN == 13860,
                    SQRT2_NUM == 19601,
            ;
            vstd::arithmetic::div_mod::lemma_div_pos_is_pos(height * SQRT2_DEN, SQRT2_NUM as int);
            vstd::arithmetic::div_mod::lemma_div_is_ordered(
                height * SQRT2_DEN,
                height * SQRT2_NUM,
                SQRT2_NUM as int,
            );
            vstd::arithmetic::div_mod::lemma_div_multiples_vanish(height as int, SQRT2_NUM as int);
            assert(height * SQRT2_NUM == (SQRT2_NUM as int) * height) by (nonlinear_arith);
        }
        let mut main_width = floor_even(height * SQRT2_DEN / SQRT2_NUM);
        let mut main_height = floor_even(height);
        if main_width * 2 > width {
            main_width = floor_even(width / 2);
            assert(main_width * 2 <= width) by {
                vstd::arithmetic::div_mod::lemma_fundamental_div_mod(width as int, 2);
            };
            proof {
                assert(0 <= main_width * SQRT2_NUM <= 32768 * 19601) by (nonlinear_arith)
                    requires
                        0 <= main_width <= 32768,
                        SQRT2_NUM == 19601,
                ;
                vstd::arithmetic::div_mod::lemma_div_pos_is_pos(
                    main_width * SQRT2_NUM,
                    SQRT2_DEN as int,
                );
                vstd::arithmetic::div_mod::lemma_multiply_divide_le(
                    main_width * SQRT2_NUM,
                    SQRT2_DEN as int,
                    65536,
                );
                assert(main_width * SQRT2_NUM <= (SQRT2_DEN as int) * 65536) by (nonlinear_arith)
                    requires
                        0 <= main_width * SQRT2_NUM <= 32768 * 19601,
                        SQRT2_DEN == 13860,
                ;
            }
            main_height = floor_even(main_width * SQRT2_NUM / SQRT2_DEN);
        }
        let side_width = main_width;
        let side_height = floor_even(main_height / 2);
        proof {
            vstd::arithmetic::div_mod::lemma_div_pos_is_pos(main_height as int, 2);
            vstd::arithmetic::div_mod::lemma_div_nonincreasing(main_height as int, 2);
        }
        if swap_xy {
            (
                Vec2 { x: main_height, y: main_width },
                Vec2 { x: side_height, y: side_width },
            )
        } else {
            (
                Vec2 { x: main_width, y: main_height },
                Vec2 { x: side_width, y: side_height },
            )
        }
    }

    /// The current orientation, exactly as last stored.
    pub fn orientation(&self) -> (r: Vec2)
        ensures
            r == self.orientation,
    {
        self.orientation
    }

    /// The four panels in slot order Up, Right, Down, Left.  On a
    /// well-formed play area the four slots carry the four distinct
    /// directions in that order.
    pub fn panels(&self) -> (r: [PlayAreaPanel; 4])
        ensures
            r == self.panels,
            self.wf() ==> {
                &&& r[0].origin_direction == OriginDirection::Up
                &&& r[1].origin_direction == OriginDirection::Right
                &&& r[2].origin_direction == OriginDirection::Down
                &&& r[3].origin_direction == OriginDirection::Left
            },
    {
        self.panels
    }
}

impl Default for PlayArea {
    /// A play area with zero bounds, zero orientation, and the four
    /// zero-sized panels; it is well-formed.
    fn default() -> (r: Self)
        ensures
            r.max_play_area == (Vec2 { x: 0, y: 0 }),
            r.horizontal_main_area == (Vec2 { x: 0, y: 0 }),
            r.horizontal_side_area == (Vec2 { x: 0, y: 0 }),
            r.vertical_main_area == (Vec2 { x: 0, y: 0 }),
            r.vertical_side_area == (Vec2 { x: 0, y: 0 }),
            r.orientation == (Vec2 { x: 0, y: 0 }),
            r.wf(),
    {
        let play_area = PlayArea {
            max_play_area: Vec2 { x: 0, y: 0 },
            horizontal_main_area: Vec2 { x: 0, y: 0 },
            horizontal_side_area: Vec2 { x: 0, y: 0 },
            vertical_main_area: Vec2 { x: 0, y: 0 },
            vertical_side_area: Vec2 { x: 0, y: 0 },
            orientation: Vec2 { x: 0, y: 0 },
            panels: PlayAreaPanel::init_panel_spread(),
        };
        proof {
            lemma_zero_play_area_panels(play_area);
        }
        play_area
    }
}

/// One component of a panel size is monotone in the signed fraction,
/// provided the side area fits inside the main area.
proof fn lemma_scale_component_monotone(a: int, b: int, s1: int, s2: int)
    requires
        0 <= a <= b,
        -(SCALE as int) <= s1 <= s2 <= SCALE as int,
    ensures
        (if s1 >= 0 {
            spec_lerp(a, b, s1)
        } else {
            spec_lerp(a, 0, -s1)
        }) <= (if s2 >= 0 {
            spec_lerp(a, b, s2)
        } else {
            spec_lerp(a, 0, -s2)
        }),
{
    if s1 >= 0 {
        lemma_lerp_monotone(a, b, s1, s2);
    } else if s2 < 0 {
        lemma_lerp_monotone(a, 0, -s2, -s1);
    } else {
        lemma_lerp_between(a, 0, -s1);
        lemma_lerp_between(a, b, s2);
    }
}

/// Interpolating a panel size by the full positive fraction returns the
/// main area exactly, by the zero fraction the side area exactly, and by
/// the full negative fraction the zero size; in between the interpolation
/// is monotone in the fraction (see `lemma_scale_panel_size_monotone`).
pub proof fn lemma_scale_panel_size_endpoints(main_size: Vec2, side_size: Vec2)
    ensures
        spec_panel_size_for(main_size, side_size, SCALE as int) == main_size,
        spec_panel_size_for(main_size, side_size, 0) == side_size,
        spec_panel_size_for(main_size, side_size, -(SCALE as int)) == (Vec2 { x: 0, y: 0 }),
{
    lemma_lerp_full(side_size.x as int, main_size.x as int);
    lemma_lerp_full(side_size.y as int, main_size.y as int);
    lemma_lerp_zero(side_size.x as int, main_size.x as int);
    lemma_lerp_zero(side_size.y as int, main_size.y as int);
    lemma_lerp_full(side_size.x as int, 0);
    lemma_lerp_full(side_size.y as int, 0);
}

/// A panel size is monotone in the signed fraction, componentwise, whenever
/// the side area fits inside the main area (as the areas computed by
/// `bounds` always do): as the orientation turns toward a panel's axis the
/// panel only grows, and as it turns away the panel only shrinks.
pub proof fn lemma_scale_panel_size_monotone(main_size: Vec2, side_size: Vec2, s1: int, s2: int)
    requires
        0 <= side_size.x <= main_size.x,
        0 <= side_size.y <= main_size.y,
        -(SCALE as int) <= s1 <= s2 <= SCALE as int,
    ensures
        spec_panel_size_for(main_size, side_size, s1).x <= spec_panel_size_for(
            main_size,
            side_size,
            s2,
        ).x,
        spec_panel_size_for(main_size, side_size, s1).y <= spec_panel_size_for(
            main_size,
            side_size,
            s2,
        ).y,
{
    lemma_scale_component_monotone(side_size.x as int, main_size.x as int, s1, s2);
    lemma_scale_component_monotone(side_size.y as int, main_size.y as int, s1, s2);
    lemma_panel_size_in_range(main_size, side_size, s1);
    lemma_panel_size_in_range(main_size, side_size, s2);
}

/// A panel size component interpolated from in-order areas stays between
/// zero and the main area component, so it always fits an `i64`.
proof fn lemma_panel_size_in_range(main_size: Vec2, side_size: Vec2, s: int)
    requires
        0 <= side_size.x <= main_size.x,
        0 <= side_size.y <= main_size.y,
        -(SCALE as int) <= s <= SCALE as int,
    ensures
        (if s >= 0 {
            spec_lerp(side_size.x as int, main_size.x as int, s)
        } else {
            spec_lerp(side_size.x as int, 0, -s)
        }) == spec_panel_size_for(main_size, side_size, s).x,
        (if s >= 0 {
            spec_lerp(side_size.y as int, main_size.y as int, s)
        } else {
            spec_lerp(side_size.y as int, 0, -s)
        }) == spec_panel_size_for(main_size, side_size, s).y,
        0 <= spec_panel_size_for(main_size, side_size, s).x <= main_size.x,
        0 <= spec_panel_size_for(main_size, side_size, s).y <= main_size.y,
{
    if s >= 0 {
        lemma_lerp_between(side_size.x as int, main_size.x as int, s);
        lemma_lerp_between(side_size.y as int, main_size.y as int, s);
    } else {
        lemma_lerp_between(side_size.x as int, 0, -s);
        lemma_lerp_between(side_size.y as int, 0, -s);
    }
}

/// On an all-zero play area every derived panel is zero-sized and centered.
proof fn lemma_zero_play_area_panels(pa: PlayArea)
    requires
        pa.max_play_area == (Vec2 { x: 0, y: 0 }),
        pa.horizontal_main_area == (Vec2 { x: 0, y: 0 }),
        pa.horizontal_side_area == (Vec2 { x: 0, y: 0 }),
        pa.vertical_main_area == (Vec2 { x: 0, y: 0 }),
        pa.vertical_side_area == (Vec2 { x: 0, y: 0 }),
        pa.orientation == (Vec2 { x: 0, y: 0 }),
    ensures
        pa.spec_panel(OriginDirection::Up).size == (Vec2 { x: 0, y: 0 }),
        pa.spec_panel(OriginDirection::Up).position == (Vec2 { x: 0, y: 0 }),
        pa.spec_panel(OriginDirection::Right).size == (Vec2 { x: 0, y: 0 }),
        pa.spec_panel(OriginDirection::Right).position == (Vec2 { x: 0, y: 0 }),
        pa.spec_panel(OriginDirection::Down).size == (Vec2 { x: 0, y: 0 }),
        pa.spec_panel(OriginDirection::Down).position == (Vec2 { x: 0, y: 0 }),
        pa.spec_panel(OriginDirection::Left).size == (Vec2 { x: 0, y: 0 }),
        pa.spec_panel(OriginDirection::Left).position == (Vec2 { x: 0, y: 0 }),
{
    vstd::arithmetic::div_mod::lemma_div_of0(SCALE as int);
    vstd::arithmetic::div_mod::lemma_div_of0(2);
}

} // verus!
