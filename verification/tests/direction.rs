use panel_layout::direction::OriginDirection;
use panel_layout::fixed::Vec2;

#[test]
fn closest_cardinal_axes() {
    assert_eq!(
        OriginDirection::closest(Vec2 { x: 0, y: 10000 }),
        OriginDirection::Up
    );
    assert_eq!(
        OriginDirection::closest(Vec2 { x: 10000, y: 0 }),
        OriginDirection::Right
    );
    assert_eq!(
        OriginDirection::closest(Vec2 { x: 0, y: -10000 }),
        OriginDirection::Down
    );
    assert_eq!(
        OriginDirection::closest(Vec2 { x: -10000, y: 0 }),
        OriginDirection::Left
    );
}

#[test]
fn closest_tie_breaks_to_earlier_direction() {
    // (1, 1) is exactly equidistant from Up and Right; the scan order keeps Up.
    assert_eq!(
        OriginDirection::closest(Vec2 { x: 10000, y: 10000 }),
        OriginDirection::Up
    );
    assert_eq!(
        OriginDirection::closest(Vec2 { x: 7071, y: 7071 }),
        OriginDirection::Up
    );
    // (1, -1) is equidistant from Right and Down; Right comes earlier.
    assert_eq!(
        OriginDirection::closest(Vec2 { x: 10000, y: -10000 }),
        OriginDirection::Right
    );
}

#[test]
fn closest_is_idempotent() {
    let samples = [
        Vec2 { x: 3000, y: 9500 },
        Vec2 { x: -4200, y: 100 },
        Vec2 { x: 9000, y: -8000 },
        Vec2 { x: -5000, y: -5500 },
        Vec2 { x: 0, y: 0 },
    ];
    for v in samples {
        let d = OriginDirection::closest(v);
        assert_eq!(OriginDirection::closest(d.origin()), d);
    }
}

#[test]
fn closest_zero_vector_defaults_to_up() {
    assert_eq!(
        OriginDirection::closest(Vec2 { x: 0, y: 0 }),
        OriginDirection::Up
    );
}

#[test]
fn angle_between_quarter_turns() {
    let right = Vec2 { x: 10000, y: 0 };
    let up = Vec2 { x: 0, y: 10000 };
    let left = Vec2 { x: -10000, y: 0 };
    // a quarter turn counterclockwise is +SCALE, clockwise -SCALE
    assert_eq!(right.angle_between(up), 10000);
    assert_eq!(up.angle_between(right), -10000);
    // a half turn is +2 * SCALE
    assert_eq!(right.angle_between(left), 20000);
}

#[test]
fn angle_between_eighth_turn_exact() {
    let right = Vec2 { x: 10000, y: 0 };
    let diagonal = Vec2 { x: 7071, y: 7071 };
    // 45 degrees maps to exactly half a quarter turn
    assert_eq!(right.angle_between(diagonal), 5000);
    assert_eq!(diagonal.angle_between(right), -5000);
}

#[test]
fn angle_between_is_scale_invariant() {
    let v = Vec2 { x: 300, y: 400 };
    let w = Vec2 { x: -400, y: 300 };
    let v10 = Vec2 { x: 3000, y: 4000 };
    assert_eq!(v.angle_between(w), v10.angle_between(w));
    assert_eq!(v.angle_between(w), 10000);
}

#[test]
fn corner_tables_match_fixed_constants() {
    let up = OriginDirection::Up;
    assert_eq!(up.origin(), Vec2 { x: 0, y: 10000 });
    assert_eq!(up.left_corner(), Vec2 { x: -10000, y: 10000 });
    assert_eq!(up.right_corner(), Vec2 { x: 10000, y: 10000 });
    let left = OriginDirection::Left;
    assert_eq!(left.origin(), Vec2 { x: -10000, y: 0 });
    assert_eq!(left.left_corner(), Vec2 { x: -10000, y: -10000 });
    assert_eq!(left.right_corner(), Vec2 { x: -10000, y: 10000 });
}
