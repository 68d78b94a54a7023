use panel_layout::direction::OriginDirection;
use panel_layout::fixed::Vec2;
use panel_layout::movement::play_area_movement;
use panel_layout::play_area::PlayArea;

fn deviation_from_closest(pa: &PlayArea) -> i64 {
    let o = pa.orientation();
    let d = OriginDirection::closest(o);
    let a = d.origin().angle_between(o);
    if a >= 0 {
        a
    } else {
        -a
    }
}

#[test]
fn tick_on_cardinal_axis_moves_nothing() {
    let mut pa = PlayArea::new(1280, 720);
    pa.set_orientation(Vec2 { x: 0, y: 10000 });
    play_area_movement(&mut pa, false, false);
    assert_eq!(pa.orientation(), Vec2 { x: 0, y: 10000 });
}

#[test]
fn tick_inside_deadband_moves_nothing() {
    let mut pa = PlayArea::new(1280, 720);
    // about 0.005 radians away from Up: inside the 0.01 deadband
    let v = Vec2 { x: 50, y: 10000 };
    pa.set_orientation(v);
    assert!(deviation_from_closest(&pa) <= 100);
    play_area_movement(&mut pa, false, false);
    assert_eq!(pa.orientation(), v);
}

#[test]
fn tick_outside_deadband_corrects_toward_cardinal() {
    let mut pa = PlayArea::new(1280, 720);
    // about 0.1 radians away from Up: well outside the deadband
    pa.set_orientation(Vec2 { x: 1000, y: 10000 });
    let before = deviation_from_closest(&pa);
    play_area_movement(&mut pa, false, false);
    let after = deviation_from_closest(&pa);
    assert!(after < before);
}

#[test]
fn held_key_rotates_by_the_fixed_step() {
    let mut pa = PlayArea::new(1280, 720);
    pa.set_orientation(Vec2 { x: 10000, y: 0 });
    play_area_movement(&mut pa, false, true);
    // one 5-degree counterclockwise step: (cos 5, sin 5) scaled, truncated
    assert_eq!(pa.orientation(), Vec2 { x: 9961, y: 871 });
    play_area_movement(&mut pa, true, false);
    play_area_movement(&mut pa, true, false);
    // now one step clockwise of the Right axis
    let o = pa.orientation();
    assert!(o.x > 9900 && o.y < 0);
}

#[test]
fn both_keys_cancel_into_auto_centering() {
    let mut pa = PlayArea::new(1280, 720);
    pa.set_orientation(Vec2 { x: 0, y: 10000 });
    play_area_movement(&mut pa, true, true);
    assert_eq!(pa.orientation(), Vec2 { x: 0, y: 10000 });
}

#[test]
fn rotation_from_right_settles_at_up() {
    let mut pa = PlayArea::new(1280, 720);
    pa.set_orientation(Vec2 { x: 10000, y: 0 });
    // hold Right: eleven 5-degree steps, about 55 degrees counterclockwise
    for _ in 0..11 {
        play_area_movement(&mut pa, false, true);
    }
    assert_eq!(
        OriginDirection::closest(pa.orientation()),
        OriginDirection::Up
    );
    assert!(deviation_from_closest(&pa) > 100);
    // release: auto-centering must settle inside the deadband in finitely
    // many ticks, without oscillating forever
    let mut ticks = 0;
    while deviation_from_closest(&pa) > 100 {
        play_area_movement(&mut pa, false, false);
        ticks += 1;
        assert!(ticks <= 100);
    }
    // settled at the Up axis, and a further tick changes nothing
    assert_eq!(
        OriginDirection::closest(pa.orientation()),
        OriginDirection::Up
    );
    let settled = pa.orientation();
    play_area_movement(&mut pa, false, false);
    assert_eq!(pa.orientation(), settled);
}
