use panel_layout::direction::OriginDirection;
use panel_layout::fixed::Vec2;
use panel_layout::play_area::PlayArea;

#[test]
fn panels_come_in_fixed_slot_order() {
    let pa = PlayArea::new(1280, 720);
    let panels = pa.panels();
    assert_eq!(panels.len(), 4);
    assert_eq!(panels[0].origin_direction, OriginDirection::Up);
    assert_eq!(panels[1].origin_direction, OriginDirection::Right);
    assert_eq!(panels[2].origin_direction, OriginDirection::Down);
    assert_eq!(panels[3].origin_direction, OriginDirection::Left);
}

#[test]
fn panels_keep_slot_order_after_reorientation() {
    let mut pa = PlayArea::new(1280, 720);
    pa.set_orientation(Vec2 { x: 1234, y: -987 });
    let panels = pa.panels();
    assert_eq!(panels[0].origin_direction, OriginDirection::Up);
    assert_eq!(panels[1].origin_direction, OriginDirection::Right);
    assert_eq!(panels[2].origin_direction, OriginDirection::Down);
    assert_eq!(panels[3].origin_direction, OriginDirection::Left);
}

#[test]
fn initial_orientation_points_between_up_and_right() {
    let pa = PlayArea::new(1280, 720);
    assert_eq!(pa.orientation(), Vec2 { x: 7071, y: 7071 });
}

#[test]
fn set_orientation_round_trips_exactly() {
    let mut pa = PlayArea::new(1280, 720);
    // not normalized, negative component: stored without any adjustment
    let v = Vec2 { x: 1234, y: -987 };
    pa.set_orientation(v);
    assert_eq!(pa.orientation(), v);
    let w = Vec2 { x: 20000, y: 30000 };
    pa.set_orientation(w);
    assert_eq!(pa.orientation(), w);
}

#[test]
fn pure_right_orientation_gives_closed_form_panels() {
    let mut pa = PlayArea::new(1280, 720);
    pa.set_orientation(Vec2 { x: 10000, y: 0 });
    let panels = pa.panels();
    // bounds(1280, 720, false) = ((508, 720), (508, 360)), in fixed units
    // the Right panel sits at its full horizontal main size
    assert_eq!(panels[1].size, Vec2 { x: 5_080_000, y: 7_200_000 });
    // the Left panel has collapsed to nothing
    assert_eq!(panels[3].size, Vec2 { x: 0, y: 0 });
    // Up and Down rest at their horizontal side size
    assert_eq!(panels[0].size, Vec2 { x: 5_080_000, y: 3_600_000 });
    assert_eq!(panels[2].size, Vec2 { x: 5_080_000, y: 3_600_000 });
    // the Right panel is centered on its own axis
    assert_eq!(panels[1].position, Vec2 { x: 2_540_000, y: 0 });
    // Up has swung a full quarter turn to its left corner
    assert_eq!(panels[0].position, Vec2 { x: -2_540_000, y: 1_800_000 });
    // Down has swung to its right corner
    assert_eq!(panels[2].position, Vec2 { x: -2_540_000, y: -1_800_000 });
}

#[test]
fn default_play_area_is_zeroed_and_ordered() {
    let pa = PlayArea::default();
    assert_eq!(pa.orientation(), Vec2 { x: 0, y: 0 });
    let panels = pa.panels();
    assert_eq!(panels[0].origin_direction, OriginDirection::Up);
    assert_eq!(panels[3].origin_direction, OriginDirection::Left);
    for p in panels {
        assert_eq!(p.size, Vec2 { x: 0, y: 0 });
        assert_eq!(p.position, Vec2 { x: 0, y: 0 });
    }
}

#[test]
fn small_screen_recomputes_main_from_width() {
    // height / sqrt(2) doubled exceeds the width, so the width rules
    let (main, side) = PlayArea::bounds(100, 720, false);
    assert_eq!(main.x, 50);
    assert!(main.x * 2 <= 100);
    // main height follows from the ratio: floor_even(50 * 19601 / 13860)
    assert_eq!(main.y, 70);
    assert_eq!(side, Vec2 { x: 50, y: 34 });
}
