use panel_layout::fixed::Vec2;
use panel_layout::play_area::PlayArea;

#[test]
fn bounds_1280_720_horizontal() {
    let (main, side) = PlayArea::bounds(1280, 720, false);
    assert_eq!(main, Vec2 { x: 508, y: 720 });
    assert_eq!(side, Vec2 { x: 508, y: 360 });
}

#[test]
fn bounds_720_1280_vertical_swapped() {
    let (main, side) = PlayArea::bounds(720, 1280, true);
    assert_eq!(main, Vec2 { x: 508, y: 360 });
    assert_eq!(side, Vec2 { x: 254, y: 360 });
}

#[test]
fn bounds_components_even_and_fit() {
    let cases: [(i64, i64); 5] = [(1280, 720), (720, 1280), (1920, 1080), (0, 0), (3, 5)];
    for (w, h) in cases {
        let (main, side) = PlayArea::bounds(w, h, false);
        assert_eq!(main.x % 2, 0);
        assert_eq!(main.y % 2, 0);
        assert_eq!(side.x % 2, 0);
        assert_eq!(side.y % 2, 0);
        assert!(main.x * 2 <= w);
        assert_eq!(side.x, main.x);
        assert!(side.y <= main.y);
    }
}

#[test]
fn scale_panel_size_endpoints() {
    let main = Vec2 { x: 5_080_000, y: 7_200_000 };
    let side = Vec2 { x: 5_080_000, y: 3_600_000 };
    assert_eq!(PlayArea::scale_panel_size(main, side, 10000), main);
    assert_eq!(PlayArea::scale_panel_size(main, side, 0), side);
    assert_eq!(
        PlayArea::scale_panel_size(main, side, -10000),
        Vec2 { x: 0, y: 0 }
    );
}

#[test]
fn scale_panel_size_monotone_samples() {
    let main = Vec2 { x: 5_080_000, y: 7_200_000 };
    let side = Vec2 { x: 5_080_000, y: 3_600_000 };
    let mut prev = PlayArea::scale_panel_size(main, side, -10000);
    let fractions: [i64; 8] = [-7500, -5000, -2500, 0, 2500, 5000, 7500, 10000];
    for s in fractions {
        let cur = PlayArea::scale_panel_size(main, side, s);
        assert!(prev.x <= cur.x);
        assert!(prev.y <= cur.y);
        prev = cur;
    }
}

#[test]
fn scale_panel_size_halfway_exact() {
    let main = Vec2 { x: 400, y: 800 };
    let side = Vec2 { x: 400, y: 200 };
    // halfway between side and main
    assert_eq!(
        PlayArea::scale_panel_size(main, side, 5000),
        Vec2 { x: 400, y: 500 }
    );
    // halfway between side and zero
    assert_eq!(
        PlayArea::scale_panel_size(main, side, -5000),
        Vec2 { x: 200, y: 100 }
    );
}
