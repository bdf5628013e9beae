use pocket_cube::angles::{set_deg, wrap_deg};
use pocket_cube::geom::{FP, RotX, RotY, RotZ};
use pocket_cube::layout::{
    FIT_MARGIN, Rect, ViewParams, fit_vertically, layout_origins, max_projected_y,
    min_projected_y,
};

fn view(origin: (i64, i64), size: i64) -> ViewParams {
    ViewParams {
        rz: RotZ { c: FP, s: 0 },
        rx: RotX { c: FP, s: 0 },
        ry: RotY { c: FP, s: 0 },
        origin,
        size,
    }
}

#[test]
fn normalize_wraps_into_the_circle() {
    assert_eq!(set_deg(-30, false), 330);
    assert_eq!(set_deg(0, false), 0);
    assert_eq!(set_deg(360, false), 0);
    assert_eq!(set_deg(725, false), 5);
    assert_eq!(wrap_deg(-1), 359);
}

#[test]
fn snap_rounds_to_the_nearest_right_angle() {
    assert_eq!(set_deg(100, true), 90);
    assert_eq!(set_deg(140, true), 180);
    assert_eq!(set_deg(359, true), 0);
    assert_eq!(set_deg(44, true), 0);
    assert_eq!(set_deg(-30, true), 0);
    assert_eq!(set_deg(-120, true), 270);
}

#[test]
fn snap_ties_round_away_from_zero_before_wrapping() {
    assert_eq!(set_deg(45, true), 90);
    assert_eq!(set_deg(135, true), 180);
    assert_eq!(set_deg(-45, true), 270, "-45 rounds to -90, which wraps to 270");
    assert_eq!(set_deg(-135, true), 180, "-135 rounds to -180, which wraps to 180");
    assert_eq!(set_deg(-810, true), 270, "deep negatives still land in [0, 360)");
}

#[test]
fn initial_origins_are_symmetric_and_centered() {
    let bounds = Rect { x: 0, y: 0, w: 800 * FP, h: 600 * FP };
    let size = 22 * FP;
    let (left, right) = layout_origins(bounds, size);
    assert_eq!(left.1, right.1, "both views share the vertical center line");
    assert_eq!(left.0 + right.0, 2 * (400 * FP), "symmetric about the horizontal center");
    assert!(left.0 < right.0);
    let gap = right.0 - left.0;
    // 0.30 * 800 + 22 = 262 px, within [2.6 * 22, 0.60 * 800] px.
    assert_eq!(gap, 262 * FP);
}

#[test]
fn gap_clamps_for_narrow_and_wide_viewports() {
    // Narrow viewport: 0.30 * 100 + 22 = 52 px falls below the floor of
    // 2.6 sizes, so the floor binds: 2.6 * 22 = 57.2 px.
    let bounds = Rect { x: 0, y: 0, w: 100 * FP, h: 600 * FP };
    let (left, right) = layout_origins(bounds, 22 * FP);
    assert_eq!(right.0 - left.0, 572 * FP / 10);
    // Wide viewport with a small cube: the 2.6-sizes floor binds.
    let bounds = Rect { x: 0, y: 0, w: 200 * FP, h: 600 * FP };
    let size = 16 * FP;
    let (left, right) = layout_origins(bounds, size);
    // 0.30 * 200 + 16 = 76 px, above the floor 2.6 * 16 = 41.6 px.
    assert_eq!(right.0 - left.0, 76 * FP);
}

#[test]
fn vertical_fit_respects_the_margins() {
    let bounds = Rect { x: 0, y: 0, w: 800 * FP, h: 600 * FP };
    let (o_left, o_right) = layout_origins(bounds, 22 * FP);
    // Deliberately push both views far off the top of the viewport.
    let mut left = view((o_left.0, o_left.1 - 5000 * FP), 22 * FP);
    let mut right = view((o_right.0, o_right.1 - 5000 * FP), 22 * FP);
    fit_vertically(bounds, &mut left, &mut right);
    let top = bounds.y + FIT_MARGIN;
    let bottom = bounds.y + bounds.h - FIT_MARGIN;
    for vp in [&left, &right] {
        assert!(min_projected_y(vp) >= top);
        assert!(max_projected_y(vp) <= bottom);
    }
    assert_eq!(left.origin.0, o_left.0, "the fit never touches X");
    assert_eq!(right.origin.0, o_right.0);
}

#[test]
fn vertical_fit_balances_an_oversized_cube() {
    // A viewport so short that the projected cube cannot fit the margins.
    let bounds = Rect { x: 0, y: 0, w: 800 * FP, h: 40 * FP };
    let mut left = view((300 * FP, 0), 40 * FP);
    let mut right = view((500 * FP, 0), 40 * FP);
    fit_vertically(bounds, &mut left, &mut right);
    let top = bounds.y + FIT_MARGIN;
    let bottom = bounds.y + bounds.h - FIT_MARGIN;
    let min_all = min_projected_y(&left).min(min_projected_y(&right));
    let max_all = max_projected_y(&left).max(max_projected_y(&right));
    let top_violation = top - min_all;
    let bottom_violation = max_all - bottom;
    assert!(top_violation > 0 && bottom_violation > 0, "both margins must give way");
    assert!(
        (top_violation - bottom_violation).abs() <= FP,
        "the overflow is split evenly between top and bottom"
    );
}
