use starfield::draw::DrawOp;
use starfield::warp::{WarpField, WarpStar, WARP_COUNT};

fn star(x: i64, y: i64, z: i64, color_class: i64) -> WarpStar {
    WarpStar { x, y, z, color_class }
}

#[test]
fn warp_boundary_scenario() {
    let mut s = star(0, 0, 1000, 1);
    assert_eq!(s.project(800, 600), Some((400_000, 300_000)));
    s.advance(800, 600);
    assert_eq!(s.z, 800_000);
    assert!(-400_000 <= s.x && s.x < 400_000);
    assert!(-300_000 <= s.y && s.y < 300_000);
    assert!(0 <= s.color_class && s.color_class < 3);
}

#[test]
fn warp_depth_factor() {
    assert_eq!(star(0, 0, 400_000, 0).depth(800), 500);
    assert_eq!(star(0, 0, 800_000, 0).depth(800), 0);
    assert_eq!(star(0, 0, 1000, 0).depth(800), 998);
}

#[test]
fn warp_streak_and_glow_head() {
    let s = star(0, 0, 400_000, 0);
    let ops = s.draw_ops(800, 600);
    assert_eq!(
        ops,
        vec![
            DrawOp::Line { x0: 400_000, y0: 300_000, x1: 400_000, y1: 300_000, width: 1250, gray: 180, alpha: 450 },
            DrawOp::Disc { cx: 400_000, cy: 300_000, radius: 2500, gray: 180, alpha: 180 },
        ]
    );
}

#[test]
fn warp_streak_points_outward() {
    // x = 100 px right of center at depth 400 px: screen x = 100 * 128 / 400 + 400 = 432.
    let s = star(100_000, -50_000, 400_000, 2);
    let ops = s.draw_ops(800, 600);
    assert_eq!(ops.len(), 2);
    match ops[0] {
        DrawOp::Line { x0, y0, x1, y1, gray, .. } => {
            assert_eq!((x0, y0), (432_000, 284_000));
            // streak length 15 px scaled by x / z = 1/4 and y / z = -1/8
            assert_eq!((x1, y1), (435_750, 282_125));
            assert_eq!(gray, 150);
        }
        _ => panic!("expected a streak"),
    }
}

#[test]
fn warp_culls_off_canvas_stars() {
    let s = star(399_000, 0, 1000, 0);
    assert_eq!(s.project(800, 600), None);
    assert!(s.draw_ops(800, 600).is_empty());
    let t = star(0, -299_000, 2000, 0);
    assert_eq!(t.project(800, 600), None);
    assert!(t.draw_ops(800, 600).is_empty());
}

#[test]
fn warp_depth_decreases_between_respawns() {
    let mut s = star(10_000, 20_000, 400_000, 1);
    s.advance(800, 600);
    assert_eq!(s, star(10_000, 20_000, 395_000, 1));
    let mut far = star(0, 0, 800_000, 1);
    far.advance(800, 600);
    assert_eq!(far.z, 797_000);
}

#[test]
fn warp_field_keeps_its_population() {
    let mut f = WarpField::new(800, 600);
    assert_eq!(f.stars.len(), WARP_COUNT);
    for s in f.stars.iter() {
        assert!(-400_000 <= s.x && s.x < 400_000);
        assert!(-300_000 <= s.y && s.y < 300_000);
        assert!(0 < s.z && s.z <= 800_000);
    }
    let first_x = f.stars[0].x;
    assert!(f.stars.iter().any(|s| s.x != first_x));
    for _ in 0..400 {
        let before = f.stars.clone();
        let ops = f.tick();
        assert_eq!(ops[0], DrawOp::Clear { gray: 8 });
        assert_eq!(f.stars.len(), WARP_COUNT);
        for (a, b) in before.iter().zip(f.stars.iter()) {
            assert!(b.z < a.z || b.z == 800_000);
            assert!(b.z > 0);
        }
    }
}

#[test]
fn warp_field_on_a_tiny_canvas() {
    let mut f = WarpField::new(2, 1);
    assert_eq!(f.stars.len(), WARP_COUNT);
    for _ in 0..20 {
        f.tick();
        for s in f.stars.iter() {
            assert!(-1000 <= s.x && s.x < 1000);
            assert!(-500 <= s.y && s.y < 500);
            assert!(0 < s.z && s.z <= 2000);
        }
    }
}
