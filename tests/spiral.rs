use starfield::draw::DrawOp;
use starfield::spiral::{SpiralField, SpiralStar, SPIRAL_COUNT};

fn star(angle: i64, distance: i64, arm: i64) -> SpiralStar {
    SpiralStar { angle, distance, size: 2000, speed: 4000, arm }
}

#[test]
fn spiral_distortion_scenario() {
    for arm in 0..4 {
        assert_eq!(star(0, 300_000, arm).display_angle(300_000), 1_500_000);
    }
    assert_eq!(star(100, 150_000, 0).display_angle(300_000), 750_100);
}

#[test]
fn spiral_star_ops() {
    let ops = star(0, 300_000, 0).draw_ops(300_000);
    // at the rim the opacity is 0.4 and the eighth trail disc fades to nothing
    assert_eq!(ops.len(), 2 + 7);
    assert_eq!(
        ops[0],
        DrawOp::Orbit { angle: 1_500_000, rx: 300_000, ry: 300_000, radius: 1600, gray: 150, alpha: 400 }
    );
    assert_eq!(
        ops[1],
        DrawOp::Orbit { angle: 1_500_000, rx: 300_000, ry: 300_000, radius: 4000, gray: 150, alpha: 60 }
    );
    assert_eq!(
        ops[2],
        DrawOp::Orbit { angle: 1_480_000, rx: 300_000, ry: 300_000, radius: 1800, gray: 150, alpha: 116 }
    );
    for op in &ops[2..] {
        match op {
            DrawOp::Orbit { alpha, .. } => assert!(*alpha > 0),
            _ => panic!("expected a trail disc"),
        }
    }
}

#[test]
fn spiral_color_by_arm_and_distance() {
    let near = star(0, 30_000, 3).draw_ops(300_000);
    match near[0] {
        DrawOp::Orbit { gray, alpha, .. } => assert_eq!((gray, alpha), (237, 850)),
        _ => panic!("expected the star's disc"),
    }
}

#[test]
fn spiral_field_frame() {
    let mut f = SpiralField::new(800, 600);
    assert_eq!(f.stars.len(), SPIRAL_COUNT);
    assert_eq!(f.max_dist(), 300_000);
    for s in f.stars.iter() {
        assert!((20_000..=300_000).contains(&s.distance));
        assert!((0..4).contains(&s.arm));
    }
    let before = f.stars.clone();
    let ops = f.tick();
    assert_eq!(f.time, 5000);
    assert_eq!(ops[0], DrawOp::Clear { gray: 8 });
    assert_eq!(
        ops[1],
        DrawOp::Orbit { angle: 5000, rx: 100_000, ry: 60_000, radius: 300_000, gray: 40, alpha: 20 }
    );
    let n = ops.len();
    assert_eq!(
        ops[n - 1],
        DrawOp::Pulse { phase: 10_000, radius: 12_000, swing: 3_000, alpha: 500, alpha_swing: 200, gray: 255 }
    );
    for (a, b) in before.iter().zip(f.stars.iter()) {
        assert_eq!(b.distance, a.distance);
        assert_eq!(b.angle, a.angle + a.speed);
    }
    for _ in 0..100 {
        f.tick();
    }
    assert_eq!(f.stars.len(), SPIRAL_COUNT);
    for (a, b) in before.iter().zip(f.stars.iter()) {
        assert_eq!(b.distance, a.distance);
    }
}
