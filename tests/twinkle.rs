use starfield::draw::DrawOp;
use starfield::twinkle::{TwinkleField, TwinkleStar, PHASE_CAP, TWINKLE_COUNT};

fn star() -> TwinkleStar {
    TwinkleStar { x: 50_000, y: 60_000, base_size: 2000, phase: 1_570_796, speed: 20_000, base_gray: 150 }
}

fn lines(ops: &[DrawOp]) -> usize {
    ops.iter().filter(|o| matches!(o, DrawOp::Line { .. })).count()
}

fn discs(ops: &[DrawOp]) -> usize {
    ops.iter().filter(|o| matches!(o, DrawOp::Disc { .. })).count()
}

#[test]
fn twinkle_peak_scenario() {
    // phase = pi / 2, so the sine is one
    assert_eq!(TwinkleStar::brightness(1000), 1000);
    let ops = star().draw_ops(1000);
    assert_eq!(ops.len(), 7);
    assert_eq!(discs(&ops), 3);
    assert_eq!(lines(&ops), 4);
    assert_eq!(ops[0], DrawOp::Disc { cx: 50_000, cy: 60_000, radius: 1600, gray: 210, alpha: 800 });
    assert_eq!(ops[1], DrawOp::Disc { cx: 50_000, cy: 60_000, radius: 3200, gray: 210, alpha: 160 });
    assert_eq!(ops[2], DrawOp::Disc { cx: 50_000, cy: 60_000, radius: 4800, gray: 210, alpha: 80 });
    assert_eq!(
        ops[3],
        DrawOp::Line { x0: 50_000, y0: 60_000, x1: 45_200, y1: 60_000, width: 1000, gray: 255, alpha: 300 }
    );
}

#[test]
fn twinkle_brightness_bounds() {
    for sine in -1000..=1000 {
        let b = TwinkleStar::brightness(sine);
        assert!((0..=1000).contains(&b));
        match star().draw_ops(sine)[0] {
            DrawOp::Disc { alpha, .. } => assert!((300..=800).contains(&alpha)),
            _ => panic!("expected the star's disc"),
        }
    }
    assert_eq!(TwinkleStar::brightness(-1000), 0);
    assert_eq!(TwinkleStar::brightness(0), 500);
}

#[test]
fn twinkle_thresholds() {
    let s = star();
    // brightness 0.5 exactly: no halo
    assert_eq!(s.draw_ops(0).len(), 1);
    assert_eq!(s.draw_ops(1).len(), 1);
    // brightness 0.501: halo, no sparkle
    assert_eq!(s.draw_ops(2).len(), 3);
    // brightness 0.85 exactly: no sparkle
    let at = s.draw_ops(700);
    assert_eq!((discs(&at), lines(&at)), (3, 0));
    // brightness 0.851: sparkle
    let above = s.draw_ops(702);
    assert_eq!((discs(&above), lines(&above)), (3, 4));
    assert_eq!(s.draw_ops(-1000).len(), 1);
}

#[test]
fn twinkle_phase_accumulates() {
    let mut s = star();
    s.advance();
    assert_eq!(s.phase, 1_590_796);
    let mut capped = TwinkleStar { phase: PHASE_CAP - 10, ..star() };
    capped.advance();
    assert_eq!(capped.phase, PHASE_CAP);
}

#[test]
fn twinkle_field_frame() {
    let mut f = TwinkleField::new(640, 480);
    assert_eq!(f.stars.len(), TWINKLE_COUNT);
    for s in f.stars.iter() {
        assert!(0 <= s.x && s.x < 640_000 && 0 <= s.y && s.y < 480_000);
        assert!((800..=3000).contains(&s.base_size));
        assert!((15_000..=60_000).contains(&s.speed));
        assert!((120..=200).contains(&s.base_gray));
    }
    let phases = f.phases();
    assert_eq!(phases.len(), TWINKLE_COUNT);
    let before = f.stars.clone();
    let sines = vec![-1000; TWINKLE_COUNT];
    let ops = f.tick(&sines);
    assert_eq!(ops.len(), 1 + TWINKLE_COUNT);
    assert_eq!(ops[0], DrawOp::Clear { gray: 8 });
    for (a, b) in before.iter().zip(f.stars.iter()) {
        assert_eq!(b.phase, a.phase + a.speed);
        assert_eq!((b.x, b.y, b.base_size), (a.x, a.y, a.base_size));
    }
    let bright = vec![1000; TWINKLE_COUNT];
    assert_eq!(f.tick(&bright).len(), 1 + 7 * TWINKLE_COUNT);
}
