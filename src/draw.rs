use vstd::prelude::*;

verus! {

/// Thousandths of a pixel in one pixel.
pub const UNIT: i64 = 1000;

/// The largest opacity and the largest fraction: thousandths.
pub const FULL: i64 = 1000;

/// Gray level of the near-black background.
pub const BACKGROUND_GRAY: i64 = 8;

/// Gray level of pure white.
pub const WHITE: i64 = 255;

/// Largest canvas side, in pixels, that an effect runs on: beyond it the
/// fixed-point arithmetic could overflow.
pub const MAX_SIDE: i64 = 100_000;

/// Whether a canvas of `width` by `height` pixels has sides of at least
/// `min_width` and `min_height` pixels and at most `MAX_SIDE`.
pub open spec fn sides_within(width: int, height: int, min_width: int, min_height: int) -> bool {
    min_width <= width <= MAX_SIDE && min_height <= height <= MAX_SIDE
}

/// One primitive operation on the drawing surface.
///
/// Positions and lengths are in thousandths of a pixel, opacities in
/// thousandths, gray levels in `0..=255`. Operations that carry an angle
/// (millionths of a radian) are placed by the host, which owns the
/// trigonometry.
#[derive(Clone, Copy, Debug, PartialEq, Eq, Structural)]
pub enum DrawOp {
    /// Fill the whole surface with an opaque gray.
    Clear { gray: i64 },
    /// A filled disc.
    Disc { cx: i64, cy: i64, radius: i64, gray: i64, alpha: i64 },
    /// A stroked segment.
    Line { x0: i64, y0: i64, x1: i64, y1: i64, width: i64, gray: i64, alpha: i64 },
    /// A filled disc whose center lies at
    /// `(canvas center x + rx * cos(angle), canvas center y + ry * sin(angle))`.
    Orbit { angle: i64, rx: i64, ry: i64, radius: i64, gray: i64, alpha: i64 },
    /// A filled disc at the canvas center of radius
    /// `radius + swing * sin(phase)` and opacity `alpha + alpha_swing * sin(phase)`.
    Pulse { phase: i64, radius: i64, swing: i64, alpha: i64, alpha_swing: i64, gray: i64 },
}

} // verus!
