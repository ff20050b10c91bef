//! Procedural starfield animation engine.
//!
//! Three effects (warp streaks, twinkling stars, a rotating spiral galaxy)
//! each keep a fixed-size population of particles, advance it once per
//! frame and describe the frame as a list of drawing operations.
//!
//! All quantities are fixed-point integers: lengths in thousandths of a
//! pixel, angles in millionths of a radian, opacities and other fractions
//! in thousandths. Trigonometry is left to the host that paints the frame:
//! a drawing operation may carry an angle, and the twinkle effect takes the
//! sines of its phases as input.

mod arith;
pub mod draw;
mod random;
pub mod session;
pub mod spiral;
pub mod twinkle;
pub mod warp;

pub use draw::DrawOp;
pub use session::{Effect, Population, Session, SessionError, SessionState};
pub use spiral::{SpiralField, SpiralStar};
pub use twinkle::{TwinkleField, TwinkleStar};
pub use warp::{WarpField, WarpStar};
