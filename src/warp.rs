use crate::arith::{floor_div, lemma_quotient_bound};
use crate::draw::{sides_within, DrawOp, BACKGROUND_GRAY, FULL, MAX_SIDE, UNIT};
use crate::random::random_in;
use vstd::prelude::*;

verus! {

/// Number of stars in a warp population.
pub const WARP_COUNT: usize = 250;

/// Narrowest canvas, in pixels, that the warp effect runs on: depths are
/// drawn from one pixel up to the width.
pub const WARP_MIN_WIDTH: i64 = 2;

/// Lowest canvas, in pixels, that the warp effect runs on.
pub const WARP_MIN_HEIGHT: i64 = 1;

/// Whether a canvas of `width` by `height` pixels can hold the warp effect.
pub open spec fn sides_ok(width: int, height: int) -> bool {
    sides_within(width, height, WARP_MIN_WIDTH as int, WARP_MIN_HEIGHT as int)
}

/// Focal length of the perspective projection, in pixels.
pub const FOCAL: i64 = 128;

/// A star flying towards the viewer.
///
/// `x` and `y` are offsets from the canvas center and `z` the depth, all in
/// thousandths of a pixel; `color_class` picks one of three gray levels.
#[derive(Clone, Copy, Debug, PartialEq, Eq, Structural)]
pub struct WarpStar {
    pub x: i64,
    pub y: i64,
    pub z: i64,
    pub color_class: i64,
}

/// A side of the canvas in thousandths of a pixel.
pub open spec fn span(side: int) -> int {
    side * UNIT
}

/// Whether `x` lies in the centered half-open range of a side.
pub open spec fn centered(x: int, side: int) -> bool {
    -span(side) / 2 <= x < span(side) / 2
}

/// A star that is in flight on a canvas of `width` by `height` pixels.
pub open spec fn star_wf(s: WarpStar, width: int, height: int) -> bool {
    &&& centered(s.x as int, width)
    &&& centered(s.y as int, height)
    &&& 0 < s.z <= span(width)
    &&& 0 <= s.color_class < 3
}

/// How near the star is, in thousandths: `1 - z / width`.
pub open spec fn depth(s: WarpStar, width: int) -> int {
    (span(width) - s.z) * FULL / span(width)
}

/// Horizontal screen position: `x * FOCAL / z + width / 2`, rounded down.
pub open spec fn screen_x(s: WarpStar, width: int) -> int {
    (FOCAL * UNIT * s.x) / (s.z as int) + span(width) / 2
}

/// Vertical screen position: `y * FOCAL / z + height / 2`, rounded down.
pub open spec fn screen_y(s: WarpStar, height: int) -> int {
    (FOCAL * UNIT * s.y) / (s.z as int) + span(height) / 2
}

/// Whether the projected point lies on the canvas.
pub open spec fn visible(s: WarpStar, width: int, height: int) -> bool {
    0 <= screen_x(s, width) < span(width) && 0 <= screen_y(s, height) < span(height)
}

/// Gray level of a color class.
pub open spec fn class_gray(c: int) -> int {
    if c == 0 {
        180
    } else if c == 1 {
        220
    } else {
        150
    }
}

/// Length of the streak: thirty pixels at full nearness.
pub open spec fn streak_len(d: int) -> int {
    30 * d
}

/// Opacity of the streak.
pub open spec fn streak_alpha(d: int) -> int {
    200 + d / 2
}

/// What a star paints: nothing off the canvas, else a streak along its
/// trajectory and a glow head at the streak's far end.
pub open spec fn star_ops(s: WarpStar, width: int, height: int) -> Seq<DrawOp> {
    let d = depth(s, width);
    let sx = screen_x(s, width);
    let sy = screen_y(s, height);
    let ex = sx + s.x * streak_len(d) / (s.z as int);
    let ey = sy + s.y * streak_len(d) / (s.z as int);
    let gray = class_gray(s.color_class as int);
    if visible(s, width, height) {
        seq![
            DrawOp::Line {
                x0: sx as i64,
                y0: sy as i64,
                x1: ex as i64,
                y1: ey as i64,
                width: (500 + 3 * d / 2) as i64,
                gray: gray as i64,
                alpha: streak_alpha(d) as i64,
            },
            DrawOp::Disc {
                cx: ex as i64,
                cy: ey as i64,
                radius: (1500 + 2 * d) as i64,
                gray: gray as i64,
                alpha: (streak_alpha(d) * 2 / 5) as i64,
            },
        ]
    } else {
        seq![]
    }
}

/// Depth after one frame of flight: nearer stars fall faster.
pub open spec fn advanced_z(s: WarpStar, width: int) -> int {
    s.z - (3 * UNIT + 4 * depth(s, width))
}

/// `new` is what one frame of flight makes of `old`: the same star nearer,
/// or, once it has passed the viewer, a fresh star at the far plane.
pub open spec fn stepped(old: WarpStar, new: WarpStar, width: int, height: int) -> bool {
    if advanced_z(old, width) > 0 {
        new == (WarpStar { z: advanced_z(old, width) as i64, ..old })
    } else {
        new.z == span(width) && star_wf(new, width, height)
    }
}

/// The operations of a whole population, star after star.
pub open spec fn stars_ops(stars: Seq<WarpStar>, width: int, height: int) -> Seq<DrawOp>
    decreases stars.len(),
{
    if stars.len() == 0 {
        seq![]
    } else {
        stars_ops(stars.drop_last(), width, height) + star_ops(stars.last(), width, height)
    }
}

proof fn lemma_depth_range(z: int, width: int)
    requires
        1 <= width <= MAX_SIDE,
        0 < z <= span(width),
    ensures
        0 <= (span(width) - z) * FULL / span(width) < FULL,
{
    let w = span(width);
    let n = w - z;
    let q = n * FULL / w;
    vstd::arithmetic::div_mod::lemma_fundamental_div_mod(n * FULL, w);
    vstd::arithmetic::div_mod::lemma_mod_bound(n * FULL, w);
    assert(0 <= q < FULL) by (nonlinear_arith)
        requires
            w > 0,
            0 <= n < w,
            n * FULL == w * q + (n * FULL) % w,
            0 <= (n * FULL) % w < w,
    ;
}

/// Between respawns the depth strictly decreases.
pub proof fn lemma_depth_decreases(old: WarpStar, new: WarpStar, width: int, height: int)
    requires
        sides_ok(width, height),
        star_wf(old, width, height),
        stepped(old, new, width, height),
        advanced_z(old, width) > 0,
    ensures
        new.z < old.z,
        new.x == old.x && new.y == old.y && new.color_class == old.color_class,
        star_wf(new, width, height),
{
    lemma_depth_range(old.z as int, width);
}

/// A star that passes the viewer comes back at the far plane, at a fresh
/// position on the canvas.
pub proof fn lemma_respawn(old: WarpStar, new: WarpStar, width: int, height: int)
    requires
        stepped(old, new, width, height),
        advanced_z(old, width) <= 0,
    ensures
        new.z == span(width),
        -span(width) / 2 <= new.x < span(width) / 2,
        -span(height) / 2 <= new.y < span(height) / 2,
{
}

/// A star whose projection falls off the canvas paints nothing; one on the
/// canvas paints its streak and its glow head.
pub proof fn lemma_culling(s: WarpStar, width: int, height: int)
    ensures
        !visible(s, width, height) ==> star_ops(s, width, height).len() == 0,
        visible(s, width, height) ==> star_ops(s, width, height).len() == 2,
{
}

impl WarpStar {
    /// A fresh star at a random position of the canvas and depth `z`.
    fn fresh(width: i64, height: i64, z: i64) -> (r: WarpStar)
        requires
            sides_ok(width as int, height as int),
            0 < z <= span(width as int),
        ensures
            star_wf(r, width as int, height as int),
            r.z == z,
    {
        let hw = width * UNIT / 2;
        let hh = height * UNIT / 2;
        let x = random_in(-hw, hw);
        let y = random_in(-hh, hh);
        let color_class = random_in(0, 3);
        WarpStar { x, y, z, color_class }
    }

    /// A star for a new population: random position, random depth.
    pub fn seeded(width: i64, height: i64) -> (r: WarpStar)
        requires
            sides_ok(width as int, height as int),
        ensures
            star_wf(r, width as int, height as int),
    {
        let z = random_in(UNIT, width * UNIT);
        WarpStar::fresh(width, height, z)
    }

    /// Nearness in thousandths: `1 - z / width`.
    pub fn depth(&self, width: i64) -> (r: i64)
        requires
            1 <= width <= MAX_SIDE,
            0 < self.z <= span(width as int),
        ensures
            r == depth(*self, width as int),
            0 <= r < FULL,
    {
        proof {
            lemma_depth_range(self.z as int, width as int);
        }
        let w = width * UNIT;
        (w - self.z) * FULL / w
    }

    /// Screen position of the star, when it lies on the canvas.
    pub fn project(&self, width: i64, height: i64) -> (r: Option<(i64, i64)>)
        requires
            sides_ok(width as int, height as int),
            star_wf(*self, width as int, height as int),
        ensures
            r == (if visible(*self, width as int, height as int) {
                Some((screen_x(*self, width as int) as i64, screen_y(*self, height as int) as i64))
            } else {
                None
            }),
    {
        let qx = floor_div(FOCAL * UNIT * self.x, self.z);
        let qy = floor_div(FOCAL * UNIT * self.y, self.z);
        proof {
            lemma_quotient_bound(FOCAL * UNIT * self.x, self.z as int);
            lemma_quotient_bound(FOCAL * UNIT * self.y, self.z as int);
        }
        let sx = qx + width * UNIT / 2;
        let sy = qy + height * UNIT / 2;
        if 0 <= sx && sx < width * UNIT && 0 <= sy && sy < height * UNIT {
            Some((sx, sy))
        } else {
            None
        }
    }

    /// What the star paints this frame.
    pub fn draw_ops(&self, width: i64, height: i64) -> (r: Vec<DrawOp>)
        requires
            sides_ok(width as int, height as int),
            star_wf(*self, width as int, height as int),
        ensures
            r@ == star_ops(*self, width as int, height as int),
    {
        match self.project(width, height) {
            None => Vec::new(),
            Some((sx, sy)) => {
                let d = self.depth(width);
                let len = 30 * d;
                proof {
                    let hw = span(width as int) / 2;
                    let hh = span(height as int) / 2;
                    assert(-hw * 30000 <= self.x * len <= hw * 30000) by (nonlinear_arith)
                        requires
                            -hw <= self.x <= hw,
                            0 <= len <= 30000,
                    ;
                    assert(-hh * 30000 <= self.y * len <= hh * 30000) by (nonlinear_arith)
                        requires
                            -hh <= self.y <= hh,
                            0 <= len <= 30000,
                    ;
                    lemma_quotient_bound(self.x * len, self.z as int);
                    lemma_quotient_bound(self.y * len, self.z as int);
                }
                let ex = sx + floor_div(self.x * len, self.z);
                let ey = sy + floor_div(self.y * len, self.z);
                let gray: i64 = if self.color_class == 0 {
                    180
                } else if self.color_class == 1 {
                    220
                } else {
                    150
                };
                let alpha = 200 + d / 2;
                let mut ops: Vec<DrawOp> = Vec::new();
                ops.push(
                    DrawOp::Line {
                        x0: sx,
                        y0: sy,
                        x1: ex,
                        y1: ey,
                        width: 500 + 3 * d / 2,
                        gray,
                        alpha,
                    },
                );
                ops.push(DrawOp::Disc { cx: ex, cy: ey, radius: 1500 + 2 * d, gray, alpha: alpha * 2 / 5 });
                proof {
                    assert(ops@ =~= star_ops(*self, width as int, height as int));
                }
                ops
            },
        }
    }

    /// One frame of flight: the star comes nearer, and once it has passed
    /// the viewer it is replaced by a fresh star at the far plane.
    pub fn advance(&mut self, width: i64, height: i64)
        requires
            sides_ok(width as int, height as int),
            star_wf(*old(self), width as int, height as int),
        ensures
            stepped(*old(self), *final(self), width as int, height as int),
            star_wf(*final(self), width as int, height as int),
    {
        let d = self.depth(width);
        let z = self.z - (3 * UNIT + 4 * d);
        if z > 0 {
            self.z = z;
        } else {
            *self = WarpStar::fresh(width, height, width * UNIT);
        }
    }
}

/// `b` is what one frame makes of the population `a`, and `ops` is what
/// the frame paints: a clear, then every star of `a` in order. Every star
/// flies one step (see `stepped`); their number never changes.
pub open spec fn ticked(a: WarpField, b: WarpField, ops: Seq<DrawOp>) -> bool {
    &&& b.wf()
    &&& b.width == a.width
    &&& b.height == a.height
    &&& b.stars@.len() == a.stars@.len()
    &&& forall|i: int|
        0 <= i < a.stars@.len() ==> stepped(
            #[trigger] a.stars@[i],
            b.stars@[i],
            a.width as int,
            a.height as int,
        )
    &&& ops == seq![DrawOp::Clear { gray: BACKGROUND_GRAY }] + stars_ops(
        a.stars@,
        a.width as int,
        a.height as int,
    )
}

/// The stars of the warp effect on a canvas of known size.
pub struct WarpField {
    pub width: i64,
    pub height: i64,
    pub stars: Vec<WarpStar>,
}

impl WarpField {
    /// Sides in range and every star in flight.
    pub open spec fn wf(&self) -> bool {
        &&& sides_ok(self.width as int, self.height as int)
        &&& forall|i: int|
            0 <= i < self.stars@.len() ==> star_wf(
                #[trigger] self.stars@[i],
                self.width as int,
                self.height as int,
            )
    }

    /// A population of `WARP_COUNT` stars at random positions and depths.
    pub fn new(width: i64, height: i64) -> (r: WarpField)
        requires
            sides_ok(width as int, height as int),
        ensures
            r.wf(),
            r.width == width,
            r.height == height,
            r.stars@.len() == WARP_COUNT,
    {
        let mut stars: Vec<WarpStar> = Vec::new();
        let mut i: usize = 0;
        while i < WARP_COUNT
            invariant
                sides_ok(width as int, height as int),
                i <= WARP_COUNT,
                stars@.len() == i,
                forall|k: int|
                    0 <= k < stars@.len() ==> star_wf(
                        #[trigger] stars@[k],
                        width as int,
                        height as int,
                    ),
            decreases WARP_COUNT - i,
        {
            stars.push(WarpStar::seeded(width, height));
            i = i + 1;
        }
        WarpField { width, height, stars }
    }

    /// One frame: clear the surface, paint every star, then move every star.
    ///
    /// Returns the frame's operations; the number of stars never changes.
    pub fn tick(&mut self) -> (r: Vec<DrawOp>)
        requires
            old(self).wf(),
        ensures
            ticked(*old(self), *final(self), r@),
    {
        let ghost before = self.stars@;
        let width = self.width;
        let height = self.height;
        let mut ops: Vec<DrawOp> = Vec::new();
        ops.push(DrawOp::Clear { gray: BACKGROUND_GRAY });
        let n = self.stars.len();
        let mut i: usize = 0;
        while i < n
            invariant
                self.width == width,
                self.height == height,
                sides_ok(width as int, height as int),
                n == before.len(),
                i <= n,
                self.stars@.len() == n,
                forall|k: int| 0 <= k < n ==> star_wf(#[trigger] before[k], width as int, height as int),
                forall|k: int| i <= k < n ==> #[trigger] self.stars@[k] == before[k],
                forall|k: int|
                    0 <= k < i ==> stepped(
                        #[trigger] before[k],
                        self.stars@[k],
                        width as int,
                        height as int,
                    ),
                forall|k: int|
                    0 <= k < i ==> star_wf(#[trigger] self.stars@[k], width as int, height as int),
                ops@ == seq![DrawOp::Clear { gray: BACKGROUND_GRAY }] + stars_ops(
                    before.take(i as int),
                    width as int,
                    height as int,
                ),
            decreases n - i,
        {
            let mut star = self.stars[i];
            let mut star_ops_vec = star.draw_ops(width, height);
            ops.append(&mut star_ops_vec);
            star.advance(width, height);
            self.stars.set(i, star);
            proof {
                assert(before.take(i + 1).drop_last() =~= before.take(i as int));
                assert(before.take(i + 1).last() == before[i as int]);
                assert(ops@ =~= seq![DrawOp::Clear { gray: BACKGROUND_GRAY }] + stars_ops(
                    before.take(i + 1),
                    width as int,
                    height as int,
                ));
            }
            i = i + 1;
        }
        proof {
            assert(before.take(n as int) =~= before);
        }
        ops
    }
}

} // verus!
