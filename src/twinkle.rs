use crate::draw::{sides_within, DrawOp, BACKGROUND_GRAY, FULL, MAX_SIDE, UNIT, WHITE};
use crate::random::random_in;
use vstd::prelude::*;

verus! {

/// Number of stars in a twinkle population.
pub const TWINKLE_COUNT: usize = 350;

/// Smallest canvas side, in pixels, that the twinkle effect runs on.
pub const TWINKLE_MIN_SIDE: i64 = 1;

/// Whether a canvas of `width` by `height` pixels can hold the twinkle
/// effect.
pub open spec fn sides_ok(width: int, height: int) -> bool {
    sides_within(width, height, TWINKLE_MIN_SIDE as int, TWINKLE_MIN_SIDE as int)
}

/// Phases stop growing here; at the largest speed that takes millions of
/// years of frames.
pub const PHASE_CAP: i64 = 4_000_000_000_000_000_000;

/// A star that glows and fades in place.
///
/// `x`, `y` and `base_size` are in thousandths of a pixel, `phase` and
/// `speed` in millionths of a radian.
#[derive(Clone, Copy, Debug, PartialEq, Eq, Structural)]
pub struct TwinkleStar {
    pub x: i64,
    pub y: i64,
    pub base_size: i64,
    pub phase: i64,
    pub speed: i64,
    pub base_gray: i64,
}

/// A star that lies on a canvas of `width` by `height` pixels, with its
/// size, speed and gray in their ranges.
pub open spec fn star_wf(s: TwinkleStar, width: int, height: int) -> bool {
    &&& 0 <= s.x < width * UNIT
    &&& 0 <= s.y < height * UNIT
    &&& 800 <= s.base_size <= 3000
    &&& 0 <= s.phase <= PHASE_CAP
    &&& 15_000 <= s.speed <= 60_000
    &&& 120 <= s.base_gray <= 200
}

/// A sine, in thousandths.
pub open spec fn sine_ok(sine: int) -> bool {
    -FULL <= sine <= FULL
}

/// Brightness in thousandths: `(sin(phase) + 1) / 2`.
pub open spec fn brightness(sine: int) -> int {
    (sine + FULL) / 2
}

/// Opacity of the star's disc: `0.3 + 0.5 * brightness`.
pub open spec fn star_alpha(b: int) -> int {
    300 + b / 2
}

/// Radius of the star's disc: `base_size * (0.3 + 0.5 * brightness)`.
pub open spec fn star_size(s: TwinkleStar, b: int) -> int {
    s.base_size * (600 + b) / 2000
}

/// Gray of the star's disc: `base_gray + 60 * brightness`.
pub open spec fn star_gray(s: TwinkleStar, b: int) -> int {
    s.base_gray + 60 * b / (FULL as int)
}

/// Brightness above which the glow halo is drawn.
pub open spec fn halo_threshold() -> int {
    500
}

/// Brightness above which the sparkle cross is drawn.
pub open spec fn sparkle_threshold() -> int {
    850
}

/// The four arms of the sparkle cross.
pub open spec fn sparkle_ops(s: TwinkleStar, b: int) -> Seq<DrawOp> {
    let arm = 3 * star_size(s, b);
    let a = ((b - 850) * 2) as i64;
    let w = UNIT;
    seq![
        DrawOp::Line { x0: s.x, y0: s.y, x1: (s.x - arm) as i64, y1: s.y, width: w, gray: WHITE, alpha: a },
        DrawOp::Line { x0: s.x, y0: s.y, x1: (s.x + arm) as i64, y1: s.y, width: w, gray: WHITE, alpha: a },
        DrawOp::Line { x0: s.x, y0: s.y, x1: s.x, y1: (s.y - arm) as i64, width: w, gray: WHITE, alpha: a },
        DrawOp::Line { x0: s.x, y0: s.y, x1: s.x, y1: (s.y + arm) as i64, width: w, gray: WHITE, alpha: a },
    ]
}

/// What a star paints when the sine of its phase is `sine`: its disc, a
/// two-layer halo once brightness passes one half, and a sparkle cross once
/// it passes 0.85.
pub open spec fn star_ops(s: TwinkleStar, sine: int) -> Seq<DrawOp> {
    let b = brightness(sine);
    let size = star_size(s, b);
    let gray = star_gray(s, b) as i64;
    let alpha = star_alpha(b);
    let main = seq![DrawOp::Disc { cx: s.x, cy: s.y, radius: size as i64, gray, alpha: alpha as i64 }];
    let halo = if b > halo_threshold() {
        seq![
            DrawOp::Disc { cx: s.x, cy: s.y, radius: (2 * size) as i64, gray, alpha: (alpha / 5) as i64 },
            DrawOp::Disc { cx: s.x, cy: s.y, radius: (3 * size) as i64, gray, alpha: (alpha / 10) as i64 },
        ]
    } else {
        seq![]
    };
    let sparkle = if b > sparkle_threshold() {
        sparkle_ops(s, b)
    } else {
        seq![]
    };
    main + halo + sparkle
}

/// The operations of a population, star after star, each with its sine.
pub open spec fn stars_ops(stars: Seq<TwinkleStar>, sines: Seq<i64>) -> Seq<DrawOp>
    decreases stars.len(),
{
    if stars.len() == 0 || sines.len() == 0 {
        seq![]
    } else {
        stars_ops(stars.drop_last(), sines.drop_last()) + star_ops(stars.last(), sines.last() as int)
    }
}

/// The phase after one frame: it grows by the star's speed.
pub open spec fn advanced_phase(s: TwinkleStar) -> int {
    if s.phase + s.speed <= PHASE_CAP {
        s.phase + s.speed
    } else {
        PHASE_CAP as int
    }
}

/// Brightness lies in `[0, 1]` and the disc's opacity in `[0.3, 0.8]`.
pub proof fn lemma_brightness_bounds(sine: int)
    requires
        sine_ok(sine),
    ensures
        0 <= brightness(sine) <= FULL,
        300 <= star_alpha(brightness(sine)) <= 800,
{
}

/// A star paints its sparkle cross exactly when its brightness passes 0.85,
/// and its halo discs exactly when brightness passes one half.
pub proof fn lemma_thresholds(s: TwinkleStar, sine: int)
    requires
        sine_ok(sine),
    ensures
        (exists|i: int| 0 <= i < star_ops(s, sine).len() && #[trigger] star_ops(s, sine)[i] is Line)
            <==> brightness(sine) > 850,
        (exists|i: int|
            1 <= i < star_ops(s, sine).len() && #[trigger] star_ops(s, sine)[i] is Disc)
            <==> brightness(sine) > 500,
        star_ops(s, sine)[0] is Disc,
{
    let ops = star_ops(s, sine);
    let b = brightness(sine);
    if b > 850 {
        assert(ops[3] is Line);
    }
    if b > 500 {
        assert(ops[1] is Disc);
    }
    if b <= 850 {
        assert forall|i: int| 0 <= i < ops.len() implies !(#[trigger] ops[i] is Line) by {}
    }
    if b <= 500 {
        assert(ops.len() == 1);
    } else {
        assert forall|i: int| 3 <= i < ops.len() implies !(#[trigger] ops[i] is Disc) by {}
    }
}

impl TwinkleStar {
    /// A star for a new population: random place, size, phase, speed, gray.
    pub fn seeded(width: i64, height: i64) -> (r: TwinkleStar)
        requires
            sides_ok(width as int, height as int),
        ensures
            star_wf(r, width as int, height as int),
            r.phase < 6_283_186,
    {
        let x = random_in(0, width * UNIT);
        let y = random_in(0, height * UNIT);
        let base_size = random_in(800, 3001);
        let phase = random_in(0, 6_283_186);
        let speed = random_in(15_000, 60_001);
        let base_gray = random_in(120, 201);
        TwinkleStar { x, y, base_size, phase, speed, base_gray }
    }

    /// Brightness in thousandths for a sine in thousandths.
    pub fn brightness(sine: i64) -> (r: i64)
        requires
            sine_ok(sine as int),
        ensures
            r == brightness(sine as int),
            0 <= r <= FULL,
    {
        (sine + FULL) / 2
    }

    /// What the star paints when the sine of its phase is `sine`.
    pub fn draw_ops(&self, sine: i64) -> (r: Vec<DrawOp>)
        requires
            sine_ok(sine as int),
            star_wf(*self, MAX_SIDE as int, MAX_SIDE as int),
        ensures
            r@ == star_ops(*self, sine as int),
    {
        let b = TwinkleStar::brightness(sine);
        proof {
            assert(0 <= self.base_size * (600 + b) <= 3000 * 1600) by (nonlinear_arith)
                requires
                    800 <= self.base_size <= 3000,
                    0 <= b <= 1000,
            ;
        }
        let size = self.base_size * (600 + b) / 2000;
        let gray = self.base_gray + 60 * b / FULL;
        let alpha = 300 + b / 2;
        let mut ops: Vec<DrawOp> = Vec::new();
        ops.push(DrawOp::Disc { cx: self.x, cy: self.y, radius: size, gray, alpha });
        if b > 500 {
            ops.push(DrawOp::Disc { cx: self.x, cy: self.y, radius: 2 * size, gray, alpha: alpha / 5 });
            ops.push(DrawOp::Disc { cx: self.x, cy: self.y, radius: 3 * size, gray, alpha: alpha / 10 });
        }
        if b > 850 {
            let arm = 3 * size;
            let a = (b - 850) * 2;
            let (x, y) = (self.x, self.y);
            ops.push(DrawOp::Line { x0: x, y0: y, x1: x - arm, y1: y, width: UNIT, gray: WHITE, alpha: a });
            ops.push(DrawOp::Line { x0: x, y0: y, x1: x + arm, y1: y, width: UNIT, gray: WHITE, alpha: a });
            ops.push(DrawOp::Line { x0: x, y0: y, x1: x, y1: y - arm, width: UNIT, gray: WHITE, alpha: a });
            ops.push(DrawOp::Line { x0: x, y0: y, x1: x, y1: y + arm, width: UNIT, gray: WHITE, alpha: a });
        }
        proof {
            assert(ops@ =~= star_ops(*self, sine as int));
        }
        ops
    }

    /// One frame: the phase grows by the speed.
    pub fn advance(&mut self)
        requires
            0 <= old(self).phase <= PHASE_CAP,
            0 <= old(self).speed,
            old(self).speed <= 60_000,
        ensures
            *final(self) == (TwinkleStar { phase: advanced_phase(*old(self)) as i64, ..*old(self) }),
    {
        if self.phase <= PHASE_CAP - self.speed {
            self.phase = self.phase + self.speed;
        } else {
            self.phase = PHASE_CAP;
        }
    }
}

/// `b` is what one frame makes of the population `a` when the sines of the
/// phases are `sines`, and `ops` is what the frame paints: a clear, then
/// every star of `a` in order. Every phase grows by its star's speed; the
/// number of stars never changes.
pub open spec fn ticked(a: TwinkleField, b: TwinkleField, sines: Seq<i64>, ops: Seq<DrawOp>) -> bool {
    &&& b.wf()
    &&& b.width == a.width
    &&& b.height == a.height
    &&& b.stars@.len() == a.stars@.len()
    &&& forall|i: int|
        0 <= i < a.stars@.len() ==> #[trigger] b.stars@[i] == (TwinkleStar {
            phase: advanced_phase(a.stars@[i]) as i64,
            ..a.stars@[i]
        })
    &&& ops == seq![DrawOp::Clear { gray: BACKGROUND_GRAY }] + stars_ops(a.stars@, sines)
}

/// The stars of the twinkle effect on a canvas of known size.
pub struct TwinkleField {
    pub width: i64,
    pub height: i64,
    pub stars: Vec<TwinkleStar>,
}

impl TwinkleField {
    /// Sides in range and every star on the canvas.
    pub open spec fn wf(&self) -> bool {
        &&& sides_ok(self.width as int, self.height as int)
        &&& forall|i: int|
            0 <= i < self.stars@.len() ==> star_wf(
                #[trigger] self.stars@[i],
                self.width as int,
                self.height as int,
            )
    }

    /// A population of `TWINKLE_COUNT` stars with random attributes.
    pub fn new(width: i64, height: i64) -> (r: TwinkleField)
        requires
            sides_ok(width as int, height as int),
        ensures
            r.wf(),
            r.width == width,
            r.height == height,
            r.stars@.len() == TWINKLE_COUNT,
    {
        let mut stars: Vec<TwinkleStar> = Vec::new();
        let mut i: usize = 0;
        while i < TWINKLE_COUNT
            invariant
                sides_ok(width as int, height as int),
                i <= TWINKLE_COUNT,
                stars@.len() == i,
                forall|k: int|
                    0 <= k < stars@.len() ==> star_wf(
                        #[trigger] stars@[k],
                        width as int,
                        height as int,
                    ),
            decreases TWINKLE_COUNT - i,
        {
            stars.push(TwinkleStar::seeded(width, height));
            i = i + 1;
        }
        TwinkleField { width, height, stars }
    }

    /// The phase of every star, in order: the host takes their sines.
    pub fn phases(&self) -> (r: Vec<i64>)
        ensures
            r@.len() == self.stars@.len(),
            forall|i: int| 0 <= i < r@.len() ==> #[trigger] r@[i] == self.stars@[i].phase,
    {
        let mut r: Vec<i64> = Vec::new();
        let mut i: usize = 0;
        while i < self.stars.len()
            invariant
                i <= self.stars@.len(),
                r@.len() == i,
                forall|k: int| 0 <= k < i ==> #[trigger] r@[k] == self.stars@[k].phase,
            decreases self.stars@.len() - i,
        {
            r.push(self.stars[i].phase);
            i = i + 1;
        }
        r
    }

    /// One frame: clear the surface, paint every star with the sine of its
    /// phase (`sines[i]` for star `i`, in thousandths), then advance every
    /// phase.
    pub fn tick(&mut self, sines: &Vec<i64>) -> (r: Vec<DrawOp>)
        requires
            old(self).wf(),
            sines@.len() == old(self).stars@.len(),
            forall|i: int| 0 <= i < sines@.len() ==> sine_ok(#[trigger] sines@[i] as int),
        ensures
            ticked(*old(self), *final(self), sines@, r@),
    {
        let ghost before = self.stars@;
        let ghost width = self.width as int;
        let ghost height = self.height as int;
        let mut ops: Vec<DrawOp> = Vec::new();
        ops.push(DrawOp::Clear { gray: BACKGROUND_GRAY });
        let n = self.stars.len();
        let mut i: usize = 0;
        while i < n
            invariant
                self.width == width,
                self.height == height,
                sides_ok(width, height),
                n == before.len(),
                n == sines@.len(),
                i <= n,
                self.stars@.len() == n,
                forall|k: int| 0 <= k < n ==> sine_ok(#[trigger] sines@[k] as int),
                forall|k: int| 0 <= k < n ==> star_wf(#[trigger] before[k], width, height),
                forall|k: int| i <= k < n ==> #[trigger] self.stars@[k] == before[k],
                forall|k: int|
                    0 <= k < i ==> #[trigger] self.stars@[k] == (TwinkleStar {
                        phase: advanced_phase(before[k]) as i64,
                        ..before[k]
                    }),
                ops@ == seq![DrawOp::Clear { gray: BACKGROUND_GRAY }] + stars_ops(
                    before.take(i as int),
                    sines@.take(i as int),
                ),
            decreases n - i,
        {
            let mut star = self.stars[i];
            proof {
                assert(star_wf(star, width, height));
            }
            let mut star_ops_vec = star.draw_ops(sines[i]);
            ops.append(&mut star_ops_vec);
            star.advance();
            self.stars.set(i, star);
            proof {
                assert(before.take(i + 1).drop_last() =~= before.take(i as int));
                assert(sines@.take(i + 1).drop_last() =~= sines@.take(i as int));
                assert(ops@ =~= seq![DrawOp::Clear { gray: BACKGROUND_GRAY }] + stars_ops(
                    before.take(i + 1),
                    sines@.take(i + 1),
                ));
            }
            i = i + 1;
        }
        proof {
            assert(before.take(n as int) =~= before);
            assert(sines@.take(n as int) =~= sines@);
        }
        ops
    }
}

} // verus!
