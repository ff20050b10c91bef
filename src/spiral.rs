use crate::draw::{sides_within, DrawOp, BACKGROUND_GRAY, UNIT, WHITE};
use crate::random::random_in;
use vstd::prelude::*;

verus! {

/// Number of stars in a spiral population.
pub const SPIRAL_COUNT: usize = 500;

/// Smallest canvas side, in pixels, that the spiral effect runs on: stars
/// keep at least twenty pixels from the center, inside half the shorter
/// side.
pub const SPIRAL_MIN_SIDE: i64 = 40;

/// Whether a canvas of `width` by `height` pixels can hold the spiral
/// effect.
pub open spec fn sides_ok(width: int, height: int) -> bool {
    sides_within(width, height, SPIRAL_MIN_SIDE as int, SPIRAL_MIN_SIDE as int)
}

/// Number of discs in a star's motion trail.
pub const TRAIL_LEN: i64 = 8;

/// Rotation, in millionths of a radian, that the distortion adds at the rim.
pub const TWIST: i64 = 1_500_000;

/// Growth of the synthetic clock per frame, in millionths.
pub const TIME_STEP: i64 = 5_000;

/// Angles stop growing here; at the largest speed that takes millions of
/// years of frames.
pub const ANGLE_CAP: i64 = 4_000_000_000_000_000_000;

/// The clock stops here.
pub const TIME_CAP: i64 = 1_000_000_000_000_000_000;

/// A star circling the canvas center at a fixed distance.
///
/// `angle` and `speed` are in millionths of a radian, `distance` and `size`
/// in thousandths of a pixel; `arm` is one of the four arms of the galaxy.
#[derive(Clone, Copy, Debug, PartialEq, Eq, Structural)]
pub struct SpiralStar {
    pub angle: i64,
    pub distance: i64,
    pub size: i64,
    pub speed: i64,
    pub arm: i64,
}

/// Radius of the galaxy: half the shorter side, in thousandths of a pixel.
pub open spec fn max_dist(width: int, height: int) -> int {
    if width <= height {
        width * UNIT / 2
    } else {
        height * UNIT / 2
    }
}

/// A star inside a galaxy of radius `max`, with its attributes in range.
pub open spec fn star_wf(s: SpiralStar, max: int) -> bool {
    &&& 0 <= s.angle <= ANGLE_CAP
    &&& 20 * UNIT <= s.distance <= max
    &&& 1000 <= s.size <= 3500
    &&& 2000 <= s.speed <= 8000
    &&& 0 <= s.arm < 4
}

/// The angle at which a star is shown: farther stars are turned further
/// ahead, by up to `TWIST` at the rim.
pub open spec fn display_angle(s: SpiralStar, max: int) -> int {
    s.angle + s.distance * TWIST / max
}

/// Base gray of an arm.
pub open spec fn arm_gray(arm: int) -> int {
    if arm == 0 {
        230
    } else if arm == 1 {
        200
    } else if arm == 2 {
        170
    } else {
        245
    }
}

/// Gray of a star: its arm's, darker towards the rim.
pub open spec fn star_gray(s: SpiralStar, max: int) -> int {
    arm_gray(s.arm as int) - 80 * s.distance / max
}

/// Opacity of a star: higher towards the center.
pub open spec fn star_alpha(s: SpiralStar, max: int) -> int {
    900 - 500 * s.distance / max
}

/// Opacity of trail disc `i` behind a star of opacity `alpha`.
pub open spec fn trail_alpha(alpha: int, i: int) -> int {
    alpha * (TRAIL_LEN - i) / 24
}

/// Trail disc `i`: stepped back along the orbit, smaller and fainter.
pub open spec fn trail_disc(s: SpiralStar, max: int, i: int) -> DrawOp {
    DrawOp::Orbit {
        angle: (display_angle(s, max) - s.speed * i * 5) as i64,
        rx: s.distance,
        ry: s.distance,
        radius: (s.size * (10 - i) / 10) as i64,
        gray: star_gray(s, max) as i64,
        alpha: trail_alpha(star_alpha(s, max), i) as i64,
    }
}

/// The first `k` trail discs, leaving out each whose opacity is not positive.
pub open spec fn trail_ops(s: SpiralStar, max: int, k: int) -> Seq<DrawOp>
    decreases k,
{
    if k <= 0 {
        seq![]
    } else {
        trail_ops(s, max, k - 1) + if trail_alpha(star_alpha(s, max), k) > 0 {
            seq![trail_disc(s, max, k)]
        } else {
            seq![]
        }
    }
}

/// What a star paints: its disc, a faint glow and its motion trail.
pub open spec fn star_ops(s: SpiralStar, max: int) -> Seq<DrawOp> {
    let a = display_angle(s, max) as i64;
    let gray = star_gray(s, max) as i64;
    let alpha = star_alpha(s, max);
    seq![
        DrawOp::Orbit { angle: a, rx: s.distance, ry: s.distance, radius: (s.size * 4 / 5) as i64, gray, alpha: alpha as i64 },
        DrawOp::Orbit { angle: a, rx: s.distance, ry: s.distance, radius: (s.size * 2) as i64, gray, alpha: (alpha * 15 / 100) as i64 },
    ] + trail_ops(s, max, TRAIL_LEN as int)
}

/// The operations of a population, star after star.
pub open spec fn stars_ops(stars: Seq<SpiralStar>, max: int) -> Seq<DrawOp>
    decreases stars.len(),
{
    if stars.len() == 0 {
        seq![]
    } else {
        stars_ops(stars.drop_last(), max) + star_ops(stars.last(), max)
    }
}

/// A star after one frame: only its angle moves, by its speed.
pub open spec fn advanced(s: SpiralStar) -> SpiralStar {
    SpiralStar {
        angle: if s.angle + s.speed <= ANGLE_CAP {
            (s.angle + s.speed) as i64
        } else {
            ANGLE_CAP
        },
        ..s
    }
}

/// A share `c * d / max` of `c`, for `d` between zero and `max`, is
/// between zero and `c`.
pub proof fn lemma_ratio(d: int, max: int, c: int)
    requires
        0 <= d <= max,
        0 < max,
        0 <= c,
    ensures
        0 <= c * d / max <= c,
{
    vstd::arithmetic::div_mod::lemma_fundamental_div_mod(c * d, max);
    vstd::arithmetic::div_mod::lemma_mod_bound(c * d, max);
    let q = c * d / max;
    assert(0 <= q <= c) by (nonlinear_arith)
        requires
            0 <= d <= max,
            0 < max,
            0 <= c,
            c * d == max * q + (c * d) % max,
            0 <= (c * d) % max < max,
    ;
}


/// Every trail disc that is painted has a positive opacity, and a disc whose
/// opacity is not positive adds nothing to the trail.
pub proof fn lemma_trail_truncation(s: SpiralStar, max: int, k: int)
    requires
        star_wf(s, max),
    ensures
        forall|j: int|
            0 <= j < trail_ops(s, max, k).len() ==> (#[trigger] trail_ops(s, max, k)[j]) is Orbit
                && trail_ops(s, max, k)[j]->Orbit_alpha > 0,
        k >= 1 && trail_alpha(star_alpha(s, max), k) <= 0 ==> trail_ops(s, max, k) == trail_ops(
            s,
            max,
            k - 1,
        ),
    decreases k,
{
    if k > 0 {
        lemma_trail_truncation(s, max, k - 1);
        let prev = trail_ops(s, max, k - 1);
        let cur = trail_ops(s, max, k);
        if trail_alpha(star_alpha(s, max), k) > 0 {
            lemma_ratio(s.distance as int, max, 500);
            let a = star_alpha(s, max);
            if k > TRAIL_LEN {
                assert(a * (TRAIL_LEN - k) <= 0) by (nonlinear_arith)
                    requires
                        0 <= a,
                        k > TRAIL_LEN,
                ;
                vstd::arithmetic::div_mod::lemma_div_is_ordered(a * (TRAIL_LEN - k), 0, 24);
            }
            lemma_ratio(TRAIL_LEN - k, 24, a);
            assert forall|j: int| 0 <= j < cur.len() implies (#[trigger] cur[j]) is Orbit
                && cur[j]->Orbit_alpha > 0 by {
                if j < prev.len() {
                    assert(cur[j] == prev[j]);
                }
            }
        } else {
            assert(cur =~= prev);
        }
    }
}

/// Three faint, wide discs that drift around the center as the clock runs.
pub open spec fn nebula_ops(time: int, width: int, height: int) -> Seq<DrawOp> {
    let w = width * UNIT;
    let h = height * UNIT;
    let m = max_dist(width, height);
    seq![
        DrawOp::Orbit { angle: time as i64, rx: (w / 8) as i64, ry: (h / 10) as i64, radius: m as i64, gray: 40, alpha: 20 },
        DrawOp::Orbit { angle: (2 * time + 2_094_395) as i64, rx: (w / 5) as i64, ry: (h / 6) as i64, radius: (m * 3 / 4) as i64, gray: 55, alpha: 15 },
        DrawOp::Orbit { angle: (3 * time + 4_188_790) as i64, rx: (w / 4) as i64, ry: (h / 5) as i64, radius: (m / 2) as i64, gray: 70, alpha: 12 },
    ]
}

/// The pulsing glow at the center: a wide dim layer under a small bright one.
pub open spec fn core_ops(time: int) -> Seq<DrawOp> {
    seq![
        DrawOp::Pulse { phase: (2 * time) as i64, radius: 40_000, swing: 8_000, alpha: 60, alpha_swing: 30, gray: 200 },
        DrawOp::Pulse { phase: (2 * time) as i64, radius: 12_000, swing: 3_000, alpha: 500, alpha_swing: 200, gray: WHITE },
    ]
}

/// The clock after one frame.
pub open spec fn advanced_time(time: int) -> int {
    if time + TIME_STEP <= TIME_CAP {
        time + TIME_STEP
    } else {
        TIME_CAP as int
    }
}

impl SpiralStar {
    /// A star for a new population inside a galaxy of radius `max`.
    pub fn seeded(max: i64) -> (r: SpiralStar)
        requires
            20 * UNIT <= max <= crate::draw::MAX_SIDE * UNIT,
        ensures
            star_wf(r, max as int),
            r.angle < 6_283_186,
    {
        let angle = random_in(0, 6_283_186);
        let distance = random_in(20 * UNIT, max + 1);
        let size = random_in(1000, 3501);
        let speed = random_in(2000, 8001);
        let arm = random_in(0, 4);
        SpiralStar { angle, distance, size, speed, arm }
    }

    /// The angle at which the star is shown in a galaxy of radius `max`.
    pub fn display_angle(&self, max: i64) -> (r: i64)
        requires
            0 < max <= crate::draw::MAX_SIDE * UNIT,
            star_wf(*self, max as int),
        ensures
            r == display_angle(*self, max as int),
    {
        proof {
            lemma_ratio(self.distance as int, max as int, TWIST as int);
        }
        self.angle + self.distance * TWIST / max
    }

    /// What the star paints in a galaxy of radius `max`.
    pub fn draw_ops(&self, max: i64) -> (r: Vec<DrawOp>)
        requires
            0 < max <= crate::draw::MAX_SIDE * UNIT,
            star_wf(*self, max as int),
        ensures
            r@ == star_ops(*self, max as int),
    {
        proof {
            lemma_ratio(self.distance as int, max as int, 80);
            lemma_ratio(self.distance as int, max as int, 500);
        }
        let a = self.display_angle(max);
        let gray = if self.arm == 0 {
            230
        } else if self.arm == 1 {
            200
        } else if self.arm == 2 {
            170
        } else {
            245
        } - 80 * self.distance / max;
        let alpha = 900 - 500 * self.distance / max;
        let d = self.distance;
        let mut ops: Vec<DrawOp> = Vec::new();
        ops.push(DrawOp::Orbit { angle: a, rx: d, ry: d, radius: self.size * 4 / 5, gray, alpha });
        ops.push(DrawOp::Orbit { angle: a, rx: d, ry: d, radius: self.size * 2, gray, alpha: alpha * 15 / 100 });
        let ghost head = ops@;
        let mut i: i64 = 1;
        while i <= TRAIL_LEN
            invariant
                1 <= i <= TRAIL_LEN + 1,
                0 < max <= crate::draw::MAX_SIDE * UNIT,
                star_wf(*self, max as int),
                a == display_angle(*self, max as int),
                gray == star_gray(*self, max as int),
                alpha == star_alpha(*self, max as int),
                400 <= alpha <= 900,
                d == self.distance,
                ops@ == head + trail_ops(*self, max as int, i - 1),
            decreases TRAIL_LEN + 1 - i,
        {
            proof {
                assert(0 <= alpha * (TRAIL_LEN - i) <= 900 * TRAIL_LEN) by (nonlinear_arith)
                    requires
                        400 <= alpha <= 900,
                        1 <= i <= TRAIL_LEN,
                ;
                assert(0 <= self.speed * i <= 8000 * TRAIL_LEN) by (nonlinear_arith)
                    requires
                        2000 <= self.speed <= 8000,
                        1 <= i <= TRAIL_LEN,
                ;
                assert(0 <= self.size * (10 - i) <= 3500 * 10) by (nonlinear_arith)
                    requires
                        1000 <= self.size <= 3500,
                        1 <= i <= TRAIL_LEN,
                ;
            }
            let ta = alpha * (TRAIL_LEN - i) / 24;
            if ta > 0 {
                ops.push(
                    DrawOp::Orbit {
                        angle: a - self.speed * i * 5,
                        rx: d,
                        ry: d,
                        radius: self.size * (10 - i) / 10,
                        gray,
                        alpha: ta,
                    },
                );
            }
            proof {
                assert(ops@ =~= head + trail_ops(*self, max as int, i as int));
            }
            i = i + 1;
        }
        proof {
            assert(ops@ =~= star_ops(*self, max as int));
        }
        ops
    }

    /// One frame: the angle grows by the speed; nothing else changes.
    pub fn advance(&mut self)
        requires
            0 <= old(self).angle <= ANGLE_CAP,
            0 <= old(self).speed <= 8000,
        ensures
            *final(self) == advanced(*old(self)),
    {
        if self.angle <= ANGLE_CAP - self.speed {
            self.angle = self.angle + self.speed;
        } else {
            self.angle = ANGLE_CAP;
        }
    }
}

/// `b` is what one frame makes of the galaxy `a`, and `ops` is what the
/// frame paints: a clear, the nebula, every star of `a` in order and the
/// core glow. The clock advances and every star turns by its speed at its
/// own distance; the number of stars never changes.
pub open spec fn ticked(a: SpiralField, b: SpiralField, ops: Seq<DrawOp>) -> bool {
    &&& b.wf()
    &&& b.width == a.width
    &&& b.height == a.height
    &&& b.time == advanced_time(a.time as int)
    &&& b.stars@.len() == a.stars@.len()
    &&& forall|i: int| 0 <= i < a.stars@.len() ==> #[trigger] b.stars@[i] == advanced(a.stars@[i])
    &&& ops == seq![DrawOp::Clear { gray: BACKGROUND_GRAY }] + nebula_ops(
        b.time as int,
        a.width as int,
        a.height as int,
    ) + stars_ops(a.stars@, max_dist(a.width as int, a.height as int)) + core_ops(b.time as int)
}

/// A frame leaves every star at its distance, with its size, speed and arm;
/// only its angle moves, by its speed (until the angle reaches
/// `ANGLE_CAP`, where it stays).
pub proof fn lemma_distance_invariant(a: SpiralField, b: SpiralField, ops: Seq<DrawOp>)
    requires
        ticked(a, b, ops),
    ensures
        b.stars@.len() == a.stars@.len(),
        forall|i: int|
            0 <= i < a.stars@.len() ==> {
                let (s, t) = (#[trigger] a.stars@[i], b.stars@[i]);
                &&& t.distance == s.distance
                &&& t.size == s.size
                &&& t.speed == s.speed
                &&& t.arm == s.arm
                &&& s.angle + s.speed <= ANGLE_CAP ==> t.angle == s.angle + s.speed
                &&& s.angle + s.speed > ANGLE_CAP ==> t.angle == ANGLE_CAP
            },
{
}

/// The stars of the spiral effect on a canvas of known size, with the
/// synthetic clock that drives the nebula and the core glow.
pub struct SpiralField {
    pub width: i64,
    pub height: i64,
    pub time: i64,
    pub stars: Vec<SpiralStar>,
}

impl SpiralField {
    /// Sides in range, the clock in range and every star inside the galaxy.
    pub open spec fn wf(&self) -> bool {
        &&& sides_ok(self.width as int, self.height as int)
        &&& 0 <= self.time <= TIME_CAP
        &&& forall|i: int|
            0 <= i < self.stars@.len() ==> star_wf(
                #[trigger] self.stars@[i],
                max_dist(self.width as int, self.height as int),
            )
    }

    /// Radius of the galaxy: half the shorter side.
    pub fn max_dist(&self) -> (r: i64)
        requires
            sides_ok(self.width as int, self.height as int),
        ensures
            r == max_dist(self.width as int, self.height as int),
            20 * UNIT <= r <= crate::draw::MAX_SIDE * UNIT / 2,
    {
        if self.width <= self.height {
            self.width * UNIT / 2
        } else {
            self.height * UNIT / 2
        }
    }

    /// A population of `SPIRAL_COUNT` stars with random attributes, and the
    /// clock at zero.
    pub fn new(width: i64, height: i64) -> (r: SpiralField)
        requires
            sides_ok(width as int, height as int),
        ensures
            r.wf(),
            r.width == width,
            r.height == height,
            r.time == 0,
            r.stars@.len() == SPIRAL_COUNT,
    {
        let mut field = SpiralField { width, height, time: 0, stars: Vec::new() };
        let max = field.max_dist();
        let mut i: usize = 0;
        while i < SPIRAL_COUNT
            invariant
                sides_ok(width as int, height as int),
                field.width == width,
                field.height == height,
                field.time == 0,
                max == max_dist(width as int, height as int),
                20 * UNIT <= max <= crate::draw::MAX_SIDE * UNIT / 2,
                i <= SPIRAL_COUNT,
                field.stars@.len() == i,
                forall|k: int| 0 <= k < field.stars@.len() ==> star_wf(#[trigger] field.stars@[k], max as int),
            decreases SPIRAL_COUNT - i,
        {
            field.stars.push(SpiralStar::seeded(max));
            i = i + 1;
        }
        field
    }

    /// One frame: clear the surface, advance the clock, paint the nebula,
    /// every star and the core glow, then turn every star.
    pub fn tick(&mut self) -> (r: Vec<DrawOp>)
        requires
            old(self).wf(),
        ensures
            ticked(*old(self), *final(self), r@),
    {
        let ghost before = self.stars@;
        let max = self.max_dist();
        if self.time <= TIME_CAP - TIME_STEP {
            self.time = self.time + TIME_STEP;
        } else {
            self.time = TIME_CAP;
        }
        let t = self.time;
        let w = self.width * UNIT;
        let h = self.height * UNIT;
        let mut ops: Vec<DrawOp> = Vec::new();
        ops.push(DrawOp::Clear { gray: BACKGROUND_GRAY });
        ops.push(DrawOp::Orbit { angle: t, rx: w / 8, ry: h / 10, radius: max, gray: 40, alpha: 20 });
        ops.push(
            DrawOp::Orbit {
                angle: 2 * t + 2_094_395,
                rx: w / 5,
                ry: h / 6,
                radius: max * 3 / 4,
                gray: 55,
                alpha: 15,
            },
        );
        ops.push(
            DrawOp::Orbit {
                angle: 3 * t + 4_188_790,
                rx: w / 4,
                ry: h / 5,
                radius: max / 2,
                gray: 70,
                alpha: 12,
            },
        );
        let ghost head = ops@;
        proof {
            assert(head =~= seq![DrawOp::Clear { gray: BACKGROUND_GRAY }] + nebula_ops(
                t as int,
                self.width as int,
                self.height as int,
            ));
        }
        let n = self.stars.len();
        let mut i: usize = 0;
        while i < n
            invariant
                self.width == old(self).width,
                self.height == old(self).height,
                self.time == t,
                0 <= t <= TIME_CAP,
                sides_ok(self.width as int, self.height as int),
                max == max_dist(self.width as int, self.height as int),
                20 * UNIT <= max <= crate::draw::MAX_SIDE * UNIT / 2,
                n == before.len(),
                i <= n,
                self.stars@.len() == n,
                forall|k: int| 0 <= k < n ==> star_wf(#[trigger] before[k], max as int),
                forall|k: int| i <= k < n ==> #[trigger] self.stars@[k] == before[k],
                forall|k: int| 0 <= k < i ==> #[trigger] self.stars@[k] == advanced(before[k]),
                ops@ == head + stars_ops(before.take(i as int), max as int),
            decreases n - i,
        {
            let mut star = self.stars[i];
            let mut star_ops_vec = star.draw_ops(max);
            ops.append(&mut star_ops_vec);
            star.advance();
            self.stars.set(i, star);
            proof {
                assert(before.take(i + 1).drop_last() =~= before.take(i as int));
                assert(ops@ =~= head + stars_ops(before.take(i + 1), max as int));
            }
            i = i + 1;
        }
        ops.push(
            DrawOp::Pulse { phase: 2 * t, radius: 40_000, swing: 8_000, alpha: 60, alpha_swing: 30, gray: 200 },
        );
        ops.push(
            DrawOp::Pulse { phase: 2 * t, radius: 12_000, swing: 3_000, alpha: 500, alpha_swing: 200, gray: WHITE },
        );
        proof {
            assert(before.take(n as int) =~= before);
            assert forall|k: int| 0 <= k < n implies star_wf(
                #[trigger] self.stars@[k],
                max as int,
            ) by {
                assert(self.stars@[k] == advanced(before[k]));
            }
            assert(ops@ =~= seq![DrawOp::Clear { gray: BACKGROUND_GRAY }] + nebula_ops(
                t as int,
                self.width as int,
                self.height as int,
            ) + stars_ops(before, max as int) + core_ops(t as int));
        }
        ops
    }
}

} // verus!
