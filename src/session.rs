use crate::draw::{sides_within, DrawOp, MAX_SIDE};
use crate::spiral::{self, SpiralField, SPIRAL_COUNT, SPIRAL_MIN_SIDE};
use crate::twinkle::{self, sine_ok, TwinkleField, TWINKLE_COUNT, TWINKLE_MIN_SIDE};
use crate::warp::{self, WarpField, WARP_COUNT, WARP_MIN_HEIGHT, WARP_MIN_WIDTH};
use vstd::prelude::*;

verus! {

/// The visual variant that a session runs.
#[derive(Clone, Copy, Debug, PartialEq, Eq, Structural)]
pub enum Effect {
    Warp,
    Twinkle,
    Spiral,
}

/// The particles of a session, of the session's variant.
pub enum Population {
    Warp(WarpField),
    Twinkle(TwinkleField),
    Spiral(SpiralField),
}

/// Whether a session is animating.
#[derive(Clone, Copy, Debug, PartialEq, Eq, Structural)]
pub enum SessionState {
    Running,
    Stopped,
}

/// Why a session could not start.
#[derive(Clone, Copy, Debug, PartialEq, Eq, Structural)]
pub enum SessionError {
    /// A side of the canvas is shorter than the effect needs.
    CanvasTooSmall,
    /// A side of the canvas is longer than `MAX_SIDE` pixels.
    CanvasTooLarge,
}

/// The number of particles of each variant.
pub open spec fn population_size(e: Effect) -> int {
    match e {
        Effect::Warp => WARP_COUNT as int,
        Effect::Twinkle => TWINKLE_COUNT as int,
        Effect::Spiral => SPIRAL_COUNT as int,
    }
}

/// The narrowest canvas, in pixels, that each variant runs on.
pub open spec fn min_width(e: Effect) -> int {
    match e {
        Effect::Warp => WARP_MIN_WIDTH as int,
        Effect::Twinkle => TWINKLE_MIN_SIDE as int,
        Effect::Spiral => SPIRAL_MIN_SIDE as int,
    }
}

/// The lowest canvas, in pixels, that each variant runs on.
pub open spec fn min_height(e: Effect) -> int {
    match e {
        Effect::Warp => WARP_MIN_HEIGHT as int,
        Effect::Twinkle => TWINKLE_MIN_SIDE as int,
        Effect::Spiral => SPIRAL_MIN_SIDE as int,
    }
}

impl Effect {
    /// The smallest width and height, in pixels, that this variant runs on.
    pub fn min_sides(&self) -> (r: (i64, i64))
        ensures
            r.0 == min_width(*self),
            r.1 == min_height(*self),
    {
        match self {
            Effect::Warp => (WARP_MIN_WIDTH, WARP_MIN_HEIGHT),
            Effect::Twinkle => (TWINKLE_MIN_SIDE, TWINKLE_MIN_SIDE),
            Effect::Spiral => (SPIRAL_MIN_SIDE, SPIRAL_MIN_SIDE),
        }
    }
}

impl Population {
    /// The variant of these particles.
    pub open spec fn effect(&self) -> Effect {
        match self {
            Population::Warp(_) => Effect::Warp,
            Population::Twinkle(_) => Effect::Twinkle,
            Population::Spiral(_) => Effect::Spiral,
        }
    }

    /// How many particles there are.
    pub open spec fn len(&self) -> int {
        match self {
            Population::Warp(f) => f.stars@.len() as int,
            Population::Twinkle(f) => f.stars@.len() as int,
            Population::Spiral(f) => f.stars@.len() as int,
        }
    }

    /// The field is well formed.
    pub open spec fn wf(&self) -> bool {
        match self {
            Population::Warp(f) => f.wf(),
            Population::Twinkle(f) => f.wf(),
            Population::Spiral(f) => f.wf(),
        }
    }

    /// The sines that a frame of these particles needs are at hand: one for
    /// each twinkle star, none for the other variants.
    pub open spec fn sines_ok(&self, sines: Seq<i64>) -> bool {
        match self {
            Population::Twinkle(f) => sines.len() == f.stars@.len() && forall|i: int|
                0 <= i < sines.len() ==> sine_ok(#[trigger] sines[i] as int),
            _ => true,
        }
    }

    /// `b` is what one frame makes of `a`, painting `ops`.
    pub open spec fn ticked(a: Population, b: Population, sines: Seq<i64>, ops: Seq<DrawOp>) -> bool {
        match (a, b) {
            (Population::Warp(f), Population::Warp(g)) => warp::ticked(f, g, ops),
            (Population::Twinkle(f), Population::Twinkle(g)) => twinkle::ticked(f, g, sines, ops),
            (Population::Spiral(f), Population::Spiral(g)) => spiral::ticked(f, g, ops),
            _ => false,
        }
    }
}

/// One effect animating on one canvas, from start until stopped.
///
/// The host paints what `frame` returns and asks for the next frame only
/// while `wants_frames` holds; `pending` is its outstanding request, which
/// `stop` hands back for cancelling.
pub struct Session {
    pub population: Population,
    pub state: SessionState,
    pub pending: Option<i64>,
}

impl Session {
    /// Particles in order, with the size of their variant; no request
    /// outstanding once stopped.
    pub open spec fn wf(&self) -> bool {
        &&& self.population.wf()
        &&& self.population.len() == population_size(self.population.effect())
        &&& self.state == SessionState::Stopped ==> self.pending is None
    }

    /// The variant that this session runs.
    pub open spec fn effect_spec(&self) -> Effect {
        self.population.effect()
    }

    /// A running session of `effect` on a canvas of `width` by `height`
    /// pixels, with a freshly seeded population; an error when a side is out
    /// of range.
    pub fn start(effect: Effect, width: i64, height: i64) -> (r: Result<Session, SessionError>)
        ensures
            (width < min_width(effect) || height < min_height(effect)) <==> r == Err::<Session, _>(
                SessionError::CanvasTooSmall,
            ),
            (min_width(effect) <= width && min_height(effect) <= height && (width > MAX_SIDE
                || height > MAX_SIDE)) <==> r == Err::<Session, _>(SessionError::CanvasTooLarge),
            sides_within(width as int, height as int, min_width(effect), min_height(effect))
                <==> r is Ok,
            r matches Ok(s) ==> {
                &&& s.wf()
                &&& s.effect_spec() == effect
                &&& s.state == SessionState::Running
                &&& s.pending is None
                &&& s.population.len() == population_size(effect)
                &&& s.canvas() == (width, height)
            },
    {
        let (min_w, min_h) = effect.min_sides();
        if width < min_w || height < min_h {
            return Err(SessionError::CanvasTooSmall);
        }
        if width > MAX_SIDE || height > MAX_SIDE {
            return Err(SessionError::CanvasTooLarge);
        }
        let population = match effect {
            Effect::Warp => Population::Warp(WarpField::new(width, height)),
            Effect::Twinkle => Population::Twinkle(TwinkleField::new(width, height)),
            Effect::Spiral => Population::Spiral(SpiralField::new(width, height)),
        };
        Ok(Session { population, state: SessionState::Running, pending: None })
    }

    /// The canvas size, in pixels, that the session was started with.
    pub open spec fn canvas(&self) -> (i64, i64) {
        match &self.population {
            Population::Warp(f) => (f.width, f.height),
            Population::Twinkle(f) => (f.width, f.height),
            Population::Spiral(f) => (f.width, f.height),
        }
    }

    /// The variant that this session runs.
    pub fn effect(&self) -> (r: Effect)
        ensures
            r == self.effect_spec(),
    {
        match &self.population {
            Population::Warp(_) => Effect::Warp,
            Population::Twinkle(_) => Effect::Twinkle,
            Population::Spiral(_) => Effect::Spiral,
        }
    }

    /// The number of particles.
    pub fn particle_count(&self) -> (r: usize)
        ensures
            r == self.population.len(),
    {
        match &self.population {
            Population::Warp(f) => f.stars.len(),
            Population::Twinkle(f) => f.stars.len(),
            Population::Spiral(f) => f.stars.len(),
        }
    }

    /// Whether the host should keep asking for frames.
    pub fn wants_frames(&self) -> (r: bool)
        ensures
            r == (self.state == SessionState::Running),
    {
        self.state == SessionState::Running
    }

    /// The phases whose sines (in thousandths, in order) the next frame
    /// takes: those of the twinkle stars, and none for the other variants.
    pub fn wave_phases(&self) -> (r: Vec<i64>)
        ensures
            match &self.population {
                Population::Twinkle(f) => r@.len() == f.stars@.len() && forall|i: int|
                    0 <= i < r@.len() ==> #[trigger] r@[i] == f.stars@[i].phase,
                _ => r@.len() == 0,
            },
    {
        match &self.population {
            Population::Twinkle(f) => f.phases(),
            _ => Vec::new(),
        }
    }

    /// One frame while running: the population moves one step and the
    /// frame's operations come back, and the fired request is no longer
    /// outstanding. A stopped session paints nothing and stays as it is.
    pub fn frame(&mut self, sines: &Vec<i64>) -> (r: Option<Vec<DrawOp>>)
        requires
            old(self).wf(),
            old(self).population.sines_ok(sines@),
        ensures
            final(self).wf(),
            old(self).state == SessionState::Stopped ==> r is None && *final(self) == *old(self),
            old(self).state == SessionState::Running ==> {
                &&& r is Some
                &&& Population::ticked(old(self).population, final(self).population, sines@, r->0@)
                &&& final(self).state == SessionState::Running
                &&& final(self).pending is None
            },
            final(self).effect_spec() == old(self).effect_spec(),
            final(self).population.len() == old(self).population.len(),
    {
        if self.state == SessionState::Stopped {
            return None;
        }
        self.pending = None;
        let ops = match &mut self.population {
            Population::Warp(f) => f.tick(),
            Population::Twinkle(f) => f.tick(sines),
            Population::Spiral(f) => f.tick(),
        };
        Some(ops)
    }

    /// Records the host's request for the next frame. A stopped session
    /// records nothing and answers `false`: the host must cancel it.
    pub fn requested(&mut self, token: i64) -> (r: bool)
        requires
            old(self).wf(),
        ensures
            final(self).wf(),
            r == (old(self).state == SessionState::Running),
            final(self).population == old(self).population,
            final(self).state == old(self).state,
            final(self).pending == if r { Some(token) } else { old(self).pending },
    {
        if self.state == SessionState::Running {
            self.pending = Some(token);
            true
        } else {
            false
        }
    }

    /// Stops the session for good, handing back the outstanding request,
    /// if any, for the host to cancel.
    pub fn stop(&mut self) -> (r: Option<i64>)
        requires
            old(self).wf(),
        ensures
            final(self).wf(),
            r == old(self).pending,
            final(self).state == SessionState::Stopped,
            final(self).pending is None,
            final(self).population == old(self).population,
    {
        self.state = SessionState::Stopped;
        let r = self.pending;
        self.pending = None;
        r
    }
}

/// For the whole life of a session its particle count is the constant of
/// its variant: every frame keeps it.
pub proof fn lemma_population_size(a: Session, b: Session, sines: Seq<i64>, ops: Seq<DrawOp>)
    requires
        a.wf(),
        Population::ticked(a.population, b.population, sines, ops),
    ensures
        b.population.len() == a.population.len(),
        b.population.len() == population_size(a.effect_spec()),
        b.effect_spec() == a.effect_spec(),
{
}

} // verus!
