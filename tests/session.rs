use starfield::{Effect, Session, SessionError, SessionState};

#[test]
fn session_rejects_bad_canvas() {
    assert_eq!(Session::start(Effect::Spiral, 39, 600).err(), Some(SessionError::CanvasTooSmall));
    assert_eq!(Session::start(Effect::Spiral, 800, 0).err(), Some(SessionError::CanvasTooSmall));
    assert_eq!(Session::start(Effect::Warp, 1, 600).err(), Some(SessionError::CanvasTooSmall));
    assert_eq!(Session::start(Effect::Warp, 800, 0).err(), Some(SessionError::CanvasTooSmall));
    assert_eq!(Session::start(Effect::Twinkle, 0, 600).err(), Some(SessionError::CanvasTooSmall));
    assert_eq!(Session::start(Effect::Twinkle, 100_001, 600).err(), Some(SessionError::CanvasTooLarge));
    assert_eq!(Session::start(Effect::Warp, 800, 100_001).err(), Some(SessionError::CanvasTooLarge));
    assert!(Session::start(Effect::Twinkle, 40, 100_000).is_ok());
    assert!(Session::start(Effect::Spiral, 40, 40).is_ok());
}

#[test]
fn session_small_canvases_per_effect() {
    assert_eq!(Effect::Warp.min_sides(), (2, 1));
    assert_eq!(Effect::Twinkle.min_sides(), (1, 1));
    assert_eq!(Effect::Spiral.min_sides(), (40, 40));
    let mut warp = Session::start(Effect::Warp, 2, 1).ok().unwrap();
    assert_eq!(warp.particle_count(), 250);
    for _ in 0..50 {
        assert!(warp.frame(&Vec::new()).is_some());
    }
    let mut twinkle = Session::start(Effect::Twinkle, 1, 1).ok().unwrap();
    let sines = vec![0; twinkle.particle_count()];
    assert!(twinkle.frame(&sines).is_some());
    assert_eq!(twinkle.particle_count(), 350);
}

#[test]
fn session_population_sizes() {
    for (effect, n) in [(Effect::Warp, 250), (Effect::Twinkle, 350), (Effect::Spiral, 500)] {
        let mut s = Session::start(effect, 800, 600).ok().unwrap();
        assert_eq!(s.effect(), effect);
        assert_eq!(s.particle_count(), n);
        for _ in 0..20 {
            let phases = s.wave_phases();
            let sines: Vec<i64> = phases.iter().map(|p| ((*p as f64) / 1e6).sin() * 1000.0).map(|v| v.round() as i64).collect();
            assert!(s.frame(&sines).is_some());
        }
        assert_eq!(s.particle_count(), n);
        assert_eq!(s.effect(), effect);
    }
}

#[test]
fn session_stop_cancels_pending_request() {
    let mut s = Session::start(Effect::Spiral, 800, 600).ok().unwrap();
    assert!(s.wants_frames());
    assert!(s.requested(7));
    assert_eq!(s.pending, Some(7));
    assert!(s.frame(&Vec::new()).is_some());
    assert_eq!(s.pending, None);
    assert!(s.requested(8));
    assert_eq!(s.stop(), Some(8));
    assert_eq!(s.state, SessionState::Stopped);
    assert!(!s.wants_frames());
    assert!(!s.requested(9));
    assert_eq!(s.pending, None);
    assert!(s.frame(&Vec::new()).is_none());
    assert_eq!(s.stop(), None);
}

#[test]
fn session_wave_phases_only_for_twinkle() {
    let w = Session::start(Effect::Warp, 800, 600).ok().unwrap();
    assert!(w.wave_phases().is_empty());
    let t = Session::start(Effect::Twinkle, 800, 600).ok().unwrap();
    assert_eq!(t.wave_phases().len(), 350);
    assert!(t.wave_phases().iter().all(|p| (0..6_283_186).contains(p)));
}
