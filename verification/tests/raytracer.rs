use pbrtrs_core::bxdf::BxDFKind;
use pbrtrs_core::raytracer::{PathAction, PathEvent, PathPhase, PathState, ROULETTE_AFTER};
use pbrtrs_core::types::R8G8B8Color;

fn diffuse(black: bool, zero_pdf: bool) -> PathEvent {
    PathEvent::Sampled { kind: BxDFKind::from_bits(5), black, zero_pdf }
}

fn mirror() -> PathEvent {
    PathEvent::Sampled { kind: BxDFKind::from_bits(17), black: false, zero_pdf: false }
}

#[test]
fn no_bounce_allowed() {
    let state = PathState::new(0);
    assert!(state.is_terminated());
    assert!(!state.accepts(&PathEvent::Miss));
}

#[test]
fn primary_ray_sees_the_background() {
    let mut state = PathState::new(8);
    assert_eq!(state.phase, PathPhase::Tracing);
    assert_eq!(state.step(PathEvent::Miss), PathAction::AddBackground);
    assert!(state.is_terminated());
}

#[test]
fn diffuse_bounce_hides_the_background() {
    let mut state = PathState::new(8);
    assert_eq!(state.step(PathEvent::Hit { non_specular_terms: 1 }), PathAction::AddDirectLighting);
    assert_eq!(state.phase, PathPhase::Scattering);
    assert_eq!(state.step(diffuse(false, false)), PathAction::Attenuate);
    assert_eq!(state.bounce, 1);
    assert!(!state.specular_bounce);
    assert_eq!(state.step(PathEvent::Miss), PathAction::Nothing);
    assert!(state.is_terminated());
}

#[test]
fn specular_bounce_shows_the_background() {
    let mut state = PathState::new(8);
    assert_eq!(state.step(PathEvent::Hit { non_specular_terms: 0 }), PathAction::Nothing);
    assert_eq!(state.step(mirror()), PathAction::Attenuate);
    assert!(state.specular_bounce);
    assert_eq!(state.step(PathEvent::Miss), PathAction::AddBackground);
    assert!(state.is_terminated());
}

#[test]
fn emitter_ends_the_path() {
    let mut state = PathState::new(8);
    assert_eq!(state.step(PathEvent::HitLight), PathAction::AddEmitted);
    assert!(state.is_terminated());
}

#[test]
fn ignored_ray_ends_the_path() {
    let mut state = PathState::new(8);
    assert_eq!(state.step(PathEvent::Ignored), PathAction::Nothing);
    assert!(state.is_terminated());
}

#[test]
fn absorption_ends_the_path() {
    let mut state = PathState::new(8);
    state.step(PathEvent::Hit { non_specular_terms: 1 });
    assert_eq!(state.step(diffuse(true, false)), PathAction::Nothing);
    assert!(state.is_terminated());
    let mut state = PathState::new(8);
    state.step(PathEvent::Hit { non_specular_terms: 1 });
    assert_eq!(state.step(diffuse(false, true)), PathAction::Nothing);
    assert!(state.is_terminated());
}

#[test]
fn roulette_starts_past_the_third_bounce() {
    assert_eq!(ROULETTE_AFTER, 3);
    let mut state = PathState::new(100);
    for bounce in 0..4 {
        assert_eq!(state.bounce, bounce);
        state.step(PathEvent::Hit { non_specular_terms: 1 });
        state.step(diffuse(false, false));
        assert_eq!(state.phase, PathPhase::Tracing);
    }
    state.step(PathEvent::Hit { non_specular_terms: 1 });
    assert_eq!(state.step(diffuse(false, false)), PathAction::Attenuate);
    assert_eq!(state.phase, PathPhase::Roulette);
    assert_eq!(state.bounce, 4);
    assert!(!state.accepts(&PathEvent::Miss));
    assert_eq!(state.step(PathEvent::Roulette { survived: true }), PathAction::Nothing);
    assert_eq!(state.phase, PathPhase::Tracing);
    assert_eq!(state.bounce, 5);
    state.step(PathEvent::Hit { non_specular_terms: 1 });
    state.step(diffuse(false, false));
    assert_eq!(state.step(PathEvent::Roulette { survived: false }), PathAction::Nothing);
    assert!(state.is_terminated());
}

#[test]
fn bounce_limit_ends_the_path() {
    let mut state = PathState::new(2);
    let mut events = 0;
    while !state.is_terminated() {
        let event = match state.phase {
            PathPhase::Tracing => PathEvent::Hit { non_specular_terms: 1 },
            PathPhase::Scattering => diffuse(false, false),
            _ => PathEvent::Roulette { survived: true },
        };
        assert!(state.accepts(&event));
        state.step(event);
        events += 1;
    }
    assert_eq!(events, 4);
    assert_eq!(state.bounce, 2);
}

#[test]
fn long_paths_end_within_three_events_a_bounce() {
    let mut state = PathState::new(50);
    let mut events = 0;
    while !state.is_terminated() {
        let event = match state.phase {
            PathPhase::Tracing => PathEvent::Hit { non_specular_terms: 0 },
            PathPhase::Scattering => mirror(),
            _ => PathEvent::Roulette { survived: true },
        };
        state.step(event);
        events += 1;
    }
    assert_eq!(events, 2 * 4 + 3 * 46);
    assert!(events <= 150);
}

#[test]
fn colour_channels() {
    let colour = R8G8B8Color([255, 128, 0]);
    assert_eq!(colour.index(0), 255);
    assert_eq!(colour.index(1), 128);
    assert_eq!(colour.index(2), 0);
    assert_eq!(colour.into_array(), [255, 128, 0]);
    assert_eq!(R8G8B8Color::default(), R8G8B8Color([0, 0, 0]));
}
