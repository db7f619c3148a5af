//! Unit tests for the engine core, on the micro-unit scale: the
//! integer 1_000_000 stands for 1.0.
use sonic_ux_core::engine::mode_to_num;
use sonic_ux_core::events::EventGenerator;
use sonic_ux_core::harmony::{parse_chord_degree, ChordDegree, HarmonyManager, Preset};
use sonic_ux_core::smoothing::{DecayingValue, SmoothedParam};
use sonic_ux_core::types::note_name_to_num;
use sonic_ux_core::{Engine, InteractionEvent, InteractionFrame, Mode, MusicEvent};

fn frame_at(t_ms: u64) -> InteractionFrame {
    InteractionFrame {
        t_ms,
        pointer_x: 500_000,
        pointer_y: 500_000,
        pointer_speed: 100_000,
        pointer_down: false,
        scroll_y: 0,
        scroll_v: 0,
        hover_id: 0,
        section_id: 0,
        focus: true,
        tab_focused: true,
        reduced_motion: false,
        viewport_w: 1920,
        viewport_h: 1080,
    }
}

#[test]
fn test_engine_creation() {
    let engine = Engine::new(42, Preset::Ambient);
    assert!(engine.is_enabled());
    assert_eq!(engine.preset(), Preset::Ambient);
}

#[test]
fn test_engine_update() {
    let mut engine = Engine::new(42, Preset::Ambient);
    let frame = frame_at(16);

    let output = engine.update(frame);
    assert!(output.params.brightness >= 0 && output.params.brightness <= 1_000_000);
    assert!(output.params.master >= 0 && output.params.master <= 1_000_000);
}

#[test]
fn test_engine_disabled() {
    let mut engine = Engine::new(42, Preset::Ambient);
    engine.set_enabled(false);

    let frame = InteractionFrame::default();
    let output = engine.update(frame);

    assert!(output.events.is_empty());
}

#[test]
fn test_engine_diagnostics() {
    let mut engine = Engine::new(42, Preset::Ambient);
    engine.set_diagnostics(true);

    let mut frame = frame_at(16);
    frame.pointer_speed = 500_000;

    let output = engine.update(frame);
    assert!(output.diagnostics.is_some());
    let diag = output.diagnostics.unwrap();
    assert!(diag.raw_activity > 0);
}

#[test]
fn test_reduced_motion() {
    let mut engine = Engine::new(42, Preset::Ambient);

    let frame = InteractionFrame {
        t_ms: 16,
        reduced_motion: true,
        pointer_down: false,
        focus: true,
        tab_focused: true,
        ..Default::default()
    };

    let _output = engine.update(frame);
    // Reduced motion should apply the slower smoothing profile.
    assert!(engine.reduced_motion());
}

#[test]
fn test_preset_change() {
    let mut engine = Engine::new(42, Preset::Ambient);
    assert_eq!(engine.preset(), Preset::Ambient);

    engine.set_preset(Preset::Dramatic);
    assert_eq!(engine.preset(), Preset::Dramatic);
}

#[test]
fn test_scale_change() {
    let mut engine = Engine::new(42, Preset::Ambient);

    engine.set_scale(9, Mode::Minor); // A minor
    let state = engine.harmony_state();
    assert_eq!(state.root, 9);
    assert_eq!(state.mode, Mode::Minor);
}

#[test]
fn test_click_generates_pluck() {
    let mut gen = EventGenerator::new(42);
    let harmony = HarmonyManager::new(42, Preset::Ambient);

    let event = InteractionEvent::Click {
        x: 500_000,
        y: 500_000,
        target_id: 1,
        weight: None,
    };

    let events = gen.process_event(&event, &harmony);
    assert!(!events.is_empty());
    assert!(matches!(events[0], MusicEvent::Pluck { .. }));
}

#[test]
fn test_preset_defaults() {
    assert_eq!(Preset::Ambient.default_mode(), Mode::Lydian);
    assert_eq!(Preset::Minimal.default_mode(), Mode::PentatonicMajor);
}

#[test]
fn test_mode_intervals() {
    assert_eq!(Mode::Major.intervals(), vec![0, 2, 4, 5, 7, 9, 11]);
    assert_eq!(Mode::PentatonicMinor.intervals(), vec![0, 3, 5, 7, 10]);
}

#[test]
fn test_smoothed_param_convergence() {
    let mut param = SmoothedParam::new(0);
    param.set_target(1_000_000);

    for _ in 0..100 {
        param.update();
    }

    assert!(param.value() > 950_000);
}

#[test]
fn test_decaying_value_sentinel() {
    let mut decay = DecayingValue::new(1_000_000, 100_000);

    // Valid update
    decay.update(800_000);
    assert!((decay.value() - 800_000i64).abs() < 10_000);

    // Sentinel update - should decay
    decay.update(-1_000_000);
    assert!(decay.value() < 800_000);
}

#[test]
fn test_note_name_to_num() {
    assert_eq!(note_name_to_num("C"), Some(0));
    assert_eq!(note_name_to_num("C#"), Some(1));
    assert_eq!(note_name_to_num("D"), Some(2));
    assert_eq!(note_name_to_num("Db"), Some(1));
    assert_eq!(note_name_to_num("A"), Some(9));
    assert_eq!(note_name_to_num("Bb"), Some(10));
}

#[test]
fn test_parse_chord_degree() {
    assert_eq!(parse_chord_degree("I"), Some(ChordDegree::I));
    assert_eq!(parse_chord_degree("iv"), Some(ChordDegree::IV));
    assert_eq!(parse_chord_degree("VI"), Some(ChordDegree::VI));
}

#[test]
fn test_mode_to_num_tags() {
    assert_eq!(mode_to_num(Mode::Major), 0);
    assert_eq!(mode_to_num(Mode::Minor), 1);
    assert_eq!(mode_to_num(Mode::PentatonicMinor), 7);
}
