//! Behavioral tests for the engine's stated properties: smoothing
//! convergence, sentinel decay, determinism, range invariants, the
//! disabled gate, and the exact scenario formulas. Values are micro-units:
//! the integer 1_000_000 stands for 1.0.
use sonic_ux_core::events::EventGenerator;
use sonic_ux_core::harmony::{ChordDegree, HarmonyManager, Preset};
use sonic_ux_core::smoothing::{DecayingValue, ParamSmoother, SmoothedParam};
use sonic_ux_core::types::note_name_to_num;
use sonic_ux_core::{Engine, InteractionEvent, InteractionFrame, Mode, MusicEvent, MusicParams};

const UNIT: i64 = 1_000_000;

fn base_frame(t_ms: u64) -> InteractionFrame {
    InteractionFrame {
        t_ms,
        viewport_w: 1280,
        viewport_h: 720,
        pointer_x: 500_000,
        pointer_y: 500_000,
        pointer_speed: 0,
        pointer_down: false,
        scroll_y: 0,
        scroll_v: 0,
        hover_id: 0,
        section_id: 0,
        focus: true,
        tab_focused: true,
        reduced_motion: false,
    }
}

fn assert_params_in_range(p: &MusicParams) {
    for v in [
        p.master,
        p.warmth,
        p.brightness,
        p.width,
        p.motion,
        p.reverb,
        p.density,
        p.tension,
    ] {
        assert!((0..=UNIT).contains(&v), "parameter out of range: {v}");
    }
}

fn assert_event_in_range(e: &MusicEvent) {
    let s = e.salience();
    assert!((0..=UNIT).contains(&s), "salience out of range: {s}");
}

// Convergence: a fixed target is approached monotonically from one side,
// with no overshoot, until the parameter settles.
#[test]
fn convergence_is_monotone_without_overshoot() {
    let mut up = SmoothedParam::new(0);
    up.set_target(900_000);
    let mut prev = up.value();
    for _ in 0..2000 {
        up.update();
        let v = up.value();
        assert!(v >= prev, "rising value moved backwards");
        assert!(v <= 900_000, "rising value overshot its target");
        prev = v;
    }
    assert!(up.is_settled());

    let mut down = SmoothedParam::new(1_000_000);
    down.set_target(100_000);
    let mut prev = down.value();
    for _ in 0..2000 {
        down.update();
        let v = down.value();
        assert!(v <= prev, "falling value moved backwards");
        assert!(v >= 100_000, "falling value overshot its target");
        prev = v;
    }
    assert!(down.is_settled());
}

// Sentinel decay: each sentinel update strictly shrinks a positive value
// and leaves last_valid untouched.
#[test]
fn sentinel_decay_is_strict_and_keeps_last_valid() {
    let mut d = DecayingValue::new(900_000, 20_000);
    d.update(750_000);
    assert_eq!(d.last_valid(), 750_000);
    let mut prev = d.value();
    while prev >= 1 {
        d.update(-1_000_000);
        assert!(d.value() < prev, "sentinel decay did not shrink the value");
        assert_eq!(d.last_valid(), 750_000);
        prev = d.value();
    }
    assert_eq!(d.value(), 0);
    d.update(-1_000_000);
    assert_eq!(d.value(), 0);
}

// Determinism: two engines with the same seed and preset, fed an identical
// ordered sequence of frames and events, produce identical outputs.
#[test]
fn identical_seeds_replay_identically() {
    let mut a = Engine::new(7, Preset::Dramatic);
    let mut b = Engine::new(7, Preset::Dramatic);
    a.set_diagnostics(true);
    b.set_diagnostics(true);

    for i in 0..600u64 {
        let mut frame = base_frame(16 * (i + 1));
        frame.pointer_x = ((i * 37) % 1000) as i64 * 1000;
        frame.pointer_y = ((i * 53) % 1000) as i64 * 1000;
        frame.pointer_speed = ((i * 11) % 1000) as i64 * 1000;
        frame.scroll_v = (((i * 29) % 2000) as i64 - 1000) * 1000;
        frame.section_id = (i / 97) as u32;
        frame.hover_id = (i % 5) as u32;
        frame.pointer_down = i % 7 == 0;
        let out_a = a.update(frame);
        let out_b = b.update(frame);
        assert_eq!(out_a, out_b, "outputs diverged at frame {i}");

        if i % 13 == 0 {
            let evt = InteractionEvent::Click {
                x: ((i * 17) % 1000) as i64 * 1000,
                y: ((i * 19) % 1000) as i64 * 1000,
                target_id: i as u32,
                weight: None,
            };
            assert_eq!(a.event(evt.clone()), b.event(evt));
        }
    }
}

// The seeded generator really draws: successive forced modulations pick
// varying candidates, and the same seed replays the same picks.
#[test]
fn seeded_generator_replays_and_advances() {
    let mut a = HarmonyManager::new(42, Preset::Ambient);
    let mut b = HarmonyManager::new(42, Preset::Ambient);
    a.set_modulation_rate(UNIT);
    b.set_modulation_rate(UNIT);

    let mut offsets = std::collections::BTreeSet::new();
    for _ in 0..20 {
        let before = a.state().root;
        let (root_a, _) = a.update(10_000, 0).expect("rate one must modulate");
        let (root_b, _) = b.update(10_000, 0).expect("rate one must modulate");
        assert_eq!(root_a, root_b, "same seed must replay the same picks");
        let offset = (root_a + 12 - before) % 12;
        assert!([7, 5, 9, 3].contains(&offset));
        offsets.insert(offset);
    }
    assert!(offsets.len() >= 2, "a stuck generator would repeat one pick");
}

// Range invariants: across a varied run, every parameter stays in [0, 1],
// the root stays a pitch class, and every event salience stays in [0, 1].
#[test]
fn reachable_states_stay_in_range() {
    let mut engine = Engine::new(1234, Preset::Playful);
    engine.set_modulation_rate(UNIT);
    for i in 0..2000u64 {
        let mut frame = base_frame(16 * (i + 1));
        frame.pointer_x = if i % 11 == 0 { -1_000_000 } else { ((i * 41) % 1000) as i64 * 1000 };
        frame.pointer_y = if i % 13 == 0 { -1_000_000 } else { ((i * 43) % 1000) as i64 * 1000 };
        frame.pointer_speed = ((i * 7) % 1000) as i64 * 1000;
        frame.scroll_v = (((i * 31) % 2000) as i64 - 1000) * 1000;
        frame.section_id = (i / 50) as u32;
        frame.hover_id = (i % 3) as u32;
        frame.pointer_down = i % 2 == 0;
        frame.reduced_motion = (i / 100) % 2 == 1;
        frame.focus = i % 17 != 0;
        frame.tab_focused = i % 23 != 0;

        let out = engine.update(frame);
        assert_params_in_range(&out.params);
        assert!(out.harmony.root < 12);
        assert!((0..=UNIT).contains(&out.harmony.tension));
        for e in &out.events {
            assert_event_in_range(e);
        }

        if i % 9 == 0 {
            let evts = engine.event(InteractionEvent::Click {
                x: ((i * 3) % 1000) as i64 * 1000,
                y: ((i * 5) % 1000) as i64 * 1000,
                target_id: 1,
                weight: Some(2_000_000), // out-of-range weight is clamped
            });
            for e in &evts {
                assert_event_in_range(e);
            }
        }
    }
}

// Disabled gate: a disabled engine returns a default frame with no events
// and mutates nothing, and a re-enabled engine replays exactly like one
// that never saw the disabled calls.
#[test]
fn disabled_engine_is_inert() {
    let mut silenced = Engine::new(99, Preset::Minimal);
    let mut witness = Engine::new(99, Preset::Minimal);

    silenced.set_enabled(false);
    let out = silenced.update(base_frame(16));
    assert!(out.events.is_empty());
    assert_eq!(out.params, MusicParams::default());
    assert!(out.hold.is_none());
    assert!(out.diagnostics.is_none());
    assert!(silenced
        .event(InteractionEvent::Nav { section_id: 3, weight: None })
        .is_empty());

    silenced.set_enabled(true);
    for i in 0..50u64 {
        let mut frame = base_frame(16 * (i + 1));
        frame.pointer_speed = 400_000;
        frame.section_id = (i / 10) as u32;
        assert_eq!(silenced.update(frame), witness.update(frame));
    }
}

// Scenario: the first tick of a fresh ambient engine with the pointer at
// the center and a little speed.
#[test]
fn first_tick_centered_pointer() {
    let mut engine = Engine::new(42, Preset::Ambient);
    let mut frame = base_frame(16);
    frame.pointer_speed = 100_000;

    let out = engine.update(frame);
    assert_eq!(out.params.brightness, 500_000);
    assert_eq!(out.params.width, 0);
    assert!((550_000..=600_000).contains(&out.params.master));
}

// Scenario: a direct scale change shows up immediately, with no smoothing.
#[test]
fn scale_change_is_immediate() {
    let mut engine = Engine::new(42, Preset::Ambient);
    engine.set_scale(9, Mode::Minor);
    let state = engine.harmony_state();
    assert_eq!(state.root, 9);
    assert_eq!(state.mode, Mode::Minor);

    engine.set_scale(14, Mode::Dorian);
    assert_eq!(engine.harmony_state().root, 2, "the root is taken mod 12");
}

// Scenario: a centered click yields exactly one pluck with velocity and
// salience of 0.65 on degree 2.
#[test]
fn centered_click_pluck_values() {
    let mut gen = EventGenerator::new(42);
    let harmony = HarmonyManager::new(42, Preset::Ambient);

    let events = gen.process_event(
        &InteractionEvent::Click { x: 500_000, y: 500_000, target_id: 1, weight: None },
        &harmony,
    );
    assert_eq!(events.len(), 1);
    match &events[0] {
        MusicEvent::Pluck { note, velocity, salience } => {
            assert_eq!(*velocity, 650_000);
            assert_eq!(*salience, 650_000);
            // Degree 2 in octave 4 of C Lydian: interval 4 over root 0.
            assert_eq!(*note, harmony.scale_note(2, 4));
            assert_eq!(*note, 52);
        }
        other => panic!("expected a pluck, got {other:?}"),
    }
}

// The click octave offset is the vertical position doubled and rounded to
// nearest, capped at two.
#[test]
fn click_octave_rounds_vertical_position() {
    let harmony = HarmonyManager::new(42, Preset::Ambient);
    let mut octave_note = |y: i64| {
        let mut gen = EventGenerator::new(42);
        let events = gen.process_event(
            &InteractionEvent::Click { x: 0, y, target_id: 1, weight: None },
            &harmony,
        );
        match &events[0] {
            MusicEvent::Pluck { note, .. } => *note,
            other => panic!("expected a pluck, got {other:?}"),
        }
    };
    assert_eq!(octave_note(100_000), 36, "0.2 rounds down to octave 3");
    assert_eq!(octave_note(300_000), 48, "0.6 rounds up to octave 4");
    assert_eq!(octave_note(800_000), 60, "1.6 rounds up to octave 5");
}

// Scale and chord formulas on concrete values.
#[test]
fn scale_and_chord_note_formulas() {
    let mut harmony = HarmonyManager::new(5, Preset::Ambient);
    harmony.set_scale(0, Mode::Major);
    assert_eq!(harmony.scale_note(0, 4), 48);
    assert_eq!(harmony.scale_note(2, 4), 52);
    assert_eq!(harmony.scale_note(7, 4), 48, "degree indexes wrap around the table");
    assert_eq!(harmony.chord_notes(ChordDegree::I, 3), vec![36, 40, 43]);
    assert_eq!(harmony.chord_notes(ChordDegree::V, 3), vec![43, 47, 38]);

    harmony.set_scale(9, Mode::Minor);
    assert_eq!(harmony.scale_note(0, 4), 57);
    assert_eq!(harmony.chord_notes(ChordDegree::I, 3), vec![45, 48, 52]);
}

// A navigation event emits a pad chord of the section's degree.
#[test]
fn nav_event_emits_pad_chord() {
    let mut engine = Engine::new(11, Preset::Ambient);
    let events = engine.event(InteractionEvent::Nav { section_id: 1, weight: None });
    assert_eq!(events.len(), 1);
    match &events[0] {
        MusicEvent::PadChord { notes, velocity, salience } => {
            assert_eq!(*velocity, 400_000);
            assert_eq!(*salience, 800_000);
            assert_eq!(notes.len(), 3);
        }
        other => panic!("expected a pad chord, got {other:?}"),
    }
}

// A section change seen in a frame emits a stronger pad chord.
#[test]
fn section_change_emits_pad_chord() {
    let mut engine = Engine::new(11, Preset::Ambient);
    let mut frame = base_frame(16);
    frame.section_id = 2;
    let out = engine.update(frame);
    assert!(out
        .events
        .iter()
        .any(|e| matches!(e, MusicEvent::PadChord { velocity: 500_000, salience: 900_000, .. })));
}

// Losing tab focus while the window has focus forces a mute event.
#[test]
fn tab_unfocus_forces_mute() {
    let mut engine = Engine::new(3, Preset::Ambient);
    let mut frame = base_frame(16);
    frame.tab_focused = false;
    let out = engine.update(frame);
    match out.events.last() {
        Some(MusicEvent::Mute { on, salience }) => {
            assert!(*on);
            assert_eq!(*salience, UNIT);
        }
        other => panic!("expected a forced mute, got {other:?}"),
    }
}

// Holding the pointer down picks a scale degree from the horizontal
// position and a velocity from the vertical position.
#[test]
fn pointer_hold_state() {
    let mut engine = Engine::new(8, Preset::Ambient);
    let mut frame = base_frame(16);
    frame.pointer_down = true;
    frame.pointer_x = 500_000;
    frame.pointer_y = 1_000_000;

    let out = engine.update(frame);
    let hold = out.hold.expect("pointer down should hold a note");
    // Degree 3 of C Lydian (7 degrees): interval 6 in octave 4.
    assert_eq!(hold.note, 54);
    assert_eq!(hold.velocity, 1_000_000);

    let mut frame2 = base_frame(32);
    frame2.pointer_down = false;
    assert!(engine.update(frame2).hold.is_none());
}

// Raw activity blends pointer speed and scroll velocity and shows up in
// diagnostics.
#[test]
fn activity_formula_in_diagnostics() {
    let mut engine = Engine::new(21, Preset::Ambient);
    engine.set_diagnostics(true);
    let mut frame = base_frame(16);
    frame.pointer_speed = 500_000;
    frame.scroll_v = -500_000;

    let out = engine.update(frame);
    let diag = out.diagnostics.unwrap();
    // 0.5 * 0.6 + 0.5 * 0.4 with focus held.
    assert_eq!(diag.raw_activity, 500_000);

    let mut unfocused = Engine::new(21, Preset::Ambient);
    unfocused.set_diagnostics(true);
    let mut frame2 = frame;
    frame2.focus = false;
    let out2 = unfocused.update(frame2);
    assert_eq!(out2.diagnostics.unwrap().raw_activity, 150_000);
}

// A forced modulation rate of one modulates as soon as the check interval
// passes, holding the mode and moving the root to a musical candidate.
#[test]
fn forced_modulation_picks_candidate_root() {
    let mut harmony = HarmonyManager::new(77, Preset::Ambient);
    harmony.set_modulation_rate(UNIT);
    let before = harmony.state();
    // The check interval for a rate of one is 9900 milliseconds.
    let result = harmony.update(9_800, 0);
    assert!(result.is_none(), "timer below the interval must not modulate");
    let result = harmony.update(200, 0);
    let (new_root, mode) = result.expect("timer past the interval with rate one modulates");
    assert_eq!(mode, before.mode);
    assert!([7u8, 5, 9, 3].contains(&new_root));
    assert_eq!(harmony.state().root, new_root);
}

// Reduced motion thins the event density and widens the pacing interval;
// leaving it restores the interval only.
#[test]
fn reduced_motion_reconfigures_pacing() {
    let mut gen = EventGenerator::new(1);
    assert_eq!(gen.event_density, 600_000);
    gen.apply_reduced_motion(true);
    assert_eq!(gen.event_density, 180_000);
    assert_eq!(gen.min_event_interval, 300);
    gen.apply_reduced_motion(false);
    assert_eq!(gen.event_density, 180_000);
    assert_eq!(gen.min_event_interval, 100);
}

// The parameter smoother keeps one shared profile across all eight
// parameters.
#[test]
fn smoother_profile_is_uniform() {
    let mut s = ParamSmoother::new();
    assert_eq!(s.attack(), 50_000);
    assert_eq!(s.release(), 20_000);
    s.apply_reduced_motion();
    assert_eq!(s.attack(), 20_000);
    assert_eq!(s.release(), 10_000);
    s.apply_normal_motion();
    assert_eq!(s.attack(), 50_000);
    assert_eq!(s.release(), 20_000);
}

// Configuration by name: every recognized name parses, case-insensitively,
// and unknown names are rejected.
#[test]
fn configuration_names_parse_or_reject() {
    assert_eq!(Preset::from_name("AMBIENT"), Some(Preset::Ambient));
    assert_eq!(Preset::from_name("playful"), Some(Preset::Playful));
    assert_eq!(Preset::from_name("loud"), None);

    assert_eq!(Mode::from_name("Lydian"), Some(Mode::Lydian));
    assert_eq!(Mode::from_name("pentatonic major"), Some(Mode::PentatonicMajor));
    assert_eq!(Mode::from_name("pentatonic_minor"), Some(Mode::PentatonicMinor));
    assert_eq!(Mode::from_name("ionian"), None);

    assert_eq!(note_name_to_num("c"), Some(0));
    assert_eq!(note_name_to_num("B#"), Some(0));
    assert_eq!(note_name_to_num("Cb"), Some(11));
    assert_eq!(note_name_to_num("\u{266d}"), None);
    assert_eq!(note_name_to_num("G\u{266f}"), Some(8));
    assert_eq!(note_name_to_num("A\u{266d}"), Some(8));
    assert_eq!(note_name_to_num(""), None);
    assert_eq!(note_name_to_num("H"), None);
}

// A click raises the click energy by max-hold, which lifts the tension
// target on following frames.
#[test]
fn click_energy_lifts_tension() {
    let mut clicked = Engine::new(5, Preset::Ambient);
    let mut idle = Engine::new(5, Preset::Ambient);

    let _ = clicked.event(InteractionEvent::Click {
        x: 500_000,
        y: 1_000_000,
        target_id: 1,
        weight: Some(1_000_000),
    });
    let _ = idle.event(InteractionEvent::HoverEnd { hover_id: 1, weight: None });

    let mut t_clicked = 0;
    let mut t_idle = 0;
    for i in 0..20u64 {
        let frame = base_frame(16 * (i + 1));
        t_clicked = clicked.update(frame).params.tension;
        t_idle = idle.update(frame).params.tension;
    }
    assert!(
        t_clicked > t_idle,
        "click energy should raise tension: {t_clicked} vs {t_idle}"
    );
}
