//! Main engine that orchestrates all components.
//!
//! `Engine::update` turns one telemetry frame into smoothed parameter
//! levels and the frame's musical events; `Engine::event` handles discrete
//! interactions. Each step is a pure function of the engine's model and
//! its input, which is what the determinism laws at the bottom of this
//! file state.
use vstd::prelude::*;

verus! {

use vstd::arithmetic::div_mod::lemma_multiply_divide_lt;
use crate::fixed::{UNIT, spec_clamp, spec_abs, spec_mul_unit, spec_sat_sub_u64, clamp_i64,
    mul_unit, abs_i64, lemma_mul_unit_bounds};
use crate::smoothing::{DecayingValue, ParamSmoother, SmoothedParam, spec_decay_update,
    spec_initial_smoother};
use crate::harmony::{ChordDegree, HarmonyManager, HarmonyModel, Preset, spec_default_mode,
    spec_event_density, spec_scale_note};
use crate::events::{EventGenerator, PacerModel, spec_pacer_step};
use crate::types::{DiagnosticOutput, EventModel, HarmonyState, HoldState, InteractionEvent,
    InteractionFrame, Mode, MusicEvent, MusicParams, OutModel, OutputFrame, events_wf,
    spec_default_out, spec_intervals, spec_weight, lemma_intervals_shape};

/// The fraction of click energy that survives one millisecond, in
/// micro-units: the engine's per-millisecond step for an exponential decay
/// with a time constant of about 450 ms.
pub const CLICK_DECAY_PER_MS: i64 = 997_780;

/// Click energy after `n` milliseconds of decay.
pub open spec fn spec_decay_n(e: int, n: nat) -> int
    decreases n,
{
    if n == 0 {
        e
    } else {
        spec_decay_n(spec_mul_unit(e, CLICK_DECAY_PER_MS as int), (n - 1) as nat)
    }
}

/// Decayed energy stays on the unit scale and never grows.
proof fn lemma_decay_n_bounds(e: int, n: nat)
    requires
        0 <= e <= UNIT,
    ensures
        0 <= spec_decay_n(e, n) <= e,
    decreases n,
{
    if n > 0 {
        lemma_mul_unit_bounds(e, CLICK_DECAY_PER_MS as int);
        lemma_decay_n_bounds(spec_mul_unit(e, CLICK_DECAY_PER_MS as int), (n - 1) as nat);
    }
}

/// One more decay step applies at the tail of the chain.
proof fn lemma_decay_n_snoc(e: int, n: nat)
    requires
        0 <= e <= UNIT,
    ensures
        spec_decay_n(e, n + 1) == spec_mul_unit(spec_decay_n(e, n), CLICK_DECAY_PER_MS as int),
    decreases n,
{
    let e1 = spec_mul_unit(e, CLICK_DECAY_PER_MS as int);
    if n == 0 {
        assert(spec_decay_n(e, 1) == spec_decay_n(e1, 0)) by {
            reveal_with_fuel(spec_decay_n, 2);
        }
    } else {
        lemma_mul_unit_bounds(e, CLICK_DECAY_PER_MS as int);
        lemma_decay_n_snoc(e1, (n - 1) as nat);
        assert(spec_decay_n(e, n + 1) == spec_decay_n(e1, n));
        assert(spec_decay_n(e, n) == spec_decay_n(e1, (n - 1) as nat));
    }
}

/// After at least as many milliseconds as the energy has micro-units, the
/// energy has decayed all the way to zero.
proof fn lemma_decay_n_zero(e: int, n: nat)
    requires
        0 <= e <= UNIT,
        n >= e,
    ensures
        spec_decay_n(e, n) == 0,
    decreases n,
{
    if e == 0 {
        if n > 0 {
            lemma_decay_n_zero(0, (n - 1) as nat);
        }
    } else {
        let e1 = spec_mul_unit(e, CLICK_DECAY_PER_MS as int);
        lemma_mul_unit_bounds(e, CLICK_DECAY_PER_MS as int);
        assert(e * CLICK_DECAY_PER_MS < UNIT * e) by (nonlinear_arith)
            requires
                1 <= e,
        ;
        lemma_multiply_divide_lt(e * (CLICK_DECAY_PER_MS as int), UNIT as int, e);
        lemma_decay_n_zero(e1, (n - 1) as nat);
    }
}

/// The numeric tag of a mode, as reported in diagnostics.
pub open spec fn spec_mode_num(m: Mode) -> u8 {
    match m {
        Mode::Major => 0u8,
        Mode::Minor => 1u8,
        Mode::Dorian => 2u8,
        Mode::Mixolydian => 3u8,
        Mode::Lydian => 4u8,
        Mode::Phrygian => 5u8,
        Mode::PentatonicMajor => 6u8,
        Mode::PentatonicMinor => 7u8,
    }
}

/// Convert a mode to its numeric diagnostic tag.
pub fn mode_to_num(mode: Mode) -> (n: u8)
    ensures
        n == spec_mode_num(mode),
{
    match mode {
        Mode::Major => 0,
        Mode::Minor => 1,
        Mode::Dorian => 2,
        Mode::Mixolydian => 3,
        Mode::Lydian => 4,
        Mode::Phrygian => 5,
        Mode::PentatonicMajor => 6,
        Mode::PentatonicMinor => 7,
    }
}

/// The frame delta in milliseconds: sixteen on the first call, else the
/// timestamp difference saturated at zero on clock regression.
pub open spec fn spec_dt(last_t_ms: u64, t_ms: u64) -> u64 {
    if last_t_ms == 0 {
        16u64
    } else {
        spec_sat_sub_u64(t_ms, last_t_ms)
    }
}

/// The raw activity of a frame: a weighted blend of pointer speed and
/// scroll velocity, reduced to three tenths without focus, clamped to one.
pub open spec fn spec_activity(f: InteractionFrame) -> int {
    let raw = spec_mul_unit(f.pointer_speed as int, 600_000) + spec_mul_unit(
        spec_abs(f.scroll_v as int),
        400_000,
    );
    let mult: int = if f.focus {
        UNIT as int
    } else {
        300_000
    };
    spec_clamp(spec_mul_unit(raw, mult), 0, UNIT as int)
}

/// The eight parameter targets of a frame. Pointer terms use the frame's
/// position when present and the decayed fallback otherwise.
pub open spec fn spec_param_targets(
    f: InteractionFrame,
    px: i64,
    py: i64,
    activity: i64,
    h_tension: i64,
    click_energy: i64,
) -> MusicParams {
    let eff_x: int = if f.spec_has_pointer() {
        f.pointer_x as int
    } else {
        px as int
    };
    let eff_y: int = if f.spec_has_pointer() {
        f.pointer_y as int
    } else {
        py as int
    };
    let scroll_energy = spec_clamp(spec_abs(f.scroll_v as int), 0, UNIT as int);
    let spike = spec_clamp(
        if scroll_energy <= 400_000 {
            0int
        } else {
            (scroll_energy - 400_000) * (UNIT as int) / 600_000
        },
        0,
        UNIT as int,
    );
    MusicParams {
        master: (550_000 + spec_mul_unit(activity as int, 450_000)) as i64,
        warmth: spec_clamp(
            300_000 + spec_mul_unit(f.pointer_speed as int, 500_000) + if f.hover_id > 0 {
                200_000int
            } else {
                0int
            },
            0,
            UNIT as int,
        ) as i64,
        brightness: spec_clamp(eff_y, 0, UNIT as int) as i64,
        width: (spec_abs(eff_x - 500_000) * 2) as i64,
        motion: spec_mul_unit(activity as int, 600_000) as i64,
        reverb: spec_clamp(
            200_000 + spec_mul_unit(scroll_energy, 600_000) + if f.reduced_motion {
                200_000int
            } else {
                0int
            },
            0,
            UNIT as int,
        ) as i64,
        density: activity,
        tension: spec_clamp(
            spec_mul_unit(h_tension as int, 350_000) + spec_mul_unit(spike, 350_000)
                + spec_mul_unit(click_energy as int, 400_000),
            0,
            UNIT as int,
        ) as i64,
    }
}

/// The smoother with all eight targets replaced.
pub open spec fn spec_with_targets(s: ParamSmoother, t: MusicParams) -> ParamSmoother {
    ParamSmoother {
        master: SmoothedParam { target: t.master, ..s.master },
        warmth: SmoothedParam { target: t.warmth, ..s.warmth },
        brightness: SmoothedParam { target: t.brightness, ..s.brightness },
        width: SmoothedParam { target: t.width, ..s.width },
        motion: SmoothedParam { target: t.motion, ..s.motion },
        reverb: SmoothedParam { target: t.reverb, ..s.reverb },
        density: SmoothedParam { target: t.density, ..s.density },
        tension: SmoothedParam { target: t.tension, ..s.tension },
    }
}

/// The hold state of a frame: while the pointer is down, the horizontal
/// position picks a scale degree and the vertical position the velocity.
pub open spec fn spec_hold(f: InteractionFrame, px: i64, py: i64, h: HarmonyState) -> Option<
    HoldState,
> {
    if !f.pointer_down {
        None
    } else {
        let x: int = if f.spec_has_pointer() {
            f.pointer_x as int
        } else {
            px as int
        };
        let y: int = if f.spec_has_pointer() {
            f.pointer_y as int
        } else {
            py as int
        };
        let count = spec_intervals(h.mode).len() as int;
        let degree = spec_clamp(x, 0, 999_900) * count / (UNIT as int);
        let note = spec_scale_note(h, degree, 4) as u8;
        let velocity = spec_clamp(
            350_000 + spec_mul_unit(spec_clamp(y, 0, UNIT as int), 650_000),
            200_000,
            UNIT as int,
        ) as i64;
        Some(HoldState { note, velocity })
    }
}

/// Spec-level model of the whole engine, with both generator states made
/// explicit.
pub struct EngineModel {
    pub smoother: ParamSmoother,
    pub harmony: HarmonyModel,
    pub pacer: PacerModel,
    pub pointer_x: DecayingValue,
    pub pointer_y: DecayingValue,
    pub last_t_ms: u64,
    pub reduced_motion: bool,
    pub enabled: bool,
    pub diagnostics_enabled: bool,
    pub current_chord: u8,
    pub raw_activity: i64,
    pub click_energy: i64,
    pub hold_note: Option<u8>,
}

/// The model a freshly built engine has.
pub open spec fn spec_new_engine(seed: u64, preset: Preset) -> EngineModel {
    EngineModel {
        smoother: spec_initial_smoother(),
        harmony: HarmonyModel {
            state: HarmonyState { root: 0u8, mode: spec_default_mode(preset), tension: 300_000i64 },
            preset,
            rate_override: None,
            pool: None,
            timer: 0u64,
            rng: seed,
        },
        pacer: PacerModel {
            rng: seed,
            timer: 0u64,
            min_interval: 100u64,
            density: spec_event_density(preset),
            last_section: 0u32,
            last_hover: 0u32,
        },
        pointer_x: DecayingValue { current: 500_000i64, decay_rate: 20_000i64, last_valid: 500_000i64 },
        pointer_y: DecayingValue { current: 500_000i64, decay_rate: 20_000i64, last_valid: 500_000i64 },
        last_t_ms: 0u64,
        reduced_motion: false,
        enabled: true,
        diagnostics_enabled: false,
        current_chord: 0u8,
        raw_activity: 0i64,
        click_energy: 0i64,
        hold_note: None,
    }
}

/// One per-frame step of the whole engine: frame delta, click-energy
/// decay, reduced-motion edge, pointer decay, activity, parameter targets,
/// one smoothing step, paced event generation, the forced mute, the hold
/// state, and optional diagnostics. Disabled engines step to themselves
/// and return the default output.
pub open spec fn spec_engine_step(m: EngineModel, f: InteractionFrame) -> (EngineModel, OutModel) {
    if !m.enabled {
        (m, spec_default_out())
    } else {
        let dt = spec_dt(m.last_t_ms, f.t_ms);
        let ce1 = spec_decay_n(m.click_energy as int, dt as nat) as i64;
        let edge = f.reduced_motion != m.reduced_motion;
        let smoother1 = if !edge {
            m.smoother
        } else if f.reduced_motion {
            m.smoother.with_profile(20_000i64, 10_000i64)
        } else {
            m.smoother.with_profile(50_000i64, 20_000i64)
        };
        let pacer1 = if !edge {
            m.pacer
        } else if f.reduced_motion {
            PacerModel {
                density: spec_mul_unit(m.pacer.density as int, 300_000) as i64,
                min_interval: 300u64,
                ..m.pacer
            }
        } else {
            PacerModel { min_interval: 100u64, ..m.pacer }
        };
        let px1 = spec_decay_update(m.pointer_x, f.pointer_x);
        let py1 = spec_decay_update(m.pointer_y, f.pointer_y);
        let activity = spec_activity(f) as i64;
        let targets = spec_param_targets(f, px1.current, py1.current, activity,
            m.harmony.state.tension, ce1);
        let smoother2 = spec_with_targets(smoother1, targets).stepped();
        let pstep = spec_pacer_step(pacer1, dt, f.section_id, f.hover_id, activity, m.harmony);
        let ev = if !f.tab_focused && f.focus {
            pstep.2.push(EventModel::Mute { on: true, salience: UNIT as int })
        } else {
            pstep.2
        };
        let hold = spec_hold(f, px1.current, py1.current, pstep.1.state);
        let diag = if m.diagnostics_enabled {
            Some(
                DiagnosticOutput {
                    key: pstep.1.state.root,
                    mode: spec_mode_num(pstep.1.state.mode),
                    chord: m.current_chord,
                    raw_activity: activity,
                    smoothing_attack: smoother2.master.attack,
                    smoothing_release: smoother2.master.release,
                    pending_modulation: None,
                    time_since_event: pstep.0.timer,
                },
            )
        } else {
            None
        };
        (
            EngineModel {
                smoother: smoother2,
                harmony: pstep.1,
                pacer: pstep.0,
                pointer_x: px1,
                pointer_y: py1,
                last_t_ms: f.t_ms,
                reduced_motion: f.reduced_motion,
                raw_activity: activity,
                click_energy: ce1,
                hold_note: match hold {
                    Some(h) => Some(h.note),
                    None => None,
                },
                ..m
            },
            OutModel {
                params: smoother2.spec_values(),
                harmony: pstep.1.state,
                events: ev,
                hold,
                diagnostics: diag,
            },
        )
    }
}

/// What one discrete interaction does to the engine: a click raises the
/// click energy (max-hold, never additive), then the event generator runs.
/// Disabled engines do nothing and return no events.
pub open spec fn spec_engine_event(m: EngineModel, e: InteractionEvent) -> (
    EngineModel,
    Seq<EventModel>,
) {
    if !m.enabled {
        (m, Seq::empty())
    } else {
        let ce1: i64 = match e {
            InteractionEvent::Click { y, weight, .. } => {
                let intensity = spec_clamp(
                    600_000 + spec_mul_unit(spec_weight(weight), 400_000) + spec_mul_unit(
                        y as int,
                        100_000,
                    ),
                    0,
                    UNIT as int,
                ) as i64;
                if intensity > m.click_energy {
                    intensity
                } else {
                    m.click_energy
                }
            },
            _ => m.click_energy,
        };
        let p = crate::events::spec_process_event(m.pacer, e, m.harmony.state);
        (EngineModel { click_energy: ce1, pacer: p.0, ..m }, p.1)
    }
}

/// The main musicalization engine.
///
/// Receives interaction data and produces musical parameters and events.
#[derive(Debug)]
pub struct Engine {
    /// Parameter smoother.
    pub smoother: ParamSmoother,
    /// Harmony manager.
    pub harmony: HarmonyManager,
    /// Event generator.
    pub events: EventGenerator,
    /// Decaying pointer X (handles sentinel values).
    pub pointer_x: DecayingValue,
    /// Decaying pointer Y (handles sentinel values).
    pub pointer_y: DecayingValue,
    /// Last frame timestamp.
    pub last_t_ms: u64,
    /// Current reduced motion state.
    pub reduced_motion: bool,
    /// Engine enabled state.
    pub enabled: bool,
    /// Whether to include diagnostics in the output.
    pub diagnostics_enabled: bool,
    /// Current chord degree (for diagnostics).
    pub current_chord: u8,
    /// Raw activity before smoothing (for diagnostics).
    pub raw_activity: i64,
    /// Decaying click energy for tension mapping.
    pub click_energy: i64,
    /// Current hold note (for click-and-hold).
    pub hold_note: Option<u8>,
}

impl Engine {
    /// The spec-level model of this engine.
    pub open spec fn model(self) -> EngineModel {
        EngineModel {
            smoother: self.smoother,
            harmony: self.harmony.model(),
            pacer: self.events.model(),
            pointer_x: self.pointer_x,
            pointer_y: self.pointer_y,
            last_t_ms: self.last_t_ms,
            reduced_motion: self.reduced_motion,
            enabled: self.enabled,
            diagnostics_enabled: self.diagnostics_enabled,
            current_chord: self.current_chord,
            raw_activity: self.raw_activity,
            click_energy: self.click_energy,
            hold_note: self.hold_note,
        }
    }

    /// Every component is well formed and the scalar state is on the unit
    /// scale.
    pub open spec fn wf(self) -> bool {
        &&& self.smoother.wf()
        &&& self.harmony.wf()
        &&& self.events.wf()
        &&& self.pointer_x.wf()
        &&& self.pointer_y.wf()
        &&& 0 <= self.raw_activity <= UNIT
        &&& 0 <= self.click_energy <= UNIT
    }

    /// Create a new engine with the given seed and preset.
    pub fn new(seed: u64, preset: Preset) -> (r: Engine)
        ensures
            r.model() == spec_new_engine(seed, preset),
            r.wf(),
    {
        let mut events = EventGenerator::new(seed);
        events.apply_preset(preset);

        Engine {
            smoother: ParamSmoother::new(),
            harmony: HarmonyManager::new(seed, preset),
            events,
            pointer_x: DecayingValue::new(500_000, 20_000),
            pointer_y: DecayingValue::new(500_000, 20_000),
            last_t_ms: 0,
            reduced_motion: false,
            enabled: true,
            diagnostics_enabled: false,
            current_chord: 0,
            raw_activity: 0,
            click_energy: 0,
            hold_note: None,
        }
    }

    /// Enable or disable diagnostic output.
    pub fn set_diagnostics(&mut self, enabled: bool)
        requires
            old(self).wf(),
        ensures
            *final(self) == (Engine { diagnostics_enabled: enabled, ..*old(self) }),
            final(self).wf(),
    {
        self.diagnostics_enabled = enabled;
    }

    /// Enable or disable the engine.
    pub fn set_enabled(&mut self, enabled: bool)
        requires
            old(self).wf(),
        ensures
            *final(self) == (Engine { enabled, ..*old(self) }),
            final(self).wf(),
    {
        self.enabled = enabled;
    }

    /// Check whether the engine is enabled.
    pub fn is_enabled(&self) -> (r: bool)
        ensures
            r == self.enabled,
    {
        self.enabled
    }

    /// Check whether the engine is in its reduced-motion profile.
    pub fn reduced_motion(&self) -> (r: bool)
        ensures
            r == self.reduced_motion,
    {
        self.reduced_motion
    }

    /// Set the harmony preset: the mode and the event density snap to the
    /// preset's defaults at once.
    pub fn set_preset(&mut self, preset: Preset)
        requires
            old(self).wf(),
        ensures
            final(self).model() == (EngineModel {
                harmony: HarmonyModel {
                    preset,
                    state: HarmonyState {
                        mode: spec_default_mode(preset),
                        ..old(self).harmony.state
                    },
                    ..old(self).harmony.model()
                },
                pacer: PacerModel { density: spec_event_density(preset), ..old(self).events.model() },
                ..old(self).model()
            }),
            final(self).wf(),
    {
        self.harmony.set_preset(preset);
        self.events.apply_preset(preset);
    }

    /// Set the scale directly, with no smoothing; the root is taken mod 12.
    pub fn set_scale(&mut self, root: u8, mode: Mode)
        requires
            old(self).wf(),
        ensures
            final(self).model() == (EngineModel {
                harmony: HarmonyModel {
                    state: HarmonyState { root: (root % 12) as u8, mode, ..old(self).harmony.state },
                    ..old(self).harmony.model()
                },
                ..old(self).model()
            }),
            final(self).harmony.state.root < 12,
            final(self).harmony.state.mode == mode,
            final(self).wf(),
    {
        self.harmony.set_scale(root, mode);
    }

    /// Set the chord pool.
    pub fn set_chord_pool(&mut self, chords: Vec<ChordDegree>)
        requires
            old(self).wf(),
        ensures
            final(self).model() == (EngineModel {
                harmony: HarmonyModel { pool: Some(chords@), ..old(self).harmony.model() },
                ..old(self).model()
            }),
            final(self).wf(),
    {
        self.harmony.set_chord_pool(chords);
    }

    /// Set the modulation rate, clamped into `[0, 1]`.
    pub fn set_modulation_rate(&mut self, rate: i64)
        requires
            old(self).wf(),
        ensures
            final(self).model() == (EngineModel {
                harmony: HarmonyModel {
                    rate_override: Some(spec_clamp(rate as int, 0, UNIT as int) as i64),
                    ..old(self).harmony.model()
                },
                ..old(self).model()
            }),
            final(self).wf(),
    {
        self.harmony.set_modulation_rate(rate);
    }

    /// Get the current harmony state.
    pub fn harmony_state(&self) -> (s: HarmonyState)
        ensures
            s == self.harmony.state,
    {
        self.harmony.state()
    }

    /// Get the current preset.
    pub fn preset(&self) -> (p: Preset)
        ensures
            p == self.harmony.preset,
    {
        self.harmony.preset()
    }

    /// Process an interaction frame and return the musical output.
    pub fn update(&mut self, frame: InteractionFrame) -> (out: OutputFrame)
        requires
            old(self).wf(),
            frame.wf(),
        ensures
            final(self).model() == spec_engine_step(old(self).model(), frame).0,
            out.model() == spec_engine_step(old(self).model(), frame).1,
            final(self).wf(),
            out.params.wf(),
            out.harmony.wf(),
            events_wf(out.model().events),
            !old(self).enabled ==> *final(self) == *old(self) && out.model() == spec_default_out(),
    {
        if !self.enabled {
            let out = OutputFrame::default();
            proof {
                assert(events_wf(out.model().events));
            }
            return out;
        }

        let dt_ms = if self.last_t_ms == 0 {
            16
        } else {
            frame.t_ms.saturating_sub(self.last_t_ms)
        };
        self.last_t_ms = frame.t_ms;
        self.decay_click_energy(dt_ms);

        if frame.reduced_motion != self.reduced_motion {
            self.reduced_motion = frame.reduced_motion;
            if self.reduced_motion {
                self.smoother.apply_reduced_motion();
                self.events.apply_reduced_motion(true);
            } else {
                self.smoother.apply_normal_motion();
                self.events.apply_reduced_motion(false);
            }
        }

        self.pointer_x.update(frame.pointer_x);
        self.pointer_y.update(frame.pointer_y);

        self.raw_activity = self.calculate_activity(&frame);

        self.update_params(&frame, self.raw_activity);

        self.smoother.update();

        let mut events = self.events.update(
            dt_ms,
            frame.section_id,
            frame.hover_id,
            self.raw_activity,
            &mut self.harmony,
        );

        if !frame.tab_focused && frame.focus {
            events.push(MusicEvent::Mute { on: true, salience: UNIT });
        }

        let hold = self.compute_hold(&frame);

        let diagnostics = if self.diagnostics_enabled {
            let state = self.harmony.state();
            Some(
                DiagnosticOutput {
                    key: state.root,
                    mode: mode_to_num(state.mode),
                    chord: self.current_chord,
                    raw_activity: self.raw_activity,
                    smoothing_attack: self.smoother.attack(),
                    smoothing_release: self.smoother.release(),
                    pending_modulation: None,
                    time_since_event: self.events.time_since_event(),
                },
            )
        } else {
            None
        };

        let out = OutputFrame {
            params: MusicParams {
                master: self.smoother.master.value(),
                warmth: self.smoother.warmth.value(),
                brightness: self.smoother.brightness.value(),
                width: self.smoother.width.value(),
                motion: self.smoother.motion.value(),
                reverb: self.smoother.reverb.value(),
                density: self.smoother.density.value(),
                tension: self.smoother.tension.value(),
            },
            harmony: self.harmony.state(),
            events,
            hold,
            diagnostics,
        };
        proof {
            let stepped = spec_engine_step(old(self).model(), frame);
            assert(out.model().events =~= stepped.1.events);
            assert(out.model() == stepped.1);
            assert(self.model() == stepped.0);
        }
        out
    }

    /// Process a discrete interaction event.
    pub fn event(&mut self, event: InteractionEvent) -> (r: Vec<MusicEvent>)
        requires
            old(self).wf(),
            event.wf(),
        ensures
            final(self).model() == spec_engine_event(old(self).model(), event).0,
            r@.map_values(|e: MusicEvent| e.model()) == spec_engine_event(
                old(self).model(),
                event,
            ).1,
            final(self).wf(),
            events_wf(r@.map_values(|e: MusicEvent| e.model())),
            !old(self).enabled ==> *final(self) == *old(self) && r@.len() == 0,
    {
        if !self.enabled {
            let r: Vec<MusicEvent> = Vec::new();
            proof {
                assert(r@.map_values(|e: MusicEvent| e.model()) =~= Seq::<EventModel>::empty());
            }
            return r;
        }
        if let InteractionEvent::Click { y, weight, .. } = &event {
            let w = match weight {
                Some(v) => clamp_i64(*v, 0, UNIT),
                None => UNIT,
            };
            let intensity = clamp_i64(600_000 + mul_unit(w, 400_000) + mul_unit(*y, 100_000), 0, UNIT);
            if intensity > self.click_energy {
                self.click_energy = intensity;
            }
        }
        self.events.process_event(&event, &self.harmony)
    }

    /// Set the current section, as a navigation event.
    pub fn set_section(&mut self, section_id: u32)
        requires
            old(self).wf(),
        ensures
            final(self).model() == spec_engine_event(
                old(self).model(),
                InteractionEvent::Nav { section_id, weight: None },
            ).0,
            final(self).wf(),
    {
        let event = InteractionEvent::Nav { section_id, weight: None };
        let _ = self.event(event);
    }

    /// Calculate the overall activity level from an input frame.
    fn calculate_activity(&self, frame: &InteractionFrame) -> (a: i64)
        requires
            frame.wf(),
        ensures
            a == spec_activity(*frame),
            0 <= a <= UNIT,
    {
        let pointer_activity = mul_unit(frame.pointer_speed, 600_000);
        let scroll_activity = mul_unit(abs_i64(frame.scroll_v), 400_000);
        let raw = pointer_activity + scroll_activity;
        let focus_mult = if frame.focus {
            UNIT
        } else {
            300_000
        };
        clamp_i64(mul_unit(raw, focus_mult), 0, UNIT)
    }

    /// Decay the click energy by one millisecond step per elapsed
    /// millisecond.
    fn decay_click_energy(&mut self, dt_ms: u64)
        requires
            old(self).wf(),
        ensures
            *final(self) == (Engine {
                click_energy: spec_decay_n(old(self).click_energy as int, dt_ms as nat) as i64,
                ..*old(self)
            }),
            0 <= final(self).click_energy <= UNIT,
    {
        let ghost e0 = self.click_energy as int;
        let cap: u64 = if dt_ms > 1_000_000 {
            1_000_000
        } else {
            dt_ms
        };
        let mut i: u64 = 0;
        while i < cap
            invariant
                0 <= i <= cap,
                cap <= 1_000_000,
                0 <= e0 <= UNIT,
                0 <= self.click_energy <= e0,
                self.click_energy == spec_decay_n(e0, i as nat),
                *self == (Engine { click_energy: self.click_energy, ..*old(self) }),
            decreases cap - i,
        {
            proof {
                lemma_decay_n_snoc(e0, i as nat);
                lemma_decay_n_bounds(e0, i as nat);
                lemma_mul_unit_bounds(self.click_energy as int, CLICK_DECAY_PER_MS as int);
            }
            self.click_energy = mul_unit(self.click_energy, CLICK_DECAY_PER_MS);
            i = i + 1;
        }
        proof {
            lemma_decay_n_bounds(e0, cap as nat);
            if dt_ms > cap {
                lemma_decay_n_zero(e0, cap as nat);
                lemma_decay_n_zero(e0, dt_ms as nat);
            }
        }
    }

    /// Compute the hold state for a frame, remembering the held note.
    fn compute_hold(&mut self, frame: &InteractionFrame) -> (hold: Option<HoldState>)
        requires
            old(self).wf(),
            frame.wf(),
        ensures
            hold == spec_hold(
                *frame,
                old(self).pointer_x.current,
                old(self).pointer_y.current,
                old(self).harmony.state,
            ),
            *final(self) == (Engine {
                hold_note: match hold {
                    Some(h) => Some(h.note),
                    None => None,
                },
                ..*old(self)
            }),
    {
        if !frame.pointer_down {
            self.hold_note = None;
            return None;
        }

        let pointer_x = if frame.has_pointer() {
            frame.pointer_x
        } else {
            self.pointer_x.value()
        };
        let pointer_y = if frame.has_pointer() {
            frame.pointer_y
        } else {
            self.pointer_y.value()
        };
        proof {
            lemma_intervals_shape(self.harmony.state.mode);
        }
        let intervals = self.harmony.state.mode.intervals();
        let degree_count = intervals.len();
        assert(degree_count == 5 || degree_count == 7);
        let clamped_x = clamp_i64(pointer_x, 0, 999_900);
        let degree = (clamped_x * (degree_count as i64) / UNIT) as usize;
        let note = self.harmony.scale_note(degree, 4);
        self.hold_note = Some(note);

        let velocity = clamp_i64(
            350_000 + mul_unit(clamp_i64(pointer_y, 0, UNIT), 650_000),
            200_000,
            UNIT,
        );
        Some(HoldState { note, velocity })
    }

    /// Update the eight parameter targets from the frame and activity.
    fn update_params(&mut self, frame: &InteractionFrame, activity: i64)
        requires
            old(self).wf(),
            frame.wf(),
            0 <= activity <= UNIT,
        ensures
            *final(self) == (Engine {
                smoother: spec_with_targets(
                    old(self).smoother,
                    spec_param_targets(
                        *frame,
                        old(self).pointer_x.current,
                        old(self).pointer_y.current,
                        activity,
                        old(self).harmony.state.tension,
                        old(self).click_energy,
                    ),
                ),
                ..*old(self)
            }),
            final(self).wf(),
    {
        let width = if frame.has_pointer() {
            abs_i64(frame.pointer_x - 500_000) * 2
        } else {
            abs_i64(self.pointer_x.value() - 500_000) * 2
        };

        let pointer_y = if frame.has_pointer() {
            frame.pointer_y
        } else {
            self.pointer_y.value()
        };
        let brightness = clamp_i64(pointer_y, 0, UNIT);

        let master = 550_000 + mul_unit(activity, 450_000);
        let hover_boost = if frame.hover_id > 0 {
            200_000
        } else {
            0
        };
        let warmth = clamp_i64(300_000 + mul_unit(frame.pointer_speed, 500_000) + hover_boost, 0, UNIT);
        let motion = mul_unit(activity, 600_000);
        let scroll_energy = clamp_i64(abs_i64(frame.scroll_v), 0, UNIT);
        let reduced_boost = if frame.reduced_motion {
            200_000
        } else {
            0
        };
        let reverb = clamp_i64(200_000 + mul_unit(scroll_energy, 600_000) + reduced_boost, 0, UNIT);
        let density = activity;
        let scroll_spike = if scroll_energy <= 400_000 {
            0
        } else {
            clamp_i64((scroll_energy - 400_000) * UNIT / 600_000, 0, UNIT)
        };
        let tension = clamp_i64(
            mul_unit(self.harmony.state.tension, 350_000) + mul_unit(scroll_spike, 350_000)
                + mul_unit(self.click_energy, 400_000),
            0,
            UNIT,
        );

        self.smoother.master.set_target(master);
        self.smoother.warmth.set_target(warmth);
        self.smoother.brightness.set_target(brightness);
        self.smoother.width.set_target(width);
        self.smoother.motion.set_target(motion);
        self.smoother.reverb.set_target(reverb);
        self.smoother.density.set_target(density);
        self.smoother.tension.set_target(tension);
    }
}

impl Default for Engine {
    /// An ambient engine with a fixed default seed.
    fn default() -> (r: Self)
        ensures
            r.model() == spec_new_engine(42, Preset::Ambient),
            r.wf(),
    {
        Engine::new(42, Preset::Ambient)
    }
}

/// Determinism law for frames: the per-frame step is a pure function of
/// the engine model and the frame, so two engines with equal models — the
/// same seed and preset, fed the same ordered calls so far — produce equal
/// outputs and step to equal models on the same frame. Together with
/// `Engine::update`'s contract this pins the whole output sequence of a
/// replayed session.
pub proof fn lemma_update_deterministic(a: Engine, b: Engine, f: InteractionFrame)
    requires
        a.model() == b.model(),
    ensures
        spec_engine_step(a.model(), f) == spec_engine_step(b.model(), f),
{
}

/// Determinism law for discrete events, the counterpart of
/// `lemma_update_deterministic` for `Engine::event`.
pub proof fn lemma_event_deterministic(a: Engine, b: Engine, e: InteractionEvent)
    requires
        a.model() == b.model(),
    ensures
        spec_engine_event(a.model(), e) == spec_engine_event(b.model(), e),
{
}

} // verus!
