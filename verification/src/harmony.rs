//! Harmonic state management and presets.
//!
//! Owns key, mode and tension, answers scale and chord queries, and runs the
//! cooldown-gated stochastic modulation state machine.
use vstd::prelude::*;

verus! {

use crate::fixed::{UNIT, spec_clamp, spec_mul_unit, spec_lerp_toward, spec_sat_add_u64, clamp_i64,
    mul_unit, lerp_toward};
use crate::rng::{rng_state, rng_next, spec_draw_unit, spec_draw_index, rng_with_seed, draw_unit,
    draw_index};
use crate::text::{str_ieq, str_ieq_exec};
use crate::types::{HarmonyState, Mode, spec_intervals, lemma_intervals_shape};

/// Named presets that configure scale, mode, and modulation behavior.
#[derive(Debug, Clone, Copy, PartialEq, Eq, Structural, Default)]
pub enum Preset {
    /// Lush, dreamy - Lydian, slow modulation, rich chords.
    #[default]
    Ambient,
    /// Sparse, calm - pentatonic, reduced motion friendly, fewer notes.
    Minimal,
    /// Tense, cinematic - Dorian, higher tension ceiling, darker.
    Dramatic,
    /// Bright, bouncy - major pentatonic, quicker changes, lighter feel.
    Playful,
}

/// The default mode of a preset.
pub open spec fn spec_default_mode(p: Preset) -> Mode {
    match p {
        Preset::Ambient => Mode::Lydian,
        Preset::Minimal => Mode::PentatonicMajor,
        Preset::Dramatic => Mode::Dorian,
        Preset::Playful => Mode::PentatonicMajor,
    }
}

/// The modulation rate of a preset, in `[0, 1]` micro-units.
pub open spec fn spec_modulation_rate(p: Preset) -> i64 {
    match p {
        Preset::Ambient => 100_000i64,
        Preset::Minimal => 50_000i64,
        Preset::Dramatic => 200_000i64,
        Preset::Playful => 300_000i64,
    }
}

/// The tension ceiling of a preset, in `[0, 1]` micro-units.
pub open spec fn spec_tension_ceiling(p: Preset) -> i64 {
    match p {
        Preset::Ambient => 500_000i64,
        Preset::Minimal => 300_000i64,
        Preset::Dramatic => 900_000i64,
        Preset::Playful => 400_000i64,
    }
}

/// The event-density baseline of a preset, in `[0, 1]` micro-units.
pub open spec fn spec_event_density(p: Preset) -> i64 {
    match p {
        Preset::Ambient => 600_000i64,
        Preset::Minimal => 300_000i64,
        Preset::Dramatic => 800_000i64,
        Preset::Playful => 1_000_000i64,
    }
}

/// The preset a configuration name denotes, compared up to ASCII case.
pub open spec fn spec_preset_from_name(s: Seq<char>) -> Option<Preset> {
    if str_ieq(s, "ambient"@) {
        Some(Preset::Ambient)
    } else if str_ieq(s, "minimal"@) {
        Some(Preset::Minimal)
    } else if str_ieq(s, "dramatic"@) {
        Some(Preset::Dramatic)
    } else if str_ieq(s, "playful"@) {
        Some(Preset::Playful)
    } else {
        None
    }
}

impl Preset {
    /// Get the default mode for this preset.
    pub fn default_mode(&self) -> (m: Mode)
        ensures
            m == spec_default_mode(*self),
    {
        match self {
            Preset::Ambient => Mode::Lydian,
            Preset::Minimal => Mode::PentatonicMajor,
            Preset::Dramatic => Mode::Dorian,
            Preset::Playful => Mode::PentatonicMajor,
        }
    }

    /// Get the modulation rate for this preset.
    /// Higher values mean more frequent key changes.
    pub fn modulation_rate(&self) -> (r: i64)
        ensures
            r == spec_modulation_rate(*self),
            0 <= r <= UNIT,
    {
        match self {
            Preset::Ambient => 100_000,
            Preset::Minimal => 50_000,
            Preset::Dramatic => 200_000,
            Preset::Playful => 300_000,
        }
    }

    /// Get the tension ceiling for this preset.
    pub fn tension_ceiling(&self) -> (r: i64)
        ensures
            r == spec_tension_ceiling(*self),
            0 <= r <= UNIT,
    {
        match self {
            Preset::Ambient => 500_000,
            Preset::Minimal => 300_000,
            Preset::Dramatic => 900_000,
            Preset::Playful => 400_000,
        }
    }

    /// Get the event density baseline for this preset.
    /// Lower values mean fewer events generated.
    pub fn event_density(&self) -> (r: i64)
        ensures
            r == spec_event_density(*self),
            0 <= r <= UNIT,
    {
        match self {
            Preset::Ambient => 600_000,
            Preset::Minimal => 300_000,
            Preset::Dramatic => 800_000,
            Preset::Playful => 1_000_000,
        }
    }

    /// Parse a preset from its configuration name, ignoring ASCII case.
    pub fn from_name(name: &str) -> (r: Option<Preset>)
        ensures
            r == spec_preset_from_name(name@),
    {
        if str_ieq_exec(name, "ambient") {
            Some(Preset::Ambient)
        } else if str_ieq_exec(name, "minimal") {
            Some(Preset::Minimal)
        } else if str_ieq_exec(name, "dramatic") {
            Some(Preset::Dramatic)
        } else if str_ieq_exec(name, "playful") {
            Some(Preset::Playful)
        } else {
            None
        }
    }
}

/// Chord degrees in Roman numeral notation.
#[derive(Debug, Clone, Copy, PartialEq, Eq, Structural)]
pub enum ChordDegree {
    I,
    II,
    III,
    IV,
    V,
    VI,
    VII,
}

/// The scale-degree index of a Roman numeral (0 for I up to 6 for VII).
pub open spec fn spec_degree_index(d: ChordDegree) -> int {
    match d {
        ChordDegree::I => 0,
        ChordDegree::II => 1,
        ChordDegree::III => 2,
        ChordDegree::IV => 3,
        ChordDegree::V => 4,
        ChordDegree::VI => 5,
        ChordDegree::VII => 6,
    }
}

/// The chord degree a Roman numeral name denotes, compared up to ASCII case.
pub open spec fn spec_degree_from_name(s: Seq<char>) -> Option<ChordDegree> {
    if str_ieq(s, "i"@) {
        Some(ChordDegree::I)
    } else if str_ieq(s, "ii"@) {
        Some(ChordDegree::II)
    } else if str_ieq(s, "iii"@) {
        Some(ChordDegree::III)
    } else if str_ieq(s, "iv"@) {
        Some(ChordDegree::IV)
    } else if str_ieq(s, "v"@) {
        Some(ChordDegree::V)
    } else if str_ieq(s, "vi"@) {
        Some(ChordDegree::VI)
    } else if str_ieq(s, "vii"@) {
        Some(ChordDegree::VII)
    } else {
        None
    }
}

/// Parse a chord degree from a Roman numeral (for example "I", "IV", "vi"),
/// ignoring ASCII case.
pub fn parse_chord_degree(s: &str) -> (r: Option<ChordDegree>)
    ensures
        r == spec_degree_from_name(s@),
{
    if str_ieq_exec(s, "i") {
        Some(ChordDegree::I)
    } else if str_ieq_exec(s, "ii") {
        Some(ChordDegree::II)
    } else if str_ieq_exec(s, "iii") {
        Some(ChordDegree::III)
    } else if str_ieq_exec(s, "iv") {
        Some(ChordDegree::IV)
    } else if str_ieq_exec(s, "v") {
        Some(ChordDegree::V)
    } else if str_ieq_exec(s, "vi") {
        Some(ChordDegree::VI)
    } else if str_ieq_exec(s, "vii") {
        Some(ChordDegree::VII)
    } else {
        None
    }
}

/// Spec-level model of a harmony manager, with the generator state made
/// explicit.
pub struct HarmonyModel {
    pub state: HarmonyState,
    pub preset: Preset,
    pub rate_override: Option<i64>,
    pub pool: Option<Seq<ChordDegree>>,
    pub timer: u64,
    pub rng: u64,
}

/// The effective modulation rate: the override when set, else the preset's.
pub open spec fn spec_rate(m: HarmonyModel) -> i64 {
    match m.rate_override {
        Some(r) => r,
        None => spec_modulation_rate(m.preset),
    }
}

/// The modulation check interval in milliseconds for a given rate:
/// ten seconds scaled down by the rate plus one percent.
pub open spec fn spec_mod_threshold(rate: i64) -> u64 {
    (10_000_000_000int / (rate + 10_000)) as u64
}

/// The modulation candidate picked by index: a fifth up, a fourth up, the
/// relative key, or a minor third up from the root, as a pitch class.
pub open spec fn spec_mod_candidate(root: u8, idx: int) -> u8 {
    if idx == 0 {
        ((root + 7) % 12) as u8
    } else if idx == 1 {
        ((root + 5) % 12) as u8
    } else if idx == 2 {
        ((root + 9) % 12) as u8
    } else {
        ((root + 3) % 12) as u8
    }
}

/// The tension after one update step: moved one tenth of the way toward
/// the activity-scaled ceiling (a fixed fraction per call, not time-scaled).
pub open spec fn spec_tension_step(m: HarmonyModel, activity: i64) -> int {
    spec_lerp_toward(
        m.state.tension as int,
        spec_mul_unit(activity as int, spec_tension_ceiling(m.preset) as int),
        100_000,
    )
}

/// One update step of the harmony state machine: accumulate the timer, move
/// tension toward its target, and once the timer exceeds the check interval
/// draw once; on success draw again to pick a new root and reset the timer.
pub open spec fn spec_harmony_step(m: HarmonyModel, dt_ms: u64, activity: i64) -> (
    HarmonyModel,
    Option<(u8, Mode)>,
) {
    let timer1 = spec_sat_add_u64(m.timer, dt_ms);
    let tension1 = spec_tension_step(m, activity) as i64;
    let rate = spec_rate(m);
    if timer1 > spec_mod_threshold(rate) {
        let rng1 = rng_next(m.rng);
        if spec_draw_unit(m.rng) < rate {
            let idx = spec_draw_index(rng1, 4);
            let rng2 = rng_next(rng1);
            let new_root = spec_mod_candidate(m.state.root, idx);
            (
                HarmonyModel {
                    state: HarmonyState { root: new_root, tension: tension1, ..m.state },
                    timer: 0u64,
                    rng: rng2,
                    ..m
                },
                Some((new_root, m.state.mode)),
            )
        } else {
            (
                HarmonyModel {
                    state: HarmonyState { tension: tension1, ..m.state },
                    timer: timer1,
                    rng: rng1,
                    ..m
                },
                None,
            )
        }
    } else {
        (
            HarmonyModel {
                state: HarmonyState { tension: tension1, ..m.state },
                timer: timer1,
                ..m
            },
            None,
        )
    }
}

/// The note of a scale degree: root plus the mode interval at the degree
/// (wrapped around the table) plus twelve per octave.
pub open spec fn spec_scale_note(s: HarmonyState, degree: int, octave: int) -> int {
    s.root + spec_intervals(s.mode)[degree % spec_intervals(s.mode).len() as int] + octave * 12
}

/// The triad on a scale degree: intervals at the degree, two and four steps
/// above it (wrapped around the table), stacked on the octave-shifted root.
pub open spec fn spec_chord_notes(s: HarmonyState, d: ChordDegree, octave: int) -> Seq<u8> {
    let ivs = spec_intervals(s.mode);
    let len = ivs.len() as int;
    let di = spec_degree_index(d);
    let base = s.root + octave * 12;
    seq![
        (base + ivs[di % len]) as u8,
        (base + ivs[(di + 2) % len]) as u8,
        (base + ivs[(di + 4) % len]) as u8,
    ]
}

/// Manages harmonic state and transitions.
#[derive(Debug)]
pub struct HarmonyManager {
    /// Current harmonic state.
    pub state: HarmonyState,
    /// Active preset.
    pub preset: Preset,
    /// Custom modulation rate override (if set), in `[0, 1]` micro-units.
    pub modulation_rate_override: Option<i64>,
    /// Custom chord pool (if set).
    pub chord_pool: Option<Vec<ChordDegree>>,
    /// Time since the last modulation (ms).
    pub time_since_modulation: u64,
    /// Generator for harmonic decisions.
    pub rng: fastrand::Rng,
}

impl HarmonyManager {
    /// The spec-level model of this manager.
    pub open spec fn model(self) -> HarmonyModel {
        HarmonyModel {
            state: self.state,
            preset: self.preset,
            rate_override: self.modulation_rate_override,
            pool: match self.chord_pool {
                Some(v) => Some(v@),
                None => None,
            },
            timer: self.time_since_modulation,
            rng: rng_state(self.rng),
        }
    }

    /// The harmonic state is well formed and any override is on the unit
    /// scale.
    pub open spec fn wf(self) -> bool {
        &&& self.state.wf()
        &&& match self.modulation_rate_override {
            Some(r) => 0 <= r <= UNIT,
            None => true,
        }
    }

    /// Create a new harmony manager with the given seed and preset.
    pub fn new(seed: u64, preset: Preset) -> (r: HarmonyManager)
        ensures
            r.model() == (HarmonyModel {
                state: HarmonyState {
                    root: 0u8,
                    mode: spec_default_mode(preset),
                    tension: 300_000i64,
                },
                preset,
                rate_override: None,
                pool: None,
                timer: 0u64,
                rng: seed,
            }),
            r.wf(),
    {
        HarmonyManager {
            state: HarmonyState { root: 0, mode: preset.default_mode(), tension: 300_000 },
            preset,
            modulation_rate_override: None,
            chord_pool: None,
            time_since_modulation: 0,
            rng: rng_with_seed(seed),
        }
    }

    /// Get the current harmonic state.
    pub fn state(&self) -> (s: HarmonyState)
        ensures
            s == self.state,
    {
        self.state
    }

    /// Get the current preset.
    pub fn preset(&self) -> (p: Preset)
        ensures
            p == self.preset,
    {
        self.preset
    }

    /// Set a new preset; the mode snaps to the preset's default at once.
    pub fn set_preset(&mut self, preset: Preset)
        requires
            old(self).wf(),
        ensures
            final(self).model() == (HarmonyModel {
                preset,
                state: HarmonyState { mode: spec_default_mode(preset), ..old(self).state },
                ..old(self).model()
            }),
            final(self).wf(),
    {
        self.preset = preset;
        self.state.mode = preset.default_mode();
    }

    /// Set root and mode directly, with no smoothing; the root is taken
    /// mod 12.
    pub fn set_scale(&mut self, root: u8, mode: Mode)
        requires
            old(self).wf(),
        ensures
            final(self).model() == (HarmonyModel {
                state: HarmonyState {
                    root: (root % 12) as u8,
                    mode,
                    ..old(self).state
                },
                ..old(self).model()
            }),
            final(self).wf(),
    {
        self.state.root = root % 12;
        self.state.mode = mode;
    }

    /// Set a custom chord pool.
    pub fn set_chord_pool(&mut self, chords: Vec<ChordDegree>)
        requires
            old(self).wf(),
        ensures
            final(self).model() == (HarmonyModel { pool: Some(chords@), ..old(self).model() }),
            final(self).wf(),
    {
        self.chord_pool = Some(chords);
    }

    /// Set the modulation rate override, clamped into `[0, 1]`.
    pub fn set_modulation_rate(&mut self, rate: i64)
        requires
            old(self).wf(),
        ensures
            final(self).model() == (HarmonyModel {
                rate_override: Some(spec_clamp(rate as int, 0, UNIT as int) as i64),
                ..old(self).model()
            }),
            final(self).wf(),
    {
        self.modulation_rate_override = Some(clamp_i64(rate, 0, UNIT));
    }

    /// Update the harmony state from elapsed time and activity.
    /// Returns the new root and mode if a modulation occurred.
    pub fn update(&mut self, dt_ms: u64, activity: i64) -> (r: Option<(u8, Mode)>)
        requires
            old(self).wf(),
            0 <= activity <= UNIT,
        ensures
            final(self).model() == spec_harmony_step(old(self).model(), dt_ms, activity).0,
            r == spec_harmony_step(old(self).model(), dt_ms, activity).1,
            final(self).wf(),
            r is Some ==> (r->0).0 < 12 && (r->0).1 == old(self).state.mode,
    {
        self.time_since_modulation = self.time_since_modulation.saturating_add(dt_ms);

        let ceiling = self.preset.tension_ceiling();
        let target_tension = mul_unit(activity, ceiling);
        self.state.tension = lerp_toward(self.state.tension, target_tension, 100_000);

        let rate = match self.modulation_rate_override {
            Some(r) => r,
            None => self.preset.modulation_rate(),
        };
        let threshold_ms: u64 = 10_000_000_000u64 / ((rate + 10_000) as u64);

        if self.time_since_modulation > threshold_ms {
            let d = draw_unit(&mut self.rng);
            if d < rate {
                self.time_since_modulation = 0;
                let new_root = self.pick_modulation_target();
                self.state.root = new_root;
                return Some((new_root, self.state.mode));
            }
        }
        None
    }

    /// Pick a musically sensible modulation target: up a fifth, up a
    /// fourth, the relative key, or up a minor third.
    fn pick_modulation_target(&mut self) -> (r: u8)
        requires
            old(self).wf(),
        ensures
            r == spec_mod_candidate(
                old(self).state.root,
                spec_draw_index(rng_state(old(self).rng), 4),
            ),
            r < 12,
            rng_state(final(self).rng) == rng_next(rng_state(old(self).rng)),
            *final(self) == (HarmonyManager { rng: final(self).rng, ..*old(self) }),
    {
        let idx = draw_index(&mut self.rng, 4);
        if idx == 0 {
            (self.state.root + 7) % 12
        } else if idx == 1 {
            (self.state.root + 5) % 12
        } else if idx == 2 {
            (self.state.root + 9) % 12
        } else {
            (self.state.root + 3) % 12
        }
    }

    /// Get a note from the current scale. There is no upper-range clamp:
    /// staying within pitch range is the caller's responsibility, which the
    /// octave bound keeps inside a byte.
    pub fn scale_note(&self, degree: usize, octave: u8) -> (note: u8)
        requires
            self.wf(),
            octave <= 19,
        ensures
            note == spec_scale_note(self.state, degree as int, octave as int),
    {
        proof {
            lemma_intervals_shape(self.state.mode);
        }
        let intervals = self.state.mode.intervals();
        let interval = intervals[degree % intervals.len()];
        self.state.root + interval + octave * 12
    }

    /// Get the triad notes for a given degree.
    pub fn chord_notes(&self, degree: ChordDegree, octave: u8) -> (notes: Vec<u8>)
        requires
            self.wf(),
            octave <= 19,
        ensures
            notes@ == spec_chord_notes(self.state, degree, octave as int),
            notes@.len() == 3,
    {
        proof {
            lemma_intervals_shape(self.state.mode);
        }
        let intervals = self.state.mode.intervals();
        let degree_idx: usize = match degree {
            ChordDegree::I => 0,
            ChordDegree::II => 1,
            ChordDegree::III => 2,
            ChordDegree::IV => 3,
            ChordDegree::V => 4,
            ChordDegree::VI => 5,
            ChordDegree::VII => 6,
        };

        let root = intervals[degree_idx % intervals.len()];
        let third = intervals[(degree_idx + 2) % intervals.len()];
        let fifth = intervals[(degree_idx + 4) % intervals.len()];

        let base = self.state.root + octave * 12;
        let notes = vec![base + root, base + third, base + fifth];
        proof {
            assert(notes@ =~= spec_chord_notes(self.state, degree, octave as int));
        }
        notes
    }
}

} // verus!
