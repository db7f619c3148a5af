//! Core data types of the musicalization engine.
//!
//! Defines input contracts (`InteractionFrame`, `InteractionEvent`) and
//! output contracts (`OutputFrame`, `MusicParams`, `MusicEvent`), together
//! with their spec-level models and well-formedness predicates.
use vstd::prelude::*;

verus! {

use crate::fixed::{UNIT, spec_clamp};
use crate::text::{str_ieq, str_ieq_exec, spec_lower_char};

/// Continuous input sampled once per display frame by the host.
///
/// All position values are micro-unit fixed-point numbers normalized to one
/// unit; a negative pointer coordinate is the sentinel for "no pointer".
#[derive(Debug, Clone, Copy, PartialEq, Eq, Structural)]
pub struct InteractionFrame {
    /// Timestamp in milliseconds.
    pub t_ms: u64,
    /// Viewport width in pixels.
    pub viewport_w: u32,
    /// Viewport height in pixels.
    pub viewport_h: u32,
    /// Pointer X position in `[0, 1]`, or negative for "no pointer active".
    pub pointer_x: i64,
    /// Pointer Y position in `[0, 1]`, or negative for "no pointer active".
    pub pointer_y: i64,
    /// Pointer speed in `[0, 1]`.
    pub pointer_speed: i64,
    /// Pointer button held down.
    pub pointer_down: bool,
    /// Scroll Y position in `[0, 1]`.
    pub scroll_y: i64,
    /// Scroll velocity in `[-1, 1]`.
    pub scroll_v: i64,
    /// Opaque hover element id (0 = no element).
    pub hover_id: u32,
    /// Current section/route index.
    pub section_id: u32,
    /// Window has focus.
    pub focus: bool,
    /// Browser tab is visible.
    pub tab_focused: bool,
    /// User prefers reduced motion.
    pub reduced_motion: bool,
}

impl InteractionFrame {
    /// The numeric fields are on the scales the engine expects.
    pub open spec fn wf(self) -> bool {
        &&& self.pointer_x <= UNIT
        &&& self.pointer_y <= UNIT
        &&& 0 <= self.pointer_speed <= UNIT
        &&& 0 <= self.scroll_y <= UNIT
        &&& -UNIT <= self.scroll_v <= UNIT
    }

    /// Both pointer coordinates carry data (no sentinel).
    pub open spec fn spec_has_pointer(self) -> bool {
        self.pointer_x >= 0 && self.pointer_y >= 0
    }

    /// Check whether pointer data is valid (not the sentinel value).
    pub fn has_pointer(&self) -> (r: bool)
        ensures
            r == self.spec_has_pointer(),
    {
        self.pointer_x >= 0 && self.pointer_y >= 0
    }
}

impl Default for InteractionFrame {
    /// An all-zero frame with no focus and no pointer motion.
    fn default() -> (r: Self)
        ensures
            r == (InteractionFrame {
                t_ms: 0u64,
                viewport_w: 0u32,
                viewport_h: 0u32,
                pointer_x: 0i64,
                pointer_y: 0i64,
                pointer_speed: 0i64,
                pointer_down: false,
                scroll_y: 0i64,
                scroll_v: 0i64,
                hover_id: 0u32,
                section_id: 0u32,
                focus: false,
                tab_focused: false,
                reduced_motion: false,
            }),
            r.wf(),
    {
        InteractionFrame {
            t_ms: 0,
            viewport_w: 0,
            viewport_h: 0,
            pointer_x: 0,
            pointer_y: 0,
            pointer_speed: 0,
            pointer_down: false,
            scroll_y: 0,
            scroll_v: 0,
            hover_id: 0,
            section_id: 0,
            focus: false,
            tab_focused: false,
            reduced_motion: false,
        }
    }
}

/// Discrete input event sent immediately on occurrence.
///
/// Coordinates and weights are micro-unit values; an absent weight defaults
/// to one unit.
#[derive(Debug, Clone, PartialEq, Eq, Structural)]
pub enum InteractionEvent {
    Click { x: i64, y: i64, target_id: u32, weight: Option<i64> },
    Nav { section_id: u32, weight: Option<i64> },
    HoverStart { hover_id: u32, weight: Option<i64> },
    HoverEnd { hover_id: u32, weight: Option<i64> },
}

impl InteractionEvent {
    /// Click coordinates are on the unit scale; other variants carry none.
    pub open spec fn wf(self) -> bool {
        match self {
            InteractionEvent::Click { x, y, .. } => 0 <= x <= UNIT && 0 <= y <= UNIT,
            _ => true,
        }
    }
}

/// The influence scalar of an event: the weight clamped into `[0, 1]`, one
/// unit when absent.
pub open spec fn spec_weight(w: Option<i64>) -> int {
    match w {
        Some(v) => spec_clamp(v as int, 0, UNIT as int),
        None => UNIT as int,
    }
}

/// Musical modes/scales supported by the engine.
#[derive(Debug, Clone, Copy, PartialEq, Eq, Structural, Default)]
pub enum Mode {
    #[default]
    Major,
    Minor,
    Dorian,
    Mixolydian,
    Lydian,
    Phrygian,
    PentatonicMajor,
    PentatonicMinor,
}

/// The interval table of a mode: semitone offsets from the root.
pub open spec fn spec_intervals(m: Mode) -> Seq<u8> {
    match m {
        Mode::Major => seq![0u8, 2u8, 4u8, 5u8, 7u8, 9u8, 11u8],
        Mode::Minor => seq![0u8, 2u8, 3u8, 5u8, 7u8, 8u8, 10u8],
        Mode::Dorian => seq![0u8, 2u8, 3u8, 5u8, 7u8, 9u8, 10u8],
        Mode::Mixolydian => seq![0u8, 2u8, 4u8, 5u8, 7u8, 9u8, 10u8],
        Mode::Lydian => seq![0u8, 2u8, 4u8, 6u8, 7u8, 9u8, 11u8],
        Mode::Phrygian => seq![0u8, 1u8, 3u8, 5u8, 7u8, 8u8, 10u8],
        Mode::PentatonicMajor => seq![0u8, 2u8, 4u8, 7u8, 9u8],
        Mode::PentatonicMinor => seq![0u8, 3u8, 5u8, 7u8, 10u8],
    }
}

/// Every interval table has five or seven entries, each under an octave.
pub proof fn lemma_intervals_shape(m: Mode)
    ensures
        spec_intervals(m).len() == 5 || spec_intervals(m).len() == 7,
        forall|i: int| 0 <= i < spec_intervals(m).len() ==> spec_intervals(m)[i] < 12,
{
    let ivs = spec_intervals(m);
    assert forall|i: int| 0 <= i < ivs.len() implies ivs[i] < 12 by {
        match m {
            Mode::Major => {},
            Mode::Minor => {},
            Mode::Dorian => {},
            Mode::Mixolydian => {},
            Mode::Lydian => {},
            Mode::Phrygian => {},
            Mode::PentatonicMajor => {},
            Mode::PentatonicMinor => {},
        }
    }
    match m {
        Mode::Major => {},
        Mode::Minor => {},
        Mode::Dorian => {},
        Mode::Mixolydian => {},
        Mode::Lydian => {},
        Mode::Phrygian => {},
        Mode::PentatonicMajor => {},
        Mode::PentatonicMinor => {},
    }
}

/// The mode a configuration name denotes, compared up to ASCII case.
pub open spec fn spec_mode_from_name(s: Seq<char>) -> Option<Mode> {
    if str_ieq(s, "major"@) {
        Some(Mode::Major)
    } else if str_ieq(s, "minor"@) {
        Some(Mode::Minor)
    } else if str_ieq(s, "dorian"@) {
        Some(Mode::Dorian)
    } else if str_ieq(s, "mixolydian"@) {
        Some(Mode::Mixolydian)
    } else if str_ieq(s, "lydian"@) {
        Some(Mode::Lydian)
    } else if str_ieq(s, "phrygian"@) {
        Some(Mode::Phrygian)
    } else if str_ieq(s, "pentatonic_major"@) || str_ieq(s, "pentatonic major"@) {
        Some(Mode::PentatonicMajor)
    } else if str_ieq(s, "pentatonic_minor"@) || str_ieq(s, "pentatonic minor"@) {
        Some(Mode::PentatonicMinor)
    } else {
        None
    }
}

impl Mode {
    /// Get the intervals for this mode (semitones from the root).
    pub fn intervals(&self) -> (r: Vec<u8>)
        ensures
            r@ == spec_intervals(*self),
            r@.len() == 5 || r@.len() == 7,
    {
        match self {
            Mode::Major => vec![0, 2, 4, 5, 7, 9, 11],
            Mode::Minor => vec![0, 2, 3, 5, 7, 8, 10],
            Mode::Dorian => vec![0, 2, 3, 5, 7, 9, 10],
            Mode::Mixolydian => vec![0, 2, 4, 5, 7, 9, 10],
            Mode::Lydian => vec![0, 2, 4, 6, 7, 9, 11],
            Mode::Phrygian => vec![0, 1, 3, 5, 7, 8, 10],
            Mode::PentatonicMajor => vec![0, 2, 4, 7, 9],
            Mode::PentatonicMinor => vec![0, 3, 5, 7, 10],
        }
    }

    /// Parse a mode from its configuration name, ignoring ASCII case.
    pub fn from_name(name: &str) -> (r: Option<Mode>)
        ensures
            r == spec_mode_from_name(name@),
    {
        if str_ieq_exec(name, "major") {
            Some(Mode::Major)
        } else if str_ieq_exec(name, "minor") {
            Some(Mode::Minor)
        } else if str_ieq_exec(name, "dorian") {
            Some(Mode::Dorian)
        } else if str_ieq_exec(name, "mixolydian") {
            Some(Mode::Mixolydian)
        } else if str_ieq_exec(name, "lydian") {
            Some(Mode::Lydian)
        } else if str_ieq_exec(name, "phrygian") {
            Some(Mode::Phrygian)
        } else if str_ieq_exec(name, "pentatonic_major") || str_ieq_exec(name, "pentatonic major") {
            Some(Mode::PentatonicMajor)
        } else if str_ieq_exec(name, "pentatonic_minor") || str_ieq_exec(name, "pentatonic minor") {
            Some(Mode::PentatonicMinor)
        } else {
            None
        }
    }
}

/// The pitch class a note name denotes: its base letter folded to lower
/// case, shifted by an optional sharp or flat sign, taken mod 12.
pub open spec fn spec_note_from_name(s: Seq<char>) -> Option<u8> {
    if s.len() == 0 {
        None
    } else {
        let l = spec_lower_char(s[0]);
        let base: int = if l == 'c' as u32 {
            0
        } else if l == 'd' as u32 {
            2
        } else if l == 'e' as u32 {
            4
        } else if l == 'f' as u32 {
            5
        } else if l == 'g' as u32 {
            7
        } else if l == 'a' as u32 {
            9
        } else if l == 'b' as u32 {
            11
        } else {
            -1
        };
        if base < 0 {
            None
        } else {
            let shift: int = if s.len() > 1 {
                if s[1] == '#' || s[1] == '\u{266f}' {
                    1
                } else if s[1] == 'b' || s[1] == '\u{266d}' {
                    -1int
                } else {
                    0
                }
            } else {
                0
            };
            let v = base + shift;
            if v < 0 {
                Some((v + 12) as u8)
            } else if v >= 12 {
                Some((v - 12) as u8)
            } else {
                Some(v as u8)
            }
        }
    }
}

/// Convert a note name to a pitch class number (C=0, C#=1, and so on).
///
/// Only the first letter and an optional `#`/`b` (or `♯`/`♭`) sign after it
/// are read; trailing characters are ignored.
pub fn note_name_to_num(name: &str) -> (r: Option<u8>)
    ensures
        r == spec_note_from_name(name@),
        r is Some ==> r->0 < 12,
{
    let n = name.unicode_len();
    if n == 0 {
        return None;
    }
    let c0 = name.get_char(0);
    let l = {
        let ci = c0 as u32;
        if 65 <= ci && ci <= 90 {
            ci + 32
        } else {
            ci
        }
    };
    let base: i32 = if l == 'c' as u32 {
        0
    } else if l == 'd' as u32 {
        2
    } else if l == 'e' as u32 {
        4
    } else if l == 'f' as u32 {
        5
    } else if l == 'g' as u32 {
        7
    } else if l == 'a' as u32 {
        9
    } else if l == 'b' as u32 {
        11
    } else {
        return None;
    };
    let shift: i32 = if n > 1 {
        let c1 = name.get_char(1);
        if c1 == '#' || c1 == '\u{266f}' {
            1
        } else if c1 == 'b' || c1 == '\u{266d}' {
            -1
        } else {
            0
        }
    } else {
        0
    };
    let v = base + shift;
    if v < 0 {
        Some((v + 12) as u8)
    } else if v >= 12 {
        Some((v - 12) as u8)
    } else {
        Some(v as u8)
    }
}

/// Current harmonic state: root pitch class, mode, and tension.
#[derive(Debug, Clone, Copy, PartialEq, Eq, Structural)]
pub struct HarmonyState {
    /// Root note (0-11, where 0 = C).
    pub root: u8,
    /// Current mode/scale.
    pub mode: Mode,
    /// Harmonic tension level in `[0, 1]` micro-units.
    pub tension: i64,
}

impl HarmonyState {
    /// The root is a pitch class and the tension is on the unit scale.
    pub open spec fn wf(self) -> bool {
        self.root < 12 && 0 <= self.tension <= UNIT
    }
}

impl Default for HarmonyState {
    /// C major with a tension of `0.3`.
    fn default() -> (r: Self)
        ensures
            r == (HarmonyState { root: 0u8, mode: Mode::Major, tension: 300_000i64 }),
            r.wf(),
    {
        HarmonyState { root: 0, mode: Mode::Major, tension: 300_000 }
    }
}

/// Continuous musical parameters, each in `[0, 1]` micro-units.
#[derive(Debug, Clone, Copy, PartialEq, Eq, Structural)]
pub struct MusicParams {
    /// Overall intensity / master level.
    pub master: i64,
    /// Harmonic richness / tonal warmth.
    pub warmth: i64,
    /// Filter cutoff proxy (higher = brighter).
    pub brightness: i64,
    /// Stereo spread / width.
    pub width: i64,
    /// Modulation depth / movement amount.
    pub motion: i64,
    /// Spatial depth / reverb send.
    pub reverb: i64,
    /// Voice or note activity level.
    pub density: i64,
    /// Harmonic complexity / tension level.
    pub tension: i64,
}

impl MusicParams {
    /// Every field is on the unit scale.
    pub open spec fn wf(self) -> bool {
        &&& 0 <= self.master <= UNIT
        &&& 0 <= self.warmth <= UNIT
        &&& 0 <= self.brightness <= UNIT
        &&& 0 <= self.width <= UNIT
        &&& 0 <= self.motion <= UNIT
        &&& 0 <= self.reverb <= UNIT
        &&& 0 <= self.density <= UNIT
        &&& 0 <= self.tension <= UNIT
    }
}

impl Default for MusicParams {
    /// All parameters at zero.
    fn default() -> (r: Self)
        ensures
            r == (MusicParams {
                master: 0i64,
                warmth: 0i64,
                brightness: 0i64,
                width: 0i64,
                motion: 0i64,
                reverb: 0i64,
                density: 0i64,
                tension: 0i64,
            }),
            r.wf(),
    {
        MusicParams {
            master: 0,
            warmth: 0,
            brightness: 0,
            width: 0,
            motion: 0,
            reverb: 0,
            density: 0,
            tension: 0,
        }
    }
}

/// Discrete musical events triggered by interactions.
///
/// Every variant carries a `salience` in `[0, 1]` indicating importance; the
/// host decides how to interpret it.
#[derive(Debug, Clone, PartialEq)]
pub enum MusicEvent {
    /// Short melodic gesture (click, tap).
    Pluck { note: u8, velocity: i64, salience: i64 },
    /// Sustained harmonic bed (section change, idle).
    PadChord { notes: Vec<u8>, velocity: i64, salience: i64 },
    /// Key/mode transition marker.
    Cadence { to_root: u8, to_mode: Mode, salience: i64 },
    /// Rhythmic emphasis without pitch.
    Accent { strength: i64, salience: i64 },
    /// Fade out / silence trigger.
    Mute { on: bool, salience: i64 },
}

/// Spec-level model of a musical event, with chord notes as a sequence.
pub enum EventModel {
    Pluck { note: u8, velocity: int, salience: int },
    PadChord { notes: Seq<u8>, velocity: int, salience: int },
    Cadence { to_root: u8, to_mode: Mode, salience: int },
    Accent { strength: int, salience: int },
    Mute { on: bool, salience: int },
}

/// The salience a modeled event carries.
pub open spec fn spec_event_salience(e: EventModel) -> int {
    match e {
        EventModel::Pluck { salience, .. } => salience,
        EventModel::PadChord { salience, .. } => salience,
        EventModel::Cadence { salience, .. } => salience,
        EventModel::Accent { salience, .. } => salience,
        EventModel::Mute { salience, .. } => salience,
    }
}

/// A modeled event is well formed when its salience is on the unit scale.
pub open spec fn event_model_wf(e: EventModel) -> bool {
    0 <= spec_event_salience(e) <= UNIT
}

/// Every event of a modeled output list is well formed.
pub open spec fn events_wf(s: Seq<EventModel>) -> bool {
    forall|i: int| 0 <= i < s.len() ==> event_model_wf(#[trigger] s[i])
}

impl MusicEvent {
    /// The spec-level model of this event.
    pub open spec fn model(self) -> EventModel {
        match self {
            MusicEvent::Pluck { note, velocity, salience } => EventModel::Pluck {
                note,
                velocity: velocity as int,
                salience: salience as int,
            },
            MusicEvent::PadChord { notes, velocity, salience } => EventModel::PadChord {
                notes: notes@,
                velocity: velocity as int,
                salience: salience as int,
            },
            MusicEvent::Cadence { to_root, to_mode, salience } => EventModel::Cadence {
                to_root,
                to_mode,
                salience: salience as int,
            },
            MusicEvent::Accent { strength, salience } => EventModel::Accent {
                strength: strength as int,
                salience: salience as int,
            },
            MusicEvent::Mute { on, salience } => EventModel::Mute { on, salience: salience as int },
        }
    }

    /// Get the salience value for this event.
    pub fn salience(&self) -> (s: i64)
        ensures
            s == spec_event_salience(self.model()),
    {
        match self {
            MusicEvent::Pluck { salience, .. } => *salience,
            MusicEvent::PadChord { salience, .. } => *salience,
            MusicEvent::Cadence { salience, .. } => *salience,
            MusicEvent::Accent { salience, .. } => *salience,
            MusicEvent::Mute { salience, .. } => *salience,
        }
    }
}

/// The note held while the pointer stays down.
#[derive(Debug, Clone, Copy, PartialEq, Eq, Structural)]
pub struct HoldState {
    /// Held pitch.
    pub note: u8,
    /// Held velocity in `[0, 1]` micro-units.
    pub velocity: i64,
}

/// Diagnostic output for debugging and visualization.
///
/// Purely observational: it never feeds back into engine state.
#[derive(Debug, Clone, Copy, PartialEq)]
pub struct DiagnosticOutput {
    /// Current key (0-11, where 0 = C).
    pub key: u8,
    /// Current mode as a numeric value.
    pub mode: u8,
    /// Current chord degree (0-6 for I-VII).
    pub chord: u8,
    /// Raw (unsmoothed) activity value.
    pub raw_activity: i64,
    /// Current smoothing attack coefficient.
    pub smoothing_attack: i64,
    /// Current smoothing release coefficient.
    pub smoothing_release: i64,
    /// Pending modulation target (if any).
    pub pending_modulation: Option<(u8, Mode)>,
    /// Time since the last event (ms).
    pub time_since_event: u64,
}

/// Output from the engine: continuous parameters plus discrete events.
#[derive(Debug, Clone, PartialEq)]
pub struct OutputFrame {
    /// Smoothed continuous musical parameters.
    pub params: MusicParams,
    /// Current harmonic state snapshot.
    pub harmony: HarmonyState,
    /// Discrete musical events triggered this frame.
    pub events: Vec<MusicEvent>,
    /// Held note while the pointer is down.
    pub hold: Option<HoldState>,
    /// Optional diagnostic output for debugging/visualization.
    pub diagnostics: Option<DiagnosticOutput>,
}

/// Spec-level model of an output frame.
pub struct OutModel {
    pub params: MusicParams,
    pub harmony: HarmonyState,
    pub events: Seq<EventModel>,
    pub hold: Option<HoldState>,
    pub diagnostics: Option<DiagnosticOutput>,
}

impl OutputFrame {
    /// The spec-level model of this output frame.
    pub open spec fn model(self) -> OutModel {
        OutModel {
            params: self.params,
            harmony: self.harmony,
            events: self.events@.map_values(|e: MusicEvent| e.model()),
            hold: self.hold,
            diagnostics: self.diagnostics,
        }
    }
}

impl Default for OutputFrame {
    /// Zero parameters, default harmony, no events, no hold, no diagnostics.
    fn default() -> (r: Self)
        ensures
            r.model() == spec_default_out(),
    {
        let r = OutputFrame {
            params: MusicParams::default(),
            harmony: HarmonyState::default(),
            events: Vec::new(),
            hold: None,
            diagnostics: None,
        };
        proof {
            assert(r.model().events =~= spec_default_out().events);
            assert(r.model() == spec_default_out());
        }
        r
    }
}

/// The model of the output frame the engine returns while disabled.
pub open spec fn spec_default_out() -> OutModel {
    OutModel {
        params: MusicParams {
            master: 0i64,
            warmth: 0i64,
            brightness: 0i64,
            width: 0i64,
            motion: 0i64,
            reverb: 0i64,
            density: 0i64,
            tension: 0i64,
        },
        harmony: HarmonyState { root: 0u8, mode: Mode::Major, tension: 300_000i64 },
        events: Seq::empty(),
        hold: None,
        diagnostics: None,
    }
}

} // verus!
