//! Event generation from interactions.
//!
//! Converts interaction events and state changes into musical events, gated
//! by a pacing timer and a density draw.
use vstd::prelude::*;

verus! {

use crate::fixed::{UNIT, spec_clamp, spec_abs, spec_mul_unit, spec_sat_add_u64, clamp_i64,
    mul_unit, abs_i64};
use crate::rng::{rng_state, rng_next, spec_draw_unit, spec_draw_index, rng_with_seed, draw_unit,
    draw_index};
use crate::harmony::{ChordDegree, HarmonyManager, HarmonyModel, Preset, spec_chord_notes,
    spec_scale_note, spec_harmony_step, spec_event_density};
use crate::types::{EventModel, HarmonyState, InteractionEvent, MusicEvent, events_wf};

/// The chord degree a section index maps to: I, IV, V or VI in turn.
pub open spec fn spec_degree_for_section(section_id: u32) -> ChordDegree {
    if section_id % 4 == 0 {
        ChordDegree::I
    } else if section_id % 4 == 1 {
        ChordDegree::IV
    } else if section_id % 4 == 2 {
        ChordDegree::V
    } else {
        ChordDegree::VI
    }
}

/// The pluck a click at `(x, y)` produces: louder and lower-octave toward
/// the top, degree picked from the horizontal position, salience highest at
/// the center. The octave offset is `y` doubled and rounded to nearest,
/// capped at two.
pub open spec fn spec_click_pluck(h: HarmonyState, x: int, y: int) -> EventModel {
    let velocity = 500_000 + spec_mul_unit(UNIT - y, 300_000);
    let rounded: int = (2 * y + 500_000) / (UNIT as int);
    let octave: int = 3 + if rounded > 2 {
        2int
    } else {
        rounded
    };
    let degree: int = if 5 * x / (UNIT as int) > 4 {
        4int
    } else {
        5 * x / (UNIT as int)
    };
    let center_dist = (spec_abs(x - 500_000) + spec_abs(y - 500_000)) / 2;
    EventModel::Pluck {
        note: spec_scale_note(h, degree, octave) as u8,
        velocity,
        salience: spec_mul_unit(UNIT - center_dist, velocity),
    }
}

/// The pad chord a navigation to `section_id` produces.
pub open spec fn spec_nav_chord(
    h: HarmonyState,
    section_id: u32,
    velocity: int,
    salience: int,
) -> EventModel {
    EventModel::PadChord {
        notes: spec_chord_notes(h, spec_degree_for_section(section_id), 3),
        velocity,
        salience,
    }
}

/// Spec-level model of an event generator, with the generator state made
/// explicit.
pub struct PacerModel {
    pub rng: u64,
    pub timer: u64,
    pub min_interval: u64,
    pub density: i64,
    pub last_section: u32,
    pub last_hover: u32,
}

/// What processing one discrete interaction event does to the generator,
/// and which musical events come out.
pub open spec fn spec_process_event(m: PacerModel, e: InteractionEvent, h: HarmonyState) -> (
    PacerModel,
    Seq<EventModel>,
) {
    match e {
        InteractionEvent::Click { x, y, .. } => (
            m,
            seq![spec_click_pluck(h, x as int, y as int)],
        ),
        InteractionEvent::Nav { section_id, .. } => (
            m,
            seq![spec_nav_chord(h, section_id, 400_000, 800_000)],
        ),
        InteractionEvent::HoverStart { hover_id, .. } => {
            if hover_id != m.last_hover && m.timer > m.min_interval {
                let rng1 = rng_next(m.rng);
                if spec_draw_unit(m.rng) < m.density {
                    let degree = spec_draw_index(rng1, 5);
                    (
                        PacerModel { rng: rng_next(rng1), last_hover: hover_id, ..m },
                        seq![
                            EventModel::Pluck {
                                note: spec_scale_note(h, degree, 4) as u8,
                                velocity: 200_000,
                                salience: 300_000,
                            },
                        ],
                    )
                } else {
                    (PacerModel { rng: rng1, ..m }, Seq::empty())
                }
            } else {
                (m, Seq::empty())
            }
        },
        InteractionEvent::HoverEnd { .. } => (m, Seq::empty()),
    }
}

/// What one per-frame update does to the generator and the harmony manager,
/// and which musical events come out: the timer accumulates, a section
/// change emits a pad chord and resets it, a harmony modulation emits a
/// cadence, and high activity may emit a gated accent.
pub open spec fn spec_pacer_step(
    m: PacerModel,
    dt_ms: u64,
    section_id: u32,
    hover_id: u32,
    activity: i64,
    h: HarmonyModel,
) -> (PacerModel, HarmonyModel, Seq<EventModel>) {
    let timer1 = spec_sat_add_u64(m.timer, dt_ms);
    let section_changed = section_id != m.last_section;
    let timer2: u64 = if section_changed {
        0u64
    } else {
        timer1
    };
    let ev1: Seq<EventModel> = if section_changed {
        seq![spec_nav_chord(h.state, section_id, 500_000, 900_000)]
    } else {
        Seq::empty()
    };
    let stepped = spec_harmony_step(h, dt_ms, activity);
    let h2 = stepped.0;
    let ev2: Seq<EventModel> = match stepped.1 {
        Some(t) => ev1.push(
            EventModel::Cadence { to_root: t.0, to_mode: t.1, salience: 700_000 },
        ),
        None => ev1,
    };
    if activity > 700_000 && timer2 > m.min_interval {
        let rng1 = rng_next(m.rng);
        if spec_draw_unit(m.rng) < m.density {
            let rng2 = rng_next(rng1);
            if spec_draw_unit(rng1) < spec_mul_unit(activity as int, 100_000) {
                (
                    PacerModel {
                        rng: rng2,
                        timer: 0u64,
                        last_section: section_id,
                        last_hover: hover_id,
                        ..m
                    },
                    h2,
                    ev2.push(
                        EventModel::Accent {
                            strength: activity as int,
                            salience: spec_mul_unit(activity as int, 600_000),
                        },
                    ),
                )
            } else {
                (
                    PacerModel {
                        rng: rng2,
                        timer: timer2,
                        last_section: section_id,
                        last_hover: hover_id,
                        ..m
                    },
                    h2,
                    ev2,
                )
            }
        } else {
            (
                PacerModel {
                    rng: rng1,
                    timer: timer2,
                    last_section: section_id,
                    last_hover: hover_id,
                    ..m
                },
                h2,
                ev2,
            )
        }
    } else {
        (
            PacerModel { timer: timer2, last_section: section_id, last_hover: hover_id, ..m },
            h2,
            ev2,
        )
    }
}

/// Generates musical events from interactions.
#[derive(Debug)]
pub struct EventGenerator {
    /// Generator for event decisions.
    pub rng: fastrand::Rng,
    /// Time since the last event (ms).
    pub time_since_event: u64,
    /// Minimum time between gated events (ms).
    pub min_event_interval: u64,
    /// Current event density in `[0, 1]` micro-units.
    pub event_density: i64,
    /// Last section id (for detecting changes).
    pub last_section_id: u32,
    /// Last hover id (for detecting changes).
    pub last_hover_id: u32,
}

impl EventGenerator {
    /// The spec-level model of this generator.
    pub open spec fn model(self) -> PacerModel {
        PacerModel {
            rng: rng_state(self.rng),
            timer: self.time_since_event,
            min_interval: self.min_event_interval,
            density: self.event_density,
            last_section: self.last_section_id,
            last_hover: self.last_hover_id,
        }
    }

    /// The density is on the unit scale.
    pub open spec fn wf(self) -> bool {
        0 <= self.event_density <= UNIT
    }

    /// Create a new event generator.
    pub fn new(seed: u64) -> (r: EventGenerator)
        ensures
            r.model() == (PacerModel {
                rng: seed,
                timer: 0u64,
                min_interval: 100u64,
                density: 600_000i64,
                last_section: 0u32,
                last_hover: 0u32,
            }),
            r.wf(),
    {
        EventGenerator {
            rng: rng_with_seed(seed),
            time_since_event: 0,
            min_event_interval: 100,
            event_density: 600_000,
            last_section_id: 0,
            last_hover_id: 0,
        }
    }

    /// Set the event density, clamped into `[0, 1]`. Lower means fewer
    /// events.
    pub fn set_density(&mut self, density: i64)
        ensures
            final(self).model() == (PacerModel {
                density: spec_clamp(density as int, 0, UNIT as int) as i64,
                ..old(self).model()
            }),
            final(self).wf(),
    {
        self.event_density = clamp_i64(density, 0, UNIT);
    }

    /// Apply preset settings: the density snaps to the preset baseline.
    pub fn apply_preset(&mut self, preset: Preset)
        ensures
            final(self).model() == (PacerModel {
                density: spec_event_density(preset),
                ..old(self).model()
            }),
            final(self).wf(),
    {
        self.event_density = preset.event_density();
    }

    /// Apply reduced motion: entering it thins the density to three tenths
    /// and widens the pacing interval; leaving it restores the interval
    /// only.
    pub fn apply_reduced_motion(&mut self, reduced: bool)
        requires
            old(self).wf(),
        ensures
            reduced ==> final(self).model() == (PacerModel {
                density: spec_mul_unit(old(self).event_density as int, 300_000) as i64,
                min_interval: 300u64,
                ..old(self).model()
            }),
            !reduced ==> final(self).model() == (PacerModel {
                min_interval: 100u64,
                ..old(self).model()
            }),
            final(self).wf(),
    {
        if reduced {
            self.event_density = mul_unit(self.event_density, 300_000);
            self.min_event_interval = 300;
        } else {
            self.min_event_interval = 100;
        }
    }

    /// Check whether a gated event may fire: the pacing interval has passed
    /// and a density draw succeeds. The draw happens only once the interval
    /// has passed.
    fn should_emit_event(&mut self) -> (r: bool)
        ensures
            *final(self) == (EventGenerator { rng: final(self).rng, ..*old(self) }),
            old(self).time_since_event > old(self).min_event_interval ==> {
                &&& rng_state(final(self).rng) == rng_next(rng_state(old(self).rng))
                &&& r == (spec_draw_unit(rng_state(old(self).rng)) < old(self).event_density)
            },
            old(self).time_since_event <= old(self).min_event_interval ==> {
                &&& rng_state(final(self).rng) == rng_state(old(self).rng)
                &&& r == false
            },
    {
        if self.time_since_event > self.min_event_interval {
            let d = draw_unit(&mut self.rng);
            d < self.event_density
        } else {
            false
        }
    }

    /// Process a discrete interaction event and generate musical events.
    pub fn process_event(&mut self, event: &InteractionEvent, harmony: &HarmonyManager) -> (r:
        Vec<MusicEvent>)
        requires
            old(self).wf(),
            event.wf(),
            harmony.wf(),
        ensures
            final(self).model() == spec_process_event(
                old(self).model(),
                *event,
                harmony.state,
            ).0,
            r@.map_values(|e: MusicEvent| e.model()) == spec_process_event(
                old(self).model(),
                *event,
                harmony.state,
            ).1,
            final(self).wf(),
            events_wf(r@.map_values(|e: MusicEvent| e.model())),
    {
        let ghost spec_result = spec_process_event(old(self).model(), *event, harmony.state);
        let mut events: Vec<MusicEvent> = Vec::new();

        match event {
            InteractionEvent::Click { x, y, .. } => {
                let velocity = 500_000 + mul_unit(UNIT - *y, 300_000);
                let y2 = (2 * *y + 500_000) / UNIT;
                let octave: u8 = 3 + (if y2 > 2 {
                    2
                } else {
                    y2 as u8
                });
                let x5 = 5 * *x / UNIT;
                let degree: usize = if x5 > 4 {
                    4
                } else {
                    x5 as usize
                };
                let note = harmony.scale_note(degree, octave);

                let center_dist = (abs_i64(*x - 500_000) + abs_i64(*y - 500_000)) / 2;
                let salience = mul_unit(UNIT - center_dist, velocity);

                events.push(MusicEvent::Pluck { note, velocity, salience });
                proof {
                    assert(events@.map_values(|e: MusicEvent| e.model()) =~= spec_result.1);
                }
            },
            InteractionEvent::Nav { section_id, .. } => {
                let degree = section_degree(*section_id);
                let notes = harmony.chord_notes(degree, 3);
                events.push(
                    MusicEvent::PadChord { notes, velocity: 400_000, salience: 800_000 },
                );
                proof {
                    assert(events@.map_values(|e: MusicEvent| e.model()) =~= spec_result.1);
                }
            },
            InteractionEvent::HoverStart { hover_id, .. } => {
                if *hover_id != self.last_hover_id && self.should_emit_event() {
                    let degree = draw_index(&mut self.rng, 5);
                    let note = harmony.scale_note(degree, 4);
                    events.push(
                        MusicEvent::Pluck { note, velocity: 200_000, salience: 300_000 },
                    );
                    self.last_hover_id = *hover_id;
                    proof {
                        assert(events@.map_values(|e: MusicEvent| e.model()) =~= spec_result.1);
                    }
                } else {
                    proof {
                        assert(events@.map_values(|e: MusicEvent| e.model()) =~= spec_result.1);
                    }
                }
            },
            InteractionEvent::HoverEnd { .. } => {
                proof {
                    assert(events@.map_values(|e: MusicEvent| e.model()) =~= spec_result.1);
                }
            },
        }
        events
    }

    /// Update the internal pacing state (call once per frame) and generate
    /// the frame's musical events.
    pub fn update(
        &mut self,
        dt_ms: u64,
        section_id: u32,
        hover_id: u32,
        activity: i64,
        harmony: &mut HarmonyManager,
    ) -> (r: Vec<MusicEvent>)
        requires
            old(self).wf(),
            old(harmony).wf(),
            0 <= activity <= UNIT,
        ensures
            ({
                let stepped = spec_pacer_step(
                    old(self).model(),
                    dt_ms,
                    section_id,
                    hover_id,
                    activity,
                    old(harmony).model(),
                );
                &&& final(self).model() == stepped.0
                &&& final(harmony).model() == stepped.1
                &&& r@.map_values(|e: MusicEvent| e.model()) == stepped.2
            }),
            final(self).wf(),
            final(harmony).wf(),
            events_wf(r@.map_values(|e: MusicEvent| e.model())),
    {
        let ghost stepped = spec_pacer_step(
            old(self).model(),
            dt_ms,
            section_id,
            hover_id,
            activity,
            old(harmony).model(),
        );
        self.time_since_event = self.time_since_event.saturating_add(dt_ms);
        let mut events: Vec<MusicEvent> = Vec::new();

        if section_id != self.last_section_id {
            let degree = section_degree(section_id);
            let notes = harmony.chord_notes(degree, 3);
            events.push(MusicEvent::PadChord { notes, velocity: 500_000, salience: 900_000 });
            self.last_section_id = section_id;
            self.time_since_event = 0;
        }

        if let Some((to_root, to_mode)) = harmony.update(dt_ms, activity) {
            events.push(MusicEvent::Cadence { to_root, to_mode, salience: 700_000 });
        }

        if activity > 700_000 && self.should_emit_event() {
            let d = draw_unit(&mut self.rng);
            if d < mul_unit(activity, 100_000) {
                events.push(
                    MusicEvent::Accent {
                        strength: activity,
                        salience: mul_unit(activity, 600_000),
                    },
                );
                self.time_since_event = 0;
            }
        }

        self.last_hover_id = hover_id;
        proof {
            assert(events@.map_values(|e: MusicEvent| e.model()) =~= stepped.2);
        }
        events
    }

    /// Get the time since the last event (for diagnostics).
    pub fn time_since_event(&self) -> (t: u64)
        ensures
            t == self.time_since_event,
    {
        self.time_since_event
    }
}

/// Map a section index to its chord degree: I, IV, V or VI in turn.
fn section_degree(section_id: u32) -> (d: ChordDegree)
    ensures
        d == spec_degree_for_section(section_id),
{
    let m = section_id % 4;
    if m == 0 {
        ChordDegree::I
    } else if m == 1 {
        ChordDegree::IV
    } else if m == 2 {
        ChordDegree::V
    } else {
        ChordDegree::VI
    }
}

} // verus!
