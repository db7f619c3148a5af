//! Core musicalization engine: turns a stream of UI interaction telemetry
//! into smoothed musical control parameters and discrete musical events.
//!
//! The engine receives interaction data (pointer position, scroll, clicks)
//! once per display frame and outputs smoothed musical parameters plus
//! discrete musical events that can drive any audio synthesis layer:
//!
//! ```text
//! InteractionFrame/Event -> Engine -> OutputFrame (params + events)
//! ```
//!
//! All continuous quantities (positions, speeds, parameter levels, tension,
//! velocities, saliences) are fixed-point values in micro-units: the
//! integer `1_000_000` stands for `1.0`. See [`fixed::UNIT`].
//!
//! Every public operation carries a contract that pins its result as a
//! function of the engine's model, so a session replayed with the same
//! seed, preset and ordered call sequence is provably bit-reproducible.
pub mod fixed;
pub mod rng;
pub mod text;
pub mod types;
pub mod smoothing;
pub mod harmony;
pub mod events;
pub mod engine;

pub use types::{
    DiagnosticOutput, EventModel, HarmonyState, HoldState, InteractionEvent, InteractionFrame,
    Mode, MusicEvent, MusicParams, OutModel, OutputFrame,
};
pub use engine::Engine;
pub use harmony::Preset;
