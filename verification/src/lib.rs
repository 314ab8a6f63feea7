//! A verified safety and lifecycle layer for the Flite speech synthesis engine.
//!
//! The engine is native code that keeps its state in globals, reports failure
//! by status codes and null addresses, and leaves the destruction of what it
//! allocates to its caller. Nothing in this crate calls it. Every operation is
//! split in two instead: a function whose name ends in `_call` validates the
//! inputs and says which engine entry point a driver has to invoke and with
//! what, and a function named after the operation takes what the engine
//! answered and turns it into a typed result. Both halves are proved against
//! contracts over plain mathematical models, as are the rules that govern the
//! one-time initialization of the engine and the custody of its resources.

pub mod duration;
pub mod engine;
pub mod error;
pub mod init;
pub mod locator;
pub mod model;
pub mod output_kind;
pub mod text;
pub mod voice;
pub mod wave_sample;

pub use duration::SpeechDuration;
pub use engine::{EngineCall, Language, UttCallback, VoiceReply, WaveReply};
pub use error::{FliteError, FliteResult};
pub use init::{InitEvent, InitGuard, InitOutcome, InitState};
pub use model::Flite;
pub use output_kind::FliteOutputKind;
pub use text::CText;
pub use voice::FliteVoice;
pub use wave_sample::FliteWaveSample;
