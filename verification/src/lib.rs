//! Streaming contract core for an audio time-stretching and pitch-shifting
//! engine.
//!
//! The frequency-domain work (phase-vocoder analysis and resynthesis) is done
//! by an opaque native engine instance. This crate holds everything around
//! that instance that can be stated and checked exactly: how a handle is
//! configured and constructed, how duplication and reset relate a handle's
//! state to a freshly built one, and the frame accounting that turns the
//! length of an interleaved sample buffer into the frame count handed to the
//! engine on every `process`, `seek` and `flush` call.

mod config;
mod handle;
mod laws;
mod model;

pub use config::Config;
pub use config::ConfigError;
pub use handle::Stretch;
pub use model::StreamCall;
pub use model::StreamOp;
pub use model::StretchModel;
