//! Verified core of a live audio capture engine: a bounded sample window, the
//! device catalog's decisions, stream configuration, downmixing and the
//! start/stop lifecycle of a capture session.
pub mod error;
pub mod lifecycle;
pub mod manager;
pub mod recognition;
pub mod ring_buffer;
pub mod stream;

pub use error::{handle_error, RustError};
