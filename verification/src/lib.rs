//! Verified core of the FluidAudio bindings.
pub mod error;
pub mod kokoro;
pub mod text;
pub mod units;
pub mod diarize;
pub mod session;
pub mod marshal;
