//! Retain: a spectral filter that keeps (or removes) the strongest
//! frequency bins of a signal.
//!
//! This crate holds the verified core of the effect: window sizes and window
//! types, the framing of a stream into overlapping windows, the selection of
//! the bins with the largest magnitudes, and the parameter state.

pub mod window_size;
pub mod window_type;
pub mod retain;
pub mod window_function;
pub mod windowed_fft;
pub mod params;
pub mod messages;
pub mod settings;
pub mod magnitude;
