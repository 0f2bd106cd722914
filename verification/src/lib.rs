//! Fixed-point audio synthesis: waveform generation, ADSR envelopes,
//! one-pole tone filtering, channel mixing, and a PCM container codec.
//!
//! All signal math is done in exact integer arithmetic. Scalar knobs
//! (amplitude, volume, gain, filter blend, envelope level) are stored in
//! parts per million of full scale, frequencies in millihertz, and times
//! in microseconds or milliseconds, so every sample value is a defined
//! function of the inputs.

pub mod bpm;
pub mod channel;
pub mod envelope;
pub mod filter;
pub mod mixer;
pub mod modulation;
pub mod hertz;
pub mod num;
pub mod oscillator;
pub mod pcm;
pub mod tempo;
pub mod time_signature;
pub mod track;
pub mod wave;

use vstd::prelude::*;

verus! {

/// Errors raised by the synthesis core. Invalid knob positions are
/// silently clamped and never reported here; only malformed protocol
/// input (bad generation parameters, mismatched buffer lengths,
/// unparseable container bytes) is an error.
#[derive(Clone, Copy, Debug, PartialEq, Eq, Structural)]
pub enum SynthError {
    InvalidParameter,
}

} // verus!
