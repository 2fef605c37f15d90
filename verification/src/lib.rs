//! Synthesis core of a monophonic drone synthesizer voice.
//!
//! The crate covers the ADSR (attack-decay-sustain-release) envelope state
//! machine, the equal-tempered pitch mapping of MIDI notes, and the additive
//! oscillator bank that renders the voice's samples. All quantities are held
//! in fixed-point integers: times in nanoseconds, levels and frequency
//! multipliers in millionths, frequencies in millihertz.

pub mod adsr;
pub mod midi;
pub mod voice;

use vstd::prelude::*;

verus! {

/// Fixed-point one for levels, multipliers and envelope amplitudes: values are
/// counted in millionths, so `LEVEL_ONE` stands for 1.0.
pub const LEVEL_ONE: u64 = 1_000_000;

/// Times are counted in nanoseconds.
pub const NANOS_PER_SECOND: u64 = 1_000_000_000;

} // verus!

