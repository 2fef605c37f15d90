//! MIDI note numbers and their equal-tempered frequencies.

use vstd::prelude::*;

verus! {

/// A MIDI note number. The playable domain is 0 to 127; A4 (concert pitch,
/// 440 Hz) is note 69.
#[derive(Debug, Clone, Copy, PartialEq, Eq, Structural)]
pub struct MidiNote(pub u8);

/// Frequency of A4 (note 69) in millihertz.
pub const A4_MILLIHZ: u64 = 440_000;

/// Fixed-point scale of the semitone ratio table: `semitone_ratio_num(0)`
/// equals this constant, so a ratio of 1.0 is exact.
pub const RATIO_DEN: u64 = 1_000_000_000;

/// Numerator of the equal-tempered ratio `2^(r/12)` over `RATIO_DEN`,
/// for `r` in 0..12. `r == 0` maps to exactly `RATIO_DEN`, so octave
/// relations relative to A4 stay exact.
pub open spec fn spec_semitone_ratio_num(r: int) -> int {
    if r == 0 {
        1_000_000_000
    } else if r == 1 {
        1_059_463_094
    } else if r == 2 {
        1_122_462_048
    } else if r == 3 {
        1_189_207_115
    } else if r == 4 {
        1_259_921_050
    } else if r == 5 {
        1_334_839_854
    } else if r == 6 {
        1_414_213_562
    } else if r == 7 {
        1_498_307_077
    } else if r == 8 {
        1_587_401_052
    } else if r == 9 {
        1_681_792_831
    } else if r == 10 {
        1_781_797_436
    } else {
        1_887_748_625
    }
}

/// Equal-tempered frequency of a note in millihertz: `440_000 * 2^((note - 69) / 12)`,
/// evaluated in fixed point. The note index is shifted by 75 so that the
/// octave index and the semitone remainder are both nonnegative; A4 lands on
/// octave index 12 with remainder 0.
pub open spec fn spec_frequency_millihz(note: int) -> int {
    let idx = note + 75;
    let oct = idx / 12;
    let r = idx % 12;
    let base = A4_MILLIHZ * spec_semitone_ratio_num(r) / (RATIO_DEN as int);
    if oct >= 12 {
        if oct == 12 {
            base
        } else if oct == 13 {
            base * 2
        } else if oct == 14 {
            base * 4
        } else if oct == 15 {
            base * 8
        } else {
            base * 16
        }
    } else {
        if oct == 11 {
            base / 2
        } else if oct == 10 {
            base / 4
        } else if oct == 9 {
            base / 8
        } else if oct == 8 {
            base / 16
        } else if oct == 7 {
            base / 32
        } else {
            base / 64
        }
    }
}

/// Numerator of the equal-tempered semitone ratio `2^(r/12)` in units of
/// `RATIO_DEN`.
fn semitone_ratio_num(r: u32) -> (n: u64)
    requires
        r < 12,
    ensures
        n == spec_semitone_ratio_num(r as int),
{
    match r {
        0 => 1_000_000_000,
        1 => 1_059_463_094,
        2 => 1_122_462_048,
        3 => 1_189_207_115,
        4 => 1_259_921_050,
        5 => 1_334_839_854,
        6 => 1_414_213_562,
        7 => 1_498_307_077,
        8 => 1_587_401_052,
        9 => 1_681_792_831,
        10 => 1_781_797_436,
        _ => 1_887_748_625,
    }
}

impl MidiNote {
    /// Convert the note's pitch into the equivalent frequency, in millihertz.
    ///
    /// Assumes A4 (note 69) is 440 Hz and scales by a fixed-point
    /// equal-tempered semitone ratio; whole octaves away from A4 are exact.
    pub fn frequency(&self) -> (freq: u64)
        requires
            self.0 < 128,
        ensures
            freq == spec_frequency_millihz(self.0 as int),
    {
        let idx: u32 = self.0 as u32 + 75;
        let oct: u32 = idx / 12;
        let r: u32 = idx % 12;
        let base: u64 = A4_MILLIHZ * semitone_ratio_num(r) / RATIO_DEN;
        if oct >= 12 {
            if oct == 12 {
                base
            } else if oct == 13 {
                base * 2
            } else if oct == 14 {
                base * 4
            } else if oct == 15 {
                base * 8
            } else {
                base * 16
            }
        } else {
            if oct == 11 {
                base / 2
            } else if oct == 10 {
                base / 4
            } else if oct == 9 {
                base / 8
            } else if oct == 8 {
                base / 16
            } else if oct == 7 {
                base / 32
            } else {
                base / 64
            }
        }
    }
}

/// The frequency mapping hits the reference points of equal temperament:
/// A4 is 440 Hz, the note an octave above is 880 Hz, and the note an octave
/// below is 220 Hz, all exactly.
pub proof fn lemma_frequency_octaves()
    ensures
        spec_frequency_millihz(69) == 440_000,
        spec_frequency_millihz(81) == 880_000,
        spec_frequency_millihz(57) == 220_000,
{
}

} // verus!
