//! The voice: an oscillator bank driven by the envelope generator.
//!
//! A sample is rendered by summing a base sawtooth-like oscillator with two
//! detuned, independently leveled oscillators and multiplying the mix by the
//! envelope's amplitude. One note sounds at a time; a new note-on replaces the
//! previous voice's pitch and retriggers the envelope.

use vstd::prelude::*;

use crate::LEVEL_ONE;
use crate::NANOS_PER_SECOND;
use crate::adsr::AdsrEnvelope;
use crate::adsr::AdsrParams;
use crate::adsr::AdsrState;
use crate::adsr::spec_amp;
use crate::adsr::spec_release;
use crate::adsr::spec_step;
use crate::adsr::lemma_amp_in_range;
use crate::adsr::lemma_sample_idempotent;
use crate::midi::MidiNote;
use crate::midi::spec_frequency_millihz;

verus! {

use vstd::arithmetic::div_mod::lemma_div_is_ordered;
use vstd::arithmetic::div_mod::lemma_div_multiples_vanish;
use vstd::arithmetic::div_mod::lemma_div_non_zero;
use vstd::arithmetic::div_mod::lemma_div_nonincreasing;
use vstd::arithmetic::div_mod::lemma_div_pos_is_pos;
use vstd::arithmetic::div_mod::lemma_mul_mod_noop_left;
use vstd::arithmetic::mul::lemma_mul_inequality;
use vstd::arithmetic::mul::lemma_mul_nonnegative;
use vstd::arithmetic::mul::lemma_mul_upper_bound;

/// One full oscillator cycle in phase grains. A phase grain is the product of
/// a time in nanoseconds, a frequency in millihertz and a multiplier in
/// millionths: 10^-18 of a cycle.
pub const PHASE_WRAP: u64 = 1_000_000_000_000_000_000;

/// Phase grains per millionth of a cycle.
pub const PHASE_GRAIN: u64 = 1_000_000_000_000;

/// Half of full level, in millionths: the raw oscillator wave is centered by
/// subtracting it.
pub const HALF_LEVEL: i64 = 500_000;

/// Largest magnitude accepted for an oscillator's mix level, in millionths
/// (a gain of one million). Levels are otherwise unclamped: they may exceed
/// full level or be negative by configuration.
pub const LEVEL_ABS_MAX: i64 = 1_000_000_000_000;

/// Largest magnitude the mixed waveform can reach, in picounits of full
/// scale: half a unit from the base oscillator plus half a unit times
/// `LEVEL_ABS_MAX` from each extra oscillator.
pub const MIX_ABS_MAX: i64 = 1_000_000_500_000_000_000;

/// Highest accepted sample rate: one sample per nanosecond tick.
pub const MAX_SAMPLE_RATE_HZ: u32 = 1_000_000_000;

/// Per extra oscillator, a frequency multiplier relative to the base note
/// frequency and a linear mix weight, both in millionths. The base oscillator
/// has implicit multiplier and level of one.
#[derive(Debug, Clone, Copy, PartialEq, Eq, Structural)]
pub struct OscParams {
    /// Frequency multiplier of the first extra oscillator; positive.
    pub osc1_freq_mul: u64,
    /// Mix weight of the first extra oscillator; unclamped within
    /// `LEVEL_ABS_MAX`.
    pub osc1_level: i64,
    /// Frequency multiplier of the second extra oscillator; positive.
    pub osc2_freq_mul: u64,
    /// Mix weight of the second extra oscillator; unclamped within
    /// `LEVEL_ABS_MAX`.
    pub osc2_level: i64,
}

impl OscParams {
    /// Positive multipliers, and levels the mixer's arithmetic can hold.
    pub open spec fn valid(self) -> bool {
        &&& self.osc1_freq_mul >= 1
        &&& self.osc2_freq_mul >= 1
        &&& -LEVEL_ABS_MAX <= self.osc1_level <= LEVEL_ABS_MAX
        &&& -LEVEL_ABS_MAX <= self.osc2_level <= LEVEL_ABS_MAX
    }
}

/// Position within the oscillator's cycle at `time`, in millionths of a
/// cycle: the fractional part of `time * freq * mul` (each in its fixed-point
/// unit), truncated to millionths.
pub open spec fn spec_phase_frac(time: int, freq: int, mul: int) -> int {
    ((time * freq * mul) % (PHASE_WRAP as int)) / (PHASE_GRAIN as int)
}

/// The raw sawtooth-like wave of one oscillator: the phase position centered
/// at zero, ranging over [-1/2, 1/2) of full scale in millionths.
pub open spec fn spec_osc_signal(time: int, freq: int, mul: int) -> int {
    spec_phase_frac(time, freq, mul) - HALF_LEVEL
}

/// The unnormalized oscillator mix at `time` for base frequency `freq`, in
/// picounits of full scale: the base wave at implicit level one plus each
/// extra wave scaled by its level. No clipping is applied; the sum may exceed
/// full scale by design.
pub open spec fn spec_mixed(time: int, freq: int, osc: OscParams) -> int {
    spec_osc_signal(time, freq, LEVEL_ONE as int) * (LEVEL_ONE as int) + spec_osc_signal(
        time,
        freq,
        osc.osc1_freq_mul as int,
    ) * osc.osc1_level + spec_osc_signal(time, freq, osc.osc2_freq_mul as int) * osc.osc2_level
}

/// The mixed waveform scaled by the envelope amplitude (in millionths),
/// truncated toward zero.
pub open spec fn spec_scale_by_amp(mixed: int, amp: int) -> int {
    if mixed >= 0 {
        mixed * amp / (LEVEL_ONE as int)
    } else {
        -((-mixed) * amp / (LEVEL_ONE as int))
    }
}

/// Nanoseconds the clock advances per rendered sample.
pub open spec fn spec_time_step(rate: int) -> int {
    NANOS_PER_SECOND as int / rate
}

/// The monophonic voice: a global time counter, the sounding note (none means
/// silence), and the envelope the note drives.
pub struct Voice {
    /// Absolute time in nanoseconds; advances by one step per rendered
    /// sample.
    pub time_ns: u64,
    /// Samples per second; the time step is derived from it.
    pub sample_rate_hz: u32,
    /// The currently sounding pitch, if any.
    pub note: Option<MidiNote>,
    /// The envelope of the current note.
    pub envelope: AdsrEnvelope,
}

/// The sample a voice renders at its current time: silence without a note,
/// otherwise the oscillator mix at the note's frequency scaled by the
/// envelope amplitude, in picounits of full scale.
pub open spec fn spec_render_out(v: Voice, osc: OscParams) -> int {
    match v.note {
        None => 0,
        Some(n) => spec_scale_by_amp(
            spec_mixed(v.time_ns as int, spec_frequency_millihz(n.0 as int), osc),
            spec_amp(v.envelope.params, v.envelope.state, v.time_ns as int),
        ),
    }
}

/// The voice after rendering one sample: time has advanced by one step, and
/// the envelope has lazily advanced if a note was sounding (without a note
/// the envelope is not consulted).
pub open spec fn spec_after_render(v: Voice, osc: OscParams) -> Voice {
    Voice {
        time_ns: (v.time_ns + spec_time_step(v.sample_rate_hz as int)) as u64,
        envelope: match v.note {
            None => v.envelope,
            Some(_) => AdsrEnvelope {
                params: v.envelope.params,
                state: spec_step(v.envelope.params, v.envelope.state, v.time_ns as int),
            },
        },
        ..v
    }
}

/// The voice after a note-on: the envelope is replaced by a fresh one built
/// from `params` and triggered at the current time, and the note is set --
/// even if a note is already sounding (last note-on wins; the previous
/// envelope, release tail included, is discarded).
pub open spec fn spec_note_on(v: Voice, note: MidiNote, params: AdsrParams) -> Voice {
    Voice {
        note: Some(note),
        envelope: AdsrEnvelope { params, state: AdsrState::Attack { start: v.time_ns } },
        ..v
    }
}

/// The voice after a note-off: the envelope is released at the current time
/// if the identifier matches the sounding note; a stale note-off for any
/// other identifier changes nothing (the current note rings on).
pub open spec fn spec_note_off(v: Voice, note: MidiNote) -> Voice {
    if v.note == Some(note) {
        Voice {
            envelope: AdsrEnvelope {
                params: v.envelope.params,
                state: spec_release(v.envelope.params, v.envelope.state, v.time_ns),
            },
            ..v
        }
    } else {
        v
    }
}

impl Voice {
    /// A positive sample rate within the clock's resolution, a well-formed
    /// envelope, and a playable note number.
    pub open spec fn wf(self) -> bool {
        &&& 1 <= self.sample_rate_hz <= MAX_SAMPLE_RATE_HZ
        &&& self.envelope.wf()
        &&& self.note matches Some(n) ==> n.0 < 128
    }

    /// A fresh voice: silent, at time zero, with the host's default sample
    /// rate of 44100 Hz.
    pub fn new(params: AdsrParams) -> (voice: Voice)
        requires
            params.valid(),
        ensures
            voice.wf(),
            voice.time_ns == 0,
            voice.sample_rate_hz == 44100,
            voice.note is None,
            voice.envelope.params == params,
            voice.envelope.state == AdsrState::Silent,
    {
        Voice {
            time_ns: 0,
            sample_rate_hz: 44100,
            note: None,
            envelope: AdsrEnvelope::new(params),
        }
    }

    /// Adopt the sample rate the host reports. Only the forward step size
    /// changes; the absolute time is not altered retroactively.
    pub fn set_sample_rate(&mut self, rate: u32)
        requires
            old(self).wf(),
            1 <= rate <= MAX_SAMPLE_RATE_HZ,
        ensures
            final(self).wf(),
            *final(self) == (Voice { sample_rate_hz: rate, ..*old(self) }),
    {
        self.sample_rate_hz = rate;
    }

    /// Nanoseconds between consecutive samples at the current rate.
    pub fn time_per_sample_ns(&self) -> (step: u64)
        requires
            self.wf(),
        ensures
            step == spec_time_step(self.sample_rate_hz as int),
            1 <= step <= NANOS_PER_SECOND,
    {
        proof {
            lemma_div_non_zero(NANOS_PER_SECOND as int, self.sample_rate_hz as int);
            lemma_div_nonincreasing(NANOS_PER_SECOND as int, self.sample_rate_hz as int);
        }
        NANOS_PER_SECOND / (self.sample_rate_hz as u64)
    }

    /// Start sounding `note`: build a fresh envelope from the parameters the
    /// store currently holds, trigger it at the present time, and remember
    /// the pitch. Replaces whatever note was sounding.
    pub fn note_on(&mut self, note: MidiNote, params: AdsrParams)
        requires
            old(self).wf(),
            params.valid(),
            note.0 < 128,
        ensures
            final(self).wf(),
            *final(self) == spec_note_on(*old(self), note, params),
    {
        self.envelope = AdsrEnvelope::new(params);
        let time = self.time_ns;
        self.envelope.trigger(time);
        self.note = Some(note);
    }

    /// Stop sounding `note`: release the envelope if `note` is the one
    /// sounding. A note-off for any other identifier is a no-op: envelope
    /// state and active note are unchanged.
    pub fn note_off(&mut self, note: MidiNote)
        requires
            old(self).wf(),
        ensures
            final(self).wf(),
            *final(self) == spec_note_off(*old(self), note),
            old(self).note != Some(note) ==> *final(self) == *old(self),
    {
        match self.note {
            Some(n) => {
                if n.0 == note.0 {
                    let time = self.time_ns;
                    self.envelope.release(time);
                }
            },
            None => {},
        }
    }

    /// Interpret one MIDI event. `data[0]` carries the status: 128 is
    /// note-off, 144 is note-on, anything else is ignored. `data[1]` carries
    /// the note number (a 7-bit data byte; the high bit is masked off) and
    /// `data[2]` the velocity, which this voice ignores.
    pub fn process_midi_event(&mut self, data: [u8; 3], params: AdsrParams)
        requires
            old(self).wf(),
            params.valid(),
        ensures
            final(self).wf(),
            *final(self) == (if data@[0] == 144 {
                spec_note_on(*old(self), MidiNote((data@[1] % 128) as u8), params)
            } else if data@[0] == 128 {
                spec_note_off(*old(self), MidiNote((data@[1] % 128) as u8))
            } else {
                *old(self)
            }),
    {
        match data[0] {
            128 => self.note_off(MidiNote(data[1] % 128)),
            144 => self.note_on(MidiNote(data[1] % 128), params),
            _ => {},
        }
    }

    /// Render one sample at the current time and advance the clock by one
    /// step. Without a note the output is exactly zero and the envelope is
    /// left alone, but time still advances: the clock is global and monotonic,
    /// independent of note activity.
    pub fn render_sample(&mut self, osc: &OscParams) -> (out: i64)
        requires
            old(self).wf(),
            osc.valid(),
            old(self).time_ns + NANOS_PER_SECOND <= u64::MAX,
        ensures
            final(self).wf(),
            *final(self) == spec_after_render(*old(self), *osc),
            out == spec_render_out(*old(self), *osc),
            -MIX_ABS_MAX <= out <= MIX_ABS_MAX,
    {
        let step = self.time_per_sample_ns();
        let out: i64 = match self.note {
            None => 0,
            Some(n) => {
                let freq = n.frequency();
                let time = self.time_ns;
                let s0 = osc_signal(time, freq, LEVEL_ONE);
                let s1 = osc_signal(time, freq, osc.osc1_freq_mul);
                let s2 = osc_signal(time, freq, osc.osc2_freq_mul);
                let mixed = mix(s0, s1, osc.osc1_level, s2, osc.osc2_level);
                let amp = self.envelope.sample(time);
                apply_amp(mixed, amp)
            },
        };
        self.time_ns = self.time_ns + step;
        out
    }

    /// Render `count` consecutive samples, advancing the clock once per
    /// sample. The host writes each value identically to every output
    /// channel.
    pub fn render_block(&mut self, count: usize, osc: &OscParams) -> (samples: Vec<i64>)
        requires
            old(self).wf(),
            osc.valid(),
            old(self).time_ns + (count as int) * (NANOS_PER_SECOND as int) <= u64::MAX,
        ensures
            final(self).wf(),
            *final(self) == spec_after_renders(*old(self), *osc, count as nat),
            samples@ == spec_render_seq(*old(self), *osc, count as nat),
            samples@.len() == count,
    {
        let mut samples: Vec<i64> = Vec::new();
        let mut i: usize = 0;
        while i < count
            invariant
                i <= count,
                osc.valid(),
                old(self).wf(),
                old(self).time_ns + (count as int) * (NANOS_PER_SECOND as int) <= u64::MAX,
                *self == spec_after_renders(*old(self), *osc, i as nat),
                samples@ == spec_render_seq(*old(self), *osc, i as nat),
                samples@.len() == i,
            decreases count - i,
        {
            proof {
                lemma_after_renders_props(*old(self), *osc, i as nat);
                lemma_mul_inequality(i as int + 1, count as int, NANOS_PER_SECOND as int);
            }
            let s = self.render_sample(osc);
            samples.push(s);
            i = i + 1;
        }
        proof {
            lemma_after_renders_props(*old(self), *osc, count as nat);
        }
        samples
    }
}

/// The voice after `n` consecutive rendered samples.
pub open spec fn spec_after_renders(v: Voice, osc: OscParams, n: nat) -> Voice
    decreases n,
{
    if n == 0 {
        v
    } else {
        spec_after_render(spec_after_renders(v, osc, (n - 1) as nat), osc)
    }
}

/// The `n` samples a voice renders consecutively.
pub open spec fn spec_render_seq(v: Voice, osc: OscParams, n: nat) -> Seq<i64>
    decreases n,
{
    if n == 0 {
        Seq::empty()
    } else {
        spec_render_seq(v, osc, (n - 1) as nat).push(
            spec_render_out(spec_after_renders(v, osc, (n - 1) as nat), osc) as i64,
        )
    }
}

/// Rendering preserves well-formedness and everything but the clock and the
/// envelope's segment; the clock advances by at most a second per sample.
pub proof fn lemma_after_renders_props(v: Voice, osc: OscParams, n: nat)
    requires
        v.wf(),
        v.time_ns + n * (NANOS_PER_SECOND as int) <= u64::MAX,
    ensures
        spec_after_renders(v, osc, n).wf(),
        spec_after_renders(v, osc, n).sample_rate_hz == v.sample_rate_hz,
        spec_after_renders(v, osc, n).note == v.note,
        spec_after_renders(v, osc, n).envelope.params == v.envelope.params,
        v.time_ns <= spec_after_renders(v, osc, n).time_ns,
        spec_after_renders(v, osc, n).time_ns <= v.time_ns + n * (NANOS_PER_SECOND as int),
    decreases n,
{
    if n > 0 {
        assert((n - 1) * (NANOS_PER_SECOND as int) + NANOS_PER_SECOND == n * (
        NANOS_PER_SECOND as int)) by (nonlinear_arith);
        lemma_after_renders_props(v, osc, (n - 1) as nat);
        let w = spec_after_renders(v, osc, (n - 1) as nat);
        lemma_div_non_zero(NANOS_PER_SECOND as int, w.sample_rate_hz as int);
        lemma_div_nonincreasing(NANOS_PER_SECOND as int, w.sample_rate_hz as int);
        lemma_sample_idempotent(w.envelope.params, w.envelope.state, w.time_ns);
    }
}

/// The raw wave of one oscillator at `time` for frequency `freq` and
/// multiplier `mul`: the phase-wrapped position in the cycle, centered at
/// zero. Ranges over [-HALF_LEVEL, HALF_LEVEL).
fn osc_signal(time_ns: u64, freq_mhz: u64, mul: u64) -> (s: i64)
    ensures
        s == spec_osc_signal(time_ns as int, freq_mhz as int, mul as int),
        -HALF_LEVEL <= s < HALF_LEVEL,
{
    proof {
        lemma_mul_upper_bound(time_ns as int, u64::MAX as int, freq_mhz as int, u64::MAX as int);
    }
    let cycles: u128 = ((time_ns as u128) * (freq_mhz as u128)) % (PHASE_WRAP as u128);
    proof {
        lemma_mul_upper_bound(cycles as int, PHASE_WRAP - 1, mul as int, u64::MAX as int);
    }
    let scaled: u128 = (cycles * (mul as u128)) % (PHASE_WRAP as u128);
    let frac: u64 = (scaled / (PHASE_GRAIN as u128)) as u64;
    proof {
        lemma_mul_mod_noop_left(
            (time_ns as int) * (freq_mhz as int),
            mul as int,
            PHASE_WRAP as int,
        );
        lemma_div_is_ordered(scaled as int, PHASE_WRAP - 1, PHASE_GRAIN as int);
        lemma_div_pos_is_pos(scaled as int, PHASE_GRAIN as int);
    }
    (frac as i64) - HALF_LEVEL
}

/// Mix the three raw waves: the base at implicit level one, each extra wave
/// scaled by its level. The result is in picounits of full scale, unclipped.
fn mix(s0: i64, s1: i64, l1: i64, s2: i64, l2: i64) -> (m: i64)
    requires
        -HALF_LEVEL <= s0 <= HALF_LEVEL,
        -HALF_LEVEL <= s1 <= HALF_LEVEL,
        -HALF_LEVEL <= s2 <= HALF_LEVEL,
        -LEVEL_ABS_MAX <= l1 <= LEVEL_ABS_MAX,
        -LEVEL_ABS_MAX <= l2 <= LEVEL_ABS_MAX,
    ensures
        m == s0 * (LEVEL_ONE as int) + s1 * l1 + s2 * l2,
        -MIX_ABS_MAX <= m <= MIX_ABS_MAX,
{
    proof {
        assert(-HALF_LEVEL * LEVEL_ABS_MAX <= s1 * l1 <= HALF_LEVEL * LEVEL_ABS_MAX)
            by (nonlinear_arith)
            requires
                -HALF_LEVEL <= s1 <= HALF_LEVEL,
                -LEVEL_ABS_MAX <= l1 <= LEVEL_ABS_MAX,
        ;
        assert(-HALF_LEVEL * LEVEL_ABS_MAX <= s2 * l2 <= HALF_LEVEL * LEVEL_ABS_MAX)
            by (nonlinear_arith)
            requires
                -HALF_LEVEL <= s2 <= HALF_LEVEL,
                -LEVEL_ABS_MAX <= l2 <= LEVEL_ABS_MAX,
        ;
    }
    let a: i64 = s1 * l1;
    let b: i64 = s2 * l2;
    s0 * 1_000_000 + a + b
}

/// Magnitudes shrink when scaled by an amplitude of at most full level.
proof fn lemma_amp_scale_bounds(mag: int, amp: int)
    requires
        0 <= mag,
        0 <= amp <= LEVEL_ONE,
    ensures
        0 <= mag * amp / (LEVEL_ONE as int) <= mag,
{
    lemma_mul_nonnegative(mag, amp);
    lemma_div_pos_is_pos(mag * amp, LEVEL_ONE as int);
    assert(mag * amp <= (LEVEL_ONE as int) * mag) by (nonlinear_arith)
        requires
            0 <= mag,
            0 <= amp <= LEVEL_ONE,
    ;
    lemma_div_is_ordered(mag * amp, (LEVEL_ONE as int) * mag, LEVEL_ONE as int);
    lemma_div_multiples_vanish(mag, LEVEL_ONE as int);
}

/// Scale the mixed waveform by the envelope amplitude, truncating toward
/// zero.
fn apply_amp(mixed: i64, amp: u64) -> (out: i64)
    requires
        -MIX_ABS_MAX <= mixed <= MIX_ABS_MAX,
        amp <= LEVEL_ONE,
    ensures
        out == spec_scale_by_amp(mixed as int, amp as int),
        -MIX_ABS_MAX <= out <= MIX_ABS_MAX,
{
    if mixed >= 0 {
        proof {
            lemma_mul_upper_bound(mixed as int, MIX_ABS_MAX as int, amp as int, LEVEL_ONE as int);
            lemma_amp_scale_bounds(mixed as int, amp as int);
        }
        let scaled: u128 = (mixed as u128) * (amp as u128) / (LEVEL_ONE as u128);
        scaled as i64
    } else {
        let mag: u128 = (-(mixed as i128)) as u128;
        proof {
            lemma_mul_upper_bound(mag as int, MIX_ABS_MAX as int, amp as int, LEVEL_ONE as int);
            lemma_amp_scale_bounds(mag as int, amp as int);
        }
        let scaled: u128 = (mag * (amp as u128)) / (LEVEL_ONE as u128);
        -(scaled as i64)
    }
}

/// With both extra oscillator levels zero, the rendered sample is exactly the
/// base oscillator's wave times the envelope amplitude.
pub proof fn lemma_mix_base_only(v: Voice, osc: OscParams, n: MidiNote)
    requires
        v.wf(),
        v.note == Some(n),
        osc.osc1_level == 0,
        osc.osc2_level == 0,
    ensures
        spec_render_out(v, osc) == spec_osc_signal(
            v.time_ns as int,
            spec_frequency_millihz(n.0 as int),
            LEVEL_ONE as int,
        ) * spec_amp(v.envelope.params, v.envelope.state, v.time_ns as int),
{
    let time = v.time_ns as int;
    let freq = spec_frequency_millihz(n.0 as int);
    let s0 = spec_osc_signal(time, freq, LEVEL_ONE as int);
    let amp = spec_amp(v.envelope.params, v.envelope.state, time);
    lemma_amp_in_range(v.envelope.params, v.envelope.state, time);
    assert(spec_mixed(time, freq, osc) == s0 * (LEVEL_ONE as int));
    if s0 >= 0 {
        assert(s0 * (LEVEL_ONE as int) >= 0) by (nonlinear_arith)
            requires
                s0 >= 0,
        ;
        assert((s0 * (LEVEL_ONE as int)) * amp == (LEVEL_ONE as int) * (s0 * amp))
            by (nonlinear_arith);
        lemma_div_multiples_vanish(s0 * amp, LEVEL_ONE as int);
    } else {
        assert(s0 * (LEVEL_ONE as int) < 0) by (nonlinear_arith)
            requires
                s0 < 0,
        ;
        assert((-(s0 * (LEVEL_ONE as int))) * amp == (LEVEL_ONE as int) * ((-s0) * amp))
            by (nonlinear_arith);
        lemma_div_multiples_vanish((-s0) * amp, LEVEL_ONE as int);
        assert(-((-s0) * amp) == s0 * amp) by (nonlinear_arith);
    }
}

} // verus!
