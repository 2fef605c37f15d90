//! The ADSR (attack-decay-sustain-release) envelope state machine.
//!
//! The envelope converts note-on/note-off timing events into an amplitude
//! multiplier over time. Times are nanoseconds, amplitudes are millionths
//! (`LEVEL_ONE` is full level). Segment transitions happen lazily inside
//! `sample`, never asynchronously.

use vstd::prelude::*;

use crate::LEVEL_ONE;

verus! {

use vstd::arithmetic::div_mod::lemma_div_is_ordered;
use vstd::arithmetic::div_mod::lemma_div_multiples_vanish;
use vstd::arithmetic::div_mod::lemma_div_pos_is_pos;
use vstd::arithmetic::mul::lemma_mul_inequality;
use vstd::arithmetic::mul::lemma_mul_nonnegative;
use vstd::arithmetic::mul::lemma_mul_upper_bound;

/// A ratio of `num` over `den` scaled by `scale` stays between 0 and `scale`
/// as long as `num` does not exceed `den`.
proof fn lemma_ratio_bounds(num: int, den: int, scale: int)
    requires
        0 <= num <= den,
        1 <= den,
        0 <= scale,
    ensures
        0 <= num * scale / den <= scale,
{
    lemma_mul_nonnegative(num, scale);
    lemma_div_pos_is_pos(num * scale, den);
    lemma_mul_inequality(num, den, scale);
    lemma_div_is_ordered(num * scale, den * scale, den);
    lemma_div_multiples_vanish(scale, den);
}

/// Envelope parameters, immutable once constructed. Supplied fresh at each
/// note-on.
#[derive(Debug, Clone, Copy, PartialEq, Eq, Structural)]
pub struct AdsrParams {
    /// Length of the attack ramp (0 to full level), in nanoseconds.
    pub attack_ns: u64,
    /// Length of the decay ramp (full level down to sustain), in nanoseconds.
    pub decay_ns: u64,
    /// Sustain amplitude in millionths; at most `LEVEL_ONE`.
    pub sustain_level: u64,
    /// Length of the release ramp, in nanoseconds; at least 1.
    pub release_ns: u64,
}

impl AdsrParams {
    /// The ranges the envelope arithmetic relies on: the sustain level is an
    /// amplitude (at most 1.0) and the release has a positive duration.
    pub open spec fn valid(self) -> bool {
        &&& self.sustain_level <= LEVEL_ONE
        &&& self.release_ns >= 1
    }
}

/// The envelope's segment; exactly one is active at a time.
#[derive(Debug, Clone, Copy, PartialEq, Eq, Structural)]
pub enum AdsrState {
    /// Ramping linearly from 0 to full level since `start`.
    Attack { start: u64 },
    /// Ramping linearly from full level down to the sustain level since
    /// `start`.
    Decay { start: u64 },
    /// Holding the sustain level until released.
    Sustain,
    /// Ramping linearly from `level` (the amplitude captured when the release
    /// began) down to 0 since `start`.
    Release { start: u64, level: u64 },
    /// Producing no signal; the initial state, and the terminal state until
    /// retriggered.
    Silent,
}

/// The captured release level never exceeds full level; the other states
/// carry no constrained payload.
pub open spec fn state_inv(st: AdsrState) -> bool {
    match st {
        AdsrState::Release { start: _, level } => level <= LEVEL_ONE,
        _ => true,
    }
}

/// Amplitude of the decay segment that starts at `start`: a linear ramp from
/// full level down to the sustain level over `decay_ns`. Outside the
/// segment's window (or for a zero-length decay) the segment has already
/// handed over to sustain.
pub open spec fn spec_decay_amp(params: AdsrParams, start: int, time: int) -> int {
    if time < start || time - start > params.decay_ns || params.decay_ns == 0 {
        params.sustain_level as int
    } else {
        LEVEL_ONE - (time - start) * (LEVEL_ONE - params.sustain_level) / (params.decay_ns as int)
    }
}

/// Amplitude of the release segment: a linear ramp from `level` down to 0.
/// The ramp's slope is full level per `release_ns`, so a release begun at a
/// partial level reaches 0 sooner. Before `start` the captured level holds
/// (a guard against late events).
pub open spec fn spec_release_amp(params: AdsrParams, start: int, level: int, time: int) -> int {
    if time < start {
        level
    } else {
        let dropped = (time - start) * LEVEL_ONE / (params.release_ns as int);
        if dropped >= level {
            0
        } else {
            level - dropped
        }
    }
}

/// The amplitude the envelope yields at `time` from state `st`, in
/// millionths. This is the value `sample` returns, independent of the lazy
/// state advancement it performs.
pub open spec fn spec_amp(params: AdsrParams, st: AdsrState, time: int) -> int {
    match st {
        AdsrState::Silent => 0,
        AdsrState::Sustain => params.sustain_level as int,
        AdsrState::Attack { start } => if time < start {
            0
        } else if time - start > params.attack_ns {
            spec_decay_amp(params, start + params.attack_ns, time)
        } else if params.attack_ns == 0 {
            LEVEL_ONE as int
        } else {
            (time - start) * LEVEL_ONE / (params.attack_ns as int)
        },
        AdsrState::Decay { start } => spec_decay_amp(params, start as int, time),
        AdsrState::Release { start, level } => spec_release_amp(
            params,
            start as int,
            level as int,
            time,
        ),
    }
}

/// The state `sample` leaves behind after lazily advancing past the segment
/// boundaries that `time` has crossed.
pub open spec fn spec_step(params: AdsrParams, st: AdsrState, time: int) -> AdsrState {
    match st {
        AdsrState::Silent => st,
        AdsrState::Sustain => st,
        AdsrState::Attack { start } => if time < start {
            st
        } else if time - start > params.attack_ns {
            if time - (start + params.attack_ns) > params.decay_ns || params.decay_ns == 0 {
                AdsrState::Sustain
            } else {
                AdsrState::Decay { start: (start + params.attack_ns) as u64 }
            }
        } else {
            st
        },
        AdsrState::Decay { start } => if time < start || time - start > params.decay_ns
            || params.decay_ns == 0 {
            AdsrState::Sustain
        } else {
            st
        },
        AdsrState::Release { start, level } => if time >= start && (time - start) * LEVEL_ONE / (
        params.release_ns as int) >= level {
            AdsrState::Silent
        } else {
            st
        },
    }
}

/// How many lazy advancements a state can still make: attack can hand over to
/// decay and then to sustain; decay and release can each hand over once.
pub open spec fn state_rank(st: AdsrState) -> nat {
    match st {
        AdsrState::Attack { .. } => 2,
        AdsrState::Decay { .. } => 1,
        AdsrState::Release { .. } => 1,
        AdsrState::Sustain => 0,
        AdsrState::Silent => 0,
    }
}

/// The state `release` leaves behind: from attack, decay or sustain the
/// envelope moves to a release ramp that starts at the amplitude it held at
/// `time`; when already silent or releasing, nothing changes.
pub open spec fn spec_release(params: AdsrParams, st: AdsrState, time: u64) -> AdsrState {
    match st {
        AdsrState::Silent => st,
        AdsrState::Release { .. } => st,
        _ => AdsrState::Release { start: time, level: spec_amp(params, st, time as int) as u64 },
    }
}

/// The envelope generator: fixed parameters plus the current segment.
pub struct AdsrEnvelope {
    pub params: AdsrParams,
    pub state: AdsrState,
}

impl AdsrEnvelope {
    /// Valid parameters and a state whose payload is in range.
    pub open spec fn wf(self) -> bool {
        self.params.valid() && state_inv(self.state)
    }

    /// A fresh envelope starts silent.
    pub fn new(params: AdsrParams) -> (env: AdsrEnvelope)
        requires
            params.valid(),
        ensures
            env.wf(),
            env.params == params,
            env.state == AdsrState::Silent,
    {
        AdsrEnvelope { params, state: AdsrState::Silent }
    }

    /// Begin a fresh attack ramp at `time`, discarding any prior state (even
    /// mid-release: the whole envelope restarts, there is no cross-fade).
    pub fn trigger(&mut self, time: u64)
        requires
            old(self).wf(),
        ensures
            final(self).wf(),
            final(self).params == old(self).params,
            final(self).state == (AdsrState::Attack { start: time }),
    {
        self.state = AdsrState::Attack { start: time };
    }

    /// Return the amplitude at `time`, in millionths, advancing the state
    /// lazily past any segment boundaries that `time` has crossed. The value
    /// returned is `spec_amp` of the state before the call, and the state
    /// afterwards is `spec_step` of it: repeated calls with the same `time`
    /// return the same value and change nothing further.
    pub fn sample(&mut self, time: u64) -> (amp: u64)
        requires
            old(self).wf(),
        ensures
            final(self).wf(),
            final(self).params == old(self).params,
            final(self).state == spec_step(old(self).params, old(self).state, time as int),
            amp == spec_amp(old(self).params, old(self).state, time as int),
            amp <= LEVEL_ONE,
    {
        loop
            invariant
                self.params == old(self).params,
                self.wf(),
                spec_step(self.params, self.state, time as int) == spec_step(
                    old(self).params,
                    old(self).state,
                    time as int,
                ),
                spec_amp(self.params, self.state, time as int) == spec_amp(
                    old(self).params,
                    old(self).state,
                    time as int,
                ),
            decreases state_rank(self.state),
        {
            match self.state {
                AdsrState::Silent => {
                    return 0;
                },
                AdsrState::Sustain => {
                    return self.params.sustain_level;
                },
                AdsrState::Attack { start } => {
                    if time < start {
                        // An event-ordering guard: sampling before the attack
                        // began yields silence.
                        return 0;
                    }
                    let reltime = time - start;
                    if reltime > self.params.attack_ns {
                        self.state = AdsrState::Decay { start: start + self.params.attack_ns };
                    } else if self.params.attack_ns == 0 {
                        // A zero-length attack jumps straight to full level.
                        return LEVEL_ONE;
                    } else {
                        let scaled: u128 = (reltime as u128) * (LEVEL_ONE as u128) / (
                        self.params.attack_ns as u128);
                        proof {
                            lemma_ratio_bounds(
                                reltime as int,
                                self.params.attack_ns as int,
                                LEVEL_ONE as int,
                            );
                        }
                        return scaled as u64;
                    }
                },
                AdsrState::Decay { start } => {
                    if time < start || time - start > self.params.decay_ns
                        || self.params.decay_ns == 0 {
                        self.state = AdsrState::Sustain;
                    } else {
                        let reltime = time - start;
                        proof {
                            lemma_mul_upper_bound(
                                reltime as int,
                                u64::MAX as int,
                                (LEVEL_ONE - self.params.sustain_level) as int,
                                LEVEL_ONE as int,
                            );
                        }
                        let dropped: u128 = (reltime as u128) * ((LEVEL_ONE
                            - self.params.sustain_level) as u128) / (self.params.decay_ns as u128);
                        proof {
                            lemma_ratio_bounds(
                                reltime as int,
                                self.params.decay_ns as int,
                                LEVEL_ONE - self.params.sustain_level,
                            );
                        }
                        return LEVEL_ONE - (dropped as u64);
                    }
                },
                AdsrState::Release { start, level } => {
                    if time < start {
                        // A late event: hold the captured level.
                        return level;
                    }
                    let reltime = time - start;
                    let dropped: u128 = (reltime as u128) * (LEVEL_ONE as u128) / (
                    self.params.release_ns as u128);
                    proof {
                        lemma_mul_nonnegative(reltime as int, LEVEL_ONE as int);
                        lemma_div_pos_is_pos(
                            (reltime as int) * (LEVEL_ONE as int),
                            self.params.release_ns as int,
                        );
                    }
                    if dropped >= level as u128 {
                        self.state = AdsrState::Silent;
                        return 0;
                    } else {
                        return level - (dropped as u64);
                    }
                },
            }
        }
    }

    /// Begin the release ramp at `time` from the amplitude currently held, by
    /// sampling first and then moving to `Release`. A no-op when the envelope
    /// is already silent or already releasing.
    pub fn release(&mut self, time: u64)
        requires
            old(self).wf(),
        ensures
            final(self).wf(),
            final(self).params == old(self).params,
            final(self).state == spec_release(old(self).params, old(self).state, time),
    {
        match self.state {
            AdsrState::Silent | AdsrState::Release { .. } => {},
            _ => {
                let level = self.sample(time);
                self.state = AdsrState::Release { start: time, level };
            },
        }
    }
}

/// A decay segment's amplitude never leaves `[sustain_level, LEVEL_ONE]`,
/// whatever the time.
pub proof fn lemma_decay_amp_in_range(params: AdsrParams, start: int, time: int)
    requires
        params.valid(),
    ensures
        params.sustain_level <= spec_decay_amp(params, start, time) <= LEVEL_ONE,
{
    if !(time < start || time - start > params.decay_ns || params.decay_ns == 0) {
        lemma_ratio_bounds(
            time - start,
            params.decay_ns as int,
            LEVEL_ONE - params.sustain_level,
        );
    }
}

/// The envelope's amplitude always lies in `[0, LEVEL_ONE]`: for every valid
/// parameter set, every well-formed state and every time, sampled or not.
pub proof fn lemma_amp_in_range(params: AdsrParams, st: AdsrState, time: int)
    requires
        params.valid(),
        state_inv(st),
    ensures
        0 <= spec_amp(params, st, time) <= LEVEL_ONE,
{
    match st {
        AdsrState::Silent => {},
        AdsrState::Sustain => {},
        AdsrState::Attack { start } => {
            if time < start {
            } else if time - start > params.attack_ns {
                lemma_decay_amp_in_range(params, start + params.attack_ns, time);
            } else if params.attack_ns == 0 {
            } else {
                lemma_ratio_bounds(time - start, params.attack_ns as int, LEVEL_ONE as int);
            }
        },
        AdsrState::Decay { start } => {
            lemma_decay_amp_in_range(params, start as int, time);
        },
        AdsrState::Release { start, level } => {
            if time >= start {
                lemma_mul_nonnegative(time - start, LEVEL_ONE as int);
                lemma_div_pos_is_pos((time - start) * (LEVEL_ONE as int), params.release_ns as int);
            }
        },
    }
}

/// The attack ramp's endpoints: at its start the envelope is exactly 0, and
/// when the attack duration has fully elapsed it is exactly full level. (A
/// zero-length attack instead jumps straight to full level.)
pub proof fn lemma_attack_endpoints(params: AdsrParams, start: u64)
    requires
        params.valid(),
        params.attack_ns >= 1,
    ensures
        spec_amp(params, AdsrState::Attack { start }, start as int) == 0,
        spec_amp(params, AdsrState::Attack { start }, start + params.attack_ns) == LEVEL_ONE,
{
    // The ramp at its start: 0 * LEVEL_ONE / attack_ns == 0.
    lemma_div_multiples_vanish(0, params.attack_ns as int);
    assert((params.attack_ns as int) * 0 == 0);
    // The ramp at its end: attack_ns * LEVEL_ONE / attack_ns == LEVEL_ONE.
    lemma_div_multiples_vanish(LEVEL_ONE as int, params.attack_ns as int);
    assert(spec_amp(params, AdsrState::Attack { start }, start + params.attack_ns) == (
    params.attack_ns as int) * (LEVEL_ONE as int) / (params.attack_ns as int));
}

/// In sustain the envelope returns exactly the sustain level, and sampling
/// never moves it out of sustain, regardless of how far time advances.
pub proof fn lemma_sustain_constant(params: AdsrParams, time: int)
    ensures
        spec_amp(params, AdsrState::Sustain, time) == params.sustain_level,
        spec_step(params, AdsrState::Sustain, time) == AdsrState::Sustain,
{
}

/// The release ramp's profile: at its start it returns exactly the captured
/// level; once the release duration has elapsed it returns exactly 0, the
/// state settles to silent, and it stays at 0 for all later times.
pub proof fn lemma_release_profile(params: AdsrParams, start: u64, level: u64)
    requires
        params.valid(),
        level <= LEVEL_ONE,
    ensures
        spec_amp(params, AdsrState::Release { start, level }, start as int) == level,
        forall|t: int|
            t >= start + params.release_ns ==> spec_amp(
                params,
                AdsrState::Release { start, level },
                t,
            ) == 0,
        forall|t: int|
            t >= start + params.release_ns ==> spec_step(
                params,
                AdsrState::Release { start, level },
                t,
            ) == AdsrState::Silent,
{
    lemma_div_multiples_vanish(0, params.release_ns as int);
    assert((params.release_ns as int) * 0 == 0);
    assert(spec_amp(params, AdsrState::Release { start, level }, start as int) == level);
    assert forall|t: int| t >= start + params.release_ns implies spec_amp(
        params,
        AdsrState::Release { start, level },
        t,
    ) == 0 && spec_step(params, AdsrState::Release { start, level }, t)
        == AdsrState::Silent by {
        lemma_release_elapsed(params, start, level, t);
    }
}

/// Once at least the release duration has elapsed, the released envelope
/// reads 0 and settles to silent.
proof fn lemma_release_elapsed(params: AdsrParams, start: u64, level: u64, t: int)
    requires
        params.valid(),
        level <= LEVEL_ONE,
        t >= start + params.release_ns,
    ensures
        spec_amp(params, AdsrState::Release { start, level }, t) == 0,
        spec_step(params, AdsrState::Release { start, level }, t) == AdsrState::Silent,
{
    lemma_mul_inequality(params.release_ns as int, t - start, LEVEL_ONE as int);
    lemma_div_is_ordered(
        (params.release_ns as int) * (LEVEL_ONE as int),
        (t - start) * (LEVEL_ONE as int),
        params.release_ns as int,
    );
    lemma_div_multiples_vanish(LEVEL_ONE as int, params.release_ns as int);
}

/// Sampling is idempotent: once `sample` has advanced the state at some time,
/// sampling again at the same time changes nothing and returns the same
/// amplitude. Repeated queries at an unchanged time cannot double-advance the
/// envelope.
pub proof fn lemma_sample_idempotent(params: AdsrParams, st: AdsrState, time: u64)
    requires
        params.valid(),
        state_inv(st),
    ensures
        spec_step(params, spec_step(params, st, time as int), time as int) == spec_step(
            params,
            st,
            time as int,
        ),
        spec_amp(params, spec_step(params, st, time as int), time as int) == spec_amp(
            params,
            st,
            time as int,
        ),
        state_inv(spec_step(params, st, time as int)),
{
}

/// Monotone replay: advancing the state by sampling at `t1` changes neither
/// the amplitude nor the state that any later query `t2` observes. A sequence
/// of `sample` calls at non-decreasing times therefore yields the same
/// trajectory however often each time is queried. (A decay state is only ever
/// entered by sampling past its start, so `t1` not preceding the decay start
/// is no restriction on replay.)
pub proof fn lemma_monotone_replay(params: AdsrParams, st: AdsrState, t1: u64, t2: u64)
    requires
        params.valid(),
        state_inv(st),
        t1 <= t2,
        st matches AdsrState::Decay { start } ==> start <= t1,
    ensures
        spec_step(params, spec_step(params, st, t1 as int), t2 as int) == spec_step(
            params,
            st,
            t2 as int,
        ),
        spec_amp(params, spec_step(params, st, t1 as int), t2 as int) == spec_amp(
            params,
            st,
            t2 as int,
        ),
{
    match st {
        AdsrState::Silent => {},
        AdsrState::Sustain => {},
        AdsrState::Attack { start } => {},
        AdsrState::Decay { start } => {},
        AdsrState::Release { start, level } => {
            if t1 >= start && (t1 - start) * (LEVEL_ONE as int) / (params.release_ns as int)
                >= level {
                lemma_mul_inequality(t1 - start, t2 - start, LEVEL_ONE as int);
                lemma_div_is_ordered(
                    (t1 - start) * (LEVEL_ONE as int),
                    (t2 - start) * (LEVEL_ONE as int),
                    params.release_ns as int,
                );
            }
        },
    }
}

} // verus!

