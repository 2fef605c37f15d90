//! Tests of the ADSR envelope generator.

use solar1::adsr::{AdsrEnvelope, AdsrParams, AdsrState};
use solar1::LEVEL_ONE;

fn example_params() -> AdsrParams {
    // attack 0.2 s, decay 0.5 s, sustain 0.5, release 1.0 s
    AdsrParams {
        attack_ns: 200_000_000,
        decay_ns: 500_000_000,
        sustain_level: 500_000,
        release_ns: 1_000_000_000,
    }
}

#[test]
fn example_scenario() {
    let mut env = AdsrEnvelope::new(example_params());
    env.trigger(0);
    assert_eq!(env.sample(0), 0);
    assert_eq!(env.sample(100_000_000), 500_000); // halfway up the attack
    assert_eq!(env.sample(200_000_000), 1_000_000); // attack complete
    assert_eq!(env.sample(450_000_000), 750_000); // midway through decay
    assert_eq!(env.sample(700_000_000), 500_000); // at sustain level
    env.release(700_000_000); // captures level 0.5
    assert_eq!(env.sample(700_000_000), 500_000);
    assert_eq!(env.sample(1_200_000_000), 0);
    assert!(matches!(env.state, AdsrState::Silent));
}

#[test]
fn starts_silent() {
    let mut env = AdsrEnvelope::new(example_params());
    assert!(matches!(env.state, AdsrState::Silent));
    assert_eq!(env.sample(123_456_789), 0);
}

#[test]
fn attack_endpoints() {
    let mut env = AdsrEnvelope::new(example_params());
    env.trigger(50_000_000);
    assert_eq!(env.sample(50_000_000), 0);
    assert_eq!(env.sample(250_000_000), LEVEL_ONE);
}

#[test]
fn sample_before_attack_start_is_zero() {
    let mut env = AdsrEnvelope::new(example_params());
    env.trigger(100_000_000);
    assert_eq!(env.sample(99_999_999), 0);
}

#[test]
fn zero_attack_jumps_to_full_level() {
    let params = AdsrParams { attack_ns: 0, ..example_params() };
    let mut env = AdsrEnvelope::new(params);
    env.trigger(1_000);
    assert_eq!(env.sample(1_000), LEVEL_ONE);
}

#[test]
fn zero_decay_jumps_to_sustain() {
    let params = AdsrParams { decay_ns: 0, ..example_params() };
    let mut env = AdsrEnvelope::new(params);
    env.trigger(0);
    assert_eq!(env.sample(200_000_001), 500_000);
    assert!(matches!(env.state, AdsrState::Sustain));
}

#[test]
fn sustain_holds_until_release() {
    let mut env = AdsrEnvelope::new(example_params());
    env.trigger(0);
    assert_eq!(env.sample(700_000_001), 500_000);
    assert!(matches!(env.state, AdsrState::Sustain));
    assert_eq!(env.sample(10_000_000_000), 500_000);
    assert_eq!(env.sample(1_000_000_000_000), 500_000);
    assert!(matches!(env.state, AdsrState::Sustain));
}

#[test]
fn release_from_partial_attack() {
    let mut env = AdsrEnvelope::new(example_params());
    env.trigger(0);
    // A quarter of the way up the attack ramp: level 0.25.
    assert_eq!(env.sample(50_000_000), 250_000);
    env.release(50_000_000);
    assert_eq!(env.sample(50_000_000), 250_000);
    // The slope is full level per release duration, so the ramp reaches zero
    // after a quarter of it.
    assert_eq!(env.sample(175_000_000), 125_000);
    assert_eq!(env.sample(300_000_000), 0);
    assert!(matches!(env.state, AdsrState::Silent));
    assert_eq!(env.sample(301_000_000), 0);
    assert_eq!(env.sample(9_000_000_000), 0);
}

#[test]
fn release_after_full_duration_is_silent() {
    let mut env = AdsrEnvelope::new(example_params());
    env.trigger(0);
    env.sample(700_000_000);
    env.release(700_000_000);
    assert_eq!(env.sample(1_700_000_000), 0);
    assert!(matches!(env.state, AdsrState::Silent));
}

#[test]
fn release_when_silent_is_noop() {
    let mut env = AdsrEnvelope::new(example_params());
    env.release(500_000_000);
    assert!(matches!(env.state, AdsrState::Silent));
    assert_eq!(env.sample(600_000_000), 0);
}

#[test]
fn release_when_releasing_is_noop() {
    let mut env = AdsrEnvelope::new(example_params());
    env.trigger(0);
    env.sample(700_000_000);
    env.release(700_000_000);
    let state_before = env.state;
    env.release(900_000_000);
    assert_eq!(env.state, state_before);
}

#[test]
fn trigger_mid_release_restarts_attack() {
    let mut env = AdsrEnvelope::new(example_params());
    env.trigger(0);
    env.sample(700_000_000);
    env.release(700_000_000);
    env.trigger(800_000_000);
    assert!(matches!(env.state, AdsrState::Attack { start: 800_000_000 }));
    assert_eq!(env.sample(800_000_000), 0);
    assert_eq!(env.sample(900_000_000), 500_000);
}

#[test]
fn repeated_sampling_does_not_double_advance() {
    let mut once = AdsrEnvelope::new(example_params());
    let mut repeated = AdsrEnvelope::new(example_params());
    once.trigger(0);
    repeated.trigger(0);
    let times = [
        0u64,
        100_000_000,
        100_000_000,
        100_000_000,
        450_000_000,
        450_000_000,
        700_000_000,
    ];
    let mut once_values = Vec::new();
    for t in [0u64, 100_000_000, 450_000_000, 700_000_000] {
        once_values.push((t, once.sample(t)));
    }
    for t in times {
        let v = repeated.sample(t);
        let expected = once_values.iter().find(|(ot, _)| *ot == t).unwrap().1;
        assert_eq!(v, expected);
    }
    assert_eq!(once.state, repeated.state);
}

#[test]
fn amplitude_always_within_unit_range() {
    let params = AdsrParams {
        attack_ns: 7,
        decay_ns: 0,
        sustain_level: 999_999,
        release_ns: 3,
    };
    let mut env = AdsrEnvelope::new(params);
    env.trigger(5);
    for t in 0..40u64 {
        let a = env.sample(t);
        assert!(a <= LEVEL_ONE);
    }
    env.release(40);
    for t in 40..60u64 {
        let a = env.sample(t);
        assert!(a <= LEVEL_ONE);
    }
}
