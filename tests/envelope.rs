use ravetable::{ADSREnvelope, ADSREnvelopeState, EnvelopeError, ADSR, LEVEL_ONE};

fn adsr(delay: u64, attack: u64, decay: u64, sustain: u32, release: u64) -> ADSR {
    ADSR::new(delay, attack, decay, sustain, release).unwrap()
}

#[test]
fn envelope_values_are_checked() {
    assert_eq!(ADSR::new(0, 0, 1, 1, 1), Err(EnvelopeError::ZeroAttack));
    assert_eq!(ADSR::new(0, 1, 0, 1, 1), Err(EnvelopeError::ZeroDecay));
    assert_eq!(ADSR::new(0, 1, 1, 1, 0), Err(EnvelopeError::ZeroRelease));
    assert_eq!(ADSR::new(0, 1, 1, LEVEL_ONE + 1, 1), Err(EnvelopeError::SustainAboveFull));
    let a = ADSR::new(3, 1, 1, LEVEL_ONE, 1).unwrap();
    assert_eq!(a.delay, 3);
    assert_eq!(a.sustain, LEVEL_ONE);
}

#[test]
fn default_envelope_values() {
    let a = ADSR::default();
    assert_eq!(a.delay, 0);
    assert_eq!(a.attack, 10000);
    assert_eq!(a.decay, 5000);
    assert_eq!(a.sustain, LEVEL_ONE);
    assert_eq!(a.release, 100000);
}

#[test]
fn resting_envelope_is_silent() {
    let mut e = ADSREnvelope::new(ADSR::default());
    assert!(!e.is_active());
    assert_eq!(e.get_next_sample(0), 0);
    assert_eq!(e.get_next_sample(1000), 0);
}

#[test]
fn attack_rises_one_step_per_sampling() {
    let mut e = ADSREnvelope::new(adsr(0, 4, 4, LEVEL_ONE / 2, 4));
    e.trigger(10);
    assert_eq!(e.state(), ADSREnvelopeState::Attack);
    assert_eq!(e.get_next_sample(10), LEVEL_ONE / 4);
    assert_eq!(e.get_next_sample(11), LEVEL_ONE / 2);
    assert_eq!(e.get_next_sample(12), 3 * LEVEL_ONE / 4);
    assert_eq!(e.get_next_sample(13), LEVEL_ONE);
    assert_eq!(e.get_next_sample(14), LEVEL_ONE);
    assert_eq!(e.state(), ADSREnvelopeState::Decay);
    assert_eq!(e.get_next_sample(15), LEVEL_ONE - LEVEL_ONE / 8);
}

#[test]
fn first_sampling_after_trigger_or_release_takes_a_step() {
    let mut e = ADSREnvelope::new(adsr(0, 2, 1, LEVEL_ONE, 2));
    e.trigger(0);
    assert_eq!(e.get_next_sample(0), LEVEL_ONE / 2);
    assert_eq!(e.get_next_sample(1), LEVEL_ONE);
    e.release(2);
    assert_eq!(e.get_next_sample(2), LEVEL_ONE / 2);

    let mut r = ADSREnvelope::new(adsr(0, 65536, 1, LEVEL_ONE, 4));
    r.trigger(0);
    assert_eq!(r.get_next_sample(39999), 40000);
    r.release(40000);
    assert_eq!(r.get_next_sample(40000), 30000);

    let mut t = ADSREnvelope::new(adsr(0, 2, 100, 0, 100));
    t.trigger(0);
    t.get_next_sample(0);
    t.get_next_sample(1);
    t.get_next_sample(2);
    for time in 3..=52 {
        t.get_next_sample(time);
    }
    assert_eq!(t.last_value(), LEVEL_ONE / 2);
    t.trigger(53);
    assert_eq!(t.get_next_sample(53), LEVEL_ONE);
}

#[test]
fn round_trip_reaches_sustain_then_zero_after_release() {
    let a = 4u64;
    let d = 4u64;
    let s = LEVEL_ONE / 2;
    let r = 8u64;
    let t0 = 100u64;
    for k in 1..4u64 {
        let mut e = ADSREnvelope::new(adsr(0, a, d, s, r));
        e.trigger(t0);
        let tr = t0 + a + d + k;
        for t in t0..tr {
            let v = e.get_next_sample(t);
            if t >= t0 + a + d {
                assert_eq!(v, s);
            }
        }
        assert_eq!(e.last_value(), s);
        e.release(tr);
        for j in 1..=r {
            let v = e.get_next_sample(tr + j - 1);
            assert_eq!(v as u64, s as u64 - (s as u64 * j) / r);
            assert_eq!(e.state(), ADSREnvelopeState::Release);
        }
        assert_eq!(e.get_next_sample(tr + r), 0);
        assert!(!e.is_active());
        assert_eq!(e.get_next_sample(tr + r + 1), 0);
    }
}

#[test]
fn delay_holds_silence_before_attack() {
    let mut e = ADSREnvelope::new(adsr(5, 2, 2, LEVEL_ONE, 2));
    e.trigger(0);
    assert_eq!(e.state(), ADSREnvelopeState::Delay);
    for t in 0..5 {
        assert_eq!(e.get_next_sample(t), 0);
    }
    assert_eq!(e.get_next_sample(5), 0);
    assert_eq!(e.state(), ADSREnvelopeState::Attack);
    assert_eq!(e.get_next_sample(6), LEVEL_ONE / 2);
    assert_eq!(e.get_next_sample(7), LEVEL_ONE);
}

#[test]
fn retrigger_mid_decay_shortens_attack() {
    let mut e = ADSREnvelope::new(adsr(0, 100, 100, 0, 100));
    e.trigger(0);
    for t in 0..=150 {
        e.get_next_sample(t);
    }
    assert_eq!(e.last_value(), LEVEL_ONE / 2);
    e.trigger(151);
    assert_eq!(e.state(), ADSREnvelopeState::Attack);
    let first = e.get_next_sample(151);
    assert!(first > LEVEL_ONE / 2 && first < LEVEL_ONE);
    for t in 152..200 {
        assert!(e.get_next_sample(t) < LEVEL_ONE);
    }
    assert_eq!(e.get_next_sample(200), LEVEL_ONE);
}

#[test]
fn level_stays_within_full_scale_over_any_calls() {
    let mut e = ADSREnvelope::new(adsr(3, 7, 5, LEVEL_ONE / 3, 11));
    let mut seed: u64 = 12345;
    for t in 0..5000u64 {
        seed = seed.wrapping_mul(6364136223846793005).wrapping_add(1442695040888963407);
        match seed >> 61 {
            0 => e.trigger(t),
            1 => e.release(t),
            _ => {}
        }
        assert!(e.get_next_sample(t) <= LEVEL_ONE);
    }
}

#[test]
fn reset_returns_to_rest() {
    let mut e = ADSREnvelope::new(ADSR::default());
    e.trigger(0);
    e.get_next_sample(500);
    e.reset();
    assert!(!e.is_active());
    assert_eq!(e.last_value(), 0);
}

#[test]
fn times_convert_between_milliseconds_and_samples() {
    assert_eq!(ADSR::convert_value_from_time(1000, 48000), 48000);
    assert_eq!(ADSR::convert_value_from_time(u64::MAX, 48000), u64::MAX);
    assert_eq!(ADSR::convert_value_from_sample_clock(24000, 48000), 500);
    let ms = ADSR::new(10, 20, 30, 7, 40).unwrap();
    let samples = ADSR::convert_adsr_from_time(&ms, 44100);
    assert_eq!(samples.delay, 441);
    assert_eq!(samples.attack, 882);
    assert_eq!(samples.decay, 1323);
    assert_eq!(samples.sustain, 7);
    assert_eq!(samples.release, 1764);
    let back = ADSR::convert_adsr_from_sample_clock(&samples, 44100);
    assert_eq!(back, ms);
}
