use vstd::prelude::*;
use vstd::arithmetic::div_mod::{lemma_div_by_multiple, lemma_div_is_ordered};
use vstd::arithmetic::mul::{lemma_mul_inequality, lemma_mul_is_commutative};

verus! {

/// Full amplitude: envelope levels run from 0 to `LEVEL_ONE`.
pub const LEVEL_ONE: u32 = 65536;

/// Times of an ADSR envelope in samples, and its sustain level.
#[derive(Copy, Clone, Debug, PartialEq, Eq, Structural)]
pub struct ADSR {
    pub delay: u64,
    pub attack: u64,
    pub decay: u64,
    /// Level held during the sustain phase, at most `LEVEL_ONE`.
    pub sustain: u32,
    pub release: u64,
}

/// Why a set of envelope values was refused.
#[derive(Copy, Clone, Debug, PartialEq, Eq, Structural)]
pub enum EnvelopeError {
    ZeroAttack,
    ZeroDecay,
    ZeroRelease,
    SustainAboveFull,
}

/// The error that `ADSR::new` gives for these values, if any.
pub open spec fn adsr_error(attack: u64, decay: u64, sustain: u32, release: u64) -> Option<
    EnvelopeError,
> {
    if attack == 0 {
        Some(EnvelopeError::ZeroAttack)
    } else if decay == 0 {
        Some(EnvelopeError::ZeroDecay)
    } else if release == 0 {
        Some(EnvelopeError::ZeroRelease)
    } else if sustain > LEVEL_ONE {
        Some(EnvelopeError::SustainAboveFull)
    } else {
        None
    }
}

impl ADSR {
    /// Values of a new voice's envelope.
    pub open spec fn default_spec() -> ADSR {
        ADSR { delay: 0, attack: 10000, decay: 5000, sustain: LEVEL_ONE, release: 100000 }
    }

    /// Ramps last at least one sample and the sustain level is a level.
    pub open spec fn wf(&self) -> bool {
        adsr_error(self.attack, self.decay, self.sustain, self.release).is_none()
    }

    /// Checks the values: attack, decay and release must be positive, the
    /// sustain level at most `LEVEL_ONE`. A delay of 0 means none.
    pub fn new(delay: u64, attack: u64, decay: u64, sustain: u32, release: u64) -> (r: Result<
        ADSR,
        EnvelopeError,
    >)
        ensures
            match adsr_error(attack, decay, sustain, release) {
                Some(e) => r == Err::<ADSR, EnvelopeError>(e),
                None => r == Ok::<ADSR, EnvelopeError>(
                    ADSR { delay, attack, decay, sustain, release },
                ),
            },
    {
        if attack == 0 {
            Err(EnvelopeError::ZeroAttack)
        } else if decay == 0 {
            Err(EnvelopeError::ZeroDecay)
        } else if release == 0 {
            Err(EnvelopeError::ZeroRelease)
        } else if sustain > LEVEL_ONE {
            Err(EnvelopeError::SustainAboveFull)
        } else {
            Ok(ADSR { delay, attack, decay, sustain, release })
        }
    }
}

/// Samples in `millis` milliseconds at `rate` samples per second, rounded
/// down and held at `u64::MAX`.
pub open spec fn samples_from_millis(millis: u64, rate: u32) -> int {
    let n = millis * rate / 1000;
    if n > u64::MAX {
        u64::MAX as int
    } else {
        n
    }
}

/// Milliseconds in `samples` samples at `rate` samples per second, rounded
/// down and held at `u64::MAX`.
pub open spec fn millis_from_samples(samples: u64, rate: u32) -> int {
    let n = samples * 1000 / (rate as int);
    if n > u64::MAX {
        u64::MAX as int
    } else {
        n
    }
}

impl ADSR {
    /// Samples in `value` milliseconds at `sample_rate`.
    pub fn convert_value_from_time(value: u64, sample_rate: u32) -> (r: u64)
        ensures
            r == samples_from_millis(value, sample_rate),
    {
        proof {
            vstd::arithmetic::mul::lemma_mul_inequality(value as int, u64::MAX as int, sample_rate as int);
            vstd::arithmetic::mul::lemma_mul_inequality(sample_rate as int, u32::MAX as int, u64::MAX as int);
            vstd::arithmetic::mul::lemma_mul_is_commutative(u64::MAX as int, sample_rate as int);
        }
        let n = (value as u128) * (sample_rate as u128) / 1000;
        if n > u64::MAX as u128 {
            u64::MAX
        } else {
            n as u64
        }
    }

    /// Milliseconds in `value` samples at `sample_rate`, which must be
    /// positive.
    pub fn convert_value_from_sample_clock(value: u64, sample_rate: u32) -> (r: u64)
        requires
            sample_rate > 0,
        ensures
            r == millis_from_samples(value, sample_rate),
    {
        proof {
            vstd::arithmetic::mul::lemma_mul_inequality(value as int, u64::MAX as int, 1000);
            vstd::arithmetic::div_mod::lemma_div_is_ordered((value * 1000) as int, (u64::MAX * 1000) as int, sample_rate as int);
            vstd::arithmetic::div_mod::lemma_div_is_ordered_by_denominator((u64::MAX * 1000) as int, 1, sample_rate as int);
        }
        let n = (value as u128) * 1000 / (sample_rate as u128);
        if n > u64::MAX as u128 {
            u64::MAX
        } else {
            n as u64
        }
    }

    /// These values with their times read as milliseconds and turned into
    /// samples at `sample_rate`; the sustain level stays.
    pub fn convert_adsr_from_time(adsr: &ADSR, sample_rate: u32) -> (r: ADSR)
        ensures
            r == (ADSR {
                delay: samples_from_millis(adsr.delay, sample_rate) as u64,
                attack: samples_from_millis(adsr.attack, sample_rate) as u64,
                decay: samples_from_millis(adsr.decay, sample_rate) as u64,
                sustain: adsr.sustain,
                release: samples_from_millis(adsr.release, sample_rate) as u64,
            }),
    {
        ADSR {
            delay: Self::convert_value_from_time(adsr.delay, sample_rate),
            attack: Self::convert_value_from_time(adsr.attack, sample_rate),
            decay: Self::convert_value_from_time(adsr.decay, sample_rate),
            sustain: adsr.sustain,
            release: Self::convert_value_from_time(adsr.release, sample_rate),
        }
    }

    /// These values with their times turned from samples at `sample_rate`
    /// into milliseconds; the sustain level stays.
    pub fn convert_adsr_from_sample_clock(adsr: &ADSR, sample_rate: u32) -> (r: ADSR)
        requires
            sample_rate > 0,
        ensures
            r == (ADSR {
                delay: millis_from_samples(adsr.delay, sample_rate) as u64,
                attack: millis_from_samples(adsr.attack, sample_rate) as u64,
                decay: millis_from_samples(adsr.decay, sample_rate) as u64,
                sustain: adsr.sustain,
                release: millis_from_samples(adsr.release, sample_rate) as u64,
            }),
    {
        ADSR {
            delay: Self::convert_value_from_sample_clock(adsr.delay, sample_rate),
            attack: Self::convert_value_from_sample_clock(adsr.attack, sample_rate),
            decay: Self::convert_value_from_sample_clock(adsr.decay, sample_rate),
            sustain: adsr.sustain,
            release: Self::convert_value_from_sample_clock(adsr.release, sample_rate),
        }
    }
}

impl Default for ADSR {
    fn default() -> (r: ADSR)
        ensures
            r == ADSR::default_spec(),
    {
        ADSR { delay: 0, attack: 10000, decay: 5000, sustain: LEVEL_ONE, release: 100000 }
    }
}

/// Phase of an envelope.
#[derive(Copy, Clone, Debug, PartialEq, Eq, Structural)]
pub enum ADSREnvelopeState {
    Idle,
    Delay,
    Attack,
    Decay,
    Sustain,
    Release,
}

/// What an envelope holds, as the contracts see it. In a ramp phase (attack,
/// decay, release) the level goes linearly from `from_level` at `phase_start`
/// to `to_level` at `end_time`.
pub struct EnvelopeModel {
    pub adsr: ADSR,
    pub state: ADSREnvelopeState,
    pub phase_start: u64,
    pub end_time: u64,
    pub from_level: u32,
    pub to_level: u32,
    pub last_value: u32,
}

pub open spec fn is_ramp(s: ADSREnvelopeState) -> bool {
    s == ADSREnvelopeState::Attack || s == ADSREnvelopeState::Decay || s
        == ADSREnvelopeState::Release
}

/// `t + d`, held at `u64::MAX`.
pub open spec fn sat_add(t: u64, d: int) -> u64 {
    if t + d > u64::MAX {
        u64::MAX
    } else {
        (t + d) as u64
    }
}

/// Level after `steps` of the `dur` steps of a linear ramp.
pub open spec fn ramp_level(from: u32, to: u32, steps: int, dur: int) -> int {
    if to >= from {
        from + (to - from) * steps / dur
    } else {
        from - (from - to) * steps / dur
    }
}

/// Length of an attack that starts at level `last`: the full attack time,
/// shortened in proportion to the level already reached.
pub open spec fn attack_length(attack: u64, last: u32) -> int {
    attack * (LEVEL_ONE - last) / (LEVEL_ONE as int)
}

impl EnvelopeModel {
    pub open spec fn wf(&self) -> bool {
        &&& self.adsr.wf()
        &&& self.last_value <= LEVEL_ONE
        &&& self.from_level <= LEVEL_ONE
        &&& self.to_level <= LEVEL_ONE
        &&& self.phase_start <= self.end_time
        &&& (self.state == ADSREnvelopeState::Idle ==> self.last_value == 0)
        &&& (self.state == ADSREnvelopeState::Delay ==> self.last_value == 0)
    }

    /// Entering phase `s` at time `t`.
    pub open spec fn enter(self, s: ADSREnvelopeState, t: u64) -> EnvelopeModel {
        match s {
            ADSREnvelopeState::Idle => EnvelopeModel { state: s, last_value: 0, ..self },
            ADSREnvelopeState::Delay => EnvelopeModel {
                state: s,
                last_value: 0,
                from_level: 0,
                to_level: 0,
                phase_start: t,
                end_time: sat_add(t, self.adsr.delay as int),
                ..self
            },
            ADSREnvelopeState::Attack => EnvelopeModel {
                state: s,
                from_level: self.last_value,
                to_level: LEVEL_ONE,
                phase_start: t,
                end_time: sat_add(t, attack_length(self.adsr.attack, self.last_value)),
                ..self
            },
            ADSREnvelopeState::Decay => EnvelopeModel {
                state: s,
                from_level: self.last_value,
                to_level: self.adsr.sustain,
                phase_start: t,
                end_time: sat_add(t, self.adsr.decay as int),
                ..self
            },
            ADSREnvelopeState::Sustain => EnvelopeModel { state: s, ..self },
            ADSREnvelopeState::Release => EnvelopeModel {
                state: s,
                from_level: self.last_value,
                to_level: 0,
                phase_start: t,
                end_time: sat_add(t, self.adsr.release as int),
                ..self
            },
        }
    }

    /// Key pressed at `t`: a resting envelope waits out its delay, if it has
    /// one; otherwise the attack starts from the present level.
    pub open spec fn trigger(self, t: u64) -> EnvelopeModel {
        if self.state == ADSREnvelopeState::Idle && self.adsr.delay > 0 {
            self.enter(ADSREnvelopeState::Delay, t)
        } else {
            self.enter(ADSREnvelopeState::Attack, t)
        }
    }

    /// Key released at `t`: the level ramps from where it is down to 0.
    pub open spec fn release(self, t: u64) -> EnvelopeModel {
        if self.state != ADSREnvelopeState::Release {
            self.enter(ADSREnvelopeState::Release, t)
        } else {
            self
        }
    }

    /// Phase that follows a finished ramp or delay.
    pub open spec fn next_phase(s: ADSREnvelopeState) -> ADSREnvelopeState {
        match s {
            ADSREnvelopeState::Delay => ADSREnvelopeState::Attack,
            ADSREnvelopeState::Attack => ADSREnvelopeState::Decay,
            ADSREnvelopeState::Decay => ADSREnvelopeState::Sustain,
            _ => ADSREnvelopeState::Idle,
        }
    }

    /// The envelope sampled at time `t`; its level is then `last_value`.
    /// Each sampling within a ramp moves the level one step on, the first one
    /// included, so a ramp of `d` samples is complete at its `d`-th sampling.
    /// A sampling at or after the end of a ramp or delay gives the ramp's
    /// target and starts the next phase at the following sample. A time
    /// before the start of the phase under way leaves the envelope as it is.
    pub open spec fn sample(self, t: u64) -> EnvelopeModel {
        match self.state {
            ADSREnvelopeState::Idle => self,
            ADSREnvelopeState::Sustain => EnvelopeModel { last_value: self.adsr.sustain, ..self },
            ADSREnvelopeState::Delay => if t >= self.end_time {
                self.enter(ADSREnvelopeState::Attack, sat_add(t, 1))
            } else {
                self
            },
            _ => if t >= self.end_time {
                EnvelopeModel { last_value: self.to_level, ..self }.enter(
                    Self::next_phase(self.state),
                    sat_add(t, 1),
                )
            } else if t < self.phase_start {
                self
            } else {
                EnvelopeModel {
                    last_value: ramp_level(
                        self.from_level,
                        self.to_level,
                        t - self.phase_start + 1,
                        self.end_time - self.phase_start,
                    ) as u32,
                    ..self
                }
            },
        }
    }

    /// The envelope after being sampled at `n` consecutive times from `t`.
    pub open spec fn run(self, t: u64, n: nat) -> EnvelopeModel
        decreases n,
    {
        if n == 0 {
            self
        } else {
            self.sample(t).run(sat_add(t, 1), (n - 1) as nat)
        }
    }
}

/// Sampling `a + b` times in a row is sampling `a` times, then `b` times.
pub proof fn lemma_run_split(m: EnvelopeModel, t: u64, a: nat, b: nat)
    ensures
        m.run(t, a + b) == m.run(t, a).run(sat_add(t, a as int), b),
    decreases a,
{
    if a > 0 {
        lemma_run_split(m.sample(t), sat_add(t, 1), (a - 1) as nat, b);
        assert((a - 1) as nat + b == (a + b - 1) as nat);
        assert(sat_add(sat_add(t, 1), a - 1) == sat_add(t, a as int));
    }
}

/// Sampling once from `t` is sampling at `t`.
pub proof fn lemma_run_one(m: EnvelopeModel, t: u64)
    ensures
        m.run(t, 1) == m.sample(t),
{
    assert(m.run(t, 1) == m.sample(t).run(sat_add(t, 1), 0));
}

/// Within a ramp, `n` samplings from `t` leave the phase as it is, with the
/// level that the ramp has after that many steps from `t`.
pub proof fn lemma_ramp_run(m: EnvelopeModel, t: u64, n: nat)
    requires
        is_ramp(m.state),
        m.phase_start <= t,
        0 < n,
        t + n <= m.end_time,
    ensures
        m.run(t, n) == (EnvelopeModel {
            last_value: ramp_level(
                m.from_level,
                m.to_level,
                t + n - m.phase_start,
                m.end_time - m.phase_start,
            ) as u32,
            ..m
        }),
    decreases n,
{
    if n > 1 {
        assert(m.run(t, n) == m.sample(t).run((t + 1) as u64, (n - 1) as nat));
        lemma_ramp_run(m.sample(t), (t + 1) as u64, (n - 1) as nat);
    } else {
        lemma_run_one(m, t);
    }
}

/// Once sustaining, the envelope holds the sustain level.
pub proof fn lemma_sustain_run(m: EnvelopeModel, t: u64, n: nat)
    requires
        m.state == ADSREnvelopeState::Sustain,
        0 < n,
        t + n <= u64::MAX,
    ensures
        m.run(t, n) == (EnvelopeModel { last_value: m.adsr.sustain, ..m }),
    decreases n,
{
    if n > 1 {
        assert(m.run(t, n) == m.sample(t).run((t + 1) as u64, (n - 1) as nat));
        lemma_sustain_run(m.sample(t), (t + 1) as u64, (n - 1) as nat);
    } else {
        lemma_run_one(m, t);
    }
}

/// A complete ramp is at its target.
proof fn lemma_ramp_full(from: u32, to: u32, dur: int)
    requires
        0 < dur,
    ensures
        ramp_level(from, to, dur, dur) == to,
{
    if to >= from {
        lemma_mul_is_commutative((to - from) as int, dur);
        lemma_div_by_multiple((to - from) as int, dur);
    } else {
        lemma_mul_is_commutative((from - to) as int, dur);
        lemma_div_by_multiple((from - to) as int, dur);
    }
}

/// A resting envelope without delay, triggered at `t0` and sampled at every
/// time from `t0` to `t0 + attack + decay + k`, is at the sustain level from
/// the sampling at `t0 + attack + decay` on, and is sustaining after any
/// later one.
pub proof fn lemma_envelope_reaches_sustain(e: EnvelopeModel, t0: u64, k: nat)
    requires
        e.wf(),
        e.state == ADSREnvelopeState::Idle,
        e.adsr.delay == 0,
        t0 + e.adsr.attack + e.adsr.decay + k < u64::MAX,
    ensures
        ({
            let held = e.trigger(t0).run(t0, (e.adsr.attack + e.adsr.decay + k + 1) as nat);
            &&& held.wf()
            &&& held.last_value == e.adsr.sustain
            &&& held.state == if k == 0 {
                ADSREnvelopeState::Decay
            } else {
                ADSREnvelopeState::Sustain
            }
        }),
{
    let a = e.adsr.attack;
    let d = e.adsr.decay;
    let s = e.adsr.sustain;
    lemma_div_by_multiple(a as int, LEVEL_ONE as int);
    let e1 = e.trigger(t0);
    assert(e1.phase_start == t0 && e1.end_time == t0 + a);
    // Attack: full at the sampling at t0 + a - 1; the one at t0 + a ends it.
    lemma_ramp_run(e1, t0, a as nat);
    lemma_ramp_full(0, LEVEL_ONE, a as int);
    let e2 = e1.run(t0, (a + 1) as nat);
    lemma_run_split(e1, t0, a as nat, 1);
    lemma_run_one(e1.run(t0, a as nat), (t0 + a) as u64);
    assert(e2.state == ADSREnvelopeState::Decay);
    assert(e2.from_level == LEVEL_ONE && e2.to_level == s);
    assert(e2.phase_start == t0 + a + 1 && e2.end_time == t0 + a + 1 + d);
    // Decay: at the sustain level at its d-th sampling, at t0 + a + d.
    let e3 = e2.run((t0 + a + 1) as u64, d as nat);
    lemma_ramp_run(e2, (t0 + a + 1) as u64, d as nat);
    lemma_ramp_full(LEVEL_ONE, s, d as int);
    assert(e3.state == ADSREnvelopeState::Decay);
    assert(e3.last_value == s);
    assert(e3.wf());
    lemma_run_split(e1, t0, (a + 1) as nat, d as nat);
    assert(e1.run(t0, (a + 1 + d) as nat) == e3);
    let held = e1.run(t0, (a + d + k + 1) as nat);
    lemma_run_split(e1, t0, (a + 1 + d) as nat, k);
    assert((a + 1 + d) as nat + k == (a + d + k + 1) as nat);
    if k > 0 {
        // The sampling at t0 + a + d + 1 ends the decay; the sustain holds.
        let tn = (t0 + a + d + 1) as u64;
        lemma_run_split(e3, tn, 1, (k - 1) as nat);
        assert(1 + (k - 1) as nat == k);
        lemma_run_one(e3, tn);
        let e4 = e3.sample(tn);
        assert(e4.state == ADSREnvelopeState::Sustain);
        assert(e4.last_value == s);
        if k > 1 {
            lemma_sustain_run(e4, (tn + 1) as u64, (k - 1) as nat);
        }
    }
}

/// An envelope released at `tr`, from any phase but release, and sampled at
/// every time from `tr` on, falls linearly from its level `v` at release:
/// after `j` samplings, `1 <= j <= release`, it is at `v - v * j / release`,
/// so at 0 after exactly `release` of them; the next sampling finds it at
/// rest.
pub proof fn lemma_envelope_release(m: EnvelopeModel, tr: u64)
    requires
        m.wf(),
        m.state != ADSREnvelopeState::Release,
        tr + m.adsr.release < u64::MAX,
    ensures
        forall|j: nat|
            1 <= j <= m.adsr.release ==> {
                let r = #[trigger] m.release(tr).run(tr, j);
                &&& r.last_value == ramp_level(m.last_value, 0, j as int, m.adsr.release as int)
                &&& r.state == ADSREnvelopeState::Release
            },
        ramp_level(m.last_value, 0, m.adsr.release as int, m.adsr.release as int) == 0,
        m.release(tr).run(tr, (m.adsr.release + 1) as nat).state == ADSREnvelopeState::Idle,
        m.release(tr).run(tr, (m.adsr.release + 1) as nat).last_value == 0,
{
    let v = m.last_value;
    let rel = m.adsr.release;
    let r0 = m.release(tr);
    assert(r0.from_level == v && r0.to_level == 0);
    assert(r0.phase_start == tr && r0.end_time == tr + rel);
    assert forall|j: nat| 1 <= j <= rel implies {
        let r = #[trigger] r0.run(tr, j);
        &&& r.last_value == ramp_level(v, 0, j as int, rel as int)
        &&& r.state == ADSREnvelopeState::Release
    } by {
        lemma_ramp_run(r0, tr, j);
        lemma_ramp_between(v, 0, j as int, rel as int);
    }
    lemma_ramp_full(v, 0, rel as int);
    lemma_run_split(r0, tr, rel as nat, 1);
    lemma_run_one(r0.run(tr, rel as nat), (tr + rel) as u64);
    lemma_ramp_run(r0, tr, rel as nat);
}

/// A resting envelope without delay, triggered at `t0`, sampled at every
/// time before `tr = t0 + attack + decay + k` with `k >= 1`, and released at
/// `tr`, has reached the sustain level exactly before the release; sampled
/// on from `tr`, it then falls linearly to 0 over exactly `release`
/// samplings and rests after the next.
pub proof fn lemma_envelope_round_trip(e: EnvelopeModel, t0: u64, k: nat)
    requires
        e.wf(),
        e.state == ADSREnvelopeState::Idle,
        e.adsr.delay == 0,
        k >= 1,
        t0 + e.adsr.attack + e.adsr.decay + k + e.adsr.release < u64::MAX,
    ensures
        ({
            let tr = (t0 + e.adsr.attack + e.adsr.decay + k) as u64;
            let held = e.trigger(t0).run(t0, (e.adsr.attack + e.adsr.decay + k) as nat);
            let released = held.release(tr);
            &&& held.last_value == e.adsr.sustain
            &&& forall|j: nat|
                1 <= j <= e.adsr.release ==> (#[trigger] released.run(tr, j)).last_value
                    == ramp_level(e.adsr.sustain, 0, j as int, e.adsr.release as int)
            &&& released.run(tr, e.adsr.release as nat).last_value == 0
            &&& released.run(tr, (e.adsr.release + 1) as nat).state == ADSREnvelopeState::Idle
        }),
{
    let tr = (t0 + e.adsr.attack + e.adsr.decay + k) as u64;
    lemma_envelope_reaches_sustain(e, t0, (k - 1) as nat);
    assert((e.adsr.attack + e.adsr.decay + (k - 1) as nat + 1) as nat == (e.adsr.attack
        + e.adsr.decay + k) as nat);
    let held = e.trigger(t0).run(t0, (e.adsr.attack + e.adsr.decay + k) as nat);
    assert(held.adsr == e.adsr) by {
        lemma_run_keeps_adsr(e.trigger(t0), t0, (e.adsr.attack + e.adsr.decay + k) as nat);
    }
    lemma_envelope_release(held, tr);
    assert(held.release(tr).run(tr, e.adsr.release as nat).last_value == ramp_level(
        e.adsr.sustain,
        0,
        e.adsr.release as int,
        e.adsr.release as int,
    ));
}

/// Sampling never changes an envelope's values.
pub proof fn lemma_run_keeps_adsr(m: EnvelopeModel, t: u64, n: nat)
    ensures
        m.run(t, n).adsr == m.adsr,
    decreases n,
{
    if n > 0 {
        lemma_run_keeps_adsr(m.sample(t), sat_add(t, 1), (n - 1) as nat);
    }
}

/// One call made on an envelope, with its time.
#[derive(Copy, Clone, Debug, PartialEq, Eq, Structural)]
pub enum EnvelopeCall {
    Trigger(u64),
    Release(u64),
    Sample(u64),
}

impl EnvelopeModel {
    /// The envelope after `c`.
    pub open spec fn call(self, c: EnvelopeCall) -> EnvelopeModel {
        match c {
            EnvelopeCall::Trigger(t) => self.trigger(t),
            EnvelopeCall::Release(t) => self.release(t),
            EnvelopeCall::Sample(t) => self.sample(t),
        }
    }

    /// The envelope after the calls `cs`, in order.
    pub open spec fn calls(self, cs: Seq<EnvelopeCall>) -> EnvelopeModel
        decreases cs.len(),
    {
        if cs.len() == 0 {
            self
        } else {
            self.call(cs[0]).calls(cs.drop_first())
        }
    }
}

proof fn lemma_enter_wf(m: EnvelopeModel, s: ADSREnvelopeState, t: u64)
    requires
        m.wf(),
    ensures
        m.enter(s, t).wf(),
{
    if s == ADSREnvelopeState::Attack {
        lemma_scaled_le(m.adsr.attack as int, (LEVEL_ONE - m.last_value) as int, LEVEL_ONE as int);
    }
}

/// A well-formed envelope stays well formed after any one call, and so its
/// level stays within `0..=LEVEL_ONE`.
pub proof fn lemma_call_wf(m: EnvelopeModel, c: EnvelopeCall)
    requires
        m.wf(),
    ensures
        m.call(c).wf(),
        m.call(c).last_value <= LEVEL_ONE,
{
    match c {
        EnvelopeCall::Trigger(t) => {
            lemma_enter_wf(m, ADSREnvelopeState::Delay, t);
            lemma_enter_wf(m, ADSREnvelopeState::Attack, t);
        },
        EnvelopeCall::Release(t) => {
            lemma_enter_wf(m, ADSREnvelopeState::Release, t);
        },
        EnvelopeCall::Sample(t) => {
            if is_ramp(m.state) {
                if t >= m.end_time {
                    let m1 = EnvelopeModel { last_value: m.to_level, ..m };
                    lemma_enter_wf(m1, EnvelopeModel::next_phase(m.state), sat_add(t, 1));
                } else if t >= m.phase_start {
                    lemma_ramp_between(
                        m.from_level,
                        m.to_level,
                        t - m.phase_start + 1,
                        m.end_time - m.phase_start,
                    );
                }
            } else if m.state == ADSREnvelopeState::Delay {
                lemma_enter_wf(m, ADSREnvelopeState::Attack, sat_add(t, 1));
            }
        },
    }
}

/// Whatever triggers, releases and samplings are made on a well-formed
/// envelope, at whatever times, its level stays within `0..=LEVEL_ONE`.
pub proof fn lemma_level_in_range(m: EnvelopeModel, cs: Seq<EnvelopeCall>)
    requires
        m.wf(),
    ensures
        m.calls(cs).wf(),
        m.calls(cs).last_value <= LEVEL_ONE,
    decreases cs.len(),
{
    if cs.len() > 0 {
        lemma_call_wf(m, cs[0]);
        lemma_level_in_range(m.call(cs[0]), cs.drop_first());
    }
}

/// `d * e / n` lies in `0..=d` when `e <= n`.
pub proof fn lemma_scaled_le(d: int, e: int, n: int)
    requires
        0 <= d,
        0 <= e <= n,
        0 < n,
    ensures
        0 <= d * e / n <= d,
{
    lemma_mul_inequality(e, n, d);
    lemma_mul_is_commutative(e, d);
    lemma_mul_is_commutative(n, d);
    lemma_div_is_ordered(d * e, d * n, n);
    lemma_div_by_multiple(d, n);
    lemma_mul_inequality(0, e, d);
    lemma_div_is_ordered(0, d * e, n);
}

/// A ramp level lies between its two ends.
pub proof fn lemma_ramp_between(from: u32, to: u32, elapsed: int, dur: int)
    requires
        0 <= elapsed <= dur,
        0 < dur,
    ensures
        from <= to ==> from <= ramp_level(from, to, elapsed, dur) <= to,
        to <= from ==> to <= ramp_level(from, to, elapsed, dur) <= from,
{
    if to >= from {
        lemma_scaled_le(to - from, elapsed, dur);
    } else {
        lemma_scaled_le(from - to, elapsed, dur);
    }
}

/// Level after `steps` of the `dur` steps of a ramp from `from` to `to`.
fn ramp(from: u32, to: u32, steps: u64, dur: u64) -> (r: u32)
    requires
        from <= LEVEL_ONE,
        to <= LEVEL_ONE,
        steps <= dur,
        0 < dur,
    ensures
        r == ramp_level(from, to, steps as int, dur as int),
        r <= LEVEL_ONE,
{
    proof {
        lemma_ramp_between(from, to, steps as int, dur as int);
    }
    if to >= from {
        let diff = (to - from) as u128;
        proof {
            lemma_mul_inequality(diff as int, LEVEL_ONE as int, steps as int);
        }
        let step = diff * (steps as u128) / (dur as u128);
        from + step as u32
    } else {
        let diff = (from - to) as u128;
        proof {
            lemma_mul_inequality(diff as int, LEVEL_ONE as int, steps as int);
        }
        let step = diff * (steps as u128) / (dur as u128);
        from - step as u32
    }
}


/// Amplitude envelope of one voice: delay, attack, decay, sustain and release,
/// driven by the sample clock.
pub struct ADSREnvelope {
    adsr_values: ADSR,
    state: ADSREnvelopeState,
    phase_start: u64,
    end_time: u64,
    from_level: u32,
    to_level: u32,
    last_value: u32,
}

impl View for ADSREnvelope {
    type V = EnvelopeModel;

    closed spec fn view(&self) -> EnvelopeModel {
        EnvelopeModel {
            adsr: self.adsr_values,
            state: self.state,
            phase_start: self.phase_start,
            end_time: self.end_time,
            from_level: self.from_level,
            to_level: self.to_level,
            last_value: self.last_value,
        }
    }
}

fn sat_add_exec(t: u64, d: u64) -> (r: u64)
    ensures
        r == sat_add(t, d as int),
{
    if t > u64::MAX - d {
        u64::MAX
    } else {
        t + d
    }
}

impl ADSREnvelope {
    /// A resting envelope with these values.
    pub fn new(adsr_values: ADSR) -> (r: ADSREnvelope)
        requires
            adsr_values.wf(),
        ensures
            r@.wf(),
            r@.adsr == adsr_values,
            r@.state == ADSREnvelopeState::Idle,
            r@.last_value == 0,
    {
        ADSREnvelope {
            adsr_values,
            state: ADSREnvelopeState::Idle,
            phase_start: 0,
            end_time: 0,
            from_level: 0,
            to_level: 0,
            last_value: 0,
        }
    }

    pub fn adsr_values(&self) -> (r: ADSR)
        ensures
            r == self@.adsr,
    {
        self.adsr_values
    }

    pub fn state(&self) -> (r: ADSREnvelopeState)
        ensures
            r == self@.state,
    {
        self.state
    }

    /// Level returned by the last sampling.
    pub fn last_value(&self) -> (r: u32)
        ensures
            r == self@.last_value,
    {
        self.last_value
    }

    /// Replaces the envelope's values; the phase under way keeps its times,
    /// the new ones apply from the next phase on.
    pub fn set_adsr_values(&mut self, adsr_values: ADSR)
        requires
            old(self)@.wf(),
            adsr_values.wf(),
        ensures
            final(self)@ == (EnvelopeModel { adsr: adsr_values, ..old(self)@ }),
    {
        self.adsr_values = adsr_values;
    }

    pub fn is_active(&self) -> (r: bool)
        ensures
            r == (self@.state != ADSREnvelopeState::Idle),
    {
        self.state != ADSREnvelopeState::Idle
    }

    /// Back to rest at level 0.
    pub fn reset(&mut self)
        requires
            old(self)@.wf(),
        ensures
            final(self)@.wf(),
            final(self)@ == (EnvelopeModel {
                state: ADSREnvelopeState::Idle,
                phase_start: 0,
                end_time: 0,
                from_level: 0,
                to_level: 0,
                last_value: 0,
                ..old(self)@
            }),
    {
        self.state = ADSREnvelopeState::Idle;
        self.phase_start = 0;
        self.end_time = 0;
        self.from_level = 0;
        self.to_level = 0;
        self.last_value = 0;
    }

    fn change_state(&mut self, new_state: ADSREnvelopeState, sample_time: u64)
        requires
            old(self)@.wf(),
        ensures
            final(self)@ == old(self)@.enter(new_state, sample_time),
            final(self)@.wf(),
    {
        self.state = new_state;
        match new_state {
            ADSREnvelopeState::Idle => {
                self.last_value = 0;
            },
            ADSREnvelopeState::Delay => {
                self.last_value = 0;
                self.from_level = 0;
                self.to_level = 0;
                self.phase_start = sample_time;
                self.end_time = sat_add_exec(sample_time, self.adsr_values.delay);
            },
            ADSREnvelopeState::Attack => {
                let remaining = (LEVEL_ONE - self.last_value) as u128;
                proof {
                    lemma_scaled_le(
                        self.adsr_values.attack as int,
                        remaining as int,
                        LEVEL_ONE as int,
                    );
                    lemma_mul_inequality(remaining as int, LEVEL_ONE as int, self.adsr_values.attack as int);
                    lemma_mul_is_commutative(remaining as int, self.adsr_values.attack as int);
                }
                let length = (self.adsr_values.attack as u128) * remaining / (LEVEL_ONE as u128);
                self.from_level = self.last_value;
                self.to_level = LEVEL_ONE;
                self.phase_start = sample_time;
                self.end_time = sat_add_exec(sample_time, length as u64);
            },
            ADSREnvelopeState::Decay => {
                self.from_level = self.last_value;
                self.to_level = self.adsr_values.sustain;
                self.phase_start = sample_time;
                self.end_time = sat_add_exec(sample_time, self.adsr_values.decay);
            },
            ADSREnvelopeState::Sustain => {},
            ADSREnvelopeState::Release => {
                self.from_level = self.last_value;
                self.to_level = 0;
                self.phase_start = sample_time;
                self.end_time = sat_add_exec(sample_time, self.adsr_values.release);
            },
        }
    }

    /// Key pressed at `sample_clock`.
    pub fn trigger(&mut self, sample_clock: u64)
        requires
            old(self)@.wf(),
        ensures
            final(self)@.wf(),
            final(self)@ == old(self)@.trigger(sample_clock),
    {
        if self.state == ADSREnvelopeState::Idle && self.adsr_values.delay > 0 {
            self.change_state(ADSREnvelopeState::Delay, sample_clock);
        } else {
            self.change_state(ADSREnvelopeState::Attack, sample_clock);
        }
    }

    /// Key released at `sample_clock`.
    pub fn release(&mut self, sample_clock: u64)
        requires
            old(self)@.wf(),
        ensures
            final(self)@.wf(),
            final(self)@ == old(self)@.release(sample_clock),
    {
        if self.state != ADSREnvelopeState::Release {
            self.change_state(ADSREnvelopeState::Release, sample_clock);
        }
    }

    /// The envelope's level at `sample_clock`, in `0..=LEVEL_ONE`.
    pub fn get_next_sample(&mut self, sample_clock: u64) -> (r: u32)
        requires
            old(self)@.wf(),
        ensures
            final(self)@.wf(),
            final(self)@ == old(self)@.sample(sample_clock),
            r == final(self)@.last_value,
            r <= LEVEL_ONE,
    {
        match self.state {
            ADSREnvelopeState::Idle => {},
            ADSREnvelopeState::Sustain => {
                self.last_value = self.adsr_values.sustain;
            },
            ADSREnvelopeState::Delay => {
                if sample_clock >= self.end_time {
                    self.change_state(ADSREnvelopeState::Attack, sat_add_exec(sample_clock, 1));
                }
            },
            _ => {
                if sample_clock >= self.end_time {
                    self.last_value = self.to_level;
                    let next = match self.state {
                        ADSREnvelopeState::Attack => ADSREnvelopeState::Decay,
                        ADSREnvelopeState::Decay => ADSREnvelopeState::Sustain,
                        _ => ADSREnvelopeState::Idle,
                    };
                    self.change_state(next, sat_add_exec(sample_clock, 1));
                } else if sample_clock >= self.phase_start {
                    self.last_value = ramp(
                        self.from_level,
                        self.to_level,
                        sample_clock - self.phase_start + 1,
                        self.end_time - self.phase_start,
                    );
                }
            },
        }
        self.last_value
    }
}

} // verus!
