use vstd::prelude::*;
use vstd::arithmetic::div_mod::{lemma_fundamental_div_mod, lemma_mod_multiples_basic};
use vstd::arithmetic::mul::{lemma_mul_is_associative, lemma_mul_is_commutative};

verus! {

/// One full LFO cycle: positions run over `0..PHASE_ONE`.
pub const PHASE_ONE: u64 = 4294967296;

/// Frequencies are counted in thousandths of a hertz.
pub const MILLIHERTZ_PER_HERTZ: u64 = 1000;

/// Shape of an LFO's cycle.
#[derive(Copy, Clone, Debug, PartialEq, Eq, Structural)]
pub enum LfoType {
    Sine,
    Saw,
    Square,
}

/// What an LFO reports of itself.
#[derive(Copy, Clone, Debug, PartialEq, Eq, Structural)]
pub struct LfoStatePacket {
    pub waveform: LfoType,
    pub frequency: u32,
    pub phase: u64,
}

/// A low-frequency oscillator driven by the sample clock. `frequency` is in
/// millihertz; `phase` is the point of the cycle, out of `PHASE_ONE`, where
/// the square wave falls from high to low.
#[derive(Copy, Clone, Debug)]
pub struct Lfo {
    waveform: LfoType,
    frequency: u32,
    phase: u64,
    pos: u64,
    last_update: u64,
}

/// Part of a cycle covered by `frequency` millihertz over `dt` samples at
/// `rate` samples per second, whole cycles left out, out of `PHASE_ONE`.
pub open spec fn cycle_advance(frequency: u32, dt: int, rate: u32) -> int {
    let k = rate * MILLIHERTZ_PER_HERTZ;
    ((frequency * dt) % k) * PHASE_ONE / k
}

/// Samples from `last` to `clock`; none when the clock went back.
pub open spec fn elapsed(last: u64, clock: u64) -> int {
    if clock >= last {
        clock - last
    } else {
        0
    }
}

impl Lfo {
    pub closed spec fn waveform_spec(&self) -> LfoType {
        self.waveform
    }

    pub closed spec fn frequency_spec(&self) -> u32 {
        self.frequency
    }

    pub closed spec fn phase_spec(&self) -> u64 {
        self.phase
    }

    pub closed spec fn pos_spec(&self) -> int {
        self.pos as int
    }

    pub closed spec fn last_update_spec(&self) -> int {
        self.last_update as int
    }

    pub open spec fn wf(&self) -> bool {
        &&& 0 <= self.pos_spec() < PHASE_ONE
        &&& 0 <= self.last_update_spec() <= u64::MAX
        &&& self.phase_spec() <= PHASE_ONE
    }

    /// Position in the cycle after an advance to `clock`.
    pub open spec fn next_pos(&self, clock: u64, rate: u32) -> int {
        (self.pos_spec() + cycle_advance(
            self.frequency_spec(),
            elapsed(self.last_update_spec() as u64, clock),
            rate,
        )) % (PHASE_ONE as int)
    }

    pub fn new(waveform: LfoType, frequency: u32, phase: u64) -> (r: Lfo)
        requires
            phase <= PHASE_ONE,
        ensures
            r.wf(),
            r.waveform_spec() == waveform,
            r.frequency_spec() == frequency,
            r.phase_spec() == phase,
            r.pos_spec() == 0,
            r.last_update_spec() == 0,
    {
        Lfo { waveform, frequency, phase, pos: 0, last_update: 0 }
    }

    pub fn set_frequency(&mut self, new_frequency: u32)
        requires
            old(self).wf(),
        ensures
            *final(self) == old(self).with_frequency(new_frequency),
            final(self).frequency_spec() == new_frequency,
            final(self).waveform_spec() == old(self).waveform_spec(),
            final(self).phase_spec() == old(self).phase_spec(),
            final(self).pos_spec() == old(self).pos_spec(),
            final(self).last_update_spec() == old(self).last_update_spec(),
            final(self).wf(),
    {
        self.frequency = new_frequency;
    }

    pub fn set_phase(&mut self, new_phase: u64)
        requires
            old(self).wf(),
            new_phase <= PHASE_ONE,
        ensures
            *final(self) == old(self).with_phase(new_phase),
            final(self).phase_spec() == new_phase,
            final(self).waveform_spec() == old(self).waveform_spec(),
            final(self).frequency_spec() == old(self).frequency_spec(),
            final(self).pos_spec() == old(self).pos_spec(),
            final(self).last_update_spec() == old(self).last_update_spec(),
            final(self).wf(),
    {
        self.phase = new_phase;
    }

    pub fn set_waveform(&mut self, new_waveform: LfoType)
        requires
            old(self).wf(),
        ensures
            *final(self) == old(self).with_waveform(new_waveform),
            final(self).waveform_spec() == new_waveform,
            final(self).frequency_spec() == old(self).frequency_spec(),
            final(self).phase_spec() == old(self).phase_spec(),
            final(self).pos_spec() == old(self).pos_spec(),
            final(self).last_update_spec() == old(self).last_update_spec(),
            final(self).wf(),
    {
        self.waveform = new_waveform;
    }

    /// The same LFO at `frequency`.
    pub closed spec fn with_frequency(self, frequency: u32) -> Lfo {
        Lfo { frequency, ..self }
    }

    /// The same LFO with its square wave falling at `phase`.
    pub closed spec fn with_phase(self, phase: u64) -> Lfo {
        Lfo { phase, ..self }
    }

    /// The same LFO with another waveform.
    pub closed spec fn with_waveform(self, waveform: LfoType) -> Lfo {
        Lfo { waveform, ..self }
    }

    /// The LFO moved on to `clock` at `rate` samples per second.
    pub closed spec fn advanced(self, clock: u64, rate: u32) -> Lfo {
        Lfo { pos: self.next_pos(clock, rate) as u64, last_update: clock, ..self }
    }

    pub fn waveform(&self) -> (r: LfoType)
        ensures
            r == self.waveform_spec(),
    {
        self.waveform
    }

    pub fn frequency(&self) -> (r: u32)
        ensures
            r == self.frequency_spec(),
    {
        self.frequency
    }

    pub fn phase(&self) -> (r: u64)
        ensures
            r == self.phase_spec(),
    {
        self.phase
    }

    /// Position in the cycle, out of `PHASE_ONE`.
    pub fn position(&self) -> (r: u64)
        ensures
            r == self.pos_spec(),
    {
        self.pos
    }

    /// Moves the LFO on to `sample_clock` at `sample_rate` samples per second
    /// and returns its new position in the cycle, out of `PHASE_ONE`. A clock
    /// earlier than the previous one moves it nowhere, and later advances
    /// count from that clock.
    pub fn get_sample(&mut self, sample_clock: u64, sample_rate: u32) -> (r: u64)
        requires
            old(self).wf(),
            sample_rate > 0,
        ensures
            final(self).wf(),
            *final(self) == old(self).advanced(sample_clock, sample_rate),
            r == final(self).pos_spec(),
            final(self).pos_spec() == old(self).next_pos(sample_clock, sample_rate),
            final(self).last_update_spec() == sample_clock,
            final(self).waveform_spec() == old(self).waveform_spec(),
            final(self).frequency_spec() == old(self).frequency_spec(),
            final(self).phase_spec() == old(self).phase_spec(),
    {
        let dt: u64 = if sample_clock >= self.last_update {
            sample_clock - self.last_update
        } else {
            0
        };
        let k: u128 = (sample_rate as u128) * (MILLIHERTZ_PER_HERTZ as u128);
        proof {
            vstd::arithmetic::mul::lemma_mul_inequality(
                self.frequency as int,
                u32::MAX as int,
                dt as int,
            );
            vstd::arithmetic::mul::lemma_mul_inequality(dt as int, u64::MAX as int, u32::MAX as int);
            lemma_mul_is_commutative(dt as int, u32::MAX as int);
        }
        let cycles = (self.frequency as u128) * (dt as u128);
        let part = cycles % k;
        proof {
            vstd::arithmetic::mul::lemma_mul_strict_inequality(part as int, k as int, PHASE_ONE as int);
            vstd::arithmetic::div_mod::lemma_div_is_ordered(
                (part * PHASE_ONE as int) as int,
                (k * PHASE_ONE as int) as int,
                k as int,
            );
            vstd::arithmetic::div_mod::lemma_div_by_multiple(PHASE_ONE as int, k as int);
            lemma_mul_is_commutative(k as int, PHASE_ONE as int);
        }
        let advance = part * (PHASE_ONE as u128) / k;
        self.pos = ((self.pos as u128 + advance) % (PHASE_ONE as u128)) as u64;
        self.last_update = sample_clock;
        self.pos
    }

    pub fn get_state_packet(&self) -> (r: LfoStatePacket)
        ensures
            r == (LfoStatePacket {
                waveform: self.waveform_spec(),
                frequency: self.frequency_spec(),
                phase: self.phase_spec(),
            }),
    {
        LfoStatePacket { waveform: self.waveform, frequency: self.frequency, phase: self.phase }
    }
}

/// An advanced LFO keeps its settings and stands where `next_pos` says.
pub proof fn lemma_advanced(l: Lfo, clock: u64, rate: u32)
    requires
        l.wf(),
        rate > 0,
    ensures
        l.advanced(clock, rate).waveform_spec() == l.waveform_spec(),
        l.advanced(clock, rate).frequency_spec() == l.frequency_spec(),
        l.advanced(clock, rate).phase_spec() == l.phase_spec(),
        l.advanced(clock, rate).pos_spec() == l.next_pos(clock, rate),
        l.advanced(clock, rate).last_update_spec() == clock,
        l.advanced(clock, rate).wf(),
{
    vstd::arithmetic::div_mod::lemma_mod_bound(
        l.pos_spec() + cycle_advance(l.frequency, elapsed(l.last_update, clock), rate),
        PHASE_ONE as int,
    );
}

/// An LFO of positive `frequency` whose period is a whole number of samples,
/// `rate * 1000 / frequency`, stands at the same point of its cycle, and so
/// gives the same output for any waveform, when advanced by any whole number
/// of periods.
pub proof fn lemma_lfo_periodic(l: Lfo, rate: u32, n: nat)
    requires
        l.wf(),
        rate > 0,
        l.frequency_spec() > 0,
        (rate * MILLIHERTZ_PER_HERTZ) % (l.frequency_spec() as int) == 0,
        l.last_update_spec() + n * ((rate * MILLIHERTZ_PER_HERTZ) / (l.frequency_spec() as int))
            <= u64::MAX,
    ensures
        ({
            let period = (rate * MILLIHERTZ_PER_HERTZ) / (l.frequency_spec() as int);
            l.next_pos((l.last_update_spec() + n * period) as u64, rate) == l.pos_spec()
        }),
{
    let k = rate * MILLIHERTZ_PER_HERTZ;
    let f = l.frequency_spec() as int;
    let period = k / f;
    lemma_fundamental_div_mod(k, f);
    assert(k == f * period);
    assert(n * period >= 0) by (nonlinear_arith)
        requires
            n >= 0,
            period >= 0,
    ;
    let dt = n * period;
    assert(elapsed(l.last_update_spec() as u64, (l.last_update_spec() + dt) as u64) == dt);
    lemma_mul_is_associative(f, n as int, period);
    lemma_mul_is_commutative(f, n as int);
    lemma_mul_is_associative(n as int, f, period);
    assert(f * dt == n * k);
    lemma_mod_multiples_basic(n as int, k);
    assert(cycle_advance(l.frequency_spec(), dt, rate) == 0);
    vstd::arithmetic::div_mod::lemma_small_mod(l.pos_spec() as nat, PHASE_ONE as nat);
}

} // verus!
