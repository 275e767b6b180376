use vstd::prelude::*;
use crate::envelope::{ADSREnvelope, EnvelopeModel, ADSR, LEVEL_ONE, sat_add};
use crate::filters::{
    Effect, EffectStatePacket, IIRLowPassFilter, FilterError, filter_error, RESONANCE_ONE,
    effect_advanced, effect_packet, effect_position,
};
use vstd::arithmetic::div_mod::{lemma_mod_bound, lemma_div_is_ordered, lemma_div_by_multiple};
use vstd::arithmetic::mul::{lemma_mul_inequality, lemma_mul_is_commutative};

verus! {

/// Table positions are counted in `1 / FRAC_ONE` of an entry.
pub const FRAC_ONE: u64 = 65536;

/// Frequency, in millihertz, at which the table is read one entry per sample.
pub const REFERENCE_FREQUENCY: u64 = 10000;

/// Longest wavetable a voice can play.
pub const MAX_TABLE_LEN: usize = 4294967295;

/// Cutoff, in millihertz, of the low-pass filter that starts every voice's
/// effect chain.
pub const VOICE_LOW_PASS_CUTOFF: u32 = 15000000;

/// A sound file offered as a wavetable.
#[derive(Clone, Debug, PartialEq, Eq)]
pub struct Sample {
    pub name: String,
    pub path: String,
}

/// What the engine knows of a loaded wavetable: where it came from, its
/// channels and rate, and how many samples (interleaved) it holds. The sample
/// values themselves stay with the caller, indexed as the frames say.
#[derive(Clone, Debug)]
pub struct Wavetable {
    pub sample: Sample,
    pub channels: u16,
    pub sample_rate: u32,
    pub num_samples: usize,
}

impl Wavetable {
    pub open spec fn wf(&self) -> bool {
        0 < self.num_samples <= MAX_TABLE_LEN
    }

    pub fn get_num_samples(&self) -> (r: usize)
        ensures
            r == self.num_samples,
    {
        self.num_samples
    }
}

/// How to make one output sample: interpolate linearly between table entries
/// `index0` and `index1`, `frac / FRAC_ONE` of the way to the second, and
/// scale by `amplitude / LEVEL_ONE`.
#[derive(Copy, Clone, Debug, PartialEq, Eq, Structural)]
pub struct Frame {
    pub index0: usize,
    pub index1: usize,
    pub frac: u32,
    pub amplitude: u32,
}

/// Step through the table per sample at `frequency` millihertz.
pub open spec fn table_delta_for(frequency: u32) -> int {
    frequency * FRAC_ONE / (REFERENCE_FREQUENCY as int)
}

/// Gain times envelope level, both out of `LEVEL_ONE`.
pub open spec fn amplitude(gain: u32, level: u32) -> int {
    gain * level / (LEVEL_ONE as int)
}

/// Position `delta` further on, wrapped at the table's end.
pub open spec fn next_index(index: int, delta: int, len: int) -> int {
    (index + delta) % (len * FRAC_ONE)
}

/// Position after `n` steps of `delta` from `index`.
pub open spec fn index_after(index: int, delta: int, len: int, n: int) -> int {
    (index + n * delta) % (len * FRAC_ONE)
}

proof fn lemma_index_step(index: int, delta: int, len: int, n: int)
    requires
        0 <= index,
        0 <= delta,
        0 < len,
        0 <= n,
    ensures
        next_index(index_after(index, delta, len, n), delta, len) == index_after(
            index,
            delta,
            len,
            n + 1,
        ),
{
    let m = len * FRAC_ONE;
    lemma_mul_inequality(1, len, FRAC_ONE as int);
    assert((n + 1) * delta == n * delta + delta) by (nonlinear_arith);
    vstd::arithmetic::div_mod::lemma_add_mod_noop_right(delta, index + n * delta, m);
}

/// However many samples a voice renders, its reading position stays within
/// its table: `0 <= position < len` entries.
pub proof fn lemma_position_in_table(index: int, delta: int, len: int, n: int)
    requires
        0 < len,
    ensures
        0 <= index_after(index, delta, len, n) < len * FRAC_ONE,
{
    lemma_mul_inequality(1, len, FRAC_ONE as int);
    lemma_mod_bound(index + n * delta, len * FRAC_ONE);
}

/// The frame read at position `index` of a table of `len` entries.
pub open spec fn frame_at(index: int, len: int, amp: int) -> Frame {
    let i0 = index / (FRAC_ONE as int);
    Frame {
        index0: i0 as usize,
        index1: if i0 + 1 == len {
            0
        } else {
            (i0 + 1) as usize
        },
        frac: (index % (FRAC_ONE as int)) as u32,
        amplitude: amp as u32,
    }
}

/// Every effect of the chain is well formed.
pub open spec fn effects_wf(effects: Seq<Effect>) -> bool {
    forall|i: int| 0 <= i < effects.len() ==> #[trigger] effects[i].wf()
}

/// What a voice reports of itself.
#[derive(Clone, Debug)]
pub struct OscStatePacket {
    pub name: String,
    pub gain: u32,
    pub frequency: u32,
    pub adsr: ADSR,
    pub effects: Vec<EffectStatePacket>,
}

/// One voice: a wavetable read at a given frequency, scaled by a gain and an
/// envelope, then passed through a chain of effects. `gain` is out of
/// `LEVEL_ONE`, `frequency` in millihertz.
pub struct Oscillator {
    gain: u32,
    frequency: u32,
    current_index: u64,
    table_delta: u64,
    wavetable: Wavetable,
    effects: Vec<Effect>,
    envelope: ADSREnvelope,
}

impl Oscillator {
    pub closed spec fn gain_spec(&self) -> u32 {
        self.gain
    }

    pub closed spec fn frequency_spec(&self) -> u32 {
        self.frequency
    }

    /// Reading position, out of `FRAC_ONE` per table entry.
    pub closed spec fn index_spec(&self) -> int {
        self.current_index as int
    }

    pub closed spec fn delta_spec(&self) -> int {
        self.table_delta as int
    }

    pub closed spec fn wavetable_spec(&self) -> Wavetable {
        self.wavetable
    }

    pub closed spec fn effects_spec(&self) -> Seq<Effect> {
        self.effects@
    }

    pub closed spec fn envelope_spec(&self) -> EnvelopeModel {
        self.envelope@
    }

    pub open spec fn table_len(&self) -> int {
        self.wavetable_spec().num_samples as int
    }

    pub open spec fn wf(&self) -> bool {
        &&& self.wavetable_spec().wf()
        &&& 0 <= self.index_spec() < self.table_len() * FRAC_ONE
        &&& self.delta_spec() == table_delta_for(self.frequency_spec())
        &&& self.envelope_spec().wf()
        &&& effects_wf(self.effects_spec())
    }

    /// Same gain, frequency, wavetable and effects as `o`.
    pub open spec fn same_voice(&self, o: Oscillator) -> bool {
        &&& self.gain_spec() == o.gain_spec()
        &&& self.frequency_spec() == o.frequency_spec()
        &&& self.delta_spec() == o.delta_spec()
        &&& self.wavetable_spec() == o.wavetable_spec()
        &&& self.effects_spec() == o.effects_spec()
    }

    /// Everything but the effect chain is as in `o`.
    pub open spec fn same_but_effects(&self, o: Oscillator) -> bool {
        &&& self.gain_spec() == o.gain_spec()
        &&& self.frequency_spec() == o.frequency_spec()
        &&& self.delta_spec() == o.delta_spec()
        &&& self.wavetable_spec() == o.wavetable_spec()
        &&& self.envelope_spec() == o.envelope_spec()
        &&& self.index_spec() == o.index_spec()
    }

    /// Frame `i` of a chunk rendered from this voice from time `start` on.
    pub open spec fn chunk_frame(&self, start: u64, i: int) -> Frame {
        frame_at(
            index_after(self.index_spec(), self.delta_spec(), self.table_len(), i),
            self.table_len(),
            amplitude(self.gain_spec(), self.envelope_spec().run(start, (i + 1) as nat).last_value),
        )
    }

    /// `new` is this voice after rendering the `n` frames `frames` from time
    /// `start` on and moving its LFOs on to `start` at `rate`, which left them
    /// at `positions`.
    pub open spec fn rendered(
        &self,
        new: Oscillator,
        frames: Seq<Frame>,
        positions: Seq<u64>,
        start: u64,
        n: nat,
        rate: u32,
    ) -> bool {
        &&& new.wf()
        &&& frames.len() == n
        &&& forall|i: int| 0 <= i < n ==> #[trigger] frames[i] == self.chunk_frame(start, i)
        &&& new.envelope_spec() == self.envelope_spec().run(start, n)
        &&& new.index_spec() == index_after(self.index_spec(), self.delta_spec(), self.table_len(), n as int)
        &&& new.gain_spec() == self.gain_spec()
        &&& new.frequency_spec() == self.frequency_spec()
        &&& new.delta_spec() == self.delta_spec()
        &&& new.wavetable_spec() == self.wavetable_spec()
        &&& new.effects_spec() == self.effects_spec().map_values(|e: Effect| effect_advanced(e, start, rate))
        &&& positions.len() == self.effects_spec().len()
        &&& forall|i: int|
            0 <= i < positions.len() ==> #[trigger] positions[i] == effect_position(
                self.effects_spec()[i],
                start,
                rate,
            )
    }

    /// A voice at rest at the start of `wavetable`, with the default
    /// envelope and, as first effect, a 15 kHz low-pass filter; refused when
    /// that cutoff is not below half of `sample_rate`.
    pub fn new(gain: u32, frequency: u32, wavetable: Wavetable, sample_rate: u32) -> (r: Result<
        Oscillator,
        FilterError,
    >)
        requires
            wavetable.wf(),
        ensures
            match filter_error(sample_rate, VOICE_LOW_PASS_CUTOFF, RESONANCE_ONE) {
                Some(e) => r == Err::<Oscillator, FilterError>(e),
                None => r matches Ok(o) && {
                    &&& o.wf()
                    &&& o.gain_spec() == gain
                    &&& o.frequency_spec() == frequency
                    &&& o.index_spec() == 0
                    &&& o.wavetable_spec() == wavetable
                    &&& o.effects_spec() == seq![
                        Effect::IIRFilter(
                            IIRLowPassFilter {
                                sample_rate,
                                frequency: VOICE_LOW_PASS_CUTOFF,
                                q: RESONANCE_ONE,
                            },
                        ),
                    ]
                    &&& o.envelope_spec().state == crate::envelope::ADSREnvelopeState::Idle
                    &&& o.envelope_spec().adsr == ADSR::default_spec()
                },
            },
    {
        let low_pass = match IIRLowPassFilter::new_low_pass(
            sample_rate,
            VOICE_LOW_PASS_CUTOFF,
            RESONANCE_ONE,
        ) {
            Ok(f) => f,
            Err(e) => {
                return Err(e);
            },
        };
        let adsr = ADSR::default();
        let mut effects: Vec<Effect> = Vec::new();
        effects.push(Effect::IIRFilter(low_pass));
        let table_delta = Self::delta_of(frequency);
        Ok(
            Oscillator {
                gain,
                frequency,
                current_index: 0,
                table_delta,
                wavetable,
                effects,
                envelope: ADSREnvelope::new(adsr),
            },
        )
    }

    fn delta_of(frequency: u32) -> (r: u64)
        ensures
            r == table_delta_for(frequency),
    {
        proof {
            lemma_mul_inequality(frequency as int, u32::MAX as int, FRAC_ONE as int);
        }
        (frequency as u64) * FRAC_ONE / REFERENCE_FREQUENCY
    }

    /// Plays `wavetable` from its start, the envelope back at rest.
    pub fn queue_change_wavetable(&mut self, wavetable: Wavetable)
        requires
            old(self).wf(),
            wavetable.wf(),
        ensures
            final(self).wf(),
            final(self).wavetable_spec() == wavetable,
            final(self).index_spec() == 0,
            final(self).envelope_spec().state == crate::envelope::ADSREnvelopeState::Idle,
            final(self).envelope_spec().last_value == 0,
            final(self).envelope_spec().adsr == old(self).envelope_spec().adsr,
            final(self).gain_spec() == old(self).gain_spec(),
            final(self).frequency_spec() == old(self).frequency_spec(),
            final(self).effects_spec() == old(self).effects_spec(),
    {
        self.envelope.reset();
        self.wavetable = wavetable;
        self.current_index = 0;
        self.table_delta = Self::delta_of(self.frequency);
    }

    pub fn get_state_packet(&self) -> (r: OscStatePacket)
        ensures
            r.name == self.wavetable_spec().sample.name,
            r.gain == self.gain_spec(),
            r.frequency == self.frequency_spec(),
            r.adsr == self.envelope_spec().adsr,
            r.effects@ == self.effects_spec().map_values(|e: Effect| effect_packet(e)),
    {
        let mut effects: Vec<EffectStatePacket> = Vec::with_capacity(self.effects.len());
        let mut i: usize = 0;
        while i < self.effects.len()
            invariant
                i <= self.effects@.len(),
                effects@.len() == i,
                forall|j: int| 0 <= j < i ==> #[trigger] effects@[j] == effect_packet(self.effects@[j]),
            decreases self.effects@.len() - i,
        {
            effects.push(self.effects[i].get_state_packet());
            i = i + 1;
        }
        proof {
            assert(effects@ =~= self.effects@.map_values(|e: Effect| effect_packet(e)));
        }
        OscStatePacket {
            name: self.wavetable.sample.name.clone(),
            gain: self.gain,
            frequency: self.frequency,
            adsr: self.envelope.adsr_values(),
            effects,
        }
    }

    /// Appends an effect to the end of the chain.
    pub fn add_effect(&mut self, effect: Effect)
        requires
            old(self).wf(),
            effect.wf(),
        ensures
            final(self).wf(),
            final(self).effects_spec() == old(self).effects_spec().push(effect),
            final(self).index_spec() == old(self).index_spec(),
            final(self).envelope_spec() == old(self).envelope_spec(),
            final(self).gain_spec() == old(self).gain_spec(),
            final(self).frequency_spec() == old(self).frequency_spec(),
            final(self).delta_spec() == old(self).delta_spec(),
            final(self).wavetable_spec() == old(self).wavetable_spec(),
    {
        self.effects.push(effect);
        proof {
            assert forall|i: int| 0 <= i < self.effects@.len() implies #[trigger] self.effects@[i].wf() by {
                if i < old(self).effects@.len() {
                    assert(self.effects@[i] == old(self).effects@[i]);
                    assert(old(self).effects_spec()[i].wf());
                }
            }
        }
    }

    pub fn effects_len(&self) -> (r: usize)
        ensures
            r == self.effects_spec().len(),
    {
        self.effects.len()
    }

    pub fn effect(&self, i: usize) -> (r: Effect)
        requires
            i < self.effects_spec().len(),
        ensures
            r == self.effects_spec()[i as int],
    {
        self.effects[i]
    }

    /// Replaces effect `i` of the chain.
    pub fn set_effect(&mut self, i: usize, effect: Effect)
        requires
            old(self).wf(),
            i < old(self).effects_spec().len(),
            effect.wf(),
        ensures
            final(self).wf(),
            final(self).effects_spec() == old(self).effects_spec().update(i as int, effect),
            final(self).index_spec() == old(self).index_spec(),
            final(self).envelope_spec() == old(self).envelope_spec(),
            final(self).gain_spec() == old(self).gain_spec(),
            final(self).frequency_spec() == old(self).frequency_spec(),
            final(self).delta_spec() == old(self).delta_spec(),
            final(self).wavetable_spec() == old(self).wavetable_spec(),
    {
        self.effects.set(i, effect);
    }

    pub fn envelope_values(&self) -> (r: ADSR)
        ensures
            r == self.envelope_spec().adsr,
    {
        self.envelope.adsr_values()
    }

    /// Replaces the envelope's values.
    pub fn set_envelope_values(&mut self, adsr: ADSR)
        requires
            old(self).wf(),
            adsr.wf(),
        ensures
            final(self).wf(),
            final(self).envelope_spec() == (EnvelopeModel { adsr, ..old(self).envelope_spec() }),
            final(self).same_voice(*old(self)),
            final(self).index_spec() == old(self).index_spec(),
    {
        self.envelope.set_adsr_values(adsr);
    }

    /// Back to the table's start, the envelope at rest.
    pub fn reset(&mut self)
        requires
            old(self).wf(),
        ensures
            final(self).wf(),
            final(self).index_spec() == 0,
            final(self).envelope_spec().state == crate::envelope::ADSREnvelopeState::Idle,
            final(self).envelope_spec().last_value == 0,
            final(self).envelope_spec().adsr == old(self).envelope_spec().adsr,
            final(self).same_voice(*old(self)),
    {
        self.current_index = 0;
        self.envelope.reset();
    }

    pub fn trigger(&mut self, sample_clock: u64)
        requires
            old(self).wf(),
        ensures
            final(self).wf(),
            final(self).envelope_spec() == old(self).envelope_spec().trigger(sample_clock),
            final(self).same_voice(*old(self)),
            final(self).index_spec() == old(self).index_spec(),
    {
        self.envelope.trigger(sample_clock);
    }

    pub fn release(&mut self, sample_clock: u64)
        requires
            old(self).wf(),
        ensures
            final(self).wf(),
            final(self).envelope_spec() == old(self).envelope_spec().release(sample_clock),
            final(self).same_voice(*old(self)),
            final(self).index_spec() == old(self).index_spec(),
    {
        self.envelope.release(sample_clock);
    }

    /// The frame at the present position, at the envelope's level for
    /// `sample_time`; the position then moves on by the table step, wrapping
    /// at the table's end.
    pub fn get_next_sample(&mut self, sample_time: u64) -> (r: Frame)
        requires
            old(self).wf(),
        ensures
            final(self).wf(),
            final(self).same_voice(*old(self)),
            final(self).envelope_spec() == old(self).envelope_spec().sample(sample_time),
            final(self).index_spec() == next_index(
                old(self).index_spec(),
                old(self).delta_spec(),
                old(self).table_len(),
            ),
            r == frame_at(
                old(self).index_spec(),
                old(self).table_len(),
                amplitude(old(self).gain_spec(), final(self).envelope_spec().last_value),
            ),
    {
        let len = self.wavetable.num_samples;
        let index0 = (self.current_index / FRAC_ONE) as usize;
        proof {
            lemma_div_is_ordered(self.current_index as int, (len * FRAC_ONE) as int, FRAC_ONE as int);
            lemma_div_by_multiple(len as int, FRAC_ONE as int);
        }
        let index1 = if index0 + 1 == len {
            0
        } else {
            index0 + 1
        };
        let frac = (self.current_index % FRAC_ONE) as u32;
        let span = (len as u64) * FRAC_ONE;
        self.current_index = (self.current_index + self.table_delta) % span;
        let level = self.envelope.get_next_sample(sample_time);
        proof {
            lemma_mul_inequality(level as int, LEVEL_ONE as int, self.gain as int);
            lemma_mul_is_commutative(level as int, self.gain as int);
            lemma_mul_is_commutative(LEVEL_ONE as int, self.gain as int);
            lemma_div_is_ordered((self.gain * level) as int, (self.gain * LEVEL_ONE) as int, LEVEL_ONE as int);
            lemma_div_by_multiple(self.gain as int, LEVEL_ONE as int);
            lemma_mod_bound((old(self).current_index + self.table_delta) as int, span as int);
        }
        let amp = ((self.gain as u64) * (level as u64) / (LEVEL_ONE as u64)) as u32;
        Frame { index0, index1, frac, amplitude: amp }
    }

    /// `chunk_size` frames for the times from `sample_clock_start` on, one
    /// sample apart.
    pub fn get_next_chunk(&mut self, chunk_size: u32, sample_clock_start: u64) -> (r: Vec<Frame>)
        requires
            old(self).wf(),
        ensures
            final(self).wf(),
            final(self).same_voice(*old(self)),
            r@.len() == chunk_size,
            final(self).envelope_spec() == old(self).envelope_spec().run(
                sample_clock_start,
                chunk_size as nat,
            ),
            final(self).index_spec() == index_after(
                old(self).index_spec(),
                old(self).delta_spec(),
                old(self).table_len(),
                chunk_size as int,
            ),
            forall|i: int|
                0 <= i < chunk_size ==> #[trigger] r@[i] == frame_at(
                    index_after(
                        old(self).index_spec(),
                        old(self).delta_spec(),
                        old(self).table_len(),
                        i,
                    ),
                    old(self).table_len(),
                    amplitude(
                        old(self).gain_spec(),
                        old(self).envelope_spec().run(
                            sample_clock_start,
                            (i + 1) as nat,
                        ).last_value,
                    ),
                ),
    {
        let mut result: Vec<Frame> = Vec::with_capacity(chunk_size as usize);
        let mut i: u32 = 0;
        let mut t: u64 = sample_clock_start;
        let ghost start = *self;
        proof {
            vstd::arithmetic::div_mod::lemma_small_mod(
                start.index_spec() as nat,
                (start.table_len() * FRAC_ONE) as nat,
            );
        }
        while i < chunk_size
            invariant
                start.wf(),
                self.wf(),
                self.same_voice(start),
                i <= chunk_size,
                t == sat_add(sample_clock_start, i as int),
                result@.len() == i,
                self.envelope_spec() == start.envelope_spec().run(sample_clock_start, i as nat),
                self.index_spec() == index_after(
                    start.index_spec(),
                    start.delta_spec(),
                    start.table_len(),
                    i as int,
                ),
                forall|j: int|
                    0 <= j < i ==> #[trigger] result@[j] == frame_at(
                        index_after(
                            start.index_spec(),
                            start.delta_spec(),
                            start.table_len(),
                            j,
                        ),
                        start.table_len(),
                        amplitude(
                            start.gain_spec(),
                            start.envelope_spec().run(sample_clock_start, (j + 1) as nat).last_value,
                        ),
                    ),
            decreases chunk_size - i,
        {
            proof {
                crate::envelope::lemma_run_split(
                    start.envelope_spec(),
                    sample_clock_start,
                    i as nat,
                    1,
                );
                crate::envelope::lemma_run_one(
                    start.envelope_spec().run(sample_clock_start, i as nat),
                    t,
                );
                lemma_index_step(
                    start.index_spec(),
                    start.delta_spec(),
                    start.table_len(),
                    i as int,
                );
            }
            let frame = self.get_next_sample(t);
            result.push(frame);
            t = if t < u64::MAX {
                t + 1
            } else {
                t
            };
            i = i + 1;
        }
        result
    }

    /// Moves the LFO of every modulated filter of the chain on to
    /// `sample_clock`, and returns where each effect's LFO now stands, out of
    /// `PHASE_ONE` (0 for an effect without one).
    pub fn advance_modulation(&mut self, sample_clock: u64, sample_rate: u32) -> (r: Vec<u64>)
        requires
            old(self).wf(),
            sample_rate > 0,
        ensures
            final(self).wf(),
            r@.len() == old(self).effects_spec().len(),
            final(self).effects_spec() == old(self).effects_spec().map_values(
                |e: Effect| effect_advanced(e, sample_clock, sample_rate),
            ),
            forall|i: int|
                0 <= i < r@.len() ==> #[trigger] r@[i] == effect_position(
                    old(self).effects_spec()[i],
                    sample_clock,
                    sample_rate,
                ),
            final(self).index_spec() == old(self).index_spec(),
            final(self).envelope_spec() == old(self).envelope_spec(),
            final(self).gain_spec() == old(self).gain_spec(),
            final(self).frequency_spec() == old(self).frequency_spec(),
            final(self).delta_spec() == old(self).delta_spec(),
            final(self).wavetable_spec() == old(self).wavetable_spec(),
    {
        let mut positions: Vec<u64> = Vec::with_capacity(self.effects.len());
        let ghost start = self.effects@;
        let mut i: usize = 0;
        while i < self.effects.len()
            invariant
                sample_rate > 0,
                effects_wf(start),
                effects_wf(self.effects@),
                self.effects@.len() == start.len(),
                i <= start.len(),
                positions@.len() == i,
                forall|j: int|
                    0 <= j < i ==> #[trigger] self.effects@[j] == effect_advanced(
                        start[j],
                        sample_clock,
                        sample_rate,
                    ),
                forall|j: int| i <= j < start.len() ==> #[trigger] self.effects@[j] == start[j],
                forall|j: int|
                    0 <= j < i ==> #[trigger] positions@[j] == effect_position(
                        start[j],
                        sample_clock,
                        sample_rate,
                    ),
                self.current_index == old(self).current_index,
                self.envelope@ == old(self).envelope@,
                self.gain == old(self).gain,
                self.frequency == old(self).frequency,
                self.table_delta == old(self).table_delta,
                self.wavetable == old(self).wavetable,
            decreases start.len() - i,
        {
            let e = self.effects[i];
            assert(start[i as int].wf());
            match e {
                Effect::ModulatedFilter(m) => {
                    let mut m = m;
                    let p = m.advance_lfo(sample_clock, sample_rate);
                    self.effects.set(i, Effect::ModulatedFilter(m));
                    positions.push(p);
                },
                _ => {
                    positions.push(0);
                },
            }
            proof {
                assert forall|j: int| 0 <= j < self.effects@.len() implies #[trigger] self.effects@[j].wf() by {
                    if j != i {
                        assert(old(self).effects_spec() == old(self).effects@);
                    }
                }
            }
            i = i + 1;
        }
        proof {
            assert(self.effects@ =~= start.map_values(
                |e: Effect| effect_advanced(e, sample_clock, sample_rate),
            ));
        }
        positions
    }

    pub fn get_channels(&self) -> (r: u16)
        ensures
            r == self.wavetable_spec().channels,
    {
        self.wavetable.channels
    }

    pub fn set_gain(&mut self, new_gain: u32)
        requires
            old(self).wf(),
        ensures
            final(self).wf(),
            final(self).gain_spec() == new_gain,
            final(self).frequency_spec() == old(self).frequency_spec(),
            final(self).delta_spec() == old(self).delta_spec(),
            final(self).wavetable_spec() == old(self).wavetable_spec(),
            final(self).effects_spec() == old(self).effects_spec(),
            final(self).envelope_spec() == old(self).envelope_spec(),
            final(self).index_spec() == old(self).index_spec(),
    {
        self.gain = new_gain;
    }

    /// Sets the frequency, in millihertz; the table step becomes
    /// `new_frequency * FRAC_ONE / REFERENCE_FREQUENCY`.
    pub fn set_frequency(&mut self, new_frequency: u32)
        requires
            old(self).wf(),
        ensures
            final(self).wf(),
            final(self).frequency_spec() == new_frequency,
            final(self).delta_spec() == new_frequency * FRAC_ONE / (REFERENCE_FREQUENCY as int),
            final(self).gain_spec() == old(self).gain_spec(),
            final(self).wavetable_spec() == old(self).wavetable_spec(),
            final(self).effects_spec() == old(self).effects_spec(),
            final(self).envelope_spec() == old(self).envelope_spec(),
            final(self).index_spec() == old(self).index_spec(),
    {
        self.frequency = new_frequency;
        self.table_delta = Self::delta_of(new_frequency);
    }

    pub fn gain(&self) -> (r: u32)
        ensures
            r == self.gain_spec(),
    {
        self.gain
    }

    pub fn frequency(&self) -> (r: u32)
        ensures
            r == self.frequency_spec(),
    {
        self.frequency
    }

    /// Reading position, out of `FRAC_ONE` per table entry.
    pub fn current_index(&self) -> (r: u64)
        ensures
            r == self.index_spec(),
    {
        self.current_index
    }

    /// Table step per sample, out of `FRAC_ONE` per table entry.
    pub fn table_delta(&self) -> (r: u64)
        ensures
            r == self.delta_spec(),
    {
        self.table_delta
    }

    pub fn envelope_level(&self) -> (r: u32)
        ensures
            r == self.envelope_spec().last_value,
    {
        self.envelope.last_value()
    }
}

} // verus!
