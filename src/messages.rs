use vstd::prelude::*;
use crate::filters::FilterType;
use crate::lfo::LfoType;
use crate::oscillator::Sample;

verus! {

/// Change to a voice: its gain (out of `LEVEL_ONE`) or its wavetable.
#[derive(Clone, Debug, PartialEq)]
pub enum OscParams {
    Gain(u32),
    SampleChange(Sample),
}

/// Change to one value of a voice's envelope: a time in samples or the
/// sustain level.
#[derive(Copy, Clone, Debug, PartialEq, Eq, Structural)]
pub enum EnvelopeParams {
    Delay(u64),
    Attack(u64),
    Decay(u64),
    Sustain(u32),
    Release(u64),
}

/// Change to an LFO: its waveform, frequency (millihertz) or phase (out of
/// `PHASE_ONE`).
#[derive(Copy, Clone, Debug, PartialEq, Eq, Structural)]
pub enum LfoParams {
    LfoType(LfoType),
    Frequency(u32),
    Phase(u64),
}

/// Change to a state-variable filter: its output, cutoff (millihertz) or
/// resonance (thousandths).
#[derive(Copy, Clone, Debug, PartialEq, Eq, Structural)]
pub enum StateVarTPTFilterParams {
    FilterType(FilterType),
    Frequency(u32),
    Resonance(u32),
}

/// Change to a modulated filter.
#[derive(Copy, Clone, Debug, PartialEq, Eq, Structural)]
pub enum ModulatedFilterParams {
    BaseFrequency(u32),
    Filter(StateVarTPTFilterParams),
    Lfo(LfoParams),
}

/// A command from the control surface to the mixer. `Note` presses the key
/// on every voice when at least 1 and releases it when 0; `Frequency` (in
/// millihertz) retunes every voice; the others address voice `.0` and, for a
/// filter, effect `.1` of its chain.
#[derive(Clone, Debug, PartialEq)]
pub enum Message {
    Note(u32),
    Frequency(u32),
    OscChange(usize, OscParams),
    EnvelopeChange(usize, EnvelopeParams),
    ModulatedFilterParams(usize, usize, ModulatedFilterParams),
}

} // verus!
