use vstd::prelude::*;
use crate::lfo::{Lfo, LfoStatePacket};

verus! {

/// Which of a filter's outputs is heard.
#[derive(Copy, Clone, Debug, PartialEq, Eq, Structural)]
pub enum FilterType {
    LowPass,
    HighPass,
    BandPass,
}

/// Why filter parameters were refused.
#[derive(Copy, Clone, Debug, PartialEq, Eq, Structural)]
pub enum FilterError {
    ZeroSampleRate,
    CutoffOutOfRange,
    ZeroResonance,
}

/// Resonance (Q) is counted in thousandths.
pub const RESONANCE_ONE: u32 = 1000;

/// Resonance of a new state-variable filter: one over the square root of two.
pub const DEFAULT_RESONANCE: u32 = 707;

/// The error for a filter at `rate` samples per second with cutoff `cutoff`
/// millihertz and resonance `q` thousandths, if any: the rate must be
/// positive, the cutoff in `(0, rate / 2]` and the resonance positive.
pub open spec fn filter_error(rate: u32, cutoff: u32, q: u32) -> Option<FilterError> {
    if rate == 0 {
        Some(FilterError::ZeroSampleRate)
    } else if cutoff == 0 || cutoff > rate * 500 {
        Some(FilterError::CutoffOutOfRange)
    } else if q == 0 {
        Some(FilterError::ZeroResonance)
    } else {
        None
    }
}

fn check_filter(rate: u32, cutoff: u32, q: u32) -> (r: Result<(), FilterError>)
    ensures
        match filter_error(rate, cutoff, q) {
            Some(e) => r == Err::<(), FilterError>(e),
            None => r is Ok,
        },
{
    if rate == 0 {
        Err(FilterError::ZeroSampleRate)
    } else if cutoff == 0 || cutoff as u64 > rate as u64 * 500 {
        Err(FilterError::CutoffOutOfRange)
    } else if q == 0 {
        Err(FilterError::ZeroResonance)
    } else {
        Ok(())
    }
}

/// Settings of a two-pole IIR low-pass filter: sample rate, cutoff in
/// millihertz and Q in thousandths.
#[derive(Copy, Clone, Debug, PartialEq, Eq, Structural)]
pub struct IIRLowPassFilter {
    pub sample_rate: u32,
    pub frequency: u32,
    pub q: u32,
}

#[derive(Copy, Clone, Debug, PartialEq, Eq, Structural)]
pub struct IIRFilterStatePacket {
    pub filter_type: FilterType,
    pub frequency: u32,
    pub q: u32,
}

impl IIRLowPassFilter {
    pub open spec fn wf(&self) -> bool {
        filter_error(self.sample_rate, self.frequency, self.q).is_none()
    }

    pub fn new_low_pass(sample_rate: u32, frequency: u32, q: u32) -> (r: Result<
        IIRLowPassFilter,
        FilterError,
    >)
        ensures
            match filter_error(sample_rate, frequency, q) {
                Some(e) => r == Err::<IIRLowPassFilter, FilterError>(e),
                None => r == Ok::<IIRLowPassFilter, FilterError>(
                    IIRLowPassFilter { sample_rate, frequency, q },
                ),
            },
    {
        match check_filter(sample_rate, frequency, q) {
            Ok(()) => Ok(IIRLowPassFilter { sample_rate, frequency, q }),
            Err(e) => Err(e),
        }
    }

    /// Moves the cutoff, keeping Q, if the new values are valid; else
    /// changes nothing.
    pub fn set_frequency(&mut self, sample_rate: u32, frequency: u32) -> (r: Result<(), FilterError>)
        ensures
            match filter_error(sample_rate, frequency, old(self).q) {
                Some(e) => r == Err::<(), FilterError>(e) && *final(self) == *old(self),
                None => r is Ok && *final(self) == (IIRLowPassFilter {
                    sample_rate,
                    frequency,
                    ..*old(self)
                }),
            },
    {
        match check_filter(sample_rate, frequency, self.q) {
            Ok(()) => {
                self.sample_rate = sample_rate;
                self.frequency = frequency;
                Ok(())
            },
            Err(e) => Err(e),
        }
    }

    pub fn get_state_packet(&self) -> (r: IIRFilterStatePacket)
        ensures
            r == (IIRFilterStatePacket {
                filter_type: FilterType::LowPass,
                frequency: self.frequency,
                q: self.q,
            }),
    {
        IIRFilterStatePacket { filter_type: FilterType::LowPass, frequency: self.frequency, q: self.q }
    }
}

/// Settings of a zero-delay-feedback state-variable filter: sample rate,
/// which output is heard, cutoff in millihertz and resonance in thousandths.
#[derive(Copy, Clone, Debug, PartialEq, Eq, Structural)]
pub struct StateVariableTPTFilter {
    pub sample_rate: u32,
    pub filter_type: FilterType,
    pub cutoff_frequency: u32,
    pub resonance: u32,
}

#[derive(Copy, Clone, Debug, PartialEq, Eq, Structural)]
pub struct StateVariableTPTFilterStatePacket {
    pub filter_type: FilterType,
    pub frequency: u32,
    pub resonance: u32,
}

impl StateVariableTPTFilter {
    pub open spec fn wf(&self) -> bool {
        filter_error(self.sample_rate, self.cutoff_frequency, self.resonance).is_none()
    }

    pub fn new(sample_rate: u32, cutoff_frequency: u32, filter_type: FilterType) -> (r: Result<
        StateVariableTPTFilter,
        FilterError,
    >)
        ensures
            match filter_error(sample_rate, cutoff_frequency, DEFAULT_RESONANCE) {
                Some(e) => r == Err::<StateVariableTPTFilter, FilterError>(e),
                None => r == Ok::<StateVariableTPTFilter, FilterError>(
                    StateVariableTPTFilter {
                        sample_rate,
                        filter_type,
                        cutoff_frequency,
                        resonance: DEFAULT_RESONANCE,
                    },
                ),
            },
    {
        match check_filter(sample_rate, cutoff_frequency, DEFAULT_RESONANCE) {
            Ok(()) => Ok(
                StateVariableTPTFilter {
                    sample_rate,
                    filter_type,
                    cutoff_frequency,
                    resonance: DEFAULT_RESONANCE,
                },
            ),
            Err(e) => Err(e),
        }
    }

    /// Moves the cutoff if the new values are valid; else changes nothing.
    pub fn set_frequency(&mut self, sample_rate: u32, new_frequency: u32) -> (r: Result<
        (),
        FilterError,
    >)
        ensures
            match filter_error(sample_rate, new_frequency, old(self).resonance) {
                Some(e) => r == Err::<(), FilterError>(e) && *final(self) == *old(self),
                None => r is Ok && *final(self) == (StateVariableTPTFilter {
                    sample_rate,
                    cutoff_frequency: new_frequency,
                    ..*old(self)
                }),
            },
    {
        match check_filter(sample_rate, new_frequency, self.resonance) {
            Ok(()) => {
                self.sample_rate = sample_rate;
                self.cutoff_frequency = new_frequency;
                Ok(())
            },
            Err(e) => Err(e),
        }
    }

    /// Changes the resonance if the new values are valid; else changes nothing.
    pub fn set_resonance(&mut self, sample_rate: u32, new_resonance: u32) -> (r: Result<
        (),
        FilterError,
    >)
        ensures
            match filter_error(sample_rate, old(self).cutoff_frequency, new_resonance) {
                Some(e) => r == Err::<(), FilterError>(e) && *final(self) == *old(self),
                None => r is Ok && *final(self) == (StateVariableTPTFilter {
                    sample_rate,
                    resonance: new_resonance,
                    ..*old(self)
                }),
            },
    {
        match check_filter(sample_rate, self.cutoff_frequency, new_resonance) {
            Ok(()) => {
                self.sample_rate = sample_rate;
                self.resonance = new_resonance;
                Ok(())
            },
            Err(e) => Err(e),
        }
    }

    pub fn set_filter_type(&mut self, filter_type: FilterType)
        ensures
            *final(self) == (StateVariableTPTFilter { filter_type, ..*old(self) }),
    {
        self.filter_type = filter_type;
    }

    pub fn get_state_packet(&self) -> (r: StateVariableTPTFilterStatePacket)
        ensures
            r == (StateVariableTPTFilterStatePacket {
                filter_type: self.filter_type,
                frequency: self.cutoff_frequency,
                resonance: self.resonance,
            }),
    {
        StateVariableTPTFilterStatePacket {
            filter_type: self.filter_type,
            frequency: self.cutoff_frequency,
            resonance: self.resonance,
        }
    }
}

/// The filter that a modulated filter sweeps.
#[derive(Copy, Clone, Debug)]
pub enum Filter {
    IIRLowPassFilter(IIRLowPassFilter),
    StateVariableTPTFilter(StateVariableTPTFilter),
}

impl Filter {
    pub open spec fn wf(&self) -> bool {
        match self {
            Filter::IIRLowPassFilter(f) => f.wf(),
            Filter::StateVariableTPTFilter(f) => f.wf(),
        }
    }
}

#[derive(Copy, Clone, Debug, PartialEq, Eq, Structural)]
pub struct ModulatedFilterStatePacket {
    pub base_frequency: u32,
    pub filter: FilterStatePacket,
    pub lfo: LfoStatePacket,
}

/// What the filter inside a modulated filter reports of itself.
#[derive(Copy, Clone, Debug, PartialEq, Eq, Structural)]
pub enum FilterStatePacket {
    IIRLowPassFilter(IIRFilterStatePacket),
    StateVariableTPTFilter(StateVariableTPTFilterStatePacket),
}

/// The report of an LFO's settings.
pub open spec fn lfo_packet(l: Lfo) -> LfoStatePacket {
    LfoStatePacket { waveform: l.waveform_spec(), frequency: l.frequency_spec(), phase: l.phase_spec() }
}

/// The report of a filter's settings.
pub open spec fn filter_packet(f: Filter) -> FilterStatePacket {
    match f {
        Filter::IIRLowPassFilter(fl) => FilterStatePacket::IIRLowPassFilter(
            IIRFilterStatePacket { filter_type: FilterType::LowPass, frequency: fl.frequency, q: fl.q },
        ),
        Filter::StateVariableTPTFilter(fl) => FilterStatePacket::StateVariableTPTFilter(
            StateVariableTPTFilterStatePacket {
                filter_type: fl.filter_type,
                frequency: fl.cutoff_frequency,
                resonance: fl.resonance,
            },
        ),
    }
}

/// The report of a modulated filter's settings.
pub open spec fn modulated_packet(m: ModulatedFilter) -> ModulatedFilterStatePacket {
    ModulatedFilterStatePacket {
        base_frequency: m.base_frequency,
        filter: filter_packet(m.filter),
        lfo: lfo_packet(m.lfo),
    }
}

/// A filter whose cutoff an LFO sweeps around `base_frequency` (millihertz):
/// each chunk the cutoff is the base frequency times the LFO's output.
#[derive(Copy, Clone, Debug)]
pub struct ModulatedFilter {
    pub lfo: Lfo,
    pub filter: Filter,
    pub base_frequency: u32,
}

impl ModulatedFilter {
    pub open spec fn wf(&self) -> bool {
        self.lfo.wf() && self.filter.wf()
    }

    pub fn new(lfo: Lfo, filter: Filter, base_frequency: u32) -> (r: ModulatedFilter)
        ensures
            r.lfo == lfo,
            r.filter == filter,
            r.base_frequency == base_frequency,
    {
        ModulatedFilter { lfo, filter, base_frequency }
    }

    /// The error that moving the cutoff to `f` gives, if any.
    pub open spec fn base_frequency_error(&self, f: u32) -> Option<FilterError> {
        match self.filter {
            Filter::IIRLowPassFilter(fl) => filter_error(fl.sample_rate, f, fl.q),
            Filter::StateVariableTPTFilter(fl) => filter_error(fl.sample_rate, f, fl.resonance),
        }
    }

    /// The filter with base frequency and cutoff `f`.
    pub open spec fn with_base_frequency(self, f: u32) -> ModulatedFilter {
        ModulatedFilter {
            base_frequency: f,
            filter: match self.filter {
                Filter::IIRLowPassFilter(fl) => Filter::IIRLowPassFilter(
                    IIRLowPassFilter { frequency: f, ..fl },
                ),
                Filter::StateVariableTPTFilter(fl) => Filter::StateVariableTPTFilter(
                    StateVariableTPTFilter { cutoff_frequency: f, ..fl },
                ),
            },
            ..self
        }
    }

    /// Sets the base frequency and moves the filter's cutoff to it, if that
    /// is a valid cutoff for the filter; else changes nothing.
    pub fn set_frequency(&mut self, new_frequency: u32) -> (r: Result<(), FilterError>)
        requires
            old(self).wf(),
        ensures
            final(self).wf(),
            match old(self).base_frequency_error(new_frequency) {
                Some(e) => r == Err::<(), FilterError>(e) && *final(self) == *old(self),
                None => r is Ok && *final(self) == old(self).with_base_frequency(new_frequency),
            },
    {
        let res = match &mut self.filter {
            Filter::IIRLowPassFilter(f) => {
                let rate = f.sample_rate;
                f.set_frequency(rate, new_frequency)
            },
            Filter::StateVariableTPTFilter(f) => {
                let rate = f.sample_rate;
                f.set_frequency(rate, new_frequency)
            },
        };
        if res.is_ok() {
            self.base_frequency = new_frequency;
        }
        res
    }

    /// Moves the LFO on to `sample_clock` and returns its position, out of
    /// `PHASE_ONE`, from which the chunk's cutoff is computed.
    pub fn advance_lfo(&mut self, sample_clock: u64, sample_rate: u32) -> (r: u64)
        requires
            old(self).wf(),
            sample_rate > 0,
        ensures
            final(self).wf(),
            *final(self) == (ModulatedFilter {
                lfo: old(self).lfo.advanced(sample_clock, sample_rate),
                ..*old(self)
            }),
            r == final(self).lfo.pos_spec(),
            r == old(self).lfo.next_pos(sample_clock, sample_rate),
    {
        self.lfo.get_sample(sample_clock, sample_rate)
    }

    /// What the filter reports of itself: base frequency, filter and LFO.
    pub fn get_state_packet(&self) -> (r: ModulatedFilterStatePacket)
        ensures
            r == modulated_packet(*self),
    {
        let filter = match &self.filter {
            Filter::IIRLowPassFilter(f) => FilterStatePacket::IIRLowPassFilter(f.get_state_packet()),
            Filter::StateVariableTPTFilter(f) => FilterStatePacket::StateVariableTPTFilter(
                f.get_state_packet(),
            ),
        };
        ModulatedFilterStatePacket {
            base_frequency: self.base_frequency,
            filter,
            lfo: self.lfo.get_state_packet(),
        }
    }
}

/// One stage of a voice's effect chain.
#[derive(Copy, Clone, Debug)]
pub enum Effect {
    ModulatedFilter(ModulatedFilter),
    IIRFilter(IIRLowPassFilter),
    StateVariablePTPFilter(StateVariableTPTFilter),
}

/// The effect after its LFO, if it has one, moved on to `clock`.
pub open spec fn effect_advanced(e: Effect, clock: u64, rate: u32) -> Effect {
    match e {
        Effect::ModulatedFilter(m) => Effect::ModulatedFilter(
            ModulatedFilter { lfo: m.lfo.advanced(clock, rate), ..m },
        ),
        _ => e,
    }
}

/// Where the effect's LFO stands after moving on to `clock`; 0 for an effect
/// without one.
pub open spec fn effect_position(e: Effect, clock: u64, rate: u32) -> int {
    match e {
        Effect::ModulatedFilter(m) => m.lfo.next_pos(clock, rate),
        _ => 0,
    }
}

/// What an effect reports of itself.
#[derive(Copy, Clone, Debug, PartialEq, Eq, Structural)]
pub enum EffectStatePacket {
    ModulatedFilter(ModulatedFilterStatePacket),
    IIRFilter(IIRFilterStatePacket),
    StateVariablePTPFilter(StateVariableTPTFilterStatePacket),
}

/// The report of an effect's settings.
pub open spec fn effect_packet(e: Effect) -> EffectStatePacket {
    match e {
        Effect::ModulatedFilter(m) => EffectStatePacket::ModulatedFilter(modulated_packet(m)),
        Effect::IIRFilter(f) => EffectStatePacket::IIRFilter(
            IIRFilterStatePacket { filter_type: FilterType::LowPass, frequency: f.frequency, q: f.q },
        ),
        Effect::StateVariablePTPFilter(f) => EffectStatePacket::StateVariablePTPFilter(
            StateVariableTPTFilterStatePacket {
                filter_type: f.filter_type,
                frequency: f.cutoff_frequency,
                resonance: f.resonance,
            },
        ),
    }
}

impl Effect {
    pub open spec fn wf(&self) -> bool {
        match self {
            Effect::ModulatedFilter(f) => f.wf(),
            Effect::IIRFilter(f) => f.wf(),
            Effect::StateVariablePTPFilter(f) => f.wf(),
        }
    }

    /// What the effect reports of itself.
    pub fn get_state_packet(&self) -> (r: EffectStatePacket)
        ensures
            r == effect_packet(*self),
    {
        match self {
            Effect::ModulatedFilter(m) => EffectStatePacket::ModulatedFilter(m.get_state_packet()),
            Effect::IIRFilter(f) => EffectStatePacket::IIRFilter(f.get_state_packet()),
            Effect::StateVariablePTPFilter(f) => EffectStatePacket::StateVariablePTPFilter(
                f.get_state_packet(),
            ),
        }
    }
}

} // verus!
