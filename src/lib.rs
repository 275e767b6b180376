//! Control plane of a wavetable synthesizer: the keyboard, the shared sample
//! clock, the ADSR envelope, the oscillator's table cursor, the LFO phase
//! accumulator, the command protocol and the mixer's chunk bookkeeping.
//!
//! Audio sample values are floating point and are produced by the caller from
//! what this library decides: which table entries to read and with what weight,
//! at which amplitude, and where each LFO stands in its cycle. Levels, gains,
//! table positions and frequencies are fixed-point integers here.

mod keyboard;

pub use keyboard::{keyboard_to_midi, MidiKeyboard, MidiNote};
mod envelope;

pub use envelope::{
    ADSREnvelope, ADSREnvelopeState, EnvelopeCall, EnvelopeError, EnvelopeModel, ADSR, LEVEL_ONE,
};
mod lfo;

pub use lfo::{LfoStatePacket, LfoType, Lfo, MILLIHERTZ_PER_HERTZ, PHASE_ONE};
mod filters;

pub use filters::{
    Effect, EffectStatePacket, Filter, FilterError, FilterStatePacket, FilterType,
    IIRFilterStatePacket, IIRLowPassFilter, ModulatedFilter, ModulatedFilterStatePacket, StateVariableTPTFilter,
    StateVariableTPTFilterStatePacket, DEFAULT_RESONANCE, RESONANCE_ONE,
};
mod oscillator;

pub use oscillator::{
    Frame, OscStatePacket, Oscillator, Sample, Wavetable, FRAC_ONE, MAX_TABLE_LEN,
    REFERENCE_FREQUENCY, VOICE_LOW_PASS_CUTOFF,
};
mod state;

pub use state::{
    advance_sample_clock, get_midi_keyboard, get_sample_clock, get_sample_rate,
    set_midi_keyboard, set_sample_rate, State, DEFAULT_SAMPLE_RATE,
};

mod messages;

pub use messages::{
    EnvelopeParams, LfoParams, Message, ModulatedFilterParams, OscParams,
    StateVarTPTFilterParams,
};

mod mixer;

pub use mixer::{
    Action, CommandError, Mixer, MixerStatePacket, VoiceChunk, CHUNK_SIZE, MIXER_CHANNELS, POLL_INTERVAL};

mod playback;

pub use playback::{frame_sources, ChannelError};
