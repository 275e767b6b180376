use vstd::prelude::*;
use crate::envelope::{adsr_error, sat_add, EnvelopeError, EnvelopeModel, ADSR};
use crate::filters::{Effect, Filter, FilterError, ModulatedFilter};
use crate::messages::{
    EnvelopeParams, LfoParams, Message, ModulatedFilterParams, OscParams, StateVarTPTFilterParams,
};
use crate::oscillator::{Frame, OscStatePacket, Oscillator, Sample, Wavetable, table_delta_for};
use crate::state::{advance_sample_clock, get_sample_clock, State};

verus! {

/// Samples rendered per chunk.
pub const CHUNK_SIZE: u32 = 128;

/// Samples produced between two looks at the command queue.
pub const POLL_INTERVAL: u32 = 250;

/// Channels of the mixer's output stream.
pub const MIXER_CHANNELS: u16 = 2;

/// One voice's share of a chunk: its frames, and where the LFO of each of its
/// effects stood for the chunk (0 for effects without one).
pub struct VoiceChunk {
    pub frames: Vec<Frame>,
    pub lfo_positions: Vec<u64>,
}

/// What the mixer reports of its voices, for the control surface.
#[derive(Clone)]
pub struct MixerStatePacket {
    pub oscillators: Vec<OscStatePacket>,
}

/// Why a command was refused.
#[derive(Copy, Clone, Debug, PartialEq, Eq, Structural)]
pub enum CommandError {
    NoSuchVoice,
    NoSuchEffect,
    Envelope(EnvelopeError),
    Filter(FilterError),
    PhaseOutOfRange,
}

/// What is left to do after a command: nothing, or load a sample and hand
/// it to `change_wavetable` for the voice.
#[derive(Clone, Debug, PartialEq)]
pub enum Action {
    Done,
    LoadWavetable(usize, Sample),
}

/// Envelope values with one of them changed.
pub open spec fn updated_adsr(a: ADSR, p: EnvelopeParams) -> ADSR {
    match p {
        EnvelopeParams::Delay(v) => ADSR { delay: v, ..a },
        EnvelopeParams::Attack(v) => ADSR { attack: v, ..a },
        EnvelopeParams::Decay(v) => ADSR { decay: v, ..a },
        EnvelopeParams::Sustain(v) => ADSR { sustain: v, ..a },
        EnvelopeParams::Release(v) => ADSR { release: v, ..a },
    }
}

/// The error that changing `m` by `p` at `rate` gives, if any. Changes to
/// the state-variable part of a filter that sweeps an IIR filter are ignored.
pub open spec fn modulated_error(m: ModulatedFilter, rate: u32, p: ModulatedFilterParams) -> Option<
    CommandError,
> {
    match p {
        ModulatedFilterParams::BaseFrequency(f) => match m.base_frequency_error(f) {
            Some(e) => Some(CommandError::Filter(e)),
            None => None,
        },
        ModulatedFilterParams::Filter(fp) => match m.filter {
            Filter::StateVariableTPTFilter(fl) => match fp {
                StateVarTPTFilterParams::FilterType(_) => None,
                StateVarTPTFilterParams::Frequency(v) => match crate::filters::filter_error(
                    rate,
                    v,
                    fl.resonance,
                ) {
                    Some(e) => Some(CommandError::Filter(e)),
                    None => None,
                },
                StateVarTPTFilterParams::Resonance(v) => match crate::filters::filter_error(
                    rate,
                    fl.cutoff_frequency,
                    v,
                ) {
                    Some(e) => Some(CommandError::Filter(e)),
                    None => None,
                },
            },
            Filter::IIRLowPassFilter(_) => None,
        },
        ModulatedFilterParams::Lfo(lp) => match lp {
            LfoParams::Phase(v) => if v > crate::lfo::PHASE_ONE {
                Some(CommandError::PhaseOutOfRange)
            } else {
                None
            },
            _ => None,
        },
    }
}

/// `m` changed by `p` at `rate`.
pub open spec fn modulated_applied(m: ModulatedFilter, rate: u32, p: ModulatedFilterParams) -> ModulatedFilter {
    match p {
        ModulatedFilterParams::BaseFrequency(f) => m.with_base_frequency(f),
        ModulatedFilterParams::Filter(fp) => match m.filter {
            Filter::StateVariableTPTFilter(fl) => ModulatedFilter {
                filter: Filter::StateVariableTPTFilter(
                    match fp {
                        StateVarTPTFilterParams::FilterType(t) => crate::filters::StateVariableTPTFilter {
                            filter_type: t,
                            ..fl
                        },
                        StateVarTPTFilterParams::Frequency(v) => crate::filters::StateVariableTPTFilter {
                            sample_rate: rate,
                            cutoff_frequency: v,
                            ..fl
                        },
                        StateVarTPTFilterParams::Resonance(v) => crate::filters::StateVariableTPTFilter {
                            sample_rate: rate,
                            resonance: v,
                            ..fl
                        },
                    },
                ),
                ..m
            },
            Filter::IIRLowPassFilter(_) => m,
        },
        ModulatedFilterParams::Lfo(lp) => ModulatedFilter {
            lfo: match lp {
                LfoParams::LfoType(w) => m.lfo.with_waveform(w),
                LfoParams::Frequency(f) => m.lfo.with_frequency(f),
                LfoParams::Phase(v) => m.lfo.with_phase(v),
            },
            ..m
        },
    }
}

/// The error that `msg` gives on voices `oscs` at `rate`, if any: an address
/// beyond the voices or the chain, or a value that the addressed part
/// refuses.
pub open spec fn command_error(oscs: Seq<Oscillator>, rate: u32, msg: Message) -> Option<CommandError> {
    match msg {
        Message::Note(_) => None,
        Message::Frequency(_) => None,
        Message::OscChange(id, _) => if id >= oscs.len() {
            Some(CommandError::NoSuchVoice)
        } else {
            None
        },
        Message::EnvelopeChange(id, p) => if id >= oscs.len() {
            Some(CommandError::NoSuchVoice)
        } else {
            let a = updated_adsr(oscs[id as int].envelope_spec().adsr, p);
            match adsr_error(a.attack, a.decay, a.sustain, a.release) {
                Some(e) => Some(CommandError::Envelope(e)),
                None => None,
            }
        },
        Message::ModulatedFilterParams(id, eid, p) => if id >= oscs.len() {
            Some(CommandError::NoSuchVoice)
        } else if eid >= oscs[id as int].effects_spec().len() {
            Some(CommandError::NoSuchEffect)
        } else {
            match oscs[id as int].effects_spec()[eid as int] {
                Effect::ModulatedFilter(m) => modulated_error(m, rate, p),
                _ => None,
            }
        },
    }
}

/// Voice `id` went from `a` to `b` and the others stayed as they were.
pub open spec fn only_voice_changed(a: Seq<Oscillator>, b: Seq<Oscillator>, id: int) -> bool {
    &&& b.len() == a.len()
    &&& forall|i: int| 0 <= i < a.len() && i != id ==> #[trigger] b[i] == a[i]
}

/// `new` is what `msg`, accepted, makes of voices `old` at `clock` and `rate`.
pub open spec fn command_applied(
    old: Seq<Oscillator>,
    new: Seq<Oscillator>,
    clock: u64,
    rate: u32,
    msg: Message,
) -> bool {
    match msg {
        Message::Note(n) => {
            &&& new.len() == old.len()
            &&& forall|i: int|
                0 <= i < old.len() ==> {
                    &&& (#[trigger] new[i]).same_voice(old[i])
                    &&& new[i].index_spec() == old[i].index_spec()
                    &&& new[i].envelope_spec() == if n >= 1 {
                        old[i].envelope_spec().trigger(clock)
                    } else {
                        old[i].envelope_spec().release(clock)
                    }
                }
        },
        Message::Frequency(f) => {
            &&& new.len() == old.len()
            &&& forall|i: int|
                0 <= i < old.len() ==> {
                    &&& (#[trigger] new[i]).frequency_spec() == f
                    &&& new[i].delta_spec() == table_delta_for(f)
                    &&& new[i].gain_spec() == old[i].gain_spec()
                    &&& new[i].wavetable_spec() == old[i].wavetable_spec()
                    &&& new[i].effects_spec() == old[i].effects_spec()
                    &&& new[i].envelope_spec() == old[i].envelope_spec()
                    &&& new[i].index_spec() == old[i].index_spec()
                }
        },
        Message::OscChange(id, OscParams::Gain(g)) => {
            &&& only_voice_changed(old, new, id as int)
            &&& new[id as int].gain_spec() == g
            &&& new[id as int].frequency_spec() == old[id as int].frequency_spec()
            &&& new[id as int].delta_spec() == old[id as int].delta_spec()
            &&& new[id as int].wavetable_spec() == old[id as int].wavetable_spec()
            &&& new[id as int].effects_spec() == old[id as int].effects_spec()
            &&& new[id as int].envelope_spec() == old[id as int].envelope_spec()
            &&& new[id as int].index_spec() == old[id as int].index_spec()
        },
        Message::OscChange(_, OscParams::SampleChange(_)) => new == old,
        Message::EnvelopeChange(id, p) => {
            &&& only_voice_changed(old, new, id as int)
            &&& new[id as int].same_voice(old[id as int])
            &&& new[id as int].index_spec() == old[id as int].index_spec()
            &&& new[id as int].envelope_spec() == (EnvelopeModel {
                adsr: updated_adsr(old[id as int].envelope_spec().adsr, p),
                ..old[id as int].envelope_spec()
            })
        },
        Message::ModulatedFilterParams(id, eid, p) => {
            &&& only_voice_changed(old, new, id as int)
            &&& new[id as int].same_but_effects(old[id as int])
            &&& new[id as int].effects_spec() == match old[id as int].effects_spec()[eid as int] {
                Effect::ModulatedFilter(m) => old[id as int].effects_spec().update(
                    eid as int,
                    Effect::ModulatedFilter(modulated_applied(m, rate, p)),
                ),
                _ => old[id as int].effects_spec(),
            }
        },
    }
}

/// Changes `m` by `p` at `rate`, or refuses the change and leaves `m` as it
/// was.
fn apply_modulated(m: &mut ModulatedFilter, rate: u32, p: ModulatedFilterParams) -> (r: Result<
    (),
    CommandError,
>)
    requires
        old(m).wf(),
    ensures
        final(m).wf(),
        match modulated_error(*old(m), rate, p) {
            Some(e) => r == Err::<(), CommandError>(e) && *final(m) == *old(m),
            None => r is Ok && *final(m) == modulated_applied(*old(m), rate, p),
        },
{
    match p {
        ModulatedFilterParams::BaseFrequency(f) => match m.set_frequency(f) {
            Ok(()) => Ok(()),
            Err(e) => Err(CommandError::Filter(e)),
        },
        ModulatedFilterParams::Filter(fp) => match &mut m.filter {
            Filter::StateVariableTPTFilter(fl) => match fp {
                StateVarTPTFilterParams::FilterType(t) => {
                    fl.set_filter_type(t);
                    Ok(())
                },
                StateVarTPTFilterParams::Frequency(v) => match fl.set_frequency(rate, v) {
                    Ok(()) => Ok(()),
                    Err(e) => Err(CommandError::Filter(e)),
                },
                StateVarTPTFilterParams::Resonance(v) => match fl.set_resonance(rate, v) {
                    Ok(()) => Ok(()),
                    Err(e) => Err(CommandError::Filter(e)),
                },
            },
            Filter::IIRLowPassFilter(_) => Ok(()),
        },
        ModulatedFilterParams::Lfo(lp) => match lp {
            LfoParams::LfoType(w) => {
                m.lfo.set_waveform(w);
                Ok(())
            },
            LfoParams::Frequency(f) => {
                m.lfo.set_frequency(f);
                Ok(())
            },
            LfoParams::Phase(v) => {
                if v > crate::lfo::PHASE_ONE {
                    Err(CommandError::PhaseOutOfRange)
                } else {
                    m.lfo.set_phase(v);
                    Ok(())
                }
            },
        },
    }
}

/// Every voice is well formed.
pub open spec fn voices_wf(oscs: Seq<Oscillator>) -> bool {
    forall|i: int| 0 <= i < oscs.len() ==> #[trigger] oscs[i].wf()
}

/// Owner of the voices and of the sample clock; renders fixed-size chunks,
/// hands them out sample by sample and applies commands between them.
pub struct Mixer {
    channels: u16,
    chunk_size: u32,
    chunk_buffer_index: u32,
    oscillators: Vec<Oscillator>,
    samples_since_last_gui_poll: u32,
    state: State,
}

impl Mixer {
    pub closed spec fn oscs(&self) -> Seq<Oscillator> {
        self.oscillators@
    }

    pub closed spec fn state_spec(&self) -> State {
        self.state
    }

    /// Next sample of the current chunk to hand out.
    pub closed spec fn buffer_index_spec(&self) -> int {
        self.chunk_buffer_index as int
    }

    /// Samples handed out since the command queue was last polled.
    pub closed spec fn poll_count_spec(&self) -> int {
        self.samples_since_last_gui_poll as int
    }

    pub closed spec fn channels_spec(&self) -> u16 {
        self.channels
    }

    pub closed spec fn chunk_size_spec(&self) -> u32 {
        self.chunk_size
    }

    pub open spec fn wf(&self) -> bool {
        &&& self.chunk_size_spec() == CHUNK_SIZE
        &&& self.channels_spec() == MIXER_CHANNELS
        &&& 0 <= self.buffer_index_spec() <= CHUNK_SIZE
        &&& 0 <= self.poll_count_spec() <= POLL_INTERVAL
        &&& self.state_spec().wf()
        &&& voices_wf(self.oscs())
    }

    /// A mixer over `oscillators` at `sample_rate`, its clock at 0; the first
    /// sample asked for renders the first chunk.
    pub fn new(oscillators: Vec<Oscillator>, sample_rate: u32) -> (r: Mixer)
        requires
            voices_wf(oscillators@),
            sample_rate > 0,
        ensures
            r.wf(),
            r.oscs() == oscillators@,
            r.state_spec().sample_rate == sample_rate,
            r.state_spec().sample_clock == 0,
            r.buffer_index_spec() == CHUNK_SIZE,
            r.poll_count_spec() == 0,
    {
        let mut state = State::new();
        crate::state::set_sample_rate(&mut state, sample_rate);
        Mixer {
            channels: MIXER_CHANNELS,
            chunk_size: CHUNK_SIZE,
            chunk_buffer_index: CHUNK_SIZE,
            oscillators,
            samples_since_last_gui_poll: 0,
            state,
        }
    }

    pub fn channels(&self) -> (r: u16)
        ensures
            r == self.channels_spec(),
    {
        self.channels
    }

    pub fn chunk_size(&self) -> (r: u32)
        ensures
            r == self.chunk_size_spec(),
    {
        self.chunk_size
    }

    pub fn sample_clock(&self) -> (r: u64)
        ensures
            r == self.state_spec().sample_clock,
    {
        get_sample_clock(&self.state)
    }

    pub fn sample_rate(&self) -> (r: u32)
        ensures
            r == self.state_spec().sample_rate,
    {
        self.state.sample_rate
    }

    pub fn voice_count(&self) -> (r: usize)
        ensures
            r == self.oscs().len(),
    {
        self.oscillators.len()
    }

    pub fn oscillator(&self, i: usize) -> (r: &Oscillator)
        requires
            i < self.oscs().len(),
        ensures
            *r == self.oscs()[i as int],
    {
        &self.oscillators[i]
    }

    /// Counts one more sample handed out and says whether the command queue
    /// is due a look: once every `POLL_INTERVAL + 1` samples.
    pub fn poll_due(&mut self) -> (r: bool)
        requires
            old(self).wf(),
        ensures
            final(self).wf(),
            r == (old(self).poll_count_spec() + 1 > POLL_INTERVAL),
            final(self).poll_count_spec() == if r {
                0
            } else {
                old(self).poll_count_spec() + 1
            },
            final(self).oscs() == old(self).oscs(),
            final(self).state_spec() == old(self).state_spec(),
            final(self).buffer_index_spec() == old(self).buffer_index_spec(),
    {
        self.samples_since_last_gui_poll = self.samples_since_last_gui_poll + 1;
        if self.samples_since_last_gui_poll > POLL_INTERVAL {
            self.samples_since_last_gui_poll = 0;
            true
        } else {
            false
        }
    }

    /// Where the next sample comes from: its index in the current chunk, and
    /// whether a new chunk must be rendered first (when the current one is
    /// used up).
    pub fn next_chunk_slot(&mut self) -> (r: (bool, usize))
        requires
            old(self).wf(),
        ensures
            final(self).wf(),
            r.0 == (old(self).buffer_index_spec() >= CHUNK_SIZE),
            r.1 == if r.0 {
                0
            } else {
                old(self).buffer_index_spec()
            },
            r.1 < CHUNK_SIZE,
            final(self).buffer_index_spec() == r.1 + 1,
            final(self).oscs() == old(self).oscs(),
            final(self).state_spec() == old(self).state_spec(),
            final(self).poll_count_spec() == old(self).poll_count_spec(),
    {
        let refill = self.chunk_buffer_index >= self.chunk_size;
        if refill {
            self.chunk_buffer_index = 0;
        }
        let current = self.chunk_buffer_index;
        self.chunk_buffer_index = current + 1;
        (refill, current as usize)
    }

    /// Renders the next chunk: each voice's `CHUNK_SIZE` frames from the
    /// present clock on, with its LFOs moved on to that clock; the clock then
    /// moves on by `CHUNK_SIZE`.
    pub fn render_chunk(&mut self) -> (r: Vec<VoiceChunk>)
        requires
            old(self).wf(),
        ensures
            final(self).wf(),
            r@.len() == old(self).oscs().len(),
            final(self).oscs().len() == old(self).oscs().len(),
            forall|v: int|
                0 <= v < r@.len() ==> #[trigger] old(self).oscs()[v].rendered(
                    final(self).oscs()[v],
                    r@[v].frames@,
                    r@[v].lfo_positions@,
                    old(self).state_spec().sample_clock,
                    CHUNK_SIZE as nat,
                    old(self).state_spec().sample_rate,
                ),
            final(self).state_spec() == (State {
                sample_clock: sat_add(old(self).state_spec().sample_clock, CHUNK_SIZE as int),
                ..old(self).state_spec()
            }),
            final(self).buffer_index_spec() == old(self).buffer_index_spec(),
            final(self).poll_count_spec() == old(self).poll_count_spec(),
    {
        let clock = get_sample_clock(&self.state);
        let rate = self.state.sample_rate;
        let mut chunks: Vec<VoiceChunk> = Vec::with_capacity(self.oscillators.len());
        let ghost start = self.oscillators@;
        let mut v: usize = 0;
        while v < self.oscillators.len()
            invariant
                self.wf(),
                voices_wf(start),
                self.oscillators@.len() == start.len(),
                v <= start.len(),
                chunks@.len() == v,
                clock == old(self).state.sample_clock,
                rate == old(self).state.sample_rate,
                self.state == old(self).state,
                self.chunk_buffer_index == old(self).chunk_buffer_index,
                self.samples_since_last_gui_poll == old(self).samples_since_last_gui_poll,
                forall|j: int|
                    0 <= j < v ==> #[trigger] start[j].rendered(
                        self.oscillators@[j],
                        chunks@[j].frames@,
                        chunks@[j].lfo_positions@,
                        clock,
                        CHUNK_SIZE as nat,
                        rate,
                    ),
                forall|j: int| v <= j < start.len() ==> #[trigger] self.oscillators@[j] == start[j],
            decreases start.len() - v,
        {
            assert(start[v as int].wf());
            let frames = self.oscillators[v].get_next_chunk(CHUNK_SIZE, clock);
            let lfo_positions = self.oscillators[v].advance_modulation(clock, rate);
            chunks.push(VoiceChunk { frames, lfo_positions });
            proof {
                assert forall|j: int| 0 <= j < self.oscillators@.len() implies #[trigger] self.oscillators@[j].wf() by {
                    if j != v {
                        assert(old(self).oscs() == old(self).oscillators@);
                    }
                }
            }
            v = v + 1;
        }
        advance_sample_clock(&mut self.state, CHUNK_SIZE as u64);
        chunks
    }

    /// Presses (`at_least_one`) or releases the key on every voice at the
    /// present clock.
    fn note_all(&mut self, at_least_one: bool)
        requires
            old(self).wf(),
        ensures
            final(self).wf(),
            final(self).state_spec() == old(self).state_spec(),
            final(self).buffer_index_spec() == old(self).buffer_index_spec(),
            final(self).poll_count_spec() == old(self).poll_count_spec(),
            command_applied(
                old(self).oscs(),
                final(self).oscs(),
                old(self).state_spec().sample_clock,
                old(self).state_spec().sample_rate,
                Message::Note(if at_least_one { 1 } else { 0 }),
            ),
    {
        let clock = get_sample_clock(&self.state);
        let ghost start = self.oscillators@;
        let mut i: usize = 0;
        while i < self.oscillators.len()
            invariant
                self.wf(),
                self.oscillators@.len() == start.len(),
                voices_wf(start),
                i <= start.len(),
                clock == old(self).state.sample_clock,
                self.state == old(self).state,
                self.chunk_buffer_index == old(self).chunk_buffer_index,
                self.samples_since_last_gui_poll == old(self).samples_since_last_gui_poll,
                start == old(self).oscillators@,
                forall|j: int|
                    0 <= j < i ==> {
                        &&& (#[trigger] self.oscillators@[j]).same_voice(start[j])
                        &&& self.oscillators@[j].index_spec() == start[j].index_spec()
                        &&& self.oscillators@[j].envelope_spec() == if at_least_one {
                            start[j].envelope_spec().trigger(clock)
                        } else {
                            start[j].envelope_spec().release(clock)
                        }
                    },
                forall|j: int| i <= j < start.len() ==> #[trigger] self.oscillators@[j] == start[j],
            decreases start.len() - i,
        {
            assert(start[i as int].wf());
            if at_least_one {
                self.oscillators[i].trigger(clock);
            } else {
                self.oscillators[i].release(clock);
            }
            proof {
                assert forall|j: int| 0 <= j < self.oscillators@.len() implies #[trigger] self.oscillators@[j].wf() by {
                    if j != i {
                        assert(start[j].wf());
                    }
                }
            }
            i = i + 1;
        }
    }

    /// Retunes every voice to `frequency` millihertz.
    fn tune_all(&mut self, frequency: u32)
        requires
            old(self).wf(),
        ensures
            final(self).wf(),
            final(self).state_spec() == old(self).state_spec(),
            final(self).buffer_index_spec() == old(self).buffer_index_spec(),
            final(self).poll_count_spec() == old(self).poll_count_spec(),
            command_applied(
                old(self).oscs(),
                final(self).oscs(),
                old(self).state_spec().sample_clock,
                old(self).state_spec().sample_rate,
                Message::Frequency(frequency),
            ),
    {
        let ghost start = self.oscillators@;
        let mut i: usize = 0;
        while i < self.oscillators.len()
            invariant
                self.wf(),
                self.oscillators@.len() == start.len(),
                voices_wf(start),
                i <= start.len(),
                self.state == old(self).state,
                self.chunk_buffer_index == old(self).chunk_buffer_index,
                self.samples_since_last_gui_poll == old(self).samples_since_last_gui_poll,
                start == old(self).oscillators@,
                forall|j: int|
                    0 <= j < i ==> {
                        &&& (#[trigger] self.oscillators@[j]).frequency_spec() == frequency
                        &&& self.oscillators@[j].delta_spec() == table_delta_for(frequency)
                        &&& self.oscillators@[j].gain_spec() == start[j].gain_spec()
                        &&& self.oscillators@[j].wavetable_spec() == start[j].wavetable_spec()
                        &&& self.oscillators@[j].effects_spec() == start[j].effects_spec()
                        &&& self.oscillators@[j].envelope_spec() == start[j].envelope_spec()
                        &&& self.oscillators@[j].index_spec() == start[j].index_spec()
                    },
                forall|j: int| i <= j < start.len() ==> #[trigger] self.oscillators@[j] == start[j],
            decreases start.len() - i,
        {
            assert(start[i as int].wf());
            self.oscillators[i].set_frequency(frequency);
            proof {
                assert forall|j: int| 0 <= j < self.oscillators@.len() implies #[trigger] self.oscillators@[j].wf() by {
                    if j != i {
                        assert(start[j].wf());
                    }
                }
            }
            i = i + 1;
        }
    }

    /// Applies a command from the control surface. A command addressing a
    /// voice or effect that does not exist, or carrying a value that the
    /// addressed part refuses, changes nothing and is answered with the
    /// error. A sample change is answered with the sample to load.
    pub fn apply_message(&mut self, msg: Message) -> (r: Result<Action, CommandError>)
        requires
            old(self).wf(),
        ensures
            final(self).wf(),
            final(self).state_spec() == old(self).state_spec(),
            final(self).buffer_index_spec() == old(self).buffer_index_spec(),
            final(self).poll_count_spec() == old(self).poll_count_spec(),
            match command_error(old(self).oscs(), old(self).state_spec().sample_rate, msg) {
                Some(e) => r == Err::<Action, CommandError>(e) && final(self).oscs() == old(
                    self,
                ).oscs(),
                None => command_applied(
                    old(self).oscs(),
                    final(self).oscs(),
                    old(self).state_spec().sample_clock,
                    old(self).state_spec().sample_rate,
                    msg,
                ) && r == Ok::<Action, CommandError>(
                    match msg {
                        Message::OscChange(id, OscParams::SampleChange(s)) => Action::LoadWavetable(
                            id,
                            s,
                        ),
                        _ => Action::Done,
                    },
                ),
            },
    {
        let rate = self.state.sample_rate;
        match msg {
            Message::Note(n) => {
                self.note_all(n >= 1);
                Ok(Action::Done)
            },
            Message::Frequency(f) => {
                self.tune_all(f);
                Ok(Action::Done)
            },
            Message::OscChange(id, param) => {
                if id >= self.oscillators.len() {
                    return Err(CommandError::NoSuchVoice);
                }
                match param {
                    OscParams::Gain(g) => {
                        let ghost start = self.oscillators@;
                        assert(start[id as int].wf());
                        self.oscillators[id].set_gain(g);
                        proof {
                            assert forall|j: int| 0 <= j < self.oscillators@.len() implies #[trigger] self.oscillators@[j].wf() by {
                                if j != id {
                                    assert(start[j].wf());
                                }
                            }
                        }
                        Ok(Action::Done)
                    },
                    OscParams::SampleChange(sample) => Ok(Action::LoadWavetable(id, sample)),
                }
            },
            Message::EnvelopeChange(id, param) => {
                if id >= self.oscillators.len() {
                    return Err(CommandError::NoSuchVoice);
                }
                let a = self.oscillators[id].envelope_values();
                let checked = match param {
                    EnvelopeParams::Delay(v) => ADSR::new(v, a.attack, a.decay, a.sustain, a.release),
                    EnvelopeParams::Attack(v) => ADSR::new(a.delay, v, a.decay, a.sustain, a.release),
                    EnvelopeParams::Decay(v) => ADSR::new(a.delay, a.attack, v, a.sustain, a.release),
                    EnvelopeParams::Sustain(v) => ADSR::new(a.delay, a.attack, a.decay, v, a.release),
                    EnvelopeParams::Release(v) => ADSR::new(a.delay, a.attack, a.decay, a.sustain, v),
                };
                match checked {
                    Ok(updated) => {
                        let ghost start = self.oscillators@;
                        assert(start[id as int].wf());
                        self.oscillators[id].set_envelope_values(updated);
                        proof {
                            assert forall|j: int| 0 <= j < self.oscillators@.len() implies #[trigger] self.oscillators@[j].wf() by {
                                if j != id {
                                    assert(start[j].wf());
                                }
                            }
                        }
                        Ok(Action::Done)
                    },
                    Err(e) => Err(CommandError::Envelope(e)),
                }
            },
            Message::ModulatedFilterParams(id, eid, param) => {
                if id >= self.oscillators.len() {
                    return Err(CommandError::NoSuchVoice);
                }
                if eid >= self.oscillators[id].effects_len() {
                    return Err(CommandError::NoSuchEffect);
                }
                let ghost start = self.oscillators@;
                assert(start[id as int].wf());
                let e = self.oscillators[id].effect(eid);
                assert(start[id as int].effects_spec()[eid as int].wf());
                match e {
                    Effect::ModulatedFilter(m) => {
                        let mut m = m;
                        match apply_modulated(&mut m, rate, param) {
                            Ok(()) => {
                                self.oscillators[id].set_effect(eid, Effect::ModulatedFilter(m));
                                proof {
                                    assert forall|j: int| 0 <= j < self.oscillators@.len() implies #[trigger] self.oscillators@[j].wf() by {
                                        if j != id {
                                            assert(start[j].wf());
                                        }
                                    }
                                }
                                Ok(Action::Done)
                            },
                            Err(err) => Err(err),
                        }
                    },
                    _ => Ok(Action::Done),
                }
            },
        }
    }

    /// Gives voice `voice` the newly loaded `wavetable`, played from its start
    /// with the envelope at rest.
    pub fn change_wavetable(&mut self, voice: usize, wavetable: Wavetable) -> (r: Result<
        (),
        CommandError,
    >)
        requires
            old(self).wf(),
            wavetable.wf(),
        ensures
            final(self).wf(),
            final(self).state_spec() == old(self).state_spec(),
            final(self).buffer_index_spec() == old(self).buffer_index_spec(),
            final(self).poll_count_spec() == old(self).poll_count_spec(),
            voice >= old(self).oscs().len() ==> r == Err::<(), CommandError>(
                CommandError::NoSuchVoice,
            ) && final(self).oscs() == old(self).oscs(),
            voice < old(self).oscs().len() ==> {
                let (a, b) = (old(self).oscs()[voice as int], final(self).oscs()[voice as int]);
                &&& r is Ok
                &&& only_voice_changed(old(self).oscs(), final(self).oscs(), voice as int)
                &&& b.wavetable_spec() == wavetable
                &&& b.index_spec() == 0
                &&& b.envelope_spec().state == crate::envelope::ADSREnvelopeState::Idle
                &&& b.envelope_spec().last_value == 0
                &&& b.envelope_spec().adsr == a.envelope_spec().adsr
                &&& b.gain_spec() == a.gain_spec()
                &&& b.frequency_spec() == a.frequency_spec()
                &&& b.effects_spec() == a.effects_spec()
            },
    {
        if voice >= self.oscillators.len() {
            return Err(CommandError::NoSuchVoice);
        }
        let ghost start = self.oscillators@;
        assert(start[voice as int].wf());
        self.oscillators[voice].queue_change_wavetable(wavetable);
        proof {
            assert forall|j: int| 0 <= j < self.oscillators@.len() implies #[trigger] self.oscillators@[j].wf() by {
                if j != voice {
                    assert(start[j].wf());
                }
            }
        }
        Ok(())
    }

    pub fn get_state_packet(&self) -> (r: MixerStatePacket)
        ensures
            r.oscillators@.len() == self.oscs().len(),
            forall|i: int|
                0 <= i < r.oscillators@.len() ==> {
                    let p = #[trigger] r.oscillators@[i];
                    &&& p.name == self.oscs()[i].wavetable_spec().sample.name
                    &&& p.gain == self.oscs()[i].gain_spec()
                    &&& p.frequency == self.oscs()[i].frequency_spec()
                    &&& p.adsr == self.oscs()[i].envelope_spec().adsr
                    &&& p.effects@ == self.oscs()[i].effects_spec().map_values(
                        |e: Effect| crate::filters::effect_packet(e),
                    )
                },
    {
        let mut packets: Vec<OscStatePacket> = Vec::with_capacity(self.oscillators.len());
        let mut i: usize = 0;
        while i < self.oscillators.len()
            invariant
                i <= self.oscs().len(),
                packets@.len() == i,
                forall|j: int|
                    0 <= j < i ==> {
                        let p = #[trigger] packets@[j];
                        &&& p.name == self.oscs()[j].wavetable_spec().sample.name
                        &&& p.gain == self.oscs()[j].gain_spec()
                        &&& p.frequency == self.oscs()[j].frequency_spec()
                        &&& p.adsr == self.oscs()[j].envelope_spec().adsr
                        &&& p.effects@ == self.oscs()[j].effects_spec().map_values(
                            |e: Effect| crate::filters::effect_packet(e),
                        )
                    },
            decreases self.oscs().len() - i,
        {
            packets.push(self.oscillators[i].get_state_packet());
            i = i + 1;
        }
        MixerStatePacket { oscillators: packets }
    }
}

} // verus!
