use vstd::prelude::*;
use crate::envelope::sat_add;
use crate::keyboard::MidiKeyboard;

verus! {

/// Sample rate the engine starts at.
pub const DEFAULT_SAMPLE_RATE: u32 = 48000;

/// What the engine's parts share: the sample rate, the sample clock (samples
/// rendered since start) and the keyboard's octave. The render loop alone
/// moves the clock.
#[derive(Copy, Clone, Debug)]
pub struct State {
    pub sample_rate: u32,
    pub sample_clock: u64,
    pub midi_keyboard: MidiKeyboard,
}

impl State {
    pub open spec fn wf(&self) -> bool {
        self.sample_rate > 0 && self.midi_keyboard.wf()
    }

    pub fn new() -> (r: State)
        ensures
            r.wf(),
            r.sample_rate == DEFAULT_SAMPLE_RATE,
            r.sample_clock == 0,
            r.midi_keyboard.octave_spec() == crate::keyboard::START_OCTAVE,
    {
        State { sample_rate: DEFAULT_SAMPLE_RATE, sample_clock: 0, midi_keyboard: MidiKeyboard::new() }
    }
}

pub fn get_midi_keyboard(state: &State) -> (r: MidiKeyboard)
    ensures
        r == state.midi_keyboard,
{
    state.midi_keyboard
}

pub fn set_midi_keyboard(state: &mut State, new_midi_keyboard: MidiKeyboard)
    ensures
        *final(state) == (State { midi_keyboard: new_midi_keyboard, ..*old(state) }),
{
    state.midi_keyboard = new_midi_keyboard;
}

pub fn get_sample_rate(state: &State) -> (r: u32)
    ensures
        r == state.sample_rate,
{
    state.sample_rate
}

/// Sets the sample rate, which must be positive.
pub fn set_sample_rate(state: &mut State, new_rate: u32)
    requires
        new_rate > 0,
    ensures
        *final(state) == (State { sample_rate: new_rate, ..*old(state) }),
{
    state.sample_rate = new_rate;
}

/// Moves the clock on by `sample_count` samples; it stops at `u64::MAX`
/// rather than wrap.
pub fn advance_sample_clock(state: &mut State, sample_count: u64)
    ensures
        *final(state) == (State {
            sample_clock: sat_add(old(state).sample_clock, sample_count as int),
            ..*old(state)
        }),
{
    state.sample_clock = if state.sample_clock > u64::MAX - sample_count {
        u64::MAX
    } else {
        state.sample_clock + sample_count
    };
}

pub fn get_sample_clock(state: &State) -> (r: u64)
    ensures
        r == state.sample_clock,
{
    state.sample_clock
}

} // verus!
