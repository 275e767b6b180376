use ravetable::{
    frame_sources, Action, ChannelError, CommandError, Effect, EnvelopeError, EnvelopeParams,
    Filter, FilterError, FilterType, Lfo, LfoParams, LfoType, Message, Mixer,
    ModulatedFilter, ModulatedFilterParams, OscParams, Oscillator, Sample,
    StateVarTPTFilterParams, StateVariableTPTFilter, Wavetable, CHUNK_SIZE, FRAC_ONE,
    LEVEL_ONE, PHASE_ONE, POLL_INTERVAL,
};

fn table(name: &str, len: usize) -> Wavetable {
    Wavetable {
        sample: Sample { name: name.to_string(), path: format!("wavetable/{}", name) },
        channels: 2,
        sample_rate: 48000,
        num_samples: len,
    }
}

fn voice(len: usize, frequency: u32) -> Oscillator {
    Oscillator::new(LEVEL_ONE, frequency, table("saw.wav", len), 48000).unwrap()
}

fn modulated() -> Effect {
    let svf = StateVariableTPTFilter::new(48000, 2_000_000, FilterType::LowPass).unwrap();
    Effect::ModulatedFilter(ModulatedFilter::new(
        Lfo::new(LfoType::Sine, 500, PHASE_ONE),
        Filter::StateVariableTPTFilter(svf),
        2_000_000,
    ))
}

#[test]
fn table_step_is_frequency_over_reference() {
    let mut o = voice(1000, 10_000);
    assert_eq!(o.table_delta(), FRAC_ONE);
    o.set_frequency(440_000);
    assert_eq!(o.frequency(), 440_000);
    assert_eq!(o.table_delta(), 440_000 * FRAC_ONE / 10_000);
    o.set_frequency(1);
    assert_eq!(o.table_delta(), 6);
}

#[test]
fn position_stays_inside_the_table() {
    for &(len, f) in &[(7usize, 123_457u32), (1, 10_000), (3, 4_000_000_000), (100, 999)] {
        let mut o = voice(len, f);
        let mut clock = 0u64;
        for _ in 0..40 {
            let frames = o.get_next_chunk(128, clock);
            assert_eq!(frames.len(), 128);
            for fr in &frames {
                assert!(fr.index0 < len);
                assert!(fr.index1 < len);
                assert!((fr.frac as u64) < FRAC_ONE);
            }
            assert!(o.current_index() < len as u64 * FRAC_ONE);
            clock += 128;
        }
    }
}

#[test]
fn frames_walk_the_table_and_wrap() {
    let mut o = voice(4, 5_000);
    let frames = o.get_next_chunk(10, 0);
    let idx: Vec<(usize, usize, u32)> = frames.iter().map(|f| (f.index0, f.index1, f.frac)).collect();
    assert_eq!(
        idx,
        vec![
            (0, 1, 0),
            (0, 1, 32768),
            (1, 2, 0),
            (1, 2, 32768),
            (2, 3, 0),
            (2, 3, 32768),
            (3, 0, 0),
            (3, 0, 32768),
            (0, 1, 0),
            (0, 1, 32768),
        ]
    );
}

#[test]
fn amplitude_is_gain_times_envelope() {
    let mut o = voice(16, 10_000);
    o.set_gain(LEVEL_ONE / 2);
    let silent = o.get_next_chunk(4, 0);
    assert!(silent.iter().all(|f| f.amplitude == 0));
    o.trigger(10);
    let frames = o.get_next_chunk(1, 10 + 4999);
    assert_eq!(frames[0].amplitude, (LEVEL_ONE / 2) * (LEVEL_ONE / 2) / LEVEL_ONE);
    assert_eq!(o.envelope_level(), LEVEL_ONE / 2);
}

#[test]
fn voice_needs_room_for_its_low_pass() {
    assert_eq!(
        Oscillator::new(LEVEL_ONE, 440_000, table("a", 8), 22050).err(),
        Some(FilterError::CutoffOutOfRange)
    );
    let o = voice(8, 440_000);
    assert_eq!(o.effects_len(), 1);
    assert!(matches!(o.effect(0), Effect::IIRFilter(f) if f.frequency == 15_000_000));
}

#[test]
fn new_wavetable_restarts_the_voice() {
    let mut o = voice(8, 30_000);
    o.trigger(0);
    o.get_next_chunk(3, 0);
    o.queue_change_wavetable(table("b", 64));
    assert_eq!(o.current_index(), 0);
    assert_eq!(o.envelope_level(), 0);
    assert_eq!(o.get_state_packet().name, "b");
    assert_eq!(o.get_channels(), 2);
    assert_eq!(o.frequency(), 30_000);
}

#[test]
fn attack_change_reaches_only_the_addressed_voice() {
    let mut m = Mixer::new(vec![voice(64, 440_000), voice(64, 220_000)], 48000);
    let before = m.oscillator(1).envelope_values();
    let r = m.apply_message(Message::EnvelopeChange(0, EnvelopeParams::Attack(500)));
    assert_eq!(r, Ok(Action::Done));
    m.render_chunk();
    assert_eq!(m.oscillator(0).envelope_values().attack, 500);
    assert_eq!(m.oscillator(1).envelope_values(), before);
}

#[test]
fn commands_to_missing_voices_or_effects_are_refused() {
    let mut m = Mixer::new(vec![voice(64, 440_000)], 48000);
    assert_eq!(
        m.apply_message(Message::EnvelopeChange(1, EnvelopeParams::Decay(3))),
        Err(CommandError::NoSuchVoice)
    );
    assert_eq!(
        m.apply_message(Message::OscChange(7, OscParams::Gain(3))),
        Err(CommandError::NoSuchVoice)
    );
    assert_eq!(
        m.apply_message(Message::ModulatedFilterParams(
            0,
            3,
            ModulatedFilterParams::BaseFrequency(1000)
        )),
        Err(CommandError::NoSuchEffect)
    );
    assert_eq!(
        m.apply_message(Message::EnvelopeChange(0, EnvelopeParams::Release(0))),
        Err(CommandError::Envelope(EnvelopeError::ZeroRelease))
    );
    assert_eq!(m.oscillator(0).envelope_values().release, 100000);
}

#[test]
fn modulated_filter_commands() {
    let mut o = voice(64, 440_000);
    o.add_effect(modulated());
    let mut m = Mixer::new(vec![o], 48000);
    let phase = |p| Message::ModulatedFilterParams(0, 1, ModulatedFilterParams::Lfo(LfoParams::Phase(p)));
    assert_eq!(m.apply_message(phase(PHASE_ONE + 1)), Err(CommandError::PhaseOutOfRange));
    assert_eq!(m.apply_message(phase(PHASE_ONE / 4)), Ok(Action::Done));
    let cutoff = |c| {
        Message::ModulatedFilterParams(
            0,
            1,
            ModulatedFilterParams::Filter(StateVarTPTFilterParams::Frequency(c)),
        )
    };
    assert_eq!(
        m.apply_message(cutoff(25_000_000)),
        Err(CommandError::Filter(FilterError::CutoffOutOfRange))
    );
    assert_eq!(m.apply_message(cutoff(5_000_000)), Ok(Action::Done));
    // The first effect is the voice's plain low-pass: filter commands pass it by.
    assert_eq!(m.apply_message(cutoff(5_000_000)), Ok(Action::Done));
    match m.oscillator(0).effect(1) {
        Effect::ModulatedFilter(f) => {
            assert_eq!(f.lfo.phase(), PHASE_ONE / 4);
            assert!(matches!(f.filter, Filter::StateVariableTPTFilter(s) if s.cutoff_frequency == 5_000_000));
        }
        _ => panic!("effect 1 should be the modulated filter"),
    }
    assert_eq!(
        m.apply_message(Message::ModulatedFilterParams(0, 0, ModulatedFilterParams::BaseFrequency(1))),
        Ok(Action::Done)
    );
    assert!(matches!(m.oscillator(0).effect(0), Effect::IIRFilter(f) if f.frequency == 15_000_000));
}

#[test]
fn note_and_frequency_reach_every_voice() {
    let mut m = Mixer::new(vec![voice(64, 440_000), voice(64, 220_000)], 48000);
    assert_eq!(m.apply_message(Message::Frequency(110_000)), Ok(Action::Done));
    assert_eq!(m.apply_message(Message::Note(1)), Ok(Action::Done));
    for i in 0..2 {
        assert_eq!(m.oscillator(i).frequency(), 110_000);
        assert_eq!(m.oscillator(i).table_delta(), 110_000 * FRAC_ONE / 10_000);
    }
    let chunks = m.render_chunk();
    assert!(chunks.iter().all(|c| c.frames[CHUNK_SIZE as usize - 1].amplitude > 0));
    assert_eq!(m.apply_message(Message::Note(0)), Ok(Action::Done));
    m.render_chunk();
    assert!(m.oscillator(0).envelope_level() < LEVEL_ONE);
}

#[test]
fn sample_change_asks_for_a_load() {
    let mut m = Mixer::new(vec![voice(64, 440_000)], 48000);
    let s = Sample { name: "pad.wav".to_string(), path: "wavetable/pad.wav".to_string() };
    assert_eq!(
        m.apply_message(Message::OscChange(0, OscParams::SampleChange(s.clone()))),
        Ok(Action::LoadWavetable(0, s))
    );
    assert_eq!(m.change_wavetable(0, table("pad.wav", 32)), Ok(()));
    assert_eq!(m.get_state_packet().oscillators[0].name, "pad.wav");
    assert_eq!(m.change_wavetable(3, table("x", 32)), Err(CommandError::NoSuchVoice));
}

#[test]
fn command_queue_is_polled_once_per_interval() {
    let mut m = Mixer::new(vec![voice(64, 440_000)], 48000);
    for _ in 0..POLL_INTERVAL {
        assert!(!m.poll_due());
    }
    assert!(m.poll_due());
    assert!(!m.poll_due());
}

#[test]
fn chunks_are_handed_out_in_order_and_move_the_clock() {
    let mut o = voice(64, 440_000);
    o.add_effect(modulated());
    let mut m = Mixer::new(vec![o, voice(64, 220_000)], 48000);
    assert_eq!(m.next_chunk_slot(), (true, 0));
    let chunks = m.render_chunk();
    assert_eq!(chunks.len(), 2);
    assert_eq!(chunks[0].frames.len(), 128);
    assert_eq!(chunks[0].lfo_positions, vec![0, 0]);
    assert_eq!(chunks[1].lfo_positions, vec![0]);
    assert_eq!(m.sample_clock(), 128);
    for i in 1..128 {
        assert_eq!(m.next_chunk_slot(), (false, i));
    }
    assert_eq!(m.next_chunk_slot(), (true, 0));
    let second = m.render_chunk();
    // 0.5 Hz at 48 kHz moves 128 / 96000 of a cycle per chunk.
    assert_eq!(second[0].lfo_positions[1], 128 * PHASE_ONE / 96000);
    assert_eq!(m.sample_clock(), 256);
    assert_eq!(m.channels(), 2);
}

#[test]
fn mono_frames_copy_and_stereo_frames_take_turns() {
    assert_eq!(frame_sources(1, 3), Ok(vec![0, 0, 0]));
    assert_eq!(frame_sources(2, 4), Ok(vec![0, 1, 2, 3]));
    assert_eq!(frame_sources(2, 1), Ok(vec![0]));
    assert_eq!(frame_sources(6, 2), Err(ChannelError::UnsupportedInputChannels));
}
