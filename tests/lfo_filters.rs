use ravetable::{
    Effect, EffectStatePacket, Filter, FilterError, FilterStatePacket, FilterType,
    IIRLowPassFilter, Lfo, LfoType, ModulatedFilter, StateVariableTPTFilter, DEFAULT_RESONANCE,
    PHASE_ONE,
};

#[test]
fn lfo_returns_to_the_same_point_every_period() {
    // 3 Hz at 48 kHz: one cycle every 16000 samples.
    for waveform in [LfoType::Sine, LfoType::Saw, LfoType::Square] {
        let mut l = Lfo::new(waveform, 3000, PHASE_ONE / 2);
        let start = l.get_sample(1234, 48000);
        for n in 1..5u64 {
            assert_eq!(l.get_sample(1234 + n * 16000, 48000), start);
        }
    }
}

#[test]
fn lfo_moves_by_the_elapsed_part_of_a_cycle() {
    let mut l = Lfo::new(LfoType::Saw, 1000, PHASE_ONE);
    assert_eq!(l.get_sample(0, 48000), 0);
    assert_eq!(l.get_sample(24000, 48000), PHASE_ONE / 2);
    assert_eq!(l.get_sample(36000, 48000), 3 * PHASE_ONE / 4);
    assert_eq!(l.get_sample(48000, 48000), 0);
}

#[test]
fn lfo_ignores_a_clock_that_went_back() {
    let mut l = Lfo::new(LfoType::Sine, 1000, PHASE_ONE);
    let p = l.get_sample(12000, 48000);
    assert_eq!(p, PHASE_ONE / 4);
    assert_eq!(l.get_sample(100, 48000), p);
    assert_eq!(l.get_sample(12100, 48000), PHASE_ONE / 2);
}

#[test]
fn lfo_setters_and_packet() {
    let mut l = Lfo::new(LfoType::Sine, 1000, 0);
    l.set_frequency(2500);
    l.set_phase(PHASE_ONE / 4);
    l.set_waveform(LfoType::Square);
    let p = l.get_state_packet();
    assert_eq!(p.waveform, LfoType::Square);
    assert_eq!(p.frequency, 2500);
    assert_eq!(p.phase, PHASE_ONE / 4);
}

#[test]
fn low_pass_parameters_are_checked() {
    assert_eq!(IIRLowPassFilter::new_low_pass(0, 1000, 1000), Err(FilterError::ZeroSampleRate));
    assert_eq!(IIRLowPassFilter::new_low_pass(48000, 0, 1000), Err(FilterError::CutoffOutOfRange));
    assert_eq!(
        IIRLowPassFilter::new_low_pass(48000, 24_000_001, 1000),
        Err(FilterError::CutoffOutOfRange)
    );
    assert_eq!(IIRLowPassFilter::new_low_pass(48000, 1000, 0), Err(FilterError::ZeroResonance));
    let f = IIRLowPassFilter::new_low_pass(48000, 24_000_000, 500).unwrap();
    assert_eq!(f.frequency, 24_000_000);
    assert_eq!(f.get_state_packet().filter_type, FilterType::LowPass);
}

#[test]
fn low_pass_retune_keeps_old_values_on_error() {
    let mut f = IIRLowPassFilter::new_low_pass(48000, 15_000_000, 700).unwrap();
    assert_eq!(f.set_frequency(20000, 15_000_000), Err(FilterError::CutoffOutOfRange));
    assert_eq!(f.frequency, 15_000_000);
    assert_eq!(f.q, 700);
    assert_eq!(f.set_frequency(48000, 1_000_000), Ok(()));
    assert_eq!(f.frequency, 1_000_000);
    assert_eq!(f.q, 700);
}

#[test]
fn state_variable_filter_settings() {
    let mut f = StateVariableTPTFilter::new(48000, 2_000_000, FilterType::LowPass).unwrap();
    assert_eq!(f.resonance, DEFAULT_RESONANCE);
    assert_eq!(f.set_resonance(48000, 0), Err(FilterError::ZeroResonance));
    assert_eq!(f.set_resonance(48000, 2000), Ok(()));
    f.set_filter_type(FilterType::BandPass);
    let p = f.get_state_packet();
    assert_eq!(p.filter_type, FilterType::BandPass);
    assert_eq!(p.frequency, 2_000_000);
    assert_eq!(p.resonance, 2000);
    assert_eq!(
        StateVariableTPTFilter::new(48000, 30_000_000, FilterType::HighPass),
        Err(FilterError::CutoffOutOfRange)
    );
}

#[test]
fn modulated_filter_moves_base_and_cutoff_together() {
    let svf = StateVariableTPTFilter::new(48000, 2_000_000, FilterType::LowPass).unwrap();
    let mut m = ModulatedFilter::new(
        Lfo::new(LfoType::Sine, 500, PHASE_ONE),
        Filter::StateVariableTPTFilter(svf),
        2_000_000,
    );
    assert_eq!(m.set_frequency(3_000_000), Ok(()));
    assert_eq!(m.base_frequency, 3_000_000);
    let p = m.get_state_packet();
    assert!(matches!(
        p.filter,
        FilterStatePacket::StateVariableTPTFilter(f) if f.frequency == 3_000_000
    ));
    assert_eq!(m.set_frequency(0), Err(FilterError::CutoffOutOfRange));
    assert_eq!(m.base_frequency, 3_000_000);
    assert_eq!(m.advance_lfo(48000, 48000), PHASE_ONE / 2);
}

#[test]
fn modulated_iir_filter_reports_its_settings() {
    let iir = IIRLowPassFilter::new_low_pass(48000, 1_000_000, 500).unwrap();
    let mut m = ModulatedFilter::new(
        Lfo::new(LfoType::Saw, 500, PHASE_ONE),
        Filter::IIRLowPassFilter(iir),
        1_000_000,
    );
    assert_eq!(m.set_frequency(2_000_000), Ok(()));
    let p = m.get_state_packet();
    assert_eq!(p.base_frequency, 2_000_000);
    assert_eq!(p.lfo.waveform, LfoType::Saw);
    match p.filter {
        FilterStatePacket::IIRLowPassFilter(f) => {
            assert_eq!(f.frequency, 2_000_000);
            assert_eq!(f.q, 500);
        }
        _ => panic!("an IIR filter reports as one"),
    }
}

#[test]
fn effects_report_their_settings() {
    let iir = IIRLowPassFilter::new_low_pass(48000, 1_000_000, 1000).unwrap();
    assert!(matches!(
        Effect::IIRFilter(iir).get_state_packet(),
        EffectStatePacket::IIRFilter(p) if p.frequency == 1_000_000 && p.q == 1000
    ));
    let svf = StateVariableTPTFilter::new(48000, 2_000_000, FilterType::HighPass).unwrap();
    let m = ModulatedFilter::new(Lfo::new(LfoType::Saw, 700, 0), Filter::StateVariableTPTFilter(svf), 2_000_000);
    match Effect::ModulatedFilter(m).get_state_packet() {
        EffectStatePacket::ModulatedFilter(p) => {
            assert_eq!(p.base_frequency, 2_000_000);
            assert!(matches!(
                p.filter,
                FilterStatePacket::StateVariableTPTFilter(f) if f.filter_type == FilterType::HighPass
            ));
            assert_eq!(p.lfo.frequency, 700);
        }
        _ => panic!("a modulated filter reports as one"),
    }
}
