use ravetable::{
    advance_sample_clock, get_midi_keyboard, get_sample_clock, get_sample_rate, keyboard_to_midi,
    set_midi_keyboard, set_sample_rate, MidiKeyboard, MidiNote, State, DEFAULT_SAMPLE_RATE,
};

#[test]
fn keyboard_starts_in_octave_three() {
    assert_eq!(MidiKeyboard::new().octave(), 3);
}

#[test]
fn octave_rises_to_nine_and_stops() {
    let mut k = MidiKeyboard::new();
    for _ in 0..20 {
        k = k.increase_octave();
    }
    assert_eq!(k.octave(), 9);
}

#[test]
fn octave_falls_to_minus_one_and_stops() {
    let mut k = MidiKeyboard::new();
    for _ in 0..20 {
        k = k.decrease_octave();
    }
    assert_eq!(k.octave(), -1);
}

#[test]
fn note_number_counts_octaves_of_twelve() {
    let k = MidiKeyboard::new();
    assert_eq!(k.get_note_number_from_key(&MidiNote::C), 36);
    assert_eq!(k.increase_octave().get_note_number_from_key(&MidiNote::A), 57);
    let low = k.decrease_octave().decrease_octave().decrease_octave().decrease_octave();
    assert_eq!(low.get_note_number_from_key(&MidiNote::B), -1);
}

#[test]
fn letter_keys_play_notes() {
    assert!(matches!(keyboard_to_midi('a'), Some(MidiNote::C)));
    assert!(matches!(keyboard_to_midi('w'), Some(MidiNote::Csharp)));
    assert!(matches!(keyboard_to_midi('h'), Some(MidiNote::G)));
    assert!(matches!(keyboard_to_midi('k'), Some(MidiNote::B)));
    assert!(keyboard_to_midi('g').is_none());
    assert!(keyboard_to_midi('z').is_none());
}

#[test]
fn state_starts_at_default_rate_and_zero_clock() {
    let s = State::new();
    assert_eq!(get_sample_rate(&s), DEFAULT_SAMPLE_RATE);
    assert_eq!(get_sample_clock(&s), 0);
    assert_eq!(get_midi_keyboard(&s).octave(), 3);
}

#[test]
fn clock_advances_by_each_count() {
    let mut s = State::new();
    advance_sample_clock(&mut s, 128);
    advance_sample_clock(&mut s, 128);
    assert_eq!(get_sample_clock(&s), 256);
}

#[test]
fn clock_stops_at_the_largest_value() {
    let mut s = State::new();
    advance_sample_clock(&mut s, u64::MAX - 10);
    advance_sample_clock(&mut s, 128);
    assert_eq!(get_sample_clock(&s), u64::MAX);
}

#[test]
fn keyboard_and_rate_are_stored() {
    let mut s = State::new();
    set_midi_keyboard(&mut s, MidiKeyboard::new().increase_octave());
    set_sample_rate(&mut s, 44100);
    assert_eq!(get_midi_keyboard(&s).octave(), 4);
    assert_eq!(get_sample_rate(&s), 44100);
    assert_eq!(get_sample_clock(&s), 0);
}
