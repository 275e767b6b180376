use vstd::prelude::*;

verus! {

/// One of the twelve notes of an octave.
#[derive(Copy, Clone, Debug, PartialEq, Eq, Structural)]
pub enum MidiNote {
    C,
    Csharp,
    D,
    Dsharp,
    E,
    F,
    Fsharp,
    G,
    Gsharp,
    A,
    Asharp,
    B,
}

/// Position of a note within its octave, `C` being 0 and `B` 11.
pub open spec fn note_index(n: MidiNote) -> int {
    match n {
        MidiNote::C => 0,
        MidiNote::Csharp => 1,
        MidiNote::D => 2,
        MidiNote::Dsharp => 3,
        MidiNote::E => 4,
        MidiNote::F => 5,
        MidiNote::Fsharp => 6,
        MidiNote::G => 7,
        MidiNote::Gsharp => 8,
        MidiNote::A => 9,
        MidiNote::Asharp => 10,
        MidiNote::B => 11,
    }
}

impl MidiNote {
    /// Position of the note within its octave.
    pub fn index(&self) -> (r: i16)
        ensures
            r == note_index(*self),
    {
        match self {
            MidiNote::C => 0,
            MidiNote::Csharp => 1,
            MidiNote::D => 2,
            MidiNote::Dsharp => 3,
            MidiNote::E => 4,
            MidiNote::F => 5,
            MidiNote::Fsharp => 6,
            MidiNote::G => 7,
            MidiNote::Gsharp => 8,
            MidiNote::A => 9,
            MidiNote::Asharp => 10,
            MidiNote::B => 11,
        }
    }
}

/// Lowest octave the keyboard can be moved to.
pub const MIN_OCTAVE: i16 = -1;

/// Highest octave the keyboard can be moved to.
pub const MAX_OCTAVE: i16 = 9;

/// Octave a new keyboard starts in.
pub const START_OCTAVE: i16 = 3;

/// A computer keyboard played as a one-octave MIDI keyboard that can be
/// shifted up and down by octaves.
#[derive(Copy, Clone, Debug)]
pub struct MidiKeyboard {
    octave: i16,
}

impl MidiKeyboard {
    /// The octave stays within `MIN_OCTAVE..=MAX_OCTAVE`.
    pub open spec fn wf(&self) -> bool {
        MIN_OCTAVE <= self.octave_spec() <= MAX_OCTAVE
    }

    pub closed spec fn octave_spec(&self) -> int {
        self.octave as int
    }

    /// MIDI note number of `key` in the current octave.
    pub open spec fn note_number_spec(&self, key: MidiNote) -> int {
        note_index(key) + self.octave_spec() * 12
    }

    pub fn new() -> (r: MidiKeyboard)
        ensures
            r.wf(),
            r.octave_spec() == START_OCTAVE,
    {
        MidiKeyboard { octave: START_OCTAVE }
    }

    pub fn octave(&self) -> (r: i16)
        ensures
            r == self.octave_spec(),
    {
        self.octave
    }

    /// One octave up, unless already at the highest.
    pub fn increase_octave(self) -> (r: MidiKeyboard)
        requires
            self.wf(),
        ensures
            r.wf(),
            r.octave_spec() == if self.octave_spec() < MAX_OCTAVE {
                self.octave_spec() + 1
            } else {
                self.octave_spec()
            },
    {
        let mut k = self;
        if k.octave < MAX_OCTAVE {
            k.octave = k.octave + 1;
        }
        k
    }

    /// One octave down, unless already at the lowest.
    pub fn decrease_octave(self) -> (r: MidiKeyboard)
        requires
            self.wf(),
        ensures
            r.wf(),
            r.octave_spec() == if self.octave_spec() > MIN_OCTAVE {
                self.octave_spec() - 1
            } else {
                self.octave_spec()
            },
    {
        let mut k = self;
        if k.octave > MIN_OCTAVE {
            k.octave = k.octave - 1;
        }
        k
    }

    /// MIDI note number that `key` plays in the current octave; its pitch is
    /// `440 * 2^((n - 69) / 12)` hertz.
    pub fn get_note_number_from_key(&self, key: &MidiNote) -> (r: i16)
        requires
            self.wf(),
        ensures
            r == self.note_number_spec(*key),
    {
        key.index() + self.octave * 12
    }
}

/// The note that a letter key plays: the home row holds the white keys and
/// the row above it the black keys.
pub open spec fn key_note(key: char) -> Option<MidiNote> {
    if key == 'a' {
        Some(MidiNote::C)
    } else if key == 'w' {
        Some(MidiNote::Csharp)
    } else if key == 's' {
        Some(MidiNote::D)
    } else if key == 'e' {
        Some(MidiNote::Dsharp)
    } else if key == 'd' {
        Some(MidiNote::E)
    } else if key == 'r' {
        Some(MidiNote::F)
    } else if key == 'f' {
        Some(MidiNote::Fsharp)
    } else if key == 'h' {
        Some(MidiNote::G)
    } else if key == 'u' {
        Some(MidiNote::Gsharp)
    } else if key == 'j' {
        Some(MidiNote::A)
    } else if key == 'i' {
        Some(MidiNote::Asharp)
    } else if key == 'k' {
        Some(MidiNote::B)
    } else {
        None
    }
}

/// Note played by the letter key `key` (lower case), if any.
pub fn keyboard_to_midi(key: char) -> (r: Option<MidiNote>)
    ensures
        r == key_note(key),
{
    match key {
        'a' => Some(MidiNote::C),
        'w' => Some(MidiNote::Csharp),
        's' => Some(MidiNote::D),
        'e' => Some(MidiNote::Dsharp),
        'd' => Some(MidiNote::E),
        'r' => Some(MidiNote::F),
        'f' => Some(MidiNote::Fsharp),
        'h' => Some(MidiNote::G),
        'u' => Some(MidiNote::Gsharp),
        'j' => Some(MidiNote::A),
        'i' => Some(MidiNote::Asharp),
        'k' => Some(MidiNote::B),
        _ => None,
    }
}

} // verus!
