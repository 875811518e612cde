//! MIDI messages and the ledger of what the keyboard currently holds.

use crate::level::Level;
use std::collections::HashMap;
use vstd::prelude::*;

verus! {

broadcast use vstd::std_specs::hash::group_hash_axioms;

/// A channel message the synthesizer reacts to.
///
/// A note carries its number. A controller carries the data byte as it was
/// received; the ledger turns it into a level.
#[derive(Debug, Clone, Copy, PartialEq, Eq, Structural)]
pub enum MidiEvent {
    NoteDown(u8),
    NoteUp(u8),
    ModWheel(u8),
    PitchBend(u8),
}

/// What a message of raw bytes means: three bytes whose status byte has one
/// of the four known commands in its high nibble, and nothing otherwise.
pub open spec fn parse_message(bytes: Seq<u8>) -> Option<MidiEvent> {
    if bytes.len() != 3 {
        None
    } else if bytes[0] / 16 == 14 {
        Some(MidiEvent::PitchBend(bytes[2]))
    } else if bytes[0] / 16 == 11 {
        Some(MidiEvent::ModWheel(bytes[2]))
    } else if bytes[0] / 16 == 9 {
        Some(MidiEvent::NoteDown(bytes[1]))
    } else if bytes[0] / 16 == 8 {
        Some(MidiEvent::NoteUp(bytes[1]))
    } else {
        None
    }
}

impl MidiEvent {
    /// Decodes one message. The channel in the low nibble of the status byte
    /// is ignored.
    pub fn from_message(bytes: &[u8]) -> (event: Option<MidiEvent>)
        ensures
            event == parse_message(bytes@),
    {
        if bytes.len() == 3 {
            let status: u8 = bytes[0];
            let command: u8 = status >> 4;
            assert(command == status / 16) by (bit_vector)
                requires
                    command == status >> 4,
            ;
            if command == 14 {
                Some(MidiEvent::PitchBend(bytes[2]))
            } else if command == 11 {
                Some(MidiEvent::ModWheel(bytes[2]))
            } else if command == 9 {
                Some(MidiEvent::NoteDown(bytes[1]))
            } else if command == 8 {
                Some(MidiEvent::NoteUp(bytes[1]))
            } else {
                None
            }
        } else {
            None
        }
    }
}

/// Whether a key is held down.
#[derive(Debug, Clone, Copy, PartialEq, Eq, Structural)]
pub struct NoteState {
    pub down: bool,
}

/// What the keyboard holds: the keys that have been touched, and the last
/// data byte of each controller, `None` until the controller first moves.
#[derive(Debug)]
pub struct MidiLedger {
    pub notes: HashMap<u8, NoteState>,
    pub mod_wheel: Option<u8>,
    pub pitch_bend: Option<u8>,
}

/// The ledger as a value: the state of each touched key and the two
/// controllers.
pub struct LedgerView {
    pub notes: Map<u8, NoteState>,
    pub mod_wheel: Option<u8>,
    pub pitch_bend: Option<u8>,
}

impl LedgerView {
    /// The ledger after `event` has been entered. A note event overwrites
    /// that key; a controller event overwrites that controller; nothing
    /// else changes.
    pub open spec fn apply(self, event: MidiEvent) -> LedgerView {
        match event {
            MidiEvent::NoteDown(note) => LedgerView {
                notes: self.notes.insert(note, NoteState { down: true }),
                ..self
            },
            MidiEvent::NoteUp(note) => LedgerView {
                notes: self.notes.insert(note, NoteState { down: false }),
                ..self
            },
            MidiEvent::ModWheel(value) => LedgerView { mod_wheel: Some(value), ..self },
            MidiEvent::PitchBend(value) => LedgerView { pitch_bend: Some(value), ..self },
        }
    }

    /// The ledger after a raw message: the decoded event is entered, and a
    /// message that decodes to nothing leaves the ledger as it was.
    pub open spec fn receive(self, bytes: Seq<u8>) -> LedgerView {
        match parse_message(bytes) {
            Some(event) => self.apply(event),
            None => self,
        }
    }

    /// Key `note` is held: it has been touched and was last pressed.
    pub open spec fn is_down(self, note: u8) -> bool {
        self.notes.contains_key(note) && self.notes[note].down
    }

    /// The position of the modulation wheel: the data byte over 127, and
    /// one half while the wheel has not moved.
    pub open spec fn mod_wheel_level(self) -> Level {
        match self.mod_wheel {
            Some(value) => Level { num: value as i64, den: 127 },
            None => Level { num: 1, den: 2 },
        }
    }

    /// The position of the pitch wheel: twice the data byte over 127, less
    /// one, and zero while the wheel has not moved.
    pub open spec fn pitch_bend_level(self) -> Level {
        match self.pitch_bend {
            Some(value) => Level { num: (2 * value - 127) as i64, den: 127 },
            None => Level { num: 0, den: 127 },
        }
    }
}

impl View for MidiLedger {
    type V = LedgerView;

    open spec fn view(&self) -> LedgerView {
        LedgerView { notes: self.notes@, mod_wheel: self.mod_wheel, pitch_bend: self.pitch_bend }
    }
}

impl MidiLedger {
    /// A ledger of an untouched keyboard.
    pub fn new() -> (ledger: Self)
        ensures
            ledger@.notes == Map::<u8, NoteState>::empty(),
            ledger@.mod_wheel.is_none(),
            ledger@.pitch_bend.is_none(),
    {
        MidiLedger { notes: HashMap::new(), mod_wheel: None, pitch_bend: None }
    }

    /// Enters one event.
    pub fn apply(&mut self, event: MidiEvent)
        ensures
            final(self)@ == old(self)@.apply(event),
    {
        match event {
            MidiEvent::NoteDown(note) => {
                self.notes.insert(note, NoteState { down: true });
            },
            MidiEvent::NoteUp(note) => {
                self.notes.insert(note, NoteState { down: false });
            },
            MidiEvent::ModWheel(value) => {
                self.mod_wheel = Some(value);
            },
            MidiEvent::PitchBend(value) => {
                self.pitch_bend = Some(value);
            },
        }
    }

    /// Decodes a raw message and enters it. Returns the event, or `None`
    /// for a message that is not understood, which changes nothing.
    pub fn receive(&mut self, bytes: &[u8]) -> (event: Option<MidiEvent>)
        ensures
            event == parse_message(bytes@),
            final(self)@ == old(self)@.receive(bytes@),
    {
        let event = MidiEvent::from_message(bytes);
        if let Some(known) = event {
            self.apply(known);
        }
        event
    }

    /// The position of the modulation wheel, from 0 to 1 for a data byte
    /// of up to 127.
    pub fn mod_wheel_level(&self) -> (level: Level)
        ensures
            level == self@.mod_wheel_level(),
            level.wf(),
            level.num >= 0,
            self@.mod_wheel.is_some() && self@.mod_wheel.unwrap() <= 127 ==> level.unipolar(),
            self@.mod_wheel.is_none() ==> level.unipolar(),
    {
        match self.mod_wheel {
            Some(value) => Level { num: value as i64, den: 127 },
            None => Level { num: 1, den: 2 },
        }
    }

    /// The position of the pitch wheel, from -1 to 1 for a data byte of up
    /// to 127.
    pub fn pitch_bend_level(&self) -> (level: Level)
        ensures
            level == self@.pitch_bend_level(),
            level.wf(),
            level.num >= -level.den,
            self@.pitch_bend.is_some() && self@.pitch_bend.unwrap() <= 127 ==> level.bipolar(),
            self@.pitch_bend.is_none() ==> level.bipolar(),
    {
        match self.pitch_bend {
            Some(value) => Level { num: 2 * (value as i64) - 127, den: 127 },
            None => Level { num: 0, den: 127 },
        }
    }

    /// Whether key `note` is held down.
    pub fn is_down(&self, note: u8) -> (down: bool)
        ensures
            down == self@.is_down(note),
    {
        match self.notes.get(&note) {
            Some(state) => state.down,
            None => false,
        }
    }
}

/// Why no input port could be chosen.
#[derive(Debug, Clone, Copy, PartialEq, Eq, Structural)]
pub enum PortError {
    /// There is no input port at all.
    NoInputPort,
    /// What was typed is not a number.
    NotANumber,
    /// The number typed names no port.
    InvalidSelection,
}

impl PortError {
    /// A line for the user.
    pub fn message(&self) -> (text: &'static str)
        ensures
            text@ == match *self {
                PortError::NoInputPort => "no input port found"@,
                PortError::NotANumber => "port selection is not a number"@,
                PortError::InvalidSelection => "invalid input port selected"@,
            },
    {
        match self {
            PortError::NoInputPort => "no input port found",
            PortError::NotANumber => "port selection is not a number",
            PortError::InvalidSelection => "invalid input port selected",
        }
    }
}

/// The byte is an ASCII digit.
pub open spec fn is_digit(byte: u8) -> bool {
    48 <= byte <= 57
}

/// The number that a string of ASCII digits spells in base ten.
pub open spec fn decimal_value(digits: Seq<u8>) -> nat
    decreases digits.len(),
{
    if digits.len() == 0 {
        0
    } else {
        (decimal_value(digits.drop_last()) * 10 + (digits.last() - 48)) as nat
    }
}

/// The digits of a number as typed: what follows an optional plus sign.
pub open spec fn digits_of(text: Seq<u8>) -> Seq<u8> {
    if text.len() > 0 && text[0] == 43 {
        text.skip(1)
    } else {
        text
    }
}

/// The number that `text` spells: an optional plus sign and then one or
/// more digits and nothing else, their value fitting the machine word.
pub open spec fn parse_index(text: Seq<u8>) -> Option<usize> {
    let digits = digits_of(text);
    if digits.len() > 0 && (forall|i: int| 0 <= i < digits.len() ==> is_digit(#[trigger] digits[i]))
        && decimal_value(digits) <= usize::MAX {
        Some(decimal_value(digits) as usize)
    } else {
        None
    }
}

proof fn lemma_decimal_value_grows(digits: Seq<u8>, len: int)
    requires
        0 <= len <= digits.len(),
        forall|i: int| 0 <= i < digits.len() ==> is_digit(#[trigger] digits[i]),
    ensures
        decimal_value(digits.take(len)) <= decimal_value(digits),
    decreases digits.len() - len,
{
    if len < digits.len() {
        let longer = digits.take(len + 1);
        assert(longer.drop_last() == digits.take(len));
        assert(is_digit(digits[len]));
        assert(longer.last() == digits[len]);
        lemma_decimal_value_grows(digits, len + 1);
    } else {
        assert(digits.take(len) == digits);
    }
}

/// Reads a port number as typed, surrounding blanks already removed.
pub fn read_index(text: &[u8]) -> (index: Option<usize>)
    ensures
        index == parse_index(text@),
{
    let start: usize = if text.len() > 0 && text[0] == 43 {
        1
    } else {
        0
    };
    let ghost digits = digits_of(text@);
    assert(digits == text@.skip(start as int));
    if start == text.len() {
        return None;
    }
    let mut value: usize = 0;
    let mut i: usize = start;
    assert(digits.take(0) == Seq::<u8>::empty());
    while i < text.len()
        invariant
            start <= i <= text.len(),
            digits == digits_of(text@),
            digits == text@.skip(start as int),
            digits.len() == text@.len() - start,
            forall|j: int| 0 <= j < i - start ==> is_digit(#[trigger] digits[j]),
            value == decimal_value(digits.take(i - start)),
        decreases text.len() - i,
    {
        let byte: u8 = text[i];
        assert(digits[i - start] == byte);
        if byte < 48 || byte > 57 {
            assert(!is_digit(digits[i - start]));
            return None;
        }
        let ghost longer = digits.take(i - start + 1);
        assert(longer.drop_last() == digits.take(i - start));
        assert(longer.last() == byte);
        let digit: usize = (byte - 48) as usize;
        if value > (usize::MAX - digit) / 10 {
            proof {
                assert(decimal_value(longer) > usize::MAX) by (nonlinear_arith)
                    requires
                        decimal_value(longer) == value * 10 + digit,
                        value > (usize::MAX - digit) / 10,
                        0 <= digit <= 9,
                ;
                if forall|j: int| 0 <= j < digits.len() ==> is_digit(#[trigger] digits[j]) {
                    lemma_decimal_value_grows(digits, i - start + 1);
                }
            }
            return None;
        }
        assert(value * 10 + digit <= usize::MAX) by (nonlinear_arith)
            requires
                value <= (usize::MAX - digit) / 10,
                0 <= digit <= 9,
        ;
        value = value * 10 + digit;
        i += 1;
    }
    assert(digits.take(i - start) == digits);
    Some(value)
}

/// The port to open when nobody is asked: the only one there is. `None`
/// means that there are several and the user has to choose.
pub fn default_port(count: usize) -> (port: Result<Option<usize>, PortError>)
    ensures
        port == match count {
            0 => Err::<Option<usize>, PortError>(PortError::NoInputPort),
            1 => Ok(Some(0usize)),
            _ => Ok(None),
        },
{
    if count == 0 {
        Err(PortError::NoInputPort)
    } else if count == 1 {
        Ok(Some(0))
    } else {
        Ok(None)
    }
}

/// The port that the user chose among `count` by typing `answer`.
pub fn chosen_port(count: usize, answer: &[u8]) -> (port: Result<usize, PortError>)
    ensures
        port == match parse_index(answer@) {
            None => Err::<usize, PortError>(PortError::NotANumber),
            Some(index) => if index < count {
                Ok(index)
            } else {
                Err(PortError::InvalidSelection)
            },
        },
{
    match read_index(answer) {
        None => Err(PortError::NotANumber),
        Some(index) => {
            if index < count {
                Ok(index)
            } else {
                Err(PortError::InvalidSelection)
            }
        },
    }
}

} // verus!
