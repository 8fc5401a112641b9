//! Pitches and notes.
//!
//! A pitch is spelled with a letter, an octave number and an optional
//! accidental. Its place on the keyboard, the number of semitones above C0,
//! is derived from the spelling, and pitches are compared by that number
//! alone: two spellings of one key are equal.

use std::cmp::Ordering;
use std::num::ParseIntError;
use std::str::FromStr;

use tinyvec::ArrayVec;

use vstd::prelude::*;
use vstd::string::StringExecFns;
use vstd::std_specs::cmp::{PartialEqSpec, PartialOrdSpec};

use crate::decimal::{
    decimal, lemma_byte_reads_back, lemma_decimal_reads_back, lemma_two_digits_bound, parse_u8,
    parsed_u8, u8_from_str, u8_to_string,
};
use crate::tempo::{NoteSize, NoteSizeUnit};
use crate::MAX_NOTES_IN_TUPLET;

verus! {

/// The highest semitone index that has a spelling: B in octave 255.
pub const MAX_SEMITONES: u32 = 3071;

/// The seven letters of the scale.
#[derive(Debug, Clone, Copy, PartialEq, Eq, Structural)]
pub enum Octave {
    A,
    B,
    C,
    D,
    E,
    F,
    G,
}

impl Octave {
    /// Semitones from C up to this letter, within one octave.
    pub open spec fn spec_semitones(self) -> int {
        match self {
            Octave::A => 9,
            Octave::B => 11,
            Octave::C => 0,
            Octave::D => 2,
            Octave::E => 4,
            Octave::F => 5,
            Octave::G => 7,
        }
    }

    /// Semitones from C up to this letter, within one octave.
    pub fn semitones(self) -> (r: u8)
        ensures
            r == self.spec_semitones(),
    {
        match self {
            Octave::A => 9,
            Octave::B => 11,
            Octave::C => 0,
            Octave::D => 2,
            Octave::E => 4,
            Octave::F => 5,
            Octave::G => 7,
        }
    }

    /// The letter that a character names, if it is one of `A` to `G`.
    pub open spec fn from_letter(c: char) -> Option<Octave> {
        if c == 'A' {
            Some(Octave::A)
        } else if c == 'B' {
            Some(Octave::B)
        } else if c == 'C' {
            Some(Octave::C)
        } else if c == 'D' {
            Some(Octave::D)
        } else if c == 'E' {
            Some(Octave::E)
        } else if c == 'F' {
            Some(Octave::F)
        } else if c == 'G' {
            Some(Octave::G)
        } else {
            None
        }
    }

    /// The capital that writes the letter.
    pub open spec fn letter(self) -> char {
        match self {
            Octave::A => 'A',
            Octave::B => 'B',
            Octave::C => 'C',
            Octave::D => 'D',
            Octave::E => 'E',
            Octave::F => 'F',
            Octave::G => 'G',
        }
    }

    /// The letter as text.
    pub fn to_string(&self) -> (text: String)
        ensures
            text@ == seq![self.letter()],
    {
        proof {
            reveal_strlit("A");
            reveal_strlit("B");
            reveal_strlit("C");
            reveal_strlit("D");
            reveal_strlit("E");
            reveal_strlit("F");
            reveal_strlit("G");
        }
        let name: &'static str = match self {
            Octave::A => "A",
            Octave::B => "B",
            Octave::C => "C",
            Octave::D => "D",
            Octave::E => "E",
            Octave::F => "F",
            Octave::G => "G",
        };
        assert(name@ =~= seq![self.letter()]);
        name.to_owned()
    }
}

impl TryFrom<char> for Octave {
    type Error = NoteError;

    /// The letter that a character names; any character but the capitals
    /// `A` to `G` is an invalid octave.
    fn try_from(value: char) -> (res: Result<Self, Self::Error>) {
        match value {
            'A' => Ok(Octave::A),
            'B' => Ok(Octave::B),
            'C' => Ok(Octave::C),
            'D' => Ok(Octave::D),
            'E' => Ok(Octave::E),
            'F' => Ok(Octave::F),
            'G' => Ok(Octave::G),
            _ => Err(NoteError::InvalidOctave),
        }
    }
}

impl vstd::std_specs::convert::TryFromSpecImpl<char> for Octave {
    open spec fn obeys_try_from_spec() -> bool {
        true
    }

    open spec fn try_from_spec(value: char) -> Result<Self, NoteError> {
        match Octave::from_letter(value) {
            Some(octave) => Ok(octave),
            None => Err(NoteError::InvalidOctave),
        }
    }
}

/// An accidental. The derived order is flat, natural, sharp.
#[derive(Debug, Clone, Copy, PartialEq, Eq, PartialOrd, Ord, Structural)]
pub enum ToneModifiers {
    Flat,
    Natural,
    Sharp,
}

impl ToneModifiers {
    /// By how many semitones the accidental moves a pitch.
    pub open spec fn spec_shift(self) -> int {
        match self {
            ToneModifiers::Flat => -1,
            ToneModifiers::Natural => 0,
            ToneModifiers::Sharp => 1,
        }
    }

    /// The sign that writes the accidental.
    pub open spec fn sign(self) -> char {
        match self {
            ToneModifiers::Sharp => '\u{266f}',
            ToneModifiers::Flat => '\u{266d}',
            ToneModifiers::Natural => '\u{266e}',
        }
    }

    /// The accidental as text.
    pub fn to_string(&self) -> (text: String)
        ensures
            text@ == seq![self.sign()],
    {
        proof {
            reveal_strlit("\u{266f}");
            reveal_strlit("\u{266d}");
            reveal_strlit("\u{266e}");
        }
        let name: &'static str = match self {
            ToneModifiers::Sharp => "\u{266f}",
            ToneModifiers::Flat => "\u{266d}",
            ToneModifiers::Natural => "\u{266e}",
        };
        assert(name@ =~= seq![self.sign()]);
        name.to_owned()
    }
}

/// A pitch as it is written: letter, octave number, optional accidental.
#[derive(Debug, Clone, Copy)]
pub struct Tone {
    pub octave: Octave,
    pub position: u8,
    pub modifiers: Option<ToneModifiers>,
}

impl Tone {
    /// Semitones above C0: twelve per octave, plus the letter, plus the
    /// accidental. It is `-1` for C0 flat and `3072` for B255 sharp; every
    /// other spelling lies in `0..=3071`.
    pub open spec fn semitones(&self) -> int {
        self.position * 12 + self.octave.spec_semitones() + match self.modifiers {
            Some(m) => m.spec_shift(),
            None => 0,
        }
    }

    /// Whether two spellings name the same key.
    pub open spec fn same_key(self, other: Tone) -> bool {
        self.semitones() == other.semitones()
    }

    /// The one spelling that a letter and accidental may not have: C0 flat,
    /// which would lie below the lowest key.
    pub open spec fn below_floor(octave: Octave, position: u8, modifiers: ToneModifiers) -> bool {
        octave == Octave::C && position == 0 && modifiers == ToneModifiers::Flat
    }

    /// The spelling chosen for a semitone index: the natural where one
    /// exists, else the sharp of the natural below.
    pub open spec fn spelling(index: nat) -> Tone {
        let position = (index / 12) as u8;
        let rem = index % 12;
        if rem == 0 {
            Tone { octave: Octave::C, position, modifiers: None }
        } else if rem == 1 {
            Tone { octave: Octave::C, position, modifiers: Some(ToneModifiers::Sharp) }
        } else if rem == 2 {
            Tone { octave: Octave::D, position, modifiers: None }
        } else if rem == 3 {
            Tone { octave: Octave::D, position, modifiers: Some(ToneModifiers::Sharp) }
        } else if rem == 4 {
            Tone { octave: Octave::E, position, modifiers: None }
        } else if rem == 5 {
            Tone { octave: Octave::F, position, modifiers: None }
        } else if rem == 6 {
            Tone { octave: Octave::F, position, modifiers: Some(ToneModifiers::Sharp) }
        } else if rem == 7 {
            Tone { octave: Octave::G, position, modifiers: None }
        } else if rem == 8 {
            Tone { octave: Octave::G, position, modifiers: Some(ToneModifiers::Sharp) }
        } else if rem == 9 {
            Tone { octave: Octave::A, position, modifiers: None }
        } else if rem == 10 {
            Tone { octave: Octave::A, position, modifiers: Some(ToneModifiers::Sharp) }
        } else {
            Tone { octave: Octave::B, position, modifiers: None }
        }
    }

    /// What `from_semitones_since_c0` gives for an index.
    pub open spec fn from_semitones(index: nat) -> Option<Tone> {
        if index <= MAX_SEMITONES {
            Some(Self::spelling(index))
        } else {
            None
        }
    }

    /// A pitch without accidental.
    pub fn new(octave: Octave, position: u8) -> (res: Self)
        ensures
            res == (Tone { octave, position, modifiers: None }),
    {
        Self { octave, position, modifiers: None }
    }

    /// A pitch with an accidental, taken as given: also C0 flat.
    pub fn with_modifiers_unchecked(octave: Octave, position: u8, modifiers: ToneModifiers) -> (res:
        Self)
        ensures
            res == (Tone { octave, position, modifiers: Some(modifiers) }),
    {
        Self { octave, position, modifiers: Some(modifiers) }
    }

    /// A pitch with an accidental; `None` for C0 flat and for nothing else.
    pub fn with_modifiers(octave: Octave, position: u8, modifiers: ToneModifiers) -> (res: Option<
        Self,
    >)
        ensures
            res == if Self::below_floor(octave, position, modifiers) {
                None
            } else {
                Some(Tone { octave, position, modifiers: Some(modifiers) })
            },
    {
        if octave == Octave::C && position == 0 && modifiers == ToneModifiers::Flat {
            return None;
        }
        Some(Self { octave, position, modifiers: Some(modifiers) })
    }

    /// The pitch at a semitone index, in its canonical spelling; `None`
    /// above B255.
    pub fn from_semitones_since_c0(semitones: u32) -> (res: Option<Tone>)
        ensures
            res == Self::from_semitones(semitones as nat),
            res is Some <==> semitones <= MAX_SEMITONES,
            res matches Some(t) ==> t.semitones() == semitones,
    {
        if semitones > MAX_SEMITONES {
            return None;
        }
        let rem: u32 = semitones % 12;
        let position: u8 = ((semitones - rem) / 12) as u8;
        match rem {
            0 => Some(Tone::new(Octave::C, position)),
            1 => Some(Tone::with_modifiers_unchecked(Octave::C, position, ToneModifiers::Sharp)),
            2 => Some(Tone::new(Octave::D, position)),
            3 => Some(Tone::with_modifiers_unchecked(Octave::D, position, ToneModifiers::Sharp)),
            4 => Some(Tone::new(Octave::E, position)),
            5 => Some(Tone::new(Octave::F, position)),
            6 => Some(Tone::with_modifiers_unchecked(Octave::F, position, ToneModifiers::Sharp)),
            7 => Some(Tone::new(Octave::G, position)),
            8 => Some(Tone::with_modifiers_unchecked(Octave::G, position, ToneModifiers::Sharp)),
            9 => Some(Tone::new(Octave::A, position)),
            10 => Some(Tone::with_modifiers_unchecked(Octave::A, position, ToneModifiers::Sharp)),
            _ => Some(Tone::new(Octave::B, position)),
        }
    }

    /// Semitones above C0, for every spelling: C0 flat gives `-1`.
    pub fn signed_semitones(&self) -> (r: i32)
        ensures
            r == self.semitones(),
    {
        let base: i32 = self.position as i32 * 12 + self.octave.semitones() as i32;
        match self.modifiers {
            Some(ToneModifiers::Sharp) => base + 1,
            Some(ToneModifiers::Flat) => base - 1,
            _ => base,
        }
    }

    /// Semitones above C0. C0 flat lies below C0 and has no such number.
    pub fn get_semitones_since_c0(&self) -> (r: u32)
        requires
            self.semitones() >= 0,
        ensures
            r == self.semitones(),
    {
        let mut semitones: u32 = self.position as u32 * 12;
        semitones += self.octave.semitones() as u32;
        match self.modifiers {
            Some(ToneModifiers::Sharp) => semitones += 1,
            Some(ToneModifiers::Flat) => semitones -= 1,
            _ => {},
        };
        semitones
    }

    /// Whether a text has the length of a pitch, a letter and one or two
    /// digits: two or three bytes in UTF-8.
    pub open spec fn text_length_ok(text: Seq<char>) -> bool {
        2 <= vstd::utf8::encode_utf8(text).len() <= 3
    }

    /// What the reading of a text as a pitch gives.
    ///
    /// A pitch comes out exactly when the text is two or three bytes long,
    /// starts with a letter from `A` to `G` and goes on with a number: the
    /// pitch of that letter and octave number, without accidental. A text of
    /// another length is an invalid note, so no octave above 99 can be
    /// written; else a first character that is no such letter is an invalid
    /// octave; else the number is invalid, and the error is the one that the
    /// reading of the number gave.
    pub open spec fn reads_as(text: Seq<char>, res: Result<Tone, NoteError>) -> bool {
        match res {
            Ok(tone) => {
                &&& Self::text_length_ok(text)
                &&& Octave::from_letter(text[0]) == Some(tone.octave)
                &&& parsed_u8(text.drop_first()) == Some(tone.position)
                &&& tone.modifiers is None
            },
            Err(NoteError::InvalidNote) => !Self::text_length_ok(text),
            Err(NoteError::InvalidOctave) => {
                &&& Self::text_length_ok(text)
                &&& Octave::from_letter(text[0]) is None
            },
            Err(NoteError::InvalidNumber(e)) => {
                &&& Self::text_length_ok(text)
                &&& Octave::from_letter(text[0]) is Some
                &&& parsed_u8(text.drop_first()) is None
                &&& u8_from_str(text.drop_first()) == Err::<u8, ParseIntError>(e)
            },
        }
    }

    /// Reads a pitch from a text: a letter from `A` to `G`, then the octave
    /// number. No accidental can be written.
    ///
    /// The text is an invalid note unless it is two or three bytes long; its
    /// first character must be the letter, else the octave is invalid; and
    /// the rest must be a number, else the number is invalid, and the error
    /// that the reading of the number gave is handed on.
    pub fn parse(s: &str) -> (res: Result<Tone, NoteError>)
        ensures
            Self::reads_as(s@, res),
    {
        let length: usize = s.as_bytes().len();
        if length > 3 || length < 2 {
            return Err(NoteError::InvalidNote);
        }
        assert(s@.len() > 0);
        let oct: char = s.get_char(0);
        let octave: Octave = match Octave::try_from(oct) {
            Ok(octave) => octave,
            Err(e) => {
                return Err(e);
            },
        };
        let count: usize = s.unicode_len();
        let num: &str = s.substring_char(1, count);
        assert(num@ == s@.drop_first());
        match parse_u8(num) {
            Ok(position) => Ok(Tone { octave, position, modifiers: None }),
            Err(e) => Err(NoteError::from(e)),
        }
    }

    /// The pitch as it is written: the letter, the octave number, and the
    /// sign of the accidental where there is one.
    pub open spec fn text(&self) -> Seq<char> {
        seq![self.octave.letter()] + decimal(self.position as nat) + match self.modifiers {
            Some(modifiers) => seq![modifiers.sign()],
            None => Seq::empty(),
        }
    }

    /// The pitch as text.
    pub fn to_string(&self) -> (text: String)
        ensures
            text@ == self.text(),
    {
        let mut text: String = self.octave.to_string();
        let number: String = u8_to_string(self.position);
        text.append(number.as_str());
        match self.modifiers {
            Some(modifiers) => {
                let sign: String = modifiers.to_string();
                text.append(sign.as_str());
            },
            None => {},
        }
        assert(text@ =~= self.text());
        text
    }
}

impl Default for Tone {
    /// Middle C, C4.
    fn default() -> (res: Self)
        ensures
            res == (Tone { octave: Octave::C, position: 4, modifiers: None }),
    {
        Self { octave: Octave::C, position: 4, modifiers: None }
    }
}

impl FromStr for Tone {
    type Err = NoteError;

    /// Reads a pitch from a text, as [`Tone::parse`] does.
    fn from_str(s: &str) -> (res: Result<Self, Self::Err>)
        ensures
            Tone::reads_as(s@, res),
    {
        Tone::parse(s)
    }
}

impl PartialEq for Tone {
    /// Two pitches are equal when they name the same key.
    fn eq(&self, other: &Self) -> (r: bool) {
        let a: i32 = self.signed_semitones();
        let b: i32 = other.signed_semitones();
        a == b
    }
}

impl vstd::std_specs::cmp::PartialEqSpecImpl for Tone {
    open spec fn obeys_eq_spec() -> bool {
        true
    }

    open spec fn eq_spec(&self, other: &Self) -> bool {
        self.same_key(*other)
    }
}

impl Eq for Tone {
}

impl PartialOrd for Tone {
    /// Pitches are ordered by the key they name, lowest first.
    fn partial_cmp(&self, other: &Self) -> (r: Option<Ordering>) {
        let a: i32 = self.signed_semitones();
        let b: i32 = other.signed_semitones();
        if a < b {
            Some(Ordering::Less)
        } else if a == b {
            Some(Ordering::Equal)
        } else {
            Some(Ordering::Greater)
        }
    }
}

impl vstd::std_specs::cmp::PartialOrdSpecImpl for Tone {
    open spec fn obeys_partial_cmp_spec() -> bool {
        true
    }

    open spec fn partial_cmp_spec(&self, other: &Self) -> Option<Ordering> {
        if self.semitones() < other.semitones() {
            Some(Ordering::Less)
        } else if self.semitones() == other.semitones() {
            Some(Ordering::Equal)
        } else {
            Some(Ordering::Greater)
        }
    }
}

/// Every spelling lies between C0 flat and B255 sharp.
pub proof fn lemma_semitones_range(p: Tone)
    ensures
        -1 <= p.semitones() <= MAX_SEMITONES + 1,
        p.semitones() == -1 <==> p == (Tone {
            octave: Octave::C,
            position: 0,
            modifiers: Some(ToneModifiers::Flat),
        }),
        p.semitones() == MAX_SEMITONES + 1 <==> p == (Tone {
            octave: Octave::B,
            position: 255,
            modifiers: Some(ToneModifiers::Sharp),
        }),
{
}

/// The canonical spelling of an index names that index, keeps the octave
/// number `index / 12`, and carries either no accidental or a sharp.
pub proof fn lemma_spelling_semitones(index: nat)
    requires
        index <= MAX_SEMITONES,
    ensures
        Tone::spelling(index).semitones() == index,
        Tone::spelling(index).position == index / 12,
        Tone::spelling(index).modifiers is None || Tone::spelling(index).modifiers == Some(
            ToneModifiers::Sharp,
        ),
{
}

/// Semitone round trip: a pitch whose index lies in `0..=3071` is rebuilt
/// from that index as a pitch with the same index, though perhaps spelled
/// otherwise.
pub proof fn lemma_semitone_round_trip(p: Tone)
    requires
        0 <= p.semitones() <= MAX_SEMITONES,
    ensures
        Tone::from_semitones(p.semitones() as nat) matches Some(q) && q.semitones()
            == p.semitones(),
{
    lemma_spelling_semitones(p.semitones() as nat);
}

/// Rebuilding a pitch from its index gives a pitch equal to it.
pub proof fn lemma_round_trip_equal(p: Tone)
    requires
        0 <= p.semitones() <= MAX_SEMITONES,
    ensures
        Tone::from_semitones(p.semitones() as nat) matches Some(q) && q.eq_spec(&p),
{
    lemma_spelling_semitones(p.semitones() as nat);
}

/// Pitches compare as their semitone indices do: `p < q` exactly when the
/// index of `p` is the smaller, and two spellings of one key are equal.
pub proof fn lemma_order_follows_semitones(p: Tone, q: Tone)
    ensures
        p.partial_cmp_spec(&q) == Some(Ordering::Less) <==> p.semitones() < q.semitones(),
        p.partial_cmp_spec(&q) == Some(Ordering::Equal) <==> p.semitones() == q.semitones(),
        p.partial_cmp_spec(&q) == Some(Ordering::Greater) <==> p.semitones() > q.semitones(),
        p.eq_spec(&q) <==> p.semitones() == q.semitones(),
        p.eq_spec(&q) <==> p.partial_cmp_spec(&q) == Some(Ordering::Equal),
{
}

/// A pitch without accidental in an octave up to 99, written as text, is
/// read back as it was: the text has the length of a pitch, starts with the
/// letter, and goes on with the octave number.
pub proof fn lemma_text_reads_back(tone: Tone)
    requires
        tone.modifiers is None,
        tone.position <= 99,
    ensures
        Tone::text_length_ok(tone.text()),
        Octave::from_letter(tone.text()[0]) == Some(tone.octave),
        parsed_u8(tone.text().drop_first()) == Some(tone.position),
{
    let number = decimal(tone.position as nat);
    let text = tone.text();
    lemma_byte_reads_back(tone.position);
    lemma_decimal_reads_back(tone.position as nat);
    assert(number.len() <= 2) by {
        reveal_with_fuel(decimal, 2);
    }
    assert(text =~= seq![tone.octave.letter()] + number);
    assert(text.drop_first() =~= number);
    assert forall|i: int| 0 <= i < text.len() implies '\0' <= #[trigger] text[i] <= '\u{7f}' by {
        if i > 0 {
            assert(text[i] == number[i - 1]);
        }
    }
    vstd::utf8::is_ascii_chars_encode_utf8(text);
}

/// A text is at least as many bytes long as it has characters.
proof fn lemma_bytes_cover_characters(text: Seq<char>)
    ensures
        vstd::utf8::encode_utf8(text).len() >= text.len(),
    decreases text.len(),
{
    if text.len() > 0 {
        lemma_bytes_cover_characters(text.drop_first());
    }
}

/// The octave number of a pitch that was read is 99 at most: a text of three
/// bytes has no room for more than two digits.
pub proof fn lemma_read_octave_bound(text: Seq<char>, res: Result<Tone, NoteError>)
    requires
        Tone::reads_as(text, res),
    ensures
        res matches Ok(tone) ==> tone.position <= 99,
{
    if let Ok(tone) = res {
        lemma_bytes_cover_characters(text);
        let rest = text.drop_first();
        let digits = if rest.len() > 0 && rest[0] == '+' {
            rest.drop_first()
        } else {
            rest
        };
        assert(text.len() >= 1) by {
            if text.len() == 0 {
                assert(vstd::utf8::encode_utf8(text).len() == 0);
            }
        }
        lemma_two_digits_bound(digits);
    }
}

/// A pitch with its length.
#[derive(Debug, Clone, Copy)]
pub struct NoteInfo {
    pub tone: Tone,
    pub size: NoteSize,
}

impl Default for NoteInfo {
    /// A semibreve on middle C.
    fn default() -> (res: Self)
        ensures
            res.tone == (Tone { octave: Octave::C, position: 4, modifiers: None }),
            res.size == (NoteSize { unit: NoteSizeUnit::SemiBreve, modifiers: None }),
    {
        NoteInfo { tone: Tone::default(), size: NoteSize::default() }
    }
}

/// The bounded vector of `tinyvec`, which holds the notes of a tuplet.
#[verifier::external_type_specification]
#[verifier::external_body]
#[verifier::reject_recursive_types(A)]
pub struct ExArrayVec<A>(ArrayVec<A>);

/// What stands at one place in a bar.
#[derive(Debug, Clone, Copy)]
pub enum Note {
    /// A single note.
    Note(NoteInfo),
    /// Up to five notes played in the time of another count.
    Tuplet(ArrayVec<[NoteInfo; MAX_NOTES_IN_TUPLET]>),
    /// A note with a grace note before it.
    WithGrace { grace: Tone, note: NoteInfo },
    /// A silence of the given length.
    Rest(NoteSize),
}

impl Default for Note {
    /// A single semibreve on middle C.
    fn default() -> (res: Self)
        ensures
            res matches Note::Note(info) && info.tone == (Tone {
                octave: Octave::C,
                position: 4,
                modifiers: None,
            }) && info.size == (NoteSize { unit: NoteSizeUnit::SemiBreve, modifiers: None }),
    {
        Note::Note(NoteInfo::default())
    }
}

/// The notes that a tuplet holds, in the order in which they were added.
pub uninterp spec fn tuplet_notes(tuplet: ArrayVec<[NoteInfo; MAX_NOTES_IN_TUPLET]>) -> Seq<
    NoteInfo,
>;

/// `ArrayVec::new`: a vector that holds nothing.
#[verifier::external_body]
fn new_tuplet() -> (tuplet: ArrayVec<[NoteInfo; MAX_NOTES_IN_TUPLET]>)
    ensures
        tuplet_notes(tuplet) == Seq::<NoteInfo>::empty(),
{
    ArrayVec::new()
}

/// `ArrayVec::try_push`: while fewer than five notes are held, the note is
/// added at the end and `None` comes back; else the vector is left untouched
/// and the note is handed back.
#[verifier::external_body]
fn try_push_note(tuplet: &mut ArrayVec<[NoteInfo; MAX_NOTES_IN_TUPLET]>, note: NoteInfo) -> (rejected:
    Option<NoteInfo>)
    ensures
        tuplet_notes(*old(tuplet)).len() < MAX_NOTES_IN_TUPLET ==> rejected is None && tuplet_notes(
            *final(tuplet),
        ) == tuplet_notes(*old(tuplet)).push(note),
        tuplet_notes(*old(tuplet)).len() >= MAX_NOTES_IN_TUPLET ==> rejected == Some(note)
            && *final(tuplet) == *old(tuplet),
{
    tuplet.try_push(note)
}

impl Note {
    /// The notes of a tuplet in order; of anything else, no notes.
    pub open spec fn grouped(&self) -> Seq<NoteInfo> {
        match self {
            Note::Tuplet(tuplet) => tuplet_notes(*tuplet),
            _ => Seq::empty(),
        }
    }

    /// Whether a further note can be added: whether this is a tuplet of
    /// fewer than five notes.
    pub open spec fn has_room(&self) -> bool {
        self is Tuplet && self.grouped().len() < MAX_NOTES_IN_TUPLET
    }

    /// A tuplet without notes.
    pub fn empty_tuplet() -> (res: Self)
        ensures
            res is Tuplet,
            res.grouped() == Seq::<NoteInfo>::empty(),
    {
        Note::Tuplet(new_tuplet())
    }

    /// Adds a note at the end of a tuplet.
    ///
    /// A tuplet holds five notes at most. When it is full, and when `self`
    /// is no tuplet at all, nothing changes and the note comes back.
    pub fn push_note(&mut self, note: NoteInfo) -> (rejected: Option<NoteInfo>)
        ensures
            old(self).has_room() ==> rejected is None && *final(self) is Tuplet,
            old(self).has_room() ==> final(self).grouped() == old(self).grouped().push(note),
            !old(self).has_room() ==> rejected == Some(note) && *final(self) == *old(self),
    {
        match self {
            Note::Tuplet(tuplet) => {
                let rejected: Option<NoteInfo> = try_push_note(tuplet, note);
                rejected
            },
            _ => Some(note),
        }
    }
}

/// Why a text is not a pitch.
#[derive(Debug, Clone)]
pub enum NoteError {
    /// The text is shorter than two bytes or longer than three.
    InvalidNote,
    /// The first character is none of the letters A to G.
    InvalidOctave,
    /// What follows the letter is not a number that fits the octave.
    InvalidNumber(ParseIntError),
}

impl From<ParseIntError> for NoteError {
    fn from(source: ParseIntError) -> (res: Self) {
        NoteError::InvalidNumber(source)
    }
}

impl vstd::std_specs::convert::FromSpecImpl<ParseIntError> for NoteError {
    open spec fn obeys_from_spec() -> bool {
        true
    }

    open spec fn from_spec(source: ParseIntError) -> Self {
        NoteError::InvalidNumber(source)
    }
}

} // verus!
