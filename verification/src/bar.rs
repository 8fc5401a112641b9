//! Bars, their headers, and the lines of bars that make a staff.

use std::cmp::Ordering;

use vstd::prelude::*;
use vstd::std_specs::cmp::{PartialEqSpec, PartialOrdSpec};

use crate::notes::{Note, Octave, Tone};
use crate::tempo::TimeSignature;
use crate::STARTING_BAR_CAPACITY;

verus! {

/// Where a note stands: which line, which bar of it, which place in the bar.
#[derive(Debug, Clone, Copy, PartialEq, Eq, Structural)]
pub struct NotePosition {
    pub line: usize,
    pub bar: usize,
    pub index: usize,
}

impl PartialOrd for NotePosition {
    /// Positions on one line are ordered by bar, then by place in the bar;
    /// positions on different lines are not ordered.
    fn partial_cmp(&self, other: &Self) -> (r: Option<Ordering>) {
        if self.line != other.line {
            return None;
        }
        if self.bar < other.bar {
            Some(Ordering::Less)
        } else if self.bar > other.bar {
            Some(Ordering::Greater)
        } else if self.index < other.index {
            Some(Ordering::Less)
        } else if self.index > other.index {
            Some(Ordering::Greater)
        } else {
            Some(Ordering::Equal)
        }
    }
}

impl vstd::std_specs::cmp::PartialOrdSpecImpl for NotePosition {
    open spec fn obeys_partial_cmp_spec() -> bool {
        true
    }

    open spec fn partial_cmp_spec(&self, other: &Self) -> Option<Ordering> {
        if self.line != other.line {
            None
        } else if self.bar < other.bar || (self.bar == other.bar && self.index < other.index) {
            Some(Ordering::Less)
        } else if self.bar == other.bar && self.index == other.index {
            Some(Ordering::Equal)
        } else {
            Some(Ordering::Greater)
        }
    }
}

/// The clef at the start of a bar.
#[derive(Debug, Clone, Copy)]
pub enum Clef {
    Treble,
    Tenor,
    Bass,
    /// No clef: the given pitch sits on the middle line of the staff.
    NoClef { center: Tone },
}

impl Clef {
    /// The pitch on the middle line of the staff under this clef.
    pub open spec fn center_tone(self) -> Tone {
        match self {
            Clef::Treble => Tone { octave: Octave::B, position: 4, modifiers: None },
            Clef::Tenor => Tone { octave: Octave::C, position: 4, modifiers: None },
            Clef::Bass => Tone { octave: Octave::D, position: 3, modifiers: None },
            Clef::NoClef { center } => center,
        }
    }

    /// Whether two clefs are equal: the same clef or, where both are
    /// missing, center pitches on the same key.
    pub open spec fn same_clef(self, other: Clef) -> bool {
        match (self, other) {
            (Clef::Treble, Clef::Treble) => true,
            (Clef::Tenor, Clef::Tenor) => true,
            (Clef::Bass, Clef::Bass) => true,
            (Clef::NoClef { center: a }, Clef::NoClef { center: b }) => a.same_key(b),
            _ => false,
        }
    }

    /// The pitch on the middle line of the staff under this clef.
    pub fn get_center_tone(&self) -> (res: Tone)
        ensures
            res == self.center_tone(),
    {
        match self {
            Clef::Treble => Tone::new(Octave::B, 4),
            Clef::Tenor => Tone::new(Octave::C, 4),
            Clef::Bass => Tone::new(Octave::D, 3),
            Clef::NoClef { center } => *center,
        }
    }
}

impl Default for Clef {
    /// No clef, with middle C on the middle line.
    fn default() -> (res: Self)
        ensures
            res == (Clef::NoClef { center: Tone { octave: Octave::C, position: 4, modifiers: None } }),
    {
        Clef::NoClef { center: Tone::new(Octave::C, 4) }
    }
}

impl PartialEq for Clef {
    /// Clefs are equal when they are the same clef; two missing clefs, when
    /// their center pitches are equal.
    fn eq(&self, other: &Self) -> (r: bool) {
        match (self, other) {
            (Clef::Treble, Clef::Treble) => true,
            (Clef::Tenor, Clef::Tenor) => true,
            (Clef::Bass, Clef::Bass) => true,
            (Clef::NoClef { center: a }, Clef::NoClef { center: b }) => *a == *b,
            _ => false,
        }
    }
}

impl vstd::std_specs::cmp::PartialEqSpecImpl for Clef {
    open spec fn obeys_eq_spec() -> bool {
        true
    }

    open spec fn eq_spec(&self, other: &Self) -> bool {
        self.same_clef(*other)
    }
}

impl Eq for Clef {
}

/// What stands before the notes of a bar.
#[derive(Debug, Clone, Copy)]
pub struct BarHeader {
    pub clef: Option<Clef>,
    pub time_signature: Option<TimeSignature>,
    pub attributes: [Option<Tone>; 8],
}

/// Equality of two optional clefs, as `==` computes it.
pub open spec fn clef_eq(a: Option<Clef>, b: Option<Clef>) -> bool {
    match (a, b) {
        (Some(x), Some(y)) => x.same_clef(y),
        (None, None) => true,
        _ => false,
    }
}

/// Equality of two optional pitches, as `==` computes it.
pub open spec fn tone_eq(a: Option<Tone>, b: Option<Tone>) -> bool {
    match (a, b) {
        (Some(x), Some(y)) => x.same_key(y),
        (None, None) => true,
        _ => false,
    }
}

impl BarHeader {
    /// The header that holds nothing: no clef, no time signature, no
    /// attribute.
    pub open spec fn is_default(&self) -> bool {
        &&& self.clef is None
        &&& self.time_signature is None
        &&& forall|i: int| 0 <= i < 8 ==> self.attributes@[i] is None
    }

    /// A sane default for starting a new line: a bass clef and a 4/4 time
    /// signature.
    pub fn sane_default() -> (res: Self)
        ensures
            res.clef matches Some(Clef::Bass),
            res.time_signature matches Some(ts) && ts@ == (4nat, 4nat),
            forall|i: int| 0 <= i < 8 ==> res.attributes@[i] is None,
    {
        Self {
            clef: Some(Clef::Bass),
            time_signature: Some(TimeSignature::default()),
            attributes: [None, None, None, None, None, None, None, None],
        }
    }
}

impl Default for BarHeader {
    /// The header that holds nothing.
    fn default() -> (res: Self)
        ensures
            res.is_default(),
    {
        Self { clef: None, time_signature: None, attributes: [None, None, None, None, None, None, None, None] }
    }
}

impl PartialEq for BarHeader {
    /// Headers are equal when their clefs, their time signatures and each of
    /// their attributes are.
    fn eq(&self, other: &Self) -> (r: bool) {
        let clefs: bool = match (&self.clef, &other.clef) {
            (Some(a), Some(b)) => *a == *b,
            (None, None) => true,
            _ => false,
        };
        let signatures: bool = match (&self.time_signature, &other.time_signature) {
            (Some(a), Some(b)) => *a == *b,
            (None, None) => true,
            _ => false,
        };
        if !clefs || !signatures {
            return false;
        }
        let mut i: usize = 0;
        while i < 8
            invariant
                i <= 8,
                forall|j: int| 0 <= j < i ==> tone_eq(self.attributes@[j], other.attributes@[j]),
            decreases 8 - i,
        {
            let same: bool = match (&self.attributes[i], &other.attributes[i]) {
                (Some(a), Some(b)) => *a == *b,
                (None, None) => true,
                _ => false,
            };
            if !same {
                return false;
            }
            i += 1;
        }
        true
    }
}

impl vstd::std_specs::cmp::PartialEqSpecImpl for BarHeader {
    open spec fn obeys_eq_spec() -> bool {
        true
    }

    open spec fn eq_spec(&self, other: &Self) -> bool {
        &&& clef_eq(self.clef, other.clef)
        &&& self.time_signature == other.time_signature
        &&& forall|i: int| 0 <= i < 8 ==> tone_eq(self.attributes@[i], other.attributes@[i])
    }
}

impl Eq for BarHeader {
}

/// One measure: a header and the notes after it.
#[derive(Debug, Clone)]
pub struct Bar {
    pub header: BarHeader,
    pub notes: Vec<Note>,
}

impl Bar {
    /// A bar is empty when it has no notes and its header holds nothing.
    /// A bar without notes whose header holds a clef, a time signature or an
    /// attribute is not empty.
    pub fn is_empty(&self) -> (res: bool)
        ensures
            res == (self.notes@.len() == 0 && self.header.is_default()),
    {
        let nothing: BarHeader = BarHeader::default();
        proof {
            lemma_equals_default(self.header, nothing);
        }
        self.notes.len() == 0 && self.header == nothing
    }

    /// Whether the notes fill the bar as the signature asks. Nothing is
    /// checked yet: every bar passes.
    pub fn check_time_signature(&self, _signature: TimeSignature) -> (res: bool)
        ensures
            res,
    {
        true
    }
}

/// A header equals a header that holds nothing exactly when it holds nothing
/// itself.
pub proof fn lemma_equals_default(header: BarHeader, nothing: BarHeader)
    requires
        nothing.is_default(),
    ensures
        header.eq_spec(&nothing) <==> header.is_default(),
{
    if header.is_default() {
        assert forall|i: int| 0 <= i < 8 implies tone_eq(
            header.attributes@[i],
            nothing.attributes@[i],
        ) by {}
    }
    if header.eq_spec(&nothing) {
        assert forall|i: int| 0 <= i < 8 implies header.attributes@[i] is None by {
            assert(tone_eq(header.attributes@[i], nothing.attributes@[i]));
        }
    }
}

impl Default for Bar {
    /// The empty bar.
    fn default() -> (res: Self)
        ensures
            res.notes@.len() == 0,
            res.header.is_default(),
    {
        Bar { header: BarHeader::default(), notes: Vec::new() }
    }
}

/// One staff: its bars in order.
#[derive(Debug, Clone)]
pub struct SingleLine {
    pub bars: Vec<Bar>,
}

impl Default for SingleLine {
    /// A line of one empty bar.
    fn default() -> (res: Self)
        ensures
            res.bars@.len() == 1,
            res.bars@[0].notes@.len() == 0,
            res.bars@[0].header.is_default(),
    {
        let mut bars: Vec<Bar> = Vec::with_capacity(STARTING_BAR_CAPACITY);
        bars.push(Bar::default());
        Self { bars }
    }
}

impl SingleLine {
    /// A line of one bar without notes, under a bass clef and a 4/4 time
    /// signature.
    pub fn sane_default() -> (res: Self)
        ensures
            res.bars@.len() == 1,
            res.bars@[0].notes@.len() == 0,
            res.bars@[0].header.clef matches Some(Clef::Bass),
            res.bars@[0].header.time_signature matches Some(ts) && ts@ == (4nat, 4nat),
            forall|i: int| 0 <= i < 8 ==> res.bars@[0].header.attributes@[i] is None,
    {
        let mut bars: Vec<Bar> = Vec::with_capacity(STARTING_BAR_CAPACITY);
        let bar = Bar { header: BarHeader::sane_default(), notes: Vec::new() };
        bars.push(bar);
        Self { bars }
    }
}

/// A line is one staff, or two staves played together.
#[derive(Debug, Clone)]
pub enum LineType {
    Single(SingleLine),
    Double(SingleLine, SingleLine),
}

impl From<SingleLine> for LineType {
    fn from(value: SingleLine) -> (res: Self) {
        LineType::Single(value)
    }
}

impl vstd::std_specs::convert::FromSpecImpl<SingleLine> for LineType {
    open spec fn obeys_from_spec() -> bool {
        true
    }

    open spec fn from_spec(value: SingleLine) -> Self {
        LineType::Single(value)
    }
}

impl Default for LineType {
    /// A single staff of one empty bar.
    fn default() -> (res: Self)
        ensures
            res matches LineType::Single(line) && line.bars@.len() == 1
                && line.bars@[0].notes@.len() == 0 && line.bars@[0].header.is_default(),
    {
        LineType::Single(SingleLine::default())
    }
}

/// A line with the name written before it, if it has one.
#[derive(Debug, Clone)]
pub struct SheetLine {
    pub name: Option<String>,
    pub line: LineType,
}

impl SheetLine {
    /// A line without a name.
    pub fn new(inner: LineType) -> (res: Self)
        ensures
            res.name is None,
            res.line == inner,
    {
        Self { name: None, line: inner }
    }

    /// A line with a name.
    pub fn new_named(name: String, inner: LineType) -> (res: Self)
        ensures
            res.name == Some(name),
            res.line == inner,
    {
        Self { name: Some(name), line: inner }
    }
}

impl Default for SheetLine {
    /// A nameless single staff of one empty bar.
    fn default() -> (res: Self)
        ensures
            res.name is None,
            res.line matches LineType::Single(line) && line.bars@.len() == 1
                && line.bars@[0].notes@.len() == 0 && line.bars@[0].header.is_default(),
    {
        Self { name: None, line: LineType::default() }
    }
}

} // verus!
