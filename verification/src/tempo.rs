//! Time signatures and note durations.

use vstd::prelude::*;
use vstd::string::StringExecFns;

use crate::decimal::{decimal, u8_to_string};
use crate::math::{coprime, gcd, lemma_coprime_gcd_one, lemma_gcd_divides, lemma_quotients_coprime, spec_gcd};

verus! {

/// Why a time signature could not be built.
#[derive(Debug, Clone, Copy)]
pub enum TimeSignatureError {
    /// The numerator or the denominator was zero; both are carried as given.
    InvalidRatio(u8, u8),
}

/// A time signature: beats per bar over the beat unit, both strictly
/// positive.
#[derive(Debug, Clone, Copy, PartialEq, Eq, Structural)]
pub struct TimeSignature {
    num: u8,
    den: u8,
}

impl View for TimeSignature {
    type V = (nat, nat);

    /// The pair (numerator, denominator).
    closed spec fn view(&self) -> (nat, nat) {
        (self.num as nat, self.den as nat)
    }
}

impl TimeSignature {
    #[verifier::type_invariant]
    spec fn positive(self) -> bool {
        self.num > 0 && self.den > 0
    }

    /// A pair that a time signature can hold: both parts positive and within
    /// a byte.
    pub open spec fn valid_ratio(ratio: (nat, nat)) -> bool {
        0 < ratio.0 <= u8::MAX && 0 < ratio.1 <= u8::MAX
    }

    /// The ratio in lowest terms.
    pub open spec fn simplified(ratio: (nat, nat)) -> (nat, nat) {
        (ratio.0 / spec_gcd(ratio.0, ratio.1), ratio.1 / spec_gcd(ratio.0, ratio.1))
    }

    /// Builds `num/den`, or reports the ratio when either part is zero.
    pub fn new(num: u8, den: u8) -> (res: Result<Self, TimeSignatureError>)
        ensures
            match res {
                Ok(ts) => num > 0 && den > 0 && ts@ == (num as nat, den as nat),
                Err(TimeSignatureError::InvalidRatio(n, d)) => (num == 0 || den == 0) && n == num
                    && d == den,
            },
    {
        if num == 0 || den == 0 {
            return Err(TimeSignatureError::InvalidRatio(num, den));
        }
        Ok(Self { num, den })
    }

    /// The numerator, never zero.
    pub fn num(&self) -> (n: u8)
        ensures
            n == self@.0,
            n > 0,
    {
        proof {
            use_type_invariant(self);
        }
        self.num
    }

    /// The denominator, never zero.
    pub fn den(&self) -> (d: u8)
        ensures
            d == self@.1,
            d > 0,
    {
        proof {
            use_type_invariant(self);
        }
        self.den
    }

    /// The signature as it is written: numerator, a slash, denominator.
    pub open spec fn text(ratio: (nat, nat)) -> Seq<char> {
        decimal(ratio.0) + seq!['/'] + decimal(ratio.1)
    }

    /// The signature as text.
    pub fn to_string(&self) -> (text: String)
        ensures
            text@ == Self::text(self@),
    {
        proof {
            reveal_strlit("/");
        }
        let mut text: String = u8_to_string(self.num);
        let den: String = u8_to_string(self.den);
        text.append("/");
        text.append(den.as_str());
        assert(text@ =~= Self::text(self@));
        text
    }

    /// Divides both parts by their greatest common divisor.
    ///
    /// The result is in lowest terms and denotes the same ratio.
    pub fn simplify(&self) -> (res: Self)
        ensures
            res@ == Self::simplified(self@),
            coprime(res@.0, res@.1),
            res@.0 * self@.1 == self@.0 * res@.1,
    {
        proof {
            use_type_invariant(self);
            lemma_simplified_valid(self@);
        }
        let g: u8 = gcd(self.num, self.den);
        TimeSignature { num: self.num / g, den: self.den / g }
    }
}

impl Default for TimeSignature {
    /// Common time, 4/4.
    fn default() -> (res: Self)
        ensures
            res@ == (4nat, 4nat),
    {
        Self { num: 4, den: 4 }
    }
}

/// A valid ratio stays valid in lowest terms, its parts become coprime, and
/// it denotes the same fraction as before.
pub proof fn lemma_simplified_valid(ratio: (nat, nat))
    requires
        TimeSignature::valid_ratio(ratio),
    ensures
        TimeSignature::valid_ratio(TimeSignature::simplified(ratio)),
        coprime(TimeSignature::simplified(ratio).0, TimeSignature::simplified(ratio).1),
        TimeSignature::simplified(ratio).0 * ratio.1 == ratio.0 * TimeSignature::simplified(
            ratio,
        ).1,
{
    let (a, b) = ratio;
    let g = spec_gcd(a, b);
    lemma_gcd_divides(a, b);
    lemma_quotients_coprime(a, b);
    vstd::arithmetic::div_mod::lemma_fundamental_div_mod(a as int, g as int);
    vstd::arithmetic::div_mod::lemma_fundamental_div_mod(b as int, g as int);
    let qa = a / g;
    let qb = b / g;
    assert(qa > 0 && qb > 0 && qa <= a && qb <= b && qa * b == a * qb) by (nonlinear_arith)
        requires
            a == g * qa,
            b == g * qb,
            a > 0,
            b > 0,
            g > 0,
    ;
}

/// Simplifying is idempotent: a ratio in lowest terms is left as it is.
pub proof fn lemma_simplify_idempotent(ratio: (nat, nat))
    requires
        TimeSignature::valid_ratio(ratio),
    ensures
        TimeSignature::simplified(TimeSignature::simplified(ratio)) == TimeSignature::simplified(
            ratio,
        ),
{
    lemma_simplified_valid(ratio);
    let s = TimeSignature::simplified(ratio);
    lemma_coprime_gcd_one(s.0, s.1);
}

/// A ratio whose parts are already coprime is its own lowest terms.
pub proof fn lemma_simplify_coprime_unchanged(ratio: (nat, nat))
    requires
        TimeSignature::valid_ratio(ratio),
        coprime(ratio.0, ratio.1),
    ensures
        TimeSignature::simplified(ratio) == ratio,
{
    lemma_coprime_gcd_one(ratio.0, ratio.1);
}

/// Something that carries a time signature.
pub trait TimeSignatureralElement {
    fn get_tempo(&self) -> TimeSignature;
}

/// The length of a note: a unit, and at most one modifier.
#[derive(Debug, Clone, Copy)]
pub struct NoteSize {
    pub unit: NoteSizeUnit,
    pub modifiers: Option<NoteSizeModifiers>,
}

impl Default for NoteSize {
    /// A plain semibreve.
    fn default() -> (res: Self)
        ensures
            res.unit == NoteSizeUnit::SemiBreve,
            res.modifiers is None,
    {
        NoteSize { unit: NoteSizeUnit::SemiBreve, modifiers: None }
    }
}

impl From<NoteSizeUnit> for NoteSize {
    fn from(value: NoteSizeUnit) -> (res: Self) {
        NoteSize { unit: value, modifiers: None }
    }
}

impl vstd::std_specs::convert::FromSpecImpl<NoteSizeUnit> for NoteSize {
    open spec fn obeys_from_spec() -> bool {
        true
    }

    open spec fn from_spec(value: NoteSizeUnit) -> Self {
        NoteSize { unit: value, modifiers: None }
    }
}

/// The twelve note lengths, each half of the one before it.
#[derive(Debug, Clone, Copy, PartialEq, Eq, Structural)]
pub enum NoteSizeUnit {
    /// 8/1
    Large,
    /// 4/1
    Long,
    /// 2/1
    Breve,
    /// 1/1
    SemiBreve,
    /// 1/2
    Minim,
    /// 1/4
    Crotchet,
    /// 1/8
    Quaver,
    /// 1/16
    SemiQuaver,
    /// 1/32
    DemiSemiQuaver,
    /// 1/64
    HemiDemiSemiQuaver,
    /// 1/128
    SemiHemiDemiSemiQuaver,
    /// 1/256
    DemiSemiHemiDemiSemiQuaver,
}

impl NoteSizeUnit {
    /// How often the shortest unit is doubled to give this one: `0` for the
    /// 1/256 note, `8` for the semibreve, `11` for the large.
    pub open spec fn spec_doublings(self) -> nat {
        match self {
            NoteSizeUnit::Large => 11,
            NoteSizeUnit::Long => 10,
            NoteSizeUnit::Breve => 9,
            NoteSizeUnit::SemiBreve => 8,
            NoteSizeUnit::Minim => 7,
            NoteSizeUnit::Crotchet => 6,
            NoteSizeUnit::Quaver => 5,
            NoteSizeUnit::SemiQuaver => 4,
            NoteSizeUnit::DemiSemiQuaver => 3,
            NoteSizeUnit::HemiDemiSemiQuaver => 2,
            NoteSizeUnit::SemiHemiDemiSemiQuaver => 1,
            NoteSizeUnit::DemiSemiHemiDemiSemiQuaver => 0,
        }
    }

    /// How often the shortest unit is doubled to give this one.
    pub fn doublings(self) -> (n: u8)
        ensures
            n == self.spec_doublings(),
    {
        match self {
            NoteSizeUnit::Large => 11,
            NoteSizeUnit::Long => 10,
            NoteSizeUnit::Breve => 9,
            NoteSizeUnit::SemiBreve => 8,
            NoteSizeUnit::Minim => 7,
            NoteSizeUnit::Crotchet => 6,
            NoteSizeUnit::Quaver => 5,
            NoteSizeUnit::SemiQuaver => 4,
            NoteSizeUnit::DemiSemiQuaver => 3,
            NoteSizeUnit::HemiDemiSemiQuaver => 2,
            NoteSizeUnit::SemiHemiDemiSemiQuaver => 1,
            NoteSizeUnit::DemiSemiHemiDemiSemiQuaver => 0,
        }
    }
}

impl Default for NoteSizeUnit {
    /// The semibreve, one whole note.
    fn default() -> (res: Self)
        ensures
            res == NoteSizeUnit::SemiBreve,
    {
        NoteSizeUnit::SemiBreve
    }
}

/// What may be added to a note length.
#[derive(Debug, Clone, Copy)]
pub enum NoteSizeModifiers {
    Dot,
    DoubleDot,
    TripleDot,
    Crown,
}

} // verus!
