//! Decimal notation of natural numbers, as text.

use std::num::ParseIntError;
use std::str::FromStr;

use vstd::prelude::*;
use vstd::string::StringExecFns;

verus! {

/// The character that writes a digit.
pub open spec fn digit_char(d: nat) -> char
    recommends
        d < 10,
{
    if d == 0 {
        '0'
    } else if d == 1 {
        '1'
    } else if d == 2 {
        '2'
    } else if d == 3 {
        '3'
    } else if d == 4 {
        '4'
    } else if d == 5 {
        '5'
    } else if d == 6 {
        '6'
    } else if d == 7 {
        '7'
    } else if d == 8 {
        '8'
    } else {
        '9'
    }
}

/// A number in decimal notation, without sign and without leading zeros.
pub open spec fn decimal(n: nat) -> Seq<char>
    decreases n,
{
    if n < 10 {
        seq![digit_char(n)]
    } else {
        decimal(n / 10).push(digit_char(n % 10))
    }
}

/// One of the characters `0` to `9`.
pub open spec fn is_digit(c: char) -> bool {
    '0' <= c <= '9'
}

/// The number that a sequence of digits writes in decimal notation; `0` for
/// the empty sequence.
pub open spec fn digits_value(digits: Seq<char>) -> nat
    decreases digits.len(),
{
    if digits.len() == 0 {
        0
    } else {
        digits_value(digits.drop_last()) * 10 + (digits.last() as nat - '0' as nat) as nat
    }
}

/// Whether every character of a text is a digit.
pub open spec fn all_digits(digits: Seq<char>) -> bool {
    forall|i: int| 0 <= i < digits.len() ==> is_digit(#[trigger] digits[i])
}

/// The byte that a text writes: an optional `+`, then one digit or more and
/// nothing else, with a value of at most 255. Any other text writes none.
pub open spec fn parsed_u8(text: Seq<char>) -> Option<u8> {
    let digits = if text.len() > 0 && text[0] == '+' {
        text.drop_first()
    } else {
        text
    };
    if digits.len() > 0 && all_digits(digits) && digits_value(digits) <= u8::MAX {
        Some(digits_value(digits) as u8)
    } else {
        None
    }
}

/// The error of an integer parse of the standard library.
#[verifier::external_type_specification]
#[verifier::external_body]
pub struct ExParseIntError(ParseIntError);

/// `ParseIntError::clone`, which the derived `Clone` of an error that
/// carries one calls. Nothing is claimed of the copy.
pub assume_specification[ <ParseIntError as Clone>::clone ](e: &ParseIntError) -> ParseIntError;

/// What `u8::from_str` gives for a text: the byte, or why there is none.
pub uninterp spec fn u8_from_str(text: Seq<char>) -> Result<u8, ParseIntError>;

/// `u8::from_str`: the text is read as a decimal number, an optional `+`
/// followed by digits only. It fails on an empty text, on a sign alone, on
/// any other character, and on a value above 255.
#[verifier::external_body]
pub(crate) fn parse_u8(text: &str) -> (res: Result<u8, ParseIntError>)
    ensures
        res == u8_from_str(text@),
        match res {
            Ok(value) => parsed_u8(text@) == Some(value),
            Err(_) => parsed_u8(text@) is None,
        },
{
    u8::from_str(text)
}

/// A number written in decimal notation is read back as itself: what is
/// written is one digit or more, digits only, and their value is the number.
pub proof fn lemma_decimal_reads_back(n: nat)
    ensures
        decimal(n).len() >= 1,
        all_digits(decimal(n)),
        digits_value(decimal(n)) == n,
    decreases n,
{
    let written = decimal(n);
    if n < 10 {
        assert(written.drop_last() =~= Seq::<char>::empty());
        assert(digits_value(written.drop_last()) == 0);
    } else {
        lemma_decimal_reads_back(n / 10);
        assert(written.drop_last() =~= decimal(n / 10));
        assert(written.last() == digit_char(n % 10));
    }
}

/// Digits write less than the power of ten of their count: one digit less
/// than 10, two digits less than 100.
pub proof fn lemma_two_digits_bound(digits: Seq<char>)
    requires
        all_digits(digits),
        digits.len() <= 2,
    ensures
        digits_value(digits) <= 99,
{
    reveal_with_fuel(digits_value, 3);
    if digits.len() == 2 {
        assert(is_digit(digits[0]) && is_digit(digits[1]));
        assert(digits.drop_last().len() == 1);
        assert(digits.drop_last().last() == digits[0]);
        assert(digits.drop_last().drop_last().len() == 0);
    } else if digits.len() == 1 {
        assert(is_digit(digits[0]));
        assert(digits.drop_last().len() == 0);
    }
}

/// A byte written in decimal notation takes one to three characters and is
/// read back as that byte.
pub proof fn lemma_byte_reads_back(n: u8)
    ensures
        1 <= decimal(n as nat).len() <= 3,
        parsed_u8(decimal(n as nat)) == Some(n),
{
    lemma_decimal_reads_back(n as nat);
    reveal_with_fuel(decimal, 3);
    assert(decimal(n as nat)[0] != '+');
}

/// The text of one digit.
pub fn digit_text(d: u8) -> (text: &'static str)
    requires
        d < 10,
    ensures
        text@ == seq![digit_char(d as nat)],
{
    proof {
        reveal_strlit("0");
        reveal_strlit("1");
        reveal_strlit("2");
        reveal_strlit("3");
        reveal_strlit("4");
        reveal_strlit("5");
        reveal_strlit("6");
        reveal_strlit("7");
        reveal_strlit("8");
        reveal_strlit("9");
    }
    let text: &'static str = match d {
        0 => "0",
        1 => "1",
        2 => "2",
        3 => "3",
        4 => "4",
        5 => "5",
        6 => "6",
        7 => "7",
        8 => "8",
        _ => "9",
    };
    assert(text@ =~= seq![digit_char(d as nat)]);
    text
}

/// Writes a byte in decimal notation.
pub fn u8_to_string(n: u8) -> (text: String)
    ensures
        text@ == decimal(n as nat),
{
    let mut text: String = String::new();
    if n >= 100 {
        text.append(digit_text(n / 100));
    }
    if n >= 10 {
        text.append(digit_text((n / 10) % 10));
    }
    text.append(digit_text(n % 10));
    proof {
        reveal_with_fuel(decimal, 3);
        assert(text@ =~= decimal(n as nat));
    }
    text
}

} // verus!
