//! Decimal numbers as a form field holds them.

use vstd::prelude::*;
use crate::text::chars_of;

verus! {

/// Why a text is not a number of the wanted type.
#[derive(Debug, Clone, Copy, PartialEq, Eq, Structural)]
pub enum NumberError {
    /// The text is empty.
    Empty,
    /// A character is no decimal digit, or a sign stands alone.
    InvalidDigit,
    /// The number is above what the type holds.
    TooLarge,
}

/// Whether `c` is one of `0` to `9`.
pub open spec fn is_digit(c: char) -> bool {
    '0' <= c && c <= '9'
}

/// The number that the digit `c` stands for.
pub open spec fn digit_value(c: char) -> int {
    c as int - '0' as int
}

/// Whether `digits` holds decimal digits only.
pub open spec fn all_digits(digits: Seq<char>) -> bool {
    forall|i: int| 0 <= i < digits.len() ==> is_digit(#[trigger] digits[i])
}

/// The number that `digits` writes in base ten; the empty text writes 0.
pub open spec fn decimal_value(digits: Seq<char>) -> int
    decreases digits.len(),
{
    if digits.len() == 0 {
        0
    } else {
        10 * decimal_value(digits.drop_last()) + digit_value(digits.last())
    }
}

/// Reading `digits` from the left with `max` as the largest number: the
/// first character that is no digit, or with which the number read so far
/// goes above `max`, ends the reading with its error.
pub open spec fn read_digits(digits: Seq<char>, max: int) -> Result<int, NumberError>
    decreases digits.len(),
{
    if digits.len() == 0 {
        Ok(0)
    } else {
        match read_digits(digits.drop_last(), max) {
            Err(e) => Err(e),
            Ok(before) => if !is_digit(digits.last()) {
                Err(NumberError::InvalidDigit)
            } else if 10 * before + digit_value(digits.last()) > max {
                Err(NumberError::TooLarge)
            } else {
                Ok(10 * before + digit_value(digits.last()))
            },
        }
    }
}

/// What `text` holds as an unsigned number of at most `max`: decimal
/// digits, with one `+` allowed in front of them.
pub open spec fn unsigned_of(text: Seq<char>, max: int) -> Result<int, NumberError> {
    if text.len() == 0 {
        Err(NumberError::Empty)
    } else if text.len() == 1 && (text[0] == '+' || text[0] == '-') {
        Err(NumberError::InvalidDigit)
    } else if text[0] == '+' {
        read_digits(text.skip(1), max)
    } else {
        read_digits(text, max)
    }
}

/// What `text` holds as an unsigned number of at most `max`, as a machine
/// number.
pub open spec fn bounded_of(text: Seq<char>, max: u64) -> Result<u64, NumberError> {
    match unsigned_of(text, max as int) {
        Ok(v) => Ok(v as u64),
        Err(e) => Err(e),
    }
}

/// What `text` holds as an unsigned 16-bit number.
pub open spec fn u16_of(text: Seq<char>) -> Result<u16, NumberError> {
    match unsigned_of(text, u16::MAX as int) {
        Ok(v) => Ok(v as u16),
        Err(e) => Err(e),
    }
}

/// What `text` holds as an unsigned 32-bit number.
pub open spec fn u32_of(text: Seq<char>) -> Result<u32, NumberError> {
    match unsigned_of(text, u32::MAX as int) {
        Ok(v) => Ok(v as u32),
        Err(e) => Err(e),
    }
}

/// A reading succeeds exactly on digits whose value is at most `max`, and
/// gives that value.
pub proof fn lemma_read_digits_value(digits: Seq<char>, max: int)
    requires
        0 <= max,
    ensures
        read_digits(digits, max) is Ok <==> all_digits(digits) && decimal_value(digits) <= max,
        read_digits(digits, max) matches Ok(v) ==> v == decimal_value(digits),
        all_digits(digits) ==> 0 <= decimal_value(digits),
    decreases digits.len(),
{
    if digits.len() > 0 {
        let front = digits.drop_last();
        lemma_read_digits_value(front, max);
        if all_digits(front) && is_digit(digits.last()) {
            assert forall|i: int| 0 <= i < digits.len() implies is_digit(
                #[trigger] digits[i],
            ) by {
                if i < front.len() {
                    assert(front[i] == digits[i]);
                }
            }
        }
    }
}

/// A number read from a text lies between 0 and `max`.
pub proof fn lemma_unsigned_of_bounds(text: Seq<char>, max: int)
    requires
        0 <= max,
    ensures
        unsigned_of(text, max) matches Ok(v) ==> 0 <= v <= max,
{
    lemma_read_digits_value(text, max);
    lemma_read_digits_value(text.skip(1), max);
}

/// The digits of a text: the text without the `+` that may stand in front.
pub open spec fn digits_of(text: Seq<char>) -> Seq<char> {
    if text.len() > 0 && text[0] == '+' {
        text.skip(1)
    } else {
        text
    }
}

/// A text holds a number exactly where its digits are at least one, are
/// decimal digits only and write a value of at most `max`; the number is
/// that value.
pub proof fn law_number_is_decimal_value(text: Seq<char>, max: int)
    requires
        0 <= max,
    ensures
        unsigned_of(text, max) is Ok <==> digits_of(text).len() > 0 && all_digits(digits_of(text))
            && decimal_value(digits_of(text)) <= max,
        unsigned_of(text, max) matches Ok(v) ==> v == decimal_value(digits_of(text)),
{
    lemma_read_digits_value(text, max);
    lemma_read_digits_value(text.skip(1), max);
}

impl NumberError {
    /// The words that describe the error.
    pub open spec fn words(self) -> Seq<char> {
        match self {
            NumberError::Empty => "cannot parse integer from empty string"@,
            NumberError::InvalidDigit => "invalid digit found in string"@,
            NumberError::TooLarge => "number too large to fit in target type"@,
        }
    }

    /// The words that describe the error.
    pub fn message(self) -> (r: &'static str)
        ensures
            r@ == self.words(),
    {
        match self {
            NumberError::Empty => "cannot parse integer from empty string",
            NumberError::InvalidDigit => "invalid digit found in string",
            NumberError::TooLarge => "number too large to fit in target type",
        }
    }
}

/// Reads `text` as an unsigned decimal number of at most `max`.
fn parse_unsigned(text: &str, max: u64) -> (r: Result<u64, NumberError>)
    requires
        max <= u32::MAX,
    ensures
        r == bounded_of(text@, max),
{
    let chars = chars_of(text);
    let n = chars.len();
    if n == 0 {
        return Err(NumberError::Empty);
    }
    if n == 1 && (chars[0] == '+' || chars[0] == '-') {
        return Err(NumberError::InvalidDigit);
    }
    let start: usize = if chars[0] == '+' {
        1
    } else {
        0
    };
    let ghost digits = text@.skip(start as int);
    assert(text@.skip(0) =~= text@);
    let mut value: u64 = 0;
    let mut i: usize = start;
    while i < n
        invariant
            start <= i <= n,
            n == chars.len(),
            chars@ == text@,
            digits == text@.skip(start as int),
            unsigned_of(text@, max as int) == read_digits(digits, max as int),
            max <= u32::MAX,
            value <= max,
            read_digits(digits.take(i - start), max as int) == Ok::<int, NumberError>(value as int),
        decreases n - i,
    {
        let c = chars[i];
        let ghost upto = digits.take(i - start + 1);
        assert(upto.drop_last() =~= digits.take(i - start));
        proof {
            lemma_read_digits_stops(digits, i - start + 1, max as int);
        }
        if c < '0' || c > '9' {
            return Err(NumberError::InvalidDigit);
        }
        let d: u64 = (c as u32 - '0' as u32) as u64;
        if value * 10 + d > max {
            return Err(NumberError::TooLarge);
        }
        value = value * 10 + d;
        i += 1;
    }
    assert(digits.take(n - start) =~= digits);
    Ok(value)
}

/// A reading that has failed on the first `k` characters fails in the same
/// way on all of them.
proof fn lemma_read_digits_stops(digits: Seq<char>, k: int, max: int)
    requires
        0 <= k <= digits.len(),
    ensures
        read_digits(digits.take(k), max) is Err ==> read_digits(digits, max) == read_digits(
            digits.take(k),
            max,
        ),
    decreases digits.len() - k,
{
    if k < digits.len() {
        lemma_read_digits_stops(digits, k + 1, max);
        assert(digits.take(k + 1).drop_last() =~= digits.take(k));
    } else {
        assert(digits.take(k) =~= digits);
    }
}

/// Reads `text` as an unsigned 16-bit number.
pub fn parse_u16(text: &str) -> (r: Result<u16, NumberError>)
    ensures
        r == u16_of(text@),
{
    proof {
        lemma_unsigned_of_bounds(text@, u16::MAX as int);
    }
    match parse_unsigned(text, u16::MAX as u64) {
        Ok(v) => Ok(v as u16),
        Err(e) => Err(e),
    }
}

/// Reads `text` as an unsigned 32-bit number.
pub fn parse_u32(text: &str) -> (r: Result<u32, NumberError>)
    ensures
        r == u32_of(text@),
{
    proof {
        lemma_unsigned_of_bounds(text@, u32::MAX as int);
    }
    match parse_unsigned(text, u32::MAX as u64) {
        Ok(v) => Ok(v as u32),
        Err(e) => Err(e),
    }
}

} // verus!
