//! Numbers read from text.
//!
//! A number is read as the standard library reads it: an optional sign, then
//! decimal digits and nothing else. Reading goes from left to right, and the
//! first character that cannot go on decides: one that is no digit, or the
//! digit with which the number leaves its range.

use crate::utils::text::chars_of;
use vstd::prelude::*;

verus! {

/// Why a text is no number.
#[derive(Clone, Copy, Debug, PartialEq, Eq, Structural)]
pub enum NumberError {
    /// The text is empty.
    Empty,
    /// The text holds a character that is no digit, or no digit at all.
    InvalidDigit,
    /// The number is above the range.
    TooLarge,
    /// The number is below the range.
    TooSmall,
}

impl NumberError {
    /// The words for this error.
    pub open spec fn words(self) -> Seq<char> {
        match self {
            NumberError::Empty => "cannot parse integer from empty string"@,
            NumberError::InvalidDigit => "invalid digit found in string"@,
            NumberError::TooLarge => "number too large to fit in target type"@,
            NumberError::TooSmall => "number too small to fit in target type"@,
        }
    }

    /// The words for this error.
    pub fn message(&self) -> (text: &'static str)
        ensures
            text@ == self.words(),
    {
        match self {
            NumberError::Empty => "cannot parse integer from empty string",
            NumberError::InvalidDigit => "invalid digit found in string",
            NumberError::TooLarge => "number too large to fit in target type",
            NumberError::TooSmall => "number too small to fit in target type",
        }
    }
}

/// Whether a character is a decimal digit.
pub open spec fn is_digit(c: char) -> bool {
    '0' <= c && c <= '9'
}

/// The value of a decimal digit.
pub open spec fn digit_value(c: char) -> nat
    recommends
        is_digit(c),
{
    (c as u32 - '0' as u32) as nat
}

/// The number that `digits` continue after `so_far` was read, as long as it
/// stays at or below `limit`.
pub open spec fn magnitude(digits: Seq<char>, so_far: nat, limit: nat) -> Result<nat, NumberError>
    decreases digits.len(),
{
    if digits.len() == 0 {
        Ok(so_far)
    } else if !is_digit(digits[0]) {
        Err(NumberError::InvalidDigit)
    } else if so_far * 10 + digit_value(digits[0]) > limit {
        Err(NumberError::TooLarge)
    } else {
        magnitude(digits.skip(1), so_far * 10 + digit_value(digits[0]), limit)
    }
}

/// The `u32` that a text spells: digits, with `+` before them or not.
pub open spec fn u32_reading(text: Seq<char>) -> Result<u32, NumberError> {
    if text.len() == 0 {
        Err(NumberError::Empty)
    } else {
        let digits = if text[0] == '+' {
            text.skip(1)
        } else {
            text
        };
        if digits.len() == 0 {
            Err(NumberError::InvalidDigit)
        } else {
            match magnitude(digits, 0, 0xffff_ffff) {
                Ok(n) => Ok(n as u32),
                Err(e) => Err(e),
            }
        }
    }
}

/// The `i32` that a text spells: digits, with `+` or `-` before them or not.
pub open spec fn i32_reading(text: Seq<char>) -> Result<i32, NumberError> {
    if text.len() == 0 {
        Err(NumberError::Empty)
    } else if text[0] == '-' {
        if text.len() == 1 {
            Err(NumberError::InvalidDigit)
        } else {
            match magnitude(text.skip(1), 0, 0x8000_0000) {
                Ok(n) => Ok((-(n as int)) as i32),
                Err(NumberError::TooLarge) => Err(NumberError::TooSmall),
                Err(e) => Err(e),
            }
        }
    } else {
        let digits = if text[0] == '+' {
            text.skip(1)
        } else {
            text
        };
        if digits.len() == 0 {
            Err(NumberError::InvalidDigit)
        } else {
            match magnitude(digits, 0, 0x7fff_ffff) {
                Ok(n) => Ok(n as i32),
                Err(e) => Err(e),
            }
        }
    }
}

/// Reads the digits that `text` holds from position `from` on, up to
/// `limit`.
pub fn read_magnitude(text: &Vec<char>, from: usize, limit: u64) -> (r: Result<u64, NumberError>)
    requires
        from <= text@.len(),
        limit <= 0xffff_ffff,
    ensures
        match r {
            Ok(n) => magnitude(text@.skip(from as int), 0, limit as nat) == Ok::<nat, NumberError>(
                n as nat,
            ) && n <= limit,
            Err(e) => magnitude(text@.skip(from as int), 0, limit as nat) == Err::<
                nat,
                NumberError,
            >(e),
        },
{
    let n = text.len();
    let mut i: usize = from;
    let mut so_far: u64 = 0;
    while i < n
        invariant
            from <= i <= n,
            n == text@.len(),
            so_far <= limit <= 0xffff_ffff,
            magnitude(text@.skip(from as int), 0, limit as nat) == magnitude(
                text@.skip(i as int),
                so_far as nat,
                limit as nat,
            ),
        decreases n - i,
    {
        let c = text[i];
        assert(text@.skip(i as int).skip(1) =~= text@.skip(i + 1));
        if !('0' <= c && c <= '9') {
            return Err(NumberError::InvalidDigit);
        }
        let d: u64 = (c as u32 - '0' as u32) as u64;
        let next: u64 = so_far * 10 + d;
        if next > limit {
            return Err(NumberError::TooLarge);
        }
        so_far = next;
        i = i + 1;
    }
    Ok(so_far)
}

/// Reads a text as a `u32`.
pub fn parse_u32(text: &str) -> (r: Result<u32, NumberError>)
    ensures
        r == u32_reading(text@),
{
    let chars = chars_of(text);
    let n = chars.len();
    if n == 0 {
        return Err(NumberError::Empty);
    }
    let from: usize = if chars[0] == '+' {
        1
    } else {
        0
    };
    if from == n {
        return Err(NumberError::InvalidDigit);
    }
    assert(text@.skip(0) =~= text@);
    match read_magnitude(&chars, from, 0xffff_ffff) {
        Ok(value) => Ok(value as u32),
        Err(e) => Err(e),
    }
}

/// Reads a text as an `i32`.
pub fn parse_i32(text: &str) -> (r: Result<i32, NumberError>)
    ensures
        r == i32_reading(text@),
{
    let chars = chars_of(text);
    let n = chars.len();
    if n == 0 {
        return Err(NumberError::Empty);
    }
    let first = chars[0];
    assert(text@.skip(0) =~= text@);
    if first == '-' {
        if n == 1 {
            return Err(NumberError::InvalidDigit);
        }
        match read_magnitude(&chars, 1, 0x8000_0000) {
            Ok(value) => Ok((0 - (value as i64)) as i32),
            Err(NumberError::TooLarge) => Err(NumberError::TooSmall),
            Err(e) => Err(e),
        }
    } else {
        let from: usize = if first == '+' {
            1
        } else {
            0
        };
        if from == n {
            return Err(NumberError::InvalidDigit);
        }
        match read_magnitude(&chars, from, 0x7fff_ffff) {
            Ok(value) => Ok(value as i32),
            Err(e) => Err(e),
        }
    }
}

} // verus!
