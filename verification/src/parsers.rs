//! The builtin parsers: from the text of a variable to a value.
//!
//! Each takes the name of the variable and its text. A text that is not a
//! value of the type is answered with a
//! [`ResolveError::ConversionFailure`] that names both.

use crate::error::{Cause, ResolveError, ResolveErrorView};
use vstd::prelude::*;

verus! {

/// The truth value that a text spells: `true` and `false` spell one, nothing else does.
pub open spec fn bool_of_text(text: Seq<char>) -> Option<bool> {
    if text == "true"@ {
        Some(true)
    } else if text == "false"@ {
        Some(false)
    } else {
        None
    }
}

/// Is `c` one of the digits `0` to `9`?
pub open spec fn is_digit(c: char) -> bool {
    '0' <= c && c <= '9'
}

/// The number that a run of digits spells in base ten.
pub open spec fn digits_value(digits: Seq<char>) -> int
    decreases digits.len(),
{
    if digits.len() == 0 {
        0
    } else {
        10 * digits_value(digits.drop_last()) + (digits.last() as int - '0' as int)
    }
}

/// Is `digits` one or more digits and nothing else?
pub open spec fn is_number(digits: Seq<char>) -> bool {
    digits.len() > 0 && forall|i: int| 0 <= i < digits.len() ==> is_digit(#[trigger] digits[i])
}

/// The integer that a text spells: an optional `+` or `-`, then one or more
/// digits and nothing else.
pub open spec fn integer_of_text(text: Seq<char>) -> Option<int> {
    if text.len() > 0 && text[0] == '-' {
        if is_number(text.drop_first()) {
            Some(-digits_value(text.drop_first()))
        } else {
            None
        }
    } else if text.len() > 0 && text[0] == '+' {
        if is_number(text.drop_first()) {
            Some(digits_value(text.drop_first()))
        } else {
            None
        }
    } else if is_number(text) {
        Some(digits_value(text))
    } else {
        None
    }
}

/// The `i64` that a text spells: the integer it spells, where that fits.
pub open spec fn i64_of_text(text: Seq<char>) -> Option<i64> {
    match integer_of_text(text) {
        Some(v) => if i64::MIN <= v <= i64::MAX {
            Some(v as i64)
        } else {
            None
        },
        None => None,
    }
}

/// The fault that the standard library finds with a text that spells no `i64`.
pub uninterp spec fn i64_fault(text: Seq<char>) -> Cause;

/// `str::parse::<i64>`: accepts an optional sign followed by decimal digits
/// that spell a number within the range of `i64`, and returns that number.
/// Of the fault it finds with any other text, nothing is stated but that it
/// depends on the text alone.
#[verifier::external_body]
fn parse_i64(text: &str) -> (r: Result<i64, Cause>)
    ensures
        match r {
            Ok(v) => i64_of_text(text@) == Some(v),
            Err(cause) => i64_of_text(text@) is None && cause == i64_fault(text@),
        },
{
    match text.parse::<i64>() {
        Ok(v) => Ok(v),
        Err(e) => Err(
            match e.kind() {
                std::num::IntErrorKind::Empty => Cause::Empty,
                std::num::IntErrorKind::InvalidDigit => Cause::InvalidDigit,
                std::num::IntErrorKind::PosOverflow => Cause::PosOverflow,
                std::num::IntErrorKind::NegOverflow => Cause::NegOverflow,
                _ => Cause::Other,
            },
        ),
    }
}

/// The fault of a text that spells no floating-point number: that it is
/// empty, or else that it is no value of the type.
pub fn float_fault(text: &str) -> (c: Cause)
    ensures
        c == (if text@.len() == 0 {
            Cause::Empty
        } else {
            Cause::Invalid
        }),
{
    if text.is_empty() {
        Cause::Empty
    } else {
        Cause::Invalid
    }
}

/// What a parser answers for the variable `key` with the text `text`, given
/// what the conversion of the text came to: the value, or a
/// [`ResolveError::ConversionFailure`] that names the variable, the text and
/// the fault.
pub fn conversion<T>(key: &str, text: &str, converted: Result<T, Cause>) -> (r: Result<
    T,
    ResolveError,
>)
    ensures
        match converted {
            Ok(v) => r == Ok::<T, ResolveError>(v),
            Err(cause) => r matches Err(e) && e@ == (ResolveErrorView::ConversionFailure {
                key: key@,
                raw_text: text@,
                cause,
            }),
        },
{
    match converted {
        Ok(v) => Ok(v),
        Err(cause) => Err(
            ResolveError::ConversionFailure { key: key.to_owned(), raw_text: text.to_owned(), cause },
        ),
    }
}

/// The parser of `String` flags: the text itself. It never fails.
pub fn str_parser(_key: &str, val: &str) -> (r: Result<String, ResolveError>)
    ensures
        r matches Ok(s) && s@ == val@,
{
    Ok(val.to_owned())
}

/// Are the two texts the same, character for character?
fn same_text(left: &str, right: &str) -> (r: bool)
    ensures
        r == (left@ == right@),
{
    let left = left.to_owned();
    let right = right.to_owned();
    left == right
}

/// The parser of `bool` flags: `true` and `false` are accepted, nothing else.
pub fn bool_parser(key: &str, val: &str) -> (r: Result<bool, ResolveError>)
    ensures
        match r {
            Ok(b) => bool_of_text(val@) == Some(b),
            Err(e) => bool_of_text(val@) is None && e@ == (ResolveErrorView::ConversionFailure {
                key: key@,
                raw_text: val@,
                cause: Cause::Invalid,
            }),
        },
{
    let converted = if same_text(val, "true") {
        Ok(true)
    } else if same_text(val, "false") {
        Ok(false)
    } else {
        Err(Cause::Invalid)
    };
    conversion(key, val, converted)
}

/// The parser of `i64` flags: an optional sign and decimal digits that spell
/// a number within the range of `i64`.
pub fn i64_parser(key: &str, x: &str) -> (r: Result<i64, ResolveError>)
    ensures
        match r {
            Ok(v) => i64_of_text(x@) == Some(v),
            Err(e) => i64_of_text(x@) is None && e@ == (ResolveErrorView::ConversionFailure {
                key: key@,
                raw_text: x@,
                cause: i64_fault(x@),
            }),
        },
{
    conversion(key, x, parse_i64(x))
}

} // verus!
