//! The gas limit as it is written on the command line.
//!
//! Digits may be grouped with `_` and `,`, which are taken out first. What
//! is left has to be a decimal number that fits in 64 bits, with `+` allowed
//! in front of it.

use vstd::prelude::*;
use vstd::std_specs::iter::IteratorSpec;
use vstd::string::StringExecFns;
use crate::error::ArgumentError;

verus! {

/// Whether a character only groups digits: `_` and `,` do.
pub open spec fn is_separator(c: char) -> bool {
    c == '_' || c == ','
}

/// A text without its digit separators.
pub open spec fn strip_separators(text: Seq<char>) -> Seq<char>
    decreases text.len(),
{
    if text.len() == 0 {
        text
    } else if is_separator(text.last()) {
        strip_separators(text.drop_last())
    } else {
        strip_separators(text.drop_last()).push(text.last())
    }
}

/// Whether a character is one of `0` to `9`.
pub open spec fn is_digit(c: char) -> bool {
    '0' as u32 <= c as u32 <= '9' as u32
}

/// The number that a digit stands for.
pub open spec fn digit_value(c: char) -> nat {
    (c as u32 - '0' as u32) as nat
}

/// The number that a run of digits stands for.
pub open spec fn decimal_value(digits: Seq<char>) -> nat
    decreases digits.len(),
{
    if digits.len() == 0 {
        0
    } else {
        decimal_value(digits.drop_last()) * 10 + digit_value(digits.last())
    }
}

/// What reading `digits` from the left gives: the first character that is
/// no digit, or the first digit with which the number passes `u64::MAX`,
/// decides the failure.
pub open spec fn parse_digits(digits: Seq<char>) -> Result<u64, ArgumentError>
    decreases digits.len(),
{
    if digits.len() == 0 {
        Ok(0)
    } else {
        match parse_digits(digits.drop_last()) {
            Err(e) => Err(e),
            Ok(value) => if !is_digit(digits.last()) {
                Err(ArgumentError::InvalidDigit)
            } else if value * 10 + digit_value(digits.last()) > u64::MAX {
                Err(ArgumentError::TooLarge)
            } else {
                Ok((value * 10 + digit_value(digits.last())) as u64)
            },
        }
    }
}

/// The digits of a text: all of it but a `+` in front.
pub open spec fn unsigned_part(text: Seq<char>) -> Seq<char> {
    if text.len() > 0 && text[0] == '+' {
        text.drop_first()
    } else {
        text
    }
}

/// What a text without separators parses to.
pub open spec fn parse_decimal(text: Seq<char>) -> Result<u64, ArgumentError> {
    if text.len() == 0 {
        Err(ArgumentError::Empty)
    } else if unsigned_part(text).len() == 0 {
        Err(ArgumentError::InvalidDigit)
    } else {
        parse_digits(unsigned_part(text))
    }
}

/// Digits parse exactly if each of them is a digit and their number fits,
/// and then to that number.
pub proof fn lemma_parse_digits(digits: Seq<char>)
    ensures
        parse_digits(digits) is Ok <==> (forall|i: int|
            0 <= i < digits.len() ==> is_digit(#[trigger] digits[i])) && decimal_value(digits)
            <= u64::MAX,
        parse_digits(digits) matches Ok(value) ==> value == decimal_value(digits),
    decreases digits.len(),
{
    if digits.len() > 0 {
        let earlier = digits.drop_last();
        lemma_parse_digits(earlier);
        if parse_digits(digits) is Ok {
            assert forall|i: int| 0 <= i < digits.len() implies is_digit(#[trigger] digits[i]) by {
                if i < earlier.len() {
                    assert(earlier[i] == digits[i]);
                }
            }
        }
        if (forall|i: int| 0 <= i < digits.len() ==> is_digit(#[trigger] digits[i]))
            && decimal_value(digits) <= u64::MAX {
            assert forall|i: int| 0 <= i < earlier.len() implies is_digit(
                #[trigger] earlier[i],
            ) by {
                assert(earlier[i] == digits[i]);
            }
            assert(is_digit(digits[digits.len() - 1]));
        }
    }
}

/// Parses a gas limit: a decimal number of at most 64 bits whose digits may
/// be grouped with `_` and `,`.
pub fn parse_gas_limit(s: &str) -> (r: Result<u64, ArgumentError>)
    ensures
        r == parse_decimal(strip_separators(s@)),
{
    let mut chars = s.chars();
    let mut any: bool = false;
    let mut signed: bool = false;
    let mut has_digits: bool = false;
    let mut value: u64 = 0;
    let mut failure: Option<ArgumentError> = None;
    let ghost mut read: Seq<char> = Seq::empty();
    loop
        invariant
            read + chars.remaining() == s@,
            chars.decrease() is Some,
            any == (strip_separators(read).len() > 0),
            signed == (strip_separators(read).len() > 0 && strip_separators(read)[0] == '+'),
            has_digits == (unsigned_part(strip_separators(read)).len() > 0),
            match failure {
                Some(e) => parse_digits(unsigned_part(strip_separators(read))) == Err::<
                    u64,
                    ArgumentError,
                >(e),
                None => parse_digits(unsigned_part(strip_separators(read))) == Ok::<
                    u64,
                    ArgumentError,
                >(value),
            },
        ensures
            read == s@,
        decreases chars.decrease()->0,
    {
        match chars.next() {
            Some(c) => {
                let ghost kept = strip_separators(read);
                proof {
                    let before = read;
                    read = read.push(c);
                    assert(read.drop_last() =~= before);
                }
                if c != '_' && c != ',' {
                    proof {
                        let kept_now = strip_separators(read);
                        assert(kept_now == kept.push(c));
                        if kept.len() > 0 {
                            assert(kept_now[0] == kept[0]);
                            assert(unsigned_part(kept_now) =~= unsigned_part(kept).push(c));
                            assert(unsigned_part(kept_now).drop_last() =~= unsigned_part(kept));
                        } else if c == '+' {
                            assert(unsigned_part(kept_now) =~= Seq::<char>::empty());
                        } else {
                            assert(unsigned_part(kept_now) =~= kept.push(c));
                            assert(unsigned_part(kept_now).drop_last() =~= unsigned_part(kept));
                        }
                    }
                    if !any && c == '+' {
                        signed = true;
                    } else {
                        has_digits = true;
                        if failure.is_none() {
                            let code: u32 = c as u32;
                            if code < 48 || code > 57 {
                                failure = Some(ArgumentError::InvalidDigit);
                            } else {
                                let digit: u64 = (code - 48) as u64;
                                if value > (u64::MAX - digit) / 10 {
                                    failure = Some(ArgumentError::TooLarge);
                                } else {
                                    value = value * 10 + digit;
                                }
                            }
                        }
                    }
                    any = true;
                }
            },
            None => {
                assert(read =~= s@);
                break ;
            },
        }
    }
    if !any {
        Err(ArgumentError::Empty)
    } else if !has_digits {
        Err(ArgumentError::InvalidDigit)
    } else {
        match failure {
            Some(e) => Err(e),
            None => Ok(value),
        }
    }
}

impl ArgumentError {
    /// The reason in words.
    pub fn message(&self) -> (text: String)
        ensures
            text@ == match *self {
                ArgumentError::Empty => "cannot parse integer from empty string"@,
                ArgumentError::InvalidDigit => "invalid digit found in string"@,
                ArgumentError::TooLarge => "number too large to fit in target type"@,
            },
    {
        match self {
            ArgumentError::Empty => String::from_str("cannot parse integer from empty string"),
            ArgumentError::InvalidDigit => String::from_str("invalid digit found in string"),
            ArgumentError::TooLarge => String::from_str("number too large to fit in target type"),
        }
    }
}

} // verus!
