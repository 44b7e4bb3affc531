//! Pieces of text that the report is laid out from: padding, repetition,
//! a capital first letter and digits in groups of three, as English writes
//! them.
//!
//! Lengths and widths count characters.

use vstd::prelude::*;
use vstd::string::{StrSliceExecFns, StringExecFns};

verus! {

/// What `char::to_uppercase` gives for a character: one character mostly,
/// up to three for a few.
pub uninterp spec fn uppercase_of(c: char) -> Seq<char>;

/// `count` copies of `unit` in a row.
pub open spec fn repeated(unit: Seq<char>, count: nat) -> Seq<char>
    decreases count,
{
    if count == 0 {
        Seq::empty()
    } else {
        repeated(unit, (count - 1) as nat) + unit
    }
}

/// `text` with blanks behind it up to `width`; unchanged where it is as
/// long or longer.
pub open spec fn padded_end(text: Seq<char>, width: nat) -> Seq<char> {
    if text.len() >= width {
        text
    } else {
        text + repeated(seq![' '], (width - text.len()) as nat)
    }
}

/// `text` with blanks in front of it up to `width`; unchanged where it is
/// as long or longer.
pub open spec fn padded_start(text: Seq<char>, width: nat) -> Seq<char> {
    if text.len() >= width {
        text
    } else {
        repeated(seq![' '], (width - text.len()) as nat) + text
    }
}

/// `text` with `head` in place of its first character.
pub open spec fn with_head(text: Seq<char>, head: Seq<char>) -> Seq<char> {
    if text.len() == 0 {
        text
    } else {
        head + text.subrange(1, text.len() as int)
    }
}

/// The character of a digit below ten.
pub open spec fn digit_char(d: nat) -> char {
    ('0' as u32 + d) as char
}

/// A number below a thousand in three digits.
pub open spec fn three_digits(n: nat) -> Seq<char> {
    seq![digit_char(n / 100), digit_char((n / 10) % 10), digit_char(n % 10)]
}

/// A number in decimal digits.
pub open spec fn decimal(n: nat) -> Seq<char>
    decreases n,
{
    if n < 10 {
        seq![digit_char(n)]
    } else {
        decimal(n / 10).push(digit_char(n % 10))
    }
}

/// A number in decimal digits, a comma before every group of three.
pub open spec fn grouped(n: nat) -> Seq<char>
    decreases n,
{
    if n < 1000 {
        decimal(n)
    } else {
        grouped(n / 1000) + seq![','] + three_digits(n % 1000)
    }
}

/// The length of a repetition.
pub proof fn lemma_repeated_len(unit: Seq<char>, count: nat)
    ensures
        repeated(unit, count).len() == count * unit.len(),
    decreases count,
{
    if count > 0 {
        lemma_repeated_len(unit, (count - 1) as nat);
        assert(count * unit.len() == (count - 1) * unit.len() + unit.len()) by (nonlinear_arith);
    } else {
        assert(0 * unit.len() == 0) by (nonlinear_arith);
    }
}

/// Padding fills up to the width and never cuts.
pub proof fn lemma_padded_len(text: Seq<char>, width: nat)
    ensures
        padded_end(text, width).len() == if text.len() >= width {
            text.len()
        } else {
            width
        },
        padded_start(text, width).len() == padded_end(text, width).len(),
{
    if text.len() < width {
        lemma_repeated_len(seq![' '], (width - text.len()) as nat);
        assert((width - text.len()) * 1 == width - text.len()) by (nonlinear_arith);
    }
}

/// `count` copies of `unit` in a row.
pub fn repeat(unit: &str, count: usize) -> (text: String)
    ensures
        text@ == repeated(unit@, count as nat),
{
    let mut text: String = String::new();
    let mut i: usize = 0;
    while i < count
        invariant
            i <= count,
            text@ == repeated(unit@, i as nat),
        decreases count - i,
    {
        text.append(unit);
        i += 1;
    }
    text
}

/// `text` with blanks behind it up to `width`.
pub fn pad_end(text: &str, width: usize) -> (padded: String)
    ensures
        padded@ == padded_end(text@, width as nat),
{
    let len: usize = text.unicode_len();
    let mut padded: String = String::from_str(text);
    if len < width {
        let blanks: String = repeat(" ", width - len);
        proof {
            reveal_strlit(" ");
            assert(" "@ =~= seq![' ']);
        }
        padded.append(blanks.as_str());
    }
    padded
}

/// `text` with blanks in front of it up to `width`.
pub fn pad_start(text: &str, width: usize) -> (padded: String)
    ensures
        padded@ == padded_start(text@, width as nat),
{
    let len: usize = text.unicode_len();
    if len < width {
        let mut padded: String = repeat(" ", width - len);
        proof {
            reveal_strlit(" ");
            assert(" "@ =~= seq![' ']);
        }
        padded.append(text);
        padded
    } else {
        String::from_str(text)
    }
}

/// `text` with `head` in place of its first character.
pub fn replace_first(text: &str, head: String) -> (replaced: String)
    ensures
        replaced@ == with_head(text@, head@),
{
    let len: usize = text.unicode_len();
    if len == 0 {
        String::new()
    } else {
        let mut replaced: String = head;
        replaced.append(text.substring_char(1, len));
        replaced
    }
}

/// `text` with its first character in upper case.
pub fn capitalize_first(text: &str) -> (capitalized: String)
    ensures
        capitalized@ == if text@.len() == 0 {
            text@
        } else {
            with_head(text@, uppercase_of(text@[0]))
        },
{
    if text.unicode_len() == 0 {
        String::new()
    } else {
        let head: String = char_to_uppercase(text.get_char(0));
        replace_first(text, head)
    }
}

/// The text of a digit below ten.
fn digit_text(d: u64) -> (text: &'static str)
    requires
        d < 10,
    ensures
        text@ == seq![digit_char(d as nat)],
{
    proof {
        reveal_strlit("0");
        reveal_strlit("1");
        reveal_strlit("2");
        reveal_strlit("3");
        reveal_strlit("4");
        reveal_strlit("5");
        reveal_strlit("6");
        reveal_strlit("7");
        reveal_strlit("8");
        reveal_strlit("9");
    }
    let text: &'static str = if d == 0 {
        "0"
    } else if d == 1 {
        "1"
    } else if d == 2 {
        "2"
    } else if d == 3 {
        "3"
    } else if d == 4 {
        "4"
    } else if d == 5 {
        "5"
    } else if d == 6 {
        "6"
    } else if d == 7 {
        "7"
    } else if d == 8 {
        "8"
    } else {
        "9"
    };
    assert(text@ =~= seq![digit_char(d as nat)]);
    text
}

/// A number in decimal digits.
fn decimal_text(n: u64) -> (text: String)
    ensures
        text@ == decimal(n as nat),
    decreases n,
{
    if n < 10 {
        String::from_str(digit_text(n))
    } else {
        let mut text: String = decimal_text(n / 10);
        text.append(digit_text(n % 10));
        assert(text@ =~= decimal(n as nat));
        text
    }
}

/// A number in decimal digits, a comma before every group of three.
pub fn group_thousands(n: u64) -> (text: String)
    ensures
        text@ == grouped(n as nat),
    decreases n,
{
    if n < 1000 {
        decimal_text(n)
    } else {
        let group: u64 = n % 1000;
        let mut text: String = group_thousands(n / 1000);
        proof {
            reveal_strlit(",");
        }
        text.append(",");
        text.append(digit_text(group / 100));
        text.append(digit_text((group / 10) % 10));
        text.append(digit_text(group % 10));
        assert(text@ =~= grouped(n as nat));
        text
    }
}

/// Calls `char::to_uppercase` of std and collects what it yields. Trusted:
/// the result is a function of the character alone.
#[verifier::external_body]
fn char_to_uppercase(c: char) -> (upper: String)
    ensures
        upper@ == uppercase_of(c),
{
    c.to_uppercase().collect()
}

} // verus!
