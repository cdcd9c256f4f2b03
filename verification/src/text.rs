//! Small verified text helpers: decimal digit rendering for the date and
//! time fields, and the embedded-terminator scan that guards every string
//! handed to the native broker interface.

use vstd::prelude::*;
use vstd::string::StrSliceExecFns;
use vstd::string::StringExecFns;

verus! {

/// The character of one decimal digit.
pub open spec fn digit_char(d: int) -> char
    recommends
        0 <= d < 10,
{
    if d == 0 {
        '0'
    } else if d == 1 {
        '1'
    } else if d == 2 {
        '2'
    } else if d == 3 {
        '3'
    } else if d == 4 {
        '4'
    } else if d == 5 {
        '5'
    } else if d == 6 {
        '6'
    } else if d == 7 {
        '7'
    } else if d == 8 {
        '8'
    } else {
        '9'
    }
}

/// One decimal digit as a string slice.
pub fn digit_str(d: u8) -> (r: &'static str)
    requires
        d < 10,
    ensures
        r@ =~= seq![digit_char(d as int)],
{
    proof {
        reveal_strlit("0");
        reveal_strlit("1");
        reveal_strlit("2");
        reveal_strlit("3");
        reveal_strlit("4");
        reveal_strlit("5");
        reveal_strlit("6");
        reveal_strlit("7");
        reveal_strlit("8");
        reveal_strlit("9");
    }
    match d {
        0 => "0",
        1 => "1",
        2 => "2",
        3 => "3",
        4 => "4",
        5 => "5",
        6 => "6",
        7 => "7",
        8 => "8",
        _ => "9",
    }
}

/// A value rendered as exactly two decimal digits, zero-padded.
pub open spec fn two_digits(v: int) -> Seq<char>
    recommends
        0 <= v < 100,
{
    seq![digit_char(v / 10), digit_char(v % 10)]
}

/// A value rendered as exactly four decimal digits, zero-padded.
pub open spec fn four_digits(v: int) -> Seq<char>
    recommends
        0 <= v < 10000,
{
    seq![
        digit_char(v / 1000),
        digit_char(v / 100 % 10),
        digit_char(v / 10 % 10),
        digit_char(v % 10),
    ]
}

/// Append a two-digit zero-padded value.
pub fn push_two_digits(out: &mut String, v: u8)
    requires
        v < 100,
    ensures
        final(out)@ == old(out)@ + two_digits(v as int),
{
    out.append(digit_str(v / 10));
    out.append(digit_str(v % 10));
    proof {
        assert(final(out)@ =~= old(out)@ + two_digits(v as int));
    }
}

/// Append a four-digit zero-padded value.
pub fn push_four_digits(out: &mut String, v: u16)
    requires
        v < 10000,
    ensures
        final(out)@ == old(out)@ + four_digits(v as int),
{
    out.append(digit_str((v / 1000) as u8));
    out.append(digit_str((v / 100 % 10) as u8));
    out.append(digit_str((v / 10 % 10) as u8));
    out.append(digit_str((v % 10) as u8));
    proof {
        assert(final(out)@ =~= old(out)@ + four_digits(v as int));
    }
}

/// Whether a character sequence holds an embedded terminator: the character
/// whose code is zero, which a terminator-delimited native string cannot
/// carry.
pub open spec fn has_nul(s: Seq<char>) -> bool {
    exists|i: int| 0 <= i < s.len() && s[i] == '\u{0}'
}

/// Scan a string for an embedded terminator character.
pub fn contains_nul(s: &str) -> (r: bool)
    ensures
        r == has_nul(s@),
{
    let n = s.unicode_len();
    let mut i: usize = 0;
    while i < n
        invariant
            n == s@.len(),
            i <= n,
            forall|j: int| 0 <= j < i ==> s@[j] != '\u{0}',
        decreases n - i,
    {
        if s.get_char(i) == '\u{0}' {
            return true;
        }
        i = i + 1;
    }
    false
}

} // verus!
