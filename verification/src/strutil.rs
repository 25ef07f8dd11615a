//! Character and string helpers shared by the request and header modules:
//! ASCII lowercasing, whitespace trimming, and exact string comparison,
//! each specified over the `Seq<char>` view of the string.
use vstd::prelude::*;
use vstd::string::{StrSliceExecFns, StringExecFns};

verus! {

/// The decimal digit character for one digit value.
pub open spec fn digit_char(d: int) -> char {
    if d == 0 {
        '0'
    } else if d == 1 {
        '1'
    } else if d == 2 {
        '2'
    } else if d == 3 {
        '3'
    } else if d == 4 {
        '4'
    } else if d == 5 {
        '5'
    } else if d == 6 {
        '6'
    } else if d == 7 {
        '7'
    } else if d == 8 {
        '8'
    } else {
        '9'
    }
}

/// The decimal rendering of a non-negative integer, most significant
/// digit first and without leading zeros.
pub open spec fn spec_decimal(n: int) -> Seq<char>
    decreases n,
{
    if n <= 9 {
        seq![digit_char(n)]
    } else {
        spec_decimal(n / 10).push(digit_char(n % 10))
    }
}

/// The one-character string for one digit value.
fn digit_str(d: u16) -> (r: &'static str)
    requires
        d <= 9,
    ensures
        r@ =~= seq![digit_char(d as int)],
{
    proof {
        reveal_strlit("0");
        reveal_strlit("1");
        reveal_strlit("2");
        reveal_strlit("3");
        reveal_strlit("4");
        reveal_strlit("5");
        reveal_strlit("6");
        reveal_strlit("7");
        reveal_strlit("8");
        reveal_strlit("9");
    }
    match d {
        0 => "0",
        1 => "1",
        2 => "2",
        3 => "3",
        4 => "4",
        5 => "5",
        6 => "6",
        7 => "7",
        8 => "8",
        _ => "9",
    }
}

/// Renders a number in decimal.
pub fn decimal_string(n: u16) -> (r: String)
    ensures
        r@ == spec_decimal(n as int),
    decreases n,
{
    if n <= 9 {
        digit_str(n).to_owned()
    } else {
        let mut s = decimal_string(n / 10);
        s.append(digit_str(n % 10));
        proof {
            assert(s@ =~= spec_decimal(n as int));
        }
        s
    }
}

/// ASCII lowercase of one character; other characters are unchanged.
pub open spec fn lower_char(c: char) -> char {
    match c {
        'A' => 'a',
        'B' => 'b',
        'C' => 'c',
        'D' => 'd',
        'E' => 'e',
        'F' => 'f',
        'G' => 'g',
        'H' => 'h',
        'I' => 'i',
        'J' => 'j',
        'K' => 'k',
        'L' => 'l',
        'M' => 'm',
        'N' => 'n',
        'O' => 'o',
        'P' => 'p',
        'Q' => 'q',
        'R' => 'r',
        'S' => 's',
        'T' => 't',
        'U' => 'u',
        'V' => 'v',
        'W' => 'w',
        'X' => 'x',
        'Y' => 'y',
        'Z' => 'z',
        _ => c,
    }
}

/// ASCII lowercase of a character sequence.
pub open spec fn lower(s: Seq<char>) -> Seq<char> {
    s.map_values(|c: char| lower_char(c))
}

/// The whitespace characters trimmed around cookie pairs: the Unicode
/// white-space characters, as `char::is_whitespace` recognizes them.
pub open spec fn is_space(c: char) -> bool {
    c == ' ' || c == '\t' || c == '\n' || c == '\r' || c == '\u{b}' || c == '\u{c}'
        || c == '\u{85}' || c == '\u{a0}' || c == '\u{1680}' || ('\u{2000}' <= c
        && c <= '\u{200a}') || c == '\u{2028}' || c == '\u{2029}' || c == '\u{202f}'
        || c == '\u{205f}' || c == '\u{3000}'
}

/// Executable ASCII lowercasing of one character.
pub fn to_lower_char(c: char) -> (r: char)
    ensures
        r == lower_char(c),
{
    match c {
        'A' => 'a',
        'B' => 'b',
        'C' => 'c',
        'D' => 'd',
        'E' => 'e',
        'F' => 'f',
        'G' => 'g',
        'H' => 'h',
        'I' => 'i',
        'J' => 'j',
        'K' => 'k',
        'L' => 'l',
        'M' => 'm',
        'N' => 'n',
        'O' => 'o',
        'P' => 'p',
        'Q' => 'q',
        'R' => 'r',
        'S' => 's',
        'T' => 't',
        'U' => 'u',
        'V' => 'v',
        'W' => 'w',
        'X' => 'x',
        'Y' => 'y',
        'Z' => 'z',
        _ => c,
    }
}

/// Executable test for the trimmed whitespace characters.
pub fn is_space_char(c: char) -> (r: bool)
    ensures
        r == is_space(c),
{
    c == ' ' || c == '\t' || c == '\n' || c == '\r' || c == '\u{b}' || c == '\u{c}'
        || c == '\u{85}' || c == '\u{a0}' || c == '\u{1680}' || ('\u{2000}' <= c
        && c <= '\u{200a}') || c == '\u{2028}' || c == '\u{2029}' || c == '\u{202f}'
        || c == '\u{205f}' || c == '\u{3000}'
}

/// Whether `prefix` is a prefix of `s`, decided character by character.
pub fn starts_with(s: &str, prefix: &str) -> (r: bool)
    ensures
        r == (s@.len() >= prefix@.len() && s@.subrange(0, prefix@.len() as int) == prefix@),
{
    let n = s.unicode_len();
    let p = prefix.unicode_len();
    if n < p {
        return false;
    }
    let mut i: usize = 0;
    while i < p
        invariant
            n == s@.len(),
            p == prefix@.len(),
            p <= n,
            i <= p,
            forall|j: int| 0 <= j < i ==> s@[j] == prefix@[j],
        decreases p - i,
    {
        if s.get_char(i) != prefix.get_char(i) {
            proof {
                assert(s@.subrange(0, p as int)[i as int] != prefix@[i as int]);
            }
            return false;
        }
        i = i + 1;
    }
    proof {
        assert(s@.subrange(0, p as int) =~= prefix@);
    }
    true
}

/// Exact string equality, decided character by character.
pub fn str_eq(a: &str, b: &str) -> (r: bool)
    ensures
        r == (a@ == b@),
{
    let na = a.unicode_len();
    let nb = b.unicode_len();
    if na != nb {
        return false;
    }
    let mut i: usize = 0;
    while i < na
        invariant
            na == a@.len(),
            na == b@.len(),
            i <= na,
            forall|j: int| 0 <= j < i ==> a@[j] == b@[j],
        decreases na - i,
    {
        if a.get_char(i) != b.get_char(i) {
            return false;
        }
        i = i + 1;
    }
    proof {
        assert(a@ =~= b@);
    }
    true
}

/// Case-insensitive (ASCII) string equality, decided character by character.
pub fn str_eq_ci(a: &str, b: &str) -> (r: bool)
    ensures
        r == (lower(a@) == lower(b@)),
{
    let na = a.unicode_len();
    let nb = b.unicode_len();
    if na != nb {
        proof {
            assert(lower(a@).len() != lower(b@).len());
        }
        return false;
    }
    let mut i: usize = 0;
    while i < na
        invariant
            na == a@.len(),
            na == b@.len(),
            i <= na,
            forall|j: int| 0 <= j < i ==> lower_char(a@[j]) == lower_char(b@[j]),
        decreases na - i,
    {
        if to_lower_char(a.get_char(i)) != to_lower_char(b.get_char(i)) {
            proof {
                assert(lower(a@)[i as int] != lower(b@)[i as int]);
            }
            return false;
        }
        i = i + 1;
    }
    proof {
        assert(lower(a@) =~= lower(b@));
    }
    true
}

} // verus!
