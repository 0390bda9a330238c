//! Reading a guess out of the text field: trimming and decimal parsing.

use vstd::prelude::*;

verus! {

/// Unicode's `White_Space` property: the characters that `char::is_whitespace` accepts.
pub open spec fn is_white_space(c: char) -> bool {
    let n = c as u32;
    ||| 0x9 <= n <= 0xd
    ||| n == 0x20
    ||| n == 0x85
    ||| n == 0xa0
    ||| n == 0x1680
    ||| 0x2000 <= n <= 0x200a
    ||| n == 0x2028
    ||| n == 0x2029
    ||| n == 0x202f
    ||| n == 0x205f
    ||| n == 0x3000
}

/// How many white-space characters open `s`.
pub open spec fn leading_white(s: Seq<char>) -> nat
    decreases s.len(),
{
    if s.len() > 0 && is_white_space(s[0]) {
        1 + leading_white(s.drop_first())
    } else {
        0
    }
}

/// How many white-space characters close `s`.
pub open spec fn trailing_white(s: Seq<char>) -> nat
    decreases s.len(),
{
    if s.len() > 0 && is_white_space(s.last()) {
        1 + trailing_white(s.drop_last())
    } else {
        0
    }
}

/// `s` without its leading and trailing white space.
pub open spec fn trimmed(s: Seq<char>) -> Seq<char> {
    let front = s.skip(leading_white(s) as int);
    front.take(front.len() - trailing_white(front))
}

pub open spec fn is_ascii_digit(c: char) -> bool {
    '0' <= c <= '9'
}

/// The number that a string of decimal digits writes, most significant first.
pub open spec fn decimal_value(digits: Seq<char>) -> nat
    decreases digits.len(),
{
    if digits.len() == 0 {
        0
    } else {
        decimal_value(digits.drop_last()) * 10 + ((digits.last() as u32) - ('0' as u32)) as nat
    }
}

/// The digits of an unsigned number's text: an optional leading `+` is dropped.
pub open spec fn unsigned_digits(s: Seq<char>) -> Seq<char> {
    if s.len() > 0 && s[0] == '+' {
        s.drop_first()
    } else {
        s
    }
}

/// The `u32` that `s` writes in decimal: an optional `+`, then one or more ASCII
/// digits, and a value that fits; `None` for any other text.
pub open spec fn parsed_u32(s: Seq<char>) -> Option<u32> {
    let d = unsigned_digits(s);
    if d.len() > 0 && (forall|i: int| 0 <= i < d.len() ==> is_ascii_digit(#[trigger] d[i]))
        && decimal_value(d) <= u32::MAX {
        Some(decimal_value(d) as u32)
    } else {
        None
    }
}

/// The characters that `leading_white` counts are white space.
pub proof fn lemma_leading_white(s: Seq<char>)
    ensures
        leading_white(s) <= s.len(),
        forall|i: int| 0 <= i < leading_white(s) ==> is_white_space(#[trigger] s[i]),
    decreases s.len(),
{
    if s.len() > 0 && is_white_space(s[0]) {
        lemma_leading_white(s.drop_first());
        assert forall|i: int| 0 <= i < leading_white(s) implies is_white_space(#[trigger] s[i]) by {
            if i > 0 {
                assert(s[i] == s.drop_first()[i - 1]);
            }
        }
    }
}

/// The characters that `trailing_white` counts are white space.
pub proof fn lemma_trailing_white(s: Seq<char>)
    ensures
        trailing_white(s) <= s.len(),
        forall|i: int| s.len() - trailing_white(s) <= i < s.len() ==> is_white_space(#[trigger] s[i]),
    decreases s.len(),
{
    if s.len() > 0 && is_white_space(s.last()) {
        lemma_trailing_white(s.drop_last());
        assert forall|i: int| s.len() - trailing_white(s) <= i < s.len() implies is_white_space(
            #[trigger] s[i],
        ) by {
            if i < s.len() - 1 {
                assert(s[i] == s.drop_last()[i]);
            }
        }
    }
}

/// Text that holds a character other than a digit, `+` or white space is no
/// number: reading it gives `None`.
pub proof fn lemma_non_numeric_is_rejected(s: Seq<char>, k: int)
    requires
        0 <= k < s.len(),
        !is_ascii_digit(s[k]),
        s[k] != '+',
        !is_white_space(s[k]),
    ensures
        parsed_u32(trimmed(s)) is None,
{
    lemma_leading_white(s);
    let lw = leading_white(s) as int;
    let front = s.skip(lw);
    lemma_trailing_white(front);
    let t = trimmed(s);
    assert(k >= lw);
    assert(front[k - lw] == s[k]);
    assert(k - lw < front.len() - trailing_white(front));
    assert(t[k - lw] == s[k]);
    let d = unsigned_digits(t);
    if t.len() > 0 && t[0] == '+' {
        assert(k - lw > 0);
        assert(d[k - lw - 1] == s[k]);
        assert(!is_ascii_digit(d[k - lw - 1]));
    } else {
        assert(!is_ascii_digit(d[k - lw]));
    }
}

/// Relies on `str::trim`: the slice without leading and trailing `White_Space`.
#[verifier::external_body]
pub(crate) fn trim<'a>(s: &'a str) -> (r: &'a str)
    ensures
        r@ == trimmed(s@),
{
    s.trim()
}

/// Relies on `<u32 as FromStr>::from_str`: an optional `+`, then decimal digits
/// whose value fits in a `u32`; every other text is an error.
#[verifier::external_body]
pub(crate) fn parse_u32(s: &str) -> (r: Option<u32>)
    ensures
        r == parsed_u32(s@),
{
    s.parse::<u32>().ok()
}

/// The guess that a line of input holds, read as the game reads it: white space
/// around the number is ignored.
pub fn read_guess(line: &str) -> (r: Option<u32>)
    ensures
        r == parsed_u32(trimmed(line@)),
{
    parse_u32(trim(line))
}

} // verus!
