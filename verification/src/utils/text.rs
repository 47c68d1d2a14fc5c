//! Building strings character by character, with their contents stated as
//! sequences of characters.

use vstd::prelude::*;

verus! {

/// `String::push` of the standard library: the character is appended at the
/// end and nothing else changes.
pub assume_specification[ String::push ](s: &mut String, ch: char)
    ensures
        final(s)@ == old(s)@.push(ch),
;

/// `String::pop` of the standard library: the last character is removed and
/// returned, or `None` is returned and the string stays empty.
pub assume_specification[ String::pop ](s: &mut String) -> (last: Option<char>)
    ensures
        old(s)@.len() == 0 ==> last is None && final(s)@ == old(s)@,
        old(s)@.len() > 0 ==> last == Some(old(s)@.last()) && final(s)@ == old(s)@.drop_last(),
;

/// `String::clear` of the standard library: the string is empty afterwards.
pub assume_specification[ String::clear ](s: &mut String)
    ensures
        final(s)@ == Seq::<char>::empty(),
;

/// Equality of string slices in the standard library: two slices are equal
/// exactly when they hold the same characters.
pub assume_specification[ <str as PartialEq>::eq ](a: &str, b: &str) -> (same: bool)
    ensures
        same == (a@ == b@),
;

/// The character that writes the digit `d`, for `d` below ten.
pub open spec fn digit_char(d: nat) -> char {
    if d == 0 {
        '0'
    } else if d == 1 {
        '1'
    } else if d == 2 {
        '2'
    } else if d == 3 {
        '3'
    } else if d == 4 {
        '4'
    } else if d == 5 {
        '5'
    } else if d == 6 {
        '6'
    } else if d == 7 {
        '7'
    } else if d == 8 {
        '8'
    } else {
        '9'
    }
}

/// The decimal numeral of `n`, without leading zeros.
pub open spec fn decimal(n: nat) -> Seq<char>
    decreases n,
{
    if n < 10 {
        seq![digit_char(n)]
    } else {
        decimal(n / 10).push(digit_char(n % 10))
    }
}

/// The decimal numeral of `n`, with a leading zero where it has one digit.
pub open spec fn decimal_two(n: nat) -> Seq<char> {
    if n < 10 {
        seq!['0'].add(decimal(n))
    } else {
        decimal(n)
    }
}

fn digit(d: u64) -> (ch: char)
    requires
        d < 10,
    ensures
        ch == digit_char(d as nat),
{
    if d == 0 {
        '0'
    } else if d == 1 {
        '1'
    } else if d == 2 {
        '2'
    } else if d == 3 {
        '3'
    } else if d == 4 {
        '4'
    } else if d == 5 {
        '5'
    } else if d == 6 {
        '6'
    } else if d == 7 {
        '7'
    } else if d == 8 {
        '8'
    } else {
        '9'
    }
}

/// Appends the decimal numeral of `n` to `out`.
pub fn push_decimal(out: &mut String, n: u64)
    ensures
        final(out)@ == old(out)@ + decimal(n as nat),
    decreases n,
{
    if n < 10 {
        out.push(digit(n));
    } else {
        push_decimal(out, n / 10);
        out.push(digit(n % 10));
        assert(out@ =~= old(out)@ + decimal(n as nat));
    }
}

/// Appends the decimal numeral of `n` to `out`, with a leading zero where it
/// has one digit.
pub fn push_decimal_two(out: &mut String, n: u64)
    ensures
        final(out)@ == old(out)@ + decimal_two(n as nat),
{
    if n < 10 {
        out.push('0');
    }
    push_decimal(out, n);
}

/// Whether `text` ends with `suffix`.
pub open spec fn ends_with(text: Seq<char>, suffix: Seq<char>) -> bool {
    text.len() >= suffix.len() && text.subrange(text.len() - suffix.len(), text.len() as int)
        == suffix
}

/// `text` without `suffix` at its end, or `text` itself where it does not
/// end with `suffix`.
pub open spec fn without_suffix(text: Seq<char>, suffix: Seq<char>) -> Seq<char> {
    if ends_with(text, suffix) {
        text.subrange(0, text.len() - suffix.len())
    } else {
        text
    }
}

/// Whether `text` ends with `suffix`.
pub fn has_suffix(text: &str, suffix: &str) -> (found: bool)
    ensures
        found == ends_with(text@, suffix@),
{
    let n: usize = text.unicode_len();
    let m: usize = suffix.unicode_len();
    if n < m {
        return false;
    }
    let start: usize = n - m;
    let mut i: usize = 0;
    while i < m
        invariant
            n == text@.len(),
            m == suffix@.len(),
            start == n - m,
            i <= m,
            forall|j: int| 0 <= j < i ==> text@[start + j] == suffix@[j],
        decreases m - i,
    {
        if text.get_char(start + i) != suffix.get_char(i) {
            proof {
                let tail = text@.subrange(text@.len() - suffix@.len(), text@.len() as int);
                assert(tail[i as int] == text@[start + i]);
            }
            return false;
        }
        i += 1;
    }
    assert(text@.subrange(text@.len() - suffix@.len(), text@.len() as int) =~= suffix@);
    true
}

/// A copy of `text` without `suffix` at its end, or of `text` itself where
/// it does not end with `suffix`.
pub fn strip_suffix(text: &str, suffix: &str) -> (stripped: String)
    ensures
        stripped@ == without_suffix(text@, suffix@),
{
    if has_suffix(text, suffix) {
        let n: usize = text.unicode_len();
        let m: usize = suffix.unicode_len();
        String::from_str(text.substring_char(0, n - m))
    } else {
        String::from_str(text)
    }
}

} // verus!
