//! Small operations on text that the harness needs: prefixes, suffixes, and
//! decimal numerals.

use vstd::prelude::*;

verus! {

/// Whether `text` begins with `prefix`.
pub open spec fn starts_with(text: Seq<char>, prefix: Seq<char>) -> bool {
    prefix.len() <= text.len() && text.subrange(0, prefix.len() as int) == prefix
}

/// Whether `text` ends with `suffix`.
pub open spec fn ends_with(text: Seq<char>, suffix: Seq<char>) -> bool {
    suffix.len() <= text.len() && text.subrange(text.len() - suffix.len(), text.len() as int)
        == suffix
}

/// `text` without every leading repetition of `prefix`.
pub open spec fn without_leading(text: Seq<char>, prefix: Seq<char>) -> Seq<char>
    decreases text.len(),
{
    if prefix.len() > 0 && starts_with(text, prefix) {
        without_leading(text.skip(prefix.len() as int), prefix)
    } else {
        text
    }
}

/// Whether `text`, from position `at` on, reads `pattern`.
pub open spec fn reads_at(text: Seq<char>, at: int, pattern: Seq<char>) -> bool {
    0 <= at && at + pattern.len() <= text.len() && text.subrange(at, at + pattern.len())
        == pattern
}

/// Tests whether `pattern` stands in `text` at character position `at`.
fn matches_at(text: &str, length: usize, at: usize, pattern: &str, width: usize) -> (b: bool)
    requires
        length == text@.len(),
        width == pattern@.len(),
    ensures
        b == reads_at(text@, at as int, pattern@),
{
    if width > length || at > length - width {
        return false;
    }
    let mut i: usize = 0;
    while i < width
        invariant
            length == text@.len(),
            width == pattern@.len(),
            at + width <= length,
            i <= width,
            forall|j: int| 0 <= j < i ==> text@[at + j] == pattern@[j],
        decreases width - i,
    {
        if text.get_char(at + i) != pattern.get_char(i) {
            assert(text@.subrange(at as int, at + width)[i as int] != pattern@[i as int]);
            return false;
        }
        i += 1;
    }
    assert(text@.subrange(at as int, at + width) =~= pattern@);
    true
}

/// Tests whether `text` begins with `prefix`.
pub fn has_prefix(text: &str, prefix: &str) -> (b: bool)
    ensures
        b == starts_with(text@, prefix@),
{
    matches_at(text, text.unicode_len(), 0, prefix, prefix.unicode_len())
}

/// Tests whether `text` ends with `suffix`.
pub fn has_suffix(text: &str, suffix: &str) -> (b: bool)
    ensures
        b == ends_with(text@, suffix@),
{
    let length = text.unicode_len();
    let width = suffix.unicode_len();
    if width > length {
        false
    } else {
        matches_at(text, length, length - width, suffix, width)
    }
}

/// Removes every leading repetition of `prefix` from `text`.
pub fn strip_leading(text: &str, prefix: &str) -> (rest: String)
    ensures
        rest@ == without_leading(text@, prefix@),
{
    let length = text.unicode_len();
    let width = prefix.unicode_len();
    let mut at: usize = 0;
    if width > 0 {
        assert(text@.skip(0) =~= text@);
        while matches_at(text, length, at, prefix, width)
            invariant
                length == text@.len(),
                width == prefix@.len(),
                width > 0,
                at <= length,
                without_leading(text@, prefix@) == without_leading(
                    text@.skip(at as int),
                    prefix@,
                ),
            decreases length - at,
        {
            proof {
                let tail = text@.skip(at as int);
                assert(tail.subrange(0, width as int) =~= text@.subrange(
                    at as int,
                    at + width,
                ));
                assert(tail.skip(width as int) =~= text@.skip(at + width));
            }
            at += width;
        }
        proof {
            let tail = text@.skip(at as int);
            if starts_with(tail, prefix@) {
                assert(tail.subrange(0, width as int) =~= text@.subrange(
                    at as int,
                    at + width,
                ));
            }
        }
    } else {
        assert(text@.skip(0) =~= text@);
    }
    let rest = text.substring_char(at, length);
    assert(rest@ =~= text@.skip(at as int));
    String::from_str(rest)
}

/// The character that writes the digit `d`.
pub open spec fn digit(d: nat) -> char
    recommends
        d < 10,
{
    if d == 0 {
        '0'
    } else if d == 1 {
        '1'
    } else if d == 2 {
        '2'
    } else if d == 3 {
        '3'
    } else if d == 4 {
        '4'
    } else if d == 5 {
        '5'
    } else if d == 6 {
        '6'
    } else if d == 7 {
        '7'
    } else if d == 8 {
        '8'
    } else {
        '9'
    }
}

/// `n` written in decimal, without leading zeros.
pub open spec fn decimal(n: nat) -> Seq<char>
    decreases n,
{
    if n < 10 {
        seq![digit(n)]
    } else {
        decimal(n / 10).push(digit(n % 10))
    }
}

fn digit_text(d: u64) -> (text: &'static str)
    requires
        d < 10,
    ensures
        text@ == seq![digit(d as nat)],
{
    proof {
        reveal_strlit("0");
        reveal_strlit("1");
        reveal_strlit("2");
        reveal_strlit("3");
        reveal_strlit("4");
        reveal_strlit("5");
        reveal_strlit("6");
        reveal_strlit("7");
        reveal_strlit("8");
        reveal_strlit("9");
    }
    let text = if d == 0 {
        "0"
    } else if d == 1 {
        "1"
    } else if d == 2 {
        "2"
    } else if d == 3 {
        "3"
    } else if d == 4 {
        "4"
    } else if d == 5 {
        "5"
    } else if d == 6 {
        "6"
    } else if d == 7 {
        "7"
    } else if d == 8 {
        "8"
    } else {
        "9"
    };
    assert(text@ =~= seq![digit(d as nat)]);
    text
}

/// Writes `n` in decimal.
pub fn to_decimal(n: u64) -> (text: String)
    ensures
        text@ == decimal(n as nat),
    decreases n,
{
    if n < 10 {
        String::from_str(digit_text(n))
    } else {
        let mut text = to_decimal(n / 10);
        text.append(digit_text(n % 10));
        assert(text@ =~= decimal(n as nat));
        text
    }
}

} // verus!
