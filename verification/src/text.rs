//! Small helpers for building query text.

use vstd::prelude::*;
use vstd::string::StringExecFns;

verus! {

/// The decimal digit `d` (0 to 9) as text.
pub open spec fn digit(d: int) -> Seq<char> {
    if d == 0 {
        "0"@
    } else if d == 1 {
        "1"@
    } else if d == 2 {
        "2"@
    } else if d == 3 {
        "3"@
    } else if d == 4 {
        "4"@
    } else if d == 5 {
        "5"@
    } else if d == 6 {
        "6"@
    } else if d == 7 {
        "7"@
    } else if d == 8 {
        "8"@
    } else {
        "9"@
    }
}

/// The decimal notation of a natural number, most significant digit first and
/// without leading zeros.
pub open spec fn decimal(n: int) -> Seq<char>
    decreases n,
{
    if n < 10 {
        digit(n)
    } else {
        decimal(n / 10) + digit(n % 10)
    }
}

/// Whether two string slices hold the same text.
pub(crate) fn str_eq(a: &str, b: &str) -> (equal: bool)
    ensures
        equal == (a@ == b@),
{
    let left: String = a.to_owned();
    let right: String = b.to_owned();
    left == right
}

fn digit_str(d: i64) -> (s: &'static str)
    requires
        0 <= d <= 9,
    ensures
        s@ == digit(d as int),
{
    if d == 0 {
        "0"
    } else if d == 1 {
        "1"
    } else if d == 2 {
        "2"
    } else if d == 3 {
        "3"
    } else if d == 4 {
        "4"
    } else if d == 5 {
        "5"
    } else if d == 6 {
        "6"
    } else if d == 7 {
        "7"
    } else if d == 8 {
        "8"
    } else {
        "9"
    }
}

/// Appends the decimal notation of `n` to `out`.
pub fn push_decimal(out: &mut String, n: i64)
    requires
        n >= 0,
    ensures
        final(out)@ == old(out)@ + decimal(n as int),
    decreases n,
{
    if n < 10 {
        out.append(digit_str(n));
    } else {
        push_decimal(out, n / 10);
        out.append(digit_str(n % 10));
        assert(old(out)@ + decimal(n as int / 10) + digit(n as int % 10) =~= old(out)@ + (decimal(
            n as int / 10,
        ) + digit(n as int % 10)));
    }
}

/// The value of a decimal digit, and nothing for any other character.
pub open spec fn digit_value(c: char) -> Option<int> {
    if '0' <= c && c <= '9' {
        Some(c as int - '0' as int)
    } else {
        None
    }
}

/// The number that a text of decimal digits denotes, and nothing for a text
/// that holds anything else. The empty text denotes 0.
pub open spec fn digits_value(digits: Seq<char>) -> Option<int>
    decreases digits.len(),
{
    if digits.len() == 0 {
        Some(0)
    } else {
        match (digits_value(digits.drop_last()), digit_value(digits.last())) {
            (Some(high), Some(low)) => Some(high * 10 + low),
            _ => None,
        }
    }
}

/// The number that `text` denotes: decimal digits, at least one, with or
/// without a plus sign before them, for a number of at most `max`.
pub open spec fn parsed_number(text: Seq<char>, max: int) -> Option<int> {
    let digits = if text.len() > 0 && text[0] == '+' {
        text.skip(1)
    } else {
        text
    };
    if digits.len() == 0 {
        None
    } else {
        match digits_value(digits) {
            Some(value) => if value <= max {
                Some(value)
            } else {
                None
            },
            None => None,
        }
    }
}

/// Reads a number of at most `max` from its decimal notation.
pub fn parse_number(text: &str, max: u32) -> (number: Option<u32>)
    ensures
        number matches Some(n) ==> parsed_number(text@, max as int) == Some(n as int),
        number is None ==> parsed_number(text@, max as int) is None,
{
    let count: usize = text.unicode_len();
    let start: usize = if count > 0 && text.get_char(0) == '+' {
        1
    } else {
        0
    };
    if start == count {
        return None;
    }
    let ghost digits = text@.skip(start as int);
    let mut value: u64 = 0;
    let mut over: bool = false;
    let mut at: usize = start;
    while at < count
        invariant
            start <= at <= count,
            count == text@.len(),
            start == if text@.len() > 0 && text@[0] == '+' {
                1int
            } else {
                0int
            },
            digits == text@.skip(start as int),
            digits_value(digits.take(at - start)) matches Some(seen) && (over <==> seen > max) && (
            !over ==> value == seen),
        decreases count - at,
    {
        let c: char = text.get_char(at);
        let ghost before = digits.take(at - start);
        let ghost now = digits.take(at - start + 1);
        assert(now.drop_last() =~= before);
        assert(now.last() == c);
        if c < '0' || c > '9' {
            proof {
                assert(text@.skip(0) =~= text@);
                lemma_bad_digit_spoils(digits, at - start);
            }
            return None;
        }
        let low: u64 = (c as u32 - '0' as u32) as u64;
        if !over {
            value = value * 10 + low;
            if value > max as u64 {
                over = true;
            }
        }
        at = at + 1;
    }
    assert(digits.take(count - start) =~= digits);
    assert(text@.skip(0) =~= text@);
    if over {
        None
    } else {
        Some(value as u32)
    }
}

/// A text with a character that is no digit denotes no number.
proof fn lemma_bad_digit_spoils(digits: Seq<char>, at: int)
    requires
        0 <= at < digits.len(),
        digit_value(digits[at]) is None,
    ensures
        digits_value(digits) is None,
    decreases digits.len(),
{
    if at < digits.len() - 1 {
        lemma_bad_digit_spoils(digits.drop_last(), at);
    }
}

} // verus!
