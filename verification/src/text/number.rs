//! Unsigned numbers in decimal notation.

use vstd::prelude::*;
use crate::text::chars::{is_ascii_digit, string_push, to_chars};

verus! {

/// The character of a decimal digit.
pub open spec fn digit_char(d: int) -> char {
    (('0' as u8) + d) as char
}

/// The decimal notation of `n`, without leading zeros.
pub open spec fn decimal_digits(n: nat) -> Seq<char>
    decreases n,
{
    if n < 10 {
        seq![digit_char(n as int)]
    } else {
        decimal_digits(n / 10).push(digit_char((n % 10) as int))
    }
}

/// The value of a decimal digit.
pub open spec fn digit_value(c: char) -> int {
    (c as u8) - ('0' as u8)
}

/// Every character of `s` is a decimal digit.
pub open spec fn all_digits(s: Seq<char>) -> bool {
    forall|i: int| 0 <= i < s.len() ==> is_ascii_digit(#[trigger] s[i])
}

/// The number that the digits of `s` denote; leading zeros count for nothing.
pub open spec fn digits_value(s: Seq<char>) -> nat
    decreases s.len(),
{
    if s.len() == 0 {
        0
    } else {
        (digits_value(s.drop_last()) * 10 + digit_value(s.last())) as nat
    }
}

/// The digits of a number in text: all of it but for one plus sign in front.
pub open spec fn number_body(s: Seq<char>) -> Seq<char> {
    if s.len() > 0 && s[0] == '+' {
        s.skip(1)
    } else {
        s
    }
}

/// The number that `s` denotes: an optional plus sign, then one decimal digit
/// or more, of a value that fits in 64 bits.
pub open spec fn parsed_u64(s: Seq<char>) -> Option<u64> {
    let body = number_body(s);
    if body.len() > 0 && all_digits(body) && digits_value(body) <= u64::MAX {
        Some(digits_value(body) as u64)
    } else {
        None
    }
}

/// A longer run of digits denotes no less than any of its prefixes.
pub proof fn lemma_digits_value_prefix(s: Seq<char>, k: int)
    requires
        0 <= k <= s.len(),
        all_digits(s),
    ensures
        digits_value(s.take(k)) <= digits_value(s),
    decreases s.len() - k,
{
    if k == s.len() {
        assert(s.take(k) =~= s);
    } else {
        lemma_digits_value_prefix(s, k + 1);
        assert(s.take(k + 1).drop_last() =~= s.take(k));
        assert(is_ascii_digit(s[k]));
        assert(s.take(k + 1).last() == s[k]);
    }
}

/// Appends the decimal notation of `n` to `out`.
pub fn push_decimal(out: &mut String, n: u64)
    ensures
        final(out)@ == old(out)@ + decimal_digits(n as nat),
    decreases n,
{
    if n >= 10 {
        push_decimal(out, n / 10);
    }
    let d: u8 = (n % 10) as u8;
    string_push(out, (('0' as u8) + d) as char);
    assert(final(out)@ =~= old(out)@ + decimal_digits(n as nat));
}

/// The decimal notation of `n`.
pub fn decimal(n: u64) -> (r: String)
    ensures
        r@ == decimal_digits(n as nat),
{
    let mut out = String::new();
    push_decimal(&mut out, n);
    assert(Seq::<char>::empty() + decimal_digits(n as nat) =~= decimal_digits(n as nat));
    out
}

/// The number that `s` denotes in decimal notation, if it denotes one that
/// fits in 64 bits.
pub fn parse_u64(s: &str) -> (r: Option<u64>)
    ensures
        r == parsed_u64(s@),
{
    let cs = to_chars(s);
    let start: usize = if cs.len() > 0 && cs[0] == '+' {
        1
    } else {
        0
    };
    let ghost body = number_body(s@);
    assert(body =~= cs@.subrange(start as int, cs@.len() as int));
    if start >= cs.len() {
        return None;
    }
    let mut value: u64 = 0;
    let mut i: usize = start;
    while i < cs.len()
        invariant
            cs@ == s@,
            body == number_body(s@),
            body == cs@.subrange(start as int, cs@.len() as int),
            start <= i <= cs.len(),
            all_digits(body.take(i - start)),
            value == digits_value(body.take(i - start)),
        decreases cs.len() - i,
    {
        let c = cs[i];
        let ghost k = i - start;
        assert(body[k] == c);
        if !('0' <= c && c <= '9') {
            assert(!is_ascii_digit(body[k]));
            return None;
        }
        let d: u64 = ((c as u8) - ('0' as u8)) as u64;
        proof {
            assert(body.take(k + 1).drop_last() =~= body.take(k));
            assert(body.take(k + 1).last() == c);
            assert forall|j: int| 0 <= j < k + 1 implies is_ascii_digit(
                #[trigger] body.take(k + 1)[j],
            ) by {
                if j < k {
                    assert(body.take(k)[j] == body.take(k + 1)[j]);
                }
            }
        }
        if value > (u64::MAX - d) / 10 {
            proof {
                assert(digits_value(body.take(k + 1)) == value * 10 + d);
                assert(digits_value(body.take(k + 1)) > u64::MAX);
                if all_digits(body) {
                    lemma_digits_value_prefix(body, k + 1);
                }
            }
            return None;
        }
        value = value * 10 + d;
        i = i + 1;
    }
    assert(body.take(i - start) =~= body);
    Some(value)
}

} // verus!
