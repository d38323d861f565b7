//! Decimal integers: reading them from characters and writing them back.

use crate::text::{rows, slice_of};
use vstd::prelude::*;

verus! {

/// Whether `c` is one of the ten ASCII digits.
pub open spec fn is_digit(c: char) -> bool {
    '0' <= c && c <= '9'
}

/// The value of an ASCII digit.
pub open spec fn digit_value(c: char) -> int {
    c as int - '0' as int
}

/// Whether every character of `s` is an ASCII digit.
pub open spec fn all_digits(s: Seq<char>) -> bool {
    forall|i: int| 0 <= i < s.len() ==> is_digit(#[trigger] s[i])
}

/// The number that a string of digits denotes in base ten (0 for none).
pub open spec fn number_of(digits: Seq<char>) -> int
    decreases digits.len(),
{
    if digits.len() == 0 {
        0
    } else {
        10 * number_of(digits.drop_last()) + digit_value(digits.last())
    }
}

/// What follows an optional leading sign.
pub open spec fn unsigned_part(s: Seq<char>) -> Seq<char> {
    if s.len() > 0 && (s[0] == '-' || s[0] == '+') {
        s.skip(1)
    } else {
        s
    }
}

/// The integer that `s` denotes when it is read as a whole: an optional `+`
/// or `-`, then one or more ASCII digits, nothing else, and a value that fits
/// in 64 bits with sign. Anything else denotes no integer.
pub open spec fn parsed_int(s: Seq<char>) -> Option<i64> {
    let body = unsigned_part(s);
    let value = if s.len() > 0 && s[0] == '-' {
        -number_of(body)
    } else {
        number_of(body)
    };
    if body.len() > 0 && all_digits(body) && i64::MIN <= value <= i64::MAX {
        Some(value as i64)
    } else {
        None
    }
}

/// A longer string of digits denotes at least as much as any of its prefixes.
proof fn lemma_number_grows(s: Seq<char>, k: int)
    requires
        all_digits(s),
        0 <= k <= s.len(),
    ensures
        0 <= number_of(s.take(k)) <= number_of(s),
    decreases s.len() - k,
{
    lemma_number_nonnegative(s.take(k));
    if k < s.len() {
        lemma_number_grows(s, k + 1);
        assert(s.take(k + 1).drop_last() =~= s.take(k));
        assert(is_digit(s[k]));
        assert(s.take(k + 1).last() == s[k]);
    } else {
        assert(s.take(k) =~= s);
    }
}

proof fn lemma_number_nonnegative(s: Seq<char>)
    requires
        all_digits(s),
    ensures
        0 <= number_of(s),
    decreases s.len(),
{
    if s.len() > 0 {
        assert(is_digit(s.last()));
        lemma_number_nonnegative(s.drop_last());
    }
}

/// Reads `s` as a signed 64-bit integer in base ten.
pub fn parse_int(s: &Vec<char>) -> (out: Option<i64>)
    ensures
        out == parsed_int(s@),
{
    let negative = s.len() > 0 && s[0] == '-';
    let first: usize = if s.len() > 0 && (s[0] == '-' || s[0] == '+') {
        1
    } else {
        0
    };
    if first == s.len() {
        return None;
    }
    let ghost body = unsigned_part(s@);
    assert(body =~= s@.skip(first as int));
    let mut acc: i128 = 0;
    let mut i: usize = first;
    while i < s.len()
        invariant
            first <= i <= s.len(),
            body == s@.skip(first as int),
            body == unsigned_part(s@),
            all_digits(body.take(i - first)),
            acc == number_of(body.take(i - first)),
            0 <= acc <= 0x8000_0000_0000_0000,
        decreases s.len() - i,
    {
        let c = s[i];
        if !('0' <= c && c <= '9') {
            assert(!is_digit(body[i - first]));
            return None;
        }
        let d: i128 = (c as u32 - '0' as u32) as i128;
        proof {
            let next = body.take(i - first + 1);
            assert(next.drop_last() =~= body.take(i - first));
            assert(next.last() == c);
            assert forall|j: int| 0 <= j < next.len() implies is_digit(#[trigger] next[j]) by {
                if j < next.len() - 1 {
                    assert(body.take(i - first)[j] == next[j]);
                }
            }
        }
        acc = acc * 10 + d;
        i += 1;
        if acc > 0x8000_0000_0000_0000 {
            proof {
                if all_digits(body) {
                    lemma_number_grows(body, i - first);
                }
            }
            return None;
        }
    }
    assert(body.take(i - first) =~= body);
    if negative {
        Some((-acc) as i64)
    } else if acc <= 0x7fff_ffff_ffff_ffff {
        Some(acc as i64)
    } else {
        None
    }
}

/// The maximal stretches of `s[start..]` between characters that are not
/// ASCII digits, given that `start..i` holds digits only. Empty stretches are
/// kept, so there is always one more stretch than there are such characters.
pub open spec fn runs_from(s: Seq<char>, start: int, i: int) -> Seq<Seq<char>>
    decreases s.len() - i,
{
    if i >= s.len() {
        seq![s.subrange(start, s.len() as int)]
    } else if !is_digit(s[i]) {
        seq![s.subrange(start, i)] + runs_from(s, i + 1, i + 1)
    } else {
        runs_from(s, start, i + 1)
    }
}

/// The stretches of `s` between its characters that are not ASCII digits.
pub open spec fn digit_runs(s: Seq<char>) -> Seq<Seq<char>> {
    runs_from(s, 0, 0)
}

/// The integers that the tokens denote, in order; a token that denotes none
/// is passed over.
pub open spec fn parsed_all(tokens: Seq<Seq<char>>) -> Seq<i64>
    decreases tokens.len(),
{
    if tokens.len() == 0 {
        Seq::empty()
    } else {
        match parsed_int(tokens[0]) {
            Some(n) => seq![n] + parsed_all(tokens.drop_first()),
            None => parsed_all(tokens.drop_first()),
        }
    }
}

/// Cuts `s` at every character that is not an ASCII digit.
pub fn split_digit_runs(s: &Vec<char>) -> (out: Vec<Vec<char>>)
    ensures
        rows(out@) == digit_runs(s@),
{
    let mut out: Vec<Vec<char>> = Vec::new();
    let mut start: usize = 0;
    let mut i: usize = 0;
    while i < s.len()
        invariant
            start <= i <= s.len(),
            rows(out@) + runs_from(s@, start as int, i as int) == digit_runs(s@),
        decreases s.len() - i,
    {
        let c = s[i];
        if !('0' <= c && c <= '9') {
            let piece = slice_of(s, start, i);
            proof {
                let tail = runs_from(s@, i + 1, i + 1);
                assert(rows(out@.push(piece)) =~= rows(out@) + seq![piece@]);
                assert((rows(out@) + seq![piece@]) + tail =~= rows(out@) + (seq![piece@] + tail));
            }
            out.push(piece);
            start = i + 1;
        }
        i += 1;
    }
    let piece = slice_of(s, start, s.len());
    proof {
        assert(rows(out@.push(piece)) =~= rows(out@) + seq![piece@]);
    }
    out.push(piece);
    out
}

/// The character of a digit value below ten.
pub open spec fn digit_char(d: int) -> char {
    (d + '0' as int) as char
}

/// A natural number in base ten, without leading zeros.
pub open spec fn decimal_nat(n: nat) -> Seq<char>
    decreases n,
{
    if n < 10 {
        seq![digit_char(n as int)]
    } else {
        decimal_nat(n / 10).push(digit_char((n % 10) as int))
    }
}

/// An integer in base ten: a minus sign for a negative one, then its
/// magnitude without leading zeros.
pub open spec fn decimal(n: int) -> Seq<char> {
    if n < 0 {
        seq!['-'] + decimal_nat((-n) as nat)
    } else {
        decimal_nat(n as nat)
    }
}

/// Appends `n` in base ten.
pub fn push_decimal_nat(out: &mut String, n: u64)
    ensures
        final(out)@ == old(out)@ + decimal_nat(n as nat),
    decreases n,
{
    if n >= 10 {
        push_decimal_nat(out, n / 10);
    }
    let d: u8 = (n % 10) as u8;
    let c: char = (d + 48u8) as char;
    assert(c == digit_char((n % 10) as int));
    out.push(c);
    assert(out@ =~= old(out)@ + decimal_nat(n as nat));
}

/// Appends `n` in base ten, with a minus sign if it is negative.
pub fn push_decimal(out: &mut String, n: i64)
    ensures
        final(out)@ == old(out)@ + decimal(n as int),
{
    if n < 0 {
        out.push('-');
        let magnitude: u64 = if n == i64::MIN {
            0x8000_0000_0000_0000u64
        } else {
            (-n) as u64
        };
        push_decimal_nat(out, magnitude);
        assert(out@ =~= old(out)@ + decimal(n as int));
    } else {
        push_decimal_nat(out, n as u64);
    }
}

} // verus!
