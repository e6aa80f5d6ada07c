//! Decimal numbers in text: the forms that an option value may take.

use vstd::prelude::*;
use vstd::string::*;
use crate::text::all_digits;

verus! {

/// The number that a run of decimal digits denotes; 0 for the empty run.
pub open spec fn digits_value(s: Seq<char>) -> nat
    decreases s.len(),
{
    if s.len() == 0 {
        0
    } else {
        digits_value(s.drop_last()) * 10 + ((s.last() as u32 - '0' as u32) as nat)
    }
}

/// A non-empty run of digits whose value is at most `max` denotes that value;
/// any other text denotes nothing.
pub open spec fn decimal_of(s: Seq<char>, max: u64) -> Option<u64> {
    if s.len() > 0 && all_digits(s) && digits_value(s) <= max {
        Some(digits_value(s) as u64)
    } else {
        None
    }
}

/// An unsigned 64-bit number in text: an optional `+`, then digits.
pub open spec fn u64_of(s: Seq<char>) -> Option<u64> {
    if s.len() > 0 && s[0] == '+' {
        decimal_of(s.skip(1), u64::MAX)
    } else {
        decimal_of(s, u64::MAX)
    }
}

/// A signed 32-bit number in text: an optional `+` or `-`, then digits.
pub open spec fn i32_of(s: Seq<char>) -> Option<i32> {
    if s.len() > 0 && s[0] == '-' {
        match decimal_of(s.skip(1), 2147483648) {
            Some(v) => Some((0 - v) as i32),
            None => None,
        }
    } else if s.len() > 0 && s[0] == '+' {
        match decimal_of(s.skip(1), 2147483647) {
            Some(v) => Some(v as i32),
            None => None,
        }
    } else {
        match decimal_of(s, 2147483647) {
            Some(v) => Some(v as i32),
            None => None,
        }
    }
}

/// A process identifier in text: digits only, within 32 bits.
pub open spec fn pid_of(s: Seq<char>) -> Option<u32> {
    match decimal_of(s, 4294967295) {
        Some(v) => Some(v as u32),
        None => None,
    }
}

/// A longer run of digits never denotes less than its beginning.
pub proof fn lemma_digits_value_grows(s: Seq<char>, k: int)
    requires
        0 <= k <= s.len(),
    ensures
        digits_value(s.take(k)) <= digits_value(s),
    decreases s.len() - k,
{
    if k == s.len() {
        assert(s.take(k) =~= s);
    } else {
        lemma_digits_value_grows(s, k + 1);
        assert(s.take(k + 1).drop_last() =~= s.take(k));
    }
}

/// Reads the digits of `s` from position `from` on as a number of at most `max`.
fn parse_digits(s: &str, from: usize, max: u64) -> (r: Option<u64>)
    requires
        from <= s@.len(),
    ensures
        r == decimal_of(s@.skip(from as int), max),
{
    let n: usize = s.unicode_len();
    let ghost d = s@.skip(from as int);
    if from == n {
        return None;
    }
    let mut acc: u64 = 0;
    let mut i: usize = from;
    while i < n
        invariant
            n == s@.len(),
            from <= i <= n,
            d == s@.skip(from as int),
            all_digits(d.take(i - from)),
            acc == digits_value(d.take(i - from)),
            acc <= max,
        decreases n - i,
    {
        let c: char = s.get_char(i);
        assert(d[i - from] == c);
        if !('0' <= c && c <= '9') {
            return None;
        }
        let digit: u64 = (c as u32 - '0' as u32) as u64;
        proof {
            assert(d.take(i - from + 1).drop_last() =~= d.take(i - from));
            assert(d.take(i - from + 1).last() == c);
            lemma_digits_value_grows(d, i - from + 1);
            assert forall|j: int| 0 <= j < i - from + 1 implies '0' <= #[trigger] d.take(
                i - from + 1,
            )[j] <= '9' by {
                if j < i - from {
                    assert(d.take(i - from)[j] == d[j]);
                }
            }
        }
        if digit > max || acc > (max - digit) / 10 {
            assert(digits_value(d.take(i - from + 1)) > max);
            return None;
        }
        acc = acc * 10 + digit;
        i += 1;
    }
    assert(d.take(i - from) =~= d);
    Some(acc)
}

/// Reads a non-empty run of digits as a number of at most `max`.
pub fn parse_decimal(s: &str, max: u64) -> (r: Option<u64>)
    ensures
        r == decimal_of(s@, max),
{
    assert(s@.skip(0) =~= s@);
    parse_digits(s, 0, max)
}

/// Reads an unsigned 64-bit number: an optional `+`, then digits.
pub fn parse_u64(s: &str) -> (r: Option<u64>)
    ensures
        r == u64_of(s@),
{
    let n: usize = s.unicode_len();
    if n > 0 && s.get_char(0) == '+' {
        parse_digits(s, 1, u64::MAX)
    } else {
        assert(s@.skip(0) =~= s@);
        parse_digits(s, 0, u64::MAX)
    }
}

/// Reads a signed 32-bit number: an optional `+` or `-`, then digits.
pub fn parse_i32(s: &str) -> (r: Option<i32>)
    ensures
        r == i32_of(s@),
{
    let n: usize = s.unicode_len();
    if n > 0 && s.get_char(0) == '-' {
        match parse_digits(s, 1, 2147483648) {
            Some(v) => {
                let w: i64 = 0 - (v as i64);
                Some(w as i32)
            },
            None => None,
        }
    } else if n > 0 && s.get_char(0) == '+' {
        match parse_digits(s, 1, 2147483647) {
            Some(v) => Some(v as i32),
            None => None,
        }
    } else {
        assert(s@.skip(0) =~= s@);
        match parse_digits(s, 0, 2147483647) {
            Some(v) => Some(v as i32),
            None => None,
        }
    }
}

/// Reads a process identifier: digits only, within 32 bits.
pub fn parse_pid(s: &str) -> (r: Option<u32>)
    ensures
        r == pid_of(s@),
{
    match parse_decimal(s, 4294967295) {
        Some(v) => Some(v as u32),
        None => None,
    }
}

} // verus!
