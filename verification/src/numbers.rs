//! Natural numbers in decimal notation.

use crate::text::chars_of;
use vstd::prelude::*;

verus! {

/// The character of a decimal digit.
pub open spec fn digit_char(d: nat) -> char {
    if d == 0 {
        '0'
    } else if d == 1 {
        '1'
    } else if d == 2 {
        '2'
    } else if d == 3 {
        '3'
    } else if d == 4 {
        '4'
    } else if d == 5 {
        '5'
    } else if d == 6 {
        '6'
    } else if d == 7 {
        '7'
    } else if d == 8 {
        '8'
    } else {
        '9'
    }
}

/// `n` in decimal notation, without leading zeros.
pub open spec fn decimal(n: nat) -> Seq<char>
    decreases n,
{
    if n < 10 {
        seq![digit_char(n)]
    } else {
        decimal(n / 10).push(digit_char(n % 10))
    }
}

pub(crate) fn digit_of(d: u64) -> (c: char)
    requires
        d < 10,
    ensures
        c == digit_char(d as nat),
{
    if d == 0 {
        '0'
    } else if d == 1 {
        '1'
    } else if d == 2 {
        '2'
    } else if d == 3 {
        '3'
    } else if d == 4 {
        '4'
    } else if d == 5 {
        '5'
    } else if d == 6 {
        '6'
    } else if d == 7 {
        '7'
    } else if d == 8 {
        '8'
    } else {
        '9'
    }
}

/// Writes `n` in decimal notation.
pub fn decimal_text(n: u64) -> (r: String)
    ensures
        r@ == decimal(n as nat),
    decreases n,
{
    if n < 10 {
        let mut r = String::new();
        r.push(digit_of(n));
        assert(r@ =~= seq![digit_char(n as nat)]);
        r
    } else {
        let mut r = decimal_text(n / 10);
        r.push(digit_of(n % 10));
        r
    }
}

/// Whether `c` is one of the digits `0` to `9`.
pub open spec fn is_digit(c: char) -> bool {
    0x30 <= c as u32 <= 0x39
}

/// The value of a digit; `0` for any other character.
pub open spec fn digit_value(c: char) -> nat {
    if is_digit(c) {
        (c as u32 - 0x30) as nat
    } else {
        0
    }
}

/// Whether `s` holds digits only.
pub open spec fn all_digits(s: Seq<char>) -> bool {
    forall|i: int| 0 <= i < s.len() ==> is_digit(#[trigger] s[i])
}

/// The number that the digits of `s` write; `0` for the empty text.
pub open spec fn digits_value(s: Seq<char>) -> nat
    decreases s.len(),
{
    if s.len() == 0 {
        0
    } else {
        digits_value(s.drop_last()) * 10 + digit_value(s.last())
    }
}

/// `s` without the plus sign that may stand in front of a number.
pub open spec fn unsigned_part(s: Seq<char>) -> Seq<char> {
    if s.len() > 0 && s[0] == '+' {
        s.drop_first()
    } else {
        s
    }
}

/// The number that `s` writes, where `s` is an optional plus sign followed
/// by at least one digit and nothing else, and the number is at most `max`.
pub open spec fn parse_number(s: Seq<char>, max: nat) -> Option<nat> {
    let body = unsigned_part(s);
    if body.len() > 0 && all_digits(body) && digits_value(body) <= max {
        Some(digits_value(body))
    } else {
        None
    }
}

/// A longer text of digits writes no smaller number than its beginning.
pub proof fn lemma_digits_value_grows(s: Seq<char>, k: int)
    requires
        0 <= k <= s.len(),
    ensures
        digits_value(s.take(k)) <= digits_value(s),
    decreases s.len(),
{
    if k == s.len() {
        assert(s.take(k) =~= s);
    } else {
        lemma_digits_value_grows(s.drop_last(), k);
        assert(s.drop_last().take(k) =~= s.take(k));
        assert(digits_value(s.drop_last()) <= digits_value(s.drop_last()) * 10) by (nonlinear_arith);
    }
}

/// The decimal notation of a number is read back as that number.
pub proof fn lemma_decimal_is_read_back(n: nat, max: nat)
    requires
        n <= max,
    ensures
        parse_number(decimal(n), max) == Some(n),
{
    lemma_decimal_digits(n);
    let s = decimal(n);
    assert(is_digit(s[0]));
    assert(unsigned_part(s) == s);
}

/// The decimal notation of a number is made of digits and writes the number.
pub proof fn lemma_decimal_digits(n: nat)
    ensures
        decimal(n).len() > 0,
        all_digits(decimal(n)),
        digits_value(decimal(n)) == n,
    decreases n,
{
    let s = decimal(n);
    if n < 10 {
        assert(s.drop_last() =~= Seq::<char>::empty());
        assert(digits_value(s.drop_last()) == 0);
        assert(s.last() == digit_char(n));
        assert(is_digit(s[0]));
    } else {
        lemma_decimal_digits(n / 10);
        let init = decimal(n / 10);
        assert(s.drop_last() =~= init);
        assert(s.last() == digit_char(n % 10));
        assert forall|i: int| 0 <= i < s.len() implies is_digit(#[trigger] s[i]) by {
            if i < init.len() {
                assert(s[i] == init[i]);
            }
        }
    }
}

/// Reads a number of at most `max` from its decimal notation.
pub fn parse_decimal(s: &str, max: u64) -> (r: Option<u64>)
    ensures
        match r {
            Some(n) => parse_number(s@, max as nat) == Some(n as nat),
            None => parse_number(s@, max as nat) is None,
        },
{
    let v = chars_of(s);
    let start: usize = if v.len() > 0 && v[0] == '+' {
        1
    } else {
        0
    };
    let ghost body = unsigned_part(s@);
    assert(body =~= v@.skip(start as int));
    if start == v.len() {
        return None;
    }
    let mut acc: u64 = 0;
    let mut i: usize = start;
    assert(body.take(0) =~= Seq::<char>::empty());
    while i < v.len()
        invariant
            start <= i <= v.len(),
            start < v.len(),
            body == unsigned_part(s@),
            body == v@.skip(start as int),
            acc <= max,
            acc == digits_value(body.take(i - start)),
            all_digits(body.take(i - start)),
        decreases v.len() - i,
    {
        let c = v[i];
        let code: u32 = c as u32;
        let ghost k = i - start;
        assert(body[k] == c);
        if code < 0x30 || code > 0x39 {
            assert(!is_digit(body[k]));
            return None;
        }
        let d: u64 = (code - 0x30) as u64;
        let next: u128 = acc as u128 * 10 + d as u128;
        proof {
            assert(body.take(k + 1).drop_last() =~= body.take(k));
            assert(body.take(k + 1).last() == c);
            assert(digits_value(body.take(k + 1)) == next);
            assert forall|j: int| 0 <= j < k + 1 implies is_digit(
                #[trigger] body.take(k + 1)[j],
            ) by {
                if j < k {
                    assert(body.take(k)[j] == body[j]);
                }
            }
        }
        if next > max as u128 {
            proof {
                lemma_digits_value_grows(body, k + 1);
            }
            return None;
        }
        acc = next as u64;
        i = i + 1;
    }
    assert(body.take(i - start) =~= body);
    Some(acc)
}

} // verus!
