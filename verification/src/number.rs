//! Decimal rendering and parsing of unsigned integers, as `u64::to_string`
//! and `<u32 as FromStr>::from_str` (radix 10) do them.

use vstd::prelude::*;
use crate::text::{chars_of, string_from_chars};

verus! {

/// The ASCII digit for `d < 10`.
pub open spec fn digit_char(d: nat) -> char {
    ((d + 48) as u32) as char
}

/// Decimal rendering of `n`, without sign or leading zeros.
pub open spec fn decimal_spec(n: nat) -> Seq<char>
    decreases n,
{
    if n < 10 {
        seq![digit_char(n)]
    } else {
        decimal_spec(n / 10).push(digit_char(n % 10))
    }
}

fn digit(d: u64) -> (c: char)
    requires
        d < 10,
    ensures
        c == digit_char(d as nat),
{
    ((d as u8) + 48) as char
}

/// Appends the decimal rendering of `n` to `out`.
pub fn push_decimal(out: &mut Vec<char>, n: u64)
    ensures
        final(out)@ == old(out)@ + decimal_spec(n as nat),
    decreases n,
{
    if n < 10 {
        out.push(digit(n));
        assert(out@ =~= old(out)@ + decimal_spec(n as nat));
    } else {
        push_decimal(out, n / 10);
        out.push(digit(n % 10));
        assert(out@ =~= old(out)@ + decimal_spec(n as nat));
    }
}

/// Decimal rendering of `n` (`n.to_string()`).
pub fn decimal_string(n: u64) -> (s: String)
    ensures
        s@ == decimal_spec(n as nat),
{
    let mut v: Vec<char> = Vec::new();
    push_decimal(&mut v, n);
    assert(v@ =~= decimal_spec(n as nat));
    string_from_chars(&v)
}

/// Whether `c` is one of `0`..`9`.
pub open spec fn is_ascii_digit(c: char) -> bool {
    48 <= (c as u32) <= 57
}

/// The value of the ASCII digit `c`.
pub open spec fn digit_value(c: char) -> nat {
    ((c as u32) - 48) as nat
}

/// Every character of `d` is an ASCII digit.
pub open spec fn all_digits(d: Seq<char>) -> bool {
    forall|i: int| 0 <= i < d.len() ==> is_ascii_digit(#[trigger] d[i])
}

/// The value of a run of decimal digits.
pub open spec fn digits_value(d: Seq<char>) -> nat
    decreases d.len(),
{
    if d.len() == 0 {
        0
    } else {
        digits_value(d.drop_last()) * 10 + digit_value(d.last())
    }
}

/// The digits of an unsigned literal: a single leading `+` is allowed.
pub open spec fn unsigned_digits(s: Seq<char>) -> Seq<char> {
    if s.len() > 0 && s[0] == '+' {
        s.drop_first()
    } else {
        s
    }
}

/// The value that `FromStr` gives an unsigned type for `s`, before the
/// range check: `None` when `s` is not a non-empty run of digits after an
/// optional `+`.
pub open spec fn parse_unsigned_spec(s: Seq<char>) -> Option<nat> {
    let d = unsigned_digits(s);
    if d.len() > 0 && all_digits(d) {
        Some(digits_value(d))
    } else {
        None
    }
}

/// What parsing `s` into an unsigned type whose largest value is `max` gives.
pub open spec fn parse_bounded_spec(s: Seq<char>, max: nat) -> Option<nat> {
    match parse_unsigned_spec(s) {
        Some(v) => if v <= max {
            Some(v)
        } else {
            None
        },
        None => None,
    }
}


proof fn lemma_decimal_shape(n: nat)
    ensures
        decimal_spec(n).len() > 0,
        all_digits(decimal_spec(n)),
        digits_value(decimal_spec(n)) == n,
    decreases n,
{
    let c = digit_char(n % 10);
    assert((c as u32) == n % 10 + 48);
    assert(digit_value(c) == n % 10);
    assert(decimal_spec(n).last() == c);
    if n >= 10 {
        lemma_decimal_shape(n / 10);
        let d = decimal_spec(n / 10);
        assert(decimal_spec(n).drop_last() =~= d);
        assert forall|i: int| 0 <= i < decimal_spec(n).len() implies is_ascii_digit(
            #[trigger] decimal_spec(n)[i],
        ) by {
            if i < d.len() {
                assert(decimal_spec(n)[i] == d[i]);
            }
        }
        assert((n / 10) * 10 + n % 10 == n) by (nonlinear_arith);
        assert(digits_value(decimal_spec(n)) == digits_value(d) * 10 + digit_value(c));
    } else {
        assert(decimal_spec(n).drop_last() =~= Seq::<char>::empty());
        assert(n % 10 == n);
        assert(digits_value(decimal_spec(n)) == digits_value(Seq::<char>::empty()) * 10 + digit_value(c));
    }
}

/// Parsing the decimal rendering of `n` gives `n` back, and the rendering
/// holds no white space to trim.
pub proof fn law_decimal_round_trip(n: nat)
    ensures
        parse_unsigned_spec(decimal_spec(n)) == Some(n),
        crate::text::trim_spec(decimal_spec(n)) == decimal_spec(n),
{
    lemma_decimal_shape(n);
    let d = decimal_spec(n);
    assert(is_ascii_digit(d[0]));
    assert(is_ascii_digit(d.last()));
    crate::text::lemma_trim_fixed(d);
}

fn digit_of(c: char) -> (d: u64)
    requires
        is_ascii_digit(c),
    ensures
        d == digit_value(c),
{
    ((c as u32) - 48) as u64
}

/// Parses `s` as a decimal integer no larger than `max`.
pub fn parse_bounded(s: &str, max: u64) -> (r: Option<u64>)
    ensures
        r == (match parse_bounded_spec(s@, max as nat) {
            Some(v) => Some(v as u64),
            None => None::<u64>,
        }),
{
    let v = chars_of(s);
    let start: usize = if v.len() > 0 && v[0] == '+' {
        1
    } else {
        0
    };
    let ghost d = unsigned_digits(s@);
    assert(d =~= v@.skip(start as int));
    if start >= v.len() {
        return None;
    }
    let mut i: usize = start;
    while i < v.len()
        invariant
            start <= i <= v.len(),
            v@ == s@,
            d =~= v@.skip(start as int),
            d == unsigned_digits(s@),
            forall|k: int| start <= k < i ==> is_ascii_digit(#[trigger] v@[k]),
        decreases v.len() - i,
    {
        let c = v[i];
        if !(48 <= (c as u32) && (c as u32) <= 57) {
            assert(d[i - start] == c);
            assert(!is_ascii_digit(d[i - start]));
            assert(!all_digits(d));
            return None;
        }
        i += 1;
    }
    assert(all_digits(d)) by {
        assert forall|k: int| 0 <= k < d.len() implies is_ascii_digit(#[trigger] d[k]) by {
            assert(d[k] == v@[k + start]);
        }
    }
    let limit: u128 = max as u128 + 1;
    let mut acc: u128 = 0;
    let mut j: usize = start;
    assert(d.take(0) =~= Seq::<char>::empty());
    while j < v.len()
        invariant
            start <= j <= v.len(),
            v@ == s@,
            d =~= v@.skip(start as int),
            d == unsigned_digits(s@),
            all_digits(d),
            limit == max + 1,
            acc as nat == if digits_value(d.take(j - start)) < limit {
                digits_value(d.take(j - start))
            } else {
                limit as nat
            },
        decreases v.len() - j,
    {
        let ghost k: int = j - start;
        assert(d[k] == v@[j as int]);
        let dv = digit_of(v[j]) as u128;
        assert(d.take(k + 1).drop_last() =~= d.take(k));
        assert(d.take(k + 1).last() == d[k]);
        let next = acc * 10 + dv;
        acc = if next < limit {
            next
        } else {
            limit
        };
        j += 1;
    }
    assert(d.take(j - start) =~= d);
    if acc < limit {
        Some(acc as u64)
    } else {
        None
    }
}

} // verus!
