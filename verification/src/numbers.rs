//! Decimal integers read from text, as `str::parse` reads them.
use vstd::prelude::*;
use crate::text::{chars_of, digit_char, int_decimal, nat_decimal};

verus! {

pub open spec fn is_digit(c: char) -> bool {
    '0' <= c && c <= '9'
}

pub open spec fn all_digits(s: Seq<char>) -> bool {
    forall|i: int| 0 <= i < s.len() ==> is_digit(#[trigger] s[i])
}

/// The value of a run of decimal digits.
pub open spec fn digits_value(s: Seq<char>) -> nat
    decreases s.len(),
{
    if s.len() == 0 {
        0
    } else {
        10 * digits_value(s.drop_last()) + ((s.last() as int) - 48) as nat
    }
}

/// An optional sign followed by at least one decimal digit, read as an
/// unbounded integer; `allow_minus` says whether a leading `-` is a sign.
pub open spec fn signed_value(s: Seq<char>, allow_minus: bool) -> Option<int> {
    if s.len() == 0 {
        None
    } else if s[0] == '-' && allow_minus {
        let rest = s.drop_first();
        if rest.len() > 0 && all_digits(rest) {
            Some(-(digits_value(rest) as int))
        } else {
            None
        }
    } else if s[0] == '+' {
        let rest = s.drop_first();
        if rest.len() > 0 && all_digits(rest) {
            Some(digits_value(rest) as int)
        } else {
            None
        }
    } else if all_digits(s) {
        Some(digits_value(s) as int)
    } else {
        None
    }
}

/// What `str::parse` gives for an integer type whose values run from `min` to
/// `max`: the value when the text is well formed and in range, else nothing.
pub open spec fn parse_bounded(s: Seq<char>, min: int, max: int) -> Option<int> {
    match signed_value(s, min < 0) {
        Some(v) => if min <= v && v <= max {
            Some(v)
        } else {
            None
        },
        None => None,
    }
}

pub open spec fn spec_parse_i32(s: Seq<char>) -> Option<i32> {
    match parse_bounded(s, i32::MIN as int, i32::MAX as int) {
        Some(v) => Some(v as i32),
        None => None,
    }
}

pub open spec fn spec_parse_u32(s: Seq<char>) -> Option<u32> {
    match parse_bounded(s, 0, u32::MAX as int) {
        Some(v) => Some(v as u32),
        None => None,
    }
}

pub open spec fn spec_parse_i64(s: Seq<char>) -> Option<i64> {
    match parse_bounded(s, i64::MIN as int, i64::MAX as int) {
        Some(v) => Some(v as i64),
        None => None,
    }
}

proof fn lemma_digits_value_prefix(s: Seq<char>, i: int)
    requires
        0 <= i <= s.len(),
        all_digits(s),
    ensures
        digits_value(s.take(i)) <= digits_value(s),
    decreases s.len(),
{
    if i < s.len() {
        lemma_digits_value_prefix(s.drop_last(), i);
        assert(s.drop_last().take(i) =~= s.take(i));
    } else {
        assert(s.take(i) =~= s);
    }
}

/// Reads the digits `chars[start..]` under a bound on their value.
fn digits_within(chars: &Vec<char>, start: usize, limit: u128) -> (r: Option<u128>)
    requires
        start <= chars.len(),
        limit < 0x1_0000_0000_0000_0000_0000,
    ensures
        r == (if all_digits(chars@.skip(start as int)) && digits_value(chars@.skip(start as int))
            <= limit {
            Some(digits_value(chars@.skip(start as int)) as u128)
        } else {
            None::<u128>
        }),
{
    let ghost s = chars@.skip(start as int);
    let mut acc: u128 = 0;
    let mut i: usize = start;
    while i < chars.len()
        invariant
            start <= i <= chars.len(),
            s == chars@.skip(start as int),
            limit < 0x1_0000_0000_0000_0000_0000,
            all_digits(s.take(i - start)),
            acc == digits_value(s.take(i - start)),
            acc <= limit,
        decreases chars.len() - i,
    {
        let c = chars[i];
        assert(s[i - start] == c);
        if !('0' <= c && c <= '9') {
            assert(!all_digits(s));
            return None;
        }
        let d: u128 = (c as u32 - 48) as u128;
        assert(s.take(i + 1 - start).drop_last() =~= s.take(i - start));
        if acc * 10 + d > limit {
            proof {
                if all_digits(s) {
                    lemma_digits_value_prefix(s, i + 1 - start);
                }
            }
            return None;
        }
        acc = acc * 10 + d;
        i = i + 1;
        assert(all_digits(s.take(i - start)));
    }
    assert(s.take(i - start) =~= s);
    Some(acc)
}

fn parse_in_range(s: &str, min: i128, max: i128) -> (r: Option<i128>)
    requires
        -0x1_0000_0000_0000_0000_0000 < min <= 0 <= max < 0x1_0000_0000_0000_0000_0000,
    ensures
        r == (match parse_bounded(s@, min as int, max as int) {
            Some(v) => Some(v as i128),
            None => None::<i128>,
        }),
{
    let chars = chars_of(s);
    if chars.len() == 0 {
        return None;
    }
    let c0 = chars[0];
    if c0 == '-' && min < 0 {
        assert(chars@.skip(1) =~= s@.drop_first());
        if chars.len() == 1 {
            return None;
        }
        match digits_within(&chars, 1, (0 - min) as u128) {
            Some(v) => Some(0 - (v as i128)),
            None => None,
        }
    } else if c0 == '+' {
        assert(chars@.skip(1) =~= s@.drop_first());
        if chars.len() == 1 {
            return None;
        }
        match digits_within(&chars, 1, max as u128) {
            Some(v) => Some(v as i128),
            None => None,
        }
    } else {
        assert(chars@.skip(0) =~= s@);
        match digits_within(&chars, 0, max as u128) {
            Some(v) => Some(v as i128),
            None => None,
        }
    }
}

/// `s.parse::<i32>()`, with `None` in place of the error.
pub fn parse_i32(s: &str) -> (r: Option<i32>)
    ensures
        r == spec_parse_i32(s@),
{
    match parse_in_range(s, i32::MIN as i128, i32::MAX as i128) {
        Some(v) => Some(v as i32),
        None => None,
    }
}

/// `s.parse::<u32>()`, with `None` in place of the error.
pub fn parse_u32(s: &str) -> (r: Option<u32>)
    ensures
        r == spec_parse_u32(s@),
{
    match parse_in_range(s, 0, u32::MAX as i128) {
        Some(v) => Some(v as u32),
        None => None,
    }
}

/// `s.parse::<i64>()`, with `None` in place of the error.
pub fn parse_i64(s: &str) -> (r: Option<i64>)
    ensures
        r == spec_parse_i64(s@),
{
    match parse_in_range(s, i64::MIN as i128, i64::MAX as i128) {
        Some(v) => Some(v as i64),
        None => None,
    }
}

pub proof fn lemma_nat_decimal_digits(n: nat)
    ensures
        nat_decimal(n).len() > 0,
        all_digits(nat_decimal(n)),
        digits_value(nat_decimal(n)) == n,
    decreases n,
{
    let d = (n % 10) as int;
    assert(digit_char(d) as int == 48 + d);
    if n >= 10 {
        lemma_nat_decimal_digits(n / 10);
        let s = nat_decimal(n);
        assert(s.drop_last() =~= nat_decimal(n / 10));
        assert(s.last() == digit_char(d));
        assert(digits_value(s) == 10 * digits_value(nat_decimal(n / 10)) + d);
    } else {
        let s = nat_decimal(n);
        assert(s.drop_last() =~= Seq::<char>::empty());
        assert(digits_value(s) == 10 * digits_value(s.drop_last()) + d);
    }
}

/// Reading back a written number gives the number: for every integer `n`,
/// the decimal text of `n` is well formed and reads as `n` (before any bound
/// of a machine type is applied).
pub proof fn lemma_decimal_reads_back(n: int)
    ensures
        signed_value(int_decimal(n), true) == Some(n),
        n >= 0 ==> signed_value(int_decimal(n), false) == Some(n),
{
    if n < 0 {
        lemma_nat_decimal_digits((-n) as nat);
        assert(int_decimal(n).drop_first() =~= nat_decimal((-n) as nat));
    } else {
        lemma_nat_decimal_digits(n as nat);
        assert(is_digit(int_decimal(n)[0]));
    }
}

/// Writing an `i32` in decimal and parsing it back gives the same `i32`.
pub proof fn law_i32_decimal_roundtrip(n: i32)
    ensures
        spec_parse_i32(int_decimal(n as int)) == Some(n),
{
    lemma_decimal_reads_back(n as int);
}

/// Writing an `i64` in decimal and parsing it back gives the same `i64`.
pub proof fn law_i64_decimal_roundtrip(n: i64)
    ensures
        spec_parse_i64(int_decimal(n as int)) == Some(n),
{
    lemma_decimal_reads_back(n as int);
}

/// Ten to the power `k`.
pub open spec fn pow10(k: nat) -> nat
    decreases k,
{
    if k == 0 {
        1
    } else {
        10 * pow10((k - 1) as nat)
    }
}

/// A number below `10^k` is written with at most `k` digits.
pub proof fn lemma_nat_decimal_len(n: nat, k: nat)
    requires
        k >= 1,
        n < pow10(k),
    ensures
        nat_decimal(n).len() <= k,
    decreases n,
{
    if n >= 10 {
        if k == 1 {
            assert(pow10(1) == 10) by {
                reveal_with_fuel(pow10, 2);
            }
        } else {
            let p = pow10((k - 1) as nat);
            assert(n / 10 < p) by (nonlinear_arith)
                requires
                    n < 10 * p,
            ;
            lemma_nat_decimal_len(n / 10, (k - 1) as nat);
        }
    }
}

} // verus!
