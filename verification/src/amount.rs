//! Fixed-point money amounts.
//!
//! Prices are held as signed integers counting ten-thousandths of a currency
//! unit, so `1755.00` is `17_550_000`. Amounts are kept strictly between
//! `-AMOUNT_LIMIT` and `AMOUNT_LIMIT`, which leaves room to form the ratio of
//! two amounts in 64 bits. Ratios are held in millionths and truncated toward
//! zero.

use vstd::prelude::*;
use crate::text::{find_char, to_chars};

verus! {

/// Number of units in one whole currency unit.
pub const SCALE: i64 = 10_000;

/// Exclusive bound on the whole part of an amount.
pub const WHOLE_LIMIT: i64 = 100_000_000;

/// Exclusive bound on the magnitude of an amount, in units.
pub const AMOUNT_LIMIT: i64 = 1_000_000_000_000;

/// Number of ratio units in a ratio of one.
pub const RATIO_SCALE: i64 = 1_000_000;

/// `v` is a representable amount.
pub open spec fn is_amount(v: int) -> bool {
    -AMOUNT_LIMIT < v < AMOUNT_LIMIT
}

/// The value of a decimal digit; `None` for any other character.
pub open spec fn digit(c: char) -> Option<int> {
    if c == '0' {
        Some(0)
    } else if c == '1' {
        Some(1)
    } else if c == '2' {
        Some(2)
    } else if c == '3' {
        Some(3)
    } else if c == '4' {
        Some(4)
    } else if c == '5' {
        Some(5)
    } else if c == '6' {
        Some(6)
    } else if c == '7' {
        Some(7)
    } else if c == '8' {
        Some(8)
    } else if c == '9' {
        Some(9)
    } else {
        None
    }
}

/// Every character of `s` is a decimal digit.
pub open spec fn all_digits(s: Seq<char>) -> bool {
    forall|i: int| 0 <= i < s.len() ==> (#[trigger] digit(s[i])) is Some
}

/// The digit at place `k` of `s` counted from the left, zero where `s` has no
/// digit there.
pub open spec fn place(s: Seq<char>, k: int) -> int {
    if 0 <= k < s.len() {
        match digit(s[k]) {
            Some(d) => d,
            None => 0,
        }
    } else {
        0
    }
}

/// The number written by the digits of `s`, most significant first.
pub open spec fn digits_value(s: Seq<char>) -> int
    decreases s.len(),
{
    if s.len() == 0 {
        0
    } else {
        digits_value(s.drop_last()) * 10 + place(s, s.len() - 1)
    }
}

/// The units written by the digits after a decimal point. Digits beyond the
/// fourth are below the resolution of an amount and do not count.
pub open spec fn fraction_units(frac: Seq<char>) -> int {
    place(frac, 0) * 1000 + place(frac, 1) * 100 + place(frac, 2) * 10 + place(frac, 3)
}

/// The digits of `body` before its first decimal point.
pub open spec fn whole_part(body: Seq<char>) -> Seq<char> {
    match body.index_of_first('.') {
        Some(d) => body.take(d),
        None => body,
    }
}

/// The characters of `body` after its first decimal point.
pub open spec fn fraction_part(body: Seq<char>) -> Seq<char> {
    match body.index_of_first('.') {
        Some(d) => body.skip(d + 1),
        None => Seq::empty(),
    }
}

/// The amount written by an unsigned decimal numeral: digits, optionally
/// followed by a point and more digits, with at least one digit in all and a
/// whole part below `WHOLE_LIMIT`.
pub open spec fn unsigned_amount(body: Seq<char>) -> Option<int> {
    let whole = whole_part(body);
    let frac = fraction_part(body);
    if all_digits(whole) && all_digits(frac) && whole.len() + frac.len() > 0 && digits_value(whole)
        < WHOLE_LIMIT {
        Some(digits_value(whole) * SCALE + fraction_units(frac))
    } else {
        None
    }
}

/// The amount written by a decimal numeral with an optional leading sign.
/// `None` for text that is not such a numeral or whose value is out of range.
pub open spec fn amount_of(s: Seq<char>) -> Option<int> {
    if s.len() > 0 && s[0] == '-' {
        match unsigned_amount(s.skip(1)) {
            Some(m) => Some(-m),
            None => None,
        }
    } else if s.len() > 0 && s[0] == '+' {
        unsigned_amount(s.skip(1))
    } else {
        unsigned_amount(s)
    }
}

/// The ratio `part / base` in millionths, truncated toward zero.
pub open spec fn ratio_of(part: int, base: int) -> int {
    if part >= 0 {
        part * RATIO_SCALE / base
    } else {
        -((-part) * RATIO_SCALE / base)
    }
}

/// An executable result agrees with a specified one.
pub open spec fn agrees(r: Option<i64>, m: Option<int>) -> bool {
    match r {
        Some(v) => m == Some(v as int),
        None => m is None,
    }
}

/// The number written by a digit string is at least the number written by
/// any of its prefixes.
pub proof fn lemma_digits_value_monotonic(s: Seq<char>, k: int)
    requires
        0 <= k <= s.len(),
    ensures
        0 <= digits_value(s.take(k)) <= digits_value(s),
    decreases s.len() - k,
{
    lemma_digits_value_nonnegative(s.take(k));
    if k == s.len() {
        assert(s.take(k) =~= s);
    } else {
        lemma_digits_value_monotonic(s, k + 1);
        assert(s.take(k + 1).drop_last() =~= s.take(k));
    }
}

/// The number written by a digit string is not negative.
pub proof fn lemma_digits_value_nonnegative(s: Seq<char>)
    ensures
        0 <= digits_value(s),
    decreases s.len(),
{
    if s.len() > 0 {
        lemma_digits_value_nonnegative(s.drop_last());
    }
}

/// Every amount that a numeral writes is representable.
pub proof fn lemma_amount_of_in_range(s: Seq<char>)
    ensures
        amount_of(s) matches Some(v) ==> is_amount(v),
{
    lemma_unsigned_amount_in_range(s);
    if s.len() > 0 {
        lemma_unsigned_amount_in_range(s.skip(1));
    }
}

/// Every amount that an unsigned numeral writes lies in `0..AMOUNT_LIMIT`.
pub proof fn lemma_unsigned_amount_in_range(body: Seq<char>)
    ensures
        unsigned_amount(body) matches Some(v) ==> 0 <= v < AMOUNT_LIMIT,
{
    lemma_digits_value_nonnegative(whole_part(body));
}

/// Reads one decimal digit.
pub fn digit_of(c: char) -> (r: Option<i64>)
    ensures
        agrees(r, digit(c)),
        r matches Some(d) ==> 0 <= d <= 9,
{
    if c == '0' {
        Some(0)
    } else if c == '1' {
        Some(1)
    } else if c == '2' {
        Some(2)
    } else if c == '3' {
        Some(3)
    } else if c == '4' {
        Some(4)
    } else if c == '5' {
        Some(5)
    } else if c == '6' {
        Some(6)
    } else if c == '7' {
        Some(7)
    } else if c == '8' {
        Some(8)
    } else if c == '9' {
        Some(9)
    } else {
        None
    }
}

/// Reads the digit at place `k` of `s[from..to]`, zero where there is none.
/// Every character of the range must be a digit.
fn place_of(s: &Vec<char>, from: usize, to: usize, k: usize) -> (r: i64)
    requires
        from <= to <= s.len(),
        k < 4,
        all_digits(s@.subrange(from as int, to as int)),
    ensures
        r == place(s@.subrange(from as int, to as int), k as int),
        0 <= r <= 9,
{
    if k < to - from {
        match digit_of(s[from + k]) {
            Some(d) => d,
            None => 0,
        }
    } else {
        0
    }
}

/// Reads the whole part `s[from..to]` of a numeral. `None` when a character
/// is not a digit or the number is not below `WHOLE_LIMIT`.
fn parse_whole(s: &Vec<char>, from: usize, to: usize) -> (r: Option<i64>)
    requires
        from <= to <= s.len(),
    ensures
        match r {
            Some(v) => all_digits(s@.subrange(from as int, to as int)) && v == digits_value(
                s@.subrange(from as int, to as int),
            ) && 0 <= v < WHOLE_LIMIT,
            None => !all_digits(s@.subrange(from as int, to as int)) || digits_value(
                s@.subrange(from as int, to as int),
            ) >= WHOLE_LIMIT,
        },
{
    let ghost window = s@.subrange(from as int, to as int);
    let mut whole: i64 = 0;
    let mut i: usize = from;
    while i < to
        invariant
            from <= i <= to <= s.len(),
            window == s@.subrange(from as int, to as int),
            all_digits(window.take(i - from)),
            whole == digits_value(window.take(i - from)),
            0 <= whole < WHOLE_LIMIT,
        decreases to - i,
    {
        let ghost seen = window.take(i - from + 1);
        proof {
            assert(seen.drop_last() =~= window.take(i - from));
        }
        match digit_of(s[i]) {
            None => {
                assert(digit(window[i - from]) is None);
                return None;
            },
            Some(d) => {
                whole = whole * 10 + d;
                if whole >= WHOLE_LIMIT {
                    proof {
                        lemma_digits_value_monotonic(window, i - from + 1);
                    }
                    return None;
                }
            },
        }
        i += 1;
    }
    proof {
        assert(window.take(to - from) =~= window);
    }
    Some(whole)
}

/// Tells whether every character of `s[from..to]` is a digit.
fn check_digits(s: &Vec<char>, from: usize, to: usize) -> (r: bool)
    requires
        from <= to <= s.len(),
    ensures
        r == all_digits(s@.subrange(from as int, to as int)),
{
    let ghost window = s@.subrange(from as int, to as int);
    let mut i: usize = from;
    while i < to
        invariant
            from <= i <= to <= s.len(),
            window == s@.subrange(from as int, to as int),
            forall|j: int| 0 <= j < i - from ==> (#[trigger] digit(window[j])) is Some,
        decreases to - i,
    {
        if digit_of(s[i]).is_none() {
            assert(digit(window[i - from]) is None);
            return false;
        }
        i += 1;
    }
    true
}

/// Reads an unsigned numeral from `s[from..to]`.
fn parse_unsigned(s: &Vec<char>, from: usize, to: usize) -> (r: Option<i64>)
    requires
        from <= to <= s.len(),
    ensures
        agrees(r, unsigned_amount(s@.subrange(from as int, to as int))),
        r matches Some(v) ==> 0 <= v < AMOUNT_LIMIT,
{
    let ghost body = s@.subrange(from as int, to as int);
    let dot = find_char(s, from, to, '.');
    let whole_end: usize = match dot {
        Some(d) => d,
        None => to,
    };
    let frac_from: usize = match dot {
        Some(d) => d + 1,
        None => to,
    };
    proof {
        assert(whole_part(body) =~= s@.subrange(from as int, whole_end as int));
        assert(fraction_part(body) =~= s@.subrange(frac_from as int, to as int));
    }
    let whole = match parse_whole(s, from, whole_end) {
        Some(w) => w,
        None => {
            return None;
        },
    };
    if !check_digits(s, frac_from, to) {
        return None;
    }
    if whole_end - from == 0 && to - frac_from == 0 {
        return None;
    }
    let d0 = place_of(s, frac_from, to, 0);
    let d1 = place_of(s, frac_from, to, 1);
    let d2 = place_of(s, frac_from, to, 2);
    let d3 = place_of(s, frac_from, to, 3);
    Some(whole * SCALE + (d0 * 1000 + d1 * 100 + d2 * 10 + d3))
}

/// Reads the amount written in `s[from..to]`.
pub fn parse_amount(s: &Vec<char>, from: usize, to: usize) -> (r: Option<i64>)
    requires
        from <= to <= s.len(),
    ensures
        agrees(r, amount_of(s@.subrange(from as int, to as int))),
        r matches Some(v) ==> is_amount(v as int),
{
    let ghost window = s@.subrange(from as int, to as int);
    if from < to && s[from] == '-' {
        proof {
            assert(window.skip(1) =~= s@.subrange(from + 1, to as int));
        }
        match parse_unsigned(s, from + 1, to) {
            Some(m) => Some(-m),
            None => None,
        }
    } else if from < to && s[from] == '+' {
        proof {
            assert(window.skip(1) =~= s@.subrange(from + 1, to as int));
        }
        parse_unsigned(s, from + 1, to)
    } else {
        parse_unsigned(s, from, to)
    }
}

/// Reads the amount written by a whole string.
pub fn parse_decimal(text: &str) -> (r: Option<i64>)
    ensures
        agrees(r, amount_of(text@)),
        r matches Some(v) ==> is_amount(v as int),
{
    let chars = to_chars(text);
    proof {
        assert(chars@.subrange(0, chars@.len() as int) =~= text@);
    }
    parse_amount(&chars, 0, chars.len())
}

/// Computes the ratio `part / base` in millionths, truncated toward zero.
pub fn ratio(part: i64, base: i64) -> (r: i64)
    requires
        is_amount(part as int),
        0 < base,
    ensures
        r == ratio_of(part as int, base as int),
{
    if part >= 0 {
        let scaled: i64 = part * RATIO_SCALE;
        proof {
            assert(0 <= scaled / base <= scaled) by (nonlinear_arith)
                requires
                    0 <= scaled,
                    0 < base,
            ;
        }
        scaled / base
    } else {
        let scaled: i64 = (-part) * RATIO_SCALE;
        proof {
            assert(0 <= scaled / base <= scaled) by (nonlinear_arith)
                requires
                    0 <= scaled,
                    0 < base,
            ;
        }
        -(scaled / base)
    }
}

} // verus!
