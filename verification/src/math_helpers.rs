use vstd::prelude::*;
use std::ops::RangeInclusive;

verus! {

/// `RangeInclusive::start` returns the lower bound the range was made with.
pub assume_specification<Idx>[ RangeInclusive::<Idx>::start ](r: &RangeInclusive<Idx>) -> (s: &Idx)
    ensures
        *s == r@.start,
;

/// `RangeInclusive::end` returns the upper bound the range was made with.
pub assume_specification<Idx>[ RangeInclusive::<Idx>::end ](r: &RangeInclusive<Idx>) -> (e: &Idx)
    ensures
        *e == r@.end,
;

/// Remainder of the division of `x` by `d` rounded toward zero, as Rust's `%`
/// computes it on integers: it has the sign of `x` and a magnitude below `|d|`.
pub open spec fn truncated_rem(x: int, d: int) -> int {
    let magnitude: int = vstd::math::abs(x) as int % vstd::math::abs(d) as int;
    if x < 0 { -magnitude } else { magnitude }
}

/// `value` moved by a whole number of interval widths into `start..end`:
/// the representative of `value` modulo `end - start` counted from `start`
/// (for `start < end`).
pub open spec fn normalized(value: int, start: int, end: int) -> int {
    start + (value - start) % (end - start)
}

/// What the computation gives on any bounds: the value shifted by `start`,
/// reduced toward zero modulo the width `end - start`, shifted back, and
/// moved by one width if it fell below `start` or above `end`. For
/// `start < end` this is `normalized` (see `lemma_normalize_into_interval`).
pub open spec fn normalized_any(value: int, start: int, end: int) -> int {
    let m = truncated_rem(value - start, end - start) + start;
    if m < start {
        m + (end - start)
    } else if m > end {
        m - (end - start)
    } else {
        m
    }
}

/// The machine conditions under which every intermediate value of
/// `normalize_to_interval` fits in an `i64` (a one-point interval needs
/// none: its point is the result).
pub open spec fn normalize_fits_i64(value: int, start: int, end: int) -> bool {
    start != end ==> normalize_fits_i64_proper(value, start, end)
}

/// The machine conditions for an interval of nonzero width.
pub open spec fn normalize_fits_i64_proper(value: int, start: int, end: int) -> bool {
    let shifted = value - start;
    let width = end - start;
    let m = truncated_rem(shifted, width) + start;
    &&& i64::MIN <= shifted <= i64::MAX
    &&& i64::MIN <= width <= i64::MAX
    &&& !(shifted == i64::MIN && width == -1)
    &&& i64::MIN <= m <= i64::MAX
    &&& (m < start ==> i64::MIN <= m + width <= i64::MAX)
    &&& (m > end ==> i64::MIN <= m - width <= i64::MAX)
}

/// The remainder rounded toward zero, moved up by the divisor where it is
/// negative, is the Euclidean remainder.
proof fn lemma_truncated_rem_to_euclidean(x: int, w: int)
    requires
        w > 0,
    ensures
        -w < truncated_rem(x, w) < w,
        (if truncated_rem(x, w) < 0 { truncated_rem(x, w) + w } else { truncated_rem(x, w) }) == x % w,
{
    let a = vstd::math::abs(x) as int;
    vstd::arithmetic::div_mod::lemma_fundamental_div_mod(a, w);
    vstd::arithmetic::div_mod::lemma_mod_bound(a, w);
    if x < 0 {
        if a % w == 0 {
            assert(x == w * (-(a / w)) + 0) by (nonlinear_arith)
                requires
                    a == w * (a / w) + a % w,
                    a % w == 0,
                    x == -a,
            ;
            vstd::arithmetic::div_mod::lemma_fundamental_div_mod_converse(x, w, -(a / w), 0);
        } else {
            assert(x == w * (-(a / w) - 1) + (w - a % w)) by (nonlinear_arith)
                requires
                    a == w * (a / w) + a % w,
                    x == -a,
            ;
            vstd::arithmetic::div_mod::lemma_fundamental_div_mod_converse(x, w, -(a / w) - 1, w - a % w);
        }
    } else {
        assert(a == x);
    }
}

/// On a proper interval the computation gives `normalized`: a value in
/// `start..end` (never `end` itself) that differs from `value` by a whole
/// number of widths `end - start`.
pub proof fn lemma_normalize_into_interval(value: int, start: int, end: int)
    requires
        start < end,
    ensures
        normalized_any(value, start, end) == normalized(value, start, end),
        start <= normalized(value, start, end) < end,
        (normalized(value, start, end) - value) % (end - start) == 0,
{
    let w = end - start;
    let x = value - start;
    lemma_truncated_rem_to_euclidean(x, w);
    vstd::arithmetic::div_mod::lemma_fundamental_div_mod(x, w);
    vstd::arithmetic::div_mod::lemma_mod_bound(x, w);
    assert(normalized(value, start, end) - value == w * (-(x / w))) by (nonlinear_arith)
        requires
            x == w * (x / w) + x % w,
            x == value - start,
            normalized(value, start, end) == start + x % w,
    ;
    vstd::arithmetic::div_mod::lemma_mod_multiples_basic(-(x / w), w);
    vstd::arithmetic::mul::lemma_mul_is_commutative(w, -(x / w));
}

/// Normalizes a value to a given interval: on `start..=end` with
/// `start < end`, the value is moved by whole widths `end - start` into the
/// interval (for example, -3 on `0..=6` gives 3); on a one-point interval
/// the result is that point.
pub fn normalize_to_interval(value: i64, range: RangeInclusive<i64>) -> (result: i64)
    requires
        normalize_fits_i64(value as int, range@.start as int, range@.end as int),
    ensures
        range@.start == range@.end ==> result == range@.start,
        range@.start != range@.end ==> result == normalized_any(
            value as int,
            range@.start as int,
            range@.end as int,
        ),
        range@.start < range@.end ==> result == normalized(
            value as int,
            range@.start as int,
            range@.end as int,
        ),
        range@.start < range@.end ==> range@.start <= result < range@.end,
        range@.start < range@.end ==> (result - value) % (range@.end - range@.start) == 0,
{
    let start = *range.start();
    let end = *range.end();
    if start == end {
        return start;
    }
    let shifted = value - start;
    let width = end - start;
    let remainder = match shifted.checked_rem(width) {
        Some(r) => r,
        None => 0,
    };
    proof {
        let x = shifted as int;
        let d = width as int;
        let t = truncated_rem(x, d);
        if x == 0 {
            vstd::arithmetic::div_mod::lemma_small_mod(0, vstd::math::abs(d) as nat);
            assert(t == 0);
        } else if x > 0 && d > 0 {
            assert(t == x % d);
        } else if x < 0 && d < 0 {
            assert(t == ((x * -1) % (d * -1)) * -1);
        } else if x < 0 {
            assert(t == ((x * -1) % d) * -1);
        } else {
            assert(t == x % (d * -1));
        }
    }
    assert(remainder == truncated_rem(shifted as int, width as int));
    proof {
        if start < end {
            lemma_normalize_into_interval(value as int, start as int, end as int);
        }
    }
    let modulod_value = remainder + start;
    if modulod_value < start {
        modulod_value + width
    } else if modulod_value > end {
        modulod_value - width
    } else {
        modulod_value
    }
}

} // verus!
