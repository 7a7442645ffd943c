//! Small numeric helpers.

use crate::types::Color;
use std::cmp::Ordering;
use vstd::prelude::*;
use vstd::std_specs::cmp::PartialOrdSpec;

verus! {

/// The factor that turns a white-positive value into one seen by `color`.
pub fn get_color_factor(color: Color) -> (r: i16)
    ensures
        r == if color == Color::Black { -1i16 } else { 1i16 },
{
    match color {
        Color::Black => -1,
        Color::White => 1,
    }
}

/// The sign of an integer as -1, 0 or 1.
pub open spec fn sign_of(number: int) -> int {
    if number == 0 {
        0
    } else if number > 0 {
        1
    } else {
        -1
    }
}

/// The sign of `number` as -1, 0 or 1.
pub fn signum(number: isize) -> (r: i8)
    ensures
        r == sign_of(number as int),
{
    if number == 0 {
        return 0;
    } else if number > 0 {
        return 1;
    }
    -1
}

/// Restricts `value` to the range from `low` to `high`.
pub fn clamp<T: PartialOrd>(low: T, value: T, high: T) -> (r: T)
    requires
        T::obeys_partial_cmp_spec(),
        low.partial_cmp_spec(&high) == Some(Ordering::Less),
    ensures
        r == if value.partial_cmp_spec(&low) == Some(Ordering::Less) {
            low
        } else if value.partial_cmp_spec(&high) == Some(Ordering::Greater) {
            high
        } else {
            value
        },
{
    if value < low {
        low
    } else if value > high {
        high
    } else {
        value
    }
}

/// The sum of `f` over the integers from 0 up to, but not including, `n`.
pub open spec fn sum_to(n: int, f: spec_fn(int) -> int) -> int
    decreases n,
{
    if n <= 0 {
        0
    } else {
        sum_to(n - 1, f) + f(n - 1)
    }
}

/// Whether bit `i` of `mask` is set, as 1 or 0.
pub open spec fn bit(mask: u64, i: int) -> int {
    if (mask >> (i as u64)) & 1u64 == 1u64 {
        1
    } else {
        0
    }
}

/// The number of bits that are set in `mask`.
pub open spec fn bit_count(mask: u64) -> int {
    sum_to(64, |i: int| bit(mask, i))
}

/// Counts the bits that are set in `mask`.
pub fn count_bits(mask: u64) -> (r: u32)
    ensures
        r == bit_count(mask),
        r <= 64,
{
    let mut total: u32 = 0;
    let mut i: u8 = 0;
    while i < 64
        invariant
            i <= 64,
            total == sum_to(i as int, |i: int| bit(mask, i)),
            total <= i,
        decreases 64 - i,
    {
        if (mask >> (i as u64)) & 1u64 == 1u64 {
            total += 1;
        }
        i += 1;
    }
    total
}

} // verus!
