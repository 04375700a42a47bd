//! The bounded-addition mixing rule.
//!
//! Two samples are mixed by adding them in a wider representation, where the
//! sum cannot overflow, clamping the sum, and narrowing it back. This is the
//! one mixing rule of the library: the sum is saturated, never attenuated by
//! the product of the samples or by their signs.

use vstd::prelude::*;
use vstd::std_specs::cmp::PartialOrdIs;
use vstd::std_specs::cmp::PartialOrdSpec;

verus! {

/// `v` saturated to the closed interval from `lo` to `hi`. The upper bound is
/// tested first, so `hi` wins where the bounds are crossed.
pub open spec fn bounded(v: int, lo: int, hi: int) -> int {
    if v > hi {
        hi
    } else if v < lo {
        lo
    } else {
        v
    }
}

/// Saturates `value` to the closed interval from `min` to `max`: `max` where
/// `value` is above it, else `min` where `value` is below it, else `value`.
///
/// The upper bound is tested first, so `max` wins where the bounds are
/// crossed. Nothing rounds and nothing panics.
pub fn clamp<T>(value: T, min: T, max: T) -> (r: T)
    where
        T: PartialOrd,
    ensures
        r == value || r == min || r == max,
        T::obeys_partial_cmp_spec() ==> r == (if value.is_gt(&max) {
            max
        } else if value.is_lt(&min) {
            min
        } else {
            value
        }),
{
    if value > max {
        max
    } else if value < min {
        min
    } else {
        value
    }
}

/// A sample representation `T` whose samples can be laid over each other,
/// with sums formed in the representation `U`.
///
/// The overlay of whole buffers asks three things of a representation: its
/// zero, a test for that zero, and the mix of two samples.
pub trait Overlayable<T, U> where T: Copy + PartialOrd, U: Copy + PartialOrd {
    /// The representation's zero: silence.
    spec fn zero_spec() -> T;

    /// The mix of `a` and `b` under the clamp bounds `min` and `max`.
    spec fn overlay_spec(a: T, b: T, min: U, max: U) -> T;

    /// Returns the representation's zero.
    fn zero() -> (z: T)
        ensures
            z == Self::zero_spec(),
    ;

    /// Tells whether `a` is the representation's zero.
    fn is_zero(a: T) -> (r: bool)
        ensures
            r == (a == Self::zero_spec()),
    ;

    /// Adds two samples, with the sum clamped to the interval from `min` to
    /// `max`.
    fn overlay(a: T, b: T, min: U, max: U) -> (r: T)
        ensures
            r == Self::overlay_spec(a, b, min, max),
    ;
}

impl Overlayable<i8, i16> for i8 {
    open spec fn zero_spec() -> i8 {
        0
    }

    /// The sum, clamped, then cut to its low 8 bits. Bounds within the
    /// 8-bit limits leave nothing to cut.
    open spec fn overlay_spec(a: i8, b: i8, min: i16, max: i16) -> i8 {
        bounded(a + b, min as int, max as int) as i8
    }

    fn zero() -> (z: i8) {
        0
    }

    fn is_zero(a: i8) -> (r: bool) {
        a == 0
    }

    /// Adds in 16 bits, clamps there, and narrows the result to 8 bits.
    fn overlay(a: i8, b: i8, min: i16, max: i16) -> (r: i8)
        ensures
            i8::MIN <= min <= i8::MAX && i8::MIN <= max <= i8::MAX ==> r == bounded(
                a + b,
                min as int,
                max as int,
            ),
    {
        let sum: i16 = a as i16 + b as i16;
        #[verifier::truncate]
        (clamp(sum, min, max) as i8)
    }
}

impl Overlayable<i16, i32> for i16 {
    open spec fn zero_spec() -> i16 {
        0
    }

    /// The sum, clamped, then cut to its low 16 bits. Bounds within the
    /// 16-bit limits leave nothing to cut.
    open spec fn overlay_spec(a: i16, b: i16, min: i32, max: i32) -> i16 {
        bounded(a + b, min as int, max as int) as i16
    }

    fn zero() -> (z: i16) {
        0
    }

    fn is_zero(a: i16) -> (r: bool) {
        a == 0
    }

    /// Adds in 32 bits, clamps there, and narrows the result to 16 bits.
    fn overlay(a: i16, b: i16, min: i32, max: i32) -> (r: i16)
        ensures
            i16::MIN <= min <= i16::MAX && i16::MIN <= max <= i16::MAX ==> r == bounded(
                a + b,
                min as int,
                max as int,
            ),
    {
        let sum: i32 = a as i32 + b as i32;
        #[verifier::truncate]
        (clamp(sum, min, max) as i16)
    }
}

impl Overlayable<i32, i64> for i32 {
    open spec fn zero_spec() -> i32 {
        0
    }

    /// The sum, clamped, then cut to its low 32 bits. Bounds within the
    /// 32-bit limits leave nothing to cut.
    open spec fn overlay_spec(a: i32, b: i32, min: i64, max: i64) -> i32 {
        bounded(a + b, min as int, max as int) as i32
    }

    fn zero() -> (z: i32) {
        0
    }

    fn is_zero(a: i32) -> (r: bool) {
        a == 0
    }

    /// Adds in 64 bits, clamps there, and narrows the result to 32 bits.
    fn overlay(a: i32, b: i32, min: i64, max: i64) -> (r: i32)
        ensures
            i32::MIN <= min <= i32::MAX && i32::MIN <= max <= i32::MAX ==> r == bounded(
                a + b,
                min as int,
                max as int,
            ),
    {
        let sum: i64 = a as i64 + b as i64;
        #[verifier::truncate]
        (clamp(sum, min, max) as i32)
    }
}

impl Overlayable<i64, i128> for i64 {
    open spec fn zero_spec() -> i64 {
        0
    }

    /// The sum, clamped, then cut to its low 64 bits. Bounds within the
    /// 64-bit limits leave nothing to cut.
    open spec fn overlay_spec(a: i64, b: i64, min: i128, max: i128) -> i64 {
        bounded(a + b, min as int, max as int) as i64
    }

    fn zero() -> (z: i64) {
        0
    }

    fn is_zero(a: i64) -> (r: bool) {
        a == 0
    }

    /// Adds in 128 bits, clamps there, and narrows the result to 64 bits.
    fn overlay(a: i64, b: i64, min: i128, max: i128) -> (r: i64)
        ensures
            i64::MIN <= min <= i64::MAX && i64::MIN <= max <= i64::MAX ==> r == bounded(
                a + b,
                min as int,
                max as int,
            ),
    {
        let sum: i128 = a as i128 + b as i128;
        #[verifier::truncate]
        (clamp(sum, min, max) as i64)
    }
}

} // verus!
