//! Clamp bounds of the representations in which sums are formed.

use vstd::prelude::*;

verus! {

/// Lowest 8-bit sample, held in 16 bits.
const I8_MIN: i16 = -128;

/// Highest 8-bit sample, held in 16 bits.
const I8_MAX: i16 = 127;

/// Lowest 16-bit sample, held in 32 bits.
const I16_MIN: i32 = -32768;

/// Highest 16-bit sample, held in 32 bits.
const I16_MAX: i32 = 32767;

/// Lowest 32-bit sample, held in 64 bits.
const I32_MIN: i64 = -2147483648;

/// Highest 32-bit sample, held in 64 bits.
const I32_MAX: i64 = 2147483647;

/// Lowest 64-bit sample, held in 128 bits.
const I64_MIN: i128 = -9223372036854775808;

/// Highest 64-bit sample, held in 128 bits.
const I64_MAX: i128 = 9223372036854775807;

/// The interval to which a sum held in the representation `T` is clamped
/// before it is narrowed back to a sample.
///
/// For an integer representation these are the limits of the representation
/// one step narrower: a sum of two 8-bit samples is formed in 16 bits and
/// clamped to the 8-bit limits, so the narrowed result is an 8-bit sample
/// again.
pub trait ValueBounds<T> where T: Copy + PartialOrd {
    /// The lower bound, as a value of `T`.
    spec fn min_spec() -> T;

    /// The upper bound, as a value of `T`.
    spec fn max_spec() -> T;

    /// Returns the lower bound.
    fn min() -> (r: T)
        ensures
            r == Self::min_spec(),
    ;

    /// Returns the upper bound.
    fn max() -> (r: T)
        ensures
            r == Self::max_spec(),
    ;
}

impl ValueBounds<i16> for i16 {
    open spec fn min_spec() -> i16 {
        i8::MIN as i16
    }

    open spec fn max_spec() -> i16 {
        i8::MAX as i16
    }

    fn min() -> (r: i16) {
        I8_MIN
    }

    fn max() -> (r: i16) {
        I8_MAX
    }
}

impl ValueBounds<i32> for i32 {
    open spec fn min_spec() -> i32 {
        i16::MIN as i32
    }

    open spec fn max_spec() -> i32 {
        i16::MAX as i32
    }

    fn min() -> (r: i32) {
        I16_MIN
    }

    fn max() -> (r: i32) {
        I16_MAX
    }
}

impl ValueBounds<i64> for i64 {
    open spec fn min_spec() -> i64 {
        i32::MIN as i64
    }

    open spec fn max_spec() -> i64 {
        i32::MAX as i64
    }

    fn min() -> (r: i64) {
        I32_MIN
    }

    fn max() -> (r: i64) {
        I32_MAX
    }
}

impl ValueBounds<i128> for i128 {
    open spec fn min_spec() -> i128 {
        i64::MIN as i128
    }

    open spec fn max_spec() -> i128 {
        i64::MAX as i128
    }

    fn min() -> (r: i128) {
        I64_MIN
    }

    fn max() -> (r: i128) {
        I64_MAX
    }
}

} // verus!
