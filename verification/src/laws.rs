//! What holds of the mixing rule and of the overlay in the four integer
//! representations.

use vstd::prelude::*;
use crate::bounds::ValueBounds;
use crate::engine::blended;
use crate::engine::overlaid;
use crate::mix::bounded;
use crate::mix::Overlayable;

verus! {

/// The mixing rule is symmetric for 8-bit samples: under any bounds, `a` mixed
/// onto `b` is `b` mixed onto `a`.
pub proof fn lemma_mix_commutes_i8(a: i8, b: i8, min: i16, max: i16)
    ensures
        <i8 as Overlayable<i8, i16>>::overlay_spec(a, b, min, max) == <i8 as Overlayable<
            i8,
            i16,
        >>::overlay_spec(b, a, min, max),
{
}

/// The mixing rule is symmetric for 16-bit samples: under any bounds, `a` mixed
/// onto `b` is `b` mixed onto `a`.
pub proof fn lemma_mix_commutes_i16(a: i16, b: i16, min: i32, max: i32)
    ensures
        <i16 as Overlayable<i16, i32>>::overlay_spec(a, b, min, max) == <i16 as Overlayable<
            i16,
            i32,
        >>::overlay_spec(b, a, min, max),
{
}

/// The mixing rule is symmetric for 32-bit samples: under any bounds, `a` mixed
/// onto `b` is `b` mixed onto `a`.
pub proof fn lemma_mix_commutes_i32(a: i32, b: i32, min: i64, max: i64)
    ensures
        <i32 as Overlayable<i32, i64>>::overlay_spec(a, b, min, max) == <i32 as Overlayable<
            i32,
            i64,
        >>::overlay_spec(b, a, min, max),
{
}

/// The mixing rule is symmetric for 64-bit samples: under any bounds, `a` mixed
/// onto `b` is `b` mixed onto `a`.
pub proof fn lemma_mix_commutes_i64(a: i64, b: i64, min: i128, max: i128)
    ensures
        <i64 as Overlayable<i64, i128>>::overlay_spec(a, b, min, max) == <i64 as Overlayable<
            i64,
            i128,
        >>::overlay_spec(b, a, min, max),
{
}

/// What a blend of 8-bit samples is, in integers: the source sample itself over
/// silence, else the sum saturated at the 8-bit limits.
pub proof fn lemma_blended_i8(d: i8, s: i8)
    ensures
        blended::<i8, i16>(d, s) == (if d == 0 {
            s as int
        } else {
            bounded(d + s, i8::MIN as int, i8::MAX as int)
        }),
{
}

/// What a blend of 16-bit samples is, in integers: the source sample itself over
/// silence, else the sum saturated at the 16-bit limits.
pub proof fn lemma_blended_i16(d: i16, s: i16)
    ensures
        blended::<i16, i32>(d, s) == (if d == 0 {
            s as int
        } else {
            bounded(d + s, i16::MIN as int, i16::MAX as int)
        }),
{
}

/// What a blend of 32-bit samples is, in integers: the source sample itself over
/// silence, else the sum saturated at the 32-bit limits.
pub proof fn lemma_blended_i32(d: i32, s: i32)
    ensures
        blended::<i32, i64>(d, s) == (if d == 0 {
            s as int
        } else {
            bounded(d + s, i32::MIN as int, i32::MAX as int)
        }),
{
}

/// What a blend of 64-bit samples is, in integers: the source sample itself over
/// silence, else the sum saturated at the 64-bit limits.
pub proof fn lemma_blended_i64(d: i64, s: i64)
    ensures
        blended::<i64, i128>(d, s) == (if d == 0 {
            s as int
        } else {
            bounded(d + s, i64::MIN as int, i64::MAX as int)
        }),
{
}

/// The blend is symmetric for 8-bit samples: `s` laid over `d` gives what `d`
/// laid over `s` gives.
pub proof fn lemma_blended_commutes_i8(d: i8, s: i8)
    ensures
        blended::<i8, i16>(d, s) == blended::<i8, i16>(s, d),
{
}

/// The blend is symmetric for 16-bit samples: `s` laid over `d` gives what `d`
/// laid over `s` gives.
pub proof fn lemma_blended_commutes_i16(d: i16, s: i16)
    ensures
        blended::<i16, i32>(d, s) == blended::<i16, i32>(s, d),
{
}

/// The blend is symmetric for 32-bit samples: `s` laid over `d` gives what `d`
/// laid over `s` gives.
pub proof fn lemma_blended_commutes_i32(d: i32, s: i32)
    ensures
        blended::<i32, i64>(d, s) == blended::<i32, i64>(s, d),
{
}

/// The blend is symmetric for 64-bit samples: `s` laid over `d` gives what `d`
/// laid over `s` gives.
pub proof fn lemma_blended_commutes_i64(d: i64, s: i64)
    ensures
        blended::<i64, i128>(d, s) == blended::<i64, i128>(s, d),
{
}

/// Laying silence over a buffer, from a start inside it and without growth,
/// changes nothing in a representation where silence blended onto a sample
/// gives that sample back.
proof fn lemma_silence_changes_nothing<T, U>(src: Seq<T>, dst: Seq<T>, index: nat)
    where
        T: Copy + PartialOrd + Overlayable<T, U>,
        U: Copy + PartialOrd + ValueBounds<U>,
    requires
        index < dst.len(),
        forall|k: int| 0 <= k < src.len() ==> src[k] == T::zero_spec(),
        forall|d: T| #[trigger] blended::<T, U>(d, T::zero_spec()) == d,
    ensures
        overlaid::<T, U>(src, dst, index, false) == dst,
{
    assert(overlaid::<T, U>(src, dst, index, false) =~= dst);
}

/// Laying a source of silence over 8-bit samples, from a start inside the
/// destination and without growth, leaves the destination as it was.
pub proof fn lemma_silent_source_i8(src: Seq<i8>, dst: Seq<i8>, index: nat)
    requires
        index < dst.len(),
        forall|k: int| 0 <= k < src.len() ==> src[k] == 0,
    ensures
        overlaid::<i8, i16>(src, dst, index, false) == dst,
{
    lemma_silence_changes_nothing::<i8, i16>(src, dst, index);
}

/// Laying a source of silence over 16-bit samples, from a start inside the
/// destination and without growth, leaves the destination as it was.
pub proof fn lemma_silent_source_i16(src: Seq<i16>, dst: Seq<i16>, index: nat)
    requires
        index < dst.len(),
        forall|k: int| 0 <= k < src.len() ==> src[k] == 0,
    ensures
        overlaid::<i16, i32>(src, dst, index, false) == dst,
{
    lemma_silence_changes_nothing::<i16, i32>(src, dst, index);
}

/// Laying a source of silence over 32-bit samples, from a start inside the
/// destination and without growth, leaves the destination as it was.
pub proof fn lemma_silent_source_i32(src: Seq<i32>, dst: Seq<i32>, index: nat)
    requires
        index < dst.len(),
        forall|k: int| 0 <= k < src.len() ==> src[k] == 0,
    ensures
        overlaid::<i32, i64>(src, dst, index, false) == dst,
{
    lemma_silence_changes_nothing::<i32, i64>(src, dst, index);
}

/// Laying a source of silence over 64-bit samples, from a start inside the
/// destination and without growth, leaves the destination as it was.
pub proof fn lemma_silent_source_i64(src: Seq<i64>, dst: Seq<i64>, index: nat)
    requires
        index < dst.len(),
        forall|k: int| 0 <= k < src.len() ==> src[k] == 0,
    ensures
        overlaid::<i64, i128>(src, dst, index, false) == dst,
{
    lemma_silence_changes_nothing::<i64, i128>(src, dst, index);
}

} // verus!
