//! The overlay of a source buffer onto a destination buffer.

use vstd::prelude::*;
use crate::bounds::ValueBounds;
use crate::mix::Overlayable;

verus! {

/// `n` samples of silence.
pub open spec fn silence<T, U>(n: nat) -> Seq<T>
    where
        T: Copy + PartialOrd + Overlayable<T, U>,
        U: Copy + PartialOrd,
{
    Seq::new(n, |i: int| T::zero_spec())
}

/// What a destination sample `d` becomes when the source sample `s` is laid
/// over it: silence is overwritten, anything else is mixed with `s` under the
/// clamp bounds of `U`.
pub open spec fn blended<T, U>(d: T, s: T) -> T
    where
        T: Copy + PartialOrd + Overlayable<T, U>,
        U: Copy + PartialOrd + ValueBounds<U>,
{
    if d == T::zero_spec() {
        s
    } else {
        T::overlay_spec(d, s, U::min_spec(), U::max_spec())
    }
}

/// The length of a destination of `dst_len` samples after the overlay of
/// `src_len` samples from position `index` on: it grows only with `add`, and
/// only where the source reaches past its end.
pub open spec fn overlaid_len(src_len: nat, dst_len: nat, index: nat, add: bool) -> nat {
    if add && index + src_len > dst_len {
        index + src_len
    } else {
        dst_len
    }
}

/// The sample at position `i` of the destination after the overlay of `src`
/// from position `index` on.
///
/// Inside the old destination, the samples under the source are blended and
/// the others stay. Past its end lies silence up to `index`, then the source
/// as it is.
pub open spec fn overlaid_at<T, U>(src: Seq<T>, dst: Seq<T>, index: nat, i: int) -> T
    where
        T: Copy + PartialOrd + Overlayable<T, U>,
        U: Copy + PartialOrd + ValueBounds<U>,
{
    if i < dst.len() {
        if index <= i < index + src.len() {
            blended::<T, U>(dst[i], src[i - index])
        } else {
            dst[i]
        }
    } else if i < index {
        T::zero_spec()
    } else {
        src[i - index]
    }
}

/// The destination after the overlay of `src` from position `index` on.
pub open spec fn overlaid<T, U>(src: Seq<T>, dst: Seq<T>, index: nat, add: bool) -> Seq<T>
    where
        T: Copy + PartialOrd + Overlayable<T, U>,
        U: Copy + PartialOrd + ValueBounds<U>,
{
    Seq::new(
        overlaid_len(src.len(), dst.len(), index, add),
        |i: int| overlaid_at::<T, U>(src, dst, index, i),
    )
}

/// Appends `count` copies of `value` to `dst`.
fn pad<T: Copy>(dst: &mut Vec<T>, value: T, count: usize)
    ensures
        final(dst)@ == old(dst)@ + Seq::new(count as nat, |i: int| value),
{
    let mut done: usize = 0;
    while done < count
        invariant
            done <= count,
            dst@ == old(dst)@ + Seq::new(done as nat, |i: int| value),
        decreases count - done,
    {
        dst.push(value);
        done += 1;
    }
}

/// Appends the samples of `src` from position `from` on to `dst`.
fn append_from<T: Copy>(dst: &mut Vec<T>, src: &[T], from: usize)
    requires
        from <= src@.len(),
    ensures
        final(dst)@ == old(dst)@ + src@.subrange(from as int, src@.len() as int),
{
    let mut i: usize = from;
    while i < src.len()
        invariant
            from <= i <= src@.len(),
            dst@ == old(dst)@ + src@.subrange(from as int, i as int),
        decreases src@.len() - i,
    {
        dst.push(src[i]);
        i += 1;
    }
}

/// Lays `src` over `dst`, from position `index` of `dst` on.
///
/// Where `dst` holds silence the source sample is written as it is; elsewhere
/// the two samples are mixed by bounded addition: their sum is formed in the
/// wider representation `U` and clamped to the bounds that `U` gives. With
/// `add`, `dst` grows to hold the samples of `src` that reach past its end,
/// after silence where the overlay starts past its end; without `add` those
/// samples are dropped and the length of `dst` stays. `src` is only read.
///
/// Both buffers hold one channel, at one frame rate and in one
/// representation; `index` is the start time in seconds times the frame rate,
/// rounded down.
///
/// All that is asked of the arguments is that, with `add`, a destination
/// grown to the end of the source would fit the address space.
pub fn overlay<T, U>(src: &[T], dst: &mut Vec<T>, index: usize, add: bool)
    where
        T: Copy + PartialOrd + Overlayable<T, U>,
        U: Copy + PartialOrd + ValueBounds<U>,
    requires
        add ==> index + src@.len() <= usize::MAX,
    ensures
        final(dst)@ == overlaid::<T, U>(src@, old(dst)@, index as nat, add),
        // A start at or past the end, without growth: nothing changes.
        index >= old(dst)@.len() && !add ==> final(dst)@ == old(dst)@,
        // A start at or past the end, with growth: silence up to the start,
        // then the source as it is.
        index >= old(dst)@.len() && add ==> final(dst)@ == old(dst)@ + silence::<T, U>(
            (index - old(dst)@.len()) as nat,
        ) + src@,
        // A start inside: the length stays without growth, and with it where
        // the source ends inside.
        index < old(dst)@.len() && (!add || index + src@.len() <= old(dst)@.len())
            ==> final(dst)@.len() == old(dst)@.len(),
        index < old(dst)@.len() && add && index + src@.len() > old(dst)@.len()
            ==> final(dst)@.len() == index + src@.len(),
        // A start inside: the samples before the start stay, those under the
        // source are blended, those after it stay.
        forall|i: int|
            0 <= i < index && i < old(dst)@.len() ==> final(dst)@[i] == old(dst)@[i],
        forall|i: int|
            index <= i < old(dst)@.len() && i < index + src@.len() ==> final(dst)@[i]
                == blended::<T, U>(old(dst)@[i], src@[i - index]),
        forall|i: int|
            index + src@.len() <= i < old(dst)@.len() ==> final(dst)@[i] == old(dst)@[i],
        // A start inside, with growth: what reaches past the end follows as it
        // is.
        forall|i: int|
            add && index < old(dst)@.len() <= i < index + src@.len() ==> final(dst)@[i]
                == src@[i - index],
{
    let len: usize = dst.len();
    if index >= len {
        if add {
            pad(dst, T::zero(), index - len);
            append_from(dst, src, 0);
        }
        return;
    }
    let min: U = U::min();
    let max: U = U::max();
    let mut at: usize = index;
    let mut i: usize = 0;
    while i < src.len()
        invariant
            index < len,
            len == old(dst)@.len(),
            dst@.len() == len,
            i <= src@.len(),
            at == index + i,
            at <= len,
            min == U::min_spec(),
            max == U::max_spec(),
            forall|j: int|
                0 <= j < len ==> dst@[j] == (if index <= j < at {
                    blended::<T, U>(old(dst)@[j], src@[j - index])
                } else {
                    old(dst)@[j]
                }),
        decreases src@.len() - i,
    {
        if at >= len {
            // The end of the destination is reached with source left over.
            if add {
                append_from(dst, src, i);
            }
            return;
        }
        let d: T = dst[at];
        let s: T = src[i];
        if T::is_zero(d) {
            dst.set(at, s);
        } else {
            dst.set(at, T::overlay(d, s, min, max));
        }
        at += 1;
        i += 1;
    }
}

} // verus!
