//! Casts of a reference to one value: the same address, read as another type.

use crate::error::PodCastError;
use crate::laws::lemma_ref_cast_sound;
use crate::layout::{under_aligned, Layout};
use vstd::prelude::*;

verus! {

/// The outcome of reading the value of layout `src` at `addr` as a value of
/// layout `dst`.
///
/// Alignment is judged first and by itself: where it fails, the sizes are
/// not looked at. A reference is never resized, so the sizes must be equal.
pub open spec fn ref_cast(src: Layout, dst: Layout, addr: usize) -> Result<usize, PodCastError> {
    if under_aligned(src, dst, addr) {
        Err(PodCastError::TargetAlignmentGreaterAndInputNotAligned)
    } else if dst.size == src.size {
        Ok(addr)
    } else {
        Err(PodCastError::SizeMismatch)
    }
}

/// Decides whether a reference to a value of layout `src` at `addr` can be
/// turned into a reference to a value of layout `dst`. The new reference
/// points where the old one did.
pub fn try_cast_ref(src: Layout, dst: Layout, addr: usize) -> (r: Result<usize, PodCastError>)
    ensures
        r == ref_cast(src, dst, addr),
        r matches Ok(b) ==> b == addr && dst.size == src.size,
        r is Ok && src.wf() && dst.wf() && src.admits(addr) ==> dst.admits(addr),
{
    proof {
        if ref_cast(src, dst, addr) is Ok && src.wf() && dst.wf() && src.admits(addr) {
            lemma_ref_cast_sound(src, dst, addr);
        }
    }
    if dst.align > src.align && addr % dst.align != 0 {
        Err(PodCastError::TargetAlignmentGreaterAndInputNotAligned)
    } else if dst.size == src.size {
        Ok(addr)
    } else {
        Err(PodCastError::SizeMismatch)
    }
}

/// As [`try_cast_ref`], for a reference that the caller holds exclusively.
///
/// Exclusive access changes nothing in the outcome.
pub fn try_cast_mut(src: Layout, dst: Layout, addr: usize) -> (r: Result<usize, PodCastError>)
    ensures
        r == ref_cast(src, dst, addr),
        r matches Ok(b) ==> b == addr && dst.size == src.size,
        r is Ok && src.wf() && dst.wf() && src.admits(addr) ==> dst.admits(addr),
{
    try_cast_ref(src, dst, addr)
}

/// The address of the value read as `dst`, for a caller who has shown that
/// the cast is legal.
///
/// Equal sizes and a target that is no stricter aligned than the source are
/// enough for that, at every address: see
/// [`lemma_ref_cast_needs_no_address`](crate::laws::lemma_ref_cast_needs_no_address).
pub fn cast_ref(src: Layout, dst: Layout, addr: usize) -> (b: usize)
    requires
        ref_cast(src, dst, addr) is Ok,
    ensures
        Ok::<usize, PodCastError>(b) == ref_cast(src, dst, addr),
        b == addr,
        dst.size == src.size,
        src.wf() && dst.wf() && src.admits(addr) ==> dst.admits(addr),
{
    match try_cast_ref(src, dst, addr) {
        Ok(b) => b,
        Err(_) => vstd::pervasive::unreached(),
    }
}

/// As [`cast_ref`], for a reference that the caller holds exclusively.
pub fn cast_mut(src: Layout, dst: Layout, addr: usize) -> (b: usize)
    requires
        ref_cast(src, dst, addr) is Ok,
    ensures
        Ok::<usize, PodCastError>(b) == ref_cast(src, dst, addr),
        b == addr,
        dst.size == src.size,
        src.wf() && dst.wf() && src.admits(addr) ==> dst.admits(addr),
{
    match try_cast_mut(src, dst, addr) {
        Ok(b) => b,
        Err(_) => vstd::pervasive::unreached(),
    }
}

} // verus!
