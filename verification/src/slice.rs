//! Casts of slices: the same bytes, counted in elements of another size.

use crate::error::PodCastError;
use crate::laws::lemma_slice_cast_sound;
use crate::layout::{under_aligned, Layout, Region};
use vstd::arithmetic::div_mod::lemma_fundamental_div_mod;
use vstd::prelude::*;

verus! {

/// The outcome of viewing the slice at `a`, with elements of layout `src`,
/// as a slice with elements of layout `dst`.
///
/// The checks come in this order. A target that is stricter aligned than
/// the source, at an address that does not meet it, is refused whatever the
/// sizes are. Equal sizes keep the element count, zero-sized on both sides
/// included. A zero-sized type on one side only is a size mismatch. Else the
/// bytes are shared out anew, and a remainder is refused.
pub open spec fn slice_cast(src: Layout, dst: Layout, a: Region) -> Result<Region, PodCastError> {
    if under_aligned(src, dst, a.addr) {
        Err(PodCastError::TargetAlignmentGreaterAndInputNotAligned)
    } else if dst.size == src.size {
        Ok(a)
    } else if src.size == 0 || dst.size == 0 {
        Err(PodCastError::SizeMismatch)
    } else if a.byte_len(src) % dst.size as int == 0 {
        Ok(Region { addr: a.addr, len: (a.byte_len(src) / dst.size as int) as usize })
    } else {
        Err(PodCastError::OutputSliceWouldHaveSlop)
    }
}

/// An accepted cast of a slice keeps the address and covers the same bytes.
pub proof fn lemma_same_bytes(src: Layout, dst: Layout, a: Region)
    requires
        a.byte_len(src) <= usize::MAX,
        slice_cast(src, dst, a) is Ok,
    ensures
        slice_cast(src, dst, a)->Ok_0.addr == a.addr,
        slice_cast(src, dst, a)->Ok_0.byte_len(dst) == a.byte_len(src),
{
    if dst.size != src.size {
        let bytes = a.byte_len(src);
        let d = dst.size as int;
        assert(bytes >= 0) by (nonlinear_arith)
            requires
                bytes == a.len as int * src.size as int,
        ;
        lemma_fundamental_div_mod(bytes, d);
        assert(0 <= bytes / d <= bytes && (bytes / d) * d == bytes) by (nonlinear_arith)
            requires
                bytes == d * (bytes / d),
                d > 0,
                bytes >= 0,
        ;
    }
}

/// Decides whether the slice at `a`, with elements of layout `src`, can be
/// read as a slice with elements of layout `dst`, and where that slice lies.
///
/// The bytes of the input must be countable in a `usize`, as those of every
/// slice are.
pub fn try_cast_slice(src: Layout, dst: Layout, a: Region) -> (r: Result<Region, PodCastError>)
    requires
        a.byte_len(src) <= usize::MAX,
    ensures
        r == slice_cast(src, dst, a),
        r matches Ok(b) ==> b.addr == a.addr && b.byte_len(dst) == a.byte_len(src),
        r matches Ok(b) ==> (src.wf() && dst.wf() && a.holds(src) ==> b.holds(dst)),
{
    proof {
        if slice_cast(src, dst, a) is Ok {
            lemma_same_bytes(src, dst, a);
            if src.wf() && dst.wf() && a.holds(src) {
                lemma_slice_cast_sound(src, dst, a);
            }
        }
    }
    if dst.align > src.align && a.addr % dst.align != 0 {
        Err(PodCastError::TargetAlignmentGreaterAndInputNotAligned)
    } else if dst.size == src.size {
        Ok(a)
    } else if src.size == 0 || dst.size == 0 {
        Err(PodCastError::SizeMismatch)
    } else {
        let bytes: usize = a.len * src.size;
        if bytes % dst.size == 0 {
            Ok(Region { addr: a.addr, len: bytes / dst.size })
        } else {
            Err(PodCastError::OutputSliceWouldHaveSlop)
        }
    }
}

/// As [`try_cast_slice`], for a slice that the caller holds exclusively.
///
/// Exclusive access changes nothing in the outcome: who else may reach the
/// memory is a matter of ownership, where it lies is what is judged here.
pub fn try_cast_slice_mut(src: Layout, dst: Layout, a: Region) -> (r: Result<
    Region,
    PodCastError,
>)
    requires
        a.byte_len(src) <= usize::MAX,
    ensures
        r == slice_cast(src, dst, a),
        r matches Ok(b) ==> b.addr == a.addr && b.byte_len(dst) == a.byte_len(src),
        r matches Ok(b) ==> (src.wf() && dst.wf() && a.holds(src) ==> b.holds(dst)),
{
    try_cast_slice(src, dst, a)
}

/// Where the slice at `a` lies when read with elements of layout `dst`, for
/// a caller who has shown that the cast is legal.
pub fn cast_slice(src: Layout, dst: Layout, a: Region) -> (b: Region)
    requires
        a.byte_len(src) <= usize::MAX,
        slice_cast(src, dst, a) is Ok,
    ensures
        Ok::<Region, PodCastError>(b) == slice_cast(src, dst, a),
        b.addr == a.addr,
        b.byte_len(dst) == a.byte_len(src),
        src.wf() && dst.wf() && a.holds(src) ==> b.holds(dst),
{
    match try_cast_slice(src, dst, a) {
        Ok(b) => b,
        Err(_) => vstd::pervasive::unreached(),
    }
}

/// As [`cast_slice`], for a slice that the caller holds exclusively.
pub fn cast_slice_mut(src: Layout, dst: Layout, a: Region) -> (b: Region)
    requires
        a.byte_len(src) <= usize::MAX,
        slice_cast(src, dst, a) is Ok,
    ensures
        Ok::<Region, PodCastError>(b) == slice_cast(src, dst, a),
        b.addr == a.addr,
        b.byte_len(dst) == a.byte_len(src),
        src.wf() && dst.wf() && a.holds(src) ==> b.holds(dst),
{
    match try_cast_slice_mut(src, dst, a) {
        Ok(b) => b,
        Err(_) => vstd::pervasive::unreached(),
    }
}

} // verus!
