//! What holds of the casts, for every layout, address and length.
//!
//! The first group says that the casts are sound: from an input that lies
//! where its type allows, an accepted cast gives a view that lies where the
//! target type allows and covers the same bytes. The second group relates
//! the outcomes to each other and to the sizes.

use crate::bytes::{byte_view, bytes_cast, detached};
use crate::error::PodCastError;
use crate::layout::{lemma_admitted_by_weaker, under_aligned, Layout, Region};
use crate::reference::ref_cast;
use crate::slice::{lemma_same_bytes, slice_cast};
use vstd::arithmetic::div_mod::{lemma_div_multiples_vanish, lemma_mod_multiples_basic};
use vstd::prelude::*;

verus! {

/// A cast of a reference is sound. Where a value of a well-formed layout
/// lies at an address that its type allows, an accepted cast gives the same
/// address, the target type allows that address, and the value read there
/// has as many bytes as the one that lies there.
pub proof fn lemma_ref_cast_sound(src: Layout, dst: Layout, addr: usize)
    requires
        src.wf(),
        dst.wf(),
        src.admits(addr),
        ref_cast(src, dst, addr) is Ok,
    ensures
        ref_cast(src, dst, addr) == Ok::<usize, PodCastError>(addr),
        dst.admits(addr),
        dst.size == src.size,
{
    if dst.align <= src.align {
        lemma_admitted_by_weaker(src, dst, addr);
    } else {
        assert(dst.align > 0);
    }
}

/// A cast of a slice is sound. Where a slice of a well-formed element
/// layout lies where that layout allows, an accepted cast gives a slice at
/// the same address that covers exactly the same bytes and lies where the
/// target layout allows.
pub proof fn lemma_slice_cast_sound(src: Layout, dst: Layout, a: Region)
    requires
        src.wf(),
        dst.wf(),
        a.holds(src),
        slice_cast(src, dst, a) is Ok,
    ensures
        slice_cast(src, dst, a)->Ok_0.addr == a.addr,
        slice_cast(src, dst, a)->Ok_0.byte_len(dst) == a.byte_len(src),
        slice_cast(src, dst, a)->Ok_0.holds(dst),
{
    if dst.align <= src.align {
        lemma_admitted_by_weaker(src, dst, a.addr);
    }
    lemma_same_bytes(src, dst, a);
}

/// The bytes of a value are its one-element slice, cast to bytes. For a
/// value that is not zero-sized that cast is accepted at every address,
/// whatever the alignment of its type.
pub proof fn lemma_byte_view_is_slice_cast(src: Layout, addr: usize)
    requires
        src.size > 0,
    ensures
        (Region { addr, len: 1 }).byte_len(src) == src.size,
        slice_cast(src, Layout::byte_layout(), Region { addr, len: 1 }) == Ok::<
            Region,
            PodCastError,
        >(byte_view(src, addr)),
{
    let one = Region { addr, len: 1 };
    assert(one.byte_len(src) == src.size) by (nonlinear_arith)
        requires
            one.len == 1,
    ;
}

/// The bytes of a value can be read as that value again. The view that
/// `bytes_of` gives of a value that is not zero-sized, and lies where its
/// type allows, is accepted by `try_from_bytes` for the same layout and
/// leads back to the same address.
pub proof fn lemma_bytes_round_trip(src: Layout, addr: usize)
    requires
        src.size > 0,
        src.admits(addr),
    ensures
        src.size <= isize::MAX ==> byte_view(src, addr).holds(Layout::byte_layout()),
        byte_view(src, addr).byte_len(Layout::byte_layout()) == src.size,
        bytes_cast(src, byte_view(src, addr)) == Ok::<usize, PodCastError>(addr),
{
}

/// A cast of a reference there and back gives the reference it began with.
/// Between two layouts of equal size, at an address that both allow, the
/// cast is accepted in either direction and keeps the address: what is read
/// after the round trip is what was there, bit for bit.
pub proof fn lemma_ref_cast_round_trip(a: Layout, b: Layout, addr: usize)
    requires
        a.size == b.size,
        a.admits(addr),
        b.admits(addr),
    ensures
        ref_cast(a, b, addr) == Ok::<usize, PodCastError>(addr),
        ref_cast(b, a, addr) == Ok::<usize, PodCastError>(addr),
{
}

/// An accepted cast of a reference can be undone. It is enough that the
/// reference to begin with was aligned for its own type.
pub proof fn lemma_ref_cast_undone(a: Layout, b: Layout, addr: usize)
    requires
        a.admits(addr),
        ref_cast(a, b, addr) is Ok,
    ensures
        ref_cast(b, a, ref_cast(a, b, addr)->Ok_0) == Ok::<usize, PodCastError>(addr),
{
}

/// An accepted cast of a slice can be undone. Where the slice to begin with
/// lay where its element layout allows, the cast back is accepted and gives
/// the same address and the same length.
pub proof fn lemma_slice_cast_undone(src: Layout, dst: Layout, a: Region)
    requires
        a.holds(src),
        slice_cast(src, dst, a) is Ok,
    ensures
        slice_cast(dst, src, slice_cast(src, dst, a)->Ok_0) == Ok::<Region, PodCastError>(a),
{
    if dst.size != src.size {
        let b = slice_cast(src, dst, a)->Ok_0;
        lemma_same_bytes(src, dst, a);
        assert(b.byte_len(dst) == a.len as int * src.size as int);
        lemma_mod_multiples_basic(a.len as int, src.size as int);
        lemma_div_multiples_vanish(a.len as int, src.size as int);
        assert(a.len as int * src.size as int == src.size as int * a.len as int)
            by (nonlinear_arith);
    }
}

/// Between layouts of equal size, where the target asks for no more
/// alignment than the source, a cast of a reference is accepted at every
/// address.
pub proof fn lemma_ref_cast_needs_no_address(src: Layout, dst: Layout, addr: usize)
    requires
        src.size == dst.size,
        src.align >= dst.align,
    ensures
        ref_cast(src, dst, addr) == Ok::<usize, PodCastError>(addr),
{
}

/// A cast of a slice between element layouts of equal size keeps the length,
/// whatever it is, and the address. Only the alignment can refuse it.
pub proof fn lemma_slice_cast_same_size(src: Layout, dst: Layout, a: Region)
    requires
        src.size == dst.size,
    ensures
        slice_cast(src, dst, a) == if under_aligned(src, dst, a.addr) {
            Err::<Region, PodCastError>(PodCastError::TargetAlignmentGreaterAndInputNotAligned)
        } else {
            Ok::<Region, PodCastError>(a)
        },
        slice_cast(src, dst, a) is Ok ==> slice_cast(src, dst, a)->Ok_0.len == a.len,
{
}

/// A cast of a slice between element layouts of different sizes, neither of
/// them zero, at an address that passes the alignment check: where the
/// bytes are a whole number of target elements, the cast is accepted, at the
/// same address and with the length that covers the same bytes; where they
/// are not, the remainder is reported.
pub proof fn lemma_slice_cast_resized(src: Layout, dst: Layout, a: Region)
    requires
        src.size != dst.size,
        src.size != 0,
        dst.size != 0,
        !under_aligned(src, dst, a.addr),
        a.byte_len(src) <= usize::MAX,
    ensures
        a.byte_len(src) % dst.size as int == 0 ==> {
            &&& slice_cast(src, dst, a) is Ok
            &&& slice_cast(src, dst, a)->Ok_0.addr == a.addr
            &&& slice_cast(src, dst, a)->Ok_0.len * dst.size == a.len * src.size
        },
        a.byte_len(src) % dst.size as int != 0 ==> slice_cast(src, dst, a) == Err::<
            Region,
            PodCastError,
        >(PodCastError::OutputSliceWouldHaveSlop),
{
    if a.byte_len(src) % dst.size as int == 0 {
        lemma_same_bytes(src, dst, a);
    }
}

/// The alignment check comes before the size check. Where the target is
/// stricter aligned than the source and the address does not meet it, a cast
/// of a reference, a cast of a slice of any length and a cast of bytes of
/// any length report exactly that, whether the sizes are equal or not.
pub proof fn lemma_alignment_comes_first(src: Layout, dst: Layout, addr: usize, len: usize)
    requires
        under_aligned(src, dst, addr),
    ensures
        ref_cast(src, dst, addr) == Err::<usize, PodCastError>(
            PodCastError::TargetAlignmentGreaterAndInputNotAligned,
        ),
        slice_cast(src, dst, Region { addr, len }) == Err::<Region, PodCastError>(
            PodCastError::TargetAlignmentGreaterAndInputNotAligned,
        ),
        bytes_cast(dst, Region { addr, len }) == Err::<usize, PodCastError>(
            PodCastError::TargetAlignmentGreaterAndInputNotAligned,
        ),
{
}

/// A cast of bytes is the cast of a reference to that many bytes. For every
/// target that a type can have, bytes of any length at any address are
/// judged as a reference to a value of that size and of alignment 1 is.
pub proof fn lemma_bytes_cast_is_ref_cast(dst: Layout, s: Region)
    requires
        dst.align > 0,
    ensures
        bytes_cast(dst, s) == ref_cast(Layout { size: s.len, align: 1 }, dst, s.addr),
{
}

/// Zero-sized and other elements never convert by count. A cast of a slice
/// between a zero-sized element layout and one that is not, in either
/// direction and for any length, zero included, is a size mismatch wherever
/// the address passes the alignment check.
pub proof fn lemma_zero_sized_never_mixes(src: Layout, dst: Layout, a: Region)
    requires
        (src.size == 0) != (dst.size == 0),
        !under_aligned(src, dst, a.addr),
    ensures
        slice_cast(src, dst, a) == Err::<Region, PodCastError>(PodCastError::SizeMismatch),
{
}

/// A zero-sized value has no bytes. Its byte view is empty and is the same
/// at every address: the address of the value is not made use of.
pub proof fn lemma_zero_sized_has_no_bytes(src: Layout, addr: usize, other: usize)
    requires
        src.size == 0,
    ensures
        byte_view(src, addr).len == 0,
        byte_view(src, addr) == detached(),
        byte_view(src, addr) == byte_view(src, other),
{
}

} // verus!
