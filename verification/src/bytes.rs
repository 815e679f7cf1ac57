//! Views of a value as bytes, and of bytes as a value.

use crate::error::PodCastError;
use crate::laws::lemma_byte_view_is_slice_cast;
use crate::layout::{Layout, Region};
use crate::slice::try_cast_slice;
use vstd::prelude::*;

verus! {

/// The empty byte view that borrows from nothing. It lies at the least
/// address that is not null; a byte is aligned anywhere.
pub open spec fn detached() -> Region {
    Region { addr: 1, len: 0 }
}

/// The bytes of the value of layout `src` at `addr`.
///
/// A zero-sized value has no bytes, and its view is [`detached`]: nothing
/// is made of its address. Any other value is viewed where it lies, one
/// element for each of its bytes.
pub open spec fn byte_view(src: Layout, addr: usize) -> Region {
    if src.size == 0 {
        detached()
    } else {
        Region { addr, len: src.size }
    }
}

/// The outcome of reading the bytes at `s` as one value of layout `dst`.
///
/// This is a cast of a reference whose source is bytes. Alignment is judged
/// first and by itself, as in every cast of a reference: bytes grant no
/// alignment, so the address must be aligned for `dst`, and where it is not
/// the length is not looked at. An alignment of zero, which no type has,
/// allows no address. Then the bytes must be exactly those of one value,
/// since a reference is never resized.
pub open spec fn bytes_cast(dst: Layout, s: Region) -> Result<usize, PodCastError> {
    if !dst.admits(s.addr) {
        Err(PodCastError::TargetAlignmentGreaterAndInputNotAligned)
    } else if s.len != dst.size {
        Err(PodCastError::SizeMismatch)
    } else {
        Ok(s.addr)
    }
}

/// Where the bytes of the value of layout `src` at `addr` lie. This never
/// fails.
pub fn bytes_of(src: Layout, addr: usize) -> (r: Region)
    ensures
        r == byte_view(src, addr),
{
    if src.size == 0 {
        Region { addr: 1, len: 0 }
    } else {
        let one = Region { addr, len: 1 };
        proof {
            lemma_byte_view_is_slice_cast(src, addr);
        }
        match try_cast_slice(src, Layout::byte(), one) {
            Ok(s) => s,
            Err(_) => vstd::pervasive::unreached(),
        }
    }
}

/// As [`bytes_of`], for a value that the caller holds exclusively.
pub fn bytes_of_mut(src: Layout, addr: usize) -> (r: Region)
    ensures
        r == byte_view(src, addr),
{
    bytes_of(src, addr)
}

/// Decides whether the bytes at `s` can be read as one value of layout
/// `dst`, and gives its address.
pub fn try_from_bytes(dst: Layout, s: Region) -> (r: Result<usize, PodCastError>)
    ensures
        r == bytes_cast(dst, s),
{
    if dst.align == 0 || s.addr % dst.align != 0 {
        Err(PodCastError::TargetAlignmentGreaterAndInputNotAligned)
    } else if s.len != dst.size {
        Err(PodCastError::SizeMismatch)
    } else {
        Ok(s.addr)
    }
}

/// As [`try_from_bytes`], for bytes that the caller holds exclusively.
pub fn try_from_bytes_mut(dst: Layout, s: Region) -> (r: Result<usize, PodCastError>)
    ensures
        r == bytes_cast(dst, s),
{
    try_from_bytes(dst, s)
}

/// The address of the value that the bytes at `s` hold, for a caller who has
/// shown that they hold one.
pub fn from_bytes(dst: Layout, s: Region) -> (t: usize)
    requires
        bytes_cast(dst, s) is Ok,
    ensures
        Ok::<usize, PodCastError>(t) == bytes_cast(dst, s),
        t == s.addr,
        s.len == dst.size,
        dst.admits(t),
{
    match try_from_bytes(dst, s) {
        Ok(t) => t,
        Err(_) => vstd::pervasive::unreached(),
    }
}

/// As [`from_bytes`], for bytes that the caller holds exclusively.
pub fn from_bytes_mut(dst: Layout, s: Region) -> (t: usize)
    requires
        bytes_cast(dst, s) is Ok,
    ensures
        Ok::<usize, PodCastError>(t) == bytes_cast(dst, s),
        t == s.addr,
        s.len == dst.size,
        dst.admits(t),
{
    match try_from_bytes_mut(dst, s) {
        Ok(t) => t,
        Err(_) => vstd::pervasive::unreached(),
    }
}

} // verus!
