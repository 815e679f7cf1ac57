//! Casts of a value: its bits, moved and read as another type.

use crate::error::PodCastError;
use crate::layout::Layout;
use vstd::prelude::*;

verus! {

/// The outcome of reading the bits `a` of a value of layout `src` as a value
/// of layout `dst`.
///
/// The result is a value of its own and lies wherever its type wants it, so
/// alignment plays no part: the sizes must be equal, and then no bit changes.
pub open spec fn value_cast<V>(src: Layout, dst: Layout, a: V) -> Result<V, PodCastError> {
    if src.size == dst.size {
        Ok(a)
    } else {
        Err(PodCastError::SizeMismatch)
    }
}

/// Decides whether a value of layout `src` can be read as a value of layout
/// `dst`. `a` is the value's bits, in whatever form the caller holds them:
/// they are taken by value and handed back untouched where the cast is legal.
pub fn try_cast<V>(src: Layout, dst: Layout, a: V) -> (r: Result<V, PodCastError>)
    ensures
        r == value_cast(src, dst, a),
{
    if src.size == dst.size {
        Ok(a)
    } else {
        Err(PodCastError::SizeMismatch)
    }
}

/// The bits of the value read as `dst`, for a caller who has shown that the
/// two sizes are equal.
pub fn cast<V>(src: Layout, dst: Layout, a: V) -> (b: V)
    requires
        value_cast(src, dst, a) is Ok,
    ensures
        Ok::<V, PodCastError>(b) == value_cast(src, dst, a),
{
    a
}

} // verus!
