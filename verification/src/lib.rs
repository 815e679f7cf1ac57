//! Layout checks for reinterpreting plain data in place.
//!
//! To read the bytes of a value of one type as a value of another, without a
//! copy, is sound only where the two layouts agree: the sizes must match, or
//! for a slice share out the same bytes without remainder, and the memory
//! must lie where the target type may lie. This crate decides that, and
//! proves of each decision that it is the right one. It never touches the
//! memory: a type is known by its [`Layout`], a reference by its address, a
//! slice by its [`Region`], and an accepted cast gives back where the new
//! view lies.
//!
//! Each kind of cast has a `try_` function that returns a [`PodCastError`]
//! where the cast is refused, and a plain one for callers who have shown
//! beforehand that it is legal. The `_mut` functions judge exclusive views;
//! they decide as the shared ones do. The module [`laws`] states what holds
//! of all of them.

pub mod bytes;
pub mod error;
pub mod laws;
pub mod layout;
pub mod reference;
pub mod slice;
pub mod value;

pub use crate::bytes::{
    bytes_of, bytes_of_mut, from_bytes, from_bytes_mut, try_from_bytes, try_from_bytes_mut,
};
pub use crate::error::{something_went_wrong, PodCastError};
pub use crate::layout::{Layout, Region};
pub use crate::reference::{cast_mut, cast_ref, try_cast_mut, try_cast_ref};
pub use crate::slice::{cast_slice, cast_slice_mut, try_cast_slice, try_cast_slice_mut};
pub use crate::value::{cast, try_cast};
