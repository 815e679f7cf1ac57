//! Type descriptors and the memory that a view covers.
//!
//! A cast never looks at a value. It decides from two numbers of each type,
//! its size and its alignment, and from where the input lies. [`Layout`]
//! holds the two numbers, an address is a `usize`, and [`Region`] is the
//! address and element count of a slice.

use vstd::arithmetic::div_mod::{lemma_fundamental_div_mod, lemma_mod_multiples_basic};
use vstd::arithmetic::power2::is_pow2;
use vstd::prelude::*;

verus! {

/// Size and alignment of a type, in bytes.
#[derive(Debug, Clone, Copy, PartialEq, Eq, Hash, Structural)]
pub struct Layout {
    /// Bytes that one value takes. Zero for a zero-sized type.
    pub size: usize,
    /// Every value lies at a multiple of this.
    pub align: usize,
}

/// Where a slice lies: `len` elements from `addr` on.
#[derive(Debug, Clone, Copy, PartialEq, Eq, Hash, Structural)]
pub struct Region {
    /// Address of the first element.
    pub addr: usize,
    /// Number of elements, not of bytes.
    pub len: usize,
}

impl Layout {
    /// What holds of the layout of every type: the alignment is a power of
    /// two and the size is a multiple of it.
    pub open spec fn wf(self) -> bool {
        &&& is_pow2(self.align as int)
        &&& self.size as int % self.align as int == 0
    }

    /// A value of this layout may lie at `addr`: the address is a multiple
    /// of the alignment.
    pub open spec fn admits(self, addr: usize) -> bool {
        self.align > 0 && addr as int % self.align as int == 0
    }

    /// The layout of `T`.
    pub fn of<T>() -> (l: Layout)
        ensures
            l.size as nat == vstd::layout::size_of::<T>(),
            l.align as nat == vstd::layout::align_of::<T>(),
            l.wf(),
            l.align > 0,
    {
        broadcast use vstd::layout::group_align_properties;

        Layout { size: core::mem::size_of::<T>(), align: core::mem::align_of::<T>() }
    }

    /// Tells whether `self` can be the layout of a type.
    pub fn is_valid(&self) -> (r: bool)
        ensures
            r == self.wf(),
    {
        if self.align == 0 {
            proof {
                reveal(is_pow2);
            }
            return false;
        }
        let mut rest: usize = self.align;
        while rest % 2 == 0
            invariant
                rest > 0,
                is_pow2(rest as int) == is_pow2(self.align as int),
            decreases rest,
        {
            proof {
                reveal(is_pow2);
            }
            rest = rest / 2;
        }
        proof {
            reveal(is_pow2);
        }
        rest == 1 && self.size % self.align == 0
    }

    /// The layout of a byte: size 1, alignment 1.
    pub fn byte() -> (l: Layout)
        ensures
            l == Layout::byte_layout(),
    {
        Layout { size: 1, align: 1 }
    }

    /// The layout of a byte.
    pub open spec fn byte_layout() -> Layout {
        Layout { size: 1, align: 1 }
    }
}

/// Of two powers of two the smaller divides the greater.
proof fn lemma_pow2_divides(a: int, b: int)
    requires
        is_pow2(a),
        is_pow2(b),
        b <= a,
    ensures
        a % b == 0,
    decreases b,
{
    reveal(is_pow2);
    if b != 1 {
        lemma_pow2_divides(a / 2, b / 2);
        let k = (a / 2) / (b / 2);
        lemma_fundamental_div_mod(a / 2, b / 2);
        assert(a == k * b) by (nonlinear_arith)
            requires
                a == 2 * (a / 2),
                b == 2 * (b / 2),
                a / 2 == (b / 2) * k,
        ;
        lemma_mod_multiples_basic(k, b);
    }
}

/// An address that a layout allows is allowed by every layout that asks for
/// no more alignment: of two powers of two the smaller divides the greater,
/// and so every multiple of the greater.
pub proof fn lemma_admitted_by_weaker(strict: Layout, weak: Layout, addr: usize)
    requires
        is_pow2(strict.align as int),
        is_pow2(weak.align as int),
        weak.align <= strict.align,
        strict.admits(addr),
    ensures
        weak.admits(addr),
{
    let a = strict.align as int;
    let b = weak.align as int;
    let x = addr as int;
    reveal(is_pow2);
    lemma_pow2_divides(a, b);
    lemma_fundamental_div_mod(x, a);
    lemma_fundamental_div_mod(a, b);
    let q = (x / a) * (a / b);
    assert(x == q * b) by (nonlinear_arith)
        requires
            x == a * (x / a),
            a == b * (a / b),
            q == (x / a) * (a / b),
    ;
    lemma_mod_multiples_basic(q, b);
}

/// The alignment check that comes before every other in a cast of a
/// reference or a slice: the target asks for more alignment than the source
/// type grants, and the address does not happen to meet it.
pub open spec fn under_aligned(src: Layout, dst: Layout, addr: usize) -> bool {
    dst.align > src.align && addr as int % dst.align as int != 0
}

impl Region {
    /// Bytes covered when each element has layout `elem`.
    pub open spec fn byte_len(self, elem: Layout) -> int {
        self.len as int * elem.size as int
    }

    /// A slice with elements of layout `elem` may lie here: the start is
    /// aligned for `elem` and the bytes covered number at most `isize::MAX`.
    pub open spec fn holds(self, elem: Layout) -> bool {
        &&& elem.admits(self.addr)
        &&& self.byte_len(elem) <= isize::MAX as int
    }

    /// Tells whether a slice with elements of layout `elem` may lie here.
    pub fn fits(&self, elem: Layout) -> (r: bool)
        ensures
            r == self.holds(elem),
    {
        if elem.align == 0 || self.addr % elem.align != 0 {
            return false;
        }
        match self.len.checked_mul(elem.size) {
            Some(bytes) => bytes <= isize::MAX as usize,
            None => false,
        }
    }
}

} // verus!
