//! A bump-pointer allocator's arithmetic for a single-core system: round
//! the head up to the alignment boundary, hand out the block, and never
//! free. The unsafe global-allocator plumbing lives outside this crate;
//! this is the decision of where a block goes.

use vstd::prelude::*;

verus! {

/// `h` rounded up to the next multiple of `a`.
pub open spec fn spec_align_up(h: int, a: int) -> int
    recommends
        a >= 1,
{
    ((h + a - 1) / a) * a
}

/// Rounding up lands on a multiple of the alignment, at or above the
/// start, and less than one alignment above it.
pub proof fn lemma_align_up(h: int, a: int)
    requires
        h >= 0,
        a >= 1,
    ensures
        spec_align_up(h, a) % a == 0,
        h <= spec_align_up(h, a) <= h + a - 1,
{
    let x = h + a - 1;
    vstd::arithmetic::div_mod::lemma_fundamental_div_mod(x, a);
    vstd::arithmetic::div_mod::lemma_mod_bound(x, a);
    vstd::arithmetic::div_mod::lemma_mod_multiples_basic(x / a, a);
    assert(a * (x / a) == (x / a) * a) by (nonlinear_arith);
}

/// The allocator: a bump pointer between `head` and `end`.
#[derive(Debug, Clone, Copy, PartialEq, Eq, Structural)]
pub struct BumpPointerAlloc {
    pub head: usize,
    pub end: usize,
}

impl BumpPointerAlloc {
    /// Hands out `size` bytes at the next `align`-aligned address, or
    /// nothing when the arena is exhausted (the caller signals
    /// out-of-memory). Nothing is ever deallocated.
    pub fn allocate(&mut self, size: usize, align: usize) -> (r: Option<usize>)
        requires
            align >= 1,
            old(self).head + align <= usize::MAX,
        ensures
            ({
                let start = spec_align_up(old(self).head as int, align as int);
                if start + size > old(self).end {
                    r is None && *final(self) == *old(self)
                } else {
                    &&& r == Some(start as usize)
                    &&& start % (align as int) == 0
                    &&& old(self).head <= start
                    &&& final(self).head == start + size
                    &&& final(self).end == old(self).end
                }
            }),
    {
        proof {
            lemma_align_up(self.head as int, align as int);
        }
        let head = self.head;
        let start = ((head + align - 1) / align) * align;
        proof {
            assert(((head + align - 1) as int / align as int) * align as int == spec_align_up(
                head as int,
                align as int,
            )) by (nonlinear_arith)
                requires
                    align >= 1,
                    head + align <= usize::MAX,
            ;
        }
        if start > self.end || size > self.end - start {
            None
        } else {
            self.head = start + size;
            Some(start)
        }
    }
}

} // verus!
