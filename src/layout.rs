use vstd::prelude::*;

verus! {

/// A power of two, written the way the bit pattern shows it: exactly one bit set.
pub open spec fn is_power_of_two(n: usize) -> bool {
    n != 0 && n & ((n - 1) as usize) == 0
}

/// A memory request: a size in bytes, possibly zero, and a power-of-two alignment.
#[derive(Clone, Copy, Debug, PartialEq, Eq, Structural)]
pub struct Layout {
    pub size: usize,
    pub align: usize,
}

impl Layout {
    /// Valid layouts: the alignment is a power of two and the size, rounded up
    /// to the alignment, still fits in a `usize`.
    pub open spec fn wf(self) -> bool {
        &&& is_power_of_two(self.align)
        &&& self.size <= usize::MAX - (self.align - 1)
    }

    /// Builds a layout, refusing an alignment that is not a power of two and a
    /// size that would overflow once rounded up to it.
    pub fn from_size_align(size: usize, align: usize) -> (r: Option<Layout>)
        ensures
            r is Some <==> (Layout { size, align }).wf(),
            r is Some ==> r->Some_0 == (Layout { size, align }),
    {
        if align == 0 || align & (align - 1) != 0 {
            return None;
        }
        if size > usize::MAX - (align - 1) {
            return None;
        }
        Some(Layout { size, align })
    }

    /// The address a zero-length block of this layout stands at: non-null and
    /// aligned, never dereferenced and never handed back to a backend.
    pub open spec fn dangling_addr(self) -> usize {
        self.align
    }

    pub fn dangling(&self) -> (r: Block)
        ensures
            r == (Block { addr: self.dangling_addr(), len: 0 }),
    {
        Block { addr: self.align, len: 0 }
    }
}

/// A successful allocation: a non-null address and the number of usable bytes there.
#[derive(Clone, Copy, Debug, PartialEq, Eq, Structural)]
pub struct Block {
    pub addr: usize,
    pub len: usize,
}

} // verus!
