use vstd::prelude::*;

use crate::backend::{added, moved, zeros, Backend, Call, Memory};
use crate::layout::{Block, Layout};

verus! {

/// The single failure this allocator reports: the backend could not satisfy a request.
#[derive(Clone, Copy, Debug, PartialEq, Eq, Structural)]
pub struct AllocError;

/// The allocator handle. It holds no state: every instance stands for the same
/// backend, which the caller hands to each operation.
#[derive(Clone, Copy, Debug, PartialEq, Eq, Structural, Hash)]
pub struct Heap {}

/// The backend call that obtains a fresh block for `layout`.
pub open spec fn allocation_call(layout: Layout, zeroed: bool) -> Call {
    if zeroed {
        Call::AllocateZeroed { size: layout.size, align: layout.align }
    } else {
        Call::Allocate { size: layout.size, align: layout.align }
    }
}

/// The global `alloc` / `alloc_zeroed`: one backend call, its address passed on
/// as it came (0 on failure).
pub open spec fn alloc_post(pre: Memory, post: Memory, layout: Layout, zeroed: bool, r: usize) -> bool {
    &&& post.calls == pre.calls.push(allocation_call(layout, zeroed))
    &&& r == 0 ==> post.live == pre.live
    &&& r != 0 ==> added(pre.live, post.live, r, layout.size)
    &&& r != 0 && zeroed ==> post.live[r] == zeros(layout.size as nat)
}

/// The global `dealloc`: one backend call that releases the block.
pub open spec fn dealloc_post(pre: Memory, post: Memory, addr: usize, layout: Layout) -> bool {
    &&& post.calls == pre.calls.push(Call::Deallocate { addr, size: layout.size, align: layout.align })
    &&& post.live == pre.live.remove(addr)
}

/// The global `realloc`: one backend call, its address passed on as it came.
pub open spec fn realloc_post(pre: Memory, post: Memory, addr: usize, layout: Layout, new_size: usize, r: usize) -> bool {
    &&& post.calls == pre.calls.push(
        Call::Reallocate { addr, size: layout.size, align: layout.align, new_size },
    )
    &&& r == 0 ==> post.live == pre.live
    &&& r != 0 ==> moved(
        pre.live,
        post.live,
        addr,
        r,
        new_size,
        if layout.size <= new_size { layout.size as nat } else { new_size as nat },
    )
}

/// Allocation through the fine-grained interface: a zero-size layout yields the
/// dangling block and leaves the backend untouched; any other asks the backend once.
pub open spec fn allocate_post(pre: Memory, post: Memory, layout: Layout, zeroed: bool, r: Result<Block, AllocError>) -> bool {
    if layout.size == 0 {
        r == Ok::<Block, AllocError>(Block { addr: layout.dangling_addr(), len: 0 }) && post == pre
    } else {
        &&& post.calls == pre.calls.push(allocation_call(layout, zeroed))
        &&& match r {
            Ok(blk) => {
                &&& blk.len == layout.size
                &&& added(pre.live, post.live, blk.addr, layout.size)
                &&& zeroed ==> post.live[blk.addr] == zeros(layout.size as nat)
            },
            Err(_) => post.live == pre.live,
        }
    }
}

/// Releasing through the fine-grained interface: nothing for a zero-size
/// layout, else one backend call.
pub open spec fn deallocate_post(pre: Memory, post: Memory, addr: usize, layout: Layout) -> bool {
    if layout.size == 0 {
        post == pre
    } else {
        dealloc_post(pre, post, addr, layout)
    }
}

/// Growing the block at `addr` from `old_layout` to `new_layout`.
/// - From size 0 it is an allocation.
/// - At an unchanged alignment the backend resizes in place; with `zeroed`, exactly
///   the added bytes are cleared.
/// - Otherwise a fresh block is allocated, the old bytes copied over and the old
///   block released; if the allocation fails, nothing is released.
/// Whenever it succeeds the new block begins with the old block's bytes.
pub open spec fn grow_post(
    pre: Memory,
    post: Memory,
    addr: usize,
    old_layout: Layout,
    new_layout: Layout,
    zeroed: bool,
    r: Result<Block, AllocError>,
) -> bool {
    let old_size = old_layout.size;
    let new_size = new_layout.size;
    if old_size == 0 {
        allocate_post(pre, post, new_layout, zeroed, r)
    } else {
        &&& old_layout.align == new_layout.align ==> post.calls == pre.calls.push(
            Call::Reallocate { addr, size: old_size, align: old_layout.align, new_size },
        )
        &&& old_layout.align != new_layout.align ==> post.calls == match r {
            Ok(_) => pre.calls.push(allocation_call(new_layout, zeroed)).push(
                Call::Deallocate { addr, size: old_size, align: old_layout.align },
            ),
            Err(_) => pre.calls.push(allocation_call(new_layout, zeroed)),
        }
        &&& match r {
            Ok(blk) => {
                &&& blk.len == new_size
                &&& moved(pre.live, post.live, addr, blk.addr, new_size, old_size as nat)
                &&& old_layout.align != new_layout.align ==> blk.addr != addr
                &&& zeroed ==> post.live[blk.addr].skip(old_size as int) == zeros(
                    (new_size - old_size) as nat,
                )
            },
            Err(_) => post.live == pre.live,
        }
    }
}

/// Shrinking the block at `addr` from `old_layout` to `new_layout`.
/// - To size 0 it releases the block and yields the dangling block.
/// - At an unchanged alignment the backend resizes in place.
/// - Otherwise a fresh block is allocated, the kept bytes copied over and the old
///   block released; if the allocation fails, nothing is released.
/// Whenever it succeeds the new block holds the first bytes of the old one.
pub open spec fn shrink_post(
    pre: Memory,
    post: Memory,
    addr: usize,
    old_layout: Layout,
    new_layout: Layout,
    r: Result<Block, AllocError>,
) -> bool {
    let old_size = old_layout.size;
    let new_size = new_layout.size;
    if new_size == 0 {
        &&& r == Ok::<Block, AllocError>(Block { addr: new_layout.dangling_addr(), len: 0 })
        &&& deallocate_post(pre, post, addr, old_layout)
    } else {
        &&& old_layout.align == new_layout.align ==> post.calls == pre.calls.push(
            Call::Reallocate { addr, size: old_size, align: old_layout.align, new_size },
        )
        &&& old_layout.align != new_layout.align ==> post.calls == match r {
            Ok(_) => pre.calls.push(allocation_call(new_layout, false)).push(
                Call::Deallocate { addr, size: old_size, align: old_layout.align },
            ),
            Err(_) => pre.calls.push(allocation_call(new_layout, false)),
        }
        &&& match r {
            Ok(blk) => {
                &&& blk.len == new_size
                &&& moved(pre.live, post.live, addr, blk.addr, new_size, new_size as nat)
                &&& old_layout.align != new_layout.align ==> blk.addr != addr
            },
            Err(_) => post.live == pre.live,
        }
    }
}

/// The block at `addr` is live in `m` and has the size `layout` gives it.
pub open spec fn holds(m: Memory, addr: usize, layout: Layout) -> bool {
    m.live.contains_key(addr) && m.live[addr].len() == layout.size
}

impl Heap {
    pub fn new() -> (r: Heap)
        ensures
            r == (Heap {}),
    {
        Heap {}
    }

    /// Global interface: asks the backend for a block; 0 on failure.
    pub fn raw_alloc<B: Backend>(&self, backend: &mut B, layout: Layout) -> (r: usize)
        requires
            layout.wf(),
            layout.size > 0,
        ensures
            alloc_post(old(backend).memory(), final(backend).memory(), layout, false, r),
    {
        backend.allocate(layout.size, layout.align)
    }

    /// Global interface: asks the backend for a block of zero bytes; 0 on failure.
    pub fn raw_alloc_zeroed<B: Backend>(&self, backend: &mut B, layout: Layout) -> (r: usize)
        requires
            layout.wf(),
            layout.size > 0,
        ensures
            alloc_post(old(backend).memory(), final(backend).memory(), layout, true, r),
    {
        backend.allocate_zeroed(layout.size, layout.align)
    }

    /// Global interface: hands the block back to the backend.
    pub fn raw_dealloc<B: Backend>(&self, backend: &mut B, addr: usize, layout: Layout)
        requires
            layout.wf(),
            layout.size > 0,
            holds(old(backend).memory(), addr, layout),
        ensures
            dealloc_post(old(backend).memory(), final(backend).memory(), addr, layout),
    {
        backend.deallocate(addr, layout.size, layout.align)
    }

    /// Global interface: asks the backend to resize the block at its alignment;
    /// 0 on failure, the block then left as it was.
    pub fn raw_realloc<B: Backend>(&self, backend: &mut B, addr: usize, layout: Layout, new_size: usize) -> (r: usize)
        requires
            layout.wf(),
            layout.size > 0,
            new_size > 0,
            holds(old(backend).memory(), addr, layout),
        ensures
            realloc_post(old(backend).memory(), final(backend).memory(), addr, layout, new_size, r),
    {
        backend.reallocate(addr, layout.size, layout.align, new_size)
    }

    fn alloc_impl<B: Backend>(&self, backend: &mut B, layout: Layout, zeroed: bool) -> (r: Result<Block, AllocError>)
        requires
            layout.wf(),
        ensures
            allocate_post(old(backend).memory(), final(backend).memory(), layout, zeroed, r),
    {
        if layout.size == 0 {
            return Ok(layout.dangling());
        }
        let raw = if zeroed {
            self.raw_alloc_zeroed(backend, layout)
        } else {
            self.raw_alloc(backend, layout)
        };
        if raw == 0 {
            Err(AllocError)
        } else {
            Ok(Block { addr: raw, len: layout.size })
        }
    }

    /// Fine-grained interface: a block for `layout`, the dangling block for size 0.
    pub fn allocate<B: Backend>(&self, backend: &mut B, layout: Layout) -> (r: Result<Block, AllocError>)
        requires
            layout.wf(),
        ensures
            allocate_post(old(backend).memory(), final(backend).memory(), layout, false, r),
    {
        self.alloc_impl(backend, layout, false)
    }

    /// Fine-grained interface: a block of zero bytes for `layout`, the dangling
    /// block for size 0.
    pub fn allocate_zeroed<B: Backend>(&self, backend: &mut B, layout: Layout) -> (r: Result<Block, AllocError>)
        requires
            layout.wf(),
        ensures
            allocate_post(old(backend).memory(), final(backend).memory(), layout, true, r),
    {
        self.alloc_impl(backend, layout, true)
    }

    /// Fine-grained interface: releases a block; a zero-size one was never the
    /// backend's, so nothing happens.
    pub fn deallocate<B: Backend>(&self, backend: &mut B, addr: usize, layout: Layout)
        requires
            layout.wf(),
            layout.size > 0 ==> holds(old(backend).memory(), addr, layout),
        ensures
            deallocate_post(old(backend).memory(), final(backend).memory(), addr, layout),
    {
        if layout.size != 0 {
            self.raw_dealloc(backend, addr, layout);
        }
    }

    fn grow_impl<B: Backend>(
        &self,
        backend: &mut B,
        addr: usize,
        old_layout: Layout,
        new_layout: Layout,
        zeroed: bool,
    ) -> (r: Result<Block, AllocError>)
        requires
            old_layout.wf(),
            new_layout.wf(),
            new_layout.size >= old_layout.size,
            old_layout.size > 0 ==> holds(old(backend).memory(), addr, old_layout),
        ensures
            grow_post(old(backend).memory(), final(backend).memory(), addr, old_layout, new_layout, zeroed, r),
    {
        let old_size = old_layout.size;
        let new_size = new_layout.size;
        if old_size == 0 {
            return self.alloc_impl(backend, new_layout, zeroed);
        }
        let ghost pre = backend.memory();
        if old_layout.align == new_layout.align {
            let raw = self.raw_realloc(backend, addr, old_layout, new_size);
            if raw == 0 {
                return Err(AllocError);
            }
            let ghost mid = backend.memory();
            if zeroed {
                backend.write_zeros(raw, old_size, new_size - old_size);
                proof {
                    let post = backend.memory();
                    assert(post.live[raw].take(old_size as int) =~= mid.live[raw].take(old_size as int));
                    assert(post.live[raw].skip(old_size as int) =~= zeros((new_size - old_size) as nat));
                    assert(post.live.remove(raw) =~= mid.live.remove(raw));
                }
            }
            Ok(Block { addr: raw, len: new_size })
        } else {
            let new = match self.alloc_impl(backend, new_layout, zeroed) {
                Ok(blk) => blk,
                Err(e) => {
                    return Err(e);
                },
            };
            let ghost fresh = backend.memory();
            backend.copy_nonoverlapping(addr, new.addr, old_size);
            let ghost copied = backend.memory();
            self.deallocate(backend, addr, old_layout);
            proof {
                let post = backend.memory();
                assert(post.live[new.addr] == copied.live[new.addr]);
                assert(post.live[new.addr].take(old_size as int) =~= pre.live[addr].take(old_size as int));
                if zeroed {
                    assert(post.live[new.addr].skip(old_size as int) =~= fresh.live[new.addr].skip(old_size as int));
                    assert(post.live[new.addr].skip(old_size as int) =~= zeros((new_size - old_size) as nat));
                }
                assert(post.live.remove(new.addr) =~= pre.live.remove(addr));
            }
            Ok(new)
        }
    }

    /// Fine-grained interface: grows a block, keeping its bytes.
    pub fn grow<B: Backend>(&self, backend: &mut B, addr: usize, old_layout: Layout, new_layout: Layout) -> (r: Result<Block, AllocError>)
        requires
            old_layout.wf(),
            new_layout.wf(),
            new_layout.size >= old_layout.size,
            old_layout.size > 0 ==> holds(old(backend).memory(), addr, old_layout),
        ensures
            grow_post(old(backend).memory(), final(backend).memory(), addr, old_layout, new_layout, false, r),
    {
        self.grow_impl(backend, addr, old_layout, new_layout, false)
    }

    /// Fine-grained interface: grows a block, keeping its bytes and clearing the
    /// added ones.
    pub fn grow_zeroed<B: Backend>(&self, backend: &mut B, addr: usize, old_layout: Layout, new_layout: Layout) -> (r: Result<Block, AllocError>)
        requires
            old_layout.wf(),
            new_layout.wf(),
            new_layout.size >= old_layout.size,
            old_layout.size > 0 ==> holds(old(backend).memory(), addr, old_layout),
        ensures
            grow_post(old(backend).memory(), final(backend).memory(), addr, old_layout, new_layout, true, r),
    {
        self.grow_impl(backend, addr, old_layout, new_layout, true)
    }

    /// Fine-grained interface: shrinks a block, keeping its first bytes.
    pub fn shrink<B: Backend>(&self, backend: &mut B, addr: usize, old_layout: Layout, new_layout: Layout) -> (r: Result<Block, AllocError>)
        requires
            old_layout.wf(),
            new_layout.wf(),
            new_layout.size <= old_layout.size,
            old_layout.size > 0 ==> holds(old(backend).memory(), addr, old_layout),
        ensures
            shrink_post(old(backend).memory(), final(backend).memory(), addr, old_layout, new_layout, r),
    {
        let new_size = new_layout.size;
        if new_size == 0 {
            self.deallocate(backend, addr, old_layout);
            return Ok(new_layout.dangling());
        }
        let ghost pre = backend.memory();
        if old_layout.align == new_layout.align {
            let raw = self.raw_realloc(backend, addr, old_layout, new_size);
            if raw == 0 {
                return Err(AllocError);
            }
            Ok(Block { addr: raw, len: new_size })
        } else {
            let new = match self.allocate(backend, new_layout) {
                Ok(blk) => blk,
                Err(e) => {
                    return Err(e);
                },
            };
            backend.copy_nonoverlapping(addr, new.addr, new_size);
            let ghost copied = backend.memory();
            self.deallocate(backend, addr, old_layout);
            proof {
                let post = backend.memory();
                assert(post.live[new.addr] == copied.live[new.addr]);
                assert(post.live[new.addr].take(new_size as int) =~= pre.live[addr].take(new_size as int));
                assert(post.live.remove(new.addr) =~= pre.live.remove(addr));
            }
            Ok(new)
        }
    }
}

} // verus!
