use vstd::prelude::*;

use crate::backend::{Call, Memory};
use crate::heap::{
    alloc_post, allocate_post, allocation_call, dealloc_post, deallocate_post, grow_post, holds,
    shrink_post, AllocError,
};
use crate::layout::{Block, Layout};

verus! {

/// No call appended to `pre`'s calls in `post` releases a block.
pub open spec fn releases_nothing(pre: Memory, post: Memory) -> bool {
    forall|i: int| pre.calls.len() <= i < post.calls.len() ==> !(#[trigger] post.calls[i] is Deallocate)
}

/// Allocating a zero-size layout yields a non-null block of length 0 at the
/// dangling address, and releasing that block again is a no-op: neither step
/// reaches the backend.
pub proof fn lemma_zero_size_round_trip(
    m0: Memory,
    m1: Memory,
    m2: Memory,
    layout: Layout,
    zeroed: bool,
    r: Result<Block, AllocError>,
)
    requires
        layout.wf(),
        layout.size == 0,
        allocate_post(m0, m1, layout, zeroed, r),
        deallocate_post(m1, m2, r->Ok_0.addr, layout),
    ensures
        r is Ok,
        r->Ok_0 == (Block { addr: layout.dangling_addr(), len: 0 }),
        r->Ok_0.addr != 0,
        m1 == m0,
        m2 == m0,
{
}

/// Growing at an unchanged alignment keeps the old bytes in front of the new
/// block and, when zeroing was asked for, clears exactly the added bytes; the
/// backend sees one resize and nothing else.
pub proof fn lemma_grow_in_place_keeps_contents(
    pre: Memory,
    post: Memory,
    addr: usize,
    old_layout: Layout,
    new_layout: Layout,
    zeroed: bool,
    r: Result<Block, AllocError>,
)
    requires
        old_layout.wf(),
        new_layout.wf(),
        0 < old_layout.size <= new_layout.size,
        old_layout.align == new_layout.align,
        holds(pre, addr, old_layout),
        grow_post(pre, post, addr, old_layout, new_layout, zeroed, r),
        r is Ok,
    ensures
        post.calls == pre.calls.push(
            Call::Reallocate {
                addr,
                size: old_layout.size,
                align: old_layout.align,
                new_size: new_layout.size,
            },
        ),
        post.live.contains_key(r->Ok_0.addr),
        post.live[r->Ok_0.addr].len() == new_layout.size,
        post.live[r->Ok_0.addr].take(old_layout.size as int) == pre.live[addr],
        zeroed ==> forall|i: int|
            old_layout.size <= i < new_layout.size ==> #[trigger] post.live[r->Ok_0.addr][i] == 0,
{
    let c = post.live[r->Ok_0.addr];
    assert(pre.live[addr].take(old_layout.size as int) =~= pre.live[addr]);
    if zeroed {
        assert forall|i: int| old_layout.size <= i < new_layout.size implies #[trigger] c[i] == 0 by {
            assert(c[i] == c.skip(old_layout.size as int)[i - old_layout.size]);
        }
    }
}

/// Growing to another alignment copies the old bytes to the front of a fresh
/// block and releases the old block exactly once.
pub proof fn lemma_grow_by_copy_keeps_contents(
    pre: Memory,
    post: Memory,
    addr: usize,
    old_layout: Layout,
    new_layout: Layout,
    zeroed: bool,
    r: Result<Block, AllocError>,
)
    requires
        old_layout.wf(),
        new_layout.wf(),
        0 < old_layout.size <= new_layout.size,
        old_layout.align != new_layout.align,
        holds(pre, addr, old_layout),
        grow_post(pre, post, addr, old_layout, new_layout, zeroed, r),
        r is Ok,
    ensures
        r->Ok_0.addr != addr,
        post.live.contains_key(r->Ok_0.addr),
        post.live[r->Ok_0.addr].len() == new_layout.size,
        post.live[r->Ok_0.addr].take(old_layout.size as int) == pre.live[addr],
        !post.live.contains_key(addr),
        post.calls == pre.calls + seq![
            allocation_call(new_layout, zeroed),
            Call::Deallocate { addr, size: old_layout.size, align: old_layout.align },
        ],
{
    assert(pre.live[addr].take(old_layout.size as int) =~= pre.live[addr]);
    assert(post.live.remove(r->Ok_0.addr).contains_key(addr) == post.live.contains_key(addr));
    assert(post.calls =~= pre.calls + seq![
        allocation_call(new_layout, zeroed),
        Call::Deallocate { addr, size: old_layout.size, align: old_layout.align },
    ]);
}

/// Shrinking a live block to size 0 releases it and yields the dangling block;
/// the only backend call is that release.
pub proof fn lemma_shrink_to_zero(
    pre: Memory,
    post: Memory,
    addr: usize,
    old_layout: Layout,
    new_layout: Layout,
    r: Result<Block, AllocError>,
)
    requires
        old_layout.wf(),
        new_layout.wf(),
        old_layout.size > 0,
        new_layout.size == 0,
        holds(pre, addr, old_layout),
        shrink_post(pre, post, addr, old_layout, new_layout, r),
    ensures
        r == Ok::<Block, AllocError>(Block { addr: new_layout.dangling_addr(), len: 0 }),
        post.live == pre.live.remove(addr),
        post.calls == pre.calls.push(
            Call::Deallocate { addr, size: old_layout.size, align: old_layout.align },
        ),
        forall|i: int|
            pre.calls.len() <= i < post.calls.len() ==> !(#[trigger] post.calls[i] is Reallocate),
{
}

/// A grow that fails leaves every block, the source included, as it was, and
/// releases nothing.
pub proof fn lemma_failed_grow_keeps_source(
    pre: Memory,
    post: Memory,
    addr: usize,
    old_layout: Layout,
    new_layout: Layout,
    zeroed: bool,
    r: Result<Block, AllocError>,
)
    requires
        old_layout.wf(),
        new_layout.wf(),
        0 < old_layout.size <= new_layout.size,
        holds(pre, addr, old_layout),
        grow_post(pre, post, addr, old_layout, new_layout, zeroed, r),
        r is Err,
    ensures
        post.live == pre.live,
        holds(post, addr, old_layout),
        post.live[addr] == pre.live[addr],
        releases_nothing(pre, post),
{
}

/// A shrink that fails leaves every block, the source included, as it was, and
/// releases nothing.
pub proof fn lemma_failed_shrink_keeps_source(
    pre: Memory,
    post: Memory,
    addr: usize,
    old_layout: Layout,
    new_layout: Layout,
    r: Result<Block, AllocError>,
)
    requires
        old_layout.wf(),
        new_layout.wf(),
        new_layout.size <= old_layout.size,
        old_layout.size > 0,
        holds(pre, addr, old_layout),
        shrink_post(pre, post, addr, old_layout, new_layout, r),
        r is Err,
    ensures
        post.live == pre.live,
        holds(post, addr, old_layout),
        post.live[addr] == pre.live[addr],
        releases_nothing(pre, post),
{
}

/// `raw_alloc` followed by `raw_dealloc` of the block it gave, with the same
/// layout, reaches the backend exactly twice, once to allocate and once to
/// release, and leaves the live blocks as they were.
pub proof fn lemma_alloc_then_dealloc(
    m0: Memory,
    m1: Memory,
    m2: Memory,
    layout: Layout,
    addr: usize,
)
    requires
        layout.wf(),
        layout.size > 0,
        alloc_post(m0, m1, layout, false, addr),
        addr != 0,
        dealloc_post(m1, m2, addr, layout),
    ensures
        m2.calls == m0.calls + seq![
            Call::Allocate { size: layout.size, align: layout.align },
            Call::Deallocate { addr, size: layout.size, align: layout.align },
        ],
        m2.live == m0.live,
{
    assert(m2.calls =~= m0.calls + seq![
        Call::Allocate { size: layout.size, align: layout.align },
        Call::Deallocate { addr, size: layout.size, align: layout.align },
    ]);
    assert(m2.live =~= m0.live);
}

} // verus!
