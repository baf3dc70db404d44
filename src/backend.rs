use vstd::prelude::*;

verus! {

/// One call that reached the backend's four primitives.
#[derive(Clone, Copy, Debug, PartialEq, Eq, Structural)]
pub enum Call {
    Allocate { size: usize, align: usize },
    AllocateZeroed { size: usize, align: usize },
    Reallocate { addr: usize, size: usize, align: usize, new_size: usize },
    Deallocate { addr: usize, size: usize, align: usize },
}

/// What a backend is, seen from outside: the blocks it holds live, each with
/// its bytes, and the calls it has received so far.
pub ghost struct Memory {
    pub live: Map<usize, Seq<u8>>,
    pub calls: Seq<Call>,
}

/// `n` zero bytes.
pub open spec fn zeros(n: nat) -> Seq<u8> {
    Seq::new(n, |i: int| 0u8)
}

/// `post` holds one block more than `pre`, at a fresh non-null address `addr`,
/// with `size` bytes.
pub open spec fn added(pre: Map<usize, Seq<u8>>, post: Map<usize, Seq<u8>>, addr: usize, size: usize) -> bool {
    &&& addr != 0
    &&& !pre.contains_key(addr)
    &&& post.contains_key(addr)
    &&& post.remove(addr) == pre
    &&& post[addr].len() == size
}

/// `post` holds the blocks of `pre`, but the one at `from` now stands at `to`
/// (which is `from` or was not live) with `size` bytes, of which the first
/// `kept` are those it had.
pub open spec fn moved(
    pre: Map<usize, Seq<u8>>,
    post: Map<usize, Seq<u8>>,
    from: usize,
    to: usize,
    size: usize,
    kept: nat,
) -> bool {
    &&& to != 0
    &&& to == from || !pre.contains_key(to)
    &&& post.contains_key(to)
    &&& post.remove(to) == pre.remove(from)
    &&& post[to].len() == size
    &&& post[to].take(kept as int) == pre[from].take(kept as int)
}

/// The native allocation primitives, reached through four calls, together with
/// the two accesses to a block's bytes that resizing needs.
pub trait Backend {
    spec fn memory(&self) -> Memory;

    /// A block of `size` bytes with unspecified contents; 0 on failure.
    fn allocate(&mut self, size: usize, align: usize) -> (r: usize)
        requires
            size > 0,
        ensures
            final(self).memory().calls == old(self).memory().calls.push(Call::Allocate { size, align }),
            r == 0 ==> final(self).memory().live == old(self).memory().live,
            r != 0 ==> added(old(self).memory().live, final(self).memory().live, r, size),
    ;

    /// A block of `size` zero bytes; 0 on failure.
    fn allocate_zeroed(&mut self, size: usize, align: usize) -> (r: usize)
        requires
            size > 0,
        ensures
            final(self).memory().calls == old(self).memory().calls.push(
                Call::AllocateZeroed { size, align },
            ),
            r == 0 ==> final(self).memory().live == old(self).memory().live,
            r != 0 ==> added(old(self).memory().live, final(self).memory().live, r, size),
            r != 0 ==> final(self).memory().live[r] == zeros(size as nat),
    ;

    /// Resizes the live block at `addr` from `size` to `new_size` bytes at the
    /// same alignment, keeping the bytes both sizes share; 0 on failure, which
    /// leaves the block as it was.
    fn reallocate(&mut self, addr: usize, size: usize, align: usize, new_size: usize) -> (r: usize)
        requires
            size > 0,
            new_size > 0,
            old(self).memory().live.contains_key(addr),
            old(self).memory().live[addr].len() == size,
        ensures
            final(self).memory().calls == old(self).memory().calls.push(
                Call::Reallocate { addr, size, align, new_size },
            ),
            r == 0 ==> final(self).memory().live == old(self).memory().live,
            r != 0 ==> moved(
                old(self).memory().live,
                final(self).memory().live,
                addr,
                r,
                new_size,
                if size <= new_size { size as nat } else { new_size as nat },
            ),
    ;

    /// Releases the live block at `addr`.
    fn deallocate(&mut self, addr: usize, size: usize, align: usize)
        requires
            size > 0,
            old(self).memory().live.contains_key(addr),
            old(self).memory().live[addr].len() == size,
        ensures
            final(self).memory().calls == old(self).memory().calls.push(
                Call::Deallocate { addr, size, align },
            ),
            final(self).memory().live == old(self).memory().live.remove(addr),
    ;

    /// Copies the first `n` bytes of the block at `src` over the first `n`
    /// bytes of the distinct block at `dst`.
    fn copy_nonoverlapping(&mut self, src: usize, dst: usize, n: usize)
        requires
            src != dst,
            old(self).memory().live.contains_key(src),
            old(self).memory().live.contains_key(dst),
            n <= old(self).memory().live[src].len(),
            n <= old(self).memory().live[dst].len(),
        ensures
            final(self).memory().calls == old(self).memory().calls,
            final(self).memory().live == old(self).memory().live.insert(
                dst,
                old(self).memory().live[src].take(n as int) + old(self).memory().live[dst].skip(
                    n as int,
                ),
            ),
    ;

    /// Sets the `n` bytes from offset `start` of the block at `addr` to zero.
    fn write_zeros(&mut self, addr: usize, start: usize, n: usize)
        requires
            old(self).memory().live.contains_key(addr),
            start + n <= old(self).memory().live[addr].len(),
        ensures
            final(self).memory().calls == old(self).memory().calls,
            final(self).memory().live == old(self).memory().live.insert(
                addr,
                old(self).memory().live[addr].take(start as int) + zeros(n as nat)
                    + old(self).memory().live[addr].skip(start + n),
            ),
    ;
}

} // verus!
