use vstd::prelude::*;

use crate::backend::{added, zeros, Backend, Call, Memory};

verus! {

/// The live blocks of an arena: slot `i`, when filled, is the block at address `i + 1`.
pub open spec fn live_of(slots: Seq<Option<Vec<u8>>>) -> Map<usize, Seq<u8>> {
    Map::new(
        |a: usize| 1 <= a <= slots.len() && slots[a - 1] is Some,
        |a: usize| slots[a - 1]->Some_0@,
    )
}

/// A backend that keeps each block in memory it owns, for exercising the
/// allocator deterministically. It refuses any allocation once `max_blocks`
/// blocks have been handed out, fills fresh non-zeroed blocks with `FILL`, and
/// records every call it receives.
pub struct Arena {
    slots: Vec<Option<Vec<u8>>>,
    max_blocks: usize,
    log: Vec<Call>,
}

/// The byte that fresh blocks hold when no zeroing was asked for.
pub const FILL: u8 = 0xAA;

/// `n` copies of `b`.
pub open spec fn repeat(b: u8, n: nat) -> Seq<u8> {
    Seq::new(n, |i: int| b)
}

fn filled(b: u8, n: usize) -> (r: Vec<u8>)
    ensures
        r@ == repeat(b, n as nat),
{
    let mut v: Vec<u8> = Vec::new();
    let mut i: usize = 0;
    while i < n
        invariant
            i <= n,
            v@ == repeat(b, i as nat),
        decreases n - i,
    {
        v.push(b);
        i = i + 1;
        assert(v@ =~= repeat(b, i as nat));
    }
    v
}

impl Arena {
    pub closed spec fn max_blocks_spec(&self) -> usize {
        self.max_blocks
    }

    /// An empty arena that hands out at most `max_blocks` blocks over its life.
    pub fn new(max_blocks: usize) -> (r: Arena)
        ensures
            r.memory().live == Map::<usize, Seq<u8>>::empty(),
            r.memory().calls == Seq::<Call>::empty(),
            r.max_blocks_spec() == max_blocks,
    {
        let r = Arena { slots: Vec::new(), max_blocks, log: Vec::new() };
        assert(r.memory().live =~= Map::<usize, Seq<u8>>::empty());
        r
    }

    /// The calls received so far, oldest first.
    pub fn calls(&self) -> (r: &Vec<Call>)
        ensures
            r@ == self.memory().calls,
    {
        &self.log
    }

    /// The bytes of the live block at `addr`, or `None` where no block is live.
    pub fn contents(&self, addr: usize) -> (r: Option<Vec<u8>>)
        ensures
            r is Some <==> self.memory().live.contains_key(addr),
            r is Some ==> r->Some_0@ == self.memory().live[addr],
    {
        if addr == 0 || addr > self.slots.len() {
            return None;
        }
        match &self.slots[addr - 1] {
            Some(v) => Some(v.clone()),
            None => None,
        }
    }

    /// Overwrites the bytes of the live block at `addr` with `data`, which must
    /// have the block's length; returns whether it did.
    pub fn store(&mut self, addr: usize, data: Vec<u8>) -> (r: bool)
        ensures
            r <==> (old(self).memory().live.contains_key(addr) && old(self).memory().live[addr].len()
                == data@.len()),
            r ==> final(self).memory().live == old(self).memory().live.insert(addr, data@),
            !r ==> final(self).memory().live == old(self).memory().live,
            final(self).memory().calls == old(self).memory().calls,
            final(self).max_blocks_spec() == old(self).max_blocks_spec(),
    {
        if addr == 0 || addr > self.slots.len() {
            return false;
        }
        let len = match &self.slots[addr - 1] {
            Some(v) => v.len(),
            None => {
                return false;
            },
        };
        if len != data.len() {
            return false;
        }
        self.slots.set(addr - 1, Some(data));
        assert(self.memory().live =~= old(self).memory().live.insert(addr, data@));
        true
    }

    fn take_fresh(&mut self, size: usize, b: u8) -> (r: usize)
        ensures
            final(self).memory().calls == old(self).memory().calls,
            final(self).max_blocks_spec() == old(self).max_blocks_spec(),
            r == 0 ==> final(self).memory().live == old(self).memory().live,
            r != 0 ==> added(old(self).memory().live, final(self).memory().live, r, size),
            r != 0 ==> final(self).memory().live[r] == repeat(b, size as nat),
    {
        let n = self.slots.len();
        if n >= self.max_blocks || n >= usize::MAX - 1 {
            return 0;
        }
        let v = filled(b, size);
        self.slots.push(Some(v));
        let addr = n + 1;
        assert(self.memory().live.remove(addr) =~= old(self).memory().live);
        addr
    }

    /// The bytes of the live block at `addr`, which exists.
    fn block(&self, addr: usize) -> (r: &Vec<u8>)
        requires
            self.memory().live.contains_key(addr),
        ensures
            r@ == self.memory().live[addr],
    {
        self.slots[addr - 1].as_ref().unwrap()
    }

    /// Puts `v` in the slot of the live block at `addr`.
    fn replace(&mut self, addr: usize, v: Vec<u8>)
        requires
            old(self).memory().live.contains_key(addr),
        ensures
            final(self).memory().live == old(self).memory().live.insert(addr, v@),
            final(self).memory().calls == old(self).memory().calls,
            final(self).max_blocks_spec() == old(self).max_blocks_spec(),
    {
        self.slots.set(addr - 1, Some(v));
        assert(self.memory().live =~= old(self).memory().live.insert(addr, v@));
    }
}

/// The first `n` bytes of `front` followed by the bytes of `back` from `n` on.
fn spliced(front: &Vec<u8>, back: &Vec<u8>, n: usize) -> (r: Vec<u8>)
    requires
        n <= front@.len(),
        n <= back@.len(),
    ensures
        r@ == front@.take(n as int) + back@.skip(n as int),
{
    let mut v: Vec<u8> = Vec::new();
    let mut k: usize = 0;
    while k < back.len()
        invariant
            k <= back@.len(),
            n <= front@.len(),
            n <= back@.len(),
            v@.len() == k,
            forall|j: int| 0 <= j < k ==> v@[j] == (if j < n { front@[j] } else { back@[j] }),
        decreases back@.len() - k,
    {
        if k < n {
            v.push(front[k]);
        } else {
            v.push(back[k]);
        }
        k = k + 1;
    }
    assert(v@ =~= front@.take(n as int) + back@.skip(n as int));
    v
}

/// `a` with the `n` bytes from `start` set to zero.
fn cleared(a: &Vec<u8>, start: usize, n: usize) -> (r: Vec<u8>)
    requires
        start + n <= a@.len(),
    ensures
        r@ == a@.take(start as int) + zeros(n as nat) + a@.skip(start + n),
{
    let mut v: Vec<u8> = Vec::new();
    let mut k: usize = 0;
    while k < a.len()
        invariant
            k <= a@.len(),
            start + n <= a@.len(),
            v@.len() == k,
            forall|j: int|
                0 <= j < k ==> v@[j] == (if start <= j < start + n { 0u8 } else { a@[j] }),
        decreases a@.len() - k,
    {
        if start <= k && k < start + n {
            v.push(0u8);
        } else {
            v.push(a[k]);
        }
        k = k + 1;
    }
    assert(v@ =~= a@.take(start as int) + zeros(n as nat) + a@.skip(start + n));
    v
}

/// `a` cut or extended with zero bytes to `n` bytes.
fn resized(a: &Vec<u8>, n: usize) -> (r: Vec<u8>)
    ensures
        r@.len() == n,
        forall|j: int| 0 <= j < n && j < a@.len() ==> r@[j] == a@[j],
{
    let mut v: Vec<u8> = Vec::new();
    let mut k: usize = 0;
    while k < n
        invariant
            k <= n,
            v@.len() == k,
            forall|j: int| 0 <= j < k && j < a@.len() ==> v@[j] == a@[j],
        decreases n - k,
    {
        if k < a.len() {
            v.push(a[k]);
        } else {
            v.push(0u8);
        }
        k = k + 1;
    }
    v
}

impl Backend for Arena {
    closed spec fn memory(&self) -> Memory {
        Memory { live: live_of(self.slots@), calls: self.log@ }
    }

    fn allocate(&mut self, size: usize, align: usize) -> (r: usize) {
        self.log.push(Call::Allocate { size, align });
        self.take_fresh(size, FILL)
    }

    fn allocate_zeroed(&mut self, size: usize, align: usize) -> (r: usize) {
        self.log.push(Call::AllocateZeroed { size, align });
        let r = self.take_fresh(size, 0u8);
        assert(r != 0 ==> repeat(0u8, size as nat) =~= zeros(size as nat));
        r
    }

    fn reallocate(&mut self, addr: usize, size: usize, align: usize, new_size: usize) -> (r: usize) {
        self.log.push(Call::Reallocate { addr, size, align, new_size });
        let v = resized(self.block(addr), new_size);
        let ghost pre = self.memory().live;
        self.replace(addr, v);
        proof {
            let kept: int = if size <= new_size { size as int } else { new_size as int };
            assert(self.memory().live[addr].take(kept) =~= pre[addr].take(kept));
            assert(self.memory().live.remove(addr) =~= pre.remove(addr));
        }
        addr
    }

    fn deallocate(&mut self, addr: usize, size: usize, align: usize) {
        self.log.push(Call::Deallocate { addr, size, align });
        self.slots.set(addr - 1, None);
        assert(self.memory().live =~= old(self).memory().live.remove(addr));
    }

    fn copy_nonoverlapping(&mut self, src: usize, dst: usize, n: usize) {
        let v = spliced(self.block(src), self.block(dst), n);
        self.replace(dst, v);
    }

    fn write_zeros(&mut self, addr: usize, start: usize, n: usize) {
        let v = cleared(self.block(addr), start, n);
        self.replace(addr, v);
    }
}

} // verus!
