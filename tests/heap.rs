use cheap_heap::{AllocError, Arena, Block, Call, Heap, Layout, FILL};

fn layout(size: usize, align: usize) -> Layout {
    Layout::from_size_align(size, align).unwrap()
}

fn pattern(n: usize) -> Vec<u8> {
    (0..n).map(|i| (i as u8).wrapping_mul(7).wrapping_add(3)).collect()
}

fn allocate_with(arena: &mut Arena, l: Layout, data: &[u8]) -> usize {
    let heap = Heap::new();
    let b = heap.allocate(arena, l).unwrap();
    assert!(arena.store(b.addr, data.to_vec()));
    b.addr
}

#[test]
fn new_heaps_are_interchangeable() {
    assert_eq!(Heap::new(), Heap::new());
}

#[test]
fn layout_accepts_powers_of_two() {
    assert_eq!(Layout::from_size_align(24, 8), Some(Layout { size: 24, align: 8 }));
    assert_eq!(Layout::from_size_align(0, 1), Some(Layout { size: 0, align: 1 }));
}

#[test]
fn layout_refuses_bad_alignment() {
    assert_eq!(Layout::from_size_align(8, 0), None);
    assert_eq!(Layout::from_size_align(8, 3), None);
    assert_eq!(Layout::from_size_align(8, 12), None);
}

#[test]
fn layout_refuses_size_overflowing_alignment() {
    assert_eq!(Layout::from_size_align(usize::MAX, 2), None);
    assert_eq!(Layout::from_size_align(usize::MAX - 1, 2), Some(Layout { size: usize::MAX - 1, align: 2 }));
}

#[test]
fn dangling_block_stands_at_alignment() {
    assert_eq!(layout(0, 64).dangling(), Block { addr: 64, len: 0 });
}

#[test]
fn zero_size_round_trip_never_reaches_backend() {
    let heap = Heap::new();
    let mut arena = Arena::new(4);
    for align in [1usize, 2, 8, 4096] {
        let l = layout(0, align);
        let b = heap.allocate(&mut arena, l).unwrap();
        assert_eq!(b, Block { addr: align, len: 0 });
        heap.deallocate(&mut arena, b.addr, l);
        let z = heap.allocate_zeroed(&mut arena, l).unwrap();
        assert_eq!(z, Block { addr: align, len: 0 });
        heap.deallocate(&mut arena, z.addr, l);
    }
    assert!(arena.calls().is_empty());
}

#[test]
fn allocate_asks_backend_once() {
    let heap = Heap::new();
    let mut arena = Arena::new(4);
    let b = heap.allocate(&mut arena, layout(5, 4)).unwrap();
    assert_eq!(b.len, 5);
    assert_ne!(b.addr, 0);
    assert_eq!(arena.contents(b.addr), Some(vec![FILL; 5]));
    assert_eq!(arena.calls().clone(), vec![Call::Allocate { size: 5, align: 4 }]);
}

#[test]
fn allocate_zeroed_gives_zero_bytes() {
    let heap = Heap::new();
    let mut arena = Arena::new(4);
    let b = heap.allocate_zeroed(&mut arena, layout(6, 2)).unwrap();
    assert_eq!(b.len, 6);
    assert_eq!(arena.contents(b.addr), Some(vec![0u8; 6]));
    assert_eq!(arena.calls().clone(), vec![Call::AllocateZeroed { size: 6, align: 2 }]);
}

#[test]
fn allocate_fails_when_backend_is_full() {
    let heap = Heap::new();
    let mut arena = Arena::new(1);
    assert!(heap.allocate(&mut arena, layout(4, 4)).is_ok());
    assert_eq!(heap.allocate(&mut arena, layout(4, 4)), Err(AllocError));
    assert_eq!(heap.allocate_zeroed(&mut arena, layout(4, 4)), Err(AllocError));
}

#[test]
fn deallocate_releases_block() {
    let heap = Heap::new();
    let mut arena = Arena::new(4);
    let l = layout(3, 1);
    let b = heap.allocate(&mut arena, l).unwrap();
    heap.deallocate(&mut arena, b.addr, l);
    assert_eq!(arena.contents(b.addr), None);
    assert_eq!(arena.calls()[1], Call::Deallocate { addr: b.addr, size: 3, align: 1 });
}

#[test]
fn grow_in_place_keeps_bytes() {
    let heap = Heap::new();
    let mut arena = Arena::new(4);
    let data = pattern(8);
    let addr = allocate_with(&mut arena, layout(8, 8), &data);
    let b = heap.grow(&mut arena, addr, layout(8, 8), layout(20, 8)).unwrap();
    assert_eq!(b.len, 20);
    let c = arena.contents(b.addr).unwrap();
    assert_eq!(c.len(), 20);
    assert_eq!(&c[..8], &data[..]);
    assert_eq!(
        arena.calls()[1],
        Call::Reallocate { addr, size: 8, align: 8, new_size: 20 }
    );
    assert_eq!(arena.calls().len(), 2);
}

#[test]
fn grow_zeroed_in_place_clears_added_bytes() {
    let heap = Heap::new();
    let mut arena = Arena::new(4);
    let data = pattern(5);
    let addr = allocate_with(&mut arena, layout(5, 4), &data);
    let b = heap.grow_zeroed(&mut arena, addr, layout(5, 4), layout(9, 4)).unwrap();
    let c = arena.contents(b.addr).unwrap();
    let mut expected = data.clone();
    expected.extend_from_slice(&[0, 0, 0, 0]);
    assert_eq!(c, expected);
}

#[test]
fn grow_by_copy_keeps_bytes_and_frees_old_block_once() {
    let heap = Heap::new();
    let mut arena = Arena::new(4);
    let data = pattern(6);
    let addr = allocate_with(&mut arena, layout(6, 4), &data);
    let b = heap.grow(&mut arena, addr, layout(6, 4), layout(10, 16)).unwrap();
    assert_ne!(b.addr, addr);
    assert_eq!(b.len, 10);
    let c = arena.contents(b.addr).unwrap();
    assert_eq!(&c[..6], &data[..]);
    assert_eq!(&c[6..], &[FILL; 4]);
    assert_eq!(arena.contents(addr), None);
    assert_eq!(
        arena.calls()[1..].to_vec(),
        vec![
            Call::Allocate { size: 10, align: 16 },
            Call::Deallocate { addr, size: 6, align: 4 },
        ]
    );
}

#[test]
fn grow_zeroed_by_copy_clears_added_bytes() {
    let heap = Heap::new();
    let mut arena = Arena::new(4);
    let data = pattern(3);
    let addr = allocate_with(&mut arena, layout(3, 1), &data);
    let b = heap.grow_zeroed(&mut arena, addr, layout(3, 1), layout(7, 8)).unwrap();
    assert_eq!(arena.contents(b.addr), Some(vec![data[0], data[1], data[2], 0, 0, 0, 0]));
    assert_eq!(arena.calls()[1], Call::AllocateZeroed { size: 7, align: 8 });
}

#[test]
fn grow_from_zero_size_allocates() {
    let heap = Heap::new();
    let mut arena = Arena::new(4);
    let l0 = layout(0, 8);
    let d = heap.allocate(&mut arena, l0).unwrap();
    let b = heap.grow_zeroed(&mut arena, d.addr, l0, layout(4, 8)).unwrap();
    assert_eq!(b.len, 4);
    assert_eq!(arena.contents(b.addr), Some(vec![0u8; 4]));
    assert_eq!(arena.calls().clone(), vec![Call::AllocateZeroed { size: 4, align: 8 }]);
}

#[test]
fn failed_grow_by_copy_leaves_source_intact() {
    let heap = Heap::new();
    let mut arena = Arena::new(1);
    let data = pattern(4);
    let addr = allocate_with(&mut arena, layout(4, 4), &data);
    assert_eq!(heap.grow(&mut arena, addr, layout(4, 4), layout(8, 32)), Err(AllocError));
    assert_eq!(arena.contents(addr), Some(data));
    assert!(!arena.calls().iter().any(|c| matches!(c, Call::Deallocate { .. })));
}

#[test]
fn failed_shrink_by_copy_leaves_source_intact() {
    let heap = Heap::new();
    let mut arena = Arena::new(1);
    let data = pattern(12);
    let addr = allocate_with(&mut arena, layout(12, 16), &data);
    assert_eq!(heap.shrink(&mut arena, addr, layout(12, 16), layout(4, 2)), Err(AllocError));
    assert_eq!(arena.contents(addr), Some(data));
    assert!(!arena.calls().iter().any(|c| matches!(c, Call::Deallocate { .. })));
}

#[test]
fn shrink_to_zero_releases_block() {
    let heap = Heap::new();
    let mut arena = Arena::new(4);
    let addr = allocate_with(&mut arena, layout(9, 8), &pattern(9));
    let b = heap.shrink(&mut arena, addr, layout(9, 8), layout(0, 4)).unwrap();
    assert_eq!(b, Block { addr: 4, len: 0 });
    assert_eq!(arena.contents(addr), None);
    assert_eq!(
        arena.calls()[1..].to_vec(),
        vec![Call::Deallocate { addr, size: 9, align: 8 }]
    );
}

#[test]
fn shrink_in_place_keeps_leading_bytes() {
    let heap = Heap::new();
    let mut arena = Arena::new(4);
    let data = pattern(10);
    let addr = allocate_with(&mut arena, layout(10, 2), &data);
    let b = heap.shrink(&mut arena, addr, layout(10, 2), layout(3, 2)).unwrap();
    assert_eq!(b.len, 3);
    assert_eq!(arena.contents(b.addr), Some(data[..3].to_vec()));
    assert_eq!(
        arena.calls()[1],
        Call::Reallocate { addr, size: 10, align: 2, new_size: 3 }
    );
}

#[test]
fn shrink_by_copy_keeps_leading_bytes() {
    let heap = Heap::new();
    let mut arena = Arena::new(4);
    let data = pattern(10);
    let addr = allocate_with(&mut arena, layout(10, 16), &data);
    let b = heap.shrink(&mut arena, addr, layout(10, 16), layout(5, 4)).unwrap();
    assert_ne!(b.addr, addr);
    assert_eq!(arena.contents(b.addr), Some(data[..5].to_vec()));
    assert_eq!(arena.contents(addr), None);
    assert_eq!(
        arena.calls()[1..].to_vec(),
        vec![
            Call::Allocate { size: 5, align: 4 },
            Call::Deallocate { addr, size: 10, align: 16 },
        ]
    );
}

#[test]
fn raw_alloc_then_dealloc_calls_backend_twice() {
    let heap = Heap::new();
    let mut arena = Arena::new(4);
    let l = layout(16, 8);
    let addr = heap.raw_alloc(&mut arena, l);
    assert_ne!(addr, 0);
    heap.raw_dealloc(&mut arena, addr, l);
    assert_eq!(
        arena.calls().clone(),
        vec![
            Call::Allocate { size: 16, align: 8 },
            Call::Deallocate { addr, size: 16, align: 8 },
        ]
    );
    assert_eq!(arena.contents(addr), None);
}

#[test]
fn raw_alloc_returns_null_on_failure() {
    let heap = Heap::new();
    let mut arena = Arena::new(0);
    assert_eq!(heap.raw_alloc(&mut arena, layout(8, 8)), 0);
    assert_eq!(heap.raw_alloc_zeroed(&mut arena, layout(8, 8)), 0);
    assert_eq!(arena.calls().len(), 2);
}

#[test]
fn raw_alloc_zeroed_and_realloc_keep_bytes() {
    let heap = Heap::new();
    let mut arena = Arena::new(4);
    let l = layout(4, 4);
    let addr = heap.raw_alloc_zeroed(&mut arena, l);
    assert_eq!(arena.contents(addr), Some(vec![0u8; 4]));
    assert!(arena.store(addr, vec![1, 2, 3, 4]));
    let moved = heap.raw_realloc(&mut arena, addr, l, 2);
    assert_ne!(moved, 0);
    assert_eq!(arena.contents(moved), Some(vec![1, 2]));
}

#[test]
fn store_refuses_wrong_length_or_dead_block() {
    let mut arena = Arena::new(4);
    assert!(!arena.store(1, vec![0]));
    let heap = Heap::new();
    let b = heap.allocate(&mut arena, layout(2, 1)).unwrap();
    assert!(!arena.store(b.addr, vec![0, 0, 0]));
    assert_eq!(arena.contents(b.addr), Some(vec![FILL; 2]));
}
