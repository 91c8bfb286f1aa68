use page_cache::{swap_red_blue, AllocRecord, ArenaFull, TrackingAlloc, DEFAULT_CAPACITY};

fn rec(addr: usize, size: usize) -> AllocRecord {
    AllocRecord { addr, size, align: 8, during_panic: false }
}

#[test]
fn new_book_is_empty_with_default_capacity() {
    let book = TrackingAlloc::new();
    assert!(book.allocations().is_empty());
    assert_eq!(book.capacity(), DEFAULT_CAPACITY);
    let other = TrackingAlloc::with_allocator(42u8);
    assert_eq!(*other.allocator(), 42);
    assert_eq!(other.capacity(), DEFAULT_CAPACITY);
}

#[test]
fn full_book_refuses_the_next_record() {
    let mut book = TrackingAlloc::with_capacity((), 2);
    assert_eq!(book.record_alloc(rec(16, 4)), Ok(()));
    assert_eq!(book.record_alloc(rec(32, 4)), Ok(()));
    assert_eq!(book.record_alloc(rec(48, 4)), Err(ArenaFull));
    assert_eq!(book.allocations(), &[rec(16, 4), rec(32, 4)]);
    book.forget(16);
    assert_eq!(book.record_alloc(rec(48, 4)), Ok(()));
}

#[test]
fn null_address_is_not_recorded() {
    let mut book = TrackingAlloc::with_capacity((), 1);
    assert_eq!(book.record_alloc(rec(0, 64)), Ok(()));
    assert!(book.allocations().is_empty());
}

#[test]
fn forget_strikes_one_address_and_keeps_order() {
    let mut book = TrackingAlloc::with_capacity((), 8);
    for addr in [8, 16, 24, 16, 40] {
        book.record_alloc(rec(addr, addr)).unwrap();
    }
    book.forget(16);
    assert_eq!(book.allocations(), &[rec(8, 8), rec(24, 24), rec(40, 40)]);
    book.forget(99);
    assert_eq!(book.allocations().len(), 3);
}

#[test]
fn panic_allocations_are_forgotten() {
    let mut book = TrackingAlloc::with_capacity((), 4);
    book.record_alloc(rec(8, 1)).unwrap();
    book.record_alloc(AllocRecord { addr: 16, size: 2, align: 1, during_panic: true }).unwrap();
    book.record_alloc(rec(24, 3)).unwrap();
    book.forget_panic_allocations();
    assert_eq!(book.allocations(), &[rec(8, 1), rec(24, 3)]);
}

#[test]
fn total_size_adds_every_block() {
    let mut book = TrackingAlloc::with_capacity((), 4);
    assert_eq!(book.total_size(), 0);
    book.record_alloc(rec(8, 100)).unwrap();
    book.record_alloc(rec(16, usize::MAX)).unwrap();
    book.record_alloc(rec(24, usize::MAX)).unwrap();
    assert_eq!(book.total_size(), 100 + 2 * (usize::MAX as u128));
}

#[test]
fn forget_all_empties_the_book() {
    let mut book = TrackingAlloc::with_capacity((), 3);
    book.record_alloc(rec(8, 1)).unwrap();
    book.record_alloc(rec(16, 1)).unwrap();
    book.forget_all();
    assert!(book.allocations().is_empty());
    assert_eq!(book.capacity(), 3);
}

#[test]
fn red_and_blue_swap_in_whole_pixels() {
    let mut data = vec![1, 2, 3, 4, 5, 6, 7, 8, 9, 10];
    swap_red_blue(&mut data);
    assert_eq!(data, vec![3, 2, 1, 4, 7, 6, 5, 8, 9, 10]);
    swap_red_blue(&mut data);
    assert_eq!(data, vec![1, 2, 3, 4, 5, 6, 7, 8, 9, 10]);
    let mut empty: Vec<u8> = Vec::new();
    swap_red_blue(&mut empty);
    assert!(empty.is_empty());
}
