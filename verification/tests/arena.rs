use clean_runner::arena::{Arena, HEAP_START};
use clean_runner::host::Fault;

#[test]
fn the_heap_starts_at_one_mebibyte() {
    assert_eq!(HEAP_START, 1_048_576);
    assert_eq!(Arena::new().next_offset(), 1_048_576);
}

#[test]
fn requests_are_rounded_up_and_do_not_overlap() {
    let mut arena = Arena::new();
    assert_eq!(arena.mem_alloc(1, 5), Ok(1_048_576));
    assert_eq!(arena.mem_alloc(1, 8), Ok(1_048_584));
    assert_eq!(arena.mem_alloc(2, 0), Ok(1_048_592));
    assert_eq!(arena.mem_alloc(2, 9), Ok(1_048_592));
    assert_eq!(arena.next_offset(), 1_048_608);
}

#[test]
fn leaving_a_scope_frees_what_was_allocated_inside() {
    let mut arena = Arena::new();
    arena.mem_alloc(0, 16).unwrap();
    arena.mem_scope_push();
    arena.mem_alloc(0, 100).unwrap();
    arena.mem_scope_push();
    arena.mem_alloc(0, 100).unwrap();
    arena.mem_scope_pop();
    assert_eq!(arena.next_offset(), 1_048_576 + 16 + 104);
    arena.mem_scope_pop();
    assert_eq!(arena.next_offset(), 1_048_576 + 16);
    // No scope is open any more.
    arena.mem_alloc(0, 8).unwrap();
    arena.mem_scope_pop();
    assert_eq!(arena.next_offset(), 1_048_576 + 24);
}

#[test]
fn requests_beyond_the_address_range_are_faults() {
    let mut arena = Arena::new();
    // Rounding up leaves the address range.
    assert_eq!(arena.mem_alloc(0, -1), Err(Fault::AddressOverflow));
    assert_eq!(arena.mem_alloc(0, -7), Err(Fault::AddressOverflow));
    // The end leaves the address range.
    assert_eq!(arena.mem_alloc(0, -8), Err(Fault::AddressOverflow));
    assert_eq!(arena.mem_alloc(0, -1_048_576), Err(Fault::AddressOverflow));
    assert_eq!(arena.next_offset(), 1_048_576);
    // A large negative request still ends inside.
    assert_eq!(arena.mem_alloc(0, -1_048_584), Ok(1_048_576));
    assert_eq!(arena.next_offset(), usize::MAX - 7);
    assert_eq!(arena.mem_alloc(0, 8), Err(Fault::AddressOverflow));
    arena.move_to(64);
    assert_eq!(arena.mem_alloc(0, i32::MAX), Ok(64));
    assert_eq!(arena.next_offset(), 64 + 0x8000_0000);
}
