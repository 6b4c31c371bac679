use clean_runner::guest::{
    guest_heap_top, guest_memory, missing_pages, place_block, raise_heap, PAGE_SIZE,
};
use clean_runner::host::{Fault, Host};
use clean_runner::strings::{read_text, store_text};
use std::sync::{Arc, Mutex};
use wasmtime::{Caller, Config, Engine, Linker, Module, Store};

/// Runs `check` as a host function of a guest that declares `items`.
fn inside(items: &str, check: impl Fn(&mut Caller<'_, ()>, &mut Host) + Send + Sync + 'static) {
    let source = format!(
        "(module (import \"t\" \"go\" (func $go)) {} (func (export \"start\") call $go))",
        items
    );
    // Memories take up no more address space than they hold.
    let mut config = Config::new();
    config.static_memory_maximum_size(0);
    config.dynamic_memory_guard_size(0);
    config.dynamic_memory_reserved_for_growth(0);
    let engine = Engine::new(&config).unwrap();
    let module = Module::new(&engine, source).unwrap();
    let mut store = Store::new(&engine, ());
    let mut linker: Linker<()> = Linker::new(&engine);
    let host = Arc::new(Mutex::new(Host::new()));
    linker
        .func_wrap("t", "go", move |mut caller: Caller<'_, ()>| {
            check(&mut caller, &mut host.lock().unwrap())
        })
        .unwrap();
    let instance = linker.instantiate(&mut store, &module).unwrap();
    instance.get_func(&mut store, "start").unwrap().call(&mut store, &[], &mut []).unwrap();
}

fn text_at(caller: &mut Caller<'_, ()>, ptr: i32) -> Option<String> {
    let memory = guest_memory(caller).unwrap();
    read_text(memory.data(&mut *caller), ptr).unwrap()
}

#[test]
fn a_stored_text_reads_back() {
    inside("(memory (export \"memory\") 17)", |caller, host| {
        assert_eq!(store_text(caller, host, "grüße"), Ok(1_048_576));
        assert_eq!(text_at(caller, 1_048_576), Some("grüße".to_string()));
        let memory = guest_memory(caller).unwrap();
        let data = memory.data(&mut *caller);
        assert_eq!(&data[1_048_576..1_048_580], &[7, 0, 0, 0]);
        assert_eq!(&data[1_048_580..1_048_587], "grüße".as_bytes());
        assert_eq!(data.len(), 17 * PAGE_SIZE);
        assert_eq!(host.arena.next_offset(), 1_048_592);
        assert_eq!(host.console.take_out(), "");
        assert_eq!(host.console.take_err(), "");
    });
}

#[test]
fn texts_stored_in_a_row_do_not_overlap() {
    inside("(memory (export \"memory\") 17)", |caller, host| {
        let first = store_text(caller, host, "first").unwrap();
        let second = store_text(caller, host, "second one").unwrap();
        let third = store_text(caller, host, "").unwrap();
        assert_eq!((first, second, third), (1_048_576, 1_048_592, 1_048_608));
        assert_eq!(text_at(caller, first), Some("first".to_string()));
        assert_eq!(text_at(caller, second), Some("second one".to_string()));
        assert_eq!(text_at(caller, third), Some(String::new()));
    });
}

#[test]
fn memory_grows_as_far_as_needed() {
    inside("(memory (export \"memory\") 1)", |caller, host| {
        let long = "x".repeat(70_000);
        assert_eq!(store_text(caller, host, &long), Ok(1_048_576));
        let memory = guest_memory(caller).unwrap();
        assert_eq!(memory.size(&mut *caller), 18);
        assert_eq!(text_at(caller, 1_048_576), Some(long));
        assert_eq!(host.console.take_out(), "");
        // What was added and not written is zero.
        let data = memory.data(&mut *caller);
        assert!(data[PAGE_SIZE..1_048_576].iter().all(|byte| *byte == 0));
        assert!(data[1_048_576 + 70_004..].iter().all(|byte| *byte == 0));
    });
}

#[test]
fn growth_that_is_refused_is_reported() {
    inside(
        "(memory (export \"memory\") 1 2) (global (export \"__heap_ptr\") (mut i32) (i32.const 8))",
        |caller, host| {
            assert_eq!(store_text(caller, host, "text"), Ok(0));
            assert_eq!(
                host.console.take_out(),
                "WARNING: memory.grow failed for 16 pages\n"
            );
            let memory = guest_memory(caller).unwrap();
            assert_eq!(memory.size(&mut *caller), 1);
            assert_eq!(guest_heap_top(caller), 8);
            // The host's offset has moved all the same.
            assert_eq!(host.arena.next_offset(), 1_048_584);
        },
    );
}

#[test]
fn both_allocators_move_together() {
    inside(
        "(memory (export \"memory\") 1) (global (export \"__heap_ptr\") (mut i32) (i32.const 1048577))",
        |caller, host| {
            // The guest is ahead: its heap pointer is where the block starts.
            assert_eq!(store_text(caller, host, "abc"), Ok(1_048_577));
            assert_eq!(guest_heap_top(caller), 1_048_585);
            assert_eq!(host.arena.next_offset(), 1_048_585);
            // The host is ahead.
            host.arena.move_to(2_000_000);
            assert_eq!(store_text(caller, host, "abcde"), Ok(2_000_000));
            assert_eq!(guest_heap_top(caller), 2_000_016);
            assert_eq!(host.arena.next_offset(), 2_000_016);
        },
    );
}

#[test]
fn a_heap_pointer_that_cannot_move_stays() {
    // Constant.
    inside(
        "(memory (export \"memory\") 1) (global (export \"__heap_ptr\") i32 (i32.const 3000000))",
        |caller, host| {
            assert_eq!(store_text(caller, host, "abc"), Ok(3_000_000));
            assert_eq!(guest_heap_top(caller), 3_000_000);
            assert_eq!(host.arena.next_offset(), 3_000_008);
        },
    );
    // Another type.
    inside(
        "(memory (export \"memory\") 1) (global (export \"__heap_ptr\") (mut i64) (i64.const 9))",
        |caller, host| {
            assert_eq!(guest_heap_top(caller), 0);
            assert_eq!(store_text(caller, host, "abc"), Ok(1_048_576));
            assert_eq!(guest_heap_top(caller), 0);
        },
    );
    // No global at all.
    inside(
        "(memory (export \"memory\") 1) (func (export \"__heap_ptr\"))",
        |caller, host| {
            assert_eq!(guest_heap_top(caller), 0);
            raise_heap(caller, 77);
            assert_eq!(guest_heap_top(caller), 0);
            assert_eq!(store_text(caller, host, "abc"), Ok(1_048_576));
        },
    );
}

#[test]
fn a_heap_pointer_wraps_into_the_upper_half() {
    inside(
        "(memory (export \"memory\") 1) (global (export \"__heap_ptr\") (mut i32) (i32.const 0))",
        |caller, _| {
            raise_heap(caller, 0x9000_0000);
            assert_eq!(guest_heap_top(caller), 0x9000_0000u32 as i32 as usize);
            raise_heap(caller, 0x1_0000_0010);
            assert_eq!(guest_heap_top(caller), 16);
        },
    );
}

#[test]
fn a_heap_pointer_at_the_top_of_the_address_range_is_a_fault() {
    inside(
        "(memory (export \"memory\") 1) (global (export \"__heap_ptr\") (mut i32) (i32.const -8))",
        |caller, host| {
            assert_eq!(store_text(caller, host, "abcde"), Err(Fault::AddressOverflow));
            assert_eq!(host.arena.next_offset(), 1_048_576);
            assert_eq!(guest_heap_top(caller), usize::MAX - 7);
        },
    );
}

#[test]
fn without_a_memory_nothing_is_stored() {
    inside("", |caller, host| {
        assert!(guest_memory(caller).is_none());
        assert_eq!(store_text(caller, host, "abc"), Ok(0));
        assert_eq!(host.arena.next_offset(), 1_048_576);
    });
    inside("(func (export \"memory\"))", |caller, host| {
        assert!(guest_memory(caller).is_none());
        assert_eq!(store_text(caller, host, "abc"), Ok(0));
    });
    inside("(table (export \"memory\") 1 funcref)", |caller, _| {
        assert!(guest_memory(caller).is_none());
    });
}

#[test]
fn blocks_and_pages() {
    assert_eq!(place_block(100, 50, 9), Some((100, 116)));
    assert_eq!(place_block(100, 150, 8), Some((150, 158)));
    assert_eq!(place_block(100, 100, 0), Some((100, 100)));
    assert_eq!(place_block(usize::MAX, 0, 1), None);
    assert_eq!(place_block(0, usize::MAX - 7, 8), None);
    assert_eq!(place_block(0, usize::MAX - 8, 8), Some((usize::MAX - 8, usize::MAX)));
    assert_eq!(place_block(0, 0, usize::MAX - 6), None);
    assert_eq!(missing_pages(1, 0), 1);
    assert_eq!(missing_pages(65_536, 0), 1);
    assert_eq!(missing_pages(65_537, 0), 2);
    assert_eq!(missing_pages(1_048_584, 65_536), 16);
}
