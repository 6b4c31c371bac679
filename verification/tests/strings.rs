use clean_runner::guest::guest_memory;
use clean_runner::host::{Fault, Host};
use clean_runner::list::{lay_out, put_list};
use clean_runner::strings::{
    bool_to_string, check_pattern, compare_texts, int_to_string, plan_concat, plan_repeat,
    plan_replace, plan_split, plan_trim, read_text, string_compare, string_concat, string_matches,
    string_repeat, string_replace, string_split, string_trim, string_trim_end, string_trim_start,
    Action, Ends,
};
use std::sync::{Arc, Mutex};
use wasmtime::{Caller, Config, Engine, Linker, Module, Store};

/// Runs `check` as a host function of a guest that declares `items`.
fn inside(items: &str, check: impl Fn(&mut Caller<'_, ()>, &mut Host) + Send + Sync + 'static) {
    let source = format!(
        "(module (import \"t\" \"go\" (func $go)) {} (func (export \"start\") call $go))",
        items
    );
    // Memories take up no more address space than they hold.
    let mut config = Config::new();
    config.static_memory_maximum_size(0);
    config.dynamic_memory_guard_size(0);
    config.dynamic_memory_reserved_for_growth(0);
    let engine = Engine::new(&config).unwrap();
    let module = Module::new(&engine, source).unwrap();
    let mut store = Store::new(&engine, ());
    let mut linker: Linker<()> = Linker::new(&engine);
    let host = Arc::new(Mutex::new(Host::new()));
    linker
        .func_wrap("t", "go", move |mut caller: Caller<'_, ()>| {
            check(&mut caller, &mut host.lock().unwrap())
        })
        .unwrap();
    let instance = linker.instantiate(&mut store, &module).unwrap();
    instance.get_func(&mut store, "start").unwrap().call(&mut store, &[], &mut []).unwrap();
}

/// A memory with `one,two` at 16, `,` at 32, ` x ` at 48 and broken text at 64.
const TEXTS: &str = "(memory (export \"memory\") 1)
    (data (i32.const 16) \"\\07\\00\\00\\00one,two\")
    (data (i32.const 32) \"\\01\\00\\00\\00,\")
    (data (i32.const 48) \"\\03\\00\\00\\00 x \")
    (data (i32.const 64) \"\\02\\00\\00\\00\\ff\\ff\")
    (global (export \"__heap_ptr\") (mut i32) (i32.const 0))";

fn text_at(caller: &mut Caller<'_, ()>, ptr: i32) -> Option<String> {
    let memory = guest_memory(caller).unwrap();
    read_text(memory.data(&mut *caller), ptr).unwrap()
}

fn word_at(caller: &mut Caller<'_, ()>, ptr: i32) -> i32 {
    let memory = guest_memory(caller).unwrap();
    let data = memory.data(&mut *caller);
    let at = ptr as usize;
    i32::from_le_bytes([data[at], data[at + 1], data[at + 2], data[at + 3]])
}

fn quits(action: Action, complaint: &str) -> bool {
    match action {
        Action::Quit(text) => text == complaint,
        _ => false,
    }
}

fn stores(action: Action, expected: &str) -> bool {
    match action {
        Action::Store(text) => text == expected,
        _ => false,
    }
}

/// The bytes of several strings behind their lengths, and where each begins.
fn framed(texts: &[&str]) -> (Vec<u8>, Vec<i32>) {
    let mut data = Vec::new();
    let mut pointers = Vec::new();
    for text in texts {
        pointers.push(data.len() as i32);
        data.extend_from_slice(&(text.len() as u32).to_le_bytes());
        data.extend_from_slice(text.as_bytes());
    }
    (data, pointers)
}

#[test]
fn concatenation() {
    inside(TEXTS, |caller, host| {
        let ptr = string_concat(caller, host, "string.concat", 16, 48).unwrap();
        assert_eq!(text_at(caller, ptr), Some("one,two x ".to_string()));
        assert_eq!(string_concat(caller, host, "string.concat", 64, 16), Ok(0));
        assert_eq!(string_concat(caller, host, "string_concat", 16, 2_000_000), Ok(0));
        assert_eq!(
            host.console.take_err(),
            "string.concat: ptr1 out of bounds or invalid UTF-8\n\
             string_concat: ptr2 out of bounds or invalid UTF-8\n"
        );
        assert_eq!(string_concat(caller, host, "c", -5, 16), Ok(0));
        assert_eq!(string_concat(caller, host, "c", -4, 16), Err(Fault::AddressOverflow));
        assert_eq!(string_concat(caller, host, "c", 16, -1), Err(Fault::AddressOverflow));
    });
}

#[test]
fn no_memory_to_work_on() {
    inside("", |caller, host| {
        assert_eq!(string_concat(caller, host, "string_concat", 0, 0), Ok(0));
        assert_eq!(string_split(caller, host, "string.split", 0, 0), Ok(0));
        assert_eq!(string_replace(caller, host, 0, 0, 0), Ok(0));
        assert_eq!(string_trim(caller, host, -1), Ok(0));
        assert_eq!(string_trim_start(caller, host, 0), Ok(0));
        assert_eq!(string_trim_end(caller, host, 0), Ok(0));
        assert_eq!(string_repeat(caller, host, 0, 0, 2), Ok(0));
        assert_eq!(int_to_string(caller, host, 5), Ok(0));
        assert_eq!(bool_to_string(caller, host, 5), Ok(0));
        assert_eq!(string_compare(caller, 1, 2), Ok(0));
        assert_eq!(string_matches(caller, 1, 2, 3, 4), Ok(0));
        assert_eq!(
            host.console.take_err(),
            "string_concat: Failed to get memory\nstring.split: no memory\n"
        );
        assert_eq!(host.console.take_out(), "");
    });
}

#[test]
fn numbers_and_truth_values_in_writing() {
    inside(TEXTS, |caller, host| {
        let ptr = int_to_string(caller, host, i32::MIN).unwrap();
        assert_eq!(text_at(caller, ptr), Some("-2147483648".to_string()));
        let ptr = bool_to_string(caller, host, 0).unwrap();
        assert_eq!(text_at(caller, ptr), Some("false".to_string()));
        let ptr = bool_to_string(caller, host, -1).unwrap();
        assert_eq!(text_at(caller, ptr), Some("true".to_string()));
    });
}

#[test]
fn replacement_trimming_and_repetition() {
    inside(TEXTS, |caller, host| {
        let ptr = string_replace(caller, host, 16, 32, 48).unwrap();
        assert_eq!(text_at(caller, ptr), Some("one x two".to_string()));
        // An unreadable search string counts as empty.
        let ptr = string_replace(caller, host, 48, 64, 32).unwrap();
        assert_eq!(text_at(caller, ptr), Some(", ,x, ,".to_string()));
        let ptr = string_trim(caller, host, 48).unwrap();
        assert_eq!(text_at(caller, ptr), Some("x".to_string()));
        let ptr = string_trim_start(caller, host, 48).unwrap();
        assert_eq!(text_at(caller, ptr), Some("x ".to_string()));
        let ptr = string_trim_end(caller, host, 48).unwrap();
        assert_eq!(text_at(caller, ptr), Some(" x".to_string()));
        assert_eq!(string_trim(caller, host, 64), Ok(0));
        let ptr = string_repeat(caller, host, 32, 99, 3).unwrap();
        assert_eq!(text_at(caller, ptr), Some(",,,".to_string()));
        let ptr = string_repeat(caller, host, 32, 99, -3).unwrap();
        assert_eq!(text_at(caller, ptr), Some(String::new()));
        assert_eq!(string_repeat(caller, host, 64, 0, 3), Ok(0));
        assert_eq!(string_repeat(caller, host, -2, 0, 3), Err(Fault::AddressOverflow));
        assert_eq!(host.console.take_err(), "");
    });
}

#[test]
fn comparison_and_patterns() {
    inside(TEXTS, |caller, _| {
        assert_eq!(string_compare(caller, 16, 16), Ok(0));
        assert_eq!(string_compare(caller, 16, 48), Ok(1));
        assert_eq!(string_compare(caller, 48, 16), Ok(1));
        // Two unreadable strings are equal.
        assert_eq!(string_compare(caller, 64, 65_533), Ok(0));
        assert_eq!(string_compare(caller, -1, 16), Err(Fault::AddressOverflow));
        assert_eq!(string_matches(caller, 16, 0, 48, 0), Ok(0));
        assert_eq!(string_matches(caller, 16, 0, -1, 0), Err(Fault::AddressOverflow));
    });
    let (data, at) = framed(&["me@example.org", "email", "url", "me@example.org"]);
    assert_eq!(check_pattern(&data, at[0], at[1]), Ok(1));
    assert_eq!(check_pattern(&data, at[0], at[2]), Ok(0));
    assert_eq!(compare_texts(&data, at[0], at[3]), Ok(0));
    assert_eq!(compare_texts(&data, at[1], at[2]), Ok(1));
    assert_eq!(compare_texts(&data, at[1], -2), Err(Fault::AddressOverflow));
}

#[test]
fn splitting_into_a_list() {
    inside(TEXTS, |caller, host| {
        let list = string_split(caller, host, "string_split", 16, 32).unwrap();
        assert_eq!(list, 1_048_576);
        assert_eq!(word_at(caller, list), 2);
        assert_eq!(word_at(caller, list + 4), 2);
        assert_eq!(word_at(caller, list + 8), 3);
        assert_eq!(word_at(caller, list + 12), 0);
        let first = word_at(caller, list + 16);
        let second = word_at(caller, list + 20);
        assert_eq!((first, second), (list + 24, list + 31));
        assert_eq!(text_at(caller, first), Some("one".to_string()));
        assert_eq!(text_at(caller, second), Some("two".to_string()));
        assert_eq!(host.arena.next_offset(), 1_048_616);
        assert_eq!(clean_runner::guest::guest_heap_top(caller), 1_048_616);
        // Stored after the list, and the list is still there.
        let ptr = int_to_string(caller, host, 7).unwrap();
        assert_eq!(ptr, 1_048_616);
        assert_eq!(text_at(caller, second), Some("two".to_string()));
        assert_eq!(string_split(caller, host, "string_split", 64, 32), Ok(0));
        assert_eq!(string_split(caller, host, "string_split", 16, 64), Ok(0));
        assert_eq!(
            string_split(caller, host, "string_split", 16, -1),
            Err(Fault::AddressOverflow)
        );
        assert_eq!(host.console.take_err(), "");
    });
}

#[test]
fn a_list_that_does_not_fit_is_a_fault() {
    inside(
        "(memory (export \"memory\") 1 1)
         (data (i32.const 16) \"\\03\\00\\00\\00a,b\")
         (data (i32.const 32) \"\\01\\00\\00\\00,\")
         (global (export \"__heap_ptr\") (mut i32) (i32.const 0))",
        |caller, host| {
            assert_eq!(
                string_split(caller, host, "string_split", 16, 32),
                Err(Fault::OutOfMemory)
            );
            assert_eq!(host.arena.next_offset(), 1_048_616);
            assert_eq!(clean_runner::guest::guest_heap_top(caller), 1_048_616);
        },
    );
}

#[test]
fn laying_a_list_out() {
    let parts = vec!["ab".to_string(), String::new(), "é".to_string()];
    let (pointers, end) = lay_out(8, &parts).unwrap();
    assert_eq!(pointers, vec![36, 42, 46]);
    assert_eq!(end, 52);
    let mut data = vec![9u8; 52];
    assert_eq!(put_list(&mut data, 8, &parts, &pointers), Ok(()));
    assert_eq!(&data[..8], &[9; 8]);
    assert_eq!(&data[8..24], &[3, 0, 0, 0, 3, 0, 0, 0, 3, 0, 0, 0, 0, 0, 0, 0]);
    assert_eq!(&data[24..36], &[36, 0, 0, 0, 42, 0, 0, 0, 46, 0, 0, 0]);
    assert_eq!(&data[36..42], &[2, 0, 0, 0, b'a', b'b']);
    assert_eq!(&data[42..46], &[0, 0, 0, 0]);
    assert_eq!(&data[46..52], &[2, 0, 0, 0, 0xc3, 0xa9]);
    let mut short = vec![9u8; 51];
    assert_eq!(put_list(&mut short, 8, &parts, &pointers), Err(Fault::OutOfMemory));
    assert_eq!(short, vec![9u8; 51]);
    // Pointers keep the low half of an address only.
    let (far, _) = lay_out(0x1_0000_0000, &parts).unwrap();
    assert_eq!(far, vec![28, 34, 38]);
    assert!(lay_out(usize::MAX - 43, &parts).is_none());
    assert!(lay_out(usize::MAX - 51, &parts).is_some());
    assert!(lay_out(usize::MAX - 50, &parts).is_none());
}

#[test]
fn plans_on_bytes_alone() {
    let (data, at) = framed(&["a,b", ",", " t "]);
    assert!(stores(plan_concat(&data, "c", at[0], at[1]), "a,b,"));
    assert!(quits(
        plan_concat(&data, "c", 900, at[1]),
        "c: ptr1 out of bounds or invalid UTF-8\n"
    ));
    assert!(matches!(plan_concat(&data, "c", -1, at[1]), Action::Fault));
    assert!(stores(plan_replace(&data, at[0], at[1], at[2]), "a t b"));
    assert!(matches!(plan_replace(&data, at[0], -1, at[2]), Action::Fault));
    assert!(stores(plan_trim(&data, Ends::Both, at[2]), "t"));
    assert!(stores(plan_trim(&data, Ends::Start, at[2]), "t "));
    assert!(stores(plan_trim(&data, Ends::End, at[2]), " t"));
    assert!(quits(plan_trim(&data, Ends::Both, 900), ""));
    assert!(stores(plan_repeat(&data, at[1], 4), ",,,,"));
    match plan_split(&data, at[0], at[1]) {
        Action::List(parts) => assert_eq!(parts, vec!["a", "b"]),
        _ => panic!("expected a list"),
    }
    assert!(quits(plan_split(&data, 900, at[1]), ""));
    assert!(matches!(plan_split(&data, at[0], -1), Action::Fault));
}
