use clean_runner::arrays::{
    append_number, array_element, array_get, list_push_f64, ArrayError, PushError,
};
use clean_runner::guest::guest_memory;
use clean_runner::host::{Fault, Host};
use clean_runner::output::{
    print, print_boolean, print_integer, print_line, print_simple, printl, printl_simple,
    show_range,
};
use std::sync::{Arc, Mutex};
use wasmtime::{Caller, Config, Engine, Linker, Module, Store};

/// Runs `check` as a host function of a guest that declares `items`.
fn inside(items: &str, check: impl Fn(&mut Caller<'_, ()>, &mut Host) + Send + Sync + 'static) {
    let source = format!(
        "(module (import \"t\" \"go\" (func $go)) {} (func (export \"start\") call $go))",
        items
    );
    // Memories take up no more address space than they hold.
    let mut config = Config::new();
    config.static_memory_maximum_size(0);
    config.dynamic_memory_guard_size(0);
    config.dynamic_memory_reserved_for_growth(0);
    let engine = Engine::new(&config).unwrap();
    let module = Module::new(&engine, source).unwrap();
    let mut store = Store::new(&engine, ());
    let mut linker: Linker<()> = Linker::new(&engine);
    let host = Arc::new(Mutex::new(Host::new()));
    linker
        .func_wrap("t", "go", move |mut caller: Caller<'_, ()>| {
            check(&mut caller, &mut host.lock().unwrap())
        })
        .unwrap();
    let instance = linker.instantiate(&mut store, &module).unwrap();
    instance.get_func(&mut store, "start").unwrap().call(&mut store, &[], &mut []).unwrap();
}

/// An array of the given length with two elements, twelve and minus one.
fn array(length: i32) -> Vec<u8> {
    let mut data = vec![0u8; 13];
    data.extend_from_slice(&length.to_le_bytes());
    data.extend_from_slice(&12i32.to_le_bytes());
    data.extend_from_slice(&(-1i32).to_le_bytes());
    data
}

#[test]
fn elements_of_an_array() {
    let data = array(2);
    assert_eq!(array_element(&data, 0, 0), Ok(12));
    assert_eq!(array_element(&data, 0, 1), Ok(-1));
    assert_eq!(array_element(&data, 0, 2), Err(ArrayError::IndexOutOfBounds(2)));
    assert_eq!(array_element(&data, 0, -1), Err(ArrayError::IndexOutOfBounds(2)));
    assert_eq!(array_element(&data, 9, 0), Err(ArrayError::InvalidPointer));
    assert_eq!(array_element(&data, -18, 0), Err(ArrayError::InvalidPointer));
    assert_eq!(array_element(&data, -17, 0), Err(ArrayError::AddressOverflow));
    assert_eq!(array_element(&array(3), 0, 2), Err(ArrayError::OutOfMemoryBounds));
    // A length in the upper half counts as negative.
    assert_eq!(array_element(&array(-5), 0, 0), Err(ArrayError::IndexOutOfBounds(-5)));
    assert_eq!(
        array_element(&array(i32::MAX), 0, i32::MAX - 1),
        Err(ArrayError::OutOfMemoryBounds)
    );
}

#[test]
fn elements_of_the_guest() {
    inside(
        "(memory (export \"memory\") 1)
         (data (i32.const 45) \"\\02\\00\\00\\00\\07\\00\\00\\00\\ff\\ff\\ff\\ff\")
         (data (i32.const 65532) \"\\01\\00\\00\\00\")",
        |caller, host| {
            assert_eq!(array_get(caller, host, 32, 0), Ok(7));
            assert_eq!(array_get(caller, host, 32, 1), Ok(-1));
            assert_eq!(array_get(caller, host, 32, 5), Ok(0));
            assert_eq!(array_get(caller, host, 65_520, 0), Ok(0));
            assert_eq!(array_get(caller, host, 65_519, 0), Ok(0));
            assert_eq!(array_get(caller, host, -1, 0), Err(Fault::AddressOverflow));
            assert_eq!(
                host.console.take_out(),
                "[array_get: index 5 out of bounds for array of length 2]\n\
                 [array_get: invalid array pointer 65520]\n\
                 [array_get: element access out of memory bounds]\n"
            );
        },
    );
    inside("", |caller, host| {
        assert_eq!(array_get(caller, host, 0, 0), Ok(0));
        assert_eq!(host.console.take_out(), "[array_get: no memory export]\n");
    });
}

#[test]
fn numbers_are_appended() {
    let mut data = vec![0u8; 40];
    assert_eq!(append_number(&mut data, 8, 1.5f64.to_bits()), Ok(()));
    assert_eq!(&data[8..12], &[1, 0, 0, 0]);
    assert_eq!(&data[24..32], &1.5f64.to_le_bytes());
    assert_eq!(append_number(&mut data, 8, (-2.25f64).to_bits()), Ok(()));
    assert_eq!(&data[8..12], &[2, 0, 0, 0]);
    assert_eq!(&data[24..32], &1.5f64.to_le_bytes());
    assert_eq!(&data[32..40], &(-2.25f64).to_le_bytes());
    let full = data.clone();
    assert_eq!(append_number(&mut data, 8, 0), Err(PushError::OutOfMemoryBounds));
    assert_eq!(append_number(&mut data, 25, 0), Err(PushError::InvalidPointer));
    assert_eq!(append_number(&mut data, -17, 0), Err(PushError::InvalidPointer));
    assert_eq!(append_number(&mut data, -16, 0), Err(PushError::AddressOverflow));
    assert_eq!(data, full);
}

#[test]
fn numbers_are_appended_in_the_guest() {
    inside("(memory (export \"memory\") 1)", |caller, host| {
        assert_eq!(list_push_f64(caller, host, 64, 0.1f64.to_bits()), Ok(64));
        let memory = guest_memory(caller).unwrap();
        let data = memory.data(&mut *caller);
        assert_eq!(&data[64..68], &[1, 0, 0, 0]);
        assert_eq!(&data[80..88], &0.1f64.to_le_bytes());
        assert_eq!(list_push_f64(caller, host, 65_521, 0), Ok(65_521));
        assert_eq!(list_push_f64(caller, host, 65_520, 0), Ok(65_520));
        assert_eq!(list_push_f64(caller, host, -1, 0), Err(Fault::AddressOverflow));
        assert_eq!(
            host.console.take_err(),
            "[list.push_f64: invalid pointer 65521]\n[list.push_f64: out of memory bounds]\n"
        );
    });
    inside("", |caller, host| {
        assert_eq!(list_push_f64(caller, host, 5, 0), Ok(5));
        assert_eq!(host.console.take_err(), "[list.push_f64: no memory export]\n");
    });
}

#[test]
fn printing_text_of_the_guest() {
    inside(
        "(memory (export \"memory\") 1) (data (i32.const 8) \"hi\\ffthere\")",
        |caller, host| {
            assert_eq!(print(caller, host, 8, 2), Ok(()));
            assert_eq!(printl(caller, host, 11, 5), Ok(()));
            assert_eq!(print(caller, host, 8, 3), Ok(()));
            assert_eq!(print(caller, host, 8, -1), Ok(()));
            assert_eq!(printl(caller, host, 65_530, 7), Ok(()));
            assert_eq!(printl(caller, host, 65_536, 0), Ok(()));
            assert_eq!(print(caller, host, i32::MAX, 1), Err(Fault::AddressOverflow));
            assert_eq!(printl(caller, host, i32::MIN, -1), Err(Fault::AddressOverflow));
            assert_eq!(
                host.console.take_out(),
                "hithere\n[invalid utf8: 3 bytes][print: invalid range ptr=8, len=-1]\
                 [printl: invalid range ptr=65530, len=7]\n\n"
            );
        },
    );
    inside("", |caller, host| {
        assert_eq!(print(caller, host, i32::MAX, 1), Ok(()));
        assert_eq!(printl(caller, host, -1, 2), Ok(()));
        assert_eq!(
            host.console.take_out(),
            "[print: ptr=2147483647, len=1][printl: ptr=-1, len=2]\n"
        );
    });
    assert_eq!(show_range(b"abc", "print", 1, 2), Ok("bc".to_string()));
    assert_eq!(
        show_range(b"abc", "print", -1, 2),
        Ok("[print: invalid range ptr=-1, len=2]".to_string())
    );
}

#[test]
fn printing_plain_values() {
    let mut host = Host::new();
    print_simple(&mut host, -5);
    printl_simple(&mut host, 12);
    print_integer(&mut host, i64::MIN);
    print_boolean(&mut host, 0);
    print_boolean(&mut host, 2);
    print_line(&mut host, "0.5");
    assert_eq!(
        host.console.take_out(),
        "-512\n-9223372036854775808\nfalse\ntrue\n0.5\n"
    );
    assert_eq!(host.console.take_out(), "");
    assert_eq!(host.console.take_err(), "");
}
