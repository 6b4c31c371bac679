use clean_runner::abi::HostFunction;
use clean_runner::bridge::{answer, Reply, Value};
use clean_runner::guest::guest_memory;
use clean_runner::host::{Fault, Host};
use clean_runner::strings::read_text;
use std::sync::{Arc, Mutex};
use wasmtime::{Caller, Config, Engine, Linker, Module, Store};

/// Runs `check` as a host function of a guest that declares `items`.
fn inside(items: &str, check: impl Fn(&mut Caller<'_, ()>, &mut Host) + Send + Sync + 'static) {
    let source = format!(
        "(module (import \"t\" \"go\" (func $go)) {} (func (export \"start\") call $go))",
        items
    );
    // Memories take up no more address space than they hold.
    let mut config = Config::new();
    config.static_memory_maximum_size(0);
    config.dynamic_memory_guard_size(0);
    config.dynamic_memory_reserved_for_growth(0);
    let engine = Engine::new(&config).unwrap();
    let module = Module::new(&engine, source).unwrap();
    let mut store = Store::new(&engine, ());
    let mut linker: Linker<()> = Linker::new(&engine);
    let host = Arc::new(Mutex::new(Host::new()));
    linker
        .func_wrap("t", "go", move |mut caller: Caller<'_, ()>| {
            check(&mut caller, &mut host.lock().unwrap())
        })
        .unwrap();
    let instance = linker.instantiate(&mut store, &module).unwrap();
    instance.get_func(&mut store, "start").unwrap().call(&mut store, &[], &mut []).unwrap();
}

fn text_at(caller: &mut Caller<'_, ()>, ptr: i32) -> Option<String> {
    let memory = guest_memory(caller).unwrap();
    read_text(memory.data(&mut *caller), ptr).unwrap()
}

fn integers(values: &[i32]) -> Vec<Value> {
    values.iter().map(|value| Value::I32(*value)).collect()
}

fn done(value: i32) -> Result<Reply, Fault> {
    Ok(Reply::Done(Some(Value::I32(value))))
}

fn nothing() -> Result<Reply, Fault> {
    Ok(Reply::Done(None))
}

#[test]
fn stubs_and_plain_functions() {
    inside("", |caller, host| {
        let mut ask = |function, args: &[Value]| answer(function, "f", args, caller, host);
        assert_eq!(ask(HostFunction::Ignore(1), &integers(&[5])), nothing());
        assert_eq!(ask(HostFunction::Zero(0), &[]), done(0));
        assert_eq!(ask(HostFunction::Zero(2), &integers(&[5, 6])), done(0));
        assert_eq!(
            ask(HostFunction::ZeroFloat(1), &integers(&[5])),
            Ok(Reply::Done(Some(Value::F64(0.0f64.to_bits()))))
        );
        assert_eq!(ask(HostFunction::ZeroOfFloat, &[Value::F64(9)]), done(0));
        assert_eq!(ask(HostFunction::ConditionalInteger, &integers(&[2, 5, 6])), done(5));
        assert_eq!(ask(HostFunction::ConditionalInteger, &integers(&[0, 5, 6])), done(6));
        let (a, b) = (1.5f64.to_bits(), 2.5f64.to_bits());
        assert_eq!(
            ask(HostFunction::ConditionalNumber, &[Value::I32(0), Value::F64(a), Value::F64(b)]),
            Ok(Reply::Done(Some(Value::F64(b))))
        );
        assert_eq!(ask(HostFunction::Same, &integers(&[-3])), done(-3));
        assert_eq!(
            ask(HostFunction::SameFloat, &[Value::F64(a)]),
            Ok(Reply::Done(Some(Value::F64(a))))
        );
        assert_eq!(ask(HostFunction::IntToBool, &integers(&[-3])), done(1));
        assert_eq!(ask(HostFunction::ServerSleep, &[Value::I64(20)]), Ok(Reply::Sleep(20)));
        assert_eq!(ask(HostFunction::ServerSleep, &[Value::I64(-20)]), Ok(Reply::Sleep(0)));
        assert_eq!(ask(HostFunction::Pow, &[Value::F64(a), Value::F64(b)]), Ok(Reply::Number));
        assert_eq!(ask(HostFunction::PrintFloat, &[Value::F64(a)]), Ok(Reply::Number));
        // Too few, too many, of another type.
        assert_eq!(ask(HostFunction::Zero(2), &integers(&[5])), Ok(Reply::Mistyped));
        assert_eq!(ask(HostFunction::Zero(0), &integers(&[5])), Ok(Reply::Mistyped));
        assert_eq!(ask(HostFunction::Same, &[Value::I64(5)]), Ok(Reply::Mistyped));
        assert_eq!(ask(HostFunction::Pow, &integers(&[1, 2])), Ok(Reply::Mistyped));
    });
}

#[test]
fn functions_of_the_allocator() {
    inside("", |caller, host| {
        let mut ask = |function, args: &[i32]| answer(function, "f", &integers(args), caller, host);
        assert_eq!(ask(HostFunction::MemAlloc, &[1, 20]), done(1_048_576));
        assert_eq!(ask(HostFunction::MemScopePush, &[]), nothing());
        assert_eq!(ask(HostFunction::MemAlloc, &[1, 8]), done(1_048_600));
        assert_eq!(ask(HostFunction::MemScopePop, &[]), nothing());
        assert_eq!(ask(HostFunction::MemAlloc, &[1, 8]), done(1_048_600));
        assert_eq!(ask(HostFunction::MemAlloc, &[1, -1]), Err(Fault::AddressOverflow));
    });
}

#[test]
fn functions_that_print() {
    inside(
        "(memory (export \"memory\") 1) (data (i32.const 8) \"hi\")",
        |caller, host| {
            let mut ask = |function, args: &[i32]| answer(function, "f", &integers(args), caller, host);
            assert_eq!(ask(HostFunction::Print, &[8, 2]), nothing());
            assert_eq!(ask(HostFunction::Printl, &[8, 1]), nothing());
            assert_eq!(ask(HostFunction::PrintSimple, &[4]), nothing());
            assert_eq!(ask(HostFunction::PrintlSimple, &[2]), nothing());
            assert_eq!(ask(HostFunction::PrintBoolean, &[2]), nothing());
            assert_eq!(ask(HostFunction::Print, &[i32::MAX, 1]), Err(Fault::AddressOverflow));
            assert_eq!(
                answer(HostFunction::PrintInteger, "f", &[Value::I64(-7)], caller, host),
                nothing()
            );
            assert_eq!(host.console.take_out(), "hih\n42\ntrue\n-7\n");
        },
    );
}

#[test]
fn functions_on_memory() {
    inside(
        "(memory (export \"memory\") 17)
         (data (i32.const 16) \"\\04\\00\\00\\00 a,b\")
         (data (i32.const 32) \"\\01\\00\\00\\00,\")
         (data (i32.const 48) \"\\05\\00\\00\\00email\")
         (data (i32.const 77) \"\\01\\00\\00\\00\\09\\00\\00\\00\")",
        |caller, host| {
            let mut stored = |function, args: &[i32]| {
                match answer(function, "f", &integers(args), caller, host) {
                    Ok(Reply::Done(Some(Value::I32(ptr)))) => text_at(caller, ptr).unwrap(),
                    _ => panic!("nothing stored"),
                }
            };
            assert_eq!(stored(HostFunction::IntToString, &[-12]), "-12");
            assert_eq!(stored(HostFunction::BoolToString, &[0]), "false");
            assert_eq!(stored(HostFunction::StringConcat, &[16, 32]), " a,b,");
            assert_eq!(stored(HostFunction::StringReplace, &[16, 32, 48]), " aemailb");
            assert_eq!(stored(HostFunction::StringTrim, &[16]), "a,b");
            assert_eq!(stored(HostFunction::StringTrimStart, &[16]), "a,b");
            assert_eq!(stored(HostFunction::StringTrimEnd, &[16]), " a,b");
            assert_eq!(stored(HostFunction::StringRepeat, &[32, 0, 3]), ",,,");
            let mut ask = |function, args: &[i32]| answer(function, "f", &integers(args), caller, host);
            assert_eq!(ask(HostFunction::StringCompare, &[16, 16]), done(0));
            assert_eq!(ask(HostFunction::StringCompare, &[16, 32]), done(1));
            assert_eq!(ask(HostFunction::StringMatches, &[16, 0, 48, 0]), done(0));
            assert_eq!(ask(HostFunction::ArrayGet, &[64, 0]), done(9));
            assert_eq!(ask(HostFunction::StringConcat, &[-1, 16]), Err(Fault::AddressOverflow));
            assert_eq!(ask(HostFunction::StringConcat, &[16, 2_000_000]), done(0));
            assert_eq!(
                host.console.take_err(),
                "f: ptr2 out of bounds or invalid UTF-8\n"
            );
            let next = host.arena.next_offset() as i32;
            assert_eq!(
                answer(HostFunction::StringSplit, "f", &integers(&[16, 32]), caller, host),
                done(next)
            );
            let number = [Value::I32(128), Value::F64(0.5f64.to_bits())];
            assert_eq!(answer(HostFunction::ListPushF64, "f", &number, caller, host), done(128));
            let memory = guest_memory(caller).unwrap();
            let data = memory.data(&mut *caller);
            assert_eq!(&data[144..152], &0.5f64.to_le_bytes());
        },
    );
}
