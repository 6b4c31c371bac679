use clean_runner::abi::{imports, signature, HostFunction, MathFunction, ValueType};
use clean_runner::scalar::{conditional, integer_to_boolean, sleep_millis};

fn lookup(module: &str, name: &str) -> Option<HostFunction> {
    imports()
        .iter()
        .find(|i| i.module == module && i.name == name)
        .map(|i| i.function)
}

#[test]
fn no_function_is_offered_twice() {
    let all = imports();
    assert_eq!(all.len(), 150);
    for (i, a) in all.iter().enumerate() {
        for b in &all[i + 1..] {
            assert!(a.module != b.module || a.name != b.name, "{} {}", a.module, a.name);
        }
    }
}

#[test]
fn both_spellings_mean_the_same() {
    for name in [
        "pow", "sin", "cos", "tan", "asin", "acos", "atan", "atan2", "sinh", "cosh", "tanh", "ln",
        "log10", "log2", "exp", "exp2", "sqrt", "floor", "ceil", "round", "abs",
    ] {
        let underscored = lookup("env", &format!("math_{}", name));
        assert!(underscored.is_some(), "{}", name);
        assert_eq!(underscored, lookup("env", &format!("math.{}", name)));
    }
    assert_eq!(lookup("env", "string_concat"), lookup("env", "string.concat"));
    assert_eq!(lookup("env", "string_split"), lookup("env", "string.split"));
    assert_eq!(lookup("env", "int_to_string"), lookup("env", "integer.toString"));
}

#[test]
fn some_names_and_what_they_mean() {
    assert_eq!(lookup("env", "print"), Some(HostFunction::Print));
    assert_eq!(lookup("env", "file_write"), Some(HostFunction::Zero(4)));
    assert_eq!(lookup("env", "http_post_with_headers"), Some(HostFunction::Zero(6)));
    assert_eq!(lookup("env", "_http_route_protected"), Some(HostFunction::Zero(7)));
    assert_eq!(lookup("env", "http_set_timeout"), Some(HostFunction::Ignore(1)));
    assert_eq!(lookup("env", "input_float"), Some(HostFunction::ZeroFloat(1)));
    assert_eq!(lookup("env", "number.length"), Some(HostFunction::ZeroOfFloat));
    assert_eq!(lookup("env", "math.abs"), Some(HostFunction::Math(MathFunction::Abs)));
    assert_eq!(lookup("memory_runtime", "mem_alloc"), Some(HostFunction::MemAlloc));
    assert_eq!(lookup("env", "mem_alloc"), None);
    assert_eq!(lookup("env", "list.push_f64"), Some(HostFunction::ListPushF64));
}

#[test]
fn plain_values() {
    assert_eq!(conditional(1, 10, 20), 10);
    assert_eq!(conditional(0, 10, 20), 20);
    assert_eq!(conditional(-1, 1.5, 2.5), 1.5);
    assert_eq!(integer_to_boolean(0), 0);
    assert_eq!(integer_to_boolean(7), 1);
    assert_eq!(integer_to_boolean(-7), 1);
    assert_eq!(sleep_millis(25), 25);
    assert_eq!(sleep_millis(0), 0);
    assert_eq!(sleep_millis(-25), 0);
    assert_eq!(sleep_millis(i64::MAX), i64::MAX as u64);
}

#[test]
fn signatures() {
    let types = |function: HostFunction| {
        let found = signature(function);
        (found.params, found.result)
    };
    let (i32, i64, f64) = (ValueType::I32, ValueType::I64, ValueType::F64);
    assert_eq!(types(HostFunction::Print), (vec![i32, i32], None));
    assert_eq!(types(HostFunction::PrintInteger), (vec![i64], None));
    assert_eq!(types(HostFunction::PrintFloat), (vec![f64], None));
    assert_eq!(types(HostFunction::Ignore(2)), (vec![i32, i32], None));
    assert_eq!(types(HostFunction::Zero(0)), (vec![], Some(i32)));
    assert_eq!(types(HostFunction::Zero(3)), (vec![i32, i32, i32], Some(i32)));
    assert_eq!(types(HostFunction::ZeroFloat(1)), (vec![i32], Some(f64)));
    assert_eq!(types(HostFunction::ZeroOfFloat), (vec![f64], Some(i32)));
    assert_eq!(types(HostFunction::Pow), (vec![f64, f64], Some(f64)));
    assert_eq!(types(HostFunction::ConditionalInteger), (vec![i32, i32, i32], Some(i32)));
    assert_eq!(types(HostFunction::ConditionalNumber), (vec![i32, f64, f64], Some(f64)));
    assert_eq!(types(HostFunction::IntToFloat), (vec![i32], Some(f64)));
    assert_eq!(types(HostFunction::FloatToInt), (vec![f64], Some(i32)));
    assert_eq!(types(HostFunction::StringMatches), (vec![i32, i32, i32, i32], Some(i32)));
    assert_eq!(types(HostFunction::ServerSleep), (vec![i64], None));
    assert_eq!(types(HostFunction::MemAlloc), (vec![i32, i32], Some(i32)));
    assert_eq!(types(HostFunction::MemScopePush), (vec![], None));
    assert_eq!(types(HostFunction::ListPushF64), (vec![i32, f64], Some(i32)));
}
