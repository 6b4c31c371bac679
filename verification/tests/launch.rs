use clean_runner::launch::{
    choose_start, function_names, load, no_start_message, parse_command, select_start, Command,
    LoadError,
};
use wasmtime::Engine;

fn args(words: &[&str]) -> Vec<String> {
    words.iter().map(|w| w.to_string()).collect()
}

#[test]
fn too_few_arguments_ask_for_help() {
    assert!(matches!(parse_command(&args(&["clean-runner"])), Command::Usage));
    assert!(matches!(parse_command(&args(&[])), Command::Usage));
}

#[test]
fn both_spellings_ask_for_the_version() {
    assert!(matches!(parse_command(&args(&["r", "--version"])), Command::Version));
    assert!(matches!(parse_command(&args(&["r", "-V", "x"])), Command::Version));
}

#[test]
fn anything_else_is_a_file_to_run() {
    match parse_command(&args(&["r", "a.wasm", "--version"])) {
        Command::Run(path) => assert_eq!(path, "a.wasm"),
        _ => panic!("expected a file"),
    }
    assert!(matches!(parse_command(&args(&["r", "-v"])), Command::Run(_)));
}

#[test]
fn start_names_are_tried_in_order() {
    assert_eq!(select_start(&args(&["_main", "main", "_start", "start"])), Some("start".into()));
    assert_eq!(select_start(&args(&["_main", "main", "_start"])), Some("_start".into()));
    assert_eq!(select_start(&args(&["other", "_main", "main"])), Some("main".into()));
    assert_eq!(select_start(&args(&["_main"])), Some("_main".into()));
    assert_eq!(select_start(&args(&["Start", "run"])), None);
    assert_eq!(select_start(&args(&[])), None);
}

#[test]
fn only_functions_are_listed() {
    let exports = vec![
        ("memory".to_string(), false),
        ("b".to_string(), true),
        ("start".to_string(), false),
        ("a".to_string(), true),
    ];
    assert_eq!(function_names(&exports), vec!["b", "a"]);
    assert_eq!(function_names(&Vec::new()), Vec::<String>::new());
}

#[test]
fn a_start_or_the_functions_that_are_there() {
    let exports = vec![
        ("start".to_string(), false),
        ("_main".to_string(), true),
        ("main".to_string(), true),
    ];
    assert_eq!(choose_start(&exports), Ok("main".to_string()));
    let exports = vec![("start".to_string(), false), ("run".to_string(), true)];
    assert_eq!(choose_start(&exports), Err(vec!["run".to_string()]));
}

#[test]
fn the_most_wanted_function_of_a_module_is_found() {
    let source = "(module (memory (export \"start\") 1)
        (func (export \"_main\"))
        (func (export \"main\"))
        (func (export \"other\")))";
    let program = load(&Engine::default(), source.as_bytes()).ok().unwrap();
    assert_eq!(program.start, Ok("main".to_string()));
    assert_eq!(program.module.exports().len(), 4);
}

#[test]
fn without_a_start_the_functions_are_listed() {
    let source = "(module (func (export \"run\")) (memory (export \"main\") 1) (func (export \"go\")))";
    let program = load(&Engine::default(), source.as_bytes()).ok().unwrap();
    assert_eq!(program.start, Err(vec!["run".to_string(), "go".to_string()]));
    assert_eq!(
        no_start_message("[\"run\", \"go\"]"),
        "No start/main function found. Available function exports: [\"run\", \"go\"]"
    );
    // The shortest module in binary.
    let program = load(&Engine::default(), b"\0asm\x01\0\0\0").ok().unwrap();
    assert_eq!(program.start, Err(Vec::new()));
}

#[test]
fn bytes_that_are_no_module_are_rejected() {
    let engine = Engine::default();
    assert!(matches!(load(&engine, b""), Err(LoadError::Rejected(_))));
    assert!(matches!(load(&engine, b"(module (func"), Err(LoadError::Rejected(_))));
    assert!(matches!(load(&engine, b"\0asm\x02\0\0\0"), Err(LoadError::Rejected(_))));
}
