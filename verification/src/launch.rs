//! Starting up: what the command line asks for, and where the guest begins.

use crate::text;
use vstd::prelude::*;
use vstd::string::*;
use wasmtime::{Engine, Module};

verus! {

/// The compiler of modules and its settings.
#[verifier::external_type_specification]
#[verifier::external_body]
pub struct ExEngine(wasmtime::Engine);

/// A compiled module.
#[verifier::external_type_specification]
#[verifier::external_body]
pub struct ExModule(wasmtime::Module);

/// What the command line asks for.
pub enum Command {
    /// Say how the program is used; the arguments are too few.
    Usage,
    /// Say which version this is.
    Version,
    /// Run the module in the named file.
    Run(String),
}

/// What the arguments, the program's own name among them, ask for.
pub open spec fn asks_for(args: Seq<Seq<char>>, command: Command) -> bool {
    if args.len() < 2 {
        command is Usage
    } else if args[1] == "--version"@ || args[1] == "-V"@ {
        command is Version
    } else {
        command matches Command::Run(path) && path@ == args[1]
    }
}

/// Reads the command line, the program's own name first.
pub fn parse_command(args: &Vec<String>) -> (r: Command)
    ensures
        asks_for(text::views(args@), r),
{
    if args.len() < 2 {
        return Command::Usage;
    }
    assert(text::views(args@)[1] == args@[1]@);
    if text::same_text(args[1].as_str(), "--version") || text::same_text(args[1].as_str(), "-V") {
        Command::Version
    } else {
        Command::Run(args[1].clone())
    }
}

/// The function to start with: the most wanted name among the exported functions.
pub open spec fn start_name(functions: Seq<Seq<char>>) -> Option<Seq<char>> {
    if functions.contains("start"@) {
        Some("start"@)
    } else if functions.contains("_start"@) {
        Some("_start"@)
    } else if functions.contains("main"@) {
        Some("main"@)
    } else if functions.contains("_main"@) {
        Some("_main"@)
    } else {
        None
    }
}

/// Whether `name` is one of `names`.
fn listed(names: &Vec<String>, name: &str) -> (r: bool)
    ensures
        r == text::views(names@).contains(name@),
{
    let ghost views = text::views(names@);
    let mut i: usize = 0;
    while i < names.len()
        invariant
            i <= names@.len(),
            views == text::views(names@),
            forall|j: int| 0 <= j < i ==> views[j] != name@,
        decreases names@.len() - i,
    {
        assert(views[i as int] == names@[i as int]@);
        if text::same_text(names[i].as_str(), name) {
            return true;
        }
        i = i + 1;
    }
    false
}

/// Picks the function to start with from the names of the exported functions.
pub fn select_start(functions: &Vec<String>) -> (r: Option<String>)
    ensures
        start_name(text::views(functions@)) == (match r {
            Some(name) => Some(name@),
            None => None,
        }),
{
    if listed(functions, "start") {
        Some("start".to_owned())
    } else if listed(functions, "_start") {
        Some("_start".to_owned())
    } else if listed(functions, "main") {
        Some("main".to_owned())
    } else if listed(functions, "_main") {
        Some("_main".to_owned())
    } else {
        None
    }
}

/// The items that a compiled module exports, in order: the name of each, and
/// whether it is a function.
pub uninterp spec fn module_exports(module: Module) -> Seq<(Seq<char>, bool)>;

/// The items that the module in `bytes` exports, in the same form; none where the
/// bytes hold no module that the engine takes.
pub uninterp spec fn declared_exports(engine: Engine, bytes: Seq<u8>) -> Option<
    Seq<(Seq<char>, bool)>,
>;

/// What each exported item amounts to.
pub open spec fn export_views(exports: Seq<(String, bool)>) -> Seq<(Seq<char>, bool)> {
    exports.map_values(|export: (String, bool)| (export.0@, export.1))
}

/// Calls `Module::new`: compiles the module in `bytes`, in binary or in text. The
/// compiled module exports what the bytes declare, and bytes that hold no module
/// are refused. A module can also be refused for the limits of the machine, so
/// success is not promised.
#[verifier::external_body]
fn compile(engine: &Engine, bytes: &[u8]) -> (r: Result<Module, wasmtime::Error>)
    ensures
        r matches Ok(module) ==> declared_exports(*engine, bytes@) == Some(module_exports(module)),
        declared_exports(*engine, bytes@) is None ==> r is Err,
{
    Module::new(engine, bytes)
}

/// Calls `Module::exports`: the exported items of a module, in order.
#[verifier::external_body]
fn list_exports(module: &Module) -> (r: Vec<(String, bool)>)
    ensures
        export_views(r@) == module_exports(*module),
{
    let exports = module.exports();
    exports.map(|export| (export.name().to_string(), export.ty().func().is_some())).collect()
}

/// The names of the functions among exported items, in order.
pub open spec fn functions_among(exports: Seq<(Seq<char>, bool)>) -> Seq<Seq<char>>
    decreases exports.len(),
{
    if exports.len() == 0 {
        Seq::empty()
    } else if exports.last().1 {
        functions_among(exports.drop_last()).push(exports.last().0)
    } else {
        functions_among(exports.drop_last())
    }
}

/// Lists the names of the functions among exported items.
pub fn function_names(exports: &Vec<(String, bool)>) -> (r: Vec<String>)
    ensures
        text::views(r@) == functions_among(export_views(exports@)),
{
    let ghost all = export_views(exports@);
    let mut r: Vec<String> = Vec::new();
    let mut i: usize = 0;
    while i < exports.len()
        invariant
            i <= exports@.len(),
            all == export_views(exports@),
            text::views(r@) == functions_among(all.take(i as int)),
        decreases exports@.len() - i,
    {
        assert(all.take(i + 1).drop_last() == all.take(i as int));
        assert(all[i as int] == (exports@[i as int].0@, exports@[i as int].1));
        if exports[i].1 {
            let ghost done = r@;
            let name = exports[i].0.clone();
            r.push(name);
            assert(text::views(r@) == text::views(done).push(name@));
        }
        i = i + 1;
    }
    assert(all.take(i as int) == all);
    r
}

/// The names that are listed are those of the exported functions.
pub proof fn law_functions_among(exports: Seq<(Seq<char>, bool)>, name: Seq<char>)
    ensures
        functions_among(exports).contains(name) <==> exports.contains((name, true)),
    decreases exports.len(),
{
    if exports.len() > 0 {
        let rest = exports.drop_last();
        law_functions_among(rest, name);
        assert(exports == rest.push(exports.last()));
        if rest.contains((name, true)) {
            let i = choose|i: int| 0 <= i < rest.len() && rest[i] == (name, true);
            assert(exports[i] == (name, true));
        }
        let before = functions_among(rest);
        if exports.last().1 {
            let after = before.push(exports.last().0);
            if before.contains(name) {
                let i = choose|i: int| 0 <= i < before.len() && before[i] == name;
                assert(after[i] == name);
            }
            assert(after.last() == exports.last().0);
            if exports.contains((name, true)) && !rest.contains((name, true)) {
                assert(after[after.len() - 1] == name);
            }
        }
    }
}

/// What there is to start: the most wanted function, or, where there is none, the
/// functions that are there.
pub open spec fn start_of(exports: Seq<(Seq<char>, bool)>) -> Result<Seq<char>, Seq<Seq<char>>> {
    let functions = functions_among(exports);
    match start_name(functions) {
        Some(name) => Ok(name),
        None => Err(functions),
    }
}

/// What a start amounts to.
pub open spec fn start_view(start: Result<String, Vec<String>>) -> Result<
    Seq<char>,
    Seq<Seq<char>>,
> {
    match start {
        Ok(name) => Ok(name@),
        Err(functions) => Err(text::views(functions@)),
    }
}

/// Chooses what to start from the exported items of a module.
pub fn choose_start(exports: &Vec<(String, bool)>) -> (r: Result<String, Vec<String>>)
    ensures
        start_view(r) == start_of(export_views(exports@)),
{
    let functions = function_names(exports);
    match select_start(&functions) {
        Some(name) => Ok(name),
        None => Err(functions),
    }
}

/// The function that is started is one that the module exports.
pub proof fn law_start_is_exported(exports: Seq<(Seq<char>, bool)>)
    ensures
        start_of(exports) matches Ok(name) ==> exports.contains((name, true)),
{
    if let Ok(name) = start_of(exports) {
        law_functions_among(exports, name);
    }
}

/// Whether compiling exactly `bytes` may end in `module`.
pub closed spec fn compiles_to(engine: Engine, bytes: Seq<u8>, module: Module) -> bool {
    exists|given: &[u8]|
        given@ == bytes && #[trigger] call_ensures(
            compile,
            (&engine, given),
            Ok::<Module, wasmtime::Error>(module),
        )
}

/// Whether compiling exactly `bytes` may end in `error`.
pub closed spec fn fails_with(engine: Engine, bytes: Seq<u8>, error: wasmtime::Error) -> bool {
    exists|given: &[u8]|
        given@ == bytes && #[trigger] call_ensures(
            compile,
            (&engine, given),
            Err::<Module, wasmtime::Error>(error),
        )
}

/// A module that is ready to be brought to life, and what to start in it: the name
/// of a function, or the functions that it exports where none of them is a start.
pub struct Program {
    pub module: Module,
    pub start: Result<String, Vec<String>>,
}

/// Why a module cannot be loaded.
pub enum LoadError {
    /// The bytes were not accepted as a module.
    Rejected(wasmtime::Error),
}

/// Compiles the module in `bytes` and chooses what to start in it.
pub fn load(engine: &Engine, bytes: &[u8]) -> (r: Result<Program, LoadError>)
    ensures
        declared_exports(*engine, bytes@) is None ==> r is Err,
        r matches Err(LoadError::Rejected(error)) ==> fails_with(*engine, bytes@, error),
        r matches Ok(program) ==> {
            &&& compiles_to(*engine, bytes@, program.module)
            &&& declared_exports(*engine, bytes@) == Some(module_exports(program.module))
            &&& start_view(program.start) == start_of(declared_exports(*engine, bytes@)->0)
        },
{
    match compile(engine, bytes) {
        Ok(module) => {
            let start = choose_start(&list_exports(&module));
            Ok(Program { module, start })
        },
        Err(error) => Err(LoadError::Rejected(error)),
    }
}

/// What is said where a module has nothing to start; `listing` shows the functions
/// that it exports.
pub open spec fn no_start(listing: Seq<char>) -> Seq<char> {
    "No start/main function found. Available function exports: "@ + listing
}

/// What to say where a module has nothing to start.
pub fn no_start_message(listing: &str) -> (r: String)
    ensures
        r@ == no_start(listing@),
{
    let mut r = "No start/main function found. Available function exports: ".to_owned();
    r.append(listing);
    r
}

/// A module is rejected only where compiling exactly its bytes failed, and with that
/// very error; else it is what those bytes compiled to. What is started is the most
/// wanted of the functions that the module exports; where it exports none of the
/// four, all its functions are listed.
pub proof fn law_load(engine: &Engine, bytes: &[u8], r: Result<Program, LoadError>, name: Seq<char>)
    requires
        call_ensures(load, (engine, bytes), r),
    ensures
        r matches Err(LoadError::Rejected(error)) ==> fails_with(*engine, bytes@, error),
        r matches Ok(program) ==> {
            let exports = module_exports(program.module);
            &&& compiles_to(*engine, bytes@, program.module)
            &&& match program.start {
                Ok(start) => wanted(exports, start@),
                Err(listed) => {
                    &&& !wanted(exports, name)
                    &&& text::views(listed@).contains(name) <==> exports.contains((name, true))
                },
            }
        },
{
    if let Ok(program) = r {
        let exports = module_exports(program.module);
        law_start_choice(exports, name);
        match program.start {
            Ok(start) => {
                law_start_choice(exports, start@);
            },
            Err(listed) => {
                law_functions_among(exports, name);
            },
        }
    }
}

/// What it means that compiling fails or succeeds: `Module::new` has such an outcome
/// on exactly these bytes.
proof fn law_outcomes_of_compiling(
    engine: Engine,
    bytes: Seq<u8>,
    module: Module,
    error: wasmtime::Error,
)
    ensures
        compiles_to(engine, bytes, module) ==> exists|given: &[u8]|
            given@ == bytes && #[trigger] call_ensures(
                compile,
                (&engine, given),
                Ok::<Module, wasmtime::Error>(module),
            ),
        fails_with(engine, bytes, error) ==> exists|given: &[u8]|
            given@ == bytes && #[trigger] call_ensures(
                compile,
                (&engine, given),
                Err::<Module, wasmtime::Error>(error),
            ),
{
}

/// `name` is a start, it is the name of an exported function, and no exported
/// function has a name that is wanted more.
pub open spec fn wanted(exports: Seq<(Seq<char>, bool)>, name: Seq<char>) -> bool {
    &&& exports.contains((name, true))
    &&& {
        ||| name == "start"@
        ||| name == "_start"@ && !exports.contains(("start"@, true))
        ||| name == "main"@ && !exports.contains(("start"@, true)) && !exports.contains(
            ("_start"@, true),
        )
        ||| name == "_main"@ && !exports.contains(("start"@, true)) && !exports.contains(
            ("_start"@, true),
        ) && !exports.contains(("main"@, true))
    }
}

/// What is started is the wanted function, and there is nothing to start only where
/// no function is wanted.
pub proof fn law_start_choice(exports: Seq<(Seq<char>, bool)>, name: Seq<char>)
    ensures
        start_of(exports) == Ok::<Seq<char>, Seq<Seq<char>>>(name) <==> wanted(exports, name),
        start_of(exports) is Err ==> !wanted(exports, name),
{
    reveal_strlit("start");
    reveal_strlit("_start");
    reveal_strlit("main");
    reveal_strlit("_main");
    assert("start"@.len() == 5 && "_start"@.len() == 6 && "main"@.len() == 4 && "_main"@.len()
        == 5);
    assert("start"@[0] == 's' && "_main"@[0] == '_');
    law_functions_among(exports, "start"@);
    law_functions_among(exports, "_start"@);
    law_functions_among(exports, "main"@);
    law_functions_among(exports, "_main"@);
}

/// The functions are listed in the order in which they are exported, and nothing
/// else is listed.
pub proof fn law_functions_in_order(
    exports: Seq<(Seq<char>, bool)>,
    more: Seq<(Seq<char>, bool)>,
    name: Seq<char>,
)
    ensures
        functions_among(exports + more) == functions_among(exports) + functions_among(more),
        functions_among(seq![(name, true)]) == seq![name],
        functions_among(seq![(name, false)]).len() == 0,
    decreases more.len(),
{
    let none = Seq::<(Seq<char>, bool)>::empty();
    assert(seq![(name, true)].drop_last() == none);
    assert(seq![(name, false)].drop_last() == none);
    assert(functions_among(none) == Seq::<Seq<char>>::empty());
    if more.len() == 0 {
        assert(exports + more == exports);
        assert(functions_among(more) == Seq::<Seq<char>>::empty());
    } else {
        assert((exports + more).drop_last() == exports + more.drop_last());
        law_functions_in_order(exports, more.drop_last(), name);
    }
}

/// The command line asks for help where it names no file, for the version by either
/// spelling, and else to run what it names first.
pub proof fn law_command(args: &Vec<String>, command: Command)
    requires
        call_ensures(parse_command, (args,), command),
    ensures
        command is Usage <==> args@.len() < 2,
        command is Version <==> args@.len() >= 2 && (args@[1]@ == "--version"@ || args@[1]@
            == "-V"@),
        command matches Command::Run(path) ==> path@ == args@[1]@,
{
    if args@.len() >= 2 {
        assert(text::views(args@)[1] == args@[1]@);
    }
}

/// Where there is nothing to start, this is said of the functions that are there.
pub proof fn law_no_start_message(listing: &str, message: String)
    requires
        call_ensures(no_start_message, (listing,), message),
    ensures
        message@ == "No start/main function found. Available function exports: "@ + listing@,
{
}

} // verus!
