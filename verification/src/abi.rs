//! The functions that the host offers to the guest, by module and name.

use vstd::prelude::*;
use vstd::string::*;

verus! {

/// A function of one floating-point number.
#[derive(Clone, Copy, Debug, PartialEq, Eq, Structural)]
pub enum MathFunction {
    Sin,
    Cos,
    Tan,
    Asin,
    Acos,
    Atan,
    Sinh,
    Cosh,
    Tanh,
    Ln,
    Log10,
    Log2,
    Exp,
    Exp2,
    Sqrt,
    Floor,
    Ceil,
    Round,
    Abs,
}

/// What a function of the host does. Unless stated otherwise, arguments and
/// result are 32-bit integers.
#[derive(Clone, Copy, Debug, PartialEq, Eq, Structural)]
pub enum HostFunction {
    /// Prints text of the guest, given by pointer and length.
    Print,
    /// The same, and ends the line.
    Printl,
    /// Prints an integer.
    PrintSimple,
    /// Prints an integer and ends the line.
    PrintlSimple,
    /// Prints a 64-bit integer and ends the line.
    PrintInteger,
    /// Prints a floating-point number and ends the line.
    PrintFloat,
    /// Prints a truth value and ends the line.
    PrintBoolean,
    /// Takes that many arguments and does nothing.
    Ignore(u32),
    /// Takes that many arguments and returns zero.
    Zero(u32),
    /// Takes that many arguments and returns the floating-point zero.
    ZeroFloat(u32),
    /// Takes one floating-point number and returns zero.
    ZeroOfFloat,
    /// Raises a floating-point number to a floating-point power.
    Pow,
    /// The angle to a point with floating-point coordinates.
    Atan2,
    /// A function of one floating-point number.
    Math(MathFunction),
    /// Picks one of two integers.
    ConditionalInteger,
    /// Picks one of two floating-point numbers.
    ConditionalNumber,
    /// Stores an integer in decimal.
    IntToString,
    /// Stores a floating-point number in writing.
    FloatToString,
    /// Stores the word for a truth value.
    BoolToString,
    /// Stores the concatenation of two strings.
    StringConcat,
    /// Compares two strings.
    StringCompare,
    /// Stores a string with a search string replaced.
    StringReplace,
    /// Stores a string without white space at its ends.
    StringTrim,
    /// Stores a string without leading white space.
    StringTrimStart,
    /// Stores a string without trailing white space.
    StringTrimEnd,
    /// Stores the list of the pieces of a string.
    StringSplit,
    /// Stores copies of a string in a row.
    StringRepeat,
    /// Checks a string against a named pattern.
    StringMatches,
    /// Sleeps for a 64-bit number of milliseconds.
    ServerSleep,
    /// Hands out memory.
    MemAlloc,
    /// Enters a scope of the allocator.
    MemScopePush,
    /// Leaves a scope of the allocator.
    MemScopePop,
    /// Returns its argument.
    Same,
    /// Returns its floating-point argument.
    SameFloat,
    /// Turns an integer into a floating-point number.
    IntToFloat,
    /// Turns an integer into a truth value.
    IntToBool,
    /// Turns a floating-point number into an integer.
    FloatToInt,
    /// Turns a floating-point number into a truth value.
    FloatToBool,
    /// Reads an element of an array.
    ArrayGet,
    /// Appends a floating-point number to a list.
    ListPushF64,
}

/// A function under the name by which the guest imports it.
pub struct Import {
    pub module: String,
    pub name: String,
    pub function: HostFunction,
}

/// What an [`Import`] amounts to.
#[verifier::ext_equal]
pub struct ImportView {
    pub module: Seq<char>,
    pub name: Seq<char>,
    pub function: HostFunction,
}

impl View for Import {
    type V = ImportView;

    open spec fn view(&self) -> ImportView {
        ImportView { module: self.module@, name: self.name@, function: self.function }
    }
}

/// What each import amounts to.
pub open spec fn import_views(imports: Seq<Import>) -> Seq<ImportView> {
    imports.map_values(|import: Import| import@)
}

/// The function `function` of the general module under the name `name`.
pub open spec fn env(name: Seq<char>, function: HostFunction) -> ImportView {
    ImportView { module: "env"@, name, function }
}

/// The function `function` of the memory module under the name `name`.
pub open spec fn memory_runtime(name: Seq<char>, function: HostFunction) -> ImportView {
    ImportView { module: "memory_runtime"@, name, function }
}

/// Console output.
pub open spec fn console_imports() -> Seq<ImportView> {
    seq![
        env("print"@, HostFunction::Print),
        env("printl"@, HostFunction::Printl),
        env("print_simple"@, HostFunction::PrintSimple),
        env("printl_simple"@, HostFunction::PrintlSimple),
        env("print_integer"@, HostFunction::PrintInteger),
        env("print_float"@, HostFunction::PrintFloat),
        env("print_boolean"@, HostFunction::PrintBoolean),
    ]
}

/// Files, which the runner does not offer.
pub open spec fn file_imports() -> Seq<ImportView> {
    seq![
        env("file_write"@, HostFunction::Zero(4)),
        env("file_read"@, HostFunction::Zero(3)),
        env("file_exists"@, HostFunction::Zero(2)),
        env("file_delete"@, HostFunction::Zero(2)),
        env("file_append"@, HostFunction::Zero(4)),
    ]
}

/// The HTTP client, which the runner does not offer.
pub open spec fn http_client_imports() -> Seq<ImportView> {
    seq![
        env("http_get"@, HostFunction::Zero(2)),
        env("http_post"@, HostFunction::Zero(4)),
        env("http_put"@, HostFunction::Zero(4)),
        env("http_delete"@, HostFunction::Zero(2)),
        env("http_patch"@, HostFunction::Zero(4)),
        env("http_head"@, HostFunction::Zero(2)),
        env("http_options"@, HostFunction::Zero(2)),
        env("http_get_with_headers"@, HostFunction::Zero(4)),
        env("http_post_with_headers"@, HostFunction::Zero(6)),
        env("http_post_json"@, HostFunction::Zero(4)),
        env("http_put_json"@, HostFunction::Zero(4)),
        env("http_patch_json"@, HostFunction::Zero(4)),
        env("http_post_form"@, HostFunction::Zero(4)),
        env("http_set_user_agent"@, HostFunction::Ignore(2)),
        env("http_set_timeout"@, HostFunction::Ignore(1)),
        env("http_set_max_redirects"@, HostFunction::Ignore(1)),
        env("http_enable_cookies"@, HostFunction::Ignore(1)),
        env("http_get_response_code"@, HostFunction::Zero(0)),
        env("http_get_response_headers"@, HostFunction::Zero(0)),
        env("http_encode_url"@, HostFunction::Zero(2)),
        env("http_decode_url"@, HostFunction::Zero(2)),
        env("http_build_query"@, HostFunction::Zero(2)),
    ]
}

/// The HTTP server, sessions and authorisation, which the runner does not offer, and sleeping.
pub open spec fn server_imports() -> Seq<ImportView> {
    seq![
        env("_http_route"@, HostFunction::Zero(5)),
        env("_http_listen"@, HostFunction::Zero(1)),
        env("_req_param"@, HostFunction::Zero(2)),
        env("_req_query"@, HostFunction::Zero(2)),
        env("_req_body"@, HostFunction::Zero(0)),
        env("_req_header"@, HostFunction::Zero(2)),
        env("_req_method"@, HostFunction::Zero(0)),
        env("_req_path"@, HostFunction::Zero(0)),
        env("_req_cookie"@, HostFunction::Zero(2)),
        env("_http_route_protected"@, HostFunction::Zero(7)),
        env("_session_store"@, HostFunction::Zero(5)),
        env("_session_get"@, HostFunction::Zero(0)),
        env("_session_delete"@, HostFunction::Zero(0)),
        env("_http_set_cookie"@, HostFunction::Zero(2)),
        env("_auth_get_session"@, HostFunction::Zero(0)),
        env("_auth_require_auth"@, HostFunction::Zero(0)),
        env("_auth_require_role"@, HostFunction::Zero(2)),
        env("_auth_can"@, HostFunction::Zero(2)),
        env("_auth_has_any_role"@, HostFunction::Zero(2)),
        env("_server_sleep"@, HostFunction::ServerSleep),
    ]
}

/// Input, which the runner does not offer.
pub open spec fn input_imports() -> Seq<ImportView> {
    seq![
        env("input"@, HostFunction::Zero(1)),
        env("input_integer"@, HostFunction::Zero(1)),
        env("input_float"@, HostFunction::ZeroFloat(1)),
        env("input_yesno"@, HostFunction::Zero(1)),
        env("input_range"@, HostFunction::Zero(4)),
    ]
}

/// Mathematics.
pub open spec fn math_imports() -> Seq<ImportView> {
    seq![
        env("math_pow"@, HostFunction::Pow),
        env("math_sin"@, HostFunction::Math(MathFunction::Sin)),
        env("math_cos"@, HostFunction::Math(MathFunction::Cos)),
        env("math_tan"@, HostFunction::Math(MathFunction::Tan)),
        env("math_asin"@, HostFunction::Math(MathFunction::Asin)),
        env("math_acos"@, HostFunction::Math(MathFunction::Acos)),
        env("math_atan"@, HostFunction::Math(MathFunction::Atan)),
        env("math_atan2"@, HostFunction::Atan2),
        env("math_sinh"@, HostFunction::Math(MathFunction::Sinh)),
        env("math_cosh"@, HostFunction::Math(MathFunction::Cosh)),
        env("math_tanh"@, HostFunction::Math(MathFunction::Tanh)),
        env("math_ln"@, HostFunction::Math(MathFunction::Ln)),
        env("math_log10"@, HostFunction::Math(MathFunction::Log10)),
        env("math_log2"@, HostFunction::Math(MathFunction::Log2)),
        env("math_exp"@, HostFunction::Math(MathFunction::Exp)),
        env("math_exp2"@, HostFunction::Math(MathFunction::Exp2)),
        env("math_sqrt"@, HostFunction::Math(MathFunction::Sqrt)),
        env("math_floor"@, HostFunction::Math(MathFunction::Floor)),
        env("math_ceil"@, HostFunction::Math(MathFunction::Ceil)),
        env("math_round"@, HostFunction::Math(MathFunction::Round)),
        env("math_abs"@, HostFunction::Math(MathFunction::Abs)),
    ]
}

/// Mathematics, spelled as methods.
pub open spec fn math_method_imports() -> Seq<ImportView> {
    seq![
        env("math.pow"@, HostFunction::Pow),
        env("math.sin"@, HostFunction::Math(MathFunction::Sin)),
        env("math.cos"@, HostFunction::Math(MathFunction::Cos)),
        env("math.tan"@, HostFunction::Math(MathFunction::Tan)),
        env("math.asin"@, HostFunction::Math(MathFunction::Asin)),
        env("math.acos"@, HostFunction::Math(MathFunction::Acos)),
        env("math.atan"@, HostFunction::Math(MathFunction::Atan)),
        env("math.atan2"@, HostFunction::Atan2),
        env("math.sinh"@, HostFunction::Math(MathFunction::Sinh)),
        env("math.cosh"@, HostFunction::Math(MathFunction::Cosh)),
        env("math.tanh"@, HostFunction::Math(MathFunction::Tanh)),
        env("math.ln"@, HostFunction::Math(MathFunction::Ln)),
        env("math.log10"@, HostFunction::Math(MathFunction::Log10)),
        env("math.log2"@, HostFunction::Math(MathFunction::Log2)),
        env("math.exp"@, HostFunction::Math(MathFunction::Exp)),
        env("math.exp2"@, HostFunction::Math(MathFunction::Exp2)),
        env("math.sqrt"@, HostFunction::Math(MathFunction::Sqrt)),
        env("math.floor"@, HostFunction::Math(MathFunction::Floor)),
        env("math.ceil"@, HostFunction::Math(MathFunction::Ceil)),
        env("math.round"@, HostFunction::Math(MathFunction::Round)),
        env("math.abs"@, HostFunction::Math(MathFunction::Abs)),
    ]
}

/// Choice by a condition.
pub open spec fn choice_imports() -> Seq<ImportView> {
    seq![
        env("conditional_integer"@, HostFunction::ConditionalInteger),
        env("conditional_number"@, HostFunction::ConditionalNumber),
        env("conditional_boolean"@, HostFunction::ConditionalInteger),
        env("conditional_string"@, HostFunction::ConditionalInteger),
    ]
}

/// Conversions of integers.
pub open spec fn integer_imports() -> Seq<ImportView> {
    seq![
        env("int_to_string"@, HostFunction::IntToString),
        env("integer.toString"@, HostFunction::IntToString),
        env("integer.toInteger"@, HostFunction::Same),
        env("integer.toNumber"@, HostFunction::IntToFloat),
        env("integer.toBoolean"@, HostFunction::IntToBool),
        env("integer.length"@, HostFunction::Zero(1)),
    ]
}

/// Conversions of floating-point numbers.
pub open spec fn number_imports() -> Seq<ImportView> {
    seq![
        env("float_to_string"@, HostFunction::FloatToString),
        env("number.toString"@, HostFunction::FloatToString),
        env("number.toInteger"@, HostFunction::FloatToInt),
        env("number.toNumber"@, HostFunction::SameFloat),
        env("number.toBoolean"@, HostFunction::FloatToBool),
        env("number.length"@, HostFunction::ZeroOfFloat),
    ]
}

/// Conversions of truth values.
pub open spec fn boolean_imports() -> Seq<ImportView> {
    seq![
        env("bool_to_string"@, HostFunction::BoolToString),
        env("boolean.toString"@, HostFunction::BoolToString),
        env("boolean.toInteger"@, HostFunction::Same),
        env("boolean.toNumber"@, HostFunction::IntToFloat),
        env("boolean.toBoolean"@, HostFunction::Same),
        env("boolean.length"@, HostFunction::Zero(1)),
    ]
}

/// Strings.
pub open spec fn string_imports() -> Seq<ImportView> {
    seq![
        env("string_to_int"@, HostFunction::Zero(1)),
        env("string_to_float"@, HostFunction::ZeroFloat(1)),
        env("string_concat"@, HostFunction::StringConcat),
        env("string_compare"@, HostFunction::StringCompare),
        env("string_replace"@, HostFunction::StringReplace),
        env("string_trim"@, HostFunction::StringTrim),
        env("string_trim_start"@, HostFunction::StringTrimStart),
        env("string_trim_end"@, HostFunction::StringTrimEnd),
        env("string_split"@, HostFunction::StringSplit),
        env("string_repeat"@, HostFunction::StringRepeat),
        env("string_matches"@, HostFunction::StringMatches),
    ]
}

/// Strings, spelled as methods.
pub open spec fn string_method_imports() -> Seq<ImportView> {
    seq![
        env("string.concat"@, HostFunction::StringConcat),
        env("string.split"@, HostFunction::StringSplit),
        env("string.toUpperCase"@, HostFunction::Zero(1)),
        env("string.toLowerCase"@, HostFunction::Zero(1)),
        env("string.toString"@, HostFunction::Same),
        env("string.toInteger"@, HostFunction::Zero(1)),
        env("string.toNumber"@, HostFunction::ZeroFloat(1)),
        env("string.toBoolean"@, HostFunction::Zero(1)),
        env("string.length"@, HostFunction::Zero(1)),
    ]
}

/// Arrays and lists.
pub open spec fn collection_imports() -> Seq<ImportView> {
    seq![
        env("array_get"@, HostFunction::ArrayGet),
        env("list.push_f64"@, HostFunction::ListPushF64),
    ]
}

/// Memory management.
pub open spec fn memory_imports() -> Seq<ImportView> {
    seq![
        memory_runtime("mem_alloc"@, HostFunction::MemAlloc),
        memory_runtime("mem_retain"@, HostFunction::Ignore(1)),
        memory_runtime("mem_release"@, HostFunction::Ignore(1)),
        memory_runtime("mem_scope_push"@, HostFunction::MemScopePush),
        memory_runtime("mem_scope_pop"@, HostFunction::MemScopePop),
    ]
}

/// Everything that the host offers.
pub open spec fn all_imports() -> Seq<ImportView> {
    console_imports()
        + file_imports()
        + http_client_imports()
        + server_imports()
        + input_imports()
        + math_imports()
        + math_method_imports()
        + choice_imports()
        + integer_imports()
        + number_imports()
        + boolean_imports()
        + string_imports()
        + string_method_imports()
        + collection_imports()
        + memory_imports()
}

/// Adds an import.
fn offer(imports: &mut Vec<Import>, module: &str, name: &str, function: HostFunction)
    ensures
        import_views(final(imports)@) == import_views(old(imports)@).push(
            ImportView { module: module@, name: name@, function },
        ),
{
    imports.push(Import { module: module.to_owned(), name: name.to_owned(), function });
    assert(import_views(imports@) == import_views(old(imports)@).push(
        ImportView { module: module@, name: name@, function },
    ));
}

/// Adds the functions of [`console_imports`].
fn offer_console(imports: &mut Vec<Import>)
    ensures
        import_views(final(imports)@) == import_views(old(imports)@) + console_imports(),
{
    offer(imports, "env", "print", HostFunction::Print);
    offer(imports, "env", "printl", HostFunction::Printl);
    offer(imports, "env", "print_simple", HostFunction::PrintSimple);
    offer(imports, "env", "printl_simple", HostFunction::PrintlSimple);
    offer(imports, "env", "print_integer", HostFunction::PrintInteger);
    offer(imports, "env", "print_float", HostFunction::PrintFloat);
    offer(imports, "env", "print_boolean", HostFunction::PrintBoolean);
}

/// Adds the functions of [`file_imports`].
fn offer_file(imports: &mut Vec<Import>)
    ensures
        import_views(final(imports)@) == import_views(old(imports)@) + file_imports(),
{
    offer(imports, "env", "file_write", HostFunction::Zero(4));
    offer(imports, "env", "file_read", HostFunction::Zero(3));
    offer(imports, "env", "file_exists", HostFunction::Zero(2));
    offer(imports, "env", "file_delete", HostFunction::Zero(2));
    offer(imports, "env", "file_append", HostFunction::Zero(4));
}

/// Adds the functions of [`http_client_imports`].
fn offer_http_client(imports: &mut Vec<Import>)
    ensures
        import_views(final(imports)@) == import_views(old(imports)@) + http_client_imports(),
{
    offer(imports, "env", "http_get", HostFunction::Zero(2));
    offer(imports, "env", "http_post", HostFunction::Zero(4));
    offer(imports, "env", "http_put", HostFunction::Zero(4));
    offer(imports, "env", "http_delete", HostFunction::Zero(2));
    offer(imports, "env", "http_patch", HostFunction::Zero(4));
    offer(imports, "env", "http_head", HostFunction::Zero(2));
    offer(imports, "env", "http_options", HostFunction::Zero(2));
    offer(imports, "env", "http_get_with_headers", HostFunction::Zero(4));
    offer(imports, "env", "http_post_with_headers", HostFunction::Zero(6));
    offer(imports, "env", "http_post_json", HostFunction::Zero(4));
    offer(imports, "env", "http_put_json", HostFunction::Zero(4));
    offer(imports, "env", "http_patch_json", HostFunction::Zero(4));
    offer(imports, "env", "http_post_form", HostFunction::Zero(4));
    offer(imports, "env", "http_set_user_agent", HostFunction::Ignore(2));
    offer(imports, "env", "http_set_timeout", HostFunction::Ignore(1));
    offer(imports, "env", "http_set_max_redirects", HostFunction::Ignore(1));
    offer(imports, "env", "http_enable_cookies", HostFunction::Ignore(1));
    offer(imports, "env", "http_get_response_code", HostFunction::Zero(0));
    offer(imports, "env", "http_get_response_headers", HostFunction::Zero(0));
    offer(imports, "env", "http_encode_url", HostFunction::Zero(2));
    offer(imports, "env", "http_decode_url", HostFunction::Zero(2));
    offer(imports, "env", "http_build_query", HostFunction::Zero(2));
}

/// Adds the functions of [`server_imports`].
fn offer_server(imports: &mut Vec<Import>)
    ensures
        import_views(final(imports)@) == import_views(old(imports)@) + server_imports(),
{
    offer(imports, "env", "_http_route", HostFunction::Zero(5));
    offer(imports, "env", "_http_listen", HostFunction::Zero(1));
    offer(imports, "env", "_req_param", HostFunction::Zero(2));
    offer(imports, "env", "_req_query", HostFunction::Zero(2));
    offer(imports, "env", "_req_body", HostFunction::Zero(0));
    offer(imports, "env", "_req_header", HostFunction::Zero(2));
    offer(imports, "env", "_req_method", HostFunction::Zero(0));
    offer(imports, "env", "_req_path", HostFunction::Zero(0));
    offer(imports, "env", "_req_cookie", HostFunction::Zero(2));
    offer(imports, "env", "_http_route_protected", HostFunction::Zero(7));
    offer(imports, "env", "_session_store", HostFunction::Zero(5));
    offer(imports, "env", "_session_get", HostFunction::Zero(0));
    offer(imports, "env", "_session_delete", HostFunction::Zero(0));
    offer(imports, "env", "_http_set_cookie", HostFunction::Zero(2));
    offer(imports, "env", "_auth_get_session", HostFunction::Zero(0));
    offer(imports, "env", "_auth_require_auth", HostFunction::Zero(0));
    offer(imports, "env", "_auth_require_role", HostFunction::Zero(2));
    offer(imports, "env", "_auth_can", HostFunction::Zero(2));
    offer(imports, "env", "_auth_has_any_role", HostFunction::Zero(2));
    offer(imports, "env", "_server_sleep", HostFunction::ServerSleep);
}

/// Adds the functions of [`input_imports`].
fn offer_input(imports: &mut Vec<Import>)
    ensures
        import_views(final(imports)@) == import_views(old(imports)@) + input_imports(),
{
    offer(imports, "env", "input", HostFunction::Zero(1));
    offer(imports, "env", "input_integer", HostFunction::Zero(1));
    offer(imports, "env", "input_float", HostFunction::ZeroFloat(1));
    offer(imports, "env", "input_yesno", HostFunction::Zero(1));
    offer(imports, "env", "input_range", HostFunction::Zero(4));
}

/// Adds the functions of [`math_imports`].
fn offer_math(imports: &mut Vec<Import>)
    ensures
        import_views(final(imports)@) == import_views(old(imports)@) + math_imports(),
{
    offer(imports, "env", "math_pow", HostFunction::Pow);
    offer(imports, "env", "math_sin", HostFunction::Math(MathFunction::Sin));
    offer(imports, "env", "math_cos", HostFunction::Math(MathFunction::Cos));
    offer(imports, "env", "math_tan", HostFunction::Math(MathFunction::Tan));
    offer(imports, "env", "math_asin", HostFunction::Math(MathFunction::Asin));
    offer(imports, "env", "math_acos", HostFunction::Math(MathFunction::Acos));
    offer(imports, "env", "math_atan", HostFunction::Math(MathFunction::Atan));
    offer(imports, "env", "math_atan2", HostFunction::Atan2);
    offer(imports, "env", "math_sinh", HostFunction::Math(MathFunction::Sinh));
    offer(imports, "env", "math_cosh", HostFunction::Math(MathFunction::Cosh));
    offer(imports, "env", "math_tanh", HostFunction::Math(MathFunction::Tanh));
    offer(imports, "env", "math_ln", HostFunction::Math(MathFunction::Ln));
    offer(imports, "env", "math_log10", HostFunction::Math(MathFunction::Log10));
    offer(imports, "env", "math_log2", HostFunction::Math(MathFunction::Log2));
    offer(imports, "env", "math_exp", HostFunction::Math(MathFunction::Exp));
    offer(imports, "env", "math_exp2", HostFunction::Math(MathFunction::Exp2));
    offer(imports, "env", "math_sqrt", HostFunction::Math(MathFunction::Sqrt));
    offer(imports, "env", "math_floor", HostFunction::Math(MathFunction::Floor));
    offer(imports, "env", "math_ceil", HostFunction::Math(MathFunction::Ceil));
    offer(imports, "env", "math_round", HostFunction::Math(MathFunction::Round));
    offer(imports, "env", "math_abs", HostFunction::Math(MathFunction::Abs));
}

/// Adds the functions of [`math_method_imports`].
fn offer_math_method(imports: &mut Vec<Import>)
    ensures
        import_views(final(imports)@) == import_views(old(imports)@) + math_method_imports(),
{
    offer(imports, "env", "math.pow", HostFunction::Pow);
    offer(imports, "env", "math.sin", HostFunction::Math(MathFunction::Sin));
    offer(imports, "env", "math.cos", HostFunction::Math(MathFunction::Cos));
    offer(imports, "env", "math.tan", HostFunction::Math(MathFunction::Tan));
    offer(imports, "env", "math.asin", HostFunction::Math(MathFunction::Asin));
    offer(imports, "env", "math.acos", HostFunction::Math(MathFunction::Acos));
    offer(imports, "env", "math.atan", HostFunction::Math(MathFunction::Atan));
    offer(imports, "env", "math.atan2", HostFunction::Atan2);
    offer(imports, "env", "math.sinh", HostFunction::Math(MathFunction::Sinh));
    offer(imports, "env", "math.cosh", HostFunction::Math(MathFunction::Cosh));
    offer(imports, "env", "math.tanh", HostFunction::Math(MathFunction::Tanh));
    offer(imports, "env", "math.ln", HostFunction::Math(MathFunction::Ln));
    offer(imports, "env", "math.log10", HostFunction::Math(MathFunction::Log10));
    offer(imports, "env", "math.log2", HostFunction::Math(MathFunction::Log2));
    offer(imports, "env", "math.exp", HostFunction::Math(MathFunction::Exp));
    offer(imports, "env", "math.exp2", HostFunction::Math(MathFunction::Exp2));
    offer(imports, "env", "math.sqrt", HostFunction::Math(MathFunction::Sqrt));
    offer(imports, "env", "math.floor", HostFunction::Math(MathFunction::Floor));
    offer(imports, "env", "math.ceil", HostFunction::Math(MathFunction::Ceil));
    offer(imports, "env", "math.round", HostFunction::Math(MathFunction::Round));
    offer(imports, "env", "math.abs", HostFunction::Math(MathFunction::Abs));
}

/// Adds the functions of [`choice_imports`].
fn offer_choice(imports: &mut Vec<Import>)
    ensures
        import_views(final(imports)@) == import_views(old(imports)@) + choice_imports(),
{
    offer(imports, "env", "conditional_integer", HostFunction::ConditionalInteger);
    offer(imports, "env", "conditional_number", HostFunction::ConditionalNumber);
    offer(imports, "env", "conditional_boolean", HostFunction::ConditionalInteger);
    offer(imports, "env", "conditional_string", HostFunction::ConditionalInteger);
}

/// Adds the functions of [`integer_imports`].
fn offer_integer(imports: &mut Vec<Import>)
    ensures
        import_views(final(imports)@) == import_views(old(imports)@) + integer_imports(),
{
    offer(imports, "env", "int_to_string", HostFunction::IntToString);
    offer(imports, "env", "integer.toString", HostFunction::IntToString);
    offer(imports, "env", "integer.toInteger", HostFunction::Same);
    offer(imports, "env", "integer.toNumber", HostFunction::IntToFloat);
    offer(imports, "env", "integer.toBoolean", HostFunction::IntToBool);
    offer(imports, "env", "integer.length", HostFunction::Zero(1));
}

/// Adds the functions of [`number_imports`].
fn offer_number(imports: &mut Vec<Import>)
    ensures
        import_views(final(imports)@) == import_views(old(imports)@) + number_imports(),
{
    offer(imports, "env", "float_to_string", HostFunction::FloatToString);
    offer(imports, "env", "number.toString", HostFunction::FloatToString);
    offer(imports, "env", "number.toInteger", HostFunction::FloatToInt);
    offer(imports, "env", "number.toNumber", HostFunction::SameFloat);
    offer(imports, "env", "number.toBoolean", HostFunction::FloatToBool);
    offer(imports, "env", "number.length", HostFunction::ZeroOfFloat);
}

/// Adds the functions of [`boolean_imports`].
fn offer_boolean(imports: &mut Vec<Import>)
    ensures
        import_views(final(imports)@) == import_views(old(imports)@) + boolean_imports(),
{
    offer(imports, "env", "bool_to_string", HostFunction::BoolToString);
    offer(imports, "env", "boolean.toString", HostFunction::BoolToString);
    offer(imports, "env", "boolean.toInteger", HostFunction::Same);
    offer(imports, "env", "boolean.toNumber", HostFunction::IntToFloat);
    offer(imports, "env", "boolean.toBoolean", HostFunction::Same);
    offer(imports, "env", "boolean.length", HostFunction::Zero(1));
}

/// Adds the functions of [`string_imports`].
fn offer_string(imports: &mut Vec<Import>)
    ensures
        import_views(final(imports)@) == import_views(old(imports)@) + string_imports(),
{
    offer(imports, "env", "string_to_int", HostFunction::Zero(1));
    offer(imports, "env", "string_to_float", HostFunction::ZeroFloat(1));
    offer(imports, "env", "string_concat", HostFunction::StringConcat);
    offer(imports, "env", "string_compare", HostFunction::StringCompare);
    offer(imports, "env", "string_replace", HostFunction::StringReplace);
    offer(imports, "env", "string_trim", HostFunction::StringTrim);
    offer(imports, "env", "string_trim_start", HostFunction::StringTrimStart);
    offer(imports, "env", "string_trim_end", HostFunction::StringTrimEnd);
    offer(imports, "env", "string_split", HostFunction::StringSplit);
    offer(imports, "env", "string_repeat", HostFunction::StringRepeat);
    offer(imports, "env", "string_matches", HostFunction::StringMatches);
}

/// Adds the functions of [`string_method_imports`].
fn offer_string_method(imports: &mut Vec<Import>)
    ensures
        import_views(final(imports)@) == import_views(old(imports)@) + string_method_imports(),
{
    offer(imports, "env", "string.concat", HostFunction::StringConcat);
    offer(imports, "env", "string.split", HostFunction::StringSplit);
    offer(imports, "env", "string.toUpperCase", HostFunction::Zero(1));
    offer(imports, "env", "string.toLowerCase", HostFunction::Zero(1));
    offer(imports, "env", "string.toString", HostFunction::Same);
    offer(imports, "env", "string.toInteger", HostFunction::Zero(1));
    offer(imports, "env", "string.toNumber", HostFunction::ZeroFloat(1));
    offer(imports, "env", "string.toBoolean", HostFunction::Zero(1));
    offer(imports, "env", "string.length", HostFunction::Zero(1));
}

/// Adds the functions of [`collection_imports`].
fn offer_collection(imports: &mut Vec<Import>)
    ensures
        import_views(final(imports)@) == import_views(old(imports)@) + collection_imports(),
{
    offer(imports, "env", "array_get", HostFunction::ArrayGet);
    offer(imports, "env", "list.push_f64", HostFunction::ListPushF64);
}

/// Adds the functions of [`memory_imports`].
fn offer_memory(imports: &mut Vec<Import>)
    ensures
        import_views(final(imports)@) == import_views(old(imports)@) + memory_imports(),
{
    offer(imports, "memory_runtime", "mem_alloc", HostFunction::MemAlloc);
    offer(imports, "memory_runtime", "mem_retain", HostFunction::Ignore(1));
    offer(imports, "memory_runtime", "mem_release", HostFunction::Ignore(1));
    offer(imports, "memory_runtime", "mem_scope_push", HostFunction::MemScopePush);
    offer(imports, "memory_runtime", "mem_scope_pop", HostFunction::MemScopePop);
}

/// Lists everything that the host offers to the guest.
pub fn imports() -> (r: Vec<Import>)
    ensures
        import_views(r@) == all_imports(),
{
    let mut r: Vec<Import> = Vec::new();
    offer_console(&mut r);
    offer_file(&mut r);
    offer_http_client(&mut r);
    offer_server(&mut r);
    offer_input(&mut r);
    offer_math(&mut r);
    offer_math_method(&mut r);
    offer_choice(&mut r);
    offer_integer(&mut r);
    offer_number(&mut r);
    offer_boolean(&mut r);
    offer_string(&mut r);
    offer_string_method(&mut r);
    offer_collection(&mut r);
    offer_memory(&mut r);
    r
}

/// The type of an argument or a result.
#[derive(Clone, Copy, Debug, PartialEq, Eq, Structural)]
pub enum ValueType {
    I32,
    I64,
    F64,
}

/// The types of a function's arguments.
pub open spec fn parameters(function: HostFunction) -> Seq<ValueType> {
    match function {
        HostFunction::Ignore(count) | HostFunction::Zero(count) | HostFunction::ZeroFloat(
            count,
        ) => Seq::new(count as nat, |i: int| ValueType::I32),
        HostFunction::MemScopePush | HostFunction::MemScopePop => Seq::empty(),
        HostFunction::PrintInteger | HostFunction::ServerSleep => seq![ValueType::I64],
        HostFunction::PrintFloat
        | HostFunction::ZeroOfFloat
        | HostFunction::Math(_)
        | HostFunction::FloatToString
        | HostFunction::SameFloat
        | HostFunction::FloatToInt
        | HostFunction::FloatToBool => seq![ValueType::F64],
        HostFunction::PrintSimple
        | HostFunction::PrintlSimple
        | HostFunction::PrintBoolean
        | HostFunction::IntToString
        | HostFunction::BoolToString
        | HostFunction::StringTrim
        | HostFunction::StringTrimStart
        | HostFunction::StringTrimEnd
        | HostFunction::Same
        | HostFunction::IntToFloat
        | HostFunction::IntToBool => seq![ValueType::I32],
        HostFunction::Pow | HostFunction::Atan2 => seq![ValueType::F64, ValueType::F64],
        HostFunction::ListPushF64 => seq![ValueType::I32, ValueType::F64],
        HostFunction::Print
        | HostFunction::Printl
        | HostFunction::StringConcat
        | HostFunction::StringCompare
        | HostFunction::StringSplit
        | HostFunction::MemAlloc
        | HostFunction::ArrayGet => seq![ValueType::I32, ValueType::I32],
        HostFunction::ConditionalInteger
        | HostFunction::StringReplace
        | HostFunction::StringRepeat => seq![ValueType::I32, ValueType::I32, ValueType::I32],
        HostFunction::ConditionalNumber => seq![ValueType::I32, ValueType::F64, ValueType::F64],
        HostFunction::StringMatches => seq![
            ValueType::I32,
            ValueType::I32,
            ValueType::I32,
            ValueType::I32,
        ],
    }
}

/// The type of a function's result; none where it returns nothing.
pub open spec fn result_type(function: HostFunction) -> Option<ValueType> {
    match function {
        HostFunction::Print
        | HostFunction::Printl
        | HostFunction::PrintSimple
        | HostFunction::PrintlSimple
        | HostFunction::PrintInteger
        | HostFunction::PrintFloat
        | HostFunction::PrintBoolean
        | HostFunction::Ignore(_)
        | HostFunction::ServerSleep
        | HostFunction::MemScopePush
        | HostFunction::MemScopePop => None,
        HostFunction::ZeroFloat(_)
        | HostFunction::Pow
        | HostFunction::Atan2
        | HostFunction::Math(_)
        | HostFunction::ConditionalNumber
        | HostFunction::SameFloat
        | HostFunction::IntToFloat => Some(ValueType::F64),
        _ => Some(ValueType::I32),
    }
}

/// The types of a function's arguments and of its result.
pub struct Signature {
    pub params: Vec<ValueType>,
    pub result: Option<ValueType>,
}

/// `count` integer arguments.
fn integers(count: u32) -> (r: Vec<ValueType>)
    ensures
        r@ == Seq::new(count as nat, |i: int| ValueType::I32),
{
    let mut r: Vec<ValueType> = Vec::new();
    let mut i: u32 = 0;
    while i < count
        invariant
            i <= count,
            r@ == Seq::new(i as nat, |j: int| ValueType::I32),
        decreases count - i,
    {
        r.push(ValueType::I32);
        i = i + 1;
    }
    r
}

/// The types under which a function is to be linked.
pub fn signature(function: HostFunction) -> (r: Signature)
    ensures
        r.params@ == parameters(function),
        r.result == result_type(function),
{
    let params = match function {
        HostFunction::Ignore(count) | HostFunction::Zero(count) | HostFunction::ZeroFloat(
            count,
        ) => integers(count),
        HostFunction::MemScopePush | HostFunction::MemScopePop => Vec::new(),
        HostFunction::PrintInteger | HostFunction::ServerSleep => vec![ValueType::I64],
        HostFunction::PrintFloat
        | HostFunction::ZeroOfFloat
        | HostFunction::Math(_)
        | HostFunction::FloatToString
        | HostFunction::SameFloat
        | HostFunction::FloatToInt
        | HostFunction::FloatToBool => vec![ValueType::F64],
        HostFunction::PrintSimple
        | HostFunction::PrintlSimple
        | HostFunction::PrintBoolean
        | HostFunction::IntToString
        | HostFunction::BoolToString
        | HostFunction::StringTrim
        | HostFunction::StringTrimStart
        | HostFunction::StringTrimEnd
        | HostFunction::Same
        | HostFunction::IntToFloat
        | HostFunction::IntToBool => vec![ValueType::I32],
        HostFunction::Pow | HostFunction::Atan2 => vec![ValueType::F64, ValueType::F64],
        HostFunction::ListPushF64 => vec![ValueType::I32, ValueType::F64],
        HostFunction::Print
        | HostFunction::Printl
        | HostFunction::StringConcat
        | HostFunction::StringCompare
        | HostFunction::StringSplit
        | HostFunction::MemAlloc
        | HostFunction::ArrayGet => vec![ValueType::I32, ValueType::I32],
        HostFunction::ConditionalInteger
        | HostFunction::StringReplace
        | HostFunction::StringRepeat => integers(3),
        HostFunction::ConditionalNumber => vec![ValueType::I32, ValueType::F64, ValueType::F64],
        HostFunction::StringMatches => integers(4),
    };
    let result = match function {
        HostFunction::Print
        | HostFunction::Printl
        | HostFunction::PrintSimple
        | HostFunction::PrintlSimple
        | HostFunction::PrintInteger
        | HostFunction::PrintFloat
        | HostFunction::PrintBoolean
        | HostFunction::Ignore(_)
        | HostFunction::ServerSleep
        | HostFunction::MemScopePush
        | HostFunction::MemScopePop => None,
        HostFunction::ZeroFloat(_)
        | HostFunction::Pow
        | HostFunction::Atan2
        | HostFunction::Math(_)
        | HostFunction::ConditionalNumber
        | HostFunction::SameFloat
        | HostFunction::IntToFloat => Some(ValueType::F64),
        _ => Some(ValueType::I32),
    };
    assert(params@ == parameters(function));
    Signature { params, result }
}

/// A number for the group that an import's name puts it in: the groups differ in
/// their module or in the first letters of their names.
spec fn group_of(import: ImportView) -> int {
    let s = import.name;
    if import.module != "env"@ {
        15
    } else if s[0] == 'p' {
        1
    } else if s[0] == 'f' && s[1] == 'i' {
        2
    } else if s[0] == 'h' {
        3
    } else if s[0] == '_' {
        4
    } else if s[0] == 'i' && s[2] == 'p' {
        5
    } else if s[0] == 'm' && s[4] == '_' {
        6
    } else if s[0] == 'm' {
        7
    } else if s[0] == 'c' {
        8
    } else if s[0] == 'i' {
        9
    } else if s[0] == 'f' || s[0] == 'n' {
        10
    } else if s[0] == 'b' {
        11
    } else if s[0] == 's' && s[6] == '_' {
        12
    } else if s[0] == 's' {
        13
    } else {
        14
    }
}

/// Whether no two imports share their module and their name.
pub open spec fn all_distinct(imports: Seq<ImportView>) -> bool {
    forall|i: int, j: int|
        0 <= i < j < imports.len() ==> (#[trigger] imports[i]).module != (
        #[trigger] imports[j]).module || imports[i].name != imports[j].name
}

/// Whether the imports are distinct and all belong to one group.
spec fn one_group(imports: Seq<ImportView>, group: int) -> bool {
    &&& all_distinct(imports)
    &&& forall|i: int| 0 <= i < imports.len() ==> group_of(#[trigger] imports[i]) == group
}

/// Whether the imports are distinct and belong to groups up to `last`.
spec fn groups_up_to(imports: Seq<ImportView>, last: int) -> bool {
    &&& all_distinct(imports)
    &&& forall|i: int| 0 <= i < imports.len() ==> group_of(#[trigger] imports[i]) <= last
}

/// A further group adds no name that was there.
proof fn lemma_further_group(earlier: Seq<ImportView>, group: Seq<ImportView>, number: int)
    requires
        groups_up_to(earlier, number - 1),
        one_group(group, number),
    ensures
        groups_up_to(earlier + group, number),
{
    let all = earlier + group;
    let n = earlier.len() as int;
    assert forall|i: int, j: int| 0 <= i < j < all.len() implies (#[trigger] all[i]).module != (
    #[trigger] all[j]).module || all[i].name != all[j].name by {
        if j < n {
            assert(all[i] == earlier[i] && all[j] == earlier[j]);
        } else if i >= n {
            assert(all[i] == group[i - n] && all[j] == group[j - n]);
        } else {
            assert(all[i] == earlier[i] && all[j] == group[j - n]);
        }
    }
    assert forall|i: int| 0 <= i < all.len() implies group_of(#[trigger] all[i]) <= number by {
        if i < n {
            assert(all[i] == earlier[i]);
        } else {
            assert(all[i] == group[i - n]);
        }
    }
}

proof fn lemma_console_group()
    ensures
        one_group(console_imports(), 1),
{
    reveal_strlit("env");
    reveal_strlit("print");
    assert("print"@.len() == 5 && "print"@[0] == 'p');
    reveal_strlit("printl");
    assert("printl"@.len() == 6 && "printl"@[0] == 'p');
    reveal_strlit("print_simple");
    assert("print_simple"@.len() == 12 && "print_simple"@[0] == 'p' && "print_simple"@[6] == 's');
    reveal_strlit("printl_simple");
    assert("printl_simple"@.len() == 13 && "printl_simple"@[0] == 'p' && "printl_simple"@[6] == '_');
    reveal_strlit("print_integer");
    assert("print_integer"@.len() == 13 && "print_integer"@[0] == 'p' && "print_integer"@[6] == 'i');
    reveal_strlit("print_float");
    assert("print_float"@.len() == 11 && "print_float"@[0] == 'p' && "print_float"@[6] == 'f');
    reveal_strlit("print_boolean");
    assert("print_boolean"@.len() == 13 && "print_boolean"@[0] == 'p' && "print_boolean"@[6] == 'b');
}

proof fn lemma_file_group()
    ensures
        one_group(file_imports(), 2),
{
    reveal_strlit("env");
    reveal_strlit("file_write");
    assert("file_write"@.len() == 10 && "file_write"@[0] == 'f' && "file_write"@[1] == 'i' && "file_write"@[5] == 'w');
    reveal_strlit("file_read");
    assert("file_read"@.len() == 9 && "file_read"@[0] == 'f' && "file_read"@[1] == 'i' && "file_read"@[5] == 'r');
    reveal_strlit("file_exists");
    assert("file_exists"@.len() == 11 && "file_exists"@[0] == 'f' && "file_exists"@[1] == 'i' && "file_exists"@[5] == 'e');
    reveal_strlit("file_delete");
    assert("file_delete"@.len() == 11 && "file_delete"@[0] == 'f' && "file_delete"@[1] == 'i' && "file_delete"@[5] == 'd');
    reveal_strlit("file_append");
    assert("file_append"@.len() == 11 && "file_append"@[0] == 'f' && "file_append"@[1] == 'i' && "file_append"@[5] == 'a');
}

proof fn lemma_http_client_group()
    ensures
        one_group(http_client_imports(), 3),
{
    reveal_strlit("env");
    reveal_strlit("http_get");
    assert("http_get"@.len() == 8 && "http_get"@[0] == 'h' && "http_get"@[5] == 'g');
    reveal_strlit("http_post");
    assert("http_post"@.len() == 9 && "http_post"@[0] == 'h' && "http_post"@[5] == 'p');
    reveal_strlit("http_put");
    assert("http_put"@.len() == 8 && "http_put"@[0] == 'h' && "http_put"@[5] == 'p');
    reveal_strlit("http_delete");
    assert("http_delete"@.len() == 11 && "http_delete"@[0] == 'h' && "http_delete"@[5] == 'd' && "http_delete"@[10] == 'e');
    reveal_strlit("http_patch");
    assert("http_patch"@.len() == 10 && "http_patch"@[0] == 'h' && "http_patch"@[5] == 'p');
    reveal_strlit("http_head");
    assert("http_head"@.len() == 9 && "http_head"@[0] == 'h' && "http_head"@[5] == 'h');
    reveal_strlit("http_options");
    assert("http_options"@.len() == 12 && "http_options"@[0] == 'h' && "http_options"@[5] == 'o' && "http_options"@[10] == 'n');
    reveal_strlit("http_get_with_headers");
    assert("http_get_with_headers"@.len() == 21 && "http_get_with_headers"@[0] == 'h' && "http_get_with_headers"@[5] == 'g' && "http_get_with_headers"@[10] == 'i');
    reveal_strlit("http_post_with_headers");
    assert("http_post_with_headers"@.len() == 22 && "http_post_with_headers"@[0] == 'h' && "http_post_with_headers"@[5] == 'p' && "http_post_with_headers"@[10] == 'w');
    reveal_strlit("http_post_json");
    assert("http_post_json"@.len() == 14 && "http_post_json"@[0] == 'h' && "http_post_json"@[5] == 'p' && "http_post_json"@[10] == 'j');
    reveal_strlit("http_put_json");
    assert("http_put_json"@.len() == 13 && "http_put_json"@[0] == 'h' && "http_put_json"@[5] == 'p' && "http_put_json"@[10] == 's');
    reveal_strlit("http_patch_json");
    assert("http_patch_json"@.len() == 15 && "http_patch_json"@[0] == 'h' && "http_patch_json"@[5] == 'p' && "http_patch_json"@[10] == '_');
    reveal_strlit("http_post_form");
    assert("http_post_form"@.len() == 14 && "http_post_form"@[0] == 'h' && "http_post_form"@[5] == 'p' && "http_post_form"@[10] == 'f');
    reveal_strlit("http_set_user_agent");
    assert("http_set_user_agent"@.len() == 19 && "http_set_user_agent"@[0] == 'h' && "http_set_user_agent"@[5] == 's' && "http_set_user_agent"@[10] == 's');
    reveal_strlit("http_set_timeout");
    assert("http_set_timeout"@.len() == 16 && "http_set_timeout"@[0] == 'h' && "http_set_timeout"@[5] == 's' && "http_set_timeout"@[10] == 'i');
    reveal_strlit("http_set_max_redirects");
    assert("http_set_max_redirects"@.len() == 22 && "http_set_max_redirects"@[0] == 'h' && "http_set_max_redirects"@[5] == 's' && "http_set_max_redirects"@[10] == 'a');
    reveal_strlit("http_enable_cookies");
    assert("http_enable_cookies"@.len() == 19 && "http_enable_cookies"@[0] == 'h' && "http_enable_cookies"@[5] == 'e' && "http_enable_cookies"@[10] == 'e');
    reveal_strlit("http_get_response_code");
    assert("http_get_response_code"@.len() == 22 && "http_get_response_code"@[0] == 'h' && "http_get_response_code"@[5] == 'g' && "http_get_response_code"@[10] == 'e');
    reveal_strlit("http_get_response_headers");
    assert("http_get_response_headers"@.len() == 25 && "http_get_response_headers"@[0] == 'h' && "http_get_response_headers"@[5] == 'g' && "http_get_response_headers"@[10] == 'e');
    reveal_strlit("http_encode_url");
    assert("http_encode_url"@.len() == 15 && "http_encode_url"@[0] == 'h' && "http_encode_url"@[5] == 'e' && "http_encode_url"@[10] == 'e');
    reveal_strlit("http_decode_url");
    assert("http_decode_url"@.len() == 15 && "http_decode_url"@[0] == 'h' && "http_decode_url"@[5] == 'd' && "http_decode_url"@[10] == 'e');
    reveal_strlit("http_build_query");
    assert("http_build_query"@.len() == 16 && "http_build_query"@[0] == 'h' && "http_build_query"@[5] == 'b' && "http_build_query"@[10] == '_');
}

proof fn lemma_server_group()
    ensures
        one_group(server_imports(), 4),
{
    reveal_strlit("env");
    reveal_strlit("_http_route");
    assert("_http_route"@.len() == 11 && "_http_route"@[0] == '_' && "_http_route"@[8] == 'u');
    reveal_strlit("_http_listen");
    assert("_http_listen"@.len() == 12 && "_http_listen"@[0] == '_' && "_http_listen"@[8] == 's');
    reveal_strlit("_req_param");
    assert("_req_param"@.len() == 10 && "_req_param"@[0] == '_' && "_req_param"@[8] == 'a');
    reveal_strlit("_req_query");
    assert("_req_query"@.len() == 10 && "_req_query"@[0] == '_' && "_req_query"@[8] == 'r');
    reveal_strlit("_req_body");
    assert("_req_body"@.len() == 9 && "_req_body"@[0] == '_' && "_req_body"@[8] == 'y');
    reveal_strlit("_req_header");
    assert("_req_header"@.len() == 11 && "_req_header"@[0] == '_' && "_req_header"@[8] == 'd');
    reveal_strlit("_req_method");
    assert("_req_method"@.len() == 11 && "_req_method"@[0] == '_' && "_req_method"@[8] == 'h');
    reveal_strlit("_req_path");
    assert("_req_path"@.len() == 9 && "_req_path"@[0] == '_' && "_req_path"@[8] == 'h');
    reveal_strlit("_req_cookie");
    assert("_req_cookie"@.len() == 11 && "_req_cookie"@[0] == '_' && "_req_cookie"@[8] == 'k');
    reveal_strlit("_http_route_protected");
    assert("_http_route_protected"@.len() == 21 && "_http_route_protected"@[0] == '_' && "_http_route_protected"@[8] == 'u' && "_http_route_protected"@[14] == 'o');
    reveal_strlit("_session_store");
    assert("_session_store"@.len() == 14 && "_session_store"@[0] == '_' && "_session_store"@[8] == '_');
    reveal_strlit("_session_get");
    assert("_session_get"@.len() == 12 && "_session_get"@[0] == '_' && "_session_get"@[8] == '_');
    reveal_strlit("_session_delete");
    assert("_session_delete"@.len() == 15 && "_session_delete"@[0] == '_' && "_session_delete"@[8] == '_' && "_session_delete"@[14] == 'e');
    reveal_strlit("_http_set_cookie");
    assert("_http_set_cookie"@.len() == 16 && "_http_set_cookie"@[0] == '_' && "_http_set_cookie"@[8] == 't' && "_http_set_cookie"@[14] == 'i');
    reveal_strlit("_auth_get_session");
    assert("_auth_get_session"@.len() == 17 && "_auth_get_session"@[0] == '_' && "_auth_get_session"@[8] == 't' && "_auth_get_session"@[14] == 'i');
    reveal_strlit("_auth_require_auth");
    assert("_auth_require_auth"@.len() == 18 && "_auth_require_auth"@[0] == '_' && "_auth_require_auth"@[8] == 'q' && "_auth_require_auth"@[14] == 'a');
    reveal_strlit("_auth_require_role");
    assert("_auth_require_role"@.len() == 18 && "_auth_require_role"@[0] == '_' && "_auth_require_role"@[8] == 'q' && "_auth_require_role"@[14] == 'r');
    reveal_strlit("_auth_can");
    assert("_auth_can"@.len() == 9 && "_auth_can"@[0] == '_' && "_auth_can"@[8] == 'n');
    reveal_strlit("_auth_has_any_role");
    assert("_auth_has_any_role"@.len() == 18 && "_auth_has_any_role"@[0] == '_' && "_auth_has_any_role"@[8] == 's' && "_auth_has_any_role"@[14] == 'r');
    reveal_strlit("_server_sleep");
    assert("_server_sleep"@.len() == 13 && "_server_sleep"@[0] == '_' && "_server_sleep"@[8] == 's');
}

proof fn lemma_input_group()
    ensures
        one_group(input_imports(), 5),
{
    reveal_strlit("env");
    reveal_strlit("input");
    assert("input"@.len() == 5 && "input"@[0] == 'i' && "input"@[2] == 'p');
    reveal_strlit("input_integer");
    assert("input_integer"@.len() == 13 && "input_integer"@[0] == 'i' && "input_integer"@[2] == 'p' && "input_integer"@[6] == 'i');
    reveal_strlit("input_float");
    assert("input_float"@.len() == 11 && "input_float"@[0] == 'i' && "input_float"@[2] == 'p' && "input_float"@[6] == 'f');
    reveal_strlit("input_yesno");
    assert("input_yesno"@.len() == 11 && "input_yesno"@[0] == 'i' && "input_yesno"@[2] == 'p' && "input_yesno"@[6] == 'y');
    reveal_strlit("input_range");
    assert("input_range"@.len() == 11 && "input_range"@[0] == 'i' && "input_range"@[2] == 'p' && "input_range"@[6] == 'r');
}

proof fn lemma_math_group()
    ensures
        one_group(math_imports(), 6),
{
    reveal_strlit("env");
    reveal_strlit("math_pow");
    assert("math_pow"@.len() == 8 && "math_pow"@[0] == 'm' && "math_pow"@[4] == '_' && "math_pow"@[5] == 'p' && "math_pow"@[6] == 'o');
    reveal_strlit("math_sin");
    assert("math_sin"@.len() == 8 && "math_sin"@[0] == 'm' && "math_sin"@[4] == '_' && "math_sin"@[5] == 's' && "math_sin"@[6] == 'i');
    reveal_strlit("math_cos");
    assert("math_cos"@.len() == 8 && "math_cos"@[0] == 'm' && "math_cos"@[4] == '_' && "math_cos"@[5] == 'c' && "math_cos"@[6] == 'o');
    reveal_strlit("math_tan");
    assert("math_tan"@.len() == 8 && "math_tan"@[0] == 'm' && "math_tan"@[4] == '_' && "math_tan"@[5] == 't' && "math_tan"@[6] == 'a');
    reveal_strlit("math_asin");
    assert("math_asin"@.len() == 9 && "math_asin"@[0] == 'm' && "math_asin"@[4] == '_' && "math_asin"@[5] == 'a' && "math_asin"@[6] == 's');
    reveal_strlit("math_acos");
    assert("math_acos"@.len() == 9 && "math_acos"@[0] == 'm' && "math_acos"@[4] == '_' && "math_acos"@[5] == 'a' && "math_acos"@[6] == 'c');
    reveal_strlit("math_atan");
    assert("math_atan"@.len() == 9 && "math_atan"@[0] == 'm' && "math_atan"@[4] == '_' && "math_atan"@[5] == 'a' && "math_atan"@[6] == 't');
    reveal_strlit("math_atan2");
    assert("math_atan2"@.len() == 10 && "math_atan2"@[0] == 'm' && "math_atan2"@[4] == '_' && "math_atan2"@[5] == 'a' && "math_atan2"@[6] == 't');
    reveal_strlit("math_sinh");
    assert("math_sinh"@.len() == 9 && "math_sinh"@[0] == 'm' && "math_sinh"@[4] == '_' && "math_sinh"@[5] == 's' && "math_sinh"@[6] == 'i');
    reveal_strlit("math_cosh");
    assert("math_cosh"@.len() == 9 && "math_cosh"@[0] == 'm' && "math_cosh"@[4] == '_' && "math_cosh"@[5] == 'c' && "math_cosh"@[6] == 'o');
    reveal_strlit("math_tanh");
    assert("math_tanh"@.len() == 9 && "math_tanh"@[0] == 'm' && "math_tanh"@[4] == '_' && "math_tanh"@[5] == 't' && "math_tanh"@[6] == 'a');
    reveal_strlit("math_ln");
    assert("math_ln"@.len() == 7 && "math_ln"@[0] == 'm' && "math_ln"@[4] == '_' && "math_ln"@[5] == 'l' && "math_ln"@[6] == 'n');
    reveal_strlit("math_log10");
    assert("math_log10"@.len() == 10 && "math_log10"@[0] == 'm' && "math_log10"@[4] == '_' && "math_log10"@[5] == 'l' && "math_log10"@[6] == 'o');
    reveal_strlit("math_log2");
    assert("math_log2"@.len() == 9 && "math_log2"@[0] == 'm' && "math_log2"@[4] == '_' && "math_log2"@[5] == 'l' && "math_log2"@[6] == 'o');
    reveal_strlit("math_exp");
    assert("math_exp"@.len() == 8 && "math_exp"@[0] == 'm' && "math_exp"@[4] == '_' && "math_exp"@[5] == 'e' && "math_exp"@[6] == 'x');
    reveal_strlit("math_exp2");
    assert("math_exp2"@.len() == 9 && "math_exp2"@[0] == 'm' && "math_exp2"@[4] == '_' && "math_exp2"@[5] == 'e' && "math_exp2"@[6] == 'x');
    reveal_strlit("math_sqrt");
    assert("math_sqrt"@.len() == 9 && "math_sqrt"@[0] == 'm' && "math_sqrt"@[4] == '_' && "math_sqrt"@[5] == 's' && "math_sqrt"@[6] == 'q');
    reveal_strlit("math_floor");
    assert("math_floor"@.len() == 10 && "math_floor"@[0] == 'm' && "math_floor"@[4] == '_' && "math_floor"@[5] == 'f' && "math_floor"@[6] == 'l');
    reveal_strlit("math_ceil");
    assert("math_ceil"@.len() == 9 && "math_ceil"@[0] == 'm' && "math_ceil"@[4] == '_' && "math_ceil"@[5] == 'c' && "math_ceil"@[6] == 'e');
    reveal_strlit("math_round");
    assert("math_round"@.len() == 10 && "math_round"@[0] == 'm' && "math_round"@[4] == '_' && "math_round"@[5] == 'r' && "math_round"@[6] == 'o');
    reveal_strlit("math_abs");
    assert("math_abs"@.len() == 8 && "math_abs"@[0] == 'm' && "math_abs"@[4] == '_' && "math_abs"@[5] == 'a' && "math_abs"@[6] == 'b');
}

proof fn lemma_math_method_group()
    ensures
        one_group(math_method_imports(), 7),
{
    reveal_strlit("env");
    reveal_strlit("math.pow");
    assert("math.pow"@.len() == 8 && "math.pow"@[0] == 'm' && "math.pow"@[4] == '.' && "math.pow"@[5] == 'p' && "math.pow"@[6] == 'o');
    reveal_strlit("math.sin");
    assert("math.sin"@.len() == 8 && "math.sin"@[0] == 'm' && "math.sin"@[4] == '.' && "math.sin"@[5] == 's' && "math.sin"@[6] == 'i');
    reveal_strlit("math.cos");
    assert("math.cos"@.len() == 8 && "math.cos"@[0] == 'm' && "math.cos"@[4] == '.' && "math.cos"@[5] == 'c' && "math.cos"@[6] == 'o');
    reveal_strlit("math.tan");
    assert("math.tan"@.len() == 8 && "math.tan"@[0] == 'm' && "math.tan"@[4] == '.' && "math.tan"@[5] == 't' && "math.tan"@[6] == 'a');
    reveal_strlit("math.asin");
    assert("math.asin"@.len() == 9 && "math.asin"@[0] == 'm' && "math.asin"@[4] == '.' && "math.asin"@[5] == 'a' && "math.asin"@[6] == 's');
    reveal_strlit("math.acos");
    assert("math.acos"@.len() == 9 && "math.acos"@[0] == 'm' && "math.acos"@[4] == '.' && "math.acos"@[5] == 'a' && "math.acos"@[6] == 'c');
    reveal_strlit("math.atan");
    assert("math.atan"@.len() == 9 && "math.atan"@[0] == 'm' && "math.atan"@[4] == '.' && "math.atan"@[5] == 'a' && "math.atan"@[6] == 't');
    reveal_strlit("math.atan2");
    assert("math.atan2"@.len() == 10 && "math.atan2"@[0] == 'm' && "math.atan2"@[4] == '.' && "math.atan2"@[5] == 'a' && "math.atan2"@[6] == 't');
    reveal_strlit("math.sinh");
    assert("math.sinh"@.len() == 9 && "math.sinh"@[0] == 'm' && "math.sinh"@[4] == '.' && "math.sinh"@[5] == 's' && "math.sinh"@[6] == 'i');
    reveal_strlit("math.cosh");
    assert("math.cosh"@.len() == 9 && "math.cosh"@[0] == 'm' && "math.cosh"@[4] == '.' && "math.cosh"@[5] == 'c' && "math.cosh"@[6] == 'o');
    reveal_strlit("math.tanh");
    assert("math.tanh"@.len() == 9 && "math.tanh"@[0] == 'm' && "math.tanh"@[4] == '.' && "math.tanh"@[5] == 't' && "math.tanh"@[6] == 'a');
    reveal_strlit("math.ln");
    assert("math.ln"@.len() == 7 && "math.ln"@[0] == 'm' && "math.ln"@[4] == '.' && "math.ln"@[5] == 'l' && "math.ln"@[6] == 'n');
    reveal_strlit("math.log10");
    assert("math.log10"@.len() == 10 && "math.log10"@[0] == 'm' && "math.log10"@[4] == '.' && "math.log10"@[5] == 'l' && "math.log10"@[6] == 'o');
    reveal_strlit("math.log2");
    assert("math.log2"@.len() == 9 && "math.log2"@[0] == 'm' && "math.log2"@[4] == '.' && "math.log2"@[5] == 'l' && "math.log2"@[6] == 'o');
    reveal_strlit("math.exp");
    assert("math.exp"@.len() == 8 && "math.exp"@[0] == 'm' && "math.exp"@[4] == '.' && "math.exp"@[5] == 'e' && "math.exp"@[6] == 'x');
    reveal_strlit("math.exp2");
    assert("math.exp2"@.len() == 9 && "math.exp2"@[0] == 'm' && "math.exp2"@[4] == '.' && "math.exp2"@[5] == 'e' && "math.exp2"@[6] == 'x');
    reveal_strlit("math.sqrt");
    assert("math.sqrt"@.len() == 9 && "math.sqrt"@[0] == 'm' && "math.sqrt"@[4] == '.' && "math.sqrt"@[5] == 's' && "math.sqrt"@[6] == 'q');
    reveal_strlit("math.floor");
    assert("math.floor"@.len() == 10 && "math.floor"@[0] == 'm' && "math.floor"@[4] == '.' && "math.floor"@[5] == 'f' && "math.floor"@[6] == 'l');
    reveal_strlit("math.ceil");
    assert("math.ceil"@.len() == 9 && "math.ceil"@[0] == 'm' && "math.ceil"@[4] == '.' && "math.ceil"@[5] == 'c' && "math.ceil"@[6] == 'e');
    reveal_strlit("math.round");
    assert("math.round"@.len() == 10 && "math.round"@[0] == 'm' && "math.round"@[4] == '.' && "math.round"@[5] == 'r' && "math.round"@[6] == 'o');
    reveal_strlit("math.abs");
    assert("math.abs"@.len() == 8 && "math.abs"@[0] == 'm' && "math.abs"@[4] == '.' && "math.abs"@[5] == 'a' && "math.abs"@[6] == 'b');
}

proof fn lemma_choice_group()
    ensures
        one_group(choice_imports(), 8),
{
    reveal_strlit("env");
    reveal_strlit("conditional_integer");
    assert("conditional_integer"@.len() == 19 && "conditional_integer"@[0] == 'c' && "conditional_integer"@[12] == 'i');
    reveal_strlit("conditional_number");
    assert("conditional_number"@.len() == 18 && "conditional_number"@[0] == 'c' && "conditional_number"@[12] == 'n');
    reveal_strlit("conditional_boolean");
    assert("conditional_boolean"@.len() == 19 && "conditional_boolean"@[0] == 'c' && "conditional_boolean"@[12] == 'b');
    reveal_strlit("conditional_string");
    assert("conditional_string"@.len() == 18 && "conditional_string"@[0] == 'c' && "conditional_string"@[12] == 's');
}

proof fn lemma_integer_group()
    ensures
        one_group(integer_imports(), 9),
{
    reveal_strlit("env");
    reveal_strlit("int_to_string");
    assert("int_to_string"@.len() == 13 && "int_to_string"@[0] == 'i' && "int_to_string"@[2] == 't' && "int_to_string"@[10] == 'i');
    reveal_strlit("integer.toString");
    assert("integer.toString"@.len() == 16 && "integer.toString"@[0] == 'i' && "integer.toString"@[2] == 't' && "integer.toString"@[10] == 'S');
    reveal_strlit("integer.toInteger");
    assert("integer.toInteger"@.len() == 17 && "integer.toInteger"@[0] == 'i' && "integer.toInteger"@[2] == 't' && "integer.toInteger"@[10] == 'I');
    reveal_strlit("integer.toNumber");
    assert("integer.toNumber"@.len() == 16 && "integer.toNumber"@[0] == 'i' && "integer.toNumber"@[2] == 't' && "integer.toNumber"@[10] == 'N');
    reveal_strlit("integer.toBoolean");
    assert("integer.toBoolean"@.len() == 17 && "integer.toBoolean"@[0] == 'i' && "integer.toBoolean"@[2] == 't' && "integer.toBoolean"@[10] == 'B');
    reveal_strlit("integer.length");
    assert("integer.length"@.len() == 14 && "integer.length"@[0] == 'i' && "integer.length"@[2] == 't' && "integer.length"@[10] == 'n');
}

proof fn lemma_number_group()
    ensures
        one_group(number_imports(), 10),
{
    reveal_strlit("env");
    reveal_strlit("float_to_string");
    assert("float_to_string"@.len() == 15 && "float_to_string"@[0] == 'f' && "float_to_string"@[1] == 'l' && "float_to_string"@[9] == 's');
    reveal_strlit("number.toString");
    assert("number.toString"@.len() == 15 && "number.toString"@[0] == 'n' && "number.toString"@[9] == 'S');
    reveal_strlit("number.toInteger");
    assert("number.toInteger"@.len() == 16 && "number.toInteger"@[0] == 'n' && "number.toInteger"@[9] == 'I');
    reveal_strlit("number.toNumber");
    assert("number.toNumber"@.len() == 15 && "number.toNumber"@[0] == 'n' && "number.toNumber"@[9] == 'N');
    reveal_strlit("number.toBoolean");
    assert("number.toBoolean"@.len() == 16 && "number.toBoolean"@[0] == 'n' && "number.toBoolean"@[9] == 'B');
    reveal_strlit("number.length");
    assert("number.length"@.len() == 13 && "number.length"@[0] == 'n' && "number.length"@[9] == 'n');
}

proof fn lemma_boolean_group()
    ensures
        one_group(boolean_imports(), 11),
{
    reveal_strlit("env");
    reveal_strlit("bool_to_string");
    assert("bool_to_string"@.len() == 14 && "bool_to_string"@[0] == 'b' && "bool_to_string"@[10] == 'r');
    reveal_strlit("boolean.toString");
    assert("boolean.toString"@.len() == 16 && "boolean.toString"@[0] == 'b' && "boolean.toString"@[10] == 'S');
    reveal_strlit("boolean.toInteger");
    assert("boolean.toInteger"@.len() == 17 && "boolean.toInteger"@[0] == 'b' && "boolean.toInteger"@[10] == 'I');
    reveal_strlit("boolean.toNumber");
    assert("boolean.toNumber"@.len() == 16 && "boolean.toNumber"@[0] == 'b' && "boolean.toNumber"@[10] == 'N');
    reveal_strlit("boolean.toBoolean");
    assert("boolean.toBoolean"@.len() == 17 && "boolean.toBoolean"@[0] == 'b' && "boolean.toBoolean"@[10] == 'B');
    reveal_strlit("boolean.length");
    assert("boolean.length"@.len() == 14 && "boolean.length"@[0] == 'b' && "boolean.length"@[10] == 'n');
}

proof fn lemma_string_group()
    ensures
        one_group(string_imports(), 12),
{
    reveal_strlit("env");
    reveal_strlit("string_to_int");
    assert("string_to_int"@.len() == 13 && "string_to_int"@[0] == 's' && "string_to_int"@[6] == '_' && "string_to_int"@[9] == '_');
    reveal_strlit("string_to_float");
    assert("string_to_float"@.len() == 15 && "string_to_float"@[0] == 's' && "string_to_float"@[6] == '_' && "string_to_float"@[9] == '_');
    reveal_strlit("string_concat");
    assert("string_concat"@.len() == 13 && "string_concat"@[0] == 's' && "string_concat"@[6] == '_' && "string_concat"@[9] == 'n');
    reveal_strlit("string_compare");
    assert("string_compare"@.len() == 14 && "string_compare"@[0] == 's' && "string_compare"@[6] == '_' && "string_compare"@[9] == 'm');
    reveal_strlit("string_replace");
    assert("string_replace"@.len() == 14 && "string_replace"@[0] == 's' && "string_replace"@[6] == '_' && "string_replace"@[9] == 'p');
    reveal_strlit("string_trim");
    assert("string_trim"@.len() == 11 && "string_trim"@[0] == 's' && "string_trim"@[6] == '_' && "string_trim"@[9] == 'i');
    reveal_strlit("string_trim_start");
    assert("string_trim_start"@.len() == 17 && "string_trim_start"@[0] == 's' && "string_trim_start"@[6] == '_' && "string_trim_start"@[9] == 'i');
    reveal_strlit("string_trim_end");
    assert("string_trim_end"@.len() == 15 && "string_trim_end"@[0] == 's' && "string_trim_end"@[6] == '_' && "string_trim_end"@[9] == 'i');
    reveal_strlit("string_split");
    assert("string_split"@.len() == 12 && "string_split"@[0] == 's' && "string_split"@[6] == '_' && "string_split"@[9] == 'l');
    reveal_strlit("string_repeat");
    assert("string_repeat"@.len() == 13 && "string_repeat"@[0] == 's' && "string_repeat"@[6] == '_' && "string_repeat"@[9] == 'p');
    reveal_strlit("string_matches");
    assert("string_matches"@.len() == 14 && "string_matches"@[0] == 's' && "string_matches"@[6] == '_' && "string_matches"@[9] == 't');
}

proof fn lemma_string_method_group()
    ensures
        one_group(string_method_imports(), 13),
{
    reveal_strlit("env");
    reveal_strlit("string.concat");
    assert("string.concat"@.len() == 13 && "string.concat"@[0] == 's' && "string.concat"@[6] == '.' && "string.concat"@[10] == 'c');
    reveal_strlit("string.split");
    assert("string.split"@.len() == 12 && "string.split"@[0] == 's' && "string.split"@[6] == '.' && "string.split"@[10] == 'i');
    reveal_strlit("string.toUpperCase");
    assert("string.toUpperCase"@.len() == 18 && "string.toUpperCase"@[0] == 's' && "string.toUpperCase"@[6] == '.' && "string.toUpperCase"@[10] == 'p');
    reveal_strlit("string.toLowerCase");
    assert("string.toLowerCase"@.len() == 18 && "string.toLowerCase"@[0] == 's' && "string.toLowerCase"@[6] == '.' && "string.toLowerCase"@[10] == 'o');
    reveal_strlit("string.toString");
    assert("string.toString"@.len() == 15 && "string.toString"@[0] == 's' && "string.toString"@[6] == '.' && "string.toString"@[10] == 't');
    reveal_strlit("string.toInteger");
    assert("string.toInteger"@.len() == 16 && "string.toInteger"@[0] == 's' && "string.toInteger"@[6] == '.' && "string.toInteger"@[10] == 'n');
    reveal_strlit("string.toNumber");
    assert("string.toNumber"@.len() == 15 && "string.toNumber"@[0] == 's' && "string.toNumber"@[6] == '.' && "string.toNumber"@[10] == 'u');
    reveal_strlit("string.toBoolean");
    assert("string.toBoolean"@.len() == 16 && "string.toBoolean"@[0] == 's' && "string.toBoolean"@[6] == '.' && "string.toBoolean"@[10] == 'o');
    reveal_strlit("string.length");
    assert("string.length"@.len() == 13 && "string.length"@[0] == 's' && "string.length"@[6] == '.' && "string.length"@[10] == 'g');
}

proof fn lemma_collection_group()
    ensures
        one_group(collection_imports(), 14),
{
    reveal_strlit("env");
    reveal_strlit("array_get");
    assert("array_get"@.len() == 9 && "array_get"@[0] == 'a');
    reveal_strlit("list.push_f64");
    assert("list.push_f64"@.len() == 13 && "list.push_f64"@[0] == 'l');
}

proof fn lemma_memory_group()
    ensures
        one_group(memory_imports(), 15),
{
    reveal_strlit("env");
    reveal_strlit("memory_runtime");
    assert("memory_runtime"@.len() != "env"@.len());
    reveal_strlit("mem_alloc");
    assert("mem_alloc"@.len() == 9);
    reveal_strlit("mem_retain");
    assert("mem_retain"@.len() == 10);
    reveal_strlit("mem_release");
    assert("mem_release"@.len() == 11);
    reveal_strlit("mem_scope_push");
    assert("mem_scope_push"@.len() == 14);
    reveal_strlit("mem_scope_pop");
    assert("mem_scope_pop"@.len() == 13);
}

/// No two functions are offered under the same module and name.
pub proof fn law_nothing_offered_twice()
    ensures
        all_distinct(all_imports()),
{
    lemma_console_group();
    let all = console_imports();
    lemma_file_group();
    lemma_further_group(all, file_imports(), 2);
    let all = all + file_imports();
    lemma_http_client_group();
    lemma_further_group(all, http_client_imports(), 3);
    let all = all + http_client_imports();
    lemma_server_group();
    lemma_further_group(all, server_imports(), 4);
    let all = all + server_imports();
    lemma_input_group();
    lemma_further_group(all, input_imports(), 5);
    let all = all + input_imports();
    lemma_math_group();
    lemma_further_group(all, math_imports(), 6);
    let all = all + math_imports();
    lemma_math_method_group();
    lemma_further_group(all, math_method_imports(), 7);
    let all = all + math_method_imports();
    lemma_choice_group();
    lemma_further_group(all, choice_imports(), 8);
    let all = all + choice_imports();
    lemma_integer_group();
    lemma_further_group(all, integer_imports(), 9);
    let all = all + integer_imports();
    lemma_number_group();
    lemma_further_group(all, number_imports(), 10);
    let all = all + number_imports();
    lemma_boolean_group();
    lemma_further_group(all, boolean_imports(), 11);
    let all = all + boolean_imports();
    lemma_string_group();
    lemma_further_group(all, string_imports(), 12);
    let all = all + string_imports();
    lemma_string_method_group();
    lemma_further_group(all, string_method_imports(), 13);
    let all = all + string_method_imports();
    lemma_collection_group();
    lemma_further_group(all, collection_imports(), 14);
    let all = all + collection_imports();
    lemma_memory_group();
    lemma_further_group(all, memory_imports(), 15);
    let all = all + memory_imports();
}

} // verus!
