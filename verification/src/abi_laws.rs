//! The table of host functions read the other way round, and the types of the
//! functions.

use crate::abi;
use crate::abi::{HostFunction, Import, ImportView, MathFunction, ValueType};
use vstd::prelude::*;

verus! {

/// The names under which a function is offered.
pub open spec fn names_of(function: HostFunction) -> Seq<Seq<char>> {
    match function {
        HostFunction::Print => seq!["print"@],
        HostFunction::Printl => seq!["printl"@],
        HostFunction::PrintSimple => seq!["print_simple"@],
        HostFunction::PrintlSimple => seq!["printl_simple"@],
        HostFunction::PrintInteger => seq!["print_integer"@],
        HostFunction::PrintFloat => seq!["print_float"@],
        HostFunction::PrintBoolean => seq!["print_boolean"@],
        HostFunction::Zero(count) => if count == 4 {
            seq![
                "file_write"@,
                "file_append"@,
                "http_post"@,
                "http_put"@,
                "http_patch"@,
                "http_get_with_headers"@,
                "http_post_json"@,
                "http_put_json"@,
                "http_patch_json"@,
                "http_post_form"@,
                "input_range"@,
            ]
        } else if count == 3 {
            seq!["file_read"@]
        } else if count == 2 {
            seq![
                "file_exists"@,
                "file_delete"@,
                "http_get"@,
                "http_delete"@,
                "http_head"@,
                "http_options"@,
                "http_encode_url"@,
                "http_decode_url"@,
                "http_build_query"@,
                "_req_param"@,
                "_req_query"@,
                "_req_header"@,
                "_req_cookie"@,
                "_http_set_cookie"@,
                "_auth_require_role"@,
                "_auth_can"@,
                "_auth_has_any_role"@,
            ]
        } else if count == 6 {
            seq!["http_post_with_headers"@]
        } else if count == 0 {
            seq![
                "http_get_response_code"@,
                "http_get_response_headers"@,
                "_req_body"@,
                "_req_method"@,
                "_req_path"@,
                "_session_get"@,
                "_session_delete"@,
                "_auth_get_session"@,
                "_auth_require_auth"@,
            ]
        } else if count == 5 {
            seq!["_http_route"@, "_session_store"@]
        } else if count == 1 {
            seq![
                "_http_listen"@,
                "input"@,
                "input_integer"@,
                "input_yesno"@,
                "integer.length"@,
                "boolean.length"@,
                "string_to_int"@,
                "string.toUpperCase"@,
                "string.toLowerCase"@,
                "string.toInteger"@,
                "string.toBoolean"@,
                "string.length"@,
            ]
        } else if count == 7 {
            seq!["_http_route_protected"@]
        } else {
            Seq::empty()
        },
        HostFunction::Ignore(count) => if count == 2 {
            seq!["http_set_user_agent"@]
        } else if count == 1 {
            seq![
                "http_set_timeout"@,
                "http_set_max_redirects"@,
                "http_enable_cookies"@,
                "mem_retain"@,
                "mem_release"@,
            ]
        } else {
            Seq::empty()
        },
        HostFunction::ServerSleep => seq!["_server_sleep"@],
        HostFunction::ZeroFloat(count) => if count == 1 {
            seq!["input_float"@, "string_to_float"@, "string.toNumber"@]
        } else {
            Seq::empty()
        },
        HostFunction::Pow => seq!["math_pow"@, "math.pow"@],
        HostFunction::Math(function) => match function {
            MathFunction::Sin => seq!["math_sin"@, "math.sin"@],
            MathFunction::Cos => seq!["math_cos"@, "math.cos"@],
            MathFunction::Tan => seq!["math_tan"@, "math.tan"@],
            MathFunction::Asin => seq!["math_asin"@, "math.asin"@],
            MathFunction::Acos => seq!["math_acos"@, "math.acos"@],
            MathFunction::Atan => seq!["math_atan"@, "math.atan"@],
            MathFunction::Sinh => seq!["math_sinh"@, "math.sinh"@],
            MathFunction::Cosh => seq!["math_cosh"@, "math.cosh"@],
            MathFunction::Tanh => seq!["math_tanh"@, "math.tanh"@],
            MathFunction::Ln => seq!["math_ln"@, "math.ln"@],
            MathFunction::Log10 => seq!["math_log10"@, "math.log10"@],
            MathFunction::Log2 => seq!["math_log2"@, "math.log2"@],
            MathFunction::Exp => seq!["math_exp"@, "math.exp"@],
            MathFunction::Exp2 => seq!["math_exp2"@, "math.exp2"@],
            MathFunction::Sqrt => seq!["math_sqrt"@, "math.sqrt"@],
            MathFunction::Floor => seq!["math_floor"@, "math.floor"@],
            MathFunction::Ceil => seq!["math_ceil"@, "math.ceil"@],
            MathFunction::Round => seq!["math_round"@, "math.round"@],
            MathFunction::Abs => seq!["math_abs"@, "math.abs"@],
        },
        HostFunction::Atan2 => seq!["math_atan2"@, "math.atan2"@],
        HostFunction::ConditionalInteger => seq!["conditional_integer"@, "conditional_boolean"@, "conditional_string"@],
        HostFunction::ConditionalNumber => seq!["conditional_number"@],
        HostFunction::IntToString => seq!["int_to_string"@, "integer.toString"@],
        HostFunction::Same => seq![
            "integer.toInteger"@,
            "boolean.toInteger"@,
            "boolean.toBoolean"@,
            "string.toString"@,
        ],
        HostFunction::IntToFloat => seq!["integer.toNumber"@, "boolean.toNumber"@],
        HostFunction::IntToBool => seq!["integer.toBoolean"@],
        HostFunction::FloatToString => seq!["float_to_string"@, "number.toString"@],
        HostFunction::FloatToInt => seq!["number.toInteger"@],
        HostFunction::SameFloat => seq!["number.toNumber"@],
        HostFunction::FloatToBool => seq!["number.toBoolean"@],
        HostFunction::ZeroOfFloat => seq!["number.length"@],
        HostFunction::BoolToString => seq!["bool_to_string"@, "boolean.toString"@],
        HostFunction::StringConcat => seq!["string_concat"@, "string.concat"@],
        HostFunction::StringCompare => seq!["string_compare"@],
        HostFunction::StringReplace => seq!["string_replace"@],
        HostFunction::StringTrim => seq!["string_trim"@],
        HostFunction::StringTrimStart => seq!["string_trim_start"@],
        HostFunction::StringTrimEnd => seq!["string_trim_end"@],
        HostFunction::StringSplit => seq!["string_split"@, "string.split"@],
        HostFunction::StringRepeat => seq!["string_repeat"@],
        HostFunction::StringMatches => seq!["string_matches"@],
        HostFunction::ArrayGet => seq!["array_get"@],
        HostFunction::ListPushF64 => seq!["list.push_f64"@],
        HostFunction::MemAlloc => seq!["mem_alloc"@],
        HostFunction::MemScopePush => seq!["mem_scope_push"@],
        HostFunction::MemScopePop => seq!["mem_scope_pop"@],
    }
}

/// The module in which a function is offered under a name.
pub open spec fn module_of(name: Seq<char>) -> Seq<char> {
    if name == "mem_alloc"@ || name == "mem_retain"@ || name == "mem_release"@ || name
        == "mem_scope_push"@ || name == "mem_scope_pop"@ {
        "memory_runtime"@
    } else {
        "env"@
    }
}

/// Each of the imports offers its function under one of the function's names.
spec fn well_named(imports: Seq<ImportView>) -> bool {
    forall|i: int|
        0 <= i < imports.len() ==> names_of((#[trigger] imports[i]).function).contains(
            imports[i].name,
        )
}

/// Each of the imports is in the module where it belongs.
spec fn well_placed(imports: Seq<ImportView>) -> bool {
    forall|i: int|
        0 <= i < imports.len() ==> (#[trigger] imports[i]).module == module_of(imports[i].name)
}

proof fn lemma_well_named_together(a: Seq<ImportView>, b: Seq<ImportView>)
    requires
        well_named(a),
        well_named(b),
        well_placed(a),
        well_placed(b),
    ensures
        well_named(a + b),
        well_placed(a + b),
{
    let all = a + b;
    assert forall|i: int| 0 <= i < all.len() implies names_of((#[trigger] all[i]).function).contains(
        all[i].name,
    ) && all[i].module == module_of(all[i].name) by {
        if i < a.len() {
            assert(all[i] == a[i]);
        } else {
            assert(all[i] == b[i - a.len()]);
        }
    }
}

proof fn lemma_console_names()
    ensures
        well_named(abi::console_imports()),
        well_placed(abi::console_imports()),
{
    reveal_strlit("mem_alloc");
    assert("mem_alloc"@[1] == 'e' && "mem_alloc"@[0] == 'm');
    reveal_strlit("mem_retain");
    assert("mem_retain"@[1] == 'e' && "mem_retain"@[0] == 'm');
    reveal_strlit("mem_release");
    assert("mem_release"@[1] == 'e' && "mem_release"@[0] == 'm');
    reveal_strlit("mem_scope_push");
    assert("mem_scope_push"@[1] == 'e' && "mem_scope_push"@[0] == 'm');
    reveal_strlit("mem_scope_pop");
    assert("mem_scope_pop"@[1] == 'e' && "mem_scope_pop"@[0] == 'm');
    reveal_strlit("print");
    assert("print"@[0] == 'p');
    assert(names_of(HostFunction::Print)[0] == "print"@);
    reveal_strlit("printl");
    assert("printl"@[0] == 'p');
    assert(names_of(HostFunction::Printl)[0] == "printl"@);
    reveal_strlit("print_simple");
    assert("print_simple"@[0] == 'p');
    assert(names_of(HostFunction::PrintSimple)[0] == "print_simple"@);
    reveal_strlit("printl_simple");
    assert("printl_simple"@[0] == 'p');
    assert(names_of(HostFunction::PrintlSimple)[0] == "printl_simple"@);
    reveal_strlit("print_integer");
    assert("print_integer"@[0] == 'p');
    assert(names_of(HostFunction::PrintInteger)[0] == "print_integer"@);
    reveal_strlit("print_float");
    assert("print_float"@[0] == 'p');
    assert(names_of(HostFunction::PrintFloat)[0] == "print_float"@);
    reveal_strlit("print_boolean");
    assert("print_boolean"@[0] == 'p');
    assert(names_of(HostFunction::PrintBoolean)[0] == "print_boolean"@);
}

proof fn lemma_file_names()
    ensures
        well_named(abi::file_imports()),
        well_placed(abi::file_imports()),
{
    reveal_strlit("mem_alloc");
    assert("mem_alloc"@[1] == 'e' && "mem_alloc"@[0] == 'm');
    reveal_strlit("mem_retain");
    assert("mem_retain"@[1] == 'e' && "mem_retain"@[0] == 'm');
    reveal_strlit("mem_release");
    assert("mem_release"@[1] == 'e' && "mem_release"@[0] == 'm');
    reveal_strlit("mem_scope_push");
    assert("mem_scope_push"@[1] == 'e' && "mem_scope_push"@[0] == 'm');
    reveal_strlit("mem_scope_pop");
    assert("mem_scope_pop"@[1] == 'e' && "mem_scope_pop"@[0] == 'm');
    reveal_strlit("file_write");
    assert("file_write"@[0] == 'f');
    assert(names_of(HostFunction::Zero(4))[0] == "file_write"@);
    reveal_strlit("file_read");
    assert("file_read"@[0] == 'f');
    assert(names_of(HostFunction::Zero(3))[0] == "file_read"@);
    reveal_strlit("file_exists");
    assert("file_exists"@[0] == 'f');
    assert(names_of(HostFunction::Zero(2))[0] == "file_exists"@);
    reveal_strlit("file_delete");
    assert("file_delete"@[0] == 'f');
    assert(names_of(HostFunction::Zero(2))[1] == "file_delete"@);
    reveal_strlit("file_append");
    assert("file_append"@[0] == 'f');
    assert(names_of(HostFunction::Zero(4))[1] == "file_append"@);
}

proof fn lemma_http_client_names()
    ensures
        well_named(abi::http_client_imports()),
        well_placed(abi::http_client_imports()),
{
    reveal_strlit("mem_alloc");
    assert("mem_alloc"@[1] == 'e' && "mem_alloc"@[0] == 'm');
    reveal_strlit("mem_retain");
    assert("mem_retain"@[1] == 'e' && "mem_retain"@[0] == 'm');
    reveal_strlit("mem_release");
    assert("mem_release"@[1] == 'e' && "mem_release"@[0] == 'm');
    reveal_strlit("mem_scope_push");
    assert("mem_scope_push"@[1] == 'e' && "mem_scope_push"@[0] == 'm');
    reveal_strlit("mem_scope_pop");
    assert("mem_scope_pop"@[1] == 'e' && "mem_scope_pop"@[0] == 'm');
    reveal_strlit("http_get");
    assert("http_get"@[0] == 'h');
    assert(names_of(HostFunction::Zero(2))[2] == "http_get"@);
    reveal_strlit("http_post");
    assert("http_post"@[0] == 'h');
    assert(names_of(HostFunction::Zero(4))[2] == "http_post"@);
    reveal_strlit("http_put");
    assert("http_put"@[0] == 'h');
    assert(names_of(HostFunction::Zero(4))[3] == "http_put"@);
    reveal_strlit("http_delete");
    assert("http_delete"@[0] == 'h');
    assert(names_of(HostFunction::Zero(2))[3] == "http_delete"@);
    reveal_strlit("http_patch");
    assert("http_patch"@[0] == 'h');
    assert(names_of(HostFunction::Zero(4))[4] == "http_patch"@);
    reveal_strlit("http_head");
    assert("http_head"@[0] == 'h');
    assert(names_of(HostFunction::Zero(2))[4] == "http_head"@);
    reveal_strlit("http_options");
    assert("http_options"@[0] == 'h');
    assert(names_of(HostFunction::Zero(2))[5] == "http_options"@);
    reveal_strlit("http_get_with_headers");
    assert("http_get_with_headers"@[0] == 'h');
    assert(names_of(HostFunction::Zero(4))[5] == "http_get_with_headers"@);
    reveal_strlit("http_post_with_headers");
    assert("http_post_with_headers"@[0] == 'h');
    assert(names_of(HostFunction::Zero(6))[0] == "http_post_with_headers"@);
    reveal_strlit("http_post_json");
    assert("http_post_json"@[0] == 'h');
    assert(names_of(HostFunction::Zero(4))[6] == "http_post_json"@);
    reveal_strlit("http_put_json");
    assert("http_put_json"@[0] == 'h');
    assert(names_of(HostFunction::Zero(4))[7] == "http_put_json"@);
    reveal_strlit("http_patch_json");
    assert("http_patch_json"@[0] == 'h');
    assert(names_of(HostFunction::Zero(4))[8] == "http_patch_json"@);
    reveal_strlit("http_post_form");
    assert("http_post_form"@[0] == 'h');
    assert(names_of(HostFunction::Zero(4))[9] == "http_post_form"@);
    reveal_strlit("http_set_user_agent");
    assert("http_set_user_agent"@[0] == 'h');
    assert(names_of(HostFunction::Ignore(2))[0] == "http_set_user_agent"@);
    reveal_strlit("http_set_timeout");
    assert("http_set_timeout"@[0] == 'h');
    assert(names_of(HostFunction::Ignore(1))[0] == "http_set_timeout"@);
    reveal_strlit("http_set_max_redirects");
    assert("http_set_max_redirects"@[0] == 'h');
    assert(names_of(HostFunction::Ignore(1))[1] == "http_set_max_redirects"@);
    reveal_strlit("http_enable_cookies");
    assert("http_enable_cookies"@[0] == 'h');
    assert(names_of(HostFunction::Ignore(1))[2] == "http_enable_cookies"@);
    reveal_strlit("http_get_response_code");
    assert("http_get_response_code"@[0] == 'h');
    assert(names_of(HostFunction::Zero(0))[0] == "http_get_response_code"@);
    reveal_strlit("http_get_response_headers");
    assert("http_get_response_headers"@[0] == 'h');
    assert(names_of(HostFunction::Zero(0))[1] == "http_get_response_headers"@);
    reveal_strlit("http_encode_url");
    assert("http_encode_url"@[0] == 'h');
    assert(names_of(HostFunction::Zero(2))[6] == "http_encode_url"@);
    reveal_strlit("http_decode_url");
    assert("http_decode_url"@[0] == 'h');
    assert(names_of(HostFunction::Zero(2))[7] == "http_decode_url"@);
    reveal_strlit("http_build_query");
    assert("http_build_query"@[0] == 'h');
    assert(names_of(HostFunction::Zero(2))[8] == "http_build_query"@);
}

proof fn lemma_server_names()
    ensures
        well_named(abi::server_imports()),
        well_placed(abi::server_imports()),
{
    reveal_strlit("mem_alloc");
    assert("mem_alloc"@[1] == 'e' && "mem_alloc"@[0] == 'm');
    reveal_strlit("mem_retain");
    assert("mem_retain"@[1] == 'e' && "mem_retain"@[0] == 'm');
    reveal_strlit("mem_release");
    assert("mem_release"@[1] == 'e' && "mem_release"@[0] == 'm');
    reveal_strlit("mem_scope_push");
    assert("mem_scope_push"@[1] == 'e' && "mem_scope_push"@[0] == 'm');
    reveal_strlit("mem_scope_pop");
    assert("mem_scope_pop"@[1] == 'e' && "mem_scope_pop"@[0] == 'm');
    reveal_strlit("_http_route");
    assert("_http_route"@[0] == '_');
    assert(names_of(HostFunction::Zero(5))[0] == "_http_route"@);
    reveal_strlit("_http_listen");
    assert("_http_listen"@[0] == '_');
    assert(names_of(HostFunction::Zero(1))[0] == "_http_listen"@);
    reveal_strlit("_req_param");
    assert("_req_param"@[0] == '_');
    assert(names_of(HostFunction::Zero(2))[9] == "_req_param"@);
    reveal_strlit("_req_query");
    assert("_req_query"@[0] == '_');
    assert(names_of(HostFunction::Zero(2))[10] == "_req_query"@);
    reveal_strlit("_req_body");
    assert("_req_body"@[0] == '_');
    assert(names_of(HostFunction::Zero(0))[2] == "_req_body"@);
    reveal_strlit("_req_header");
    assert("_req_header"@[0] == '_');
    assert(names_of(HostFunction::Zero(2))[11] == "_req_header"@);
    reveal_strlit("_req_method");
    assert("_req_method"@[0] == '_');
    assert(names_of(HostFunction::Zero(0))[3] == "_req_method"@);
    reveal_strlit("_req_path");
    assert("_req_path"@[0] == '_');
    assert(names_of(HostFunction::Zero(0))[4] == "_req_path"@);
    reveal_strlit("_req_cookie");
    assert("_req_cookie"@[0] == '_');
    assert(names_of(HostFunction::Zero(2))[12] == "_req_cookie"@);
    reveal_strlit("_http_route_protected");
    assert("_http_route_protected"@[0] == '_');
    assert(names_of(HostFunction::Zero(7))[0] == "_http_route_protected"@);
    reveal_strlit("_session_store");
    assert("_session_store"@[0] == '_');
    assert(names_of(HostFunction::Zero(5))[1] == "_session_store"@);
    reveal_strlit("_session_get");
    assert("_session_get"@[0] == '_');
    assert(names_of(HostFunction::Zero(0))[5] == "_session_get"@);
    reveal_strlit("_session_delete");
    assert("_session_delete"@[0] == '_');
    assert(names_of(HostFunction::Zero(0))[6] == "_session_delete"@);
    reveal_strlit("_http_set_cookie");
    assert("_http_set_cookie"@[0] == '_');
    assert(names_of(HostFunction::Zero(2))[13] == "_http_set_cookie"@);
    reveal_strlit("_auth_get_session");
    assert("_auth_get_session"@[0] == '_');
    assert(names_of(HostFunction::Zero(0))[7] == "_auth_get_session"@);
    reveal_strlit("_auth_require_auth");
    assert("_auth_require_auth"@[0] == '_');
    assert(names_of(HostFunction::Zero(0))[8] == "_auth_require_auth"@);
    reveal_strlit("_auth_require_role");
    assert("_auth_require_role"@[0] == '_');
    assert(names_of(HostFunction::Zero(2))[14] == "_auth_require_role"@);
    reveal_strlit("_auth_can");
    assert("_auth_can"@[0] == '_');
    assert(names_of(HostFunction::Zero(2))[15] == "_auth_can"@);
    reveal_strlit("_auth_has_any_role");
    assert("_auth_has_any_role"@[0] == '_');
    assert(names_of(HostFunction::Zero(2))[16] == "_auth_has_any_role"@);
    reveal_strlit("_server_sleep");
    assert("_server_sleep"@[0] == '_');
    assert(names_of(HostFunction::ServerSleep)[0] == "_server_sleep"@);
}

proof fn lemma_input_names()
    ensures
        well_named(abi::input_imports()),
        well_placed(abi::input_imports()),
{
    reveal_strlit("mem_alloc");
    assert("mem_alloc"@[1] == 'e' && "mem_alloc"@[0] == 'm');
    reveal_strlit("mem_retain");
    assert("mem_retain"@[1] == 'e' && "mem_retain"@[0] == 'm');
    reveal_strlit("mem_release");
    assert("mem_release"@[1] == 'e' && "mem_release"@[0] == 'm');
    reveal_strlit("mem_scope_push");
    assert("mem_scope_push"@[1] == 'e' && "mem_scope_push"@[0] == 'm');
    reveal_strlit("mem_scope_pop");
    assert("mem_scope_pop"@[1] == 'e' && "mem_scope_pop"@[0] == 'm');
    reveal_strlit("input");
    assert("input"@[0] == 'i');
    assert(names_of(HostFunction::Zero(1))[1] == "input"@);
    reveal_strlit("input_integer");
    assert("input_integer"@[0] == 'i');
    assert(names_of(HostFunction::Zero(1))[2] == "input_integer"@);
    reveal_strlit("input_float");
    assert("input_float"@[0] == 'i');
    assert(names_of(HostFunction::ZeroFloat(1))[0] == "input_float"@);
    reveal_strlit("input_yesno");
    assert("input_yesno"@[0] == 'i');
    assert(names_of(HostFunction::Zero(1))[3] == "input_yesno"@);
    reveal_strlit("input_range");
    assert("input_range"@[0] == 'i');
    assert(names_of(HostFunction::Zero(4))[10] == "input_range"@);
}

proof fn lemma_math_names()
    ensures
        well_named(abi::math_imports()),
        well_placed(abi::math_imports()),
{
    reveal_strlit("mem_alloc");
    assert("mem_alloc"@[1] == 'e' && "mem_alloc"@[0] == 'm');
    reveal_strlit("mem_retain");
    assert("mem_retain"@[1] == 'e' && "mem_retain"@[0] == 'm');
    reveal_strlit("mem_release");
    assert("mem_release"@[1] == 'e' && "mem_release"@[0] == 'm');
    reveal_strlit("mem_scope_push");
    assert("mem_scope_push"@[1] == 'e' && "mem_scope_push"@[0] == 'm');
    reveal_strlit("mem_scope_pop");
    assert("mem_scope_pop"@[1] == 'e' && "mem_scope_pop"@[0] == 'm');
    reveal_strlit("math_pow");
    assert("math_pow"@[1] == 'a');
    assert(names_of(HostFunction::Pow)[0] == "math_pow"@);
    reveal_strlit("math_sin");
    assert("math_sin"@[1] == 'a');
    assert(names_of(HostFunction::Math(MathFunction::Sin))[0] == "math_sin"@);
    reveal_strlit("math_cos");
    assert("math_cos"@[1] == 'a');
    assert(names_of(HostFunction::Math(MathFunction::Cos))[0] == "math_cos"@);
    reveal_strlit("math_tan");
    assert("math_tan"@[1] == 'a');
    assert(names_of(HostFunction::Math(MathFunction::Tan))[0] == "math_tan"@);
    reveal_strlit("math_asin");
    assert("math_asin"@[1] == 'a');
    assert(names_of(HostFunction::Math(MathFunction::Asin))[0] == "math_asin"@);
    reveal_strlit("math_acos");
    assert("math_acos"@[1] == 'a');
    assert(names_of(HostFunction::Math(MathFunction::Acos))[0] == "math_acos"@);
    reveal_strlit("math_atan");
    assert("math_atan"@[1] == 'a');
    assert(names_of(HostFunction::Math(MathFunction::Atan))[0] == "math_atan"@);
    reveal_strlit("math_atan2");
    assert("math_atan2"@[1] == 'a');
    assert(names_of(HostFunction::Atan2)[0] == "math_atan2"@);
    reveal_strlit("math_sinh");
    assert("math_sinh"@[1] == 'a');
    assert(names_of(HostFunction::Math(MathFunction::Sinh))[0] == "math_sinh"@);
    reveal_strlit("math_cosh");
    assert("math_cosh"@[1] == 'a');
    assert(names_of(HostFunction::Math(MathFunction::Cosh))[0] == "math_cosh"@);
    reveal_strlit("math_tanh");
    assert("math_tanh"@[1] == 'a');
    assert(names_of(HostFunction::Math(MathFunction::Tanh))[0] == "math_tanh"@);
    reveal_strlit("math_ln");
    assert("math_ln"@[1] == 'a');
    assert(names_of(HostFunction::Math(MathFunction::Ln))[0] == "math_ln"@);
    reveal_strlit("math_log10");
    assert("math_log10"@[1] == 'a');
    assert(names_of(HostFunction::Math(MathFunction::Log10))[0] == "math_log10"@);
    reveal_strlit("math_log2");
    assert("math_log2"@[1] == 'a');
    assert(names_of(HostFunction::Math(MathFunction::Log2))[0] == "math_log2"@);
    reveal_strlit("math_exp");
    assert("math_exp"@[1] == 'a');
    assert(names_of(HostFunction::Math(MathFunction::Exp))[0] == "math_exp"@);
    reveal_strlit("math_exp2");
    assert("math_exp2"@[1] == 'a');
    assert(names_of(HostFunction::Math(MathFunction::Exp2))[0] == "math_exp2"@);
    reveal_strlit("math_sqrt");
    assert("math_sqrt"@[1] == 'a');
    assert(names_of(HostFunction::Math(MathFunction::Sqrt))[0] == "math_sqrt"@);
    reveal_strlit("math_floor");
    assert("math_floor"@[1] == 'a');
    assert(names_of(HostFunction::Math(MathFunction::Floor))[0] == "math_floor"@);
    reveal_strlit("math_ceil");
    assert("math_ceil"@[1] == 'a');
    assert(names_of(HostFunction::Math(MathFunction::Ceil))[0] == "math_ceil"@);
    reveal_strlit("math_round");
    assert("math_round"@[1] == 'a');
    assert(names_of(HostFunction::Math(MathFunction::Round))[0] == "math_round"@);
    reveal_strlit("math_abs");
    assert("math_abs"@[1] == 'a');
    assert(names_of(HostFunction::Math(MathFunction::Abs))[0] == "math_abs"@);
}

proof fn lemma_math_method_names()
    ensures
        well_named(abi::math_method_imports()),
        well_placed(abi::math_method_imports()),
{
    reveal_strlit("mem_alloc");
    assert("mem_alloc"@[1] == 'e' && "mem_alloc"@[0] == 'm');
    reveal_strlit("mem_retain");
    assert("mem_retain"@[1] == 'e' && "mem_retain"@[0] == 'm');
    reveal_strlit("mem_release");
    assert("mem_release"@[1] == 'e' && "mem_release"@[0] == 'm');
    reveal_strlit("mem_scope_push");
    assert("mem_scope_push"@[1] == 'e' && "mem_scope_push"@[0] == 'm');
    reveal_strlit("mem_scope_pop");
    assert("mem_scope_pop"@[1] == 'e' && "mem_scope_pop"@[0] == 'm');
    reveal_strlit("math.pow");
    assert("math.pow"@[1] == 'a');
    assert(names_of(HostFunction::Pow)[1] == "math.pow"@);
    reveal_strlit("math.sin");
    assert("math.sin"@[1] == 'a');
    assert(names_of(HostFunction::Math(MathFunction::Sin))[1] == "math.sin"@);
    reveal_strlit("math.cos");
    assert("math.cos"@[1] == 'a');
    assert(names_of(HostFunction::Math(MathFunction::Cos))[1] == "math.cos"@);
    reveal_strlit("math.tan");
    assert("math.tan"@[1] == 'a');
    assert(names_of(HostFunction::Math(MathFunction::Tan))[1] == "math.tan"@);
    reveal_strlit("math.asin");
    assert("math.asin"@[1] == 'a');
    assert(names_of(HostFunction::Math(MathFunction::Asin))[1] == "math.asin"@);
    reveal_strlit("math.acos");
    assert("math.acos"@[1] == 'a');
    assert(names_of(HostFunction::Math(MathFunction::Acos))[1] == "math.acos"@);
    reveal_strlit("math.atan");
    assert("math.atan"@[1] == 'a');
    assert(names_of(HostFunction::Math(MathFunction::Atan))[1] == "math.atan"@);
    reveal_strlit("math.atan2");
    assert("math.atan2"@[1] == 'a');
    assert(names_of(HostFunction::Atan2)[1] == "math.atan2"@);
    reveal_strlit("math.sinh");
    assert("math.sinh"@[1] == 'a');
    assert(names_of(HostFunction::Math(MathFunction::Sinh))[1] == "math.sinh"@);
    reveal_strlit("math.cosh");
    assert("math.cosh"@[1] == 'a');
    assert(names_of(HostFunction::Math(MathFunction::Cosh))[1] == "math.cosh"@);
    reveal_strlit("math.tanh");
    assert("math.tanh"@[1] == 'a');
    assert(names_of(HostFunction::Math(MathFunction::Tanh))[1] == "math.tanh"@);
    reveal_strlit("math.ln");
    assert("math.ln"@[1] == 'a');
    assert(names_of(HostFunction::Math(MathFunction::Ln))[1] == "math.ln"@);
    reveal_strlit("math.log10");
    assert("math.log10"@[1] == 'a');
    assert(names_of(HostFunction::Math(MathFunction::Log10))[1] == "math.log10"@);
    reveal_strlit("math.log2");
    assert("math.log2"@[1] == 'a');
    assert(names_of(HostFunction::Math(MathFunction::Log2))[1] == "math.log2"@);
    reveal_strlit("math.exp");
    assert("math.exp"@[1] == 'a');
    assert(names_of(HostFunction::Math(MathFunction::Exp))[1] == "math.exp"@);
    reveal_strlit("math.exp2");
    assert("math.exp2"@[1] == 'a');
    assert(names_of(HostFunction::Math(MathFunction::Exp2))[1] == "math.exp2"@);
    reveal_strlit("math.sqrt");
    assert("math.sqrt"@[1] == 'a');
    assert(names_of(HostFunction::Math(MathFunction::Sqrt))[1] == "math.sqrt"@);
    reveal_strlit("math.floor");
    assert("math.floor"@[1] == 'a');
    assert(names_of(HostFunction::Math(MathFunction::Floor))[1] == "math.floor"@);
    reveal_strlit("math.ceil");
    assert("math.ceil"@[1] == 'a');
    assert(names_of(HostFunction::Math(MathFunction::Ceil))[1] == "math.ceil"@);
    reveal_strlit("math.round");
    assert("math.round"@[1] == 'a');
    assert(names_of(HostFunction::Math(MathFunction::Round))[1] == "math.round"@);
    reveal_strlit("math.abs");
    assert("math.abs"@[1] == 'a');
    assert(names_of(HostFunction::Math(MathFunction::Abs))[1] == "math.abs"@);
}

proof fn lemma_choice_names()
    ensures
        well_named(abi::choice_imports()),
        well_placed(abi::choice_imports()),
{
    reveal_strlit("mem_alloc");
    assert("mem_alloc"@[1] == 'e' && "mem_alloc"@[0] == 'm');
    reveal_strlit("mem_retain");
    assert("mem_retain"@[1] == 'e' && "mem_retain"@[0] == 'm');
    reveal_strlit("mem_release");
    assert("mem_release"@[1] == 'e' && "mem_release"@[0] == 'm');
    reveal_strlit("mem_scope_push");
    assert("mem_scope_push"@[1] == 'e' && "mem_scope_push"@[0] == 'm');
    reveal_strlit("mem_scope_pop");
    assert("mem_scope_pop"@[1] == 'e' && "mem_scope_pop"@[0] == 'm');
    reveal_strlit("conditional_integer");
    assert("conditional_integer"@[0] == 'c');
    assert(names_of(HostFunction::ConditionalInteger)[0] == "conditional_integer"@);
    reveal_strlit("conditional_number");
    assert("conditional_number"@[0] == 'c');
    assert(names_of(HostFunction::ConditionalNumber)[0] == "conditional_number"@);
    reveal_strlit("conditional_boolean");
    assert("conditional_boolean"@[0] == 'c');
    assert(names_of(HostFunction::ConditionalInteger)[1] == "conditional_boolean"@);
    reveal_strlit("conditional_string");
    assert("conditional_string"@[0] == 'c');
    assert(names_of(HostFunction::ConditionalInteger)[2] == "conditional_string"@);
}

proof fn lemma_integer_names()
    ensures
        well_named(abi::integer_imports()),
        well_placed(abi::integer_imports()),
{
    reveal_strlit("mem_alloc");
    assert("mem_alloc"@[1] == 'e' && "mem_alloc"@[0] == 'm');
    reveal_strlit("mem_retain");
    assert("mem_retain"@[1] == 'e' && "mem_retain"@[0] == 'm');
    reveal_strlit("mem_release");
    assert("mem_release"@[1] == 'e' && "mem_release"@[0] == 'm');
    reveal_strlit("mem_scope_push");
    assert("mem_scope_push"@[1] == 'e' && "mem_scope_push"@[0] == 'm');
    reveal_strlit("mem_scope_pop");
    assert("mem_scope_pop"@[1] == 'e' && "mem_scope_pop"@[0] == 'm');
    reveal_strlit("int_to_string");
    assert("int_to_string"@[0] == 'i');
    assert(names_of(HostFunction::IntToString)[0] == "int_to_string"@);
    reveal_strlit("integer.toString");
    assert("integer.toString"@[0] == 'i');
    assert(names_of(HostFunction::IntToString)[1] == "integer.toString"@);
    reveal_strlit("integer.toInteger");
    assert("integer.toInteger"@[0] == 'i');
    assert(names_of(HostFunction::Same)[0] == "integer.toInteger"@);
    reveal_strlit("integer.toNumber");
    assert("integer.toNumber"@[0] == 'i');
    assert(names_of(HostFunction::IntToFloat)[0] == "integer.toNumber"@);
    reveal_strlit("integer.toBoolean");
    assert("integer.toBoolean"@[0] == 'i');
    assert(names_of(HostFunction::IntToBool)[0] == "integer.toBoolean"@);
    reveal_strlit("integer.length");
    assert("integer.length"@[0] == 'i');
    assert(names_of(HostFunction::Zero(1))[4] == "integer.length"@);
}

proof fn lemma_number_names()
    ensures
        well_named(abi::number_imports()),
        well_placed(abi::number_imports()),
{
    reveal_strlit("mem_alloc");
    assert("mem_alloc"@[1] == 'e' && "mem_alloc"@[0] == 'm');
    reveal_strlit("mem_retain");
    assert("mem_retain"@[1] == 'e' && "mem_retain"@[0] == 'm');
    reveal_strlit("mem_release");
    assert("mem_release"@[1] == 'e' && "mem_release"@[0] == 'm');
    reveal_strlit("mem_scope_push");
    assert("mem_scope_push"@[1] == 'e' && "mem_scope_push"@[0] == 'm');
    reveal_strlit("mem_scope_pop");
    assert("mem_scope_pop"@[1] == 'e' && "mem_scope_pop"@[0] == 'm');
    reveal_strlit("float_to_string");
    assert("float_to_string"@[0] == 'f');
    assert(names_of(HostFunction::FloatToString)[0] == "float_to_string"@);
    reveal_strlit("number.toString");
    assert("number.toString"@[0] == 'n');
    assert(names_of(HostFunction::FloatToString)[1] == "number.toString"@);
    reveal_strlit("number.toInteger");
    assert("number.toInteger"@[0] == 'n');
    assert(names_of(HostFunction::FloatToInt)[0] == "number.toInteger"@);
    reveal_strlit("number.toNumber");
    assert("number.toNumber"@[0] == 'n');
    assert(names_of(HostFunction::SameFloat)[0] == "number.toNumber"@);
    reveal_strlit("number.toBoolean");
    assert("number.toBoolean"@[0] == 'n');
    assert(names_of(HostFunction::FloatToBool)[0] == "number.toBoolean"@);
    reveal_strlit("number.length");
    assert("number.length"@[0] == 'n');
    assert(names_of(HostFunction::ZeroOfFloat)[0] == "number.length"@);
}

proof fn lemma_boolean_names()
    ensures
        well_named(abi::boolean_imports()),
        well_placed(abi::boolean_imports()),
{
    reveal_strlit("mem_alloc");
    assert("mem_alloc"@[1] == 'e' && "mem_alloc"@[0] == 'm');
    reveal_strlit("mem_retain");
    assert("mem_retain"@[1] == 'e' && "mem_retain"@[0] == 'm');
    reveal_strlit("mem_release");
    assert("mem_release"@[1] == 'e' && "mem_release"@[0] == 'm');
    reveal_strlit("mem_scope_push");
    assert("mem_scope_push"@[1] == 'e' && "mem_scope_push"@[0] == 'm');
    reveal_strlit("mem_scope_pop");
    assert("mem_scope_pop"@[1] == 'e' && "mem_scope_pop"@[0] == 'm');
    reveal_strlit("bool_to_string");
    assert("bool_to_string"@[0] == 'b');
    assert(names_of(HostFunction::BoolToString)[0] == "bool_to_string"@);
    reveal_strlit("boolean.toString");
    assert("boolean.toString"@[0] == 'b');
    assert(names_of(HostFunction::BoolToString)[1] == "boolean.toString"@);
    reveal_strlit("boolean.toInteger");
    assert("boolean.toInteger"@[0] == 'b');
    assert(names_of(HostFunction::Same)[1] == "boolean.toInteger"@);
    reveal_strlit("boolean.toNumber");
    assert("boolean.toNumber"@[0] == 'b');
    assert(names_of(HostFunction::IntToFloat)[1] == "boolean.toNumber"@);
    reveal_strlit("boolean.toBoolean");
    assert("boolean.toBoolean"@[0] == 'b');
    assert(names_of(HostFunction::Same)[2] == "boolean.toBoolean"@);
    reveal_strlit("boolean.length");
    assert("boolean.length"@[0] == 'b');
    assert(names_of(HostFunction::Zero(1))[5] == "boolean.length"@);
}

proof fn lemma_string_names()
    ensures
        well_named(abi::string_imports()),
        well_placed(abi::string_imports()),
{
    reveal_strlit("mem_alloc");
    assert("mem_alloc"@[1] == 'e' && "mem_alloc"@[0] == 'm');
    reveal_strlit("mem_retain");
    assert("mem_retain"@[1] == 'e' && "mem_retain"@[0] == 'm');
    reveal_strlit("mem_release");
    assert("mem_release"@[1] == 'e' && "mem_release"@[0] == 'm');
    reveal_strlit("mem_scope_push");
    assert("mem_scope_push"@[1] == 'e' && "mem_scope_push"@[0] == 'm');
    reveal_strlit("mem_scope_pop");
    assert("mem_scope_pop"@[1] == 'e' && "mem_scope_pop"@[0] == 'm');
    reveal_strlit("string_to_int");
    assert("string_to_int"@[0] == 's');
    assert(names_of(HostFunction::Zero(1))[6] == "string_to_int"@);
    reveal_strlit("string_to_float");
    assert("string_to_float"@[0] == 's');
    assert(names_of(HostFunction::ZeroFloat(1))[1] == "string_to_float"@);
    reveal_strlit("string_concat");
    assert("string_concat"@[0] == 's');
    assert(names_of(HostFunction::StringConcat)[0] == "string_concat"@);
    reveal_strlit("string_compare");
    assert("string_compare"@[0] == 's');
    assert(names_of(HostFunction::StringCompare)[0] == "string_compare"@);
    reveal_strlit("string_replace");
    assert("string_replace"@[0] == 's');
    assert(names_of(HostFunction::StringReplace)[0] == "string_replace"@);
    reveal_strlit("string_trim");
    assert("string_trim"@[0] == 's');
    assert(names_of(HostFunction::StringTrim)[0] == "string_trim"@);
    reveal_strlit("string_trim_start");
    assert("string_trim_start"@[0] == 's');
    assert(names_of(HostFunction::StringTrimStart)[0] == "string_trim_start"@);
    reveal_strlit("string_trim_end");
    assert("string_trim_end"@[0] == 's');
    assert(names_of(HostFunction::StringTrimEnd)[0] == "string_trim_end"@);
    reveal_strlit("string_split");
    assert("string_split"@[0] == 's');
    assert(names_of(HostFunction::StringSplit)[0] == "string_split"@);
    reveal_strlit("string_repeat");
    assert("string_repeat"@[0] == 's');
    assert(names_of(HostFunction::StringRepeat)[0] == "string_repeat"@);
    reveal_strlit("string_matches");
    assert("string_matches"@[0] == 's');
    assert(names_of(HostFunction::StringMatches)[0] == "string_matches"@);
}

proof fn lemma_string_method_names()
    ensures
        well_named(abi::string_method_imports()),
        well_placed(abi::string_method_imports()),
{
    reveal_strlit("mem_alloc");
    assert("mem_alloc"@[1] == 'e' && "mem_alloc"@[0] == 'm');
    reveal_strlit("mem_retain");
    assert("mem_retain"@[1] == 'e' && "mem_retain"@[0] == 'm');
    reveal_strlit("mem_release");
    assert("mem_release"@[1] == 'e' && "mem_release"@[0] == 'm');
    reveal_strlit("mem_scope_push");
    assert("mem_scope_push"@[1] == 'e' && "mem_scope_push"@[0] == 'm');
    reveal_strlit("mem_scope_pop");
    assert("mem_scope_pop"@[1] == 'e' && "mem_scope_pop"@[0] == 'm');
    reveal_strlit("string.concat");
    assert("string.concat"@[0] == 's');
    assert(names_of(HostFunction::StringConcat)[1] == "string.concat"@);
    reveal_strlit("string.split");
    assert("string.split"@[0] == 's');
    assert(names_of(HostFunction::StringSplit)[1] == "string.split"@);
    reveal_strlit("string.toUpperCase");
    assert("string.toUpperCase"@[0] == 's');
    assert(names_of(HostFunction::Zero(1))[7] == "string.toUpperCase"@);
    reveal_strlit("string.toLowerCase");
    assert("string.toLowerCase"@[0] == 's');
    assert(names_of(HostFunction::Zero(1))[8] == "string.toLowerCase"@);
    reveal_strlit("string.toString");
    assert("string.toString"@[0] == 's');
    assert(names_of(HostFunction::Same)[3] == "string.toString"@);
    reveal_strlit("string.toInteger");
    assert("string.toInteger"@[0] == 's');
    assert(names_of(HostFunction::Zero(1))[9] == "string.toInteger"@);
    reveal_strlit("string.toNumber");
    assert("string.toNumber"@[0] == 's');
    assert(names_of(HostFunction::ZeroFloat(1))[2] == "string.toNumber"@);
    reveal_strlit("string.toBoolean");
    assert("string.toBoolean"@[0] == 's');
    assert(names_of(HostFunction::Zero(1))[10] == "string.toBoolean"@);
    reveal_strlit("string.length");
    assert("string.length"@[0] == 's');
    assert(names_of(HostFunction::Zero(1))[11] == "string.length"@);
}

proof fn lemma_collection_names()
    ensures
        well_named(abi::collection_imports()),
        well_placed(abi::collection_imports()),
{
    reveal_strlit("mem_alloc");
    assert("mem_alloc"@[1] == 'e' && "mem_alloc"@[0] == 'm');
    reveal_strlit("mem_retain");
    assert("mem_retain"@[1] == 'e' && "mem_retain"@[0] == 'm');
    reveal_strlit("mem_release");
    assert("mem_release"@[1] == 'e' && "mem_release"@[0] == 'm');
    reveal_strlit("mem_scope_push");
    assert("mem_scope_push"@[1] == 'e' && "mem_scope_push"@[0] == 'm');
    reveal_strlit("mem_scope_pop");
    assert("mem_scope_pop"@[1] == 'e' && "mem_scope_pop"@[0] == 'm');
    reveal_strlit("array_get");
    assert("array_get"@[0] == 'a');
    assert(names_of(HostFunction::ArrayGet)[0] == "array_get"@);
    reveal_strlit("list.push_f64");
    assert("list.push_f64"@[0] == 'l');
    assert(names_of(HostFunction::ListPushF64)[0] == "list.push_f64"@);
}

proof fn lemma_memory_names()
    ensures
        well_named(abi::memory_imports()),
        well_placed(abi::memory_imports()),
{
    assert(names_of(HostFunction::MemAlloc)[0] == "mem_alloc"@);
    assert(names_of(HostFunction::Ignore(1))[3] == "mem_retain"@);
    assert(names_of(HostFunction::Ignore(1))[4] == "mem_release"@);
    assert(names_of(HostFunction::MemScopePush)[0] == "mem_scope_push"@);
    assert(names_of(HostFunction::MemScopePop)[0] == "mem_scope_pop"@);
}

/// Every function is offered under one of its names and in its module.
pub proof fn law_table(index: int)
    requires
        0 <= index < abi::all_imports().len(),
    ensures
        names_of(abi::all_imports()[index].function).contains(abi::all_imports()[index].name),
        abi::all_imports()[index].module == module_of(abi::all_imports()[index].name),
{
    lemma_console_names();
    let all = abi::console_imports();
    lemma_file_names();
    lemma_well_named_together(all, abi::file_imports());
    let all = all + abi::file_imports();
    lemma_http_client_names();
    lemma_well_named_together(all, abi::http_client_imports());
    let all = all + abi::http_client_imports();
    lemma_server_names();
    lemma_well_named_together(all, abi::server_imports());
    let all = all + abi::server_imports();
    lemma_input_names();
    lemma_well_named_together(all, abi::input_imports());
    let all = all + abi::input_imports();
    lemma_math_names();
    lemma_well_named_together(all, abi::math_imports());
    let all = all + abi::math_imports();
    lemma_math_method_names();
    lemma_well_named_together(all, abi::math_method_imports());
    let all = all + abi::math_method_imports();
    lemma_choice_names();
    lemma_well_named_together(all, abi::choice_imports());
    let all = all + abi::choice_imports();
    lemma_integer_names();
    lemma_well_named_together(all, abi::integer_imports());
    let all = all + abi::integer_imports();
    lemma_number_names();
    lemma_well_named_together(all, abi::number_imports());
    let all = all + abi::number_imports();
    lemma_boolean_names();
    lemma_well_named_together(all, abi::boolean_imports());
    let all = all + abi::boolean_imports();
    lemma_string_names();
    lemma_well_named_together(all, abi::string_imports());
    let all = all + abi::string_imports();
    lemma_string_method_names();
    lemma_well_named_together(all, abi::string_method_imports());
    let all = all + abi::string_method_imports();
    lemma_collection_names();
    lemma_well_named_together(all, abi::collection_imports());
    let all = all + abi::collection_imports();
    lemma_memory_names();
    lemma_well_named_together(all, abi::memory_imports());
    let all = all + abi::memory_imports();
    assert(all == abi::all_imports());
}

/// How many functions are offered.
pub proof fn law_table_is_complete()
    ensures
        abi::all_imports().len() == 150,
{
}

/// The list of imports offers every function under one of its names and in its
/// module, and nothing twice.
pub proof fn law_imports(imports: Vec<Import>, i: int, j: int)
    requires
        call_ensures(abi::imports, (), imports),
        0 <= i < imports@.len(),
        0 <= j < imports@.len(),
    ensures
        imports@.len() == 150,
        names_of(imports@[i].function).contains(imports@[i].name@),
        imports@[i].module@ == module_of(imports@[i].name@),
        i != j ==> imports@[i].module@ != imports@[j].module@ || imports@[i].name@
            != imports@[j].name@,
{
    let views = abi::import_views(imports@);
    assert(views[i] == imports@[i]@);
    assert(views[j] == imports@[j]@);
    law_table(i);
    law_table_is_complete();
    abi::law_nothing_offered_twice();
}

/// A function is linked under the types of its arguments and its result.
pub proof fn law_signature(function: HostFunction, signature: abi::Signature)
    requires
        call_ensures(abi::signature, (function,), signature),
    ensures
        signature.params@ == abi::parameters(function),
        signature.result == abi::result_type(function),
{
}

/// The functions that take a floating-point number and nothing else.
pub open spec fn takes_a_number(function: HostFunction) -> bool {
    ||| function is PrintFloat
    ||| function is ZeroOfFloat
    ||| function is Math
    ||| function is FloatToString
    ||| function is SameFloat
    ||| function is FloatToInt
    ||| function is FloatToBool
}

/// Which arguments are floating-point numbers and which are long integers; all
/// others are integers.
pub proof fn law_argument_types(function: HostFunction, index: int)
    requires
        0 <= index < abi::parameters(function).len(),
    ensures
        abi::parameters(function)[index] == ValueType::F64 <==> takes_a_number(function)
            || function is Pow || function is Atan2 || (function is ListPushF64 && index == 1) || (
        function is ConditionalNumber && index > 0),
        abi::parameters(function)[index] == ValueType::I64 <==> function is PrintInteger
            || function is ServerSleep,
{
}

/// How many arguments a function takes.
pub proof fn law_argument_count(function: HostFunction)
    ensures
        abi::parameters(function).len() == match function {
            HostFunction::Ignore(count) => count as int,
            HostFunction::Zero(count) => count as int,
            HostFunction::ZeroFloat(count) => count as int,
            HostFunction::MemScopePush | HostFunction::MemScopePop => 0,
            HostFunction::StringMatches => 4,
            HostFunction::ConditionalInteger
            | HostFunction::ConditionalNumber
            | HostFunction::StringReplace
            | HostFunction::StringRepeat => 3,
            HostFunction::Print
            | HostFunction::Printl
            | HostFunction::Pow
            | HostFunction::Atan2
            | HostFunction::StringConcat
            | HostFunction::StringCompare
            | HostFunction::StringSplit
            | HostFunction::MemAlloc
            | HostFunction::ArrayGet
            | HostFunction::ListPushF64 => 2,
            _ => 1,
        },
{
}

/// Which functions return nothing and which a floating-point number; all others
/// return an integer.
pub proof fn law_result_types(function: HostFunction)
    ensures
        abi::result_type(function) is None <==> function is Print || function is Printl
            || function is PrintSimple || function is PrintlSimple || function is PrintInteger
            || function is PrintFloat || function is PrintBoolean || function is Ignore
            || function is ServerSleep || function is MemScopePush || function is MemScopePop,
        abi::result_type(function) == Some(ValueType::F64) <==> function is ZeroFloat
            || function is Pow || function is Atan2 || function is Math
            || function is ConditionalNumber || function is SameFloat || function is IntToFloat,
        abi::result_type(function) != Some(ValueType::I64),
{
}

} // verus!
