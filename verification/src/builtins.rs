//! The rules of the builtin functions.
use vstd::prelude::*;
use crate::types::{Type, TypeV, type_v};
use crate::typeck_spec::{ArgCheckV, BuiltinV, builtin_of};
use crate::typeck::text_is;
use crate::text::{string_of, concat_str};

verus! {

/// What an argument of a builtin must be (see `ArgCheckV`).
pub struct ArgCheck {
    pub allowed: u8,
    pub head: String,
}

impl View for ArgCheck {
    type V = ArgCheckV;

    open spec fn view(&self) -> ArgCheckV {
        ArgCheckV { allowed: self.allowed, head: self.head@ }
    }
}

/// The rule of a builtin function (see `BuiltinV`).
pub struct Builtin {
    pub arity: usize,
    pub arity_msg: String,
    pub count: bool,
    pub checks: Vec<ArgCheck>,
    pub ret: Option<Type>,
}

impl View for Builtin {
    type V = BuiltinV;

    open spec fn view(&self) -> BuiltinV {
        BuiltinV {
            arity: self.arity as nat,
            arity_msg: self.arity_msg@,
            count: self.count,
            checks: self.checks@.map_values(|c: ArgCheck| c@),
            ret: match self.ret {
                Some(t) => Some(t@),
                None => None,
            },
        }
    }
}

pub open spec fn opt_builtin_v(b: Option<Builtin>) -> Option<BuiltinV> {
    match b {
        Some(x) => Some(x@),
        None => None,
    }
}

fn find_builtin_part0(name: &String) -> (r: Option<Builtin>)
    ensures
        opt_builtin_v(r) == crate::typeck_spec::builtin_part0(name@),
{
    if text_is(name, "print") || text_is(name, "p") {
        let checks: Vec<ArgCheck> = vec![ArgCheck { allowed: 0, head: string_of("") }];
        let b = Builtin { arity: 1, arity_msg: string_of("print() takes exactly 1 argument, got "), count: true, checks, ret: Some(Type::Int) };
        assert(b@.checks =~= seq![ArgCheckV { allowed: 0, head: ""@ }]);
        return Some(b);
    }
    if text_is(name, "int_to_string") || text_is(name, "str") || text_is(name, "itos") {
        let checks: Vec<ArgCheck> = vec![ArgCheck { allowed: 6, head: string_of("str() requires Int, String, Float, or Bool argument, got ") }];
        let b = Builtin { arity: 1, arity_msg: string_of("int_to_string() takes exactly 1 argument"), count: false, checks, ret: Some(Type::String) };
        assert(b@.checks =~= seq![ArgCheckV { allowed: 6, head: "str() requires Int, String, Float, or Bool argument, got "@ }]);
        return Some(b);
    }
    if text_is(name, "string_to_int") || text_is(name, "stoi") {
        let checks: Vec<ArgCheck> = vec![ArgCheck { allowed: 2, head: string_of("string_to_int() requires String argument, got ") }];
        let b = Builtin { arity: 1, arity_msg: string_of("string_to_int() takes exactly 1 argument"), count: false, checks, ret: Some(Type::Int) };
        assert(b@.checks =~= seq![ArgCheckV { allowed: 2, head: "string_to_int() requires String argument, got "@ }]);
        return Some(b);
    }
    if text_is(name, "int_to_float") || text_is(name, "itof") {
        let checks: Vec<ArgCheck> = vec![ArgCheck { allowed: 1, head: string_of("int_to_float() requires Int argument, got ") }];
        let b = Builtin { arity: 1, arity_msg: string_of("int_to_float() takes exactly 1 argument"), count: false, checks, ret: Some(Type::Float) };
        assert(b@.checks =~= seq![ArgCheckV { allowed: 1, head: "int_to_float() requires Int argument, got "@ }]);
        return Some(b);
    }
    if text_is(name, "float_to_int") || text_is(name, "ftoi") {
        let checks: Vec<ArgCheck> = vec![ArgCheck { allowed: 3, head: string_of("float_to_int() requires Float argument, got ") }];
        let b = Builtin { arity: 1, arity_msg: string_of("float_to_int() takes exactly 1 argument"), count: false, checks, ret: Some(Type::Int) };
        assert(b@.checks =~= seq![ArgCheckV { allowed: 3, head: "float_to_int() requires Float argument, got "@ }]);
        return Some(b);
    }
    if text_is(name, "float_to_string") || text_is(name, "ftos") {
        let checks: Vec<ArgCheck> = vec![ArgCheck { allowed: 3, head: string_of("float_to_string() requires Float argument, got ") }];
        let b = Builtin { arity: 1, arity_msg: string_of("float_to_string() takes exactly 1 argument"), count: false, checks, ret: Some(Type::String) };
        assert(b@.checks =~= seq![ArgCheckV { allowed: 3, head: "float_to_string() requires Float argument, got "@ }]);
        return Some(b);
    }
    if text_is(name, "file_read") || text_is(name, "read_file") || text_is(name, "fread") || text_is(name, "fr") {
        let checks: Vec<ArgCheck> = vec![ArgCheck { allowed: 2, head: string_of("file_read() requires String argument, got ") }];
        let b = Builtin { arity: 1, arity_msg: string_of("file_read() takes exactly 1 argument"), count: false, checks, ret: Some(Type::String) };
        assert(b@.checks =~= seq![ArgCheckV { allowed: 2, head: "file_read() requires String argument, got "@ }]);
        return Some(b);
    }
    if text_is(name, "file_write") || text_is(name, "write_file") || text_is(name, "fwrite") || text_is(name, "fw") || text_is(name, "file_append") || text_is(name, "append_file") || text_is(name, "fappend") || text_is(name, "fa") {
        let checks: Vec<ArgCheck> = vec![ArgCheck { allowed: 2, head: concat_str(name.clone(), "() requires String as first argument, got ") }, ArgCheck { allowed: 2, head: concat_str(name.clone(), "() requires String as second argument, got ") }];
        let b = Builtin { arity: 2, arity_msg: concat_str(name.clone(), "() takes exactly 2 arguments"), count: false, checks, ret: Some(Type::Int) };
        assert(b@.checks =~= seq![ArgCheckV { allowed: 2, head: name@ + "() requires String as first argument, got "@ }, ArgCheckV { allowed: 2, head: name@ + "() requires String as second argument, got "@ }]);
        return Some(b);
    }
    if text_is(name, "file_exists") || text_is(name, "fexists") || text_is(name, "fe") {
        let checks: Vec<ArgCheck> = vec![ArgCheck { allowed: 2, head: string_of("file_exists() requires String argument, got ") }];
        let b = Builtin { arity: 1, arity_msg: string_of("file_exists() takes exactly 1 argument"), count: false, checks, ret: Some(Type::Bool) };
        assert(b@.checks =~= seq![ArgCheckV { allowed: 2, head: "file_exists() requires String argument, got "@ }]);
        return Some(b);
    }
    if text_is(name, "args") {
        let checks: Vec<ArgCheck> = vec![];
        let b = Builtin { arity: 0, arity_msg: string_of("args() takes 0 arguments"), count: false, checks, ret: Some(Type::Array { inner: Box::new(Type::String) }) };
        assert(type_v(Type::String) == TypeV::String);
        assert(b@.checks =~= Seq::<ArgCheckV>::empty());
        return Some(b);
    }
    if text_is(name, "json_parse") || text_is(name, "jparse") || text_is(name, "jp") {
        let checks: Vec<ArgCheck> = vec![ArgCheck { allowed: 2, head: string_of("json_parse() requires String argument, got ") }];
        let b = Builtin { arity: 1, arity_msg: string_of("json_parse() takes exactly 1 argument"), count: false, checks, ret: Some(Type::JsonValue) };
        assert(b@.checks =~= seq![ArgCheckV { allowed: 2, head: "json_parse() requires String argument, got "@ }]);
        return Some(b);
    }
    if text_is(name, "map") || text_is(name, "M") {
        let checks: Vec<ArgCheck> = vec![];
        let b = Builtin { arity: 0, arity_msg: string_of("map() takes 0 arguments"), count: false, checks, ret: Some(Type::Mapping) };
        assert(b@.checks =~= Seq::<ArgCheckV>::empty());
        return Some(b);
    }
    None
}

fn find_builtin_part1(name: &String) -> (r: Option<Builtin>)
    ensures
        opt_builtin_v(r) == crate::typeck_spec::builtin_part1(name@),
{
    if text_is(name, "json_object") || text_is(name, "jobj") || text_is(name, "jo") {
        let checks: Vec<ArgCheck> = vec![];
        let b = Builtin { arity: 0, arity_msg: string_of("json_object() takes 0 arguments"), count: false, checks, ret: Some(Type::JsonValue) };
        assert(b@.checks =~= Seq::<ArgCheckV>::empty());
        return Some(b);
    }
    if text_is(name, "json_array") || text_is(name, "jarr") || text_is(name, "ja") {
        let checks: Vec<ArgCheck> = vec![];
        let b = Builtin { arity: 0, arity_msg: string_of("json_array() takes 0 arguments"), count: false, checks, ret: Some(Type::JsonValue) };
        assert(b@.checks =~= Seq::<ArgCheckV>::empty());
        return Some(b);
    }
    if text_is(name, "json_string") || text_is(name, "jstr") || text_is(name, "js") {
        let checks: Vec<ArgCheck> = vec![ArgCheck { allowed: 2, head: string_of("json_string() requires String argument, got ") }];
        let b = Builtin { arity: 1, arity_msg: string_of("json_string() takes exactly 1 argument"), count: false, checks, ret: Some(Type::JsonValue) };
        assert(b@.checks =~= seq![ArgCheckV { allowed: 2, head: "json_string() requires String argument, got "@ }]);
        return Some(b);
    }
    if text_is(name, "json_int") || text_is(name, "ji") {
        let checks: Vec<ArgCheck> = vec![ArgCheck { allowed: 1, head: string_of("json_int() requires Int argument, got ") }];
        let b = Builtin { arity: 1, arity_msg: string_of("json_int() takes exactly 1 argument"), count: false, checks, ret: Some(Type::JsonValue) };
        assert(b@.checks =~= seq![ArgCheckV { allowed: 1, head: "json_int() requires Int argument, got "@ }]);
        return Some(b);
    }
    if text_is(name, "json_bool") || text_is(name, "jb") {
        let checks: Vec<ArgCheck> = vec![ArgCheck { allowed: 4, head: string_of("json_bool() requires Bool argument, got ") }];
        let b = Builtin { arity: 1, arity_msg: string_of("json_bool() takes exactly 1 argument"), count: false, checks, ret: Some(Type::JsonValue) };
        assert(b@.checks =~= seq![ArgCheckV { allowed: 4, head: "json_bool() requires Bool argument, got "@ }]);
        return Some(b);
    }
    if text_is(name, "json_null") || text_is(name, "jn") {
        let checks: Vec<ArgCheck> = vec![];
        let b = Builtin { arity: 0, arity_msg: string_of("json_null() takes 0 arguments"), count: false, checks, ret: Some(Type::JsonValue) };
        assert(b@.checks =~= Seq::<ArgCheckV>::empty());
        return Some(b);
    }
    if text_is(name, "json_stringify") || text_is(name, "jstringify") || text_is(name, "jfy") {
        let checks: Vec<ArgCheck> = vec![ArgCheck { allowed: 5, head: string_of("json_stringify() requires JsonValue argument, got ") }];
        let b = Builtin { arity: 1, arity_msg: string_of("json_stringify() takes exactly 1 argument"), count: false, checks, ret: Some(Type::String) };
        assert(b@.checks =~= seq![ArgCheckV { allowed: 5, head: "json_stringify() requires JsonValue argument, got "@ }]);
        return Some(b);
    }
    if text_is(name, "http_get") || text_is(name, "hget") || text_is(name, "hg") {
        let checks: Vec<ArgCheck> = vec![ArgCheck { allowed: 2, head: string_of("http_get() requires String argument, got ") }];
        let b = Builtin { arity: 1, arity_msg: string_of("http_get() takes exactly 1 argument"), count: false, checks, ret: Some(Type::HttpResponse) };
        assert(b@.checks =~= seq![ArgCheckV { allowed: 2, head: "http_get() requires String argument, got "@ }]);
        return Some(b);
    }
    if text_is(name, "http_post") || text_is(name, "hpost") || text_is(name, "hp") {
        let checks: Vec<ArgCheck> = vec![ArgCheck { allowed: 2, head: string_of("http_post() url must be String, got ") }, ArgCheck { allowed: 2, head: string_of("http_post() body must be String, got ") }, ArgCheck { allowed: 2, head: string_of("http_post() content_type must be String, got ") }];
        let b = Builtin { arity: 3, arity_msg: string_of("http_post() takes exactly 3 arguments (url, body, content_type)"), count: false, checks, ret: Some(Type::HttpResponse) };
        assert(b@.checks =~= seq![ArgCheckV { allowed: 2, head: "http_post() url must be String, got "@ }, ArgCheckV { allowed: 2, head: "http_post() body must be String, got "@ }, ArgCheckV { allowed: 2, head: "http_post() content_type must be String, got "@ }]);
        return Some(b);
    }
    if text_is(name, "log_debug") || text_is(name, "ld") || text_is(name, "log_info") || text_is(name, "li") || text_is(name, "log_warn") || text_is(name, "lw") || text_is(name, "log_error") || text_is(name, "le") {
        let checks: Vec<ArgCheck> = vec![ArgCheck { allowed: 2, head: concat_str(name.clone(), "() requires String argument, got ") }];
        let b = Builtin { arity: 1, arity_msg: concat_str(name.clone(), "() takes exactly 1 argument"), count: false, checks, ret: Some(Type::Int) };
        assert(b@.checks =~= seq![ArgCheckV { allowed: 2, head: name@ + "() requires String argument, got "@ }]);
        return Some(b);
    }
    if text_is(name, "log_set_level") || text_is(name, "ll") {
        let checks: Vec<ArgCheck> = vec![ArgCheck { allowed: 1, head: string_of("log_set_level() requires Int argument, got ") }];
        let b = Builtin { arity: 1, arity_msg: string_of("log_set_level() takes exactly 1 argument"), count: false, checks, ret: Some(Type::Int) };
        assert(b@.checks =~= seq![ArgCheckV { allowed: 1, head: "log_set_level() requires Int argument, got "@ }]);
        return Some(b);
    }
    if text_is(name, "print_err") {
        let checks: Vec<ArgCheck> = vec![ArgCheck { allowed: 2, head: string_of("print_err() requires String argument, got ") }];
        let b = Builtin { arity: 1, arity_msg: string_of("print_err() takes exactly 1 argument"), count: false, checks, ret: Some(Type::Int) };
        assert(b@.checks =~= seq![ArgCheckV { allowed: 2, head: "print_err() requires String argument, got "@ }]);
        return Some(b);
    }
    None
}

fn find_builtin_part2(name: &String) -> (r: Option<Builtin>)
    ensures
        opt_builtin_v(r) == crate::typeck_spec::builtin_part2(name@),
{
    if text_is(name, "fptr") {
        let checks: Vec<ArgCheck> = vec![ArgCheck { allowed: 2, head: string_of("fptr() requires String argument, got ") }];
        let b = Builtin { arity: 1, arity_msg: string_of("fptr() takes exactly 1 argument (function name)"), count: false, checks, ret: Some(Type::Int) };
        assert(b@.checks =~= seq![ArgCheckV { allowed: 2, head: "fptr() requires String argument, got "@ }]);
        return Some(b);
    }
    if text_is(name, "fcall") {
        let checks: Vec<ArgCheck> = vec![ArgCheck { allowed: 1, head: string_of("fcall() fn_ptr must be Int, got ") }, ArgCheck { allowed: 1, head: string_of("fcall() arg must be Int, got ") }];
        let b = Builtin { arity: 2, arity_msg: string_of("fcall() takes exactly 2 arguments (fn_ptr, arg)"), count: false, checks, ret: Some(Type::Int) };
        assert(b@.checks =~= seq![ArgCheckV { allowed: 1, head: "fcall() fn_ptr must be Int, got "@ }, ArgCheckV { allowed: 1, head: "fcall() arg must be Int, got "@ }]);
        return Some(b);
    }
    if text_is(name, "fcall2") {
        let checks: Vec<ArgCheck> = vec![ArgCheck { allowed: 1, head: string_of("fcall2() fn_ptr must be Int, got ") }, ArgCheck { allowed: 1, head: string_of("fcall2() arg1 must be Int, got ") }, ArgCheck { allowed: 1, head: string_of("fcall2() arg2 must be Int, got ") }];
        let b = Builtin { arity: 3, arity_msg: string_of("fcall2() takes exactly 3 arguments (fn_ptr, arg1, arg2)"), count: false, checks, ret: Some(Type::Int) };
        assert(b@.checks =~= seq![ArgCheckV { allowed: 1, head: "fcall2() fn_ptr must be Int, got "@ }, ArgCheckV { allowed: 1, head: "fcall2() arg1 must be Int, got "@ }, ArgCheckV { allowed: 1, head: "fcall2() arg2 must be Int, got "@ }]);
        return Some(b);
    }
    if text_is(name, "fcall3") {
        let checks: Vec<ArgCheck> = vec![ArgCheck { allowed: 1, head: string_of("fcall3() fn_ptr must be Int, got ") }, ArgCheck { allowed: 1, head: string_of("fcall3() arg1 must be Int, got ") }, ArgCheck { allowed: 1, head: string_of("fcall3() arg2 must be Int, got ") }, ArgCheck { allowed: 1, head: string_of("fcall3() arg3 must be Int, got ") }];
        let b = Builtin { arity: 4, arity_msg: string_of("fcall3() takes exactly 4 arguments (fn_ptr, arg1, arg2, arg3)"), count: false, checks, ret: Some(Type::Int) };
        assert(b@.checks =~= seq![ArgCheckV { allowed: 1, head: "fcall3() fn_ptr must be Int, got "@ }, ArgCheckV { allowed: 1, head: "fcall3() arg1 must be Int, got "@ }, ArgCheckV { allowed: 1, head: "fcall3() arg2 must be Int, got "@ }, ArgCheckV { allowed: 1, head: "fcall3() arg3 must be Int, got "@ }]);
        return Some(b);
    }
    if text_is(name, "wfd") {
        let checks: Vec<ArgCheck> = vec![ArgCheck { allowed: 1, head: string_of("wfd() fd must be Int, got ") }, ArgCheck { allowed: 2, head: string_of("wfd() msg must be String, got ") }];
        let b = Builtin { arity: 2, arity_msg: string_of("wfd() takes exactly 2 arguments (fd, msg)"), count: false, checks, ret: Some(Type::Int) };
        assert(b@.checks =~= seq![ArgCheckV { allowed: 1, head: "wfd() fd must be Int, got "@ }, ArgCheckV { allowed: 2, head: "wfd() msg must be String, got "@ }]);
        return Some(b);
    }
    if text_is(name, "ptr") {
        let checks: Vec<ArgCheck> = vec![ArgCheck { allowed: 0, head: string_of("") }];
        let b = Builtin { arity: 1, arity_msg: string_of("ptr() takes exactly 1 argument"), count: false, checks, ret: Some(Type::Int) };
        assert(b@.checks =~= seq![ArgCheckV { allowed: 0, head: ""@ }]);
        return Some(b);
    }
    if text_is(name, "alloc") {
        let checks: Vec<ArgCheck> = vec![ArgCheck { allowed: 1, head: string_of("alloc() size must be Int, got ") }];
        let b = Builtin { arity: 1, arity_msg: string_of("alloc() takes exactly 1 argument (size)"), count: false, checks, ret: Some(Type::Int) };
        assert(b@.checks =~= seq![ArgCheckV { allowed: 1, head: "alloc() size must be Int, got "@ }]);
        return Some(b);
    }
    if text_is(name, "dealloc") {
        let checks: Vec<ArgCheck> = vec![ArgCheck { allowed: 1, head: string_of("dealloc() ptr must be Int, got ") }];
        let b = Builtin { arity: 1, arity_msg: string_of("dealloc() takes exactly 1 argument (ptr)"), count: false, checks, ret: Some(Type::Int) };
        assert(b@.checks =~= seq![ArgCheckV { allowed: 1, head: "dealloc() ptr must be Int, got "@ }]);
        return Some(b);
    }
    if text_is(name, "ralloc") {
        let checks: Vec<ArgCheck> = vec![ArgCheck { allowed: 1, head: string_of("ralloc() ptr must be Int, got ") }, ArgCheck { allowed: 1, head: string_of("ralloc() size must be Int, got ") }];
        let b = Builtin { arity: 2, arity_msg: string_of("ralloc() takes exactly 2 arguments (ptr, size)"), count: false, checks, ret: Some(Type::Int) };
        assert(b@.checks =~= seq![ArgCheckV { allowed: 1, head: "ralloc() ptr must be Int, got "@ }, ArgCheckV { allowed: 1, head: "ralloc() size must be Int, got "@ }]);
        return Some(b);
    }
    if text_is(name, "mcpy") {
        let checks: Vec<ArgCheck> = vec![ArgCheck { allowed: 1, head: string_of("mcpy() dst must be Int, got ") }, ArgCheck { allowed: 1, head: string_of("mcpy() src must be Int, got ") }, ArgCheck { allowed: 1, head: string_of("mcpy() n must be Int, got ") }];
        let b = Builtin { arity: 3, arity_msg: string_of("mcpy() takes exactly 3 arguments (dst, src, n)"), count: false, checks, ret: Some(Type::Int) };
        assert(b@.checks =~= seq![ArgCheckV { allowed: 1, head: "mcpy() dst must be Int, got "@ }, ArgCheckV { allowed: 1, head: "mcpy() src must be Int, got "@ }, ArgCheckV { allowed: 1, head: "mcpy() n must be Int, got "@ }]);
        return Some(b);
    }
    if text_is(name, "mzero") {
        let checks: Vec<ArgCheck> = vec![ArgCheck { allowed: 1, head: string_of("mzero() ptr must be Int, got ") }, ArgCheck { allowed: 1, head: string_of("mzero() n must be Int, got ") }];
        let b = Builtin { arity: 2, arity_msg: string_of("mzero() takes exactly 2 arguments (ptr, n)"), count: false, checks, ret: Some(Type::Int) };
        assert(b@.checks =~= seq![ArgCheckV { allowed: 1, head: "mzero() ptr must be Int, got "@ }, ArgCheckV { allowed: 1, head: "mzero() n must be Int, got "@ }]);
        return Some(b);
    }
    if text_is(name, "mcmp") {
        let checks: Vec<ArgCheck> = vec![ArgCheck { allowed: 1, head: string_of("mcmp() a must be Int, got ") }, ArgCheck { allowed: 1, head: string_of("mcmp() b must be Int, got ") }, ArgCheck { allowed: 1, head: string_of("mcmp() n must be Int, got ") }];
        let b = Builtin { arity: 3, arity_msg: string_of("mcmp() takes exactly 3 arguments (a, b, n)"), count: false, checks, ret: Some(Type::Int) };
        assert(b@.checks =~= seq![ArgCheckV { allowed: 1, head: "mcmp() a must be Int, got "@ }, ArgCheckV { allowed: 1, head: "mcmp() b must be Int, got "@ }, ArgCheckV { allowed: 1, head: "mcmp() n must be Int, got "@ }]);
        return Some(b);
    }
    None
}

fn find_builtin_part3(name: &String) -> (r: Option<Builtin>)
    ensures
        opt_builtin_v(r) == crate::typeck_spec::builtin_part3(name@),
{
    if text_is(name, "slen") {
        let checks: Vec<ArgCheck> = vec![ArgCheck { allowed: 1, head: string_of("slen() ptr must be Int, got ") }];
        let b = Builtin { arity: 1, arity_msg: string_of("slen() takes exactly 1 argument (ptr)"), count: false, checks, ret: Some(Type::Int) };
        assert(b@.checks =~= seq![ArgCheckV { allowed: 1, head: "slen() ptr must be Int, got "@ }]);
        return Some(b);
    }
    if text_is(name, "char_at") {
        let checks: Vec<ArgCheck> = vec![ArgCheck { allowed: 2, head: string_of("char_at() first arg must be String, got ") }, ArgCheck { allowed: 1, head: string_of("char_at() second arg must be Int, got ") }];
        let b = Builtin { arity: 2, arity_msg: string_of("char_at() takes exactly 2 arguments (string, index)"), count: false, checks, ret: Some(Type::Int) };
        assert(b@.checks =~= seq![ArgCheckV { allowed: 2, head: "char_at() first arg must be String, got "@ }, ArgCheckV { allowed: 1, head: "char_at() second arg must be Int, got "@ }]);
        return Some(b);
    }
    if text_is(name, "load8") {
        let checks: Vec<ArgCheck> = vec![ArgCheck { allowed: 1, head: string_of("load8() ptr must be Int, got ") }];
        let b = Builtin { arity: 1, arity_msg: string_of("load8() takes exactly 1 argument (ptr)"), count: false, checks, ret: Some(Type::Int) };
        assert(b@.checks =~= seq![ArgCheckV { allowed: 1, head: "load8() ptr must be Int, got "@ }]);
        return Some(b);
    }
    if text_is(name, "store8") {
        let checks: Vec<ArgCheck> = vec![ArgCheck { allowed: 1, head: string_of("store8() ptr must be Int, got ") }, ArgCheck { allowed: 1, head: string_of("store8() val must be Int, got ") }];
        let b = Builtin { arity: 2, arity_msg: string_of("store8() takes exactly 2 arguments (ptr, val)"), count: false, checks, ret: Some(Type::Int) };
        assert(b@.checks =~= seq![ArgCheckV { allowed: 1, head: "store8() ptr must be Int, got "@ }, ArgCheckV { allowed: 1, head: "store8() val must be Int, got "@ }]);
        return Some(b);
    }
    if text_is(name, "load16") {
        let checks: Vec<ArgCheck> = vec![ArgCheck { allowed: 1, head: string_of("load16() ptr must be Int, got ") }];
        let b = Builtin { arity: 1, arity_msg: string_of("load16() takes exactly 1 argument (ptr)"), count: false, checks, ret: Some(Type::Int) };
        assert(b@.checks =~= seq![ArgCheckV { allowed: 1, head: "load16() ptr must be Int, got "@ }]);
        return Some(b);
    }
    if text_is(name, "store16") {
        let checks: Vec<ArgCheck> = vec![ArgCheck { allowed: 1, head: string_of("store16() ptr must be Int, got ") }, ArgCheck { allowed: 1, head: string_of("store16() val must be Int, got ") }];
        let b = Builtin { arity: 2, arity_msg: string_of("store16() takes exactly 2 arguments (ptr, val)"), count: false, checks, ret: Some(Type::Int) };
        assert(b@.checks =~= seq![ArgCheckV { allowed: 1, head: "store16() ptr must be Int, got "@ }, ArgCheckV { allowed: 1, head: "store16() val must be Int, got "@ }]);
        return Some(b);
    }
    if text_is(name, "load32") {
        let checks: Vec<ArgCheck> = vec![ArgCheck { allowed: 1, head: string_of("load32() ptr must be Int, got ") }];
        let b = Builtin { arity: 1, arity_msg: string_of("load32() takes exactly 1 argument (ptr)"), count: false, checks, ret: Some(Type::Int) };
        assert(b@.checks =~= seq![ArgCheckV { allowed: 1, head: "load32() ptr must be Int, got "@ }]);
        return Some(b);
    }
    if text_is(name, "store32") {
        let checks: Vec<ArgCheck> = vec![ArgCheck { allowed: 1, head: string_of("store32() ptr must be Int, got ") }, ArgCheck { allowed: 1, head: string_of("store32() val must be Int, got ") }];
        let b = Builtin { arity: 2, arity_msg: string_of("store32() takes exactly 2 arguments (ptr, val)"), count: false, checks, ret: Some(Type::Int) };
        assert(b@.checks =~= seq![ArgCheckV { allowed: 1, head: "store32() ptr must be Int, got "@ }, ArgCheckV { allowed: 1, head: "store32() val must be Int, got "@ }]);
        return Some(b);
    }
    if text_is(name, "bswap16") {
        let checks: Vec<ArgCheck> = vec![ArgCheck { allowed: 1, head: string_of("bswap16() val must be Int, got ") }];
        let b = Builtin { arity: 1, arity_msg: string_of("bswap16() takes exactly 1 argument (val)"), count: false, checks, ret: Some(Type::Int) };
        assert(b@.checks =~= seq![ArgCheckV { allowed: 1, head: "bswap16() val must be Int, got "@ }]);
        return Some(b);
    }
    if text_is(name, "rbind") {
        let checks: Vec<ArgCheck> = vec![ArgCheck { allowed: 1, head: string_of("rbind() fd must be Int, got ") }, ArgCheck { allowed: 1, head: string_of("rbind() addr must be Int, got ") }, ArgCheck { allowed: 1, head: string_of("rbind() len must be Int, got ") }];
        let b = Builtin { arity: 3, arity_msg: string_of("rbind() takes exactly 3 arguments (fd, addr, len)"), count: false, checks, ret: Some(Type::Int) };
        assert(b@.checks =~= seq![ArgCheckV { allowed: 1, head: "rbind() fd must be Int, got "@ }, ArgCheckV { allowed: 1, head: "rbind() addr must be Int, got "@ }, ArgCheckV { allowed: 1, head: "rbind() len must be Int, got "@ }]);
        return Some(b);
    }
    if text_is(name, "rsetsockopt") {
        let checks: Vec<ArgCheck> = vec![ArgCheck { allowed: 1, head: string_of("rsetsockopt() fd must be Int, got ") }, ArgCheck { allowed: 1, head: string_of("rsetsockopt() level must be Int, got ") }, ArgCheck { allowed: 1, head: string_of("rsetsockopt() opt must be Int, got ") }, ArgCheck { allowed: 1, head: string_of("rsetsockopt() val_ptr must be Int, got ") }, ArgCheck { allowed: 1, head: string_of("rsetsockopt() val_len must be Int, got ") }];
        let b = Builtin { arity: 5, arity_msg: string_of("rsetsockopt() takes exactly 5 arguments (fd, level, opt, val_ptr, val_len)"), count: false, checks, ret: Some(Type::Int) };
        assert(b@.checks =~= seq![ArgCheckV { allowed: 1, head: "rsetsockopt() fd must be Int, got "@ }, ArgCheckV { allowed: 1, head: "rsetsockopt() level must be Int, got "@ }, ArgCheckV { allowed: 1, head: "rsetsockopt() opt must be Int, got "@ }, ArgCheckV { allowed: 1, head: "rsetsockopt() val_ptr must be Int, got "@ }, ArgCheckV { allowed: 1, head: "rsetsockopt() val_len must be Int, got "@ }]);
        return Some(b);
    }
    if text_is(name, "load64") {
        let checks: Vec<ArgCheck> = vec![ArgCheck { allowed: 1, head: string_of("load64() ptr must be Int, got ") }];
        let b = Builtin { arity: 1, arity_msg: string_of("load64() takes exactly 1 argument (ptr)"), count: false, checks, ret: Some(Type::Int) };
        assert(b@.checks =~= seq![ArgCheckV { allowed: 1, head: "load64() ptr must be Int, got "@ }]);
        return Some(b);
    }
    None
}

fn find_builtin_part4(name: &String) -> (r: Option<Builtin>)
    ensures
        opt_builtin_v(r) == crate::typeck_spec::builtin_part4(name@),
{
    if text_is(name, "store64") {
        let checks: Vec<ArgCheck> = vec![ArgCheck { allowed: 1, head: string_of("store64() ptr must be Int, got ") }, ArgCheck { allowed: 1, head: string_of("store64() val must be Int, got ") }];
        let b = Builtin { arity: 2, arity_msg: string_of("store64() takes exactly 2 arguments (ptr, val)"), count: false, checks, ret: Some(Type::Int) };
        assert(b@.checks =~= seq![ArgCheckV { allowed: 1, head: "store64() ptr must be Int, got "@ }, ArgCheckV { allowed: 1, head: "store64() val must be Int, got "@ }]);
        return Some(b);
    }
    if text_is(name, "strstr") {
        let checks: Vec<ArgCheck> = vec![ArgCheck { allowed: 1, head: string_of("strstr() haystack must be Int, got ") }, ArgCheck { allowed: 1, head: string_of("strstr() needle must be Int, got ") }];
        let b = Builtin { arity: 2, arity_msg: string_of("strstr() takes exactly 2 arguments (haystack, needle)"), count: false, checks, ret: Some(Type::Int) };
        assert(b@.checks =~= seq![ArgCheckV { allowed: 1, head: "strstr() haystack must be Int, got "@ }, ArgCheckV { allowed: 1, head: "strstr() needle must be Int, got "@ }]);
        return Some(b);
    }
    if text_is(name, "exit") {
        let checks: Vec<ArgCheck> = vec![ArgCheck { allowed: 1, head: string_of("exit() code must be Int, got ") }];
        let b = Builtin { arity: 1, arity_msg: string_of("exit() takes exactly 1 argument (code)"), count: false, checks, ret: Some(Type::Int) };
        assert(b@.checks =~= seq![ArgCheckV { allowed: 1, head: "exit() code must be Int, got "@ }]);
        return Some(b);
    }
    if text_is(name, "sock") {
        let checks: Vec<ArgCheck> = vec![ArgCheck { allowed: 1, head: string_of("sock() domain must be Int, got ") }, ArgCheck { allowed: 1, head: string_of("sock() type must be Int, got ") }, ArgCheck { allowed: 1, head: string_of("sock() proto must be Int, got ") }];
        let b = Builtin { arity: 3, arity_msg: string_of("sock() takes exactly 3 arguments (domain, type, proto)"), count: false, checks, ret: Some(Type::Int) };
        assert(b@.checks =~= seq![ArgCheckV { allowed: 1, head: "sock() domain must be Int, got "@ }, ArgCheckV { allowed: 1, head: "sock() type must be Int, got "@ }, ArgCheckV { allowed: 1, head: "sock() proto must be Int, got "@ }]);
        return Some(b);
    }
    if text_is(name, "sbind") {
        let checks: Vec<ArgCheck> = vec![ArgCheck { allowed: 1, head: string_of("sbind() fd must be Int, got ") }, ArgCheck { allowed: 1, head: string_of("sbind() port must be Int, got ") }];
        let b = Builtin { arity: 2, arity_msg: string_of("sbind() takes exactly 2 arguments (fd, port)"), count: false, checks, ret: Some(Type::Int) };
        assert(b@.checks =~= seq![ArgCheckV { allowed: 1, head: "sbind() fd must be Int, got "@ }, ArgCheckV { allowed: 1, head: "sbind() port must be Int, got "@ }]);
        return Some(b);
    }
    if text_is(name, "slisten") {
        let checks: Vec<ArgCheck> = vec![ArgCheck { allowed: 1, head: string_of("slisten() fd must be Int, got ") }, ArgCheck { allowed: 1, head: string_of("slisten() backlog must be Int, got ") }];
        let b = Builtin { arity: 2, arity_msg: string_of("slisten() takes exactly 2 arguments (fd, backlog)"), count: false, checks, ret: Some(Type::Int) };
        assert(b@.checks =~= seq![ArgCheckV { allowed: 1, head: "slisten() fd must be Int, got "@ }, ArgCheckV { allowed: 1, head: "slisten() backlog must be Int, got "@ }]);
        return Some(b);
    }
    if text_is(name, "saccept") {
        let checks: Vec<ArgCheck> = vec![ArgCheck { allowed: 1, head: string_of("saccept() fd must be Int, got ") }];
        let b = Builtin { arity: 1, arity_msg: string_of("saccept() takes exactly 1 argument (fd)"), count: false, checks, ret: Some(Type::Int) };
        assert(b@.checks =~= seq![ArgCheckV { allowed: 1, head: "saccept() fd must be Int, got "@ }]);
        return Some(b);
    }
    if text_is(name, "srecv") {
        let checks: Vec<ArgCheck> = vec![ArgCheck { allowed: 1, head: string_of("srecv() fd must be Int, got ") }, ArgCheck { allowed: 1, head: string_of("srecv() buf must be Int, got ") }, ArgCheck { allowed: 1, head: string_of("srecv() len must be Int, got ") }];
        let b = Builtin { arity: 3, arity_msg: string_of("srecv() takes exactly 3 arguments (fd, buf, len)"), count: false, checks, ret: Some(Type::Int) };
        assert(b@.checks =~= seq![ArgCheckV { allowed: 1, head: "srecv() fd must be Int, got "@ }, ArgCheckV { allowed: 1, head: "srecv() buf must be Int, got "@ }, ArgCheckV { allowed: 1, head: "srecv() len must be Int, got "@ }]);
        return Some(b);
    }
    if text_is(name, "ssend") {
        let checks: Vec<ArgCheck> = vec![ArgCheck { allowed: 1, head: string_of("ssend() fd must be Int, got ") }, ArgCheck { allowed: 1, head: string_of("ssend() buf must be Int, got ") }, ArgCheck { allowed: 1, head: string_of("ssend() len must be Int, got ") }];
        let b = Builtin { arity: 3, arity_msg: string_of("ssend() takes exactly 3 arguments (fd, buf, len)"), count: false, checks, ret: Some(Type::Int) };
        assert(b@.checks =~= seq![ArgCheckV { allowed: 1, head: "ssend() fd must be Int, got "@ }, ArgCheckV { allowed: 1, head: "ssend() buf must be Int, got "@ }, ArgCheckV { allowed: 1, head: "ssend() len must be Int, got "@ }]);
        return Some(b);
    }
    if text_is(name, "sclose") {
        let checks: Vec<ArgCheck> = vec![ArgCheck { allowed: 1, head: string_of("sclose() fd must be Int, got ") }];
        let b = Builtin { arity: 1, arity_msg: string_of("sclose() takes exactly 1 argument (fd)"), count: false, checks, ret: Some(Type::Int) };
        assert(b@.checks =~= seq![ArgCheckV { allowed: 1, head: "sclose() fd must be Int, got "@ }]);
        return Some(b);
    }
    if text_is(name, "cinit") {
        let checks: Vec<ArgCheck> = vec![];
        let b = Builtin { arity: 0, arity_msg: string_of("cinit() takes no arguments"), count: false, checks, ret: Some(Type::Int) };
        assert(b@.checks =~= Seq::<ArgCheckV>::empty());
        return Some(b);
    }
    if text_is(name, "csets") {
        let checks: Vec<ArgCheck> = vec![ArgCheck { allowed: 1, head: string_of("csets() handle must be Int, got ") }, ArgCheck { allowed: 1, head: string_of("csets() opt must be Int, got ") }, ArgCheck { allowed: 2, head: string_of("csets() val must be String, got ") }];
        let b = Builtin { arity: 3, arity_msg: string_of("csets() takes exactly 3 arguments (handle, opt, val)"), count: false, checks, ret: Some(Type::Int) };
        assert(b@.checks =~= seq![ArgCheckV { allowed: 1, head: "csets() handle must be Int, got "@ }, ArgCheckV { allowed: 1, head: "csets() opt must be Int, got "@ }, ArgCheckV { allowed: 2, head: "csets() val must be String, got "@ }]);
        return Some(b);
    }
    None
}

fn find_builtin_part5(name: &String) -> (r: Option<Builtin>)
    ensures
        opt_builtin_v(r) == crate::typeck_spec::builtin_part5(name@),
{
    if text_is(name, "cseti") {
        let checks: Vec<ArgCheck> = vec![ArgCheck { allowed: 1, head: string_of("cseti() handle must be Int, got ") }, ArgCheck { allowed: 1, head: string_of("cseti() opt must be Int, got ") }, ArgCheck { allowed: 1, head: string_of("cseti() val must be Int, got ") }];
        let b = Builtin { arity: 3, arity_msg: string_of("cseti() takes exactly 3 arguments (handle, opt, val)"), count: false, checks, ret: Some(Type::Int) };
        assert(b@.checks =~= seq![ArgCheckV { allowed: 1, head: "cseti() handle must be Int, got "@ }, ArgCheckV { allowed: 1, head: "cseti() opt must be Int, got "@ }, ArgCheckV { allowed: 1, head: "cseti() val must be Int, got "@ }]);
        return Some(b);
    }
    if text_is(name, "cperf") {
        let checks: Vec<ArgCheck> = vec![ArgCheck { allowed: 1, head: string_of("cperf() handle must be Int, got ") }];
        let b = Builtin { arity: 1, arity_msg: string_of("cperf() takes exactly 1 argument (handle)"), count: false, checks, ret: Some(Type::Int) };
        assert(b@.checks =~= seq![ArgCheckV { allowed: 1, head: "cperf() handle must be Int, got "@ }]);
        return Some(b);
    }
    if text_is(name, "cclean") {
        let checks: Vec<ArgCheck> = vec![ArgCheck { allowed: 1, head: string_of("cclean() handle must be Int, got ") }];
        let b = Builtin { arity: 1, arity_msg: string_of("cclean() takes exactly 1 argument (handle)"), count: false, checks, ret: Some(Type::Int) };
        assert(b@.checks =~= seq![ArgCheckV { allowed: 1, head: "cclean() handle must be Int, got "@ }]);
        return Some(b);
    }
    if text_is(name, "cinfo") {
        let checks: Vec<ArgCheck> = vec![ArgCheck { allowed: 1, head: string_of("cinfo() handle must be Int, got ") }, ArgCheck { allowed: 1, head: string_of("cinfo() info must be Int, got ") }, ArgCheck { allowed: 1, head: string_of("cinfo() buf must be Int, got ") }];
        let b = Builtin { arity: 3, arity_msg: string_of("cinfo() takes exactly 3 arguments (handle, info, buf)"), count: false, checks, ret: Some(Type::Int) };
        assert(b@.checks =~= seq![ArgCheckV { allowed: 1, head: "cinfo() handle must be Int, got "@ }, ArgCheckV { allowed: 1, head: "cinfo() info must be Int, got "@ }, ArgCheckV { allowed: 1, head: "cinfo() buf must be Int, got "@ }]);
        return Some(b);
    }
    if text_is(name, "curl_slist_append") {
        let checks: Vec<ArgCheck> = vec![ArgCheck { allowed: 1, head: string_of("curl_slist_append() slist must be Int, got ") }, ArgCheck { allowed: 1, head: string_of("curl_slist_append() str must be Int, got ") }];
        let b = Builtin { arity: 2, arity_msg: string_of("curl_slist_append() takes exactly 2 arguments (slist, str)"), count: false, checks, ret: Some(Type::Int) };
        assert(b@.checks =~= seq![ArgCheckV { allowed: 1, head: "curl_slist_append() slist must be Int, got "@ }, ArgCheckV { allowed: 1, head: "curl_slist_append() str must be Int, got "@ }]);
        return Some(b);
    }
    if text_is(name, "curl_slist_free") {
        let checks: Vec<ArgCheck> = vec![ArgCheck { allowed: 1, head: string_of("curl_slist_free() slist must be Int, got ") }];
        let b = Builtin { arity: 1, arity_msg: string_of("curl_slist_free() takes exactly 1 argument (slist)"), count: false, checks, ret: Some(Type::Int) };
        assert(b@.checks =~= seq![ArgCheckV { allowed: 1, head: "curl_slist_free() slist must be Int, got "@ }]);
        return Some(b);
    }
    if text_is(name, "get_log_level") {
        let checks: Vec<ArgCheck> = vec![];
        let b = Builtin { arity: 0, arity_msg: string_of("get_log_level() takes no arguments"), count: false, checks, ret: Some(Type::Int) };
        assert(b@.checks =~= Seq::<ArgCheckV>::empty());
        return Some(b);
    }
    if text_is(name, "set_log_level") {
        let checks: Vec<ArgCheck> = vec![ArgCheck { allowed: 1, head: string_of("set_log_level() requires Int argument, got ") }];
        let b = Builtin { arity: 1, arity_msg: string_of("set_log_level() takes exactly 1 argument"), count: false, checks, ret: Some(Type::Int) };
        assert(b@.checks =~= seq![ArgCheckV { allowed: 1, head: "set_log_level() requires Int argument, got "@ }]);
        return Some(b);
    }
    if text_is(name, "http_listen") || text_is(name, "listen") || text_is(name, "hl") {
        let checks: Vec<ArgCheck> = vec![ArgCheck { allowed: 1, head: string_of("http_listen() requires Int port, got ") }];
        let b = Builtin { arity: 1, arity_msg: string_of("http_listen() takes exactly 1 argument (port)"), count: false, checks, ret: Some(Type::HttpServer) };
        assert(b@.checks =~= seq![ArgCheckV { allowed: 1, head: "http_listen() requires Int port, got "@ }]);
        return Some(b);
    }
    if text_is(name, "ok") {
        let checks: Vec<ArgCheck> = vec![ArgCheck { allowed: 0, head: string_of("") }];
        let b = Builtin { arity: 1, arity_msg: string_of("ok() takes exactly 1 argument"), count: false, checks, ret: None };
        assert(b@.checks =~= seq![ArgCheckV { allowed: 0, head: ""@ }]);
        return Some(b);
    }
    if text_is(name, "err") {
        let checks: Vec<ArgCheck> = vec![ArgCheck { allowed: 2, head: string_of("err() requires String argument, got ") }];
        let b = Builtin { arity: 1, arity_msg: string_of("err() takes exactly 1 argument"), count: false, checks, ret: Some(Type::ResultErr) };
        assert(b@.checks =~= seq![ArgCheckV { allowed: 2, head: "err() requires String argument, got "@ }]);
        return Some(b);
    }
    None
}

/// The rule of a builtin function, by the name it is called by.
pub fn builtin_rule(name: &String) -> (r: Option<Builtin>)
    ensures
        opt_builtin_v(r) == builtin_of(name@),
{
    reveal(builtin_of);
    let r0 = find_builtin_part0(name);
    if r0.is_some() {
        return r0;
    }
    let r1 = find_builtin_part1(name);
    if r1.is_some() {
        return r1;
    }
    let r2 = find_builtin_part2(name);
    if r2.is_some() {
        return r2;
    }
    let r3 = find_builtin_part3(name);
    if r3.is_some() {
        return r3;
    }
    let r4 = find_builtin_part4(name);
    if r4.is_some() {
        return r4;
    }
    let r5 = find_builtin_part5(name);
    if r5.is_some() {
        return r5;
    }
    None
}
} // verus!
