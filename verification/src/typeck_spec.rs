//! What the type checker computes, as spec functions over the views of the
//! syntax tree and of the types.
//!
//! The registries of the checker are association lists: a name is looked up
//! at its first entry, and recording a name again replaces the value of its
//! entry.
use vstd::prelude::*;
use crate::types::{TypeV, type_text};
use crate::ast::{ExprV, StmtV, MatchArmV, BinOp, UnaryOp, ParamV};
use crate::text::is_white_space;

verus! {

/// The value of a name in an association list: that of its first entry.
pub open spec fn lookup<K, V>(s: Seq<(K, V)>, k: K) -> Option<V>
    decreases s.len(),
{
    if s.len() == 0 {
        None
    } else if s[0].0 == k {
        Some(s[0].1)
    } else {
        lookup(s.drop_first(), k)
    }
}

/// The index of the first entry of a name, or the length when it has none.
pub open spec fn key_index<K, V>(s: Seq<(K, V)>, k: K) -> int
    decreases s.len(),
{
    if s.len() == 0 {
        0
    } else if s[0].0 == k {
        0
    } else {
        1 + key_index(s.drop_first(), k)
    }
}

/// An association list with `k` bound to `v`: the first entry of `k` gets
/// the value, or a new entry is added at the end.
pub open spec fn assoc_insert<K, V>(s: Seq<(K, V)>, k: K, v: V) -> Seq<(K, V)> {
    let i = key_index(s, k);
    if i < s.len() {
        s.update(i, (k, v))
    } else {
        s.push((k, v))
    }
}

/// `key_index` is the first index holding the key.
pub proof fn lemma_key_index<K, V>(s: Seq<(K, V)>, k: K)
    ensures
        0 <= key_index(s, k) <= s.len(),
        forall|j: int| 0 <= j < key_index(s, k) ==> s[j].0 != k,
        key_index(s, k) < s.len() ==> s[key_index(s, k)].0 == k,
        lookup(s, k) == if key_index(s, k) < s.len() {
            Some(s[key_index(s, k)].1)
        } else {
            None::<V>
        },
    decreases s.len(),
{
    if s.len() > 0 && s[0].0 != k {
        lemma_key_index(s.drop_first(), k);
        assert forall|j: int| 0 <= j < key_index(s, k) implies s[j].0 != k by {
            if j > 0 {
                assert(s[j] == s.drop_first()[j - 1]);
            }
        }
    }
}

/// An index that holds the key, with no earlier index holding it, is
/// `key_index`.
pub proof fn lemma_key_index_is<V>(s: Seq<(Seq<char>, V)>, k: Seq<char>, i: int)
    requires
        0 <= i <= s.len(),
        forall|j: int| 0 <= j < i ==> s[j].0 != k,
        i < s.len() ==> s[i].0 == k,
    ensures
        key_index(s, k) == i,
        lookup(s, k) == if i < s.len() {
            Some(s[i].1)
        } else {
            None::<V>
        },
    decreases s.len(),
{
    lemma_key_index(s, k);
    let r = key_index(s, k);
    if r < i {
        assert(s[r].0 == k);
    } else if i < r {
        assert(s[i].0 != k);
    }
}

/// The locals of a function body: a name, its type and whether it may be
/// assigned.
pub type LocalsV = Seq<(Seq<char>, (TypeV, bool))>;

/// A function's parameter types and return type.
pub type SigV = (Seq<TypeV>, TypeV);

/// Struct fields by name.
pub type FieldsV = Seq<(Seq<char>, TypeV)>;

/// Enum variants with their field types.
pub type VariantsV = Seq<(Seq<char>, Seq<TypeV>)>;

/// The view of a generic function's description.
pub struct GenericFnInfoV {
    pub type_params: Seq<(Seq<char>, Option<Seq<char>>)>,
    pub param_types: Seq<Seq<char>>,
    pub return_type_name: Seq<char>,
}

/// The view of what a module exports.
pub struct ModuleExportsV {
    pub functions: Seq<(Seq<char>, SigV)>,
    pub structs: Seq<(Seq<char>, FieldsV)>,
    pub enums: Seq<(Seq<char>, VariantsV)>,
}

/// Everything an expression is checked against besides its locals.
pub struct EnvV {
    pub fns: Seq<(Seq<char>, SigV)>,
    pub ret: TypeV,
    pub structs: Seq<(Seq<char>, FieldsV)>,
    pub enums: Seq<(Seq<char>, VariantsV)>,
    pub methods: Seq<((Seq<char>, Seq<char>), SigV)>,
    pub generics: Seq<(Seq<char>, GenericFnInfoV)>,
    pub traits: Seq<(Seq<char>, Seq<(Seq<char>, Seq<TypeV>, TypeV)>)>,
    pub modules: Seq<(Seq<char>, ModuleExportsV)>,
}

/// Whether a value of type `actual` may stand where `expected` is asked for:
/// the same type, an error-only result for any result, or one of the types
/// that the back end carries as an integer for `Int` (and `Int` for a
/// string or a map).
pub open spec fn compatible(actual: TypeV, expected: TypeV) -> bool {
    ||| actual == expected
    ||| (actual is ResultErr && expected is Result)
    ||| (expected == TypeV::Int && actual is Fn)
    ||| (expected == TypeV::Int && actual == TypeV::String)
    ||| (expected == TypeV::String && actual == TypeV::Int)
    ||| (expected == TypeV::Int && actual == TypeV::Mapping)
    ||| (expected == TypeV::Mapping && actual == TypeV::Int)
    ||| (expected == TypeV::Int && actual is Array)
}

// ─── Text ──────────────────────────────────────────────────────────────────

pub open spec fn digit_text(d: nat) -> Seq<char> {
    if d == 0 {
        "0"@
    } else if d == 1 {
        "1"@
    } else if d == 2 {
        "2"@
    } else if d == 3 {
        "3"@
    } else if d == 4 {
        "4"@
    } else if d == 5 {
        "5"@
    } else if d == 6 {
        "6"@
    } else if d == 7 {
        "7"@
    } else if d == 8 {
        "8"@
    } else {
        "9"@
    }
}

/// The decimal text of a number.
pub open spec fn nat_text(n: nat) -> Seq<char>
    decreases n,
{
    if n < 10 {
        digit_text(n)
    } else {
        nat_text(n / 10) + digit_text(n % 10)
    }
}

/// One past the last character of the run of non-white-space characters
/// that starts at `i`.
pub open spec fn word_end(s: Seq<char>, i: int) -> int
    decreases s.len() - i,
{
    if 0 <= i < s.len() && !is_white_space(s[i]) {
        word_end(s, i + 1)
    } else {
        i
    }
}

/// The index of the first non-white-space character at or after `i`.
pub open spec fn skip_white(s: Seq<char>, i: int) -> int
    decreases s.len() - i,
{
    if 0 <= i < s.len() && is_white_space(s[i]) {
        skip_white(s, i + 1)
    } else {
        i
    }
}

pub proof fn lemma_word_end(s: Seq<char>, i: int)
    requires
        0 <= i <= s.len(),
    ensures
        i <= word_end(s, i) <= s.len(),
        forall|j: int| i <= j < word_end(s, i) ==> !is_white_space(#[trigger] s[j]),
        word_end(s, i) < s.len() ==> is_white_space(s[word_end(s, i)]),
    decreases s.len() - i,
{
    if i < s.len() && !is_white_space(s[i]) {
        lemma_word_end(s, i + 1);
    }
}

pub proof fn lemma_skip_white(s: Seq<char>, i: int)
    requires
        0 <= i <= s.len(),
    ensures
        i <= skip_white(s, i) <= s.len(),
        forall|j: int| i <= j < skip_white(s, i) ==> is_white_space(#[trigger] s[j]),
        skip_white(s, i) < s.len() ==> !is_white_space(s[skip_white(s, i)]),
    decreases s.len() - i,
{
    if i < s.len() && is_white_space(s[i]) {
        lemma_skip_white(s, i + 1);
    }
}

/// The words of `s` from `i` on: its maximal runs of characters that are
/// not white space.
pub open spec fn words_from(s: Seq<char>, i: int) -> Seq<Seq<char>>
    decreases s.len() - i,
{
    let a = skip_white(s, i);
    if 0 <= i <= s.len() && a < s.len() {
        let e = word_end(s, a);
        proof {
            lemma_skip_white(s, i);
            lemma_word_end(s, a);
        }
        if a < e {
            seq![s.subrange(a, e)] + words_from(s, e)
        } else {
            Seq::empty()
        }
    } else {
        Seq::empty()
    }
}

/// The words of `s`, as `str::split_whitespace` gives them.
pub open spec fn words(s: Seq<char>) -> Seq<Seq<char>> {
    words_from(s, 0)
}


// ─── Type names ────────────────────────────────────────────────────────────

/// Whether `s` starts with `p`.
pub open spec fn starts_with(s: Seq<char>, p: Seq<char>) -> bool {
    p.len() <= s.len() && s.subrange(0, p.len() as int) == p
}

/// Whether `s` is `inner` wrapped as `head` + inner + `>`.
pub open spec fn wraps(s: Seq<char>, head: Seq<char>) -> bool {
    starts_with(s, head) && s.len() > head.len() && s[s.len() - 1] == '>'
}

/// The message for a name that is no type.
pub open spec fn unknown_type(name: Seq<char>) -> Seq<char> {
    "unknown type '"@ + name + "'"@
}

/// A struct or enum named `name` among the exports of the modules, searched
/// in the order of the list.
pub open spec fn type_in_modules(ms: Seq<(Seq<char>, ModuleExportsV)>, name: Seq<char>) -> Option<TypeV>
    decreases ms.len(),
{
    if ms.len() == 0 {
        None
    } else {
        match lookup(ms[0].1.structs, name) {
            Some(fields) => Some(TypeV::Struct { name, fields }),
            None => match lookup(ms[0].1.enums, name) {
                Some(variants) => Some(TypeV::Enum { name, variants }),
                None => type_in_modules(ms.drop_first(), name),
            },
        }
    }
}

/// The type a type name stands for.
pub open spec fn resolve(
    name: Seq<char>,
    structs: Seq<(Seq<char>, FieldsV)>,
    enums: Seq<(Seq<char>, VariantsV)>,
    ms: Seq<(Seq<char>, ModuleExportsV)>,
) -> Result<TypeV, Seq<char>>
    decreases name.len(), 0int,
{
    let n = name.len() as int;
    if n >= 2 && name[0] == '(' && name[n - 1] == ')' {
        match resolve_list(words(name.subrange(1, n - 1)), n - 1, structs, enums, ms) {
            Err(e) => Err(e),
            Ok(ts) => Ok(TypeV::Tuple { elements: ts }),
        }
    } else if name == "Int"@ || name == "I"@ {
        Ok(TypeV::Int)
    } else if name == "Float"@ || name == "F"@ {
        Ok(TypeV::Float)
    } else if name == "Bool"@ || name == "B"@ {
        Ok(TypeV::Bool)
    } else if name == "String"@ || name == "S"@ {
        Ok(TypeV::String)
    } else if name == "HttpRequest"@ || name == "HR"@ {
        Ok(TypeV::HttpRequest)
    } else if name == "HttpServer"@ || name == "HS"@ {
        Ok(TypeV::HttpServer)
    } else if name == "Map"@ || name == "M"@ {
        Ok(TypeV::Mapping)
    } else if wraps(name, "Array<"@) {
        match resolve(name.subrange("Array<"@.len() as int, n - 1), structs, enums, ms) {
            Err(e) => Err(e),
            Ok(t) => Ok(TypeV::Array { inner: Box::new(t) }),
        }
    } else if wraps(name, "R<"@) {
        match resolve(name.subrange("R<"@.len() as int, n - 1), structs, enums, ms) {
            Err(e) => Err(e),
            Ok(t) => Ok(TypeV::Result { inner: Box::new(t) }),
        }
    } else if wraps(name, "Result<"@) {
        match resolve(name.subrange("Result<"@.len() as int, n - 1), structs, enums, ms) {
            Err(e) => Err(e),
            Ok(t) => Ok(TypeV::Result { inner: Box::new(t) }),
        }
    } else {
        match lookup(structs, name) {
            Some(fields) => Ok(TypeV::Struct { name, fields }),
            None => match lookup(enums, name) {
                Some(variants) => Ok(TypeV::Enum { name, variants }),
                None => match type_in_modules(ms, name) {
                    Some(t) => Ok(t),
                    None => Err(unknown_type(name)),
                },
            },
        }
    }
}

/// The types of the names of a tuple type, in order; `bound` is longer
/// than each name.
pub open spec fn resolve_list(
    ws: Seq<Seq<char>>,
    bound: int,
    structs: Seq<(Seq<char>, FieldsV)>,
    enums: Seq<(Seq<char>, VariantsV)>,
    ms: Seq<(Seq<char>, ModuleExportsV)>,
) -> Result<Seq<TypeV>, Seq<char>>
    decreases bound, ws.len(),
{
    if ws.len() == 0 {
        Ok(Seq::empty())
    } else if ws[0].len() >= bound {
        Err(Seq::empty())
    } else {
        match resolve(ws[0], structs, enums, ms) {
            Err(e) => Err(e),
            Ok(t) => match resolve_list(ws.drop_first(), bound, structs, enums, ms) {
                Err(e) => Err(e),
                Ok(ts) => Ok(seq![t] + ts),
            },
        }
    }
}


// ─── Builtin functions ─────────────────────────────────────────────────────

/// What an argument of a builtin must be, by a code: any type (0), `Int`
/// (1), `String` (2), `Float` (3), `Bool` (4), `JsonValue` (5), or one of
/// `Int`, `String`, `Float`, `Bool` (6); and the message for a wrong one,
/// which the argument's type completes.
pub struct ArgCheckV {
    pub allowed: u8,
    pub head: Seq<char>,
}

/// Whether the code `allowed` admits an argument of type `t`.
pub open spec fn allowed_by(allowed: u8, t: TypeV) -> bool {
    ||| allowed == 0
    ||| (allowed == 1 && t == TypeV::Int)
    ||| (allowed == 2 && t == TypeV::String)
    ||| (allowed == 3 && t == TypeV::Float)
    ||| (allowed == 4 && t == TypeV::Bool)
    ||| (allowed == 5 && t == TypeV::JsonValue)
    ||| (allowed == 6 && (t == TypeV::Int || t == TypeV::String || t == TypeV::Float || t == TypeV::Bool))
}

/// The rule of a builtin function: its number of arguments and the message
/// for another number (followed by the number given when `count` holds),
/// what each argument must be, and the result type (`None`: a result of
/// the first argument's type).
pub struct BuiltinV {
    pub arity: nat,
    pub arity_msg: Seq<char>,
    pub count: bool,
    pub checks: Seq<ArgCheckV>,
    pub ret: Option<TypeV>,
}

/// Builtin functions, part 0.
pub open spec fn builtin_part0(name: Seq<char>) -> Option<BuiltinV> {
    if name == "print"@ || name == "p"@ {
        Some(BuiltinV { arity: 1, arity_msg: "print() takes exactly 1 argument, got "@, count: true, checks: seq![ArgCheckV { allowed: 0, head: ""@ }], ret: Some(TypeV::Int) })
    } else if name == "int_to_string"@ || name == "str"@ || name == "itos"@ {
        Some(BuiltinV { arity: 1, arity_msg: "int_to_string() takes exactly 1 argument"@, count: false, checks: seq![ArgCheckV { allowed: 6, head: "str() requires Int, String, Float, or Bool argument, got "@ }], ret: Some(TypeV::String) })
    } else if name == "string_to_int"@ || name == "stoi"@ {
        Some(BuiltinV { arity: 1, arity_msg: "string_to_int() takes exactly 1 argument"@, count: false, checks: seq![ArgCheckV { allowed: 2, head: "string_to_int() requires String argument, got "@ }], ret: Some(TypeV::Int) })
    } else if name == "int_to_float"@ || name == "itof"@ {
        Some(BuiltinV { arity: 1, arity_msg: "int_to_float() takes exactly 1 argument"@, count: false, checks: seq![ArgCheckV { allowed: 1, head: "int_to_float() requires Int argument, got "@ }], ret: Some(TypeV::Float) })
    } else if name == "float_to_int"@ || name == "ftoi"@ {
        Some(BuiltinV { arity: 1, arity_msg: "float_to_int() takes exactly 1 argument"@, count: false, checks: seq![ArgCheckV { allowed: 3, head: "float_to_int() requires Float argument, got "@ }], ret: Some(TypeV::Int) })
    } else if name == "float_to_string"@ || name == "ftos"@ {
        Some(BuiltinV { arity: 1, arity_msg: "float_to_string() takes exactly 1 argument"@, count: false, checks: seq![ArgCheckV { allowed: 3, head: "float_to_string() requires Float argument, got "@ }], ret: Some(TypeV::String) })
    } else if name == "file_read"@ || name == "read_file"@ || name == "fread"@ || name == "fr"@ {
        Some(BuiltinV { arity: 1, arity_msg: "file_read() takes exactly 1 argument"@, count: false, checks: seq![ArgCheckV { allowed: 2, head: "file_read() requires String argument, got "@ }], ret: Some(TypeV::String) })
    } else if name == "file_write"@ || name == "write_file"@ || name == "fwrite"@ || name == "fw"@ || name == "file_append"@ || name == "append_file"@ || name == "fappend"@ || name == "fa"@ {
        Some(BuiltinV { arity: 2, arity_msg: name + "() takes exactly 2 arguments"@, count: false, checks: seq![ArgCheckV { allowed: 2, head: name + "() requires String as first argument, got "@ }, ArgCheckV { allowed: 2, head: name + "() requires String as second argument, got "@ }], ret: Some(TypeV::Int) })
    } else if name == "file_exists"@ || name == "fexists"@ || name == "fe"@ {
        Some(BuiltinV { arity: 1, arity_msg: "file_exists() takes exactly 1 argument"@, count: false, checks: seq![ArgCheckV { allowed: 2, head: "file_exists() requires String argument, got "@ }], ret: Some(TypeV::Bool) })
    } else if name == "args"@ {
        Some(BuiltinV { arity: 0, arity_msg: "args() takes 0 arguments"@, count: false, checks: seq![], ret: Some(TypeV::Array { inner: Box::new(TypeV::String) }) })
    } else if name == "json_parse"@ || name == "jparse"@ || name == "jp"@ {
        Some(BuiltinV { arity: 1, arity_msg: "json_parse() takes exactly 1 argument"@, count: false, checks: seq![ArgCheckV { allowed: 2, head: "json_parse() requires String argument, got "@ }], ret: Some(TypeV::JsonValue) })
    } else if name == "map"@ || name == "M"@ {
        Some(BuiltinV { arity: 0, arity_msg: "map() takes 0 arguments"@, count: false, checks: seq![], ret: Some(TypeV::Mapping) })
    } else {
        None
    }
}

/// Builtin functions, part 1.
pub open spec fn builtin_part1(name: Seq<char>) -> Option<BuiltinV> {
    if name == "json_object"@ || name == "jobj"@ || name == "jo"@ {
        Some(BuiltinV { arity: 0, arity_msg: "json_object() takes 0 arguments"@, count: false, checks: seq![], ret: Some(TypeV::JsonValue) })
    } else if name == "json_array"@ || name == "jarr"@ || name == "ja"@ {
        Some(BuiltinV { arity: 0, arity_msg: "json_array() takes 0 arguments"@, count: false, checks: seq![], ret: Some(TypeV::JsonValue) })
    } else if name == "json_string"@ || name == "jstr"@ || name == "js"@ {
        Some(BuiltinV { arity: 1, arity_msg: "json_string() takes exactly 1 argument"@, count: false, checks: seq![ArgCheckV { allowed: 2, head: "json_string() requires String argument, got "@ }], ret: Some(TypeV::JsonValue) })
    } else if name == "json_int"@ || name == "ji"@ {
        Some(BuiltinV { arity: 1, arity_msg: "json_int() takes exactly 1 argument"@, count: false, checks: seq![ArgCheckV { allowed: 1, head: "json_int() requires Int argument, got "@ }], ret: Some(TypeV::JsonValue) })
    } else if name == "json_bool"@ || name == "jb"@ {
        Some(BuiltinV { arity: 1, arity_msg: "json_bool() takes exactly 1 argument"@, count: false, checks: seq![ArgCheckV { allowed: 4, head: "json_bool() requires Bool argument, got "@ }], ret: Some(TypeV::JsonValue) })
    } else if name == "json_null"@ || name == "jn"@ {
        Some(BuiltinV { arity: 0, arity_msg: "json_null() takes 0 arguments"@, count: false, checks: seq![], ret: Some(TypeV::JsonValue) })
    } else if name == "json_stringify"@ || name == "jstringify"@ || name == "jfy"@ {
        Some(BuiltinV { arity: 1, arity_msg: "json_stringify() takes exactly 1 argument"@, count: false, checks: seq![ArgCheckV { allowed: 5, head: "json_stringify() requires JsonValue argument, got "@ }], ret: Some(TypeV::String) })
    } else if name == "http_get"@ || name == "hget"@ || name == "hg"@ {
        Some(BuiltinV { arity: 1, arity_msg: "http_get() takes exactly 1 argument"@, count: false, checks: seq![ArgCheckV { allowed: 2, head: "http_get() requires String argument, got "@ }], ret: Some(TypeV::HttpResponse) })
    } else if name == "http_post"@ || name == "hpost"@ || name == "hp"@ {
        Some(BuiltinV { arity: 3, arity_msg: "http_post() takes exactly 3 arguments (url, body, content_type)"@, count: false, checks: seq![ArgCheckV { allowed: 2, head: "http_post() url must be String, got "@ }, ArgCheckV { allowed: 2, head: "http_post() body must be String, got "@ }, ArgCheckV { allowed: 2, head: "http_post() content_type must be String, got "@ }], ret: Some(TypeV::HttpResponse) })
    } else if name == "log_debug"@ || name == "ld"@ || name == "log_info"@ || name == "li"@ || name == "log_warn"@ || name == "lw"@ || name == "log_error"@ || name == "le"@ {
        Some(BuiltinV { arity: 1, arity_msg: name + "() takes exactly 1 argument"@, count: false, checks: seq![ArgCheckV { allowed: 2, head: name + "() requires String argument, got "@ }], ret: Some(TypeV::Int) })
    } else if name == "log_set_level"@ || name == "ll"@ {
        Some(BuiltinV { arity: 1, arity_msg: "log_set_level() takes exactly 1 argument"@, count: false, checks: seq![ArgCheckV { allowed: 1, head: "log_set_level() requires Int argument, got "@ }], ret: Some(TypeV::Int) })
    } else if name == "print_err"@ {
        Some(BuiltinV { arity: 1, arity_msg: "print_err() takes exactly 1 argument"@, count: false, checks: seq![ArgCheckV { allowed: 2, head: "print_err() requires String argument, got "@ }], ret: Some(TypeV::Int) })
    } else {
        None
    }
}

/// Builtin functions, part 2.
pub open spec fn builtin_part2(name: Seq<char>) -> Option<BuiltinV> {
    if name == "fptr"@ {
        Some(BuiltinV { arity: 1, arity_msg: "fptr() takes exactly 1 argument (function name)"@, count: false, checks: seq![ArgCheckV { allowed: 2, head: "fptr() requires String argument, got "@ }], ret: Some(TypeV::Int) })
    } else if name == "fcall"@ {
        Some(BuiltinV { arity: 2, arity_msg: "fcall() takes exactly 2 arguments (fn_ptr, arg)"@, count: false, checks: seq![ArgCheckV { allowed: 1, head: "fcall() fn_ptr must be Int, got "@ }, ArgCheckV { allowed: 1, head: "fcall() arg must be Int, got "@ }], ret: Some(TypeV::Int) })
    } else if name == "fcall2"@ {
        Some(BuiltinV { arity: 3, arity_msg: "fcall2() takes exactly 3 arguments (fn_ptr, arg1, arg2)"@, count: false, checks: seq![ArgCheckV { allowed: 1, head: "fcall2() fn_ptr must be Int, got "@ }, ArgCheckV { allowed: 1, head: "fcall2() arg1 must be Int, got "@ }, ArgCheckV { allowed: 1, head: "fcall2() arg2 must be Int, got "@ }], ret: Some(TypeV::Int) })
    } else if name == "fcall3"@ {
        Some(BuiltinV { arity: 4, arity_msg: "fcall3() takes exactly 4 arguments (fn_ptr, arg1, arg2, arg3)"@, count: false, checks: seq![ArgCheckV { allowed: 1, head: "fcall3() fn_ptr must be Int, got "@ }, ArgCheckV { allowed: 1, head: "fcall3() arg1 must be Int, got "@ }, ArgCheckV { allowed: 1, head: "fcall3() arg2 must be Int, got "@ }, ArgCheckV { allowed: 1, head: "fcall3() arg3 must be Int, got "@ }], ret: Some(TypeV::Int) })
    } else if name == "wfd"@ {
        Some(BuiltinV { arity: 2, arity_msg: "wfd() takes exactly 2 arguments (fd, msg)"@, count: false, checks: seq![ArgCheckV { allowed: 1, head: "wfd() fd must be Int, got "@ }, ArgCheckV { allowed: 2, head: "wfd() msg must be String, got "@ }], ret: Some(TypeV::Int) })
    } else if name == "ptr"@ {
        Some(BuiltinV { arity: 1, arity_msg: "ptr() takes exactly 1 argument"@, count: false, checks: seq![ArgCheckV { allowed: 0, head: ""@ }], ret: Some(TypeV::Int) })
    } else if name == "alloc"@ {
        Some(BuiltinV { arity: 1, arity_msg: "alloc() takes exactly 1 argument (size)"@, count: false, checks: seq![ArgCheckV { allowed: 1, head: "alloc() size must be Int, got "@ }], ret: Some(TypeV::Int) })
    } else if name == "dealloc"@ {
        Some(BuiltinV { arity: 1, arity_msg: "dealloc() takes exactly 1 argument (ptr)"@, count: false, checks: seq![ArgCheckV { allowed: 1, head: "dealloc() ptr must be Int, got "@ }], ret: Some(TypeV::Int) })
    } else if name == "ralloc"@ {
        Some(BuiltinV { arity: 2, arity_msg: "ralloc() takes exactly 2 arguments (ptr, size)"@, count: false, checks: seq![ArgCheckV { allowed: 1, head: "ralloc() ptr must be Int, got "@ }, ArgCheckV { allowed: 1, head: "ralloc() size must be Int, got "@ }], ret: Some(TypeV::Int) })
    } else if name == "mcpy"@ {
        Some(BuiltinV { arity: 3, arity_msg: "mcpy() takes exactly 3 arguments (dst, src, n)"@, count: false, checks: seq![ArgCheckV { allowed: 1, head: "mcpy() dst must be Int, got "@ }, ArgCheckV { allowed: 1, head: "mcpy() src must be Int, got "@ }, ArgCheckV { allowed: 1, head: "mcpy() n must be Int, got "@ }], ret: Some(TypeV::Int) })
    } else if name == "mzero"@ {
        Some(BuiltinV { arity: 2, arity_msg: "mzero() takes exactly 2 arguments (ptr, n)"@, count: false, checks: seq![ArgCheckV { allowed: 1, head: "mzero() ptr must be Int, got "@ }, ArgCheckV { allowed: 1, head: "mzero() n must be Int, got "@ }], ret: Some(TypeV::Int) })
    } else if name == "mcmp"@ {
        Some(BuiltinV { arity: 3, arity_msg: "mcmp() takes exactly 3 arguments (a, b, n)"@, count: false, checks: seq![ArgCheckV { allowed: 1, head: "mcmp() a must be Int, got "@ }, ArgCheckV { allowed: 1, head: "mcmp() b must be Int, got "@ }, ArgCheckV { allowed: 1, head: "mcmp() n must be Int, got "@ }], ret: Some(TypeV::Int) })
    } else {
        None
    }
}

/// Builtin functions, part 3.
pub open spec fn builtin_part3(name: Seq<char>) -> Option<BuiltinV> {
    if name == "slen"@ {
        Some(BuiltinV { arity: 1, arity_msg: "slen() takes exactly 1 argument (ptr)"@, count: false, checks: seq![ArgCheckV { allowed: 1, head: "slen() ptr must be Int, got "@ }], ret: Some(TypeV::Int) })
    } else if name == "char_at"@ {
        Some(BuiltinV { arity: 2, arity_msg: "char_at() takes exactly 2 arguments (string, index)"@, count: false, checks: seq![ArgCheckV { allowed: 2, head: "char_at() first arg must be String, got "@ }, ArgCheckV { allowed: 1, head: "char_at() second arg must be Int, got "@ }], ret: Some(TypeV::Int) })
    } else if name == "load8"@ {
        Some(BuiltinV { arity: 1, arity_msg: "load8() takes exactly 1 argument (ptr)"@, count: false, checks: seq![ArgCheckV { allowed: 1, head: "load8() ptr must be Int, got "@ }], ret: Some(TypeV::Int) })
    } else if name == "store8"@ {
        Some(BuiltinV { arity: 2, arity_msg: "store8() takes exactly 2 arguments (ptr, val)"@, count: false, checks: seq![ArgCheckV { allowed: 1, head: "store8() ptr must be Int, got "@ }, ArgCheckV { allowed: 1, head: "store8() val must be Int, got "@ }], ret: Some(TypeV::Int) })
    } else if name == "load16"@ {
        Some(BuiltinV { arity: 1, arity_msg: "load16() takes exactly 1 argument (ptr)"@, count: false, checks: seq![ArgCheckV { allowed: 1, head: "load16() ptr must be Int, got "@ }], ret: Some(TypeV::Int) })
    } else if name == "store16"@ {
        Some(BuiltinV { arity: 2, arity_msg: "store16() takes exactly 2 arguments (ptr, val)"@, count: false, checks: seq![ArgCheckV { allowed: 1, head: "store16() ptr must be Int, got "@ }, ArgCheckV { allowed: 1, head: "store16() val must be Int, got "@ }], ret: Some(TypeV::Int) })
    } else if name == "load32"@ {
        Some(BuiltinV { arity: 1, arity_msg: "load32() takes exactly 1 argument (ptr)"@, count: false, checks: seq![ArgCheckV { allowed: 1, head: "load32() ptr must be Int, got "@ }], ret: Some(TypeV::Int) })
    } else if name == "store32"@ {
        Some(BuiltinV { arity: 2, arity_msg: "store32() takes exactly 2 arguments (ptr, val)"@, count: false, checks: seq![ArgCheckV { allowed: 1, head: "store32() ptr must be Int, got "@ }, ArgCheckV { allowed: 1, head: "store32() val must be Int, got "@ }], ret: Some(TypeV::Int) })
    } else if name == "bswap16"@ {
        Some(BuiltinV { arity: 1, arity_msg: "bswap16() takes exactly 1 argument (val)"@, count: false, checks: seq![ArgCheckV { allowed: 1, head: "bswap16() val must be Int, got "@ }], ret: Some(TypeV::Int) })
    } else if name == "rbind"@ {
        Some(BuiltinV { arity: 3, arity_msg: "rbind() takes exactly 3 arguments (fd, addr, len)"@, count: false, checks: seq![ArgCheckV { allowed: 1, head: "rbind() fd must be Int, got "@ }, ArgCheckV { allowed: 1, head: "rbind() addr must be Int, got "@ }, ArgCheckV { allowed: 1, head: "rbind() len must be Int, got "@ }], ret: Some(TypeV::Int) })
    } else if name == "rsetsockopt"@ {
        Some(BuiltinV { arity: 5, arity_msg: "rsetsockopt() takes exactly 5 arguments (fd, level, opt, val_ptr, val_len)"@, count: false, checks: seq![ArgCheckV { allowed: 1, head: "rsetsockopt() fd must be Int, got "@ }, ArgCheckV { allowed: 1, head: "rsetsockopt() level must be Int, got "@ }, ArgCheckV { allowed: 1, head: "rsetsockopt() opt must be Int, got "@ }, ArgCheckV { allowed: 1, head: "rsetsockopt() val_ptr must be Int, got "@ }, ArgCheckV { allowed: 1, head: "rsetsockopt() val_len must be Int, got "@ }], ret: Some(TypeV::Int) })
    } else if name == "load64"@ {
        Some(BuiltinV { arity: 1, arity_msg: "load64() takes exactly 1 argument (ptr)"@, count: false, checks: seq![ArgCheckV { allowed: 1, head: "load64() ptr must be Int, got "@ }], ret: Some(TypeV::Int) })
    } else {
        None
    }
}

/// Builtin functions, part 4.
pub open spec fn builtin_part4(name: Seq<char>) -> Option<BuiltinV> {
    if name == "store64"@ {
        Some(BuiltinV { arity: 2, arity_msg: "store64() takes exactly 2 arguments (ptr, val)"@, count: false, checks: seq![ArgCheckV { allowed: 1, head: "store64() ptr must be Int, got "@ }, ArgCheckV { allowed: 1, head: "store64() val must be Int, got "@ }], ret: Some(TypeV::Int) })
    } else if name == "strstr"@ {
        Some(BuiltinV { arity: 2, arity_msg: "strstr() takes exactly 2 arguments (haystack, needle)"@, count: false, checks: seq![ArgCheckV { allowed: 1, head: "strstr() haystack must be Int, got "@ }, ArgCheckV { allowed: 1, head: "strstr() needle must be Int, got "@ }], ret: Some(TypeV::Int) })
    } else if name == "exit"@ {
        Some(BuiltinV { arity: 1, arity_msg: "exit() takes exactly 1 argument (code)"@, count: false, checks: seq![ArgCheckV { allowed: 1, head: "exit() code must be Int, got "@ }], ret: Some(TypeV::Int) })
    } else if name == "sock"@ {
        Some(BuiltinV { arity: 3, arity_msg: "sock() takes exactly 3 arguments (domain, type, proto)"@, count: false, checks: seq![ArgCheckV { allowed: 1, head: "sock() domain must be Int, got "@ }, ArgCheckV { allowed: 1, head: "sock() type must be Int, got "@ }, ArgCheckV { allowed: 1, head: "sock() proto must be Int, got "@ }], ret: Some(TypeV::Int) })
    } else if name == "sbind"@ {
        Some(BuiltinV { arity: 2, arity_msg: "sbind() takes exactly 2 arguments (fd, port)"@, count: false, checks: seq![ArgCheckV { allowed: 1, head: "sbind() fd must be Int, got "@ }, ArgCheckV { allowed: 1, head: "sbind() port must be Int, got "@ }], ret: Some(TypeV::Int) })
    } else if name == "slisten"@ {
        Some(BuiltinV { arity: 2, arity_msg: "slisten() takes exactly 2 arguments (fd, backlog)"@, count: false, checks: seq![ArgCheckV { allowed: 1, head: "slisten() fd must be Int, got "@ }, ArgCheckV { allowed: 1, head: "slisten() backlog must be Int, got "@ }], ret: Some(TypeV::Int) })
    } else if name == "saccept"@ {
        Some(BuiltinV { arity: 1, arity_msg: "saccept() takes exactly 1 argument (fd)"@, count: false, checks: seq![ArgCheckV { allowed: 1, head: "saccept() fd must be Int, got "@ }], ret: Some(TypeV::Int) })
    } else if name == "srecv"@ {
        Some(BuiltinV { arity: 3, arity_msg: "srecv() takes exactly 3 arguments (fd, buf, len)"@, count: false, checks: seq![ArgCheckV { allowed: 1, head: "srecv() fd must be Int, got "@ }, ArgCheckV { allowed: 1, head: "srecv() buf must be Int, got "@ }, ArgCheckV { allowed: 1, head: "srecv() len must be Int, got "@ }], ret: Some(TypeV::Int) })
    } else if name == "ssend"@ {
        Some(BuiltinV { arity: 3, arity_msg: "ssend() takes exactly 3 arguments (fd, buf, len)"@, count: false, checks: seq![ArgCheckV { allowed: 1, head: "ssend() fd must be Int, got "@ }, ArgCheckV { allowed: 1, head: "ssend() buf must be Int, got "@ }, ArgCheckV { allowed: 1, head: "ssend() len must be Int, got "@ }], ret: Some(TypeV::Int) })
    } else if name == "sclose"@ {
        Some(BuiltinV { arity: 1, arity_msg: "sclose() takes exactly 1 argument (fd)"@, count: false, checks: seq![ArgCheckV { allowed: 1, head: "sclose() fd must be Int, got "@ }], ret: Some(TypeV::Int) })
    } else if name == "cinit"@ {
        Some(BuiltinV { arity: 0, arity_msg: "cinit() takes no arguments"@, count: false, checks: seq![], ret: Some(TypeV::Int) })
    } else if name == "csets"@ {
        Some(BuiltinV { arity: 3, arity_msg: "csets() takes exactly 3 arguments (handle, opt, val)"@, count: false, checks: seq![ArgCheckV { allowed: 1, head: "csets() handle must be Int, got "@ }, ArgCheckV { allowed: 1, head: "csets() opt must be Int, got "@ }, ArgCheckV { allowed: 2, head: "csets() val must be String, got "@ }], ret: Some(TypeV::Int) })
    } else {
        None
    }
}

/// Builtin functions, part 5.
pub open spec fn builtin_part5(name: Seq<char>) -> Option<BuiltinV> {
    if name == "cseti"@ {
        Some(BuiltinV { arity: 3, arity_msg: "cseti() takes exactly 3 arguments (handle, opt, val)"@, count: false, checks: seq![ArgCheckV { allowed: 1, head: "cseti() handle must be Int, got "@ }, ArgCheckV { allowed: 1, head: "cseti() opt must be Int, got "@ }, ArgCheckV { allowed: 1, head: "cseti() val must be Int, got "@ }], ret: Some(TypeV::Int) })
    } else if name == "cperf"@ {
        Some(BuiltinV { arity: 1, arity_msg: "cperf() takes exactly 1 argument (handle)"@, count: false, checks: seq![ArgCheckV { allowed: 1, head: "cperf() handle must be Int, got "@ }], ret: Some(TypeV::Int) })
    } else if name == "cclean"@ {
        Some(BuiltinV { arity: 1, arity_msg: "cclean() takes exactly 1 argument (handle)"@, count: false, checks: seq![ArgCheckV { allowed: 1, head: "cclean() handle must be Int, got "@ }], ret: Some(TypeV::Int) })
    } else if name == "cinfo"@ {
        Some(BuiltinV { arity: 3, arity_msg: "cinfo() takes exactly 3 arguments (handle, info, buf)"@, count: false, checks: seq![ArgCheckV { allowed: 1, head: "cinfo() handle must be Int, got "@ }, ArgCheckV { allowed: 1, head: "cinfo() info must be Int, got "@ }, ArgCheckV { allowed: 1, head: "cinfo() buf must be Int, got "@ }], ret: Some(TypeV::Int) })
    } else if name == "curl_slist_append"@ {
        Some(BuiltinV { arity: 2, arity_msg: "curl_slist_append() takes exactly 2 arguments (slist, str)"@, count: false, checks: seq![ArgCheckV { allowed: 1, head: "curl_slist_append() slist must be Int, got "@ }, ArgCheckV { allowed: 1, head: "curl_slist_append() str must be Int, got "@ }], ret: Some(TypeV::Int) })
    } else if name == "curl_slist_free"@ {
        Some(BuiltinV { arity: 1, arity_msg: "curl_slist_free() takes exactly 1 argument (slist)"@, count: false, checks: seq![ArgCheckV { allowed: 1, head: "curl_slist_free() slist must be Int, got "@ }], ret: Some(TypeV::Int) })
    } else if name == "get_log_level"@ {
        Some(BuiltinV { arity: 0, arity_msg: "get_log_level() takes no arguments"@, count: false, checks: seq![], ret: Some(TypeV::Int) })
    } else if name == "set_log_level"@ {
        Some(BuiltinV { arity: 1, arity_msg: "set_log_level() takes exactly 1 argument"@, count: false, checks: seq![ArgCheckV { allowed: 1, head: "set_log_level() requires Int argument, got "@ }], ret: Some(TypeV::Int) })
    } else if name == "http_listen"@ || name == "listen"@ || name == "hl"@ {
        Some(BuiltinV { arity: 1, arity_msg: "http_listen() takes exactly 1 argument (port)"@, count: false, checks: seq![ArgCheckV { allowed: 1, head: "http_listen() requires Int port, got "@ }], ret: Some(TypeV::HttpServer) })
    } else if name == "ok"@ {
        Some(BuiltinV { arity: 1, arity_msg: "ok() takes exactly 1 argument"@, count: false, checks: seq![ArgCheckV { allowed: 0, head: ""@ }], ret: None })
    } else if name == "err"@ {
        Some(BuiltinV { arity: 1, arity_msg: "err() takes exactly 1 argument"@, count: false, checks: seq![ArgCheckV { allowed: 2, head: "err() requires String argument, got "@ }], ret: Some(TypeV::ResultErr) })
    } else {
        None
    }
}

/// The rule of a builtin function, by the name it is called by.
#[verifier::opaque]
pub open spec fn builtin_of(name: Seq<char>) -> Option<BuiltinV> {
    if builtin_part0(name) is Some {
        builtin_part0(name)
    } else if builtin_part1(name) is Some {
        builtin_part1(name)
    } else if builtin_part2(name) is Some {
        builtin_part2(name)
    } else if builtin_part3(name) is Some {
        builtin_part3(name)
    } else if builtin_part4(name) is Some {
        builtin_part4(name)
    } else if builtin_part5(name) is Some {
        builtin_part5(name)
    } else {
        None
    }
}


// ─── Method rules ──────────────────────────────────────────────────────────

/// A check of one argument: `mode` 0 takes any type, 1 asks for `expected`
/// itself, 2 for a type `compatible` with it, 3 for it or (when it is `Int`)
/// a channel end, a join handle or a mutex, and 4 for a type that the code
/// `mask` admits.  A wrong argument gives `head`, its type, then `tail`.
pub struct CheckV {
    pub mode: u8,
    pub expected: TypeV,
    pub mask: u8,
    pub head: Seq<char>,
    pub tail: Seq<char>,
}

/// Whether an argument of type `t` passes the check.
pub open spec fn passes(c: CheckV, t: TypeV) -> bool {
    if c.mode == 0 {
        true
    } else if c.mode == 1 {
        t == c.expected
    } else if c.mode == 2 {
        compatible(t, c.expected)
    } else if c.mode == 3 {
        t == c.expected || (c.expected == TypeV::Int && (t is Sender || t is Receiver || t is JoinHandle
            || t is Mutex))
    } else {
        allowed_by(c.mask, t)
    }
}

/// How a method call on a value of a builtin type is checked.
pub enum PlanV {
    /// Between `min` and `max` arguments (else `arity_msg`), checked by
    /// `checks`, giving `ret`.
    Simple { min: nat, max: nat, arity_msg: Seq<char>, checks: Seq<CheckV>, ret: TypeV },
    /// One function argument taking `inner` (returning `Bool` when
    /// `needs_bool`); `result` 0 gives an array of what the function
    /// returns, 1 an array of `inner`, 2 `Bool`, 3 `inner`.
    FnArg { arity_msg: Seq<char>, inner: TypeV, needs_bool: bool, head: Seq<char>, result: u8 },
    /// `zip` with another array.
    Zip { inner: TypeV },
    /// No such method.
    Fail { message: Seq<char> },
    /// A method of a struct or an enum.
    User,
}

pub open spec fn exact(t: TypeV, head: Seq<char>) -> CheckV {
    CheckV { mode: 1, expected: t, mask: 0, head, tail: Seq::empty() }
}

pub open spec fn any_check() -> CheckV {
    CheckV { mode: 0, expected: TypeV::Int, mask: 0, head: Seq::empty(), tail: Seq::empty() }
}

pub open spec fn no_args(m: Seq<char>, ret: TypeV) -> PlanV {
    PlanV::Simple { min: 0, max: 0, arity_msg: m + "() takes no arguments"@, checks: Seq::empty(), ret }
}

pub open spec fn one_arg(arity_msg: Seq<char>, c: CheckV, ret: TypeV) -> PlanV {
    PlanV::Simple { min: 1, max: 1, arity_msg, checks: seq![c], ret }
}

pub open spec fn two_args(arity_msg: Seq<char>, c1: CheckV, c2: CheckV, ret: TypeV) -> PlanV {
    PlanV::Simple { min: 2, max: 2, arity_msg, checks: seq![c1, c2], ret }
}

pub open spec fn no_method(kind: Seq<char>, m: Seq<char>) -> PlanV {
    PlanV::Fail { message: kind + " has no method '"@ + m + "'"@ }
}

/// How calling method `m` on a value of type `recv` is checked.
pub open spec fn method_plan(recv: TypeV, m: Seq<char>) -> PlanV {
    match recv {
        TypeV::Sender { inner } => if m == "send"@ {
            one_arg("send() takes exactly 1 argument"@, exact(*inner, "send() type mismatch: channel holds "@ + type_text(*inner) + " but got "@), TypeV::Int)
        } else {
            PlanV::User
        },
        TypeV::Receiver { inner } => if m == "recv"@ {
            no_args(m, *inner)
        } else {
            PlanV::User
        },
        TypeV::JoinHandle => if m == "join"@ {
            no_args(m, TypeV::Int)
        } else {
            PlanV::User
        },
        TypeV::Mutex { inner } => if m == "lock"@ {
            no_args(m, *inner)
        } else if m == "unlock"@ {
            one_arg("unlock() takes exactly 1 argument"@, exact(*inner, "unlock() type mismatch: mutex holds "@ + type_text(*inner) + " but got "@), TypeV::Int)
        } else {
            PlanV::User
        },
        TypeV::Array { inner } => if m == "push"@ {
            one_arg("push() takes exactly 1 argument"@, exact(*inner, "push() type mismatch: array holds "@ + type_text(*inner) + " but got "@), TypeV::Int)
        } else if m == "get"@ {
            one_arg("get() takes exactly 1 argument"@, exact(TypeV::Int, "get() index must be Int, got "@), *inner)
        } else if m == "set"@ {
            two_args("set() takes exactly 2 arguments (index, value)"@, exact(TypeV::Int, "set() index must be Int, got "@), exact(*inner, "set() type mismatch: array holds "@ + type_text(*inner) + " but got "@), TypeV::Int)
        } else if m == "len"@ {
            no_args(m, TypeV::Int)
        } else if m == "pop"@ {
            no_args(m, *inner)
        } else if m == "remove"@ {
            one_arg("remove() takes exactly 1 argument (index)"@, exact(TypeV::Int, "remove() index must be Int, got "@), *inner)
        } else if m == "map"@ {
            PlanV::FnArg { arity_msg: "map() takes exactly 1 argument (function)"@, inner: *inner, needs_bool: false, head: "map() requires a function ("@ + type_text(*inner) + ") -> T, got "@, result: 0 }
        } else if m == "filter"@ {
            PlanV::FnArg { arity_msg: "filter() takes exactly 1 argument (function)"@, inner: *inner, needs_bool: true, head: "filter() requires a function ("@ + type_text(*inner) + ") -> Bool, got "@, result: 1 }
        } else if m == "any"@ {
            PlanV::FnArg { arity_msg: "any() takes exactly 1 argument (function)"@, inner: *inner, needs_bool: true, head: "any() requires a function ("@ + type_text(*inner) + ") -> Bool, got "@, result: 2 }
        } else if m == "find"@ {
            PlanV::FnArg { arity_msg: "find() takes exactly 1 argument (function)"@, inner: *inner, needs_bool: true, head: "find() requires a function ("@ + type_text(*inner) + ") -> Bool, got "@, result: 3 }
        } else if m == "enumerate"@ {
            no_args(m, TypeV::Array { inner: Box::new(TypeV::Tuple { elements: seq![TypeV::Int, *inner] }) })
        } else if m == "zip"@ {
            PlanV::Zip { inner: *inner }
        } else if m == "contains"@ {
            one_arg("contains() takes exactly 1 argument"@, exact(*inner, "contains() argument must be "@ + type_text(*inner) + ", got "@), TypeV::Bool)
        } else {
            PlanV::User
        },
        TypeV::String => if m == "len"@ {
            no_args(m, TypeV::Int)
        } else if m == "substring"@ {
            two_args("substring() takes exactly 2 arguments (start, end)"@, exact(TypeV::Int, "substring() start must be Int, got "@), exact(TypeV::Int, "substring() end must be Int, got "@), TypeV::String)
        } else if m == "trim"@ {
            no_args(m, TypeV::String)
        } else if m == "starts_with"@ || m == "sw"@ {
            one_arg("starts_with() takes exactly 1 argument"@, exact(TypeV::String, "starts_with() requires String argument, got "@), TypeV::Bool)
        } else if m == "ends_with"@ || m == "ew"@ {
            one_arg("ends_with() takes exactly 1 argument"@, exact(TypeV::String, "ends_with() requires String argument, got "@), TypeV::Bool)
        } else if m == "contains"@ {
            one_arg("contains() takes exactly 1 argument"@, exact(TypeV::String, "contains() requires String argument, got "@), TypeV::Bool)
        } else if m == "split"@ {
            one_arg("split() takes exactly 1 argument (delimiter)"@, exact(TypeV::String, "split() requires String delimiter, got "@), TypeV::Array { inner: Box::new(TypeV::String) })
        } else if m == "replace"@ {
            two_args("replace() takes exactly 2 arguments (old, new)"@, exact(TypeV::String, "replace() first argument must be String, got "@), exact(TypeV::String, "replace() second argument must be String, got "@), TypeV::String)
        } else {
            PlanV::User
        },
        TypeV::JsonValue => if m == "get"@ {
            one_arg("get() takes exactly 1 argument"@, exact(TypeV::String, "get() key must be String, got "@), TypeV::JsonValue)
        } else if m == "get_index"@ {
            one_arg("get_index() takes exactly 1 argument"@, exact(TypeV::Int, "get_index() index must be Int, got "@), TypeV::JsonValue)
        } else if m == "get_string"@ {
            no_args(m, TypeV::String)
        } else if m == "get_int"@ {
            no_args(m, TypeV::Int)
        } else if m == "get_bool"@ {
            no_args(m, TypeV::Bool)
        } else if m == "len"@ {
            no_args(m, TypeV::Int)
        } else if m == "type_of"@ {
            no_args(m, TypeV::String)
        } else if m == "set"@ {
            two_args("set() takes exactly 2 arguments (key, value)"@, exact(TypeV::String, "set() key must be String, got "@), exact(TypeV::JsonValue, "set() value must be JsonValue, got "@), TypeV::Int)
        } else if m == "push"@ {
            one_arg("push() takes exactly 1 argument"@, exact(TypeV::JsonValue, "push() requires JsonValue argument, got "@), TypeV::Int)
        } else {
            no_method("JsonValue"@, m)
        },
        TypeV::Mapping => if m == "get"@ {
            one_arg("get() takes exactly 1 argument"@, exact(TypeV::String, "get() key must be String, got "@), TypeV::Int)
        } else if m == "set"@ {
            two_args("set() takes exactly 2 arguments (key, value)"@, exact(TypeV::String, "set() key must be String, got "@), any_check(), TypeV::Int)
        } else if m == "has"@ {
            one_arg("has() takes exactly 1 argument"@, exact(TypeV::String, "has() key must be String, got "@), TypeV::Bool)
        } else if m == "len"@ {
            no_args(m, TypeV::Int)
        } else if m == "keys"@ {
            no_args(m, TypeV::Array { inner: Box::new(TypeV::String) })
        } else if m == "vals"@ {
            no_args(m, TypeV::Array { inner: Box::new(TypeV::Int) })
        } else {
            no_method("Map"@, m)
        },
        TypeV::HttpResponse => if m == "status"@ {
            no_args(m, TypeV::Int)
        } else if m == "body"@ {
            no_args(m, TypeV::String)
        } else if m == "header"@ {
            one_arg("header() takes exactly 1 argument"@, exact(TypeV::String, "header() name must be String, got "@), TypeV::String)
        } else if m == "ok"@ {
            no_args(m, TypeV::Bool)
        } else {
            no_method("HttpResponse"@, m)
        },
        TypeV::HttpServer => if m == "accept"@ {
            no_args(m, TypeV::HttpRequest)
        } else {
            no_method("HttpServer"@, m)
        },
        TypeV::HttpRequest => if m == "path"@ {
            no_args(m, TypeV::String)
        } else if m == "method"@ {
            no_args(m, TypeV::String)
        } else if m == "body"@ {
            no_args(m, TypeV::String)
        } else if m == "respond"@ {
            PlanV::Simple {
                min: 2,
                max: 3,
                arity_msg: "respond() takes 2 or 3 arguments (status, body[, content_type])"@,
                checks: seq![
                    exact(TypeV::Int, "respond() status must be Int, got "@),
                    exact(TypeV::String, "respond() body must be String, got "@),
                    exact(TypeV::String, "respond() content_type must be String, got "@),
                ],
                ret: TypeV::Int,
            }
        } else {
            no_method("HttpRequest"@, m)
        },
        TypeV::Result { inner } => if m == "is_ok"@ || m == "is_err"@ {
            no_args(m, TypeV::Bool)
        } else if m == "unwrap"@ {
            no_args(m, *inner)
        } else if m == "unwrap_or"@ {
            one_arg("unwrap_or() takes exactly 1 argument"@, exact(*inner, "unwrap_or() default must be "@ + type_text(*inner) + ", got "@), *inner)
        } else if m == "error"@ {
            no_args(m, TypeV::String)
        } else {
            no_method("Result"@, m)
        },
        TypeV::ResultErr => if m == "is_ok"@ || m == "is_err"@ {
            no_args(m, TypeV::Bool)
        } else if m == "error"@ {
            no_args(m, TypeV::String)
        } else {
            PlanV::User
        },
        _ => PlanV::User,
    }
}


// ─── Messages ──────────────────────────────────────────────────────────────

/// `'s'`
pub open spec fn q(s: Seq<char>) -> Seq<char> {
    "'"@ + s + "'"@
}

/// The head of the message for a wrong argument `i` (from 0) of `callee`.
pub open spec fn arg_head(i: int, callee: Seq<char>, expected: TypeV) -> Seq<char> {
    "argument "@ + nat_text((i + 1) as nat) + " to "@ + callee + ": expected "@ + type_text(expected) + " but got "@
}

/// Checks of arguments against parameter types, in the given mode.
pub open spec fn checks_for(params: Seq<TypeV>, mode: u8, callee: Seq<char>) -> Seq<CheckV> {
    Seq::new(
        params.len(),
        |i: int| CheckV { mode, expected: params[i], mask: 0, head: arg_head(i, callee, params[i]), tail: Seq::empty() },
    )
}

/// The checks of a builtin's arguments.
pub open spec fn builtin_checks(cs: Seq<ArgCheckV>) -> Seq<CheckV> {
    Seq::new(
        cs.len(),
        |i: int| CheckV {
            mode: if cs[i].allowed == 0 { 0 } else { 4 },
            expected: TypeV::Int,
            mask: cs[i].allowed,
            head: cs[i].head,
            tail: Seq::empty(),
        },
    )
}

/// The checks of the elements of an array literal after the first.
pub open spec fn element_checks(first: TypeV, n: nat) -> Seq<CheckV> {
    Seq::new(
        n,
        |i: int| CheckV {
            mode: 1,
            expected: first,
            mask: 0,
            head: "array literal element "@ + nat_text(i as nat) + " has type "@,
            tail: " but expected "@ + type_text(first) + " (from first element)"@,
        },
    )
}

pub open spec fn wrong_count(f: Seq<char>, expected: nat, got: nat) -> Seq<char> {
    "wrong argument count calling "@ + q(f) + ": expected "@ + nat_text(expected) + " argument(s) but got "@ + nat_text(got)
}

// ─── Operators ─────────────────────────────────────────────────────────────

pub open spec fn is_arith(op: BinOp) -> bool {
    op == BinOp::Add || op == BinOp::Sub || op == BinOp::Mul || op == BinOp::Div || op == BinOp::Mod
}

pub open spec fn is_compare(op: BinOp) -> bool {
    op == BinOp::Eq || op == BinOp::NotEq || op == BinOp::Lt || op == BinOp::Gt || op == BinOp::LtEq
        || op == BinOp::GtEq
}

/// The type of a binary operation on operands of types `lt` and `rt`.
pub open spec fn binop_type(op: BinOp, lt: TypeV, rt: TypeV) -> Result<TypeV, Seq<char>> {
    if is_arith(op) {
        if op == BinOp::Add && lt == TypeV::String && rt == TypeV::String {
            Ok(TypeV::String)
        } else if lt == TypeV::Float && rt == TypeV::Float {
            Ok(TypeV::Float)
        } else if lt != TypeV::Int {
            Err("arithmetic operator requires Int operands, left operand is "@ + type_text(lt))
        } else if rt != TypeV::Int {
            Err("arithmetic operator requires Int operands, right operand is "@ + type_text(rt))
        } else {
            Ok(TypeV::Int)
        }
    } else if is_compare(op) {
        if lt == TypeV::Float && rt == TypeV::Float {
            Ok(TypeV::Bool)
        } else if lt == TypeV::String && rt == TypeV::String {
            if op == BinOp::Eq || op == BinOp::NotEq {
                Ok(TypeV::Bool)
            } else {
                Err("String only supports == and != comparison"@)
            }
        } else if lt == TypeV::Bool && rt == TypeV::Bool {
            if op == BinOp::Eq || op == BinOp::NotEq {
                Ok(TypeV::Bool)
            } else {
                Err("Bool only supports == and != comparison"@)
            }
        } else if lt != TypeV::Int {
            Err("comparison operator requires matching operands, left operand is "@ + type_text(lt))
        } else if rt != TypeV::Int {
            Err("comparison operator requires matching operands, right operand is "@ + type_text(rt))
        } else {
            Ok(TypeV::Bool)
        }
    } else {
        if lt != TypeV::Bool {
            Err("boolean operator requires Bool operands, left operand is "@ + type_text(lt))
        } else if rt != TypeV::Bool {
            Err("boolean operator requires Bool operands, right operand is "@ + type_text(rt))
        } else {
            Ok(TypeV::Bool)
        }
    }
}

/// The type of a unary operation on an operand of type `t`.
pub open spec fn unop_type(op: UnaryOp, t: TypeV) -> Result<TypeV, Seq<char>> {
    match op {
        UnaryOp::Not => if t != TypeV::Bool {
            Err("'!' operator requires Bool operand, got "@ + type_text(t))
        } else {
            Ok(TypeV::Bool)
        },
        UnaryOp::Neg => if t != TypeV::Int && t != TypeV::Float {
            Err("'-' operator requires Int or Float operand, got "@ + type_text(t))
        } else {
            Ok(t)
        },
    }
}

/// The type of an if/else expression whose branches have types `tt` and
/// `et`: an error-only result goes with any result.
pub open spec fn merge_branches(tt: TypeV, et: TypeV) -> Result<TypeV, Seq<char>> {
    if tt == et {
        Ok(tt)
    } else if tt is ResultErr && et is Result {
        Ok(et)
    } else if tt is Result && et is ResultErr {
        Ok(tt)
    } else {
        Err("if/else branch type mismatch: then branch is "@ + type_text(tt) + " but else branch is "@ + type_text(et))
    }
}

// ─── Tuple indexes ─────────────────────────────────────────────────────────

pub open spec fn is_digit_char(c: char) -> bool {
    '0' <= c <= '9'
}

/// The value of the decimal digits `s[0..n]`.
pub open spec fn digits_value(s: Seq<char>, n: int) -> nat
    decreases n,
{
    if n <= 0 || n > s.len() {
        0
    } else {
        digits_value(s, n - 1) * 10 + ((s[n - 1] as u32) - ('0' as u32)) as nat
    }
}

/// The part of an index text after an optional leading `+`.
pub open spec fn digit_part(s: Seq<char>) -> Seq<char> {
    if s.len() > 0 && s[0] == '+' {
        s.subrange(1, s.len() as int)
    } else {
        s
    }
}

/// Whether every character is a decimal digit.
pub open spec fn all_digits(d: Seq<char>) -> bool {
    forall|i: int| 0 <= i < d.len() ==> is_digit_char(#[trigger] d[i])
}

/// What `str::parse::<usize>` gives: an optional `+`, then at least one
/// decimal digit and nothing else, of a value that fits in a `usize`.
pub open spec fn parse_index(s: Seq<char>) -> Option<nat> {
    let d = digit_part(s);
    if d.len() > 0 && all_digits(d) && digits_value(d, d.len() as int) <= usize::MAX {
        Some(digits_value(d, d.len() as int))
    } else {
        None
    }
}

// ─── Generic functions ─────────────────────────────────────────────────────

/// The struct or enum name of a type.
pub open spec fn nominal_name(t: TypeV) -> Option<Seq<char>> {
    match t {
        TypeV::Struct { name, .. } => Some(name),
        TypeV::Enum { name, .. } => Some(name),
        _ => None,
    }
}

/// The first method of a trait, from `j` on, that type `tn` lacks.
pub open spec fn missing_method(
    tms: Seq<(Seq<char>, Seq<TypeV>, TypeV)>,
    j: int,
    tn: Seq<char>,
    methods: Seq<((Seq<char>, Seq<char>), SigV)>,
) -> Option<Seq<char>>
    decreases tms.len() - j,
{
    if j < 0 || j >= tms.len() {
        None
    } else if lookup(methods, (tn, tms[j].0)) is None {
        Some(tms[j].0)
    } else {
        missing_method(tms, j + 1, tn, methods)
    }
}

/// The first trait bound, from `k` on, that the inferred types break.
pub open spec fn bound_error(
    tps: Seq<(Seq<char>, Option<Seq<char>>)>,
    k: int,
    tmap: Seq<(Seq<char>, TypeV)>,
    env: EnvV,
) -> Option<Seq<char>>
    decreases tps.len() - k,
{
    if k < 0 || k >= tps.len() {
        None
    } else {
        match tps[k].1 {
            None => bound_error(tps, k + 1, tmap, env),
            Some(tr) => match lookup(tmap, tps[k].0) {
                None => Some("could not infer type parameter "@ + q(tps[k].0)),
                Some(ct) => match nominal_name(ct) {
                    None => Some("type "@ + type_text(ct) + " cannot satisfy trait bound "@ + q(tr)),
                    Some(tn) => match lookup(env.traits, tr) {
                        None => Some("undefined trait "@ + q(tr)),
                        Some(tms) => match missing_method(tms, 0, tn, env.methods) {
                            Some(mn) => Some(
                                "type "@ + q(tn) + " does not implement trait "@ + q(tr) + " (missing method "@ + q(mn) + ")"@,
                            ),
                            None => bound_error(tps, k + 1, tmap, env),
                        },
                    },
                },
            },
        }
    }
}

/// The return type of a generic function once its type parameters are
/// inferred.
pub open spec fn generic_return(info: GenericFnInfoV, tmap: Seq<(Seq<char>, TypeV)>, env: EnvV) -> Result<TypeV, Seq<char>> {
    if lookup(info.type_params, info.return_type_name) is Some {
        match lookup(tmap, info.return_type_name) {
            Some(t) => Ok(t),
            None => Err("could not infer return type parameter "@ + q(info.return_type_name)),
        }
    } else {
        resolve(info.return_type_name, env.structs, env.enums, env.modules)
    }
}

// ─── User methods ──────────────────────────────────────────────────────────

/// How a method of a struct or an enum is checked, for `nargs` arguments.
pub open spec fn user_plan(recv: TypeV, m: Seq<char>, nargs: nat, env: EnvV) -> PlanV {
    match nominal_name(recv) {
        None => PlanV::Fail { message: "method call on non-struct/enum type "@ + type_text(recv) },
        Some(tn) => match lookup(env.methods, (tn, m)) {
            None => PlanV::Fail { message: "no method "@ + q(m) + " on type "@ + q(tn) },
            Some(sig) => if nargs != sig.0.len() {
                PlanV::Fail {
                    message: "method "@ + q(m) + " on "@ + q(tn) + " expects "@ + nat_text(sig.0.len()) + " argument(s) but got "@ + nat_text(nargs),
                }
            } else {
                PlanV::Simple {
                    min: nargs,
                    max: nargs,
                    arity_msg: Seq::empty(),
                    checks: checks_for(sig.0, 1, "method "@ + q(m)),
                    ret: sig.1,
                }
            },
        },
    }
}

/// How calling `m` on a value of type `recv` with `nargs` arguments is
/// checked.
pub open spec fn full_plan(recv: TypeV, m: Seq<char>, nargs: nat, env: EnvV) -> PlanV {
    match method_plan(recv, m) {
        PlanV::User => user_plan(recv, m, nargs, env),
        p => p,
    }
}

/// The result of a function argument of type `t` under a `FnArg` plan.
pub open spec fn fn_arg_result(t: TypeV, inner: TypeV, needs_bool: bool, head: Seq<char>, result: u8) -> Result<TypeV, Seq<char>> {
    match t {
        TypeV::Fn { params, ret } => if params.len() == 1 && params[0] == inner && (!needs_bool || *ret == TypeV::Bool) {
            if result == 0 {
                Ok(TypeV::Array { inner: ret })
            } else if result == 1 {
                Ok(TypeV::Array { inner: Box::new(inner) })
            } else if result == 2 {
                Ok(TypeV::Bool)
            } else {
                Ok(inner)
            }
        } else {
            Err(head + type_text(t))
        },
        _ => Err(head + type_text(t)),
    }
}

/// The result of a `zip` argument of type `t`.
pub open spec fn zip_result(t: TypeV, inner: TypeV) -> Result<TypeV, Seq<char>> {
    match t {
        TypeV::Array { inner: b } => Ok(TypeV::Array { inner: Box::new(TypeV::Tuple { elements: seq![inner, *b] }) }),
        _ => Err("zip() requires an array argument, got "@ + type_text(t)),
    }
}

/// A plan applied to no arguments.
pub open spec fn apply_plan_none(plan: PlanV) -> Result<TypeV, Seq<char>> {
    match plan {
        PlanV::Simple { min, max, arity_msg, checks, ret } => if 0 < min {
            Err(arity_msg)
        } else {
            Ok(ret)
        },
        PlanV::FnArg { arity_msg, .. } => Err(arity_msg),
        PlanV::Zip { .. } => Err("zip() takes exactly 1 argument (array)"@),
        PlanV::Fail { message } => Err(message),
        PlanV::User => Err(Seq::empty()),
    }
}

// ─── Locals ────────────────────────────────────────────────────────────────

/// The locals with `names[k..]` bound to `tys[k..]`, immutable.
pub open spec fn bind_from(l: LocalsV, names: Seq<Seq<char>>, tys: Seq<TypeV>, k: int) -> LocalsV
    decreases names.len() - k,
{
    if k < 0 || k >= names.len() {
        l
    } else {
        bind_from(assoc_insert(l, names[k], (tys[k], false)), names, tys, k + 1)
    }
}

/// The first field of a struct definition, from `j` on, that a literal
/// does not give.
pub open spec fn missing_field(ef: FieldsV, j: int, given: Seq<(Seq<char>, ExprV)>) -> Option<Seq<char>>
    decreases ef.len() - j,
{
    if j < 0 || j >= ef.len() {
        None
    } else if !(exists|k: int| 0 <= k < given.len() && #[trigger] given[k].0 == ef[j].0) {
        Some(ef[j].0)
    } else {
        missing_field(ef, j + 1, given)
    }
}


// ─── Expressions and statements ────────────────────────────────────────────

/// The types of `args[i..]` under `checks`, or the first error.
pub open spec fn tc_checks(args: Seq<ExprV>, checks: Seq<CheckV>, i: int, l: LocalsV, env: EnvV) -> Result<Seq<TypeV>, Seq<char>>
    decreases args, args.len() - i,
{
    if i < 0 || i >= args.len() {
        Ok(Seq::empty())
    } else {
        match tc_expr(args[i], l, env) {
            Err(e) => Err(e),
            Ok(t) => if i < checks.len() && !passes(checks[i], t) {
                Err(checks[i].head + type_text(t) + checks[i].tail)
            } else {
                match tc_checks(args, checks, i + 1, l, env) {
                    Err(e) => Err(e),
                    Ok(ts) => Ok(seq![t] + ts),
                }
            },
        }
    }
}

/// A method plan applied to arguments.
pub open spec fn apply_plan(plan: PlanV, args: Seq<ExprV>, l: LocalsV, env: EnvV) -> Result<TypeV, Seq<char>>
    decreases args, args.len() + 1,
{
    match plan {
        PlanV::Simple { min, max, arity_msg, checks, ret } => if args.len() < min || args.len() > max {
            Err(arity_msg)
        } else {
            match tc_checks(args, checks, 0, l, env) {
                Err(e) => Err(e),
                Ok(_) => Ok(ret),
            }
        },
        PlanV::FnArg { arity_msg, inner, needs_bool, head, result } => if args.len() != 1 {
            Err(arity_msg)
        } else {
            match tc_expr(args[0], l, env) {
                Err(e) => Err(e),
                Ok(t) => fn_arg_result(t, inner, needs_bool, head, result),
            }
        },
        PlanV::Zip { inner } => if args.len() != 1 {
            Err("zip() takes exactly 1 argument (array)"@)
        } else {
            match tc_expr(args[0], l, env) {
                Err(e) => Err(e),
                Ok(t) => zip_result(t, inner),
            }
        },
        PlanV::Fail { message } => Err(message),
        PlanV::User => Err(Seq::empty()),
    }
}

/// The inferred type parameters after `args[i..]` of a generic function.
pub open spec fn tc_generic_args(
    f: Seq<char>,
    info: GenericFnInfoV,
    args: Seq<ExprV>,
    i: int,
    tmap: Seq<(Seq<char>, TypeV)>,
    l: LocalsV,
    env: EnvV,
) -> Result<Seq<(Seq<char>, TypeV)>, Seq<char>>
    decreases args, args.len() - i,
{
    if i < 0 || i >= args.len() {
        Ok(tmap)
    } else {
        match tc_expr(args[i], l, env) {
            Err(e) => Err(e),
            Ok(actual) => {
                let pname = info.param_types[i];
                if lookup(info.type_params, pname) is Some {
                    match lookup(tmap, pname) {
                        Some(existing) => if existing != actual {
                            Err(
                                "type parameter "@ + q(pname) + " inferred as "@ + type_text(existing) + " but argument "@
                                    + nat_text((i + 1) as nat) + " has type "@ + type_text(actual),
                            )
                        } else {
                            tc_generic_args(f, info, args, i + 1, tmap, l, env)
                        },
                        None => tc_generic_args(f, info, args, i + 1, assoc_insert(tmap, pname, actual), l, env),
                    }
                } else {
                    match resolve(pname, env.structs, env.enums, env.modules) {
                        Err(e) => Err(e),
                        Ok(expected) => if actual != expected {
                            Err(arg_head(i, q(f), expected) + type_text(actual))
                        } else {
                            tc_generic_args(f, info, args, i + 1, tmap, l, env)
                        },
                    }
                }
            },
        }
    }
}

/// A call of a function of the program with signature `sig`.
pub open spec fn tc_sig_call(f: Seq<char>, sig: SigV, args: Seq<ExprV>, l: LocalsV, env: EnvV) -> Result<TypeV, Seq<char>>
    decreases args, args.len() + 1,
{
    if args.len() != sig.0.len() {
        Err(wrong_count(f, sig.0.len(), args.len()))
    } else {
        match tc_checks(args, checks_for(sig.0, 2, q(f)), 0, l, env) {
            Err(e) => Err(e),
            Ok(_) => Ok(sig.1),
        }
    }
}

/// A call of a generic function.
pub open spec fn tc_generic_call(f: Seq<char>, info: GenericFnInfoV, args: Seq<ExprV>, l: LocalsV, env: EnvV) -> Result<TypeV, Seq<char>>
    decreases args, args.len() + 1,
{
    if args.len() != info.param_types.len() {
        Err(wrong_count(f, info.param_types.len(), args.len()))
    } else {
        match tc_generic_args(f, info, args, 0, Seq::empty(), l, env) {
            Err(e) => Err(e),
            Ok(tmap) => match bound_error(info.type_params, 0, tmap, env) {
                Some(e) => Err(e),
                None => generic_return(info, tmap, env),
            },
        }
    }
}

/// A call through a local that holds a function.
pub open spec fn tc_local_call(f: Seq<char>, args: Seq<ExprV>, l: LocalsV, env: EnvV) -> Result<TypeV, Seq<char>>
    decreases args, args.len() + 1,
{
    match lookup(l, f) {
        Some(entry) => match entry.0 {
            TypeV::Fn { params, ret } => if args.len() != params.len() {
                Err(wrong_count(f, params.len(), args.len()))
            } else {
                match tc_checks(args, checks_for(params, 1, q(f)), 0, l, env) {
                    Err(e) => Err(e),
                    Ok(_) => Ok(*ret),
                }
            },
            _ => Err("undefined function "@ + q(f)),
        },
        None => Err("undefined function "@ + q(f)),
    }
}

/// A call of a function that is not a builtin.
pub open spec fn tc_user_call(f: Seq<char>, args: Seq<ExprV>, l: LocalsV, env: EnvV) -> Result<TypeV, Seq<char>>
    decreases args, args.len() + 2,
{
    match lookup(env.fns, f) {
        Some(sig) => tc_sig_call(f, sig, args, l, env),
        None => match lookup(env.generics, f) {
            Some(info) => tc_generic_call(f, info, args, l, env),
            None => tc_local_call(f, args, l, env),
        },
    }
}

/// A call of a builtin function with rule `b`.
pub open spec fn tc_builtin_call(b: BuiltinV, args: Seq<ExprV>, l: LocalsV, env: EnvV) -> Result<TypeV, Seq<char>>
    decreases args, args.len() + 1,
{
    if args.len() != b.arity {
        Err(b.arity_msg + if b.count { nat_text(args.len()) } else { Seq::empty() })
    } else {
        match tc_checks(args, builtin_checks(b.checks), 0, l, env) {
            Err(e) => Err(e),
            Ok(ts) => match b.ret {
                Some(t) => Ok(t),
                None => if ts.len() > 0 {
                    Ok(TypeV::Result { inner: Box::new(ts[0]) })
                } else {
                    Err(Seq::empty())
                },
            },
        }
    }
}

/// A call of a function by name.
pub open spec fn tc_call(f: Seq<char>, args: Seq<ExprV>, l: LocalsV, env: EnvV) -> Result<TypeV, Seq<char>>
    decreases args, args.len() + 3,
{
    match builtin_of(f) {
        Some(b) => tc_builtin_call(b, args, l, env),
        None => tc_user_call(f, args, l, env),
    }
}

/// A call `m.f(args)` of a function `f` of an imported module `m`.
pub open spec fn tc_module_call(
    mname: Seq<char>,
    ex: ModuleExportsV,
    method: Seq<char>,
    args: Seq<ExprV>,
    l: LocalsV,
    env: EnvV,
) -> Result<TypeV, Seq<char>>
    decreases args, args.len() + 1,
{
    match lookup(ex.functions, method) {
        None => Err("function "@ + q(method) + " not found in module "@ + q(mname)),
        Some(sig) => if args.len() != sig.0.len() {
            Err(
                "function "@ + q(method) + " in module "@ + q(mname) + " expects "@ + nat_text(sig.0.len())
                    + " arguments, got "@ + nat_text(args.len()),
            )
        } else {
            match tc_checks(args, checks_for(sig.0, 1, q(mname + "."@ + method)), 0, l, env) {
                Err(e) => Err(e),
                Ok(_) => Ok(sig.1),
            }
        },
    }
}

/// The fields of a struct literal from `i` on, against the definition `ef`.
pub open spec fn tc_struct_fields(
    sname: Seq<char>,
    ef: FieldsV,
    fields: Seq<(Seq<char>, ExprV)>,
    i: int,
    l: LocalsV,
    env: EnvV,
) -> Result<(), Seq<char>>
    decreases fields, fields.len() - i,
{
    if i < 0 || i >= fields.len() {
        Ok(())
    } else {
        let fname = fields[i].0;
        match lookup(ef, fname) {
            None => Err("unknown field "@ + q(fname) + " on struct "@ + q(sname)),
            Some(et) => match tc_expr(fields[i].1, l, env) {
                Err(e) => Err(e),
                Ok(at) => if at != et {
                    Err(
                        "type mismatch for field "@ + q(fname) + " of struct "@ + q(sname) + ": expected "@
                            + type_text(et) + " but got "@ + type_text(at),
                    )
                } else {
                    tc_struct_fields(sname, ef, fields, i + 1, l, env)
                },
            },
        }
    }
}

/// The arms of a match from `i` on, over enum `en`; `acc` is the type of
/// the arms so far.
pub open spec fn tc_arms(
    en: Seq<char>,
    vs: VariantsV,
    arms: Seq<MatchArmV>,
    i: int,
    acc: Option<TypeV>,
    l: LocalsV,
    env: EnvV,
) -> Result<TypeV, Seq<char>>
    decreases arms, arms.len() - i,
{
    if i < 0 || i >= arms.len() {
        match acc {
            Some(t) => Ok(t),
            None => Err("match expression has no arms"@),
        }
    } else {
        let p = arms[i].pattern;
        if p.enum_name != en {
            Err("pattern enum "@ + q(p.enum_name) + " does not match scrutinee enum "@ + q(en))
        } else {
            match lookup(vs, p.variant_name) {
                None => Err("unknown variant "@ + q(p.variant_name) + " on enum "@ + q(en)),
                Some(fts) => if p.bindings.len() != fts.len() {
                    Err(
                        "pattern "@ + q(en + "::"@ + p.variant_name) + " expects "@ + nat_text(fts.len()) + " binding(s) but got "@
                            + nat_text(p.bindings.len()),
                    )
                } else {
                    match tc_expr(arms[i].body, bind_from(l, p.bindings, fts, 0), env) {
                        Err(e) => Err(e),
                        Ok(at) => match acc {
                            Some(exp) => if at != exp {
                                Err("match arm type mismatch: expected "@ + type_text(exp) + " but got "@ + type_text(at))
                            } else {
                                tc_arms(en, vs, arms, i + 1, acc, l, env)
                            },
                            None => tc_arms(en, vs, arms, i + 1, Some(at), l, env),
                        },
                    }
                },
            }
        }
    }
}

/// The type of an expression, or the first error in it.
#[verifier::opaque]
pub open spec fn tc_expr(e: ExprV, l: LocalsV, env: EnvV) -> Result<TypeV, Seq<char>>
    decreases e, 0int,
{
    match e {
        ExprV::IntLiteral { .. } => Ok(TypeV::Int),
        ExprV::FloatLiteral { .. } => Ok(TypeV::Float),
        ExprV::StringLiteral { .. } => Ok(TypeV::String),
        ExprV::BoolLiteral { .. } => Ok(TypeV::Bool),
        ExprV::Identifier { name, .. } => match lookup(l, name) {
            Some(entry) => Ok(entry.0),
            None => match lookup(env.fns, name) {
                Some(sig) => Ok(TypeV::Fn { params: sig.0, ret: Box::new(sig.1) }),
                None => Err("undefined variable "@ + q(name)),
            },
        },
        ExprV::BinaryOp { left, op, right, .. } => match tc_expr(*left, l, env) {
            Err(e) => Err(e),
            Ok(lt) => match tc_expr(*right, l, env) {
                Err(e) => Err(e),
                Ok(rt) => binop_type(op, lt, rt),
            },
        },
        ExprV::UnaryOp { op, operand, .. } => match tc_expr(*operand, l, env) {
            Err(e) => Err(e),
            Ok(t) => unop_type(op, t),
        },
        ExprV::If { condition, then_body, then_expr, else_body, else_expr, .. } => match tc_expr(*condition, l, env) {
            Err(e) => Err(e),
            Ok(c) => if c != TypeV::Bool {
                Err("if condition must be Bool, got "@ + type_text(c))
            } else {
                match tc_stmts(then_body, 0, l, env) {
                    Err(e) => Err(e),
                    Ok(l1) => match tc_expr(*then_expr, l1, env) {
                        Err(e) => Err(e),
                        Ok(tt) => match tc_stmts(else_body, 0, l, env) {
                            Err(e) => Err(e),
                            Ok(l2) => match tc_expr(*else_expr, l2, env) {
                                Err(e) => Err(e),
                                Ok(et) => merge_branches(tt, et),
                            },
                        },
                    },
                }
            },
        },
        ExprV::Call { function, args, .. } => tc_call(function, args, l, env),
        ExprV::StructLiteral { name, fields, .. } => match lookup(env.structs, name) {
            None => Err("undefined struct "@ + q(name)),
            Some(ef) => match missing_field(ef, 0, fields) {
                Some(n) => Err("missing field "@ + q(n) + " in struct "@ + q(name)),
                None => match tc_struct_fields(name, ef, fields, 0, l, env) {
                    Err(e) => Err(e),
                    Ok(_) => Ok(TypeV::Struct { name, fields: ef }),
                },
            },
        },
        ExprV::FieldAccess { object, field, .. } => {
            if (*object matches ExprV::Identifier { name, .. } && lookup(env.modules, name) is Some) {
                Err(
                    "cannot access field on module "@ + q((*object)->Identifier_name)
                        + " — did you mean to call a function?"@,
                )
            } else {
                match tc_expr(*object, l, env) {
                    Err(e) => Err(e),
                    Ok(ot) => match ot {
                        TypeV::Tuple { elements } => match parse_index(field) {
                            None => Err("tuple access must use numeric index, got "@ + q(field)),
                            Some(idx) => if idx >= elements.len() {
                                Err(
                                    "tuple index "@ + nat_text(idx) + " out of bounds, tuple has "@ + nat_text(elements.len())
                                        + " elements"@,
                                )
                            } else {
                                Ok(elements[idx as int])
                            },
                        },
                        TypeV::Struct { name, fields } => match lookup(fields, field) {
                            Some(t) => Ok(t),
                            None => Err("no field "@ + q(field) + " on struct "@ + q(name)),
                        },
                        _ => apply_plan_none(full_plan(ot, field, 0, env)),
                    },
                }
            }
        },
        ExprV::EnumVariant { enum_name, variant_name, args, .. } => match lookup(env.enums, enum_name) {
            None => Err("undefined enum "@ + q(enum_name)),
            Some(vs) => match lookup(vs, variant_name) {
                None => Err("unknown variant "@ + q(variant_name) + " on enum "@ + q(enum_name)),
                Some(fts) => if args.len() != fts.len() {
                    Err(
                        "variant "@ + q(enum_name + "::"@ + variant_name) + " expects "@ + nat_text(fts.len())
                            + " argument(s) but got "@ + nat_text(args.len()),
                    )
                } else {
                    match tc_checks(args, checks_for(fts, 1, q(enum_name + "::"@ + variant_name)), 0, l, env) {
                        Err(e) => Err(e),
                        Ok(_) => Ok(TypeV::Enum { name: enum_name, variants: vs }),
                    }
                },
            },
        },
        ExprV::Match { scrutinee, arms, .. } => match tc_expr(*scrutinee, l, env) {
            Err(e) => Err(e),
            Ok(st) => match st {
                TypeV::Enum { name, variants } => tc_arms(name, variants, arms, 0, None, l, env),
                _ => Err("match scrutinee must be an enum type, got "@ + type_text(st)),
            },
        },
        ExprV::MethodCall { object, method, args, .. } => {
            if (*object matches ExprV::Identifier { name, .. } && lookup(env.modules, name) is Some) {
                let mname = (*object)->Identifier_name;
                tc_module_call(mname, lookup(env.modules, mname).unwrap(), method, args, l, env)
            } else {
                match tc_expr(*object, l, env) {
                    Err(e) => Err(e),
                    Ok(ot) => apply_plan(full_plan(ot, method, args.len(), env), args, l, env),
                }
            }
        },
        ExprV::Spawn { function, args, .. } => match lookup(env.fns, function) {
            None => Err("undefined function "@ + q(function) + " in spawn"@),
            Some(sig) => if args.len() != sig.0.len() {
                Err(
                    "wrong argument count calling "@ + q(function) + ": expected "@ + nat_text(sig.0.len()) + " but got "@
                        + nat_text(args.len()),
                )
            } else {
                match tc_checks(args, checks_for(sig.0, 3, q(function)), 0, l, env) {
                    Err(e) => Err(e),
                    Ok(_) => Ok(TypeV::JoinHandle),
                }
            },
        },
        ExprV::ChannelCreate { element_type, capacity, .. } => match capacity {
            Some(c) => match tc_expr(*c, l, env) {
                Err(e) => Err(e),
                Ok(ct) => if ct != TypeV::Int {
                    Err("channel capacity must be Int, got "@ + type_text(ct))
                } else {
                    match resolve(element_type.name, env.structs, env.enums, env.modules) {
                        Err(e) => Err(e),
                        Ok(inner) => Ok(TypeV::Sender { inner: Box::new(inner) }),
                    }
                },
            },
            None => match resolve(element_type.name, env.structs, env.enums, env.modules) {
                Err(e) => Err(e),
                Ok(inner) => Ok(TypeV::Sender { inner: Box::new(inner) }),
            },
        },
        ExprV::MutexCreate { value, .. } => match tc_expr(*value, l, env) {
            Err(e) => Err(e),
            Ok(t) => Ok(TypeV::Mutex { inner: Box::new(t) }),
        },
        ExprV::ArrayCreate { element_type, .. } => match resolve(element_type.name, env.structs, env.enums, env.modules) {
            Err(e) => Err(e),
            Ok(inner) => Ok(TypeV::Array { inner: Box::new(inner) }),
        },
        ExprV::ArrayLiteral { elements, .. } => if elements.len() == 0 {
            Err(Seq::empty())
        } else {
            match tc_expr(elements[0], l, env) {
                Err(e) => Err(e),
                Ok(first) => match tc_checks(elements, element_checks(first, elements.len()), 1, l, env) {
                    Err(e) => Err(e),
                    Ok(_) => Ok(TypeV::Array { inner: Box::new(first) }),
                },
            }
        },
        ExprV::TupleLiteral { elements, .. } => match tc_checks(elements, Seq::empty(), 0, l, env) {
            Err(e) => Err(e),
            Ok(ts) => Ok(TypeV::Tuple { elements: ts }),
        },
        ExprV::Lambda { params, return_type, body, .. } => match lambda_params(params, 0, env, l, Seq::empty()) {
            Err(e) => Err(e),
            Ok(pl) => match resolve(return_type.name, env.structs, env.enums, env.modules) {
                Err(e) => Err(e),
                Ok(rt) => match tc_stmts(body, 0, pl.1, EnvV { ret: rt, ..env }) {
                    Err(e) => Err(e),
                    Ok(_) => Ok(TypeV::Fn { params: pl.0, ret: Box::new(rt) }),
                },
            },
        },
    }
}

/// The parameter types `ts` and locals `l` after binding the lambda
/// parameters `ps[i..]` (not assignable), or the first error.
pub open spec fn lambda_params(ps: Seq<ParamV>, i: int, env: EnvV, l: LocalsV, ts: Seq<TypeV>) -> Result<
    (Seq<TypeV>, LocalsV),
    Seq<char>,
>
    decreases ps.len() - i,
{
    if i < 0 || i >= ps.len() {
        Ok((ts, l))
    } else {
        match resolve(ps[i].ty_name.name, env.structs, env.enums, env.modules) {
            Err(e) => Err(e),
            Ok(t) => lambda_params(ps, i + 1, env, assoc_insert(l, ps[i].name, (t, false)), ts.push(t)),
        }
    }
}

/// The locals after a statement, or the first error in it.
#[verifier::opaque]
pub open spec fn tc_stmt(s: StmtV, l: LocalsV, env: EnvV) -> Result<LocalsV, Seq<char>>
    decreases s, 0int,
{
    match s {
        StmtV::Let { name, mutable, ty_name, value, .. } => match tc_expr(value, l, env) {
            Err(e) => Err(e),
            Ok(actual) => match ty_name {
                Some(tn) => match resolve(tn.name, env.structs, env.enums, env.modules) {
                    Err(e) => Err(e),
                    Ok(declared) => if declared != actual {
                        Err(
                            "type mismatch in let "@ + q(name) + ": declared "@ + type_text(declared)
                                + " but expression has type "@ + type_text(actual),
                        )
                    } else {
                        Ok(assoc_insert(l, name, (declared, mutable)))
                    },
                },
                None => Ok(assoc_insert(l, name, (actual, mutable))),
            },
        },
        StmtV::Expr(e) => match tc_expr(e, l, env) {
            Err(err) => Err(err),
            Ok(_) => Ok(l),
        },
        StmtV::While { condition, body, .. } => match tc_expr(condition, l, env) {
            Err(e) => Err(e),
            Ok(c) => if c != TypeV::Bool {
                Err("while condition must be Bool, got "@ + type_text(c))
            } else {
                tc_stmts(body, 0, l, env)
            },
        },
        StmtV::Return { value, .. } => match tc_expr(value, l, env) {
            Err(e) => Err(e),
            Ok(t) => if !compatible(t, env.ret) {
                Err("return type mismatch: expected "@ + type_text(env.ret) + " but got "@ + type_text(t))
            } else {
                Ok(l)
            },
        },
        StmtV::Assign { name, value, .. } => match lookup(l, name) {
            Some(entry) => if !entry.1 {
                Err("cannot assign to immutable variable "@ + q(name))
            } else {
                match tc_expr(value, l, env) {
                    Err(e) => Err(e),
                    Ok(at) => if at != entry.0 {
                        Err(
                            "type mismatch in assignment to "@ + q(name) + ": expected "@ + type_text(entry.0) + " but got "@
                                + type_text(at),
                        )
                    } else {
                        Ok(l)
                    },
                }
            },
            None => match tc_expr(value, l, env) {
                Err(e) => Err(e),
                Ok(vt) => Ok(assoc_insert(l, name, (vt, false))),
            },
        },
        StmtV::If { condition, body, .. } => match tc_expr(condition, l, env) {
            Err(e) => Err(e),
            Ok(c) => if c != TypeV::Bool {
                Err("if condition must be Bool, got "@ + type_text(c))
            } else {
                tc_stmts(body, 0, l, env)
            },
        },
        StmtV::ForIn { var, iterable, body, .. } => match tc_expr(iterable, l, env) {
            Err(e) => Err(e),
            Ok(it) => match it {
                TypeV::Array { inner } => match tc_stmts(body, 0, assoc_insert(l, var, (*inner, false)), env) {
                    Err(e) => Err(e),
                    Ok(_) => Ok(l),
                },
                _ => Err("for-in requires Array, got "@ + type_text(it)),
            },
        },
        StmtV::Break { .. } => Ok(l),
        StmtV::Continue { .. } => Ok(l),
        StmtV::LetDestructure { names, value, .. } => match value {
            ExprV::ChannelCreate { element_type, capacity, .. } => {
                let cap: Result<(), Seq<char>> = match capacity {
                    Some(c) => match tc_expr(*c, l, env) {
                        Err(e) => Err(e),
                        Ok(ct) => if ct != TypeV::Int {
                            Err("channel capacity must be Int, got "@ + type_text(ct))
                        } else {
                            Ok(())
                        },
                    },
                    None => Ok(()),
                };
                match cap {
                    Err(e) => Err(e),
                    Ok(_) => match resolve(element_type.name, env.structs, env.enums, env.modules) {
                        Err(e) => Err(e),
                        Ok(inner) => if names.len() != 2 {
                            Err("channel destructuring requires exactly 2 names"@)
                        } else {
                            Ok(
                                assoc_insert(
                                    assoc_insert(l, names[0], (TypeV::Sender { inner: Box::new(inner) }, false)),
                                    names[1],
                                    (TypeV::Receiver { inner: Box::new(inner) }, false),
                                ),
                            )
                        },
                    },
                }
            },
            _ => Err("destructuring let is only supported for channel<T>()"@),
        },
    }
}

/// The locals after `ss[i..]`, or the first error in them.
pub open spec fn tc_stmts(ss: Seq<StmtV>, i: int, l: LocalsV, env: EnvV) -> Result<LocalsV, Seq<char>>
    decreases ss, ss.len() - i,
{
    if i < 0 || i >= ss.len() {
        Ok(l)
    } else {
        match tc_stmt(ss[i], l, env) {
            Err(e) => Err(e),
            Ok(l2) => tc_stmts(ss, i + 1, l2, env),
        }
    }
}

} // verus!
