//! The type checker: registries, type names, and the checks of
//! expressions, statements and programs.
use vstd::prelude::*;
use crate::types::{Type, TypeV, type_v, types_v, fields_tv, variants_tv, lemma_types_v, lemma_fields_tv, lemma_variants_tv, type_eq};
use crate::typeck_spec::{lookup, key_index, lemma_key_index_is, LocalsV, SigV, FieldsV, VariantsV, GenericFnInfoV, ModuleExportsV, EnvV, compatible, digit_text, nat_text, word_end, skip_white, words_from, words, lemma_word_end, lemma_skip_white, starts_with, wraps, unknown_type, type_in_modules, resolve, resolve_list};
use crate::text::{string_of, concat_str, push_char, is_white_space};
use vstd::string::StrSliceExecFns;

verus! {

/// An error produced during type checking.
#[derive(Debug)]
pub struct TypeError {
    pub message: String,
}

impl TypeError {
    pub fn new(message: String) -> (r: Self)
        ensures
            r.message@ == message@,
    {
        TypeError { message }
    }

    /// The text of the error as it is shown to users.
    pub fn to_text(&self) -> (r: String)
        ensures
            r@ == "type error: "@ + self.message@,
    {
        concat_str(string_of("type error: "), self.message.as_str())
    }
}

/// Signature of an exported function.
#[derive(Debug)]
pub struct FunctionSignature {
    pub params: Vec<Type>,
    pub return_type: Type,
}

impl View for FunctionSignature {
    type V = SigV;

    open spec fn view(&self) -> SigV {
        (types_v(self.params@), self.return_type@)
    }
}

/// Information about a generic function, used for type inference at call
/// sites: its type parameters with their optional trait bound, and the raw
/// names of its parameter and return types (which may be type parameters).
#[derive(Debug)]
pub struct GenericFnInfo {
    pub type_params: Vec<(String, Option<String>)>,
    pub param_types: Vec<String>,
    pub return_type_name: String,
}

pub open spec fn opt_text(o: Option<String>) -> Option<Seq<char>> {
    match o {
        Some(s) => Some(s@),
        None => None,
    }
}

impl View for GenericFnInfo {
    type V = GenericFnInfoV;

    open spec fn view(&self) -> GenericFnInfoV {
        GenericFnInfoV {
            type_params: self.type_params@.map_values(|p: (String, Option<String>)| (p.0@, opt_text(p.1))),
            param_types: self.param_types@.map_values(|p: String| p@),
            return_type_name: self.return_type_name@,
        }
    }
}

/// Exported items from a module, available for cross-module resolution.
#[derive(Debug)]
pub struct ModuleExports {
    pub functions: Vec<(String, FunctionSignature)>,
    pub structs: Vec<(String, Vec<(String, Type)>)>,
    pub enums: Vec<(String, Vec<(String, Vec<Type>)>)>,
}

pub open spec fn sigs_reg_v(s: Seq<(String, FunctionSignature)>) -> Seq<(Seq<char>, SigV)> {
    s.map_values(|e: (String, FunctionSignature)| (e.0@, e.1@))
}

pub open spec fn structs_reg_v(s: Seq<(String, Vec<(String, Type)>)>) -> Seq<(Seq<char>, FieldsV)> {
    s.map_values(|e: (String, Vec<(String, Type)>)| (e.0@, fields_tv(e.1@)))
}

pub open spec fn enums_reg_v(s: Seq<(String, Vec<(String, Vec<Type>)>)>) -> Seq<(Seq<char>, VariantsV)> {
    s.map_values(|e: (String, Vec<(String, Vec<Type>)>)| (e.0@, variants_tv(e.1@)))
}

impl View for ModuleExports {
    type V = ModuleExportsV;

    open spec fn view(&self) -> ModuleExportsV {
        ModuleExportsV {
            functions: sigs_reg_v(self.functions@),
            structs: structs_reg_v(self.structs@),
            enums: enums_reg_v(self.enums@),
        }
    }
}

pub open spec fn modules_v(s: Seq<(String, ModuleExports)>) -> Seq<(Seq<char>, ModuleExportsV)> {
    s.map_values(|e: (String, ModuleExports)| (e.0@, e.1@))
}

/// The index of the first entry named `k`, or the length when there is none.
pub fn find_key<V>(s: &Vec<(String, V)>, k: &String) -> (r: usize)
    ensures
        r <= s@.len(),
        forall|j: int| 0 <= j < r ==> (#[trigger] s@[j]).0@ != k@,
        r < s@.len() ==> s@[r as int].0@ == k@,
{
    let mut i: usize = 0;
    while i < s.len()
        invariant
            i <= s@.len(),
            forall|j: int| 0 <= j < i ==> (#[trigger] s@[j]).0@ != k@,
        decreases s@.len() - i,
    {
        if s[i].0 == *k {
            return i;
        }
        i = i + 1;
    }
    i
}

/// A copy of a type.
pub fn clone_type(t: &Type) -> (r: Type)
    ensures
        r@ == t@,
    decreases t,
{
    let r = match t {
        Type::Int => Type::Int,
        Type::Float => Type::Float,
        Type::Bool => Type::Bool,
        Type::String => Type::String,
        Type::Struct { name, fields } => Type::Struct { name: name.clone(), fields: clone_fields(fields) },
        Type::Enum { name, variants } => Type::Enum { name: name.clone(), variants: clone_variants(variants) },
        Type::Fn { params, ret } => Type::Fn { params: clone_types(params), ret: Box::new(clone_type(ret)) },
        Type::Sender { inner } => Type::Sender { inner: Box::new(clone_type(inner)) },
        Type::Receiver { inner } => Type::Receiver { inner: Box::new(clone_type(inner)) },
        Type::JoinHandle => Type::JoinHandle,
        Type::Mutex { inner } => Type::Mutex { inner: Box::new(clone_type(inner)) },
        Type::Array { inner } => Type::Array { inner: Box::new(clone_type(inner)) },
        Type::JsonValue => Type::JsonValue,
        Type::HttpResponse => Type::HttpResponse,
        Type::HttpServer => Type::HttpServer,
        Type::HttpRequest => Type::HttpRequest,
        Type::Mapping => Type::Mapping,
        Type::Result { inner } => Type::Result { inner: Box::new(clone_type(inner)) },
        Type::ResultErr => Type::ResultErr,
        Type::Tuple { elements } => Type::Tuple { elements: clone_types(elements) },
    };
    proof {
        assert(r@ == t@);
    }
    r
}

/// A copy of a list of types.
pub fn clone_types(ts: &Vec<Type>) -> (r: Vec<Type>)
    ensures
        types_v(r@) == types_v(ts@),
    decreases ts,
{
    let mut out: Vec<Type> = Vec::new();
    let mut i: usize = 0;
    proof {
        lemma_types_v(ts@);
    }
    while i < ts.len()
        invariant
            i <= ts@.len(),
            types_v(ts@).len() == ts@.len(),
            forall|j: int| 0 <= j < ts@.len() ==> #[trigger] types_v(ts@)[j] == type_v(ts@[j]),
            types_v(out@) == types_v(ts@).subrange(0, i as int),
        decreases ts@.len() - i,
    {
        proof {
            assert(decreases_to!(ts => ts@));
            assert(decreases_to!(ts@ => ts@[i as int]));
        }
        let t = clone_type(&ts[i]);
        let ghost before = out@;
        out.push(t);
        proof {
            assert(out@.drop_last() =~= before);
            assert(types_v(ts@).subrange(0, i + 1) =~= types_v(ts@).subrange(0, i as int).push(type_v(ts@[i as int])));
        }
        i = i + 1;
    }
    assert(types_v(ts@).subrange(0, ts@.len() as int) =~= types_v(ts@));
    out
}

/// A copy of a list of struct fields.
pub fn clone_fields(fs: &Vec<(String, Type)>) -> (r: Vec<(String, Type)>)
    ensures
        fields_tv(r@) == fields_tv(fs@),
    decreases fs,
{
    let mut out: Vec<(String, Type)> = Vec::new();
    let mut i: usize = 0;
    proof {
        lemma_fields_tv(fs@);
    }
    while i < fs.len()
        invariant
            i <= fs@.len(),
            fields_tv(fs@).len() == fs@.len(),
            forall|j: int| 0 <= j < fs@.len() ==> #[trigger] fields_tv(fs@)[j] == (fs@[j].0@, type_v(fs@[j].1)),
            fields_tv(out@) == fields_tv(fs@).subrange(0, i as int),
        decreases fs@.len() - i,
    {
        proof {
            assert(decreases_to!(fs => fs@));
            assert(decreases_to!(fs@ => fs@[i as int]));
            assert(decreases_to!(fs@[i as int] => fs@[i as int].1));
        }
        let t = clone_type(&fs[i].1);
        let n = fs[i].0.clone();
        let ghost before = out@;
        out.push((n, t));
        proof {
            assert(out@.drop_last() =~= before);
            assert(fields_tv(fs@).subrange(0, i + 1) =~= fields_tv(fs@).subrange(0, i as int).push(
                (fs@[i as int].0@, type_v(fs@[i as int].1)),
            ));
        }
        i = i + 1;
    }
    assert(fields_tv(fs@).subrange(0, fs@.len() as int) =~= fields_tv(fs@));
    out
}

/// A copy of a list of enum variants.
pub fn clone_variants(vs: &Vec<(String, Vec<Type>)>) -> (r: Vec<(String, Vec<Type>)>)
    ensures
        variants_tv(r@) == variants_tv(vs@),
    decreases vs,
{
    let mut out: Vec<(String, Vec<Type>)> = Vec::new();
    let mut i: usize = 0;
    proof {
        lemma_variants_tv(vs@);
    }
    while i < vs.len()
        invariant
            i <= vs@.len(),
            variants_tv(vs@).len() == vs@.len(),
            forall|j: int| 0 <= j < vs@.len() ==> #[trigger] variants_tv(vs@)[j] == (vs@[j].0@, types_v(vs@[j].1@)),
            variants_tv(out@) == variants_tv(vs@).subrange(0, i as int),
        decreases vs@.len() - i,
    {
        proof {
            assert(decreases_to!(vs => vs@));
            assert(decreases_to!(vs@ => vs@[i as int]));
            assert(decreases_to!(vs@[i as int] => vs@[i as int].1));
        }
        let t = clone_types(&vs[i].1);
        let n = vs[i].0.clone();
        let ghost before = out@;
        out.push((n, t));
        proof {
            assert(out@.drop_last() =~= before);
            assert(variants_tv(vs@).subrange(0, i + 1) =~= variants_tv(vs@).subrange(0, i as int).push(
                (vs@[i as int].0@, types_v(vs@[i as int].1@)),
            ));
        }
        i = i + 1;
    }
    assert(variants_tv(vs@).subrange(0, vs@.len() as int) =~= variants_tv(vs@));
    out
}

/// Check if an actual type is compatible with an expected type.
pub fn types_compatible(actual: &Type, expected: &Type) -> (r: bool)
    ensures
        r == compatible(actual@, expected@),
{
    type_eq(actual, expected)
        || (matches!(actual, Type::ResultErr) && matches!(expected, Type::Result { .. }))
        || (matches!(expected, Type::Int) && matches!(actual, Type::Fn { .. }))
        || (matches!(expected, Type::Int) && matches!(actual, Type::String))
        || (matches!(expected, Type::String) && matches!(actual, Type::Int))
        || (matches!(expected, Type::Int) && matches!(actual, Type::Mapping))
        || (matches!(expected, Type::Mapping) && matches!(actual, Type::Int))
        || (matches!(expected, Type::Int) && matches!(actual, Type::Array { .. }))
}

/// The decimal text of a number.
pub fn usize_text(n: usize) -> (r: String)
    ensures
        r@ == nat_text(n as nat),
    decreases n,
{
    let d = n % 10;
    let ds = if d == 0 {
        "0"
    } else if d == 1 {
        "1"
    } else if d == 2 {
        "2"
    } else if d == 3 {
        "3"
    } else if d == 4 {
        "4"
    } else if d == 5 {
        "5"
    } else if d == 6 {
        "6"
    } else if d == 7 {
        "7"
    } else if d == 8 {
        "8"
    } else {
        "9"
    };
    assert(ds@ == digit_text(d as nat));
    if n < 10 {
        string_of(ds)
    } else {
        concat_str(usize_text(n / 10), ds)
    }
}


/// The characters of a text.
pub fn chars_of(s: &str) -> (r: Vec<char>)
    ensures
        r@ == s@,
{
    let n = s.unicode_len();
    let mut out: Vec<char> = Vec::new();
    let mut i: usize = 0;
    while i < n
        invariant
            n == s@.len(),
            i <= n,
            out@ == s@.subrange(0, i as int),
        decreases n - i,
    {
        let c = s.get_char(i);
        out.push(c);
        assert(out@ =~= s@.subrange(0, i + 1));
        i = i + 1;
    }
    assert(out@ =~= s@);
    out
}

/// The characters `cs[a..b]` as a `String`.
pub fn string_of_chars(cs: &Vec<char>, a: usize, b: usize) -> (r: String)
    requires
        a <= b <= cs@.len(),
    ensures
        r@ == cs@.subrange(a as int, b as int),
{
    let mut out = String::new();
    let mut i: usize = a;
    while i < b
        invariant
            a <= i <= b,
            b <= cs@.len(),
            out@ == cs@.subrange(a as int, i as int),
        decreases b - i,
    {
        push_char(&mut out, cs[i]);
        assert(out@ =~= cs@.subrange(a as int, i + 1));
        i = i + 1;
    }
    out
}

/// Whether a text is the literal `lit`.
pub fn text_is(s: &String, lit: &str) -> (r: bool)
    ensures
        r == (s@ == lit@),
{
    *s == string_of(lit)
}

/// Whether `cs` starts with the characters of `p`.
fn starts_with_chars(cs: &Vec<char>, p: &str) -> (r: bool)
    ensures
        r == starts_with(cs@, p@),
{
    let pc = chars_of(p);
    if pc.len() > cs.len() {
        return false;
    }
    let mut i: usize = 0;
    while i < pc.len()
        invariant
            pc@ == p@,
            pc@.len() <= cs@.len(),
            i <= pc@.len(),
            forall|j: int| 0 <= j < i ==> cs@[j] == pc@[j],
        decreases pc@.len() - i,
    {
        if cs[i] != pc[i] {
            assert(cs@.subrange(0, pc@.len() as int)[i as int] != p@[i as int]);
            return false;
        }
        i = i + 1;
    }
    assert(cs@.subrange(0, pc@.len() as int) =~= p@);
    true
}

/// Whether `cs` is `head`, then at least one character, ending with `>`.
pub(crate) fn wraps_chars(cs: &Vec<char>, head: &str) -> (r: bool)
    ensures
        r == wraps(cs@, head@),
{
    starts_with_chars(cs, head) && cs.len() > head.unicode_len() && cs[cs.len() - 1] == '>'
}

/// Whether a character is white space in Unicode's sense.
pub fn is_white(c: char) -> (r: bool)
    ensures
        r == is_white_space(c),
{
    let u = c as u32;
    (9 <= u && u <= 13) || u == 32 || u == 0x85 || u == 0xa0 || u == 0x1680 || (0x2000 <= u
        && u <= 0x200a) || u == 0x2028 || u == 0x2029 || u == 0x202f || u == 0x205f || u == 0x3000
}

pub open spec fn texts_v(s: Seq<String>) -> Seq<Seq<char>> {
    s.map_values(|x: String| x@)
}

/// Every word from `i` on is no longer than the text.
pub proof fn lemma_words_short(s: Seq<char>, i: int)
    requires
        0 <= i <= s.len(),
    ensures
        forall|k: int| 0 <= k < words_from(s, i).len() ==> (#[trigger] words_from(s, i)[k]).len() <= s.len(),
    decreases s.len() - i,
{
    lemma_skip_white(s, i);
    let a = skip_white(s, i);
    if a < s.len() {
        lemma_word_end(s, a);
        let e = word_end(s, a);
        if a < e {
            lemma_words_short(s, e);
            let w = words_from(s, i);
            assert forall|k: int| 0 <= k < w.len() implies (#[trigger] w[k]).len() <= s.len() by {
                if k > 0 {
                    assert(w[k] == words_from(s, e)[k - 1]);
                }
            }
        }
    }
}

/// The words of `cs`, as `str::split_whitespace` gives them.
pub(crate) fn split_words(cs: &Vec<char>) -> (r: Vec<String>)
    ensures
        texts_v(r@) == words(cs@),
{
    let n = cs.len();
    let ghost s = cs@;
    let mut out: Vec<String> = Vec::new();
    let mut i: usize = 0;
    loop
        invariant
            n == s.len(),
            s == cs@,
            i <= n,
            words(s) == texts_v(out@) + words_from(s, i as int),
        decreases n - i,
    {
        proof {
            lemma_skip_white(s, i as int);
        }
        let mut a: usize = i;
        while a < n && is_white(cs[a])
            invariant
                i <= a <= n,
                n == s.len(),
                s == cs@,
                skip_white(s, i as int) == skip_white(s, a as int),
            decreases n - a,
        {
            a = a + 1;
        }
        if a >= n {
            assert(words_from(s, i as int) =~= Seq::<Seq<char>>::empty());
            assert(texts_v(out@) + Seq::<Seq<char>>::empty() =~= texts_v(out@));
            return out;
        }
        proof {
            lemma_word_end(s, a as int);
        }
        let mut e: usize = a;
        while e < n && !is_white(cs[e])
            invariant
                a <= e <= n,
                n == s.len(),
                s == cs@,
                word_end(s, a as int) == word_end(s, e as int),
            decreases n - e,
        {
            e = e + 1;
        }
        let w = string_of_chars(cs, a, e);
        let ghost before = out@;
        out.push(w);
        proof {
            assert(texts_v(out@) =~= texts_v(before).push(s.subrange(a as int, e as int)));
            assert(words_from(s, i as int) == seq![s.subrange(a as int, e as int)] + words_from(s, e as int));
            assert(texts_v(before) + words_from(s, i as int) =~= texts_v(out@) + words_from(s, e as int));
        }
        i = e;
    }
}


/// The message for a name that is no type.
fn unknown_type_error(name: &String) -> (r: TypeError)
    ensures
        r.message@ == unknown_type(name@),
{
    TypeError::new(concat_str(concat_str(string_of("unknown type '"), name.as_str()), "'"))
}

/// A struct or enum named `name` among the exports of the modules, searched
/// in the order of the list.
fn find_type_in_modules(ms: &Vec<(String, ModuleExports)>, name: &String) -> (r: Option<Type>)
    ensures
        match r {
            Some(t) => type_in_modules(modules_v(ms@), name@) == Some(t@),
            None => type_in_modules(modules_v(ms@), name@) == None::<TypeV>,
        },
{
    let mut k: usize = 0;
    let ghost all = modules_v(ms@);
    assert(all.subrange(0, all.len() as int) =~= all);
    while k < ms.len()
        invariant
            k <= ms@.len(),
            all == modules_v(ms@),
            type_in_modules(all, name@) == type_in_modules(all.subrange(k as int, all.len() as int), name@),
        decreases ms@.len() - k,
    {
        let ghost rest = all.subrange(k as int, all.len() as int);
        assert(rest.drop_first() =~= all.subrange(k + 1, all.len() as int));
        assert(rest[0] == all[k as int]);
        let ex = &ms[k].1;
        let si = find_key(&ex.structs, name);
        proof {
            lemma_key_index_is(structs_reg_v(ex.structs@), name@, si as int);
        }
        if si < ex.structs.len() {
            return Some(Type::Struct { name: name.clone(), fields: clone_fields(&ex.structs[si].1) });
        }
        let ei = find_key(&ex.enums, name);
        proof {
            lemma_key_index_is(enums_reg_v(ex.enums@), name@, ei as int);
        }
        if ei < ex.enums.len() {
            return Some(Type::Enum { name: name.clone(), variants: clone_variants(&ex.enums[ei].1) });
        }
        k = k + 1;
    }
    None
}

/// Resolve a type name to a `Type`.
pub fn resolve_type(
    name: &String,
    structs: &Vec<(String, Vec<(String, Type)>)>,
    enums: &Vec<(String, Vec<(String, Vec<Type>)>)>,
    ms: &Vec<(String, ModuleExports)>,
) -> (r: Result<Type, TypeError>)
    ensures
        match r {
            Ok(t) => resolve(name@, structs_reg_v(structs@), enums_reg_v(enums@), modules_v(ms@)) == Ok::<TypeV, Seq<char>>(t@),
            Err(e) => resolve(name@, structs_reg_v(structs@), enums_reg_v(enums@), modules_v(ms@)) == Err::<TypeV, Seq<char>>(e.message@),
        },
    decreases name@.len(),
{
    let ghost sv = structs_reg_v(structs@);
    let ghost ev = enums_reg_v(enums@);
    let ghost mv = modules_v(ms@);
    let cs = chars_of(name.as_str());
    let n = cs.len();
    if n >= 2 && cs[0] == '(' && cs[n - 1] == ')' {
        let inner = string_of_chars(&cs, 1, n - 1);
        let icv = chars_of(inner.as_str());
        let ws = split_words(&icv);
        proof {
            lemma_words_short(inner@, 0);
        }
        let ghost wv = words(inner@);
        let mut elements: Vec<Type> = Vec::new();
        let mut k: usize = 0;
        proof {
            assert(wv.subrange(0, wv.len() as int) =~= wv);
            assert(types_v(elements@) =~= Seq::<TypeV>::empty());
            assert(name@ == cs@);
            assert(resolve(name@, sv, ev, mv) == match resolve_list(wv, n - 1, sv, ev, mv) {
                Err(e) => Err(e),
                Ok(ts) => Ok(TypeV::Tuple { elements: ts }),
            });
            match resolve_list(wv, n - 1, sv, ev, mv) {
                Err(e) => {},
                Ok(ts) => {
                    assert(Seq::<TypeV>::empty() + ts =~= ts);
                },
            }
        }
        while k < ws.len()
            invariant
                k <= ws@.len(),
                texts_v(ws@) == wv,
                wv == words(name@.subrange(1, n - 1)),
                n == name@.len(),
                resolve(name@, sv, ev, mv) == match resolve_list(wv, n - 1, sv, ev, mv) {
                    Err(e) => Err(e),
                    Ok(ts) => Ok(TypeV::Tuple { elements: ts }),
                },
                n >= 2,
                forall|j: int| 0 <= j < wv.len() ==> (#[trigger] wv[j]).len() <= n - 2,
                resolve_list(wv, n - 1, sv, ev, mv) == match resolve_list(wv.subrange(k as int, wv.len() as int), n - 1, sv, ev, mv) {
                    Err(e) => Err(e),
                    Ok(ts) => Ok(types_v(elements@) + ts),
                },
                sv == structs_reg_v(structs@),
                ev == enums_reg_v(enums@),
                mv == modules_v(ms@),
            decreases ws@.len() - k,
        {
            let ghost rest = wv.subrange(k as int, wv.len() as int);
            assert(rest.drop_first() =~= wv.subrange(k + 1, wv.len() as int));
            assert(rest[0] == wv[k as int]);
            assert(ws@[k as int]@ == wv[k as int]);
            assert(wv[k as int].len() < n - 1);
            let t = match resolve_type(&ws[k], structs, enums, ms) {
                Ok(t) => t,
                Err(e) => {
                    proof {
                        assert(resolve_list(rest, n - 1, sv, ev, mv) == Err::<Seq<TypeV>, Seq<char>>(e.message@));
                        assert(resolve_list(wv, n - 1, sv, ev, mv) == Err::<Seq<TypeV>, Seq<char>>(e.message@));
                    }
                    return Err(e);
                },
            };
            let ghost before = elements@;
            let ghost tv = t@;
            elements.push(t);
            proof {
                assert(elements@.drop_last() =~= before);
                assert(types_v(elements@) == types_v(before).push(tv));
                match resolve_list(rest.drop_first(), n - 1, sv, ev, mv) {
                    Err(e) => {},
                    Ok(ts) => {
                        assert(types_v(before) + (seq![tv] + ts) =~= types_v(elements@) + ts);
                    },
                }
            }
            k = k + 1;
        }
        proof {
            assert(wv.subrange(k as int, wv.len() as int) =~= Seq::<Seq<char>>::empty());
            assert(types_v(elements@) + Seq::<TypeV>::empty() =~= types_v(elements@));
        }
        return Ok(Type::Tuple { elements });
    }
    if text_is(name, "Int") || text_is(name, "I") {
        return Ok(Type::Int);
    }
    if text_is(name, "Float") || text_is(name, "F") {
        return Ok(Type::Float);
    }
    if text_is(name, "Bool") || text_is(name, "B") {
        return Ok(Type::Bool);
    }
    if text_is(name, "String") || text_is(name, "S") {
        return Ok(Type::String);
    }
    if text_is(name, "HttpRequest") || text_is(name, "HR") {
        return Ok(Type::HttpRequest);
    }
    if text_is(name, "HttpServer") || text_is(name, "HS") {
        return Ok(Type::HttpServer);
    }
    if text_is(name, "Map") || text_is(name, "M") {
        return Ok(Type::Mapping);
    }
    if wraps_chars(&cs, "Array<") {
        let h = "Array<".unicode_len();
        let inner = string_of_chars(&cs, h, n - 1);
        return match resolve_type(&inner, structs, enums, ms) {
            Ok(t) => Ok(Type::Array { inner: Box::new(t) }),
            Err(e) => Err(e),
        };
    }
    if wraps_chars(&cs, "R<") {
        let h = "R<".unicode_len();
        let inner = string_of_chars(&cs, h, n - 1);
        return match resolve_type(&inner, structs, enums, ms) {
            Ok(t) => Ok(Type::Result { inner: Box::new(t) }),
            Err(e) => Err(e),
        };
    }
    if wraps_chars(&cs, "Result<") {
        let h = "Result<".unicode_len();
        let inner = string_of_chars(&cs, h, n - 1);
        return match resolve_type(&inner, structs, enums, ms) {
            Ok(t) => Ok(Type::Result { inner: Box::new(t) }),
            Err(e) => Err(e),
        };
    }
    let si = find_key(structs, name);
    proof {
        lemma_key_index_is(sv, name@, si as int);
    }
    if si < structs.len() {
        return Ok(Type::Struct { name: name.clone(), fields: clone_fields(&structs[si].1) });
    }
    let ei = find_key(enums, name);
    proof {
        lemma_key_index_is(ev, name@, ei as int);
    }
    if ei < enums.len() {
        return Ok(Type::Enum { name: name.clone(), variants: clone_variants(&enums[ei].1) });
    }
    match find_type_in_modules(ms, name) {
        Some(t) => Ok(t),
        None => Err(unknown_type_error(name)),
    }
}


/// The registries an expression is checked against, with the return type
/// of the function being checked.
pub struct Env<'a> {
    pub fns: &'a Vec<(String, FunctionSignature)>,
    pub ret: Type,
    pub structs: &'a Vec<(String, Vec<(String, Type)>)>,
    pub enums: &'a Vec<(String, Vec<(String, Vec<Type>)>)>,
    pub methods: &'a Vec<((String, String), FunctionSignature)>,
    pub generics: &'a Vec<(String, GenericFnInfo)>,
    pub traits: &'a Vec<(String, Vec<(String, Vec<Type>, Type)>)>,
    pub modules: &'a Vec<(String, ModuleExports)>,
}

pub open spec fn methods_reg_v(s: Seq<((String, String), FunctionSignature)>) -> Seq<((Seq<char>, Seq<char>), SigV)> {
    s.map_values(|e: ((String, String), FunctionSignature)| ((e.0.0@, e.0.1@), e.1@))
}

pub open spec fn generics_reg_v(s: Seq<(String, GenericFnInfo)>) -> Seq<(Seq<char>, GenericFnInfoV)> {
    s.map_values(|e: (String, GenericFnInfo)| (e.0@, e.1@))
}

pub open spec fn trait_sigs_v(s: Seq<(String, Vec<Type>, Type)>) -> Seq<(Seq<char>, Seq<TypeV>, TypeV)> {
    s.map_values(|m: (String, Vec<Type>, Type)| (m.0@, types_v(m.1@), m.2@))
}

pub open spec fn traits_reg_v(s: Seq<(String, Vec<(String, Vec<Type>, Type)>)>) -> Seq<(Seq<char>, Seq<(Seq<char>, Seq<TypeV>, TypeV)>)> {
    s.map_values(|e: (String, Vec<(String, Vec<Type>, Type)>)| (e.0@, trait_sigs_v(e.1@)))
}

impl<'a> Env<'a> {
    pub open spec fn view(&self) -> EnvV {
        EnvV {
            fns: sigs_reg_v(self.fns@),
            ret: self.ret@,
            structs: structs_reg_v(self.structs@),
            enums: enums_reg_v(self.enums@),
            methods: methods_reg_v(self.methods@),
            generics: generics_reg_v(self.generics@),
            traits: traits_reg_v(self.traits@),
            modules: modules_v(self.modules@),
        }
    }
}

/// The locals of a function body.
pub type Locals = Vec<(String, (Type, bool))>;

pub open spec fn locals_v(s: Seq<(String, (Type, bool))>) -> LocalsV {
    s.map_values(|e: (String, (Type, bool))| (e.0@, (e.1.0@, e.1.1)))
}

/// The index of the first entry with the key pair `(a, b)`, or the length.
pub fn find_key2<V>(s: &Vec<((String, String), V)>, a: &String, b: &String) -> (r: usize)
    ensures
        r <= s@.len(),
        forall|j: int| 0 <= j < r ==> !((#[trigger] s@[j]).0.0@ == a@ && s@[j].0.1@ == b@),
        r < s@.len() ==> s@[r as int].0.0@ == a@ && s@[r as int].0.1@ == b@,
{
    let mut i: usize = 0;
    while i < s.len()
        invariant
            i <= s@.len(),
            forall|j: int| 0 <= j < i ==> !((#[trigger] s@[j]).0.0@ == a@ && s@[j].0.1@ == b@),
        decreases s@.len() - i,
    {
        if s[i].0.0 == *a && s[i].0.1 == *b {
            return i;
        }
        i = i + 1;
    }
    i
}

/// An index that holds the key pair, with no earlier index holding it, is
/// where `lookup` finds it.
pub proof fn lemma_key_index_is2<V>(s: Seq<((Seq<char>, Seq<char>), V)>, k: (Seq<char>, Seq<char>), i: int)
    requires
        0 <= i <= s.len(),
        forall|j: int| 0 <= j < i ==> s[j].0 != k,
        i < s.len() ==> s[i].0 == k,
    ensures
        lookup(s, k) == if i < s.len() {
            Some(s[i].1)
        } else {
            None::<V>
        },
    decreases s.len(),
{
    crate::typeck_spec::lemma_key_index(s, k);
    let r = key_index(s, k);
    if r < i {
        assert(s[r].0 == k);
    } else if i < r {
        assert(s[i].0 != k);
    }
}

/// The locals with `name` bound to `(t, m)`: its first entry gets the
/// value, or a new entry is added.
pub fn locals_insert(l: &mut Locals, name: String, t: Type, m: bool)
    ensures
        locals_v(final(l)@) == crate::typeck_spec::assoc_insert(locals_v(old(l)@), name@, (t@, m)),
{
    let i = find_key(l, &name);
    proof {
        lemma_key_index_is(locals_v(l@), name@, i as int);
    }
    let ghost lv = locals_v(l@);
    if i < l.len() {
        l.set(i, (name, (t, m)));
        assert(locals_v(l@) =~= lv.update(i as int, (lv[i as int].0, (t@, m))));
    } else {
        l.push((name, (t, m)));
        assert(locals_v(l@) =~= lv.push((name@, (t@, m))));
    }
}

/// A copy of the locals.
pub fn clone_locals(l: &Locals) -> (r: Locals)
    ensures
        locals_v(r@) == locals_v(l@),
{
    let mut out: Locals = Vec::new();
    let mut i: usize = 0;
    while i < l.len()
        invariant
            i <= l@.len(),
            locals_v(out@) == locals_v(l@).subrange(0, i as int),
        decreases l@.len() - i,
    {
        let n = l[i].0.clone();
        let t = clone_type(&l[i].1.0);
        let m = l[i].1.1;
        let ghost before = out@;
        out.push((n, (t, m)));
        assert(locals_v(out@) =~= locals_v(before).push((n@, (t@, m))));
        assert(locals_v(l@).subrange(0, i + 1) =~= locals_v(l@).subrange(0, i as int).push(locals_v(l@)[i as int]));
        i = i + 1;
    }
    assert(locals_v(l@).subrange(0, l@.len() as int) =~= locals_v(l@));
    out
}

/// Type-checks a program: what it exports, or the first error found.  The
/// program must have a `main` function.
pub fn check(program: &crate::ast::Program, module_exports: &Vec<(String, ModuleExports)>) -> (r: Result<
    ModuleExports,
    TypeError,
>)
    requires
        crate::program::program_checkable(program),
    ensures
        match r {
            Ok(x) => crate::program_spec::check_program(program@, modules_v(module_exports@), true) == Ok::<ModuleExportsV, Seq<char>>(x@),
            Err(e) => crate::program_spec::check_program(program@, modules_v(module_exports@), true) == Err::<ModuleExportsV, Seq<char>>(e.message@),
        },
{
    crate::program::check_program_exec(program, module_exports, true)
}

/// Type-checks a library module: as `check`, but no `main` is needed.
pub fn check_module(program: &crate::ast::Program, module_exports: &Vec<(String, ModuleExports)>) -> (r: Result<
    ModuleExports,
    TypeError,
>)
    requires
        crate::program::program_checkable(program),
    ensures
        match r {
            Ok(x) => crate::program_spec::check_program(program@, modules_v(module_exports@), false) == Ok::<ModuleExportsV, Seq<char>>(x@),
            Err(e) => crate::program_spec::check_program(program@, modules_v(module_exports@), false) == Err::<ModuleExportsV, Seq<char>>(e.message@),
        },
{
    crate::program::check_program_exec(program, module_exports, false)
}

} // verus!
