//! The types of the type checker, their mathematical views, equality and
//! their text in messages.
use vstd::prelude::*;
use crate::text::{string_of, concat_str};

verus! {

/// A type of the language.
#[derive(Debug)]
pub enum Type {
    Int,
    Float,
    Bool,
    String,
    Struct { name: String, fields: Vec<(String, Type)> },
    Enum { name: String, variants: Vec<(String, Vec<Type>)> },
    Fn { params: Vec<Type>, ret: Box<Type> },
    Sender { inner: Box<Type> },
    Receiver { inner: Box<Type> },
    JoinHandle,
    Mutex { inner: Box<Type> },
    Array { inner: Box<Type> },
    JsonValue,
    HttpResponse,
    HttpServer,
    HttpRequest,
    Mapping,
    Result { inner: Box<Type> },
    ResultErr,
    Tuple { elements: Vec<Type> },
}

/// The mathematical value of a type.
pub enum TypeV {
    Int,
    Float,
    Bool,
    String,
    Struct { name: Seq<char>, fields: Seq<(Seq<char>, TypeV)> },
    Enum { name: Seq<char>, variants: Seq<(Seq<char>, Seq<TypeV>)> },
    Fn { params: Seq<TypeV>, ret: Box<TypeV> },
    Sender { inner: Box<TypeV> },
    Receiver { inner: Box<TypeV> },
    JoinHandle,
    Mutex { inner: Box<TypeV> },
    Array { inner: Box<TypeV> },
    JsonValue,
    HttpResponse,
    HttpServer,
    HttpRequest,
    Mapping,
    Result { inner: Box<TypeV> },
    ResultErr,
    Tuple { elements: Seq<TypeV> },
}

pub open spec fn type_v(t: Type) -> TypeV
    decreases t,
{
    match t {
        Type::Int => TypeV::Int,
        Type::Float => TypeV::Float,
        Type::Bool => TypeV::Bool,
        Type::String => TypeV::String,
        Type::Struct { name, fields } => TypeV::Struct { name: name@, fields: fields_tv(fields@) },
        Type::Enum { name, variants } => TypeV::Enum { name: name@, variants: variants_tv(variants@) },
        Type::Fn { params, ret } => TypeV::Fn { params: types_v(params@), ret: Box::new(type_v(*ret)) },
        Type::Sender { inner } => TypeV::Sender { inner: Box::new(type_v(*inner)) },
        Type::Receiver { inner } => TypeV::Receiver { inner: Box::new(type_v(*inner)) },
        Type::JoinHandle => TypeV::JoinHandle,
        Type::Mutex { inner } => TypeV::Mutex { inner: Box::new(type_v(*inner)) },
        Type::Array { inner } => TypeV::Array { inner: Box::new(type_v(*inner)) },
        Type::JsonValue => TypeV::JsonValue,
        Type::HttpResponse => TypeV::HttpResponse,
        Type::HttpServer => TypeV::HttpServer,
        Type::HttpRequest => TypeV::HttpRequest,
        Type::Mapping => TypeV::Mapping,
        Type::Result { inner } => TypeV::Result { inner: Box::new(type_v(*inner)) },
        Type::ResultErr => TypeV::ResultErr,
        Type::Tuple { elements } => TypeV::Tuple { elements: types_v(elements@) },
    }
}

pub open spec fn types_v(s: Seq<Type>) -> Seq<TypeV>
    decreases s,
{
    if s.len() == 0 {
        Seq::empty()
    } else {
        types_v(s.drop_last()).push(type_v(s.last()))
    }
}

pub open spec fn fields_tv(s: Seq<(String, Type)>) -> Seq<(Seq<char>, TypeV)>
    decreases s,
{
    if s.len() == 0 {
        Seq::empty()
    } else {
        fields_tv(s.drop_last()).push((s.last().0@, type_v(s.last().1)))
    }
}

pub open spec fn variants_tv(s: Seq<(String, Vec<Type>)>) -> Seq<(Seq<char>, Seq<TypeV>)>
    decreases s,
{
    if s.len() == 0 {
        Seq::empty()
    } else {
        variants_tv(s.drop_last()).push((s.last().0@, types_v(s.last().1@)))
    }
}

impl View for Type {
    type V = TypeV;

    open spec fn view(&self) -> TypeV {
        type_v(*self)
    }
}

/// The view of a sequence of types has its length and, at each index, the
/// view of the type there.
pub proof fn lemma_types_v(s: Seq<Type>)
    ensures
        types_v(s).len() == s.len(),
        forall|i: int| 0 <= i < s.len() ==> #[trigger] types_v(s)[i] == type_v(s[i]),
    decreases s.len(),
{
    if s.len() > 0 {
        lemma_types_v(s.drop_last());
        assert forall|i: int| 0 <= i < s.len() implies #[trigger] types_v(s)[i] == type_v(s[i]) by {
            if i < s.len() - 1 {
                assert(s.drop_last()[i] == s[i]);
            }
        }
    }
}

/// The view of struct fields has their length and, at each index, the
/// name and the view of the type there.
pub proof fn lemma_fields_tv(s: Seq<(String, Type)>)
    ensures
        fields_tv(s).len() == s.len(),
        forall|i: int| 0 <= i < s.len() ==> #[trigger] fields_tv(s)[i] == (s[i].0@, type_v(s[i].1)),
    decreases s.len(),
{
    if s.len() > 0 {
        lemma_fields_tv(s.drop_last());
        assert forall|i: int| 0 <= i < s.len() implies #[trigger] fields_tv(s)[i] == (s[i].0@, type_v(s[i].1)) by {
            if i < s.len() - 1 {
                assert(s.drop_last()[i] == s[i]);
            }
        }
    }
}

/// The view of enum variants has their length and, at each index, the name
/// and the views of the field types there.
pub proof fn lemma_variants_tv(s: Seq<(String, Vec<Type>)>)
    ensures
        variants_tv(s).len() == s.len(),
        forall|i: int| 0 <= i < s.len() ==> #[trigger] variants_tv(s)[i] == (s[i].0@, types_v(s[i].1@)),
    decreases s.len(),
{
    if s.len() > 0 {
        lemma_variants_tv(s.drop_last());
        assert forall|i: int| 0 <= i < s.len() implies #[trigger] variants_tv(s)[i] == (s[i].0@, types_v(s[i].1@)) by {
            if i < s.len() - 1 {
                assert(s.drop_last()[i] == s[i]);
            }
        }
    }
}

/// Whether two types are the same type.
pub fn type_eq(a: &Type, b: &Type) -> (r: bool)
    ensures
        r == (a@ == b@),
    decreases a,
{
    match (a, b) {
        (Type::Int, Type::Int) => true,
        (Type::Float, Type::Float) => true,
        (Type::Bool, Type::Bool) => true,
        (Type::String, Type::String) => true,
        (Type::JoinHandle, Type::JoinHandle) => true,
        (Type::JsonValue, Type::JsonValue) => true,
        (Type::HttpResponse, Type::HttpResponse) => true,
        (Type::HttpServer, Type::HttpServer) => true,
        (Type::HttpRequest, Type::HttpRequest) => true,
        (Type::Mapping, Type::Mapping) => true,
        (Type::ResultErr, Type::ResultErr) => true,
        (Type::Struct { name: n1, fields: f1 }, Type::Struct { name: n2, fields: f2 }) => {
            *n1 == *n2 && fields_eq(f1, f2)
        },
        (Type::Enum { name: n1, variants: v1 }, Type::Enum { name: n2, variants: v2 }) => {
            *n1 == *n2 && variants_eq(v1, v2)
        },
        (Type::Fn { params: p1, ret: r1 }, Type::Fn { params: p2, ret: r2 }) => {
            types_eq(p1, p2) && type_eq(r1, r2)
        },
        (Type::Sender { inner: i1 }, Type::Sender { inner: i2 }) => type_eq(i1, i2),
        (Type::Receiver { inner: i1 }, Type::Receiver { inner: i2 }) => type_eq(i1, i2),
        (Type::Mutex { inner: i1 }, Type::Mutex { inner: i2 }) => type_eq(i1, i2),
        (Type::Array { inner: i1 }, Type::Array { inner: i2 }) => type_eq(i1, i2),
        (Type::Result { inner: i1 }, Type::Result { inner: i2 }) => type_eq(i1, i2),
        (Type::Tuple { elements: e1 }, Type::Tuple { elements: e2 }) => types_eq(e1, e2),
        _ => false,
    }
}

/// Whether two type lists are the same, element by element.
pub fn types_eq(a: &Vec<Type>, b: &Vec<Type>) -> (r: bool)
    ensures
        r == (types_v(a@) == types_v(b@)),
    decreases a,
{
    proof {
        lemma_types_v(a@);
        lemma_types_v(b@);
    }
    if a.len() != b.len() {
        return false;
    }
    let mut i: usize = 0;
    while i < a.len()
        invariant
            a.len() == b.len(),
            i <= a.len(),
            types_v(a@).len() == a.len(),
            types_v(b@).len() == b.len(),
            forall|j: int| 0 <= j < a.len() ==> #[trigger] types_v(a@)[j] == type_v(a@[j]),
            forall|j: int| 0 <= j < b.len() ==> #[trigger] types_v(b@)[j] == type_v(b@[j]),
            forall|j: int| 0 <= j < i ==> types_v(a@)[j] == types_v(b@)[j],
        decreases a.len() - i,
    {
        proof {
            assert(decreases_to!(a => a@));
            assert(decreases_to!(a@ => a@[i as int]));
        }
        if !type_eq(&a[i], &b[i]) {
            assert(types_v(a@)[i as int] != types_v(b@)[i as int]);
            return false;
        }
        i = i + 1;
    }
    assert(types_v(a@) =~= types_v(b@));
    true
}

/// Whether two struct field lists are the same.
pub fn fields_eq(a: &Vec<(String, Type)>, b: &Vec<(String, Type)>) -> (r: bool)
    ensures
        r == (fields_tv(a@) == fields_tv(b@)),
    decreases a,
{
    proof {
        lemma_fields_tv(a@);
        lemma_fields_tv(b@);
    }
    if a.len() != b.len() {
        return false;
    }
    let mut i: usize = 0;
    while i < a.len()
        invariant
            a.len() == b.len(),
            i <= a.len(),
            fields_tv(a@).len() == a.len(),
            fields_tv(b@).len() == b.len(),
            forall|j: int| 0 <= j < a.len() ==> #[trigger] fields_tv(a@)[j] == (a@[j].0@, type_v(a@[j].1)),
            forall|j: int| 0 <= j < b.len() ==> #[trigger] fields_tv(b@)[j] == (b@[j].0@, type_v(b@[j].1)),
            forall|j: int| 0 <= j < i ==> fields_tv(a@)[j] == fields_tv(b@)[j],
        decreases a.len() - i,
    {
        proof {
            assert(decreases_to!(a => a@));
            assert(decreases_to!(a@ => a@[i as int]));
            assert(decreases_to!(a@[i as int] => a@[i as int].1));
        }
        if !(a[i].0 == b[i].0) || !type_eq(&a[i].1, &b[i].1) {
            assert(fields_tv(a@)[i as int] != fields_tv(b@)[i as int]);
            return false;
        }
        i = i + 1;
    }
    assert(fields_tv(a@) =~= fields_tv(b@));
    true
}

/// Whether two enum variant lists are the same.
pub fn variants_eq(a: &Vec<(String, Vec<Type>)>, b: &Vec<(String, Vec<Type>)>) -> (r: bool)
    ensures
        r == (variants_tv(a@) == variants_tv(b@)),
    decreases a,
{
    proof {
        lemma_variants_tv(a@);
        lemma_variants_tv(b@);
    }
    if a.len() != b.len() {
        return false;
    }
    let mut i: usize = 0;
    while i < a.len()
        invariant
            a.len() == b.len(),
            i <= a.len(),
            variants_tv(a@).len() == a.len(),
            variants_tv(b@).len() == b.len(),
            forall|j: int| 0 <= j < a.len() ==> #[trigger] variants_tv(a@)[j] == (a@[j].0@, types_v(a@[j].1@)),
            forall|j: int| 0 <= j < b.len() ==> #[trigger] variants_tv(b@)[j] == (b@[j].0@, types_v(b@[j].1@)),
            forall|j: int| 0 <= j < i ==> variants_tv(a@)[j] == variants_tv(b@)[j],
        decreases a.len() - i,
    {
        proof {
            assert(decreases_to!(a => a@));
            assert(decreases_to!(a@ => a@[i as int]));
            assert(decreases_to!(a@[i as int] => a@[i as int].1));
        }
        if !(a[i].0 == b[i].0) || !types_eq(&a[i].1, &b[i].1) {
            assert(variants_tv(a@)[i as int] != variants_tv(b@)[i as int]);
            return false;
        }
        i = i + 1;
    }
    assert(variants_tv(a@) =~= variants_tv(b@));
    true
}


/// The text of a type in messages.
pub open spec fn type_text(t: TypeV) -> Seq<char>
    decreases t,
{
    match t {
        TypeV::Int => "Int"@,
        TypeV::Float => "Float"@,
        TypeV::Bool => "Bool"@,
        TypeV::String => "String"@,
        TypeV::Struct { name, .. } => name,
        TypeV::Enum { name, .. } => name,
        TypeV::Fn { params, ret } => "Fn("@ + texts_joined(params) + ") -> "@ + type_text(*ret),
        TypeV::Sender { inner } => "Sender<"@ + type_text(*inner) + ">"@,
        TypeV::Receiver { inner } => "Receiver<"@ + type_text(*inner) + ">"@,
        TypeV::JoinHandle => "JoinHandle"@,
        TypeV::Mutex { inner } => "Mutex<"@ + type_text(*inner) + ">"@,
        TypeV::Array { inner } => "Array<"@ + type_text(*inner) + ">"@,
        TypeV::JsonValue => "JsonValue"@,
        TypeV::HttpResponse => "HttpResponse"@,
        TypeV::HttpServer => "HttpServer"@,
        TypeV::HttpRequest => "HttpRequest"@,
        TypeV::Mapping => "Map"@,
        TypeV::Result { inner } => "Result<"@ + type_text(*inner) + ">"@,
        TypeV::ResultErr => "Result<?>"@,
        TypeV::Tuple { elements } => "("@ + texts_joined(elements) + ")"@,
    }
}

/// The texts of types, separated by `, `.
pub open spec fn texts_joined(s: Seq<TypeV>) -> Seq<char>
    decreases s,
{
    if s.len() == 0 {
        Seq::empty()
    } else if s.len() == 1 {
        type_text(s[0])
    } else {
        texts_joined(s.drop_last()) + ", "@ + type_text(s.last())
    }
}

/// The text of a type, as `type_text` gives it.
pub fn type_to_string(t: &Type) -> (r: String)
    ensures
        r@ == type_text(t@),
    decreases t,
{
    match t {
        Type::Int => string_of("Int"),
        Type::Float => string_of("Float"),
        Type::Bool => string_of("Bool"),
        Type::String => string_of("String"),
        Type::Struct { name, .. } => name.clone(),
        Type::Enum { name, .. } => name.clone(),
        Type::Fn { params, ret } => {
            let ps = types_to_string(params);
            let rs = type_to_string(ret);
            concat_str(concat_str(concat_str(string_of("Fn("), ps.as_str()), ") -> "), rs.as_str())
        },
        Type::Sender { inner } => {
            let s = type_to_string(inner);
            concat_str(concat_str(string_of("Sender<"), s.as_str()), ">")
        },
        Type::Receiver { inner } => {
            let s = type_to_string(inner);
            concat_str(concat_str(string_of("Receiver<"), s.as_str()), ">")
        },
        Type::JoinHandle => string_of("JoinHandle"),
        Type::Mutex { inner } => {
            let s = type_to_string(inner);
            concat_str(concat_str(string_of("Mutex<"), s.as_str()), ">")
        },
        Type::Array { inner } => {
            let s = type_to_string(inner);
            concat_str(concat_str(string_of("Array<"), s.as_str()), ">")
        },
        Type::JsonValue => string_of("JsonValue"),
        Type::HttpResponse => string_of("HttpResponse"),
        Type::HttpServer => string_of("HttpServer"),
        Type::HttpRequest => string_of("HttpRequest"),
        Type::Mapping => string_of("Map"),
        Type::Result { inner } => {
            let s = type_to_string(inner);
            concat_str(concat_str(string_of("Result<"), s.as_str()), ">")
        },
        Type::ResultErr => string_of("Result<?>"),
        Type::Tuple { elements } => {
            let es = types_to_string(elements);
            concat_str(concat_str(string_of("("), es.as_str()), ")")
        },
    }
}

/// The texts of types separated by `, `, as `texts_joined` gives them.
pub fn types_to_string(ts: &Vec<Type>) -> (r: String)
    ensures
        r@ == texts_joined(types_v(ts@)),
    decreases ts,
{
    proof {
        lemma_types_v(ts@);
    }
    let mut out = String::new();
    let mut i: usize = 0;
    while i < ts.len()
        invariant
            i <= ts.len(),
            types_v(ts@).len() == ts.len(),
            forall|j: int| 0 <= j < ts.len() ==> #[trigger] types_v(ts@)[j] == type_v(ts@[j]),
            out@ == texts_joined(types_v(ts@).subrange(0, i as int)),
        decreases ts.len() - i,
    {
        proof {
            assert(decreases_to!(ts => ts@));
            assert(decreases_to!(ts@ => ts@[i as int]));
        }
        let t = type_to_string(&ts[i]);
        let ghost pre = types_v(ts@).subrange(0, i as int);
        let ghost next = types_v(ts@).subrange(0, i + 1);
        assert(next.drop_last() =~= pre);
        assert(next.last() == type_v(ts@[i as int]));
        if i == 0 {
            assert(next.len() == 1);
            out = t;
        } else {
            out = concat_str(concat_str(out, ", "), t.as_str());
        }
        i = i + 1;
    }
    assert(types_v(ts@).subrange(0, ts.len() as int) =~= types_v(ts@));
    out
}

} // verus!
