//! The IR's operators and value types, and the IR type of a checked type.
use vstd::prelude::*;
use crate::types::{Type, TypeV, types_v, lemma_types_v};

verus! {

/// Arithmetic operators of the IR.
#[derive(Debug, Clone, Copy, PartialEq, Eq, Structural)]
pub enum IrBinOp {
    Add,
    Sub,
    Mul,
    Div,
    Mod,
}

/// Comparison operators of the IR.
#[derive(Debug, Clone, Copy, PartialEq, Eq, Structural)]
pub enum IrCmpOp {
    Eq,
    NotEq,
    Lt,
    Gt,
    LtEq,
    GtEq,
}

/// The type of an IR value.
#[derive(Debug)]
pub enum IrType {
    Int,
    Float,
    Bool,
    Str,
    Struct(String),
    Enum(String),
    Sender,
    Receiver,
    JoinHandle,
    Mutex,
    Array(Box<IrType>),
    JsonValue,
    HttpResponse,
    Result(Box<IrType>),
    HttpServer,
    HttpRequest,
    Tuple(Vec<IrType>),
    Mapping,
}

/// The mathematical value of an IR type.
pub enum IrTypeV {
    Int,
    Float,
    Bool,
    Str,
    Struct(Seq<char>),
    Enum(Seq<char>),
    Sender,
    Receiver,
    JoinHandle,
    Mutex,
    Array(Box<IrTypeV>),
    JsonValue,
    HttpResponse,
    Result(Box<IrTypeV>),
    HttpServer,
    HttpRequest,
    Tuple(Seq<IrTypeV>),
    Mapping,
}

pub open spec fn ir_type_v(t: IrType) -> IrTypeV
    decreases t,
{
    match t {
        IrType::Int => IrTypeV::Int,
        IrType::Float => IrTypeV::Float,
        IrType::Bool => IrTypeV::Bool,
        IrType::Str => IrTypeV::Str,
        IrType::Struct(n) => IrTypeV::Struct(n@),
        IrType::Enum(n) => IrTypeV::Enum(n@),
        IrType::Sender => IrTypeV::Sender,
        IrType::Receiver => IrTypeV::Receiver,
        IrType::JoinHandle => IrTypeV::JoinHandle,
        IrType::Mutex => IrTypeV::Mutex,
        IrType::Array(inner) => IrTypeV::Array(Box::new(ir_type_v(*inner))),
        IrType::JsonValue => IrTypeV::JsonValue,
        IrType::HttpResponse => IrTypeV::HttpResponse,
        IrType::Result(inner) => IrTypeV::Result(Box::new(ir_type_v(*inner))),
        IrType::HttpServer => IrTypeV::HttpServer,
        IrType::HttpRequest => IrTypeV::HttpRequest,
        IrType::Tuple(ts) => IrTypeV::Tuple(ir_types_v(ts@)),
        IrType::Mapping => IrTypeV::Mapping,
    }
}

pub open spec fn ir_types_v(s: Seq<IrType>) -> Seq<IrTypeV>
    decreases s,
{
    if s.len() == 0 {
        Seq::empty()
    } else {
        ir_types_v(s.drop_last()).push(ir_type_v(s.last()))
    }
}

impl View for IrType {
    type V = IrTypeV;

    open spec fn view(&self) -> IrTypeV {
        ir_type_v(*self)
    }
}

/// The IR type that values of a checked type have when a function returns
/// them.  Types the IR has no type of its own for (functions, channels,
/// handles, mutexes) are carried as integers; an error-only result is a
/// result of an integer.
pub open spec fn ir_type_of(t: TypeV) -> IrTypeV
    decreases t,
{
    match t {
        TypeV::Int => IrTypeV::Int,
        TypeV::Float => IrTypeV::Float,
        TypeV::Bool => IrTypeV::Bool,
        TypeV::String => IrTypeV::Str,
        TypeV::Struct { name, .. } => IrTypeV::Struct(name),
        TypeV::Enum { name, .. } => IrTypeV::Enum(name),
        TypeV::Array { inner } => IrTypeV::Array(Box::new(ir_type_of(*inner))),
        TypeV::JsonValue => IrTypeV::JsonValue,
        TypeV::Mapping => IrTypeV::Mapping,
        TypeV::HttpResponse => IrTypeV::HttpResponse,
        TypeV::HttpServer => IrTypeV::HttpServer,
        TypeV::HttpRequest => IrTypeV::HttpRequest,
        TypeV::Result { inner } => IrTypeV::Result(Box::new(ir_type_of(*inner))),
        TypeV::ResultErr => IrTypeV::Result(Box::new(IrTypeV::Int)),
        TypeV::Tuple { elements } => IrTypeV::Tuple(ir_types_of(elements)),
        _ => IrTypeV::Int,
    }
}

pub open spec fn ir_types_of(s: Seq<TypeV>) -> Seq<IrTypeV>
    decreases s,
{
    if s.len() == 0 {
        Seq::empty()
    } else {
        ir_types_of(s.drop_last()).push(ir_type_of(s.last()))
    }
}

/// The IR type for a function's return type.
pub fn ir_type_for_return(ty: &Type) -> (r: IrType)
    ensures
        r@ == ir_type_of(ty@),
    decreases ty,
{
    let r = match ty {
        Type::Int => IrType::Int,
        Type::Float => IrType::Float,
        Type::Bool => IrType::Bool,
        Type::String => IrType::Str,
        Type::Struct { name, .. } => IrType::Struct(name.clone()),
        Type::Enum { name, .. } => IrType::Enum(name.clone()),
        Type::Array { inner } => IrType::Array(Box::new(ir_type_for_return(inner))),
        Type::JsonValue => IrType::JsonValue,
        Type::Mapping => IrType::Mapping,
        Type::HttpResponse => IrType::HttpResponse,
        Type::HttpServer => IrType::HttpServer,
        Type::HttpRequest => IrType::HttpRequest,
        Type::Result { inner } => IrType::Result(Box::new(ir_type_for_return(inner))),
        Type::ResultErr => IrType::Result(Box::new(IrType::Int)),
        Type::Tuple { elements } => IrType::Tuple(ir_types_for(elements)),
        _ => IrType::Int,
    };
    assert(r@ == ir_type_of(ty@));
    r
}


/// The IR types of a list of checked types, one for one.
fn ir_types_for(elements: &Vec<Type>) -> (r: Vec<IrType>)
    ensures
        ir_types_v(r@) == ir_types_of(types_v(elements@)),
    decreases elements,
{
    proof {
        lemma_types_v(elements@);
    }
    let mut out: Vec<IrType> = Vec::new();
    let mut i: usize = 0;
    while i < elements.len()
        invariant
            i <= elements.len(),
            types_v(elements@).len() == elements.len(),
            forall|j: int| 0 <= j < elements.len() ==> #[trigger] types_v(elements@)[j] == elements@[j]@,
            ir_types_v(out@) == ir_types_of(types_v(elements@).subrange(0, i as int)),
        decreases elements.len() - i,
    {
        proof {
            assert(decreases_to!(elements => elements@));
            assert(decreases_to!(elements@ => elements@[i as int]));
        }
        let e = ir_type_for_return(&elements[i]);
        let ghost before = out@;
        out.push(e);
        proof {
            let pre = types_v(elements@).subrange(0, i as int);
            let next = types_v(elements@).subrange(0, i + 1);
            assert(next.drop_last() =~= pre);
            assert(out@.drop_last() =~= before);
        }
        i = i + 1;
    }
    assert(types_v(elements@).subrange(0, elements.len() as int) =~= types_v(elements@));
    out
}

} // verus!
