//! The checks of expressions and statements.
use vstd::prelude::*;
use crate::ast::{Param, Expr, Stmt, StmtV, MatchArm, BinOp, UnaryOp, expr_v, exprs_v, stmt_v, stmts_v, fields_v, arms_v, lemma_exprs_v, lemma_stmts_v, lemma_fields_v, lemma_arms_v};
use crate::types::{Type, TypeV, types_v, fields_tv, variants_tv, lemma_types_v, lemma_fields_tv, lemma_variants_tv, type_eq, type_text, type_to_string};
use crate::typeck_spec::{lambda_params, LocalsV, EnvV, lemma_key_index_is, allowed_by, passes, binop_type, unop_type, merge_branches, parse_index, digit_part, all_digits, digits_value, is_digit_char, fn_arg_result, zip_result, apply_plan_none, bind_from, missing_field, apply_plan, tc_module_call, tc_struct_fields, tc_arms, tc_expr, tc_stmt, tc_stmts};
use crate::typeck::{TypeError, Env, Locals, locals_v, sigs_reg_v, structs_reg_v, enums_reg_v, modules_v, find_key, clone_type, clone_types, clone_fields, clone_variants, types_compatible, usize_text, resolve_type, locals_insert, clone_locals};
use crate::plans::{Check, Plan, q_text, checks_for_params, checks_of_elements, plan_for_call, checks_v};

use crate::text::{string_of, concat_str};
use crate::calls::{check_args, check_call};

verus! {

/// An error with the given message.
pub fn fail<T>(message: String) -> (r: Result<T, TypeError>)
    ensures
        r matches Err(e) && e.message@ == message@,
{
    Err(TypeError::new(message))
}

/// Whether a code of `ArgCheckV` admits a type.
pub fn allowed_exec(allowed: u8, t: &Type) -> (r: bool)
    ensures
        r == allowed_by(allowed, t@),
{
    allowed == 0 || (allowed == 1 && matches!(t, Type::Int)) || (allowed == 2 && matches!(t, Type::String))
        || (allowed == 3 && matches!(t, Type::Float)) || (allowed == 4 && matches!(t, Type::Bool)) || (allowed
        == 5 && matches!(t, Type::JsonValue)) || (allowed == 6 && (matches!(t, Type::Int) || matches!(t, Type::String)
        || matches!(t, Type::Float) || matches!(t, Type::Bool)))
}

/// Whether an argument of type `t` passes the check.
pub fn passes_exec(c: &Check, t: &Type) -> (r: bool)
    ensures
        r == passes(c@, t@),
{
    if c.mode == 0 {
        true
    } else if c.mode == 1 {
        type_eq(t, &c.expected)
    } else if c.mode == 2 {
        types_compatible(t, &c.expected)
    } else if c.mode == 3 {
        type_eq(t, &c.expected) || (matches!(c.expected, Type::Int) && (matches!(t, Type::Sender { .. })
            || matches!(t, Type::Receiver { .. }) || matches!(t, Type::JoinHandle) || matches!(t, Type::Mutex { .. })))
    } else {
        allowed_exec(c.mask, t)
    }
}

/// The type of a binary operation.
fn binop_exec(op: BinOp, lt: Type, rt: Type) -> (r: Result<Type, TypeError>)
    ensures
        match r {
            Ok(t) => binop_type(op, lt@, rt@) == Ok::<TypeV, Seq<char>>(t@),
            Err(e) => binop_type(op, lt@, rt@) == Err::<TypeV, Seq<char>>(e.message@),
        },
{
    let arith = op == BinOp::Add || op == BinOp::Sub || op == BinOp::Mul || op == BinOp::Div || op == BinOp::Mod;
    let compare = op == BinOp::Eq || op == BinOp::NotEq || op == BinOp::Lt || op == BinOp::Gt || op == BinOp::LtEq
        || op == BinOp::GtEq;
    let li = matches!(lt, Type::Int);
    let ri = matches!(rt, Type::Int);
    let lf = matches!(lt, Type::Float);
    let rf = matches!(rt, Type::Float);
    let ls = matches!(lt, Type::String);
    let rs = matches!(rt, Type::String);
    let lb = matches!(lt, Type::Bool);
    let rb = matches!(rt, Type::Bool);
    if arith {
        if op == BinOp::Add && ls && rs {
            Ok(Type::String)
        } else if lf && rf {
            Ok(Type::Float)
        } else if !li {
            fail(concat_str(string_of("arithmetic operator requires Int operands, left operand is "), type_to_string(&lt).as_str()))
        } else if !ri {
            fail(concat_str(string_of("arithmetic operator requires Int operands, right operand is "), type_to_string(&rt).as_str()))
        } else {
            Ok(Type::Int)
        }
    } else if compare {
        if lf && rf {
            Ok(Type::Bool)
        } else if ls && rs {
            if op == BinOp::Eq || op == BinOp::NotEq {
                Ok(Type::Bool)
            } else {
                fail(string_of("String only supports == and != comparison"))
            }
        } else if lb && rb {
            if op == BinOp::Eq || op == BinOp::NotEq {
                Ok(Type::Bool)
            } else {
                fail(string_of("Bool only supports == and != comparison"))
            }
        } else if !li {
            fail(concat_str(string_of("comparison operator requires matching operands, left operand is "), type_to_string(&lt).as_str()))
        } else if !ri {
            fail(concat_str(string_of("comparison operator requires matching operands, right operand is "), type_to_string(&rt).as_str()))
        } else {
            Ok(Type::Bool)
        }
    } else {
        if !lb {
            fail(concat_str(string_of("boolean operator requires Bool operands, left operand is "), type_to_string(&lt).as_str()))
        } else if !rb {
            fail(concat_str(string_of("boolean operator requires Bool operands, right operand is "), type_to_string(&rt).as_str()))
        } else {
            Ok(Type::Bool)
        }
    }
}

/// The type of a unary operation.
fn unop_exec(op: UnaryOp, t: Type) -> (r: Result<Type, TypeError>)
    ensures
        match r {
            Ok(x) => unop_type(op, t@) == Ok::<TypeV, Seq<char>>(x@),
            Err(e) => unop_type(op, t@) == Err::<TypeV, Seq<char>>(e.message@),
        },
{
    match op {
        UnaryOp::Not => if !matches!(t, Type::Bool) {
            fail(concat_str(string_of("'!' operator requires Bool operand, got "), type_to_string(&t).as_str()))
        } else {
            Ok(Type::Bool)
        },
        UnaryOp::Neg => if !matches!(t, Type::Int) && !matches!(t, Type::Float) {
            fail(concat_str(string_of("'-' operator requires Int or Float operand, got "), type_to_string(&t).as_str()))
        } else {
            Ok(t)
        },
    }
}

/// The type of an if/else expression from the types of its branches.
fn merge_exec(tt: Type, et: Type) -> (r: Result<Type, TypeError>)
    ensures
        match r {
            Ok(x) => merge_branches(tt@, et@) == Ok::<TypeV, Seq<char>>(x@),
            Err(e) => merge_branches(tt@, et@) == Err::<TypeV, Seq<char>>(e.message@),
        },
{
    if type_eq(&tt, &et) {
        Ok(tt)
    } else if matches!(tt, Type::ResultErr) && matches!(et, Type::Result { .. }) {
        Ok(et)
    } else if matches!(tt, Type::Result { .. }) && matches!(et, Type::ResultErr) {
        Ok(tt)
    } else {
        let a = type_to_string(&tt);
        let b = type_to_string(&et);
        fail(concat_str(
            concat_str(concat_str(string_of("if/else branch type mismatch: then branch is "), a.as_str()), " but else branch is "),
            b.as_str(),
        ))
    }
}

/// The type of an expression, or the first error in it.
pub fn check_expr(e: &Expr, l: &Locals, env: &Env) -> (r: Result<Type, TypeError>)
    ensures
        match r {
            Ok(t) => tc_expr(e@, locals_v(l@), env.view()) == Ok::<TypeV, Seq<char>>(t@),
            Err(er) => tc_expr(e@, locals_v(l@), env.view()) == Err::<TypeV, Seq<char>>(er.message@),
        },
    decreases e, 2int,
{
    reveal_with_fuel(tc_expr, 1);
    match e {
        Expr::IntLiteral { .. } => Ok(Type::Int),
        Expr::FloatLiteral { .. } => Ok(Type::Float),
        Expr::StringLiteral { .. } => Ok(Type::String),
        Expr::BoolLiteral { .. } => Ok(Type::Bool),
        Expr::Identifier { name, .. } => {
            let i = find_key(l, name);
            proof {
                lemma_key_index_is(locals_v(l@), name@, i as int);
            }
            if i < l.len() {
                return Ok(clone_type(&l[i].1.0));
            }
            let j = find_key(&env.fns, name);
            proof {
                lemma_key_index_is(sigs_reg_v(env.fns@), name@, j as int);
            }
            if j < env.fns.len() {
                let sig = &env.fns[j].1;
                return Ok(Type::Fn { params: clone_types(&sig.params), ret: Box::new(clone_type(&sig.return_type)) });
            }
            fail(concat_str(string_of("undefined variable "), q_text(name.as_str()).as_str()))
        },
        Expr::BinaryOp { left, op, right, .. } => {
            let lt = match check_expr(left, l, env) {
                Ok(t) => t,
                Err(er) => return Err(er),
            };
            let rt = match check_expr(right, l, env) {
                Ok(t) => t,
                Err(er) => return Err(er),
            };
            binop_exec(*op, lt, rt)
        },
        Expr::UnaryOp { op, operand, .. } => {
            let t = match check_expr(operand, l, env) {
                Ok(t) => t,
                Err(er) => return Err(er),
            };
            unop_exec(*op, t)
        },
        Expr::MutexCreate { value, .. } => {
            let t = match check_expr(value, l, env) {
                Ok(t) => t,
                Err(er) => return Err(er),
            };
            Ok(Type::Mutex { inner: Box::new(t) })
        },
        Expr::ArrayCreate { element_type, .. } => match resolve_type(&element_type.name, &env.structs, &env.enums, env.modules) {
            Ok(inner) => Ok(Type::Array { inner: Box::new(inner) }),
            Err(er) => Err(er),
        },
        _ => check_compound(e, l, env),
    }
}

/// The type of an expression of the other forms.
fn check_compound(e: &Expr, l: &Locals, env: &Env) -> (r: Result<Type, TypeError>)
    requires
        !(e is IntLiteral || e is FloatLiteral || e is StringLiteral || e is BoolLiteral || e is Identifier
            || e is BinaryOp || e is UnaryOp || e is MutexCreate || e is ArrayCreate),
    ensures
        match r {
            Ok(t) => tc_expr(e@, locals_v(l@), env.view()) == Ok::<TypeV, Seq<char>>(t@),
            Err(er) => tc_expr(e@, locals_v(l@), env.view()) == Err::<TypeV, Seq<char>>(er.message@),
        },
    decreases e, 1int,
{
    reveal_with_fuel(tc_expr, 1);
    match e {
        Expr::If { .. } => check_if(e, l, env),
        Expr::Call { function, args, .. } => check_call(function, args, l, env),
        Expr::Spawn { .. } => check_spawn(e, l, env),
        Expr::ChannelCreate { .. } => check_channel(e, l, env),
        Expr::ArrayLiteral { .. } => check_array_literal(e, l, env),
        Expr::TupleLiteral { .. } => check_tuple_literal(e, l, env),
        Expr::Lambda { .. } => check_lambda(e, l, env),
        Expr::StructLiteral { .. } => check_struct_literal(e, l, env),
        Expr::FieldAccess { .. } => check_field_access(e, l, env),
        Expr::EnumVariant { .. } => check_enum_variant(e, l, env),
        Expr::Match { .. } => check_match(e, l, env),
        Expr::MethodCall { .. } => check_method_call(e, l, env),
        _ => fail(String::new()),
    }
}

/// An if/else expression.
fn check_if(e: &Expr, l: &Locals, env: &Env) -> (r: Result<Type, TypeError>)
    requires
        e is If,
    ensures
        match r {
            Ok(t) => tc_expr(e@, locals_v(l@), env.view()) == Ok::<TypeV, Seq<char>>(t@),
            Err(er) => tc_expr(e@, locals_v(l@), env.view()) == Err::<TypeV, Seq<char>>(er.message@),
        },
    decreases e, 0int,
{
    reveal_with_fuel(tc_expr, 1);
    match e {
        Expr::If { condition, then_body, then_expr, else_body, else_expr, .. } => {
            let c = match check_expr(condition, l, env) {
                Ok(t) => t,
                Err(er) => return Err(er),
            };
            if !matches!(c, Type::Bool) {
                return fail(concat_str(string_of("if condition must be Bool, got "), type_to_string(&c).as_str()));
            }
            let mut l1 = clone_locals(l);
            match check_stmts(then_body, &mut l1, env) {
                Ok(_) => {},
                Err(er) => return Err(er),
            }
            let tt = match check_expr(then_expr, &l1, env) {
                Ok(t) => t,
                Err(er) => return Err(er),
            };
            let mut l2 = clone_locals(l);
            match check_stmts(else_body, &mut l2, env) {
                Ok(_) => {},
                Err(er) => return Err(er),
            }
            let et = match check_expr(else_expr, &l2, env) {
                Ok(t) => t,
                Err(er) => return Err(er),
            };
            merge_exec(tt, et)
        },
        _ => fail(String::new()),
    }
}

/// A spawn of a function.
fn check_spawn(e: &Expr, l: &Locals, env: &Env) -> (r: Result<Type, TypeError>)
    requires
        e is Spawn,
    ensures
        match r {
            Ok(t) => tc_expr(e@, locals_v(l@), env.view()) == Ok::<TypeV, Seq<char>>(t@),
            Err(er) => tc_expr(e@, locals_v(l@), env.view()) == Err::<TypeV, Seq<char>>(er.message@),
        },
    decreases e, 0int,
{
    reveal_with_fuel(tc_expr, 1);
    match e {
        Expr::Spawn { function, args, .. } => {
            let j = find_key(&env.fns, function);
            proof {
                lemma_key_index_is(sigs_reg_v(env.fns@), function@, j as int);
            }
            let qf = q_text(function.as_str());
            if j >= env.fns.len() {
                return fail(concat_str(concat_str(string_of("undefined function "), qf.as_str()), " in spawn"));
            }
            let sig = &env.fns[j].1;
            proof {
                lemma_types_v(sig.params@);
                lemma_exprs_v(args@);
            }
            if args.len() != sig.params.len() {
                let n = usize_text(sig.params.len());
                let g = usize_text(args.len());
                return fail(concat_str(
                    concat_str(concat_str(concat_str(concat_str(string_of("wrong argument count calling "), qf.as_str()), ": expected "), n.as_str()), " but got "),
                    g.as_str(),
                ));
            }
            let checks = checks_for_params(&sig.params, 3, qf.as_str());
            match check_args(args, &checks, 0, l, env) {
                Ok(_) => Ok(Type::JoinHandle),
                Err(er) => Err(er),
            }
        },
        _ => fail(String::new()),
    }
}

/// A channel creation.
fn check_channel(e: &Expr, l: &Locals, env: &Env) -> (r: Result<Type, TypeError>)
    requires
        e is ChannelCreate,
    ensures
        match r {
            Ok(t) => tc_expr(e@, locals_v(l@), env.view()) == Ok::<TypeV, Seq<char>>(t@),
            Err(er) => tc_expr(e@, locals_v(l@), env.view()) == Err::<TypeV, Seq<char>>(er.message@),
        },
    decreases e, 0int,
{
    reveal_with_fuel(tc_expr, 1);
    match e {
        Expr::ChannelCreate { element_type, capacity, .. } => {
            match capacity {
                Some(c) => {
                    let ct = match check_expr(c, l, env) {
                        Ok(t) => t,
                        Err(er) => return Err(er),
                    };
                    if !matches!(ct, Type::Int) {
                        return fail(concat_str(string_of("channel capacity must be Int, got "), type_to_string(&ct).as_str()));
                    }
                },
                None => {},
            }
            match resolve_type(&element_type.name, &env.structs, &env.enums, env.modules) {
                Ok(inner) => Ok(Type::Sender { inner: Box::new(inner) }),
                Err(er) => Err(er),
            }
        },
        _ => fail(String::new()),
    }
}

/// An array literal.
fn check_array_literal(e: &Expr, l: &Locals, env: &Env) -> (r: Result<Type, TypeError>)
    requires
        e is ArrayLiteral,
    ensures
        match r {
            Ok(t) => tc_expr(e@, locals_v(l@), env.view()) == Ok::<TypeV, Seq<char>>(t@),
            Err(er) => tc_expr(e@, locals_v(l@), env.view()) == Err::<TypeV, Seq<char>>(er.message@),
        },
    decreases e, 0int,
{
    reveal_with_fuel(tc_expr, 1);
    match e {
        Expr::ArrayLiteral { elements, .. } => {
            proof {
                lemma_exprs_v(elements@);
            }
            if elements.len() == 0 {
                return fail(String::new());
            }
            proof {
                assert(decreases_to!(elements => elements@));
                assert(decreases_to!(elements@ => elements@[0]));
            }
            let first = match check_expr(&elements[0], l, env) {
                Ok(t) => t,
                Err(er) => return Err(er),
            };
            let checks = checks_of_elements(&first, elements.len());
            match check_args(elements, &checks, 1, l, env) {
                Ok(_) => Ok(Type::Array { inner: Box::new(first) }),
                Err(er) => Err(er),
            }
        },
        _ => fail(String::new()),
    }
}

/// A tuple literal: the types of its elements, in order.
fn check_tuple_literal(e: &Expr, l: &Locals, env: &Env) -> (r: Result<Type, TypeError>)
    requires
        e is TupleLiteral,
    ensures
        match r {
            Ok(t) => tc_expr(e@, locals_v(l@), env.view()) == Ok::<TypeV, Seq<char>>(t@),
            Err(er) => tc_expr(e@, locals_v(l@), env.view()) == Err::<TypeV, Seq<char>>(er.message@),
        },
    decreases e, 0int,
{
    reveal_with_fuel(tc_expr, 1);
    match e {
        Expr::TupleLiteral { elements, .. } => {
            proof {
                assert(decreases_to!(e => elements));
            }
            let checks: Vec<Check> = Vec::new();
            assert(checks_v(checks@) =~= Seq::<crate::typeck_spec::CheckV>::empty());
            match check_args(elements, &checks, 0, l, env) {
                Ok(ts) => Ok(Type::Tuple { elements: ts }),
                Err(er) => Err(er),
            }
        },
        _ => fail(String::new()),
    }
}

/// The types of a lambda's parameters and the locals with them bound
/// (not assignable), or the first error.
fn lambda_param_locals(params: &Vec<Param>, l: &Locals, env: &Env) -> (r: Result<(Vec<Type>, Locals), TypeError>)
    ensures
        match r {
            Ok(p) => lambda_params(params@.map_values(|p: Param| p@), 0, env.view(), locals_v(l@), Seq::empty())
                == Ok::<(Seq<TypeV>, LocalsV), Seq<char>>((types_v(p.0@), locals_v(p.1@))),
            Err(er) => lambda_params(params@.map_values(|p: Param| p@), 0, env.view(), locals_v(l@), Seq::empty())
                == Err::<(Seq<TypeV>, LocalsV), Seq<char>>(er.message@),
        },
{
    let ghost pv = params@.map_values(|p: Param| p@);
    let ghost ev = env.view();
    let ghost l0 = locals_v(l@);
    let mut ll = clone_locals(l);
    let mut pts: Vec<Type> = Vec::new();
    assert(types_v(pts@) =~= Seq::<TypeV>::empty());
    let mut i: usize = 0;
    while i < params.len()
        invariant
            i <= params@.len(),
            pv == params@.map_values(|p: Param| p@),
            ev == env.view(),
            l0 == locals_v(l@),
            lambda_params(pv, 0, ev, l0, Seq::empty()) == lambda_params(pv, i as int, ev, locals_v(ll@), types_v(pts@)),
        decreases params@.len() - i,
    {
        assert(pv[i as int] == params@[i as int]@);
        let t = match resolve_type(&params[i].ty_name.name, env.structs, env.enums, env.modules) {
            Ok(t) => t,
            Err(er) => return Err(er),
        };
        let t2 = clone_type(&t);
        let ghost before = pts@;
        pts.push(t);
        assert(pts@.drop_last() =~= before);
        locals_insert(&mut ll, params[i].name.clone(), t2, false);
        i = i + 1;
    }
    Ok((pts, ll))
}

/// A lambda: its parameter types and return type, with its body checked
/// in a copy of the locals extended by the parameters, against its own
/// return type.
fn check_lambda(e: &Expr, l: &Locals, env: &Env) -> (r: Result<Type, TypeError>)
    requires
        e is Lambda,
    ensures
        match r {
            Ok(t) => tc_expr(e@, locals_v(l@), env.view()) == Ok::<TypeV, Seq<char>>(t@),
            Err(er) => tc_expr(e@, locals_v(l@), env.view()) == Err::<TypeV, Seq<char>>(er.message@),
        },
    decreases e, 0int,
{
    reveal_with_fuel(tc_expr, 1);
    match e {
        Expr::Lambda { params, return_type, body, .. } => {
            let (pts, mut ll) = match lambda_param_locals(params, l, env) {
                Ok(p) => p,
                Err(er) => return Err(er),
            };
            let rt = match resolve_type(&return_type.name, env.structs, env.enums, env.modules) {
                Ok(t) => t,
                Err(er) => return Err(er),
            };
            let env2 = Env {
                fns: env.fns,
                ret: clone_type(&rt),
                structs: env.structs,
                enums: env.enums,
                methods: env.methods,
                generics: env.generics,
                traits: env.traits,
                modules: env.modules,
            };
            assert(env2.view() == EnvV { ret: rt@, ..env.view() });
            proof {
                assert(decreases_to!(*e => *body));
            }
            match check_stmts(body, &mut ll, &env2) {
                Ok(_) => Ok(Type::Fn { params: pts, ret: Box::new(rt) }),
                Err(er) => Err(er),
            }
        },
        _ => fail(String::new()),
    }
}

/// The first field of a struct definition that a literal does not give.
fn find_missing_field(ef: &Vec<(String, Type)>, fields: &Vec<(String, Expr)>) -> (r: Option<String>)
    ensures
        match r {
            Some(n) => missing_field(fields_tv(ef@), 0, fields_v(fields@)) == Some(n@),
            None => missing_field(fields_tv(ef@), 0, fields_v(fields@)) == None::<Seq<char>>,
        },
{
    let ghost ev = fields_tv(ef@);
    let ghost fv = fields_v(fields@);
    proof {
        lemma_fields_tv(ef@);
        lemma_fields_v(fields@);
    }
    let mut j: usize = 0;
    while j < ef.len()
        invariant
            j <= ef@.len(),
            ev == fields_tv(ef@),
            fv == fields_v(fields@),
            ev.len() == ef@.len(),
            fv.len() == fields@.len(),
            forall|a: int| 0 <= a < ef@.len() ==> #[trigger] ev[a] == (ef@[a].0@, ef@[a].1@),
            forall|a: int| 0 <= a < fields@.len() ==> #[trigger] fv[a] == (fields@[a].0@, expr_v(fields@[a].1)),
            missing_field(ev, 0, fv) == missing_field(ev, j as int, fv),
        decreases ef@.len() - j,
    {
        let mut k: usize = 0;
        let mut found = false;
        while k < fields.len()
            invariant
                j < ef@.len(),
                k <= fields@.len(),
                fv == fields_v(fields@),
                ev == fields_tv(ef@),
                fv.len() == fields@.len(),
                forall|a: int| 0 <= a < ef@.len() ==> #[trigger] ev[a] == (ef@[a].0@, ef@[a].1@),
                forall|a: int| 0 <= a < fields@.len() ==> #[trigger] fv[a] == (fields@[a].0@, expr_v(fields@[a].1)),
                found ==> exists|a: int| 0 <= a < fv.len() && #[trigger] fv[a].0 == ev[j as int].0,
                !found ==> forall|a: int| 0 <= a < k ==> #[trigger] fv[a].0 != ev[j as int].0,
            decreases fields@.len() - k,
        {
            if fields[k].0 == ef[j].0 {
                found = true;
                assert(fv[k as int].0 == ev[j as int].0);
            }
            k = k + 1;
        }
        if !found {
            return Some(ef[j].0.clone());
        }
        j = j + 1;
    }
    None
}

/// The fields of a struct literal, against the definition `ef`.
fn check_struct_fields(sname: &String, ef: &Vec<(String, Type)>, fields: &Vec<(String, Expr)>, l: &Locals, env: &Env) -> (r: Result<(), TypeError>)
    ensures
        match r {
            Ok(_) => tc_struct_fields(sname@, fields_tv(ef@), fields_v(fields@), 0, locals_v(l@), env.view()) == Ok::<(), Seq<char>>(()),
            Err(er) => tc_struct_fields(sname@, fields_tv(ef@), fields_v(fields@), 0, locals_v(l@), env.view()) == Err::<(), Seq<char>>(er.message@),
        },
    decreases fields, 0int,
{
    reveal_with_fuel(tc_expr, 1);
    let ghost efv = fields_tv(ef@);
    let ghost fv = fields_v(fields@);
    let ghost lv = locals_v(l@);
    let ghost ev = env.view();
    proof {
        lemma_fields_tv(ef@);
        lemma_fields_v(fields@);
    }
    let mut i: usize = 0;
    while i < fields.len()
        invariant
            i <= fields@.len(),
            efv == fields_tv(ef@),
            fv == fields_v(fields@),
            lv == locals_v(l@),
            ev == env.view(),
            fv.len() == fields@.len(),
            forall|a: int| 0 <= a < fields@.len() ==> #[trigger] fv[a] == (fields@[a].0@, expr_v(fields@[a].1)),
            efv.len() == ef@.len(),
            forall|a: int| 0 <= a < ef@.len() ==> #[trigger] efv[a] == (ef@[a].0@, ef@[a].1@),
            tc_struct_fields(sname@, efv, fv, 0, lv, ev) == tc_struct_fields(sname@, efv, fv, i as int, lv, ev),
        decreases fields@.len() - i,
    {
        reveal_with_fuel(tc_expr, 1);
        let fname = &fields[i].0;
        let fi = find_key(ef, fname);
        proof {
            lemma_key_index_is(efv, fname@, fi as int);
        }
        let qf = q_text(fname.as_str());
        let qs = q_text(sname.as_str());
        if fi >= ef.len() {
            return fail(concat_str(concat_str(concat_str(string_of("unknown field "), qf.as_str()), " on struct "), qs.as_str()));
        }
        let et = &ef[fi].1;
        proof {
            assert(decreases_to!(fields => fields@));
            assert(decreases_to!(fields@ => fields@[i as int]));
            assert(decreases_to!(fields@[i as int] => fields@[i as int].1));
        }
        let at = match check_expr(&fields[i].1, l, env) {
            Ok(t) => t,
            Err(er) => return Err(er),
        };
        if !type_eq(&at, et) {
            let ets = type_to_string(et);
            let ats = type_to_string(&at);
            let msg = concat_str(
                concat_str(
                    concat_str(
                        concat_str(concat_str(concat_str(concat_str(string_of("type mismatch for field "), qf.as_str()), " of struct "), qs.as_str()), ": expected "),
                        ets.as_str(),
                    ),
                    " but got ",
                ),
                ats.as_str(),
            );
            return fail(msg);
        }
        i = i + 1;
    }
    Ok(())
}

/// A struct literal.
fn check_struct_literal(e: &Expr, l: &Locals, env: &Env) -> (r: Result<Type, TypeError>)
    requires
        e is StructLiteral,
    ensures
        match r {
            Ok(t) => tc_expr(e@, locals_v(l@), env.view()) == Ok::<TypeV, Seq<char>>(t@),
            Err(er) => tc_expr(e@, locals_v(l@), env.view()) == Err::<TypeV, Seq<char>>(er.message@),
        },
    decreases e, 0int,
{
    reveal_with_fuel(tc_expr, 1);
    match e {
        Expr::StructLiteral { name, fields, .. } => {
            let si = find_key(&env.structs, name);
            proof {
                lemma_key_index_is(structs_reg_v(env.structs@), name@, si as int);
            }
            let qn = q_text(name.as_str());
            if si >= env.structs.len() {
                return fail(concat_str(string_of("undefined struct "), qn.as_str()));
            }
            let ef = &env.structs[si].1;
            match find_missing_field(ef, fields) {
                Some(n) => {
                    return fail(concat_str(
                        concat_str(concat_str(string_of("missing field "), q_text(n.as_str()).as_str()), " in struct "),
                        qn.as_str(),
                    ));
                },
                None => {},
            }
            match check_struct_fields(name, ef, fields, l, env) {
                Ok(_) => Ok(Type::Struct { name: name.clone(), fields: clone_fields(ef) }),
                Err(er) => Err(er),
            }
        },
        _ => fail(String::new()),
    }
}

/// What `str::parse::<usize>` gives for a text.
fn parse_index_exec(s: &String) -> (r: Option<usize>)
    ensures
        match r {
            Some(n) => parse_index(s@) == Some(n as nat),
            None => parse_index(s@) == None::<nat>,
        },
{
    let cs = crate::typeck::chars_of(s.as_str());
    let n = cs.len();
    let start: usize = if n > 0 && cs[0] == '+' { 1 } else { 0 };
    let ghost d = digit_part(s@);
    assert(d =~= cs@.subrange(start as int, n as int));
    if start >= n {
        return None;
    }
    let mut val: usize = 0;
    let mut i: usize = start;
    while i < n
        invariant
            start <= i <= n,
            start < n,
            n == cs@.len(),
            cs@ == s@,
            d == digit_part(s@),
            d == cs@.subrange(start as int, n as int),
            d.len() == n - start,
            forall|a: int| 0 <= a < i - start ==> is_digit_char(#[trigger] d[a]),
            val as nat == digits_value(d, i - start),
        decreases n - i,
    {
        let c = cs[i];
        assert(d[i - start] == c);
        if !('0' <= c && c <= '9') {
            proof {
                lemma_parse_index_none(s@, (i - start) as int);
            }
            return None;
        }
        let dg: usize = (c as u32 - '0' as u32) as usize;
        assert(dg == ((c as u32) - ('0' as u32)) as nat);
        assert(digits_value(d, i - start + 1) == digits_value(d, i - start) * 10 + dg);
        if val > (usize::MAX - dg) / 10 {
            proof {
                assert(val * 10 + dg > usize::MAX) by (nonlinear_arith)
                    requires
                        val > (usize::MAX - dg) / 10,
                        dg <= 9,
                ;
                lemma_parse_index_big(s@, (i - start + 1) as int);
            }
            return None;
        }
        proof {
            assert(val * 10 + dg <= usize::MAX) by (nonlinear_arith)
                requires
                    val <= (usize::MAX - dg) / 10,
                    dg <= 9,
            ;
        }
        val = val * 10 + dg;
        i = i + 1;
    }
    Some(val)
}

/// A text whose digit part holds a non-digit at `k` is no index.
proof fn lemma_parse_index_none(s: Seq<char>, k: int)
    requires
        0 <= k < digit_part(s).len(),
        !is_digit_char(digit_part(s)[k]),
    ensures
        parse_index(s) == None::<nat>,
{
}

/// A text whose first `k` digits already exceed `usize::MAX` is no index.
proof fn lemma_parse_index_big(s: Seq<char>, k: int)
    requires
        0 <= k <= digit_part(s).len(),
        digits_value(digit_part(s), k) > usize::MAX,
    ensures
        parse_index(s) == None::<nat>,
{
    let d = digit_part(s);
    if all_digits(d) {
        lemma_digits_grow(d, k, d.len() as int);
    }
}

/// The value of a longer run of digits is at least that of a shorter one.
proof fn lemma_digits_grow(d: Seq<char>, a: int, b: int)
    requires
        0 <= a <= b <= d.len(),
        all_digits(d),
    ensures
        digits_value(d, a) <= digits_value(d, b),
    decreases b - a,
{
    if a < b {
        lemma_digits_grow(d, a, b - 1);
        assert(is_digit_char(d[b - 1]));
    }
}

/// A plan applied to no arguments.
fn apply_plan_none_exec(plan: Plan) -> (r: Result<Type, TypeError>)
    ensures
        match r {
            Ok(t) => apply_plan_none(plan@) == Ok::<TypeV, Seq<char>>(t@),
            Err(er) => apply_plan_none(plan@) == Err::<TypeV, Seq<char>>(er.message@),
        },
{
    match plan {
        Plan::Simple { min, arity_msg, ret, .. } => if 0 < min {
            fail(arity_msg)
        } else {
            Ok(ret)
        },
        Plan::FnArg { arity_msg, .. } => fail(arity_msg),
        Plan::Zip { .. } => fail(string_of("zip() takes exactly 1 argument (array)")),
        Plan::Fail { message } => fail(message),
        Plan::User => fail(String::new()),
    }
}

/// A field access.
fn check_field_access(e: &Expr, l: &Locals, env: &Env) -> (r: Result<Type, TypeError>)
    requires
        e is FieldAccess,
    ensures
        match r {
            Ok(t) => tc_expr(e@, locals_v(l@), env.view()) == Ok::<TypeV, Seq<char>>(t@),
            Err(er) => tc_expr(e@, locals_v(l@), env.view()) == Err::<TypeV, Seq<char>>(er.message@),
        },
    decreases e, 0int,
{
    reveal_with_fuel(tc_expr, 1);
    match e {
        Expr::FieldAccess { object, field, .. } => {
            match &**object {
                Expr::Identifier { name, .. } => {
                    let mi = find_key(env.modules, name);
                    proof {
                        lemma_key_index_is(modules_v(env.modules@), name@, mi as int);
                    }
                    if mi < env.modules.len() {
                        return fail(concat_str(
                            concat_str(string_of("cannot access field on module "), q_text(name.as_str()).as_str()),
                            " — did you mean to call a function?",
                        ));
                    }
                },
                _ => {},
            }
            let ot = match check_expr(object, l, env) {
                Ok(t) => t,
                Err(er) => return Err(er),
            };
            match &ot {
                Type::Tuple { elements } => {
                    proof {
                        lemma_types_v(elements@);
                    }
                    match parse_index_exec(field) {
                        None => fail(concat_str(string_of("tuple access must use numeric index, got "), q_text(field.as_str()).as_str())),
                        Some(idx) => if idx >= elements.len() {
                            let a = usize_text(idx);
                            let b = usize_text(elements.len());
                            fail(concat_str(
                                concat_str(concat_str(concat_str(string_of("tuple index "), a.as_str()), " out of bounds, tuple has "), b.as_str()),
                                " elements",
                            ))
                        } else {
                            Ok(clone_type(&elements[idx]))
                        },
                    }
                },
                Type::Struct { name, fields } => {
                    let fi = find_key(fields, field);
                    proof {
                        lemma_fields_tv(fields@);
                        lemma_key_index_is(fields_tv(fields@), field@, fi as int);
                    }
                    if fi < fields.len() {
                        Ok(clone_type(&fields[fi].1))
                    } else {
                        fail(concat_str(
                            concat_str(concat_str(string_of("no field "), q_text(field.as_str()).as_str()), " on struct "),
                            q_text(name.as_str()).as_str(),
                        ))
                    }
                },
                _ => {
                    let plan = plan_for_call(&ot, field, 0, env);
                    apply_plan_none_exec(plan)
                },
            }
        },
        _ => fail(String::new()),
    }
}

/// An enum variant.
fn check_enum_variant(e: &Expr, l: &Locals, env: &Env) -> (r: Result<Type, TypeError>)
    requires
        e is EnumVariant,
    ensures
        match r {
            Ok(t) => tc_expr(e@, locals_v(l@), env.view()) == Ok::<TypeV, Seq<char>>(t@),
            Err(er) => tc_expr(e@, locals_v(l@), env.view()) == Err::<TypeV, Seq<char>>(er.message@),
        },
    decreases e, 0int,
{
    reveal_with_fuel(tc_expr, 1);
    match e {
        Expr::EnumVariant { enum_name, variant_name, args, .. } => {
            proof {
                lemma_exprs_v(args@);
            }
            let ei = find_key(&env.enums, enum_name);
            proof {
                lemma_key_index_is(enums_reg_v(env.enums@), enum_name@, ei as int);
            }
            let qe = q_text(enum_name.as_str());
            if ei >= env.enums.len() {
                return fail(concat_str(string_of("undefined enum "), qe.as_str()));
            }
            let vs = &env.enums[ei].1;
            let vi = find_key(vs, variant_name);
            proof {
                lemma_variants_tv(vs@);
                lemma_key_index_is(variants_tv(vs@), variant_name@, vi as int);
            }
            if vi >= vs.len() {
                return fail(concat_str(
                    concat_str(concat_str(string_of("unknown variant "), q_text(variant_name.as_str()).as_str()), " on enum "),
                    qe.as_str(),
                ));
            }
            let fts = &vs[vi].1;
            proof {
                lemma_types_v(fts@);
            }
            let ev = concat_str(concat_str(enum_name.clone(), "::"), variant_name.as_str());
            let qv = q_text(ev.as_str());
            if args.len() != fts.len() {
                let a = usize_text(fts.len());
                let b = usize_text(args.len());
                return fail(concat_str(
                    concat_str(concat_str(concat_str(concat_str(string_of("variant "), qv.as_str()), " expects "), a.as_str()), " argument(s) but got "),
                    b.as_str(),
                ));
            }
            let checks = checks_for_params(fts, 1, qv.as_str());
            match check_args(args, &checks, 0, l, env) {
                Ok(_) => Ok(Type::Enum { name: enum_name.clone(), variants: clone_variants(vs) }),
                Err(er) => Err(er),
            }
        },
        _ => fail(String::new()),
    }
}

/// The arms of a match over enum `en`.
fn check_arms(en: &String, vs: &Vec<(String, Vec<Type>)>, arms: &Vec<MatchArm>, l: &Locals, env: &Env) -> (r: Result<Type, TypeError>)
    ensures
        match r {
            Ok(t) => tc_arms(en@, variants_tv(vs@), arms_v(arms@), 0, None, locals_v(l@), env.view()) == Ok::<TypeV, Seq<char>>(t@),
            Err(er) => tc_arms(en@, variants_tv(vs@), arms_v(arms@), 0, None, locals_v(l@), env.view()) == Err::<TypeV, Seq<char>>(er.message@),
        },
    decreases arms, 0int,
{
    reveal_with_fuel(tc_expr, 1);
    let ghost vsv = variants_tv(vs@);
    let ghost av = arms_v(arms@);
    let ghost lv = locals_v(l@);
    let ghost ev = env.view();
    proof {
        lemma_arms_v(arms@);
        lemma_variants_tv(vs@);
    }
    let mut acc: Option<Type> = None;
    let mut i: usize = 0;
    while i < arms.len()
        invariant
            i <= arms@.len(),
            vsv == variants_tv(vs@),
            av == arms_v(arms@),
            lv == locals_v(l@),
            ev == env.view(),
            av.len() == arms@.len(),
            forall|a: int| 0 <= a < arms@.len() ==> #[trigger] av[a] == arms@[a]@,
            vsv.len() == vs@.len(),
            forall|a: int| 0 <= a < vs@.len() ==> #[trigger] vsv[a] == (vs@[a].0@, types_v(vs@[a].1@)),
            tc_arms(en@, vsv, av, 0, None, lv, ev) == tc_arms(en@, vsv, av, i as int, match acc {
                Some(t) => Some(t@),
                None => None,
            }, lv, ev),
        decreases arms@.len() - i,
    {
        reveal_with_fuel(tc_expr, 1);
        let arm = &arms[i];
        let (pe, pv, bindings) = match &arm.pattern {
            crate::ast::Pattern::EnumVariant { enum_name, variant_name, bindings, .. } => (enum_name, variant_name, bindings),
        };
        if !(*pe == *en) {
            return fail(concat_str(
                concat_str(concat_str(string_of("pattern enum "), q_text(pe.as_str()).as_str()), " does not match scrutinee enum "),
                q_text(en.as_str()).as_str(),
            ));
        }
        let vi = find_key(vs, pv);
        proof {
            lemma_key_index_is(vsv, pv@, vi as int);
        }
        if vi >= vs.len() {
            return fail(concat_str(
                concat_str(concat_str(string_of("unknown variant "), q_text(pv.as_str()).as_str()), " on enum "),
                q_text(en.as_str()).as_str(),
            ));
        }
        let fts = &vs[vi].1;
        proof {
            lemma_types_v(fts@);
        }
        if bindings.len() != fts.len() {
            let ev2 = concat_str(concat_str(en.clone(), "::"), pv.as_str());
            let a = usize_text(fts.len());
            let b = usize_text(bindings.len());
            return fail(concat_str(
                concat_str(concat_str(concat_str(concat_str(string_of("pattern "), q_text(ev2.as_str()).as_str()), " expects "), a.as_str()), " binding(s) but got "),
                b.as_str(),
            ));
        }
        let mut arm_locals = clone_locals(l);
        let mut k: usize = 0;
        let ghost bv = crate::ast::strings_v(bindings@);
        let ghost ftv = types_v(fts@);
        while k < bindings.len()
            invariant
                k <= bindings@.len(),
                bindings@.len() == fts@.len(),
                bv == crate::ast::strings_v(bindings@),
                ftv == types_v(fts@),
                ftv.len() == fts@.len(),
                forall|a: int| 0 <= a < fts@.len() ==> #[trigger] ftv[a] == fts@[a]@,
                bind_from(lv, bv, ftv, 0) == bind_from(locals_v(arm_locals@), bv, ftv, k as int),
            decreases bindings@.len() - k,
        {
            locals_insert(&mut arm_locals, bindings[k].clone(), clone_type(&fts[k]), false);
            k = k + 1;
        }
        proof {
            assert(decreases_to!(arms => arms@));
            assert(decreases_to!(arms@ => arms@[i as int]));
            assert(decreases_to!(arms@[i as int] => arms@[i as int].body));
        }
        let at = match check_expr(&arm.body, &arm_locals, env) {
            Ok(t) => t,
            Err(er) => return Err(er),
        };
        match &acc {
            Some(exp) => {
                if !type_eq(&at, exp) {
                    let a = type_to_string(exp);
                    let b = type_to_string(&at);
                    return fail(concat_str(concat_str(concat_str(string_of("match arm type mismatch: expected "), a.as_str()), " but got "), b.as_str()));
                }
            },
            None => {
                acc = Some(at);
            },
        }
        i = i + 1;
    }
    match acc {
        Some(t) => Ok(t),
        None => fail(string_of("match expression has no arms")),
    }
}

/// A match expression.
fn check_match(e: &Expr, l: &Locals, env: &Env) -> (r: Result<Type, TypeError>)
    requires
        e is Match,
    ensures
        match r {
            Ok(t) => tc_expr(e@, locals_v(l@), env.view()) == Ok::<TypeV, Seq<char>>(t@),
            Err(er) => tc_expr(e@, locals_v(l@), env.view()) == Err::<TypeV, Seq<char>>(er.message@),
        },
    decreases e, 0int,
{
    reveal_with_fuel(tc_expr, 1);
    match e {
        Expr::Match { scrutinee, arms, .. } => {
            let st = match check_expr(scrutinee, l, env) {
                Ok(t) => t,
                Err(er) => return Err(er),
            };
            match &st {
                Type::Enum { name, variants } => check_arms(name, variants, arms, l, env),
                _ => fail(concat_str(string_of("match scrutinee must be an enum type, got "), type_to_string(&st).as_str())),
            }
        },
        _ => fail(String::new()),
    }
}

/// The result of a function argument of type `t` under a `FnArg` plan.
fn fn_arg_exec(t: &Type, inner: &Type, needs_bool: bool, head: &String, result: u8) -> (r: Result<Type, TypeError>)
    ensures
        match r {
            Ok(x) => fn_arg_result(t@, inner@, needs_bool, head@, result) == Ok::<TypeV, Seq<char>>(x@),
            Err(er) => fn_arg_result(t@, inner@, needs_bool, head@, result) == Err::<TypeV, Seq<char>>(er.message@),
        },
{
    let ts = type_to_string(t);
    let msg = concat_str(head.clone(), ts.as_str());
    match t {
        Type::Fn { params, ret } => {
            proof {
                lemma_types_v(params@);
            }
            let ok = params.len() == 1 && type_eq(&params[0], inner) && (!needs_bool || type_eq(ret, &Type::Bool));
            assert(ok == (types_v(params@).len() == 1 && types_v(params@)[0] == inner@ && (!needs_bool || (**ret)@ == TypeV::Bool)));
            if ok {
                if result == 0 {
                    Ok(Type::Array { inner: Box::new(clone_type(ret)) })
                } else if result == 1 {
                    Ok(Type::Array { inner: Box::new(clone_type(inner)) })
                } else if result == 2 {
                    Ok(Type::Bool)
                } else {
                    Ok(clone_type(inner))
                }
            } else {
                fail(msg)
            }
        },
        _ => fail(msg),
    }
}

/// The result of a `zip` argument of type `t`.
fn zip_exec(t: Type, inner: Type) -> (r: Result<Type, TypeError>)
    ensures
        match r {
            Ok(x) => zip_result(t@, inner@) == Ok::<TypeV, Seq<char>>(x@),
            Err(er) => zip_result(t@, inner@) == Err::<TypeV, Seq<char>>(er.message@),
        },
{
    let ts = type_to_string(&t);
    match t {
        Type::Array { inner: b } => {
            let ghost iv = inner@;
            let ghost bv = (*b)@;
            let elements: Vec<Type> = vec![inner, *b];
            proof {
                lemma_types_v(elements@);
                assert(types_v(elements@) =~= seq![iv, bv]);
            }
            let tup = Type::Tuple { elements };
            assert(tup@ == TypeV::Tuple { elements: seq![iv, bv] });
            let x = Type::Array { inner: Box::new(tup) };
            assert(x@ == TypeV::Array { inner: Box::new(TypeV::Tuple { elements: seq![iv, bv] }) });
            Ok(x)
        },
        _ => fail(concat_str(string_of("zip() requires an array argument, got "), ts.as_str())),
    }
}

/// A plan applied to the arguments of a method call.
fn apply_plan_exec(plan: Plan, args: &Vec<Expr>, l: &Locals, env: &Env) -> (r: Result<Type, TypeError>)
    ensures
        match r {
            Ok(t) => apply_plan(plan@, exprs_v(args@), locals_v(l@), env.view()) == Ok::<TypeV, Seq<char>>(t@),
            Err(er) => apply_plan(plan@, exprs_v(args@), locals_v(l@), env.view()) == Err::<TypeV, Seq<char>>(er.message@),
        },
    decreases args, 1int,
{
    reveal_with_fuel(tc_expr, 1);
    proof {
        lemma_exprs_v(args@);
    }
    match &plan {
        Plan::Simple { min, max, arity_msg, checks, ret } => {
            if args.len() < *min || args.len() > *max {
                return fail(arity_msg.clone());
            }
            match check_args(args, checks, 0, l, env) {
                Ok(_) => Ok(clone_type(ret)),
                Err(er) => Err(er),
            }
        },
        Plan::FnArg { arity_msg, inner, needs_bool, head, result } => {
            if args.len() != 1 {
                return fail(arity_msg.clone());
            }
            proof {
                assert(decreases_to!(args => args@));
                assert(decreases_to!(args@ => args@[0]));
            }
            let t = match check_expr(&args[0], l, env) {
                Ok(t) => t,
                Err(er) => return Err(er),
            };
            fn_arg_exec(&t, inner, *needs_bool, head, *result)
        },
        Plan::Zip { inner } => {
            if args.len() != 1 {
                return fail(string_of("zip() takes exactly 1 argument (array)"));
            }
            proof {
                assert(decreases_to!(args => args@));
                assert(decreases_to!(args@ => args@[0]));
            }
            let t = match check_expr(&args[0], l, env) {
                Ok(t) => t,
                Err(er) => return Err(er),
            };
            zip_exec(t, clone_type(inner))
        },
        Plan::Fail { message } => fail(message.clone()),
        Plan::User => fail(String::new()),
    }
}

/// A call `m.f(args)` of a function of an imported module.
fn check_module_call(name: &String, ex: &crate::typeck::ModuleExports, method: &String, args: &Vec<Expr>, l: &Locals, env: &Env) -> (r: Result<Type, TypeError>)
    ensures
        match r {
            Ok(t) => tc_module_call(name@, ex@, method@, exprs_v(args@), locals_v(l@), env.view()) == Ok::<TypeV, Seq<char>>(t@),
            Err(er) => tc_module_call(name@, ex@, method@, exprs_v(args@), locals_v(l@), env.view()) == Err::<TypeV, Seq<char>>(er.message@),
        },
    decreases args, 1int,
{
    proof {
        lemma_exprs_v(args@);
    }
    let fi = find_key(&ex.functions, method);
    proof {
        lemma_key_index_is(sigs_reg_v(ex.functions@), method@, fi as int);
    }
    let qm = q_text(method.as_str());
    let qn = q_text(name.as_str());
    if fi >= ex.functions.len() {
        return fail(concat_str(concat_str(concat_str(string_of("function "), qm.as_str()), " not found in module "), qn.as_str()));
    }
    let sig = &ex.functions[fi].1;
    proof {
        lemma_types_v(sig.params@);
    }
    if args.len() != sig.params.len() {
        let a = usize_text(sig.params.len());
        let b = usize_text(args.len());
        let msg = concat_str(
            concat_str(
                concat_str(concat_str(concat_str(concat_str(concat_str(string_of("function "), qm.as_str()), " in module "), qn.as_str()), " expects "), a.as_str()),
                " arguments, got ",
            ),
            b.as_str(),
        );
        return fail(msg);
    }
    let callee = concat_str(concat_str(name.clone(), "."), method.as_str());
    let checks = checks_for_params(&sig.params, 1, q_text(callee.as_str()).as_str());
    match check_args(args, &checks, 0, l, env) {
        Ok(_) => Ok(clone_type(&sig.return_type)),
        Err(er) => Err(er),
    }
}

/// A method call.
fn check_method_call(e: &Expr, l: &Locals, env: &Env) -> (r: Result<Type, TypeError>)
    requires
        e is MethodCall,
    ensures
        match r {
            Ok(t) => tc_expr(e@, locals_v(l@), env.view()) == Ok::<TypeV, Seq<char>>(t@),
            Err(er) => tc_expr(e@, locals_v(l@), env.view()) == Err::<TypeV, Seq<char>>(er.message@),
        },
    decreases e, 0int,
{
    reveal_with_fuel(tc_expr, 1);
    match e {
        Expr::MethodCall { object, method, args, .. } => {
            proof {
                lemma_exprs_v(args@);
            }
            match &**object {
                Expr::Identifier { name, .. } => {
                    let mi = find_key(env.modules, name);
                    proof {
                        lemma_key_index_is(modules_v(env.modules@), name@, mi as int);
                    }
                    if mi < env.modules.len() {
                        return check_module_call(name, &env.modules[mi].1, method, args, l, env);
                    }
                },
                _ => {},
            }
            let ot = match check_expr(object, l, env) {
                Ok(t) => t,
                Err(er) => return Err(er),
            };
            let plan = plan_for_call(&ot, method, args.len(), env);
            apply_plan_exec(plan, args, l, env)
        },
        _ => fail(String::new()),
    }
}

/// The locals after `ss`, or the first error in them.
#[verifier::rlimit(60)]
pub fn check_stmts(ss: &Vec<Stmt>, l: &mut Locals, env: &Env) -> (r: Result<(), TypeError>)
    ensures
        match r {
            Ok(_) => tc_stmts(stmts_v(ss@), 0, locals_v(old(l)@), env.view()) == Ok::<LocalsV, Seq<char>>(locals_v(final(l)@)),
            Err(er) => tc_stmts(stmts_v(ss@), 0, locals_v(old(l)@), env.view()) == Err::<LocalsV, Seq<char>>(er.message@),
        },
    decreases ss, 1int,
{
    let ghost sv = stmts_v(ss@);
    let ghost l0 = locals_v(l@);
    let ghost ev = env.view();
    proof {
        lemma_stmts_v(ss@);
    }
    let mut i: usize = 0;
    while i < ss.len()
        invariant
            i <= ss@.len(),
            sv == stmts_v(ss@),
            sv.len() == ss@.len(),
            forall|a: int| 0 <= a < ss@.len() ==> #[trigger] sv[a] == stmt_v(ss@[a]),
            ev == env.view(),
            l0 == locals_v(old(l)@),
            tc_stmts(sv, 0, l0, ev) == tc_stmts(sv, i as int, locals_v(l@), ev),
        decreases ss@.len() - i,
    {
        proof {
            assert(decreases_to!(ss => ss@));
            assert(decreases_to!(ss@ => ss@[i as int]));
        }
        let ghost before = locals_v(l@);
        proof {
            lemma_tc_stmts_step(sv, i as int, before, ev);
        }
        match check_stmt(&ss[i], l, env) {
            Ok(_) => {},
            Err(er) => return Err(er),
        }
        assert(tc_stmts(sv, i as int, before, ev) == tc_stmts(sv, i + 1, locals_v(l@), ev));
        i = i + 1;
    }
    Ok(())
}

/// One step of `tc_stmts`: the statement at `i`, then the rest.
proof fn lemma_tc_stmts_step(ss: Seq<StmtV>, i: int, l: LocalsV, env: EnvV)
    requires
        0 <= i < ss.len(),
    ensures
        tc_stmts(ss, i, l, env) == match tc_stmt(ss[i], l, env) {
            Err(e) => Err(e),
            Ok(l2) => tc_stmts(ss, i + 1, l2, env),
        },
{
    reveal_with_fuel(tc_stmt, 1);
}

/// The type of a condition, which must be `Bool`.
fn check_condition(c: &Expr, l: &Locals, env: &Env, head: &str) -> (r: Result<(), TypeError>)
    ensures
        match r {
            Ok(_) => tc_expr(c@, locals_v(l@), env.view()) == Ok::<TypeV, Seq<char>>(TypeV::Bool),
            Err(er) => match tc_expr(c@, locals_v(l@), env.view()) {
                Ok(t) => t != TypeV::Bool && er.message@ == head@ + type_text(t),
                Err(m) => er.message@ == m,
            },
        },
    decreases c, 3int,
{
    let t = match check_expr(c, l, env) {
        Ok(t) => t,
        Err(er) => return Err(er),
    };
    if !type_eq(&t, &Type::Bool) {
        return fail(concat_str(string_of(head), type_to_string(&t).as_str()));
    }
    Ok(())
}

/// The locals after a statement, or the first error in it.
pub fn check_stmt(st: &Stmt, l: &mut Locals, env: &Env) -> (r: Result<(), TypeError>)
    ensures
        match r {
            Ok(_) => tc_stmt(stmt_v(*st), locals_v(old(l)@), env.view()) == Ok::<LocalsV, Seq<char>>(locals_v(final(l)@)),
            Err(er) => tc_stmt(stmt_v(*st), locals_v(old(l)@), env.view()) == Err::<LocalsV, Seq<char>>(er.message@),
        },
        r is Err && !(st is While) && !(st is If) ==> final(l)@ == old(l)@,
        st is ForIn || st is Expr || st is Return || st is Break || st is Continue ==> final(l)@ == old(l)@,
    decreases st, 1int,
{
    match st {
        Stmt::Let { .. } => check_let(st, l, env),
        Stmt::Expr(_) => check_expr_stmt(st, l, env),
        Stmt::While { .. } => check_block_stmt(st, l, env),
        Stmt::If { .. } => check_block_stmt(st, l, env),
        Stmt::Return { .. } => check_return(st, l, env),
        Stmt::Assign { .. } => check_assign(st, l, env),
        Stmt::ForIn { .. } => check_for_in(st, l, env),
        Stmt::LetDestructure { .. } => check_destructure(st, l, env),
        Stmt::Break { .. } => check_jump(st, l, env),
        Stmt::Continue { .. } => check_jump(st, l, env),
    }
}

/// A `let` statement.
fn check_let(st: &Stmt, l: &mut Locals, env: &Env) -> (r: Result<(), TypeError>)
    requires
        st is Let,
    ensures
        match r {
            Ok(_) => tc_stmt(stmt_v(*st), locals_v(old(l)@), env.view()) == Ok::<LocalsV, Seq<char>>(locals_v(final(l)@)),
            Err(er) => tc_stmt(stmt_v(*st), locals_v(old(l)@), env.view()) == Err::<LocalsV, Seq<char>>(er.message@),
        },
        r is Err ==> final(l)@ == old(l)@,
    decreases st, 0int,
{
    reveal_with_fuel(tc_stmt, 1);
    reveal_with_fuel(tc_expr, 1);
    match st {
        Stmt::Let { name, mutable, ty_name, value, .. } => {
            let actual = match check_expr(value, l, env) {
                Ok(t) => t,
                Err(er) => return Err(er),
            };
            match ty_name {
                Some(tn) => {
                    let declared = match resolve_type(&tn.name, &env.structs, &env.enums, env.modules) {
                        Ok(t) => t,
                        Err(er) => return Err(er),
                    };
                    if !type_eq(&declared, &actual) {
                        let a = type_to_string(&declared);
                        let b = type_to_string(&actual);
                        return fail(concat_str(
                            concat_str(
                                concat_str(concat_str(concat_str(string_of("type mismatch in let "), q_text(name.as_str()).as_str()), ": declared "), a.as_str()),
                                " but expression has type ",
                            ),
                            b.as_str(),
                        ));
                    }
                    locals_insert(l, name.clone(), declared, *mutable);
                },
                None => {
                    locals_insert(l, name.clone(), actual, *mutable);
                },
            }
            Ok(())
        },
        _ => fail(String::new()),
    }
}

/// An expression statement.
fn check_expr_stmt(st: &Stmt, l: &mut Locals, env: &Env) -> (r: Result<(), TypeError>)
    requires
        st is Expr,
    ensures
        match r {
            Ok(_) => tc_stmt(stmt_v(*st), locals_v(old(l)@), env.view()) == Ok::<LocalsV, Seq<char>>(locals_v(final(l)@)),
            Err(er) => tc_stmt(stmt_v(*st), locals_v(old(l)@), env.view()) == Err::<LocalsV, Seq<char>>(er.message@),
        },
        final(l)@ == old(l)@,
    decreases st, 0int,
{
    reveal_with_fuel(tc_stmt, 1);
    reveal_with_fuel(tc_expr, 1);
    match st {
        Stmt::Expr(e) => match check_expr(e, l, env) {
            Ok(_) => Ok(()),
            Err(er) => Err(er),
        },
        _ => fail(String::new()),
    }
}

/// A `while` or `if` statement: a `Bool` condition, then the body.
fn check_block_stmt(st: &Stmt, l: &mut Locals, env: &Env) -> (r: Result<(), TypeError>)
    requires
        st is While || st is If,
    ensures
        match r {
            Ok(_) => tc_stmt(stmt_v(*st), locals_v(old(l)@), env.view()) == Ok::<LocalsV, Seq<char>>(locals_v(final(l)@)),
            Err(er) => tc_stmt(stmt_v(*st), locals_v(old(l)@), env.view()) == Err::<LocalsV, Seq<char>>(er.message@),
        },
    decreases st, 0int,
{
    reveal_with_fuel(tc_stmt, 1);
    reveal_with_fuel(tc_expr, 1);
    let (condition, body, head) = match st {
        Stmt::While { condition, body, .. } => (condition, body, "while condition must be Bool, got "),
        Stmt::If { condition, body, .. } => (condition, body, "if condition must be Bool, got "),
        _ => {
            return fail(String::new());
        },
    };
    match check_condition(condition, l, env, head) {
        Ok(_) => {},
        Err(er) => return Err(er),
    }
    check_stmts(body, l, env)
}

/// A `break` or `continue` statement: nothing to check.
fn check_jump(st: &Stmt, l: &mut Locals, env: &Env) -> (r: Result<(), TypeError>)
    requires
        st is Break || st is Continue,
    ensures
        match r {
            Ok(_) => tc_stmt(stmt_v(*st), locals_v(old(l)@), env.view()) == Ok::<LocalsV, Seq<char>>(locals_v(final(l)@)),
            Err(er) => tc_stmt(stmt_v(*st), locals_v(old(l)@), env.view()) == Err::<LocalsV, Seq<char>>(er.message@),
        },
        final(l)@ == old(l)@,
{
    reveal_with_fuel(tc_stmt, 1);
    Ok(())
}

/// A `return` statement.
fn check_return(st: &Stmt, l: &mut Locals, env: &Env) -> (r: Result<(), TypeError>)
    requires
        st is Return,
    ensures
        match r {
            Ok(_) => tc_stmt(stmt_v(*st), locals_v(old(l)@), env.view()) == Ok::<LocalsV, Seq<char>>(locals_v(final(l)@)),
            Err(er) => tc_stmt(stmt_v(*st), locals_v(old(l)@), env.view()) == Err::<LocalsV, Seq<char>>(er.message@),
        },
        final(l)@ == old(l)@,
    decreases st, 0int,
{
    reveal_with_fuel(tc_stmt, 1);
    reveal_with_fuel(tc_expr, 1);
    match st {
        Stmt::Return { value, .. } => {
            let t = match check_expr(value, l, env) {
                Ok(t) => t,
                Err(er) => return Err(er),
            };
            if !types_compatible(&t, &env.ret) {
                let a = type_to_string(&env.ret);
                let b = type_to_string(&t);
                return fail(concat_str(concat_str(concat_str(string_of("return type mismatch: expected "), a.as_str()), " but got "), b.as_str()));
            }
            Ok(())
        },
        _ => fail(String::new()),
    }
}

/// A `for x in it { .. }` statement.
fn check_for_in(st: &Stmt, l: &mut Locals, env: &Env) -> (r: Result<(), TypeError>)
    requires
        st is ForIn,
    ensures
        match r {
            Ok(_) => tc_stmt(stmt_v(*st), locals_v(old(l)@), env.view()) == Ok::<LocalsV, Seq<char>>(locals_v(final(l)@)),
            Err(er) => tc_stmt(stmt_v(*st), locals_v(old(l)@), env.view()) == Err::<LocalsV, Seq<char>>(er.message@),
        },
        final(l)@ == old(l)@,
    decreases st, 0int,
{
    reveal_with_fuel(tc_stmt, 1);
    reveal_with_fuel(tc_expr, 1);
    match st {
        Stmt::ForIn { var, iterable, body, .. } => {
            let it = match check_expr(iterable, l, env) {
                Ok(t) => t,
                Err(er) => return Err(er),
            };
            match &it {
                Type::Array { inner } => {
                    let mut ll = clone_locals(l);
                    locals_insert(&mut ll, var.clone(), clone_type(inner), false);
                    match check_stmts(body, &mut ll, env) {
                        Ok(_) => Ok(()),
                        Err(er) => Err(er),
                    }
                },
                _ => fail(concat_str(string_of("for-in requires Array, got "), type_to_string(&it).as_str())),
            }
        },
        _ => fail(String::new()),
    }
}

/// An assignment `name = value`.
fn check_assign(st: &Stmt, l: &mut Locals, env: &Env) -> (r: Result<(), TypeError>)
    requires
        st is Assign,
    ensures
        match r {
            Ok(_) => tc_stmt(stmt_v(*st), locals_v(old(l)@), env.view()) == Ok::<LocalsV, Seq<char>>(locals_v(final(l)@)),
            Err(er) => tc_stmt(stmt_v(*st), locals_v(old(l)@), env.view()) == Err::<LocalsV, Seq<char>>(er.message@),
        },
        r is Err ==> final(l)@ == old(l)@,
    decreases st, 0int,
{
    reveal_with_fuel(tc_stmt, 1);
    reveal_with_fuel(tc_expr, 1);
    let (name, value) = match st {
        Stmt::Assign { name, value, .. } => (name, value),
        _ => {
            return fail(String::new());
        },
    };
    let i = find_key(l, name);
    proof {
        lemma_key_index_is(locals_v(l@), name@, i as int);
    }
    if i < l.len() {
        if !l[i].1.1 {
            return fail(concat_str(string_of("cannot assign to immutable variable "), q_text(name.as_str()).as_str()));
        }
        let at = match check_expr(value, l, env) {
            Ok(t) => t,
            Err(er) => return Err(er),
        };
        if !type_eq(&at, &l[i].1.0) {
            let a = type_to_string(&l[i].1.0);
            let b = type_to_string(&at);
            return fail(concat_str(
                concat_str(
                    concat_str(concat_str(concat_str(string_of("type mismatch in assignment to "), q_text(name.as_str()).as_str()), ": expected "), a.as_str()),
                    " but got ",
                ),
                b.as_str(),
            ));
        }
        Ok(())
    } else {
        let vt = match check_expr(value, l, env) {
            Ok(t) => t,
            Err(er) => return Err(er),
        };
        locals_insert(l, name.clone(), vt, false);
        Ok(())
    }
}

/// A destructuring `let (a, b) = value`.
fn check_destructure(st: &Stmt, l: &mut Locals, env: &Env) -> (r: Result<(), TypeError>)
    requires
        st is LetDestructure,
    ensures
        match r {
            Ok(_) => tc_stmt(stmt_v(*st), locals_v(old(l)@), env.view()) == Ok::<LocalsV, Seq<char>>(locals_v(final(l)@)),
            Err(er) => tc_stmt(stmt_v(*st), locals_v(old(l)@), env.view()) == Err::<LocalsV, Seq<char>>(er.message@),
        },
        r is Err ==> final(l)@ == old(l)@,
    decreases st, 0int,
{
    reveal_with_fuel(tc_stmt, 1);
    reveal_with_fuel(tc_expr, 1);
    let (names, value) = match st {
        Stmt::LetDestructure { names, value, .. } => (names, value),
        _ => {
            return fail(String::new());
        },
    };
    match value {
        Expr::ChannelCreate { element_type, capacity, .. } => {
            match capacity {
                Some(c) => {
                    proof {
                        assert(decreases_to!(*st => *value));
                        assert(decreases_to!(*value => *capacity));
                        assert(decreases_to!(*capacity => *c));
                    }
                    let ct = match check_expr(c, l, env) {
                        Ok(t) => t,
                        Err(er) => return Err(er),
                    };
                    if !type_eq(&ct, &Type::Int) {
                        return fail(concat_str(string_of("channel capacity must be Int, got "), type_to_string(&ct).as_str()));
                    }
                },
                None => {},
            }
            let inner = match resolve_type(&element_type.name, &env.structs, &env.enums, env.modules) {
                Ok(t) => t,
                Err(er) => return Err(er),
            };
            if names.len() != 2 {
                return fail(string_of("channel destructuring requires exactly 2 names"));
            }
            let ghost l0 = locals_v(l@);
            let ghost nv = crate::ast::strings_v(names@);
            assert(nv[0] == names@[0]@ && nv[1] == names@[1]@);
            locals_insert(l, names[0].clone(), Type::Sender { inner: Box::new(clone_type(&inner)) }, false);
            locals_insert(l, names[1].clone(), Type::Receiver { inner: Box::new(inner) }, false);
            Ok(())
        },
        _ => fail(string_of("destructuring let is only supported for channel<T>()")),
    }
}

} // verus!
