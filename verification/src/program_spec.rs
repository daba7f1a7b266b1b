//! What checking a whole program computes: the registries built from its
//! declarations, the checks of every body, and what the program exports.
//!
//! Each pass walks a list from an index `i` with what it has built so far,
//! so that a loop over the list keeps "the pass from `i` on with what is
//! built gives the whole result" as its invariant.
use vstd::prelude::*;
use crate::types::{TypeV, type_text};
use crate::ast::{ExprV, StmtV, MatchArmV, ParamV, StructFieldV, StructDefV, TypeNameV, EnumVariantV, EnumDefV, TraitMethodSigV, TraitDefV, FunctionV, ImplBlockV, ProgramV, GlobalDefV};
use crate::typeck_spec::{LocalsV, SigV, FieldsV, VariantsV, GenericFnInfoV, ModuleExportsV, EnvV, lookup, assoc_insert, resolve, q, compatible, tc_expr, tc_stmt};

verus! {

/// Registered structs, by name.
pub type StructsRegV = Seq<(Seq<char>, FieldsV)>;

/// Registered enums, by name.
pub type EnumsRegV = Seq<(Seq<char>, VariantsV)>;

/// Registered traits: each method's name, parameter types and return type.
pub type TraitsRegV = Seq<(Seq<char>, Seq<(Seq<char>, Seq<TypeV>, TypeV)>)>;

/// Registered methods, by type name and method name.
pub type MethodsRegV = Seq<((Seq<char>, Seq<char>), SigV)>;

/// The modules a program may refer to.
pub type ModulesV = Seq<(Seq<char>, ModuleExportsV)>;

// ─── Types of declarations ─────────────────────────────────────────────────

/// The type names of parameters.
pub open spec fn param_type_names(ps: Seq<ParamV>) -> Seq<Seq<char>> {
    ps.map_values(|p: ParamV| p.ty_name.name)
}

/// The type names of an enum variant's fields.
pub open spec fn type_name_texts(ts: Seq<TypeNameV>) -> Seq<Seq<char>> {
    ts.map_values(|t: TypeNameV| t.name)
}

/// `acc` followed by the resolved `names[i..]`, or the first error.
pub open spec fn resolve_names(
    names: Seq<Seq<char>>,
    i: int,
    sreg: StructsRegV,
    ereg: EnumsRegV,
    ms: ModulesV,
    acc: Seq<TypeV>,
) -> Result<Seq<TypeV>, Seq<char>>
    decreases names.len() - i,
{
    if i < 0 || i >= names.len() {
        Ok(acc)
    } else {
        match resolve(names[i], sreg, ereg, ms) {
            Err(e) => Err(e),
            Ok(t) => resolve_names(names, i + 1, sreg, ereg, ms, acc.push(t)),
        }
    }
}

/// The types of `ps`, or the first error.
pub open spec fn param_types(ps: Seq<ParamV>, sreg: StructsRegV, ereg: EnumsRegV, ms: ModulesV) -> Result<
    Seq<TypeV>,
    Seq<char>,
> {
    resolve_names(param_type_names(ps), 0, sreg, ereg, ms, Seq::empty())
}

/// `acc` followed by the resolved fields `fs[i..]` of a struct, or the
/// first error; fields may name the structs before it.
pub open spec fn struct_fields_pass(
    fs: Seq<StructFieldV>,
    i: int,
    sreg: StructsRegV,
    ms: ModulesV,
    acc: FieldsV,
) -> Result<FieldsV, Seq<char>>
    decreases fs.len() - i,
{
    if i < 0 || i >= fs.len() {
        Ok(acc)
    } else {
        match resolve(fs[i].ty_name.name, sreg, Seq::empty(), ms) {
            Err(e) => Err(e),
            Ok(t) => struct_fields_pass(fs, i + 1, sreg, ms, acc.push((fs[i].name, t))),
        }
    }
}

/// The structs registry after `ss[i..]`, starting from `sreg`.
pub open spec fn structs_pass(ss: Seq<StructDefV>, i: int, sreg: StructsRegV, ms: ModulesV) -> Result<
    StructsRegV,
    Seq<char>,
>
    decreases ss.len() - i,
{
    if i < 0 || i >= ss.len() {
        Ok(sreg)
    } else {
        match struct_fields_pass(ss[i].fields, 0, sreg, ms, Seq::empty()) {
            Err(e) => Err(e),
            Ok(fs) => structs_pass(ss, i + 1, assoc_insert(sreg, ss[i].name, fs), ms),
        }
    }
}

/// `acc` followed by the resolved variants `vs[i..]` of an enum.
pub open spec fn variants_pass(
    vs: Seq<EnumVariantV>,
    i: int,
    sreg: StructsRegV,
    ereg: EnumsRegV,
    ms: ModulesV,
    acc: VariantsV,
) -> Result<VariantsV, Seq<char>>
    decreases vs.len() - i,
{
    if i < 0 || i >= vs.len() {
        Ok(acc)
    } else {
        match resolve_names(type_name_texts(vs[i].fields), 0, sreg, ereg, ms, Seq::empty()) {
            Err(e) => Err(e),
            Ok(ts) => variants_pass(vs, i + 1, sreg, ereg, ms, acc.push((vs[i].name, ts))),
        }
    }
}

/// The enums registry after `es[i..]`, starting from `ereg`; variant fields
/// may name every struct and the enums before it.
pub open spec fn enums_pass(es: Seq<EnumDefV>, i: int, sreg: StructsRegV, ereg: EnumsRegV, ms: ModulesV) -> Result<
    EnumsRegV,
    Seq<char>,
>
    decreases es.len() - i,
{
    if i < 0 || i >= es.len() {
        Ok(ereg)
    } else {
        match variants_pass(es[i].variants, 0, sreg, ereg, ms, Seq::empty()) {
            Err(e) => Err(e),
            Ok(vs) => enums_pass(es, i + 1, sreg, assoc_insert(ereg, es[i].name, vs), ms),
        }
    }
}

/// `acc` followed by the signatures of the trait methods `tms[i..]`.
pub open spec fn trait_methods_pass(
    tms: Seq<TraitMethodSigV>,
    i: int,
    sreg: StructsRegV,
    ereg: EnumsRegV,
    ms: ModulesV,
    acc: Seq<(Seq<char>, Seq<TypeV>, TypeV)>,
) -> Result<Seq<(Seq<char>, Seq<TypeV>, TypeV)>, Seq<char>>
    decreases tms.len() - i,
{
    if i < 0 || i >= tms.len() {
        Ok(acc)
    } else {
        match param_types(tms[i].params, sreg, ereg, ms) {
            Err(e) => Err(e),
            Ok(ps) => match resolve(tms[i].return_type.name, sreg, ereg, ms) {
                Err(e) => Err(e),
                Ok(r) => trait_methods_pass(tms, i + 1, sreg, ereg, ms, acc.push((tms[i].name, ps, r))),
            },
        }
    }
}

/// The traits registry after `ts[i..]`, starting from `treg`.
pub open spec fn traits_pass(
    ts: Seq<TraitDefV>,
    i: int,
    sreg: StructsRegV,
    ereg: EnumsRegV,
    ms: ModulesV,
    treg: TraitsRegV,
) -> Result<TraitsRegV, Seq<char>>
    decreases ts.len() - i,
{
    if i < 0 || i >= ts.len() {
        Ok(treg)
    } else {
        match trait_methods_pass(ts[i].methods, 0, sreg, ereg, ms, Seq::empty()) {
            Err(e) => Err(e),
            Ok(tms) => traits_pass(ts, i + 1, sreg, ereg, ms, assoc_insert(treg, ts[i].name, tms)),
        }
    }
}

// ─── Impl blocks ───────────────────────────────────────────────────────────

/// The index of the first method named `name`, or the length.
pub open spec fn method_index(fs: Seq<FunctionV>, name: Seq<char>) -> int
    decreases fs.len(),
{
    if fs.len() == 0 {
        0
    } else if fs[0].name == name {
        0
    } else {
        1 + method_index(fs.drop_first(), name)
    }
}

/// The conformance of an impl of trait `tn` for `target` with the trait's
/// methods `tms[j..]`: each must be present with the same parameter types
/// (after `self`) and return type.
pub open spec fn conformance(
    tn: Seq<char>,
    target: Seq<char>,
    fs: Seq<FunctionV>,
    tms: Seq<(Seq<char>, Seq<TypeV>, TypeV)>,
    j: int,
    sreg: StructsRegV,
    ereg: EnumsRegV,
    ms: ModulesV,
) -> Result<(), Seq<char>>
    decreases tms.len() - j,
{
    if j < 0 || j >= tms.len() {
        Ok(())
    } else {
        let mname = tms[j].0;
        let k = method_index(fs, mname);
        if k >= fs.len() {
            Err("impl "@ + tn + " for "@ + target + " is missing method "@ + q(mname))
        } else {
            match param_types(fs[k].params.drop_first(), sreg, ereg, ms) {
                Err(e) => Err(e),
                Ok(actual) => if actual != tms[j].1 {
                    Err("method "@ + q(mname) + " params don't match trait "@ + q(tn) + " signature"@)
                } else {
                    match resolve(fs[k].return_type.name, sreg, ereg, ms) {
                        Err(e) => Err(e),
                        Ok(r) => if r != tms[j].2 {
                            Err("method "@ + q(mname) + " return type doesn't match trait "@ + q(tn) + " signature"@)
                        } else {
                            conformance(tn, target, fs, tms, j + 1, sreg, ereg, ms)
                        },
                    }
                },
            }
        }
    }
}

/// The methods registry after the methods `fs[k..]` of an impl for `target`.
pub open spec fn impl_methods_pass(
    target: Seq<char>,
    fs: Seq<FunctionV>,
    k: int,
    sreg: StructsRegV,
    ereg: EnumsRegV,
    ms: ModulesV,
    mreg: MethodsRegV,
) -> Result<MethodsRegV, Seq<char>>
    decreases fs.len() - k,
{
    if k < 0 || k >= fs.len() {
        Ok(mreg)
    } else {
        match param_types(fs[k].params.drop_first(), sreg, ereg, ms) {
            Err(e) => Err(e),
            Ok(ps) => match resolve(fs[k].return_type.name, sreg, ereg, ms) {
                Err(e) => Err(e),
                Ok(r) => impl_methods_pass(target, fs, k + 1, sreg, ereg, ms, assoc_insert(mreg, (target, fs[k].name), (ps, r))),
            },
        }
    }
}

/// The methods registry after the impl blocks `is[i..]`: a trait impl is
/// first checked against its trait.
pub open spec fn impls_pass(
    is: Seq<ImplBlockV>,
    i: int,
    sreg: StructsRegV,
    ereg: EnumsRegV,
    treg: TraitsRegV,
    ms: ModulesV,
    mreg: MethodsRegV,
) -> Result<MethodsRegV, Seq<char>>
    decreases is.len() - i,
{
    if i < 0 || i >= is.len() {
        Ok(mreg)
    } else {
        let imp = is[i];
        let conf: Result<(), Seq<char>> = match imp.trait_name {
            Some(tn) => match lookup(treg, tn) {
                None => Err("undefined trait "@ + q(tn)),
                Some(tms) => conformance(tn, imp.target_type, imp.methods, tms, 0, sreg, ereg, ms),
            },
            None => Ok(()),
        };
        match conf {
            Err(e) => Err(e),
            Ok(_) => match impl_methods_pass(imp.target_type, imp.methods, 0, sreg, ereg, ms, mreg) {
                Err(e) => Err(e),
                Ok(m2) => impls_pass(is, i + 1, sreg, ereg, treg, ms, m2),
            },
        }
    }
}

// ─── Function signatures ───────────────────────────────────────────────────

/// The description of a generic function.
pub open spec fn generic_info(f: FunctionV) -> GenericFnInfoV {
    GenericFnInfoV {
        type_params: f.type_params.map_values(|tp: crate::ast::TypeParamV| (tp.name, tp.bound)),
        param_types: param_type_names(f.params),
        return_type_name: f.return_type.name,
    }
}

/// The signatures after `fs[i..]`: a function without type parameters gets
/// its signature in `fenv`, a generic one its description in `genv`.
pub open spec fn signatures_pass(
    fs: Seq<FunctionV>,
    i: int,
    sreg: StructsRegV,
    ereg: EnumsRegV,
    ms: ModulesV,
    fenv: Seq<(Seq<char>, SigV)>,
    genv: Seq<(Seq<char>, GenericFnInfoV)>,
) -> Result<(Seq<(Seq<char>, SigV)>, Seq<(Seq<char>, GenericFnInfoV)>), Seq<char>>
    decreases fs.len() - i,
{
    if i < 0 || i >= fs.len() {
        Ok((fenv, genv))
    } else if fs[i].type_params.len() == 0 {
        match param_types(fs[i].params, sreg, ereg, ms) {
            Err(e) => Err(e),
            Ok(ps) => match resolve(fs[i].return_type.name, sreg, ereg, ms) {
                Err(e) => Err(e),
                Ok(r) => signatures_pass(fs, i + 1, sreg, ereg, ms, assoc_insert(fenv, fs[i].name, (ps, r)), genv),
            },
        }
    } else {
        signatures_pass(fs, i + 1, sreg, ereg, ms, fenv, assoc_insert(genv, fs[i].name, generic_info(fs[i])))
    }
}

/// The name under which a method is also a function: `Type_method`.
pub open spec fn mangled(target: Seq<char>, name: Seq<char>) -> Seq<char> {
    target + "_"@ + name
}

/// The functions after the mangled methods `fs[k..]` of an impl for
/// `target`, with every parameter, `self` included.
pub open spec fn mangled_methods_pass(
    target: Seq<char>,
    fs: Seq<FunctionV>,
    k: int,
    sreg: StructsRegV,
    ereg: EnumsRegV,
    ms: ModulesV,
    fenv: Seq<(Seq<char>, SigV)>,
) -> Result<Seq<(Seq<char>, SigV)>, Seq<char>>
    decreases fs.len() - k,
{
    if k < 0 || k >= fs.len() {
        Ok(fenv)
    } else {
        match param_types(fs[k].params, sreg, ereg, ms) {
            Err(e) => Err(e),
            Ok(ps) => match resolve(fs[k].return_type.name, sreg, ereg, ms) {
                Err(e) => Err(e),
                Ok(r) => mangled_methods_pass(
                    target,
                    fs,
                    k + 1,
                    sreg,
                    ereg,
                    ms,
                    assoc_insert(fenv, mangled(target, fs[k].name), (ps, r)),
                ),
            },
        }
    }
}

/// The functions after the mangled methods of the impl blocks `is[i..]`.
pub open spec fn mangled_pass(
    is: Seq<ImplBlockV>,
    i: int,
    sreg: StructsRegV,
    ereg: EnumsRegV,
    ms: ModulesV,
    fenv: Seq<(Seq<char>, SigV)>,
) -> Result<Seq<(Seq<char>, SigV)>, Seq<char>>
    decreases is.len() - i,
{
    if i < 0 || i >= is.len() {
        Ok(fenv)
    } else {
        match mangled_methods_pass(is[i].target_type, is[i].methods, 0, sreg, ereg, ms, fenv) {
            Err(e) => Err(e),
            Ok(f2) => mangled_pass(is, i + 1, sreg, ereg, ms, f2),
        }
    }
}

// ─── Bodies ────────────────────────────────────────────────────────────────

/// The locals after binding the parameters `ps[i..]` (not assignable).
pub open spec fn params_locals(
    ps: Seq<ParamV>,
    i: int,
    sreg: StructsRegV,
    ereg: EnumsRegV,
    ms: ModulesV,
    l: LocalsV,
) -> Result<LocalsV, Seq<char>>
    decreases ps.len() - i,
{
    if i < 0 || i >= ps.len() {
        Ok(l)
    } else {
        match resolve(ps[i].ty_name.name, sreg, ereg, ms) {
            Err(e) => Err(e),
            Ok(t) => params_locals(ps, i + 1, sreg, ereg, ms, assoc_insert(l, ps[i].name, (t, false))),
        }
    }
}

/// The check of the statements `body[i..]` of a body whose kind and name
/// make up `who` (`function 'f'` or `method 'm'`): the last one must give
/// a value of the return type, or be a `return`.
pub open spec fn body_pass(body: Seq<StmtV>, i: int, l: LocalsV, env: EnvV, who: Seq<char>) -> Result<(), Seq<char>>
    decreases body.len() - i,
{
    if i < 0 || i >= body.len() {
        Ok(())
    } else {
        match tc_stmt(body[i], l, env) {
            Err(e) => Err(e),
            Ok(l2) => if i == body.len() - 1 {
                match body[i] {
                    StmtV::Expr(e) => match tc_expr(e, l2, env) {
                        Err(m) => Err(m),
                        Ok(t) => if !compatible(t, env.ret) {
                            Err(
                                who + ": return type mismatch: expected "@ + type_text(env.ret) + " but got "@
                                    + type_text(t),
                            )
                        } else {
                            Ok(())
                        },
                    },
                    StmtV::Return { .. } => Ok(()),
                    _ => Err(who + ": missing return expression"@),
                }
            } else {
                body_pass(body, i + 1, l2, env, who)
            },
        }
    }
}

/// The check of a body with return type `ret` and parameters `ps`, its
/// locals starting from the globals `g`.
pub open spec fn check_body(ps: Seq<ParamV>, body: Seq<StmtV>, ret: TypeV, env: EnvV, g: LocalsV, who: Seq<char>) -> Result<
    (),
    Seq<char>,
> {
    match params_locals(ps, 0, env.structs, env.enums, env.modules, g) {
        Err(e) => Err(e),
        Ok(l) => if body.len() == 0 {
            Err(who + ": missing return expression"@)
        } else {
            body_pass(body, 0, l, EnvV { ret, ..env }, who)
        },
    }
}

/// The checks of the bodies of the functions `fs[i..]` without type
/// parameters, each with the return type registered under its name (a
/// name is always registered by then).
pub open spec fn functions_pass(fs: Seq<FunctionV>, i: int, env: EnvV, g: LocalsV) -> Result<(), Seq<char>>
    decreases fs.len() - i,
{
    if i < 0 || i >= fs.len() {
        Ok(())
    } else if fs[i].type_params.len() != 0 {
        functions_pass(fs, i + 1, env, g)
    } else {
        let ret = match lookup(env.fns, fs[i].name) {
            Some(sig) => sig.1,
            None => TypeV::Int,
        };
        match check_body(fs[i].params, fs[i].body, ret, env, g, "function "@ + q(fs[i].name)) {
            Err(e) => Err(e),
            Ok(_) => functions_pass(fs, i + 1, env, g),
        }
    }
}

/// The checks of the bodies of the methods `fs[k..]`.
pub open spec fn methods_bodies_pass(fs: Seq<FunctionV>, k: int, env: EnvV, g: LocalsV) -> Result<(), Seq<char>>
    decreases fs.len() - k,
{
    if k < 0 || k >= fs.len() {
        Ok(())
    } else {
        match resolve(fs[k].return_type.name, env.structs, env.enums, env.modules) {
            Err(e) => Err(e),
            Ok(ret) => match check_body(fs[k].params, fs[k].body, ret, env, g, "method "@ + q(fs[k].name)) {
                Err(e) => Err(e),
                Ok(_) => methods_bodies_pass(fs, k + 1, env, g),
            },
        }
    }
}

/// The checks of the method bodies of the impl blocks `is[i..]`.
pub open spec fn impl_bodies_pass(is: Seq<ImplBlockV>, i: int, env: EnvV, g: LocalsV) -> Result<(), Seq<char>>
    decreases is.len() - i,
{
    if i < 0 || i >= is.len() {
        Ok(())
    } else {
        match methods_bodies_pass(is[i].methods, 0, env, g) {
            Err(e) => Err(e),
            Ok(_) => impl_bodies_pass(is, i + 1, env, g),
        }
    }
}

/// The globals after the definitions `gs[i..]`: each value is checked
/// with the globals before it, and its name becomes an assignable local.
pub open spec fn globals_pass(gs: Seq<GlobalDefV>, i: int, l: LocalsV, env: EnvV) -> Result<LocalsV, Seq<char>>
    decreases gs.len() - i,
{
    if i < 0 || i >= gs.len() {
        Ok(l)
    } else {
        match tc_expr(gs[i].value, l, env) {
            Err(e) => Err(e),
            Ok(t) => globals_pass(gs, i + 1, assoc_insert(l, gs[i].name, (t, true)), env),
        }
    }
}

/// The exported signatures after the functions `fs[i..]` without type
/// parameters.
pub open spec fn exports_pass(
    fs: Seq<FunctionV>,
    i: int,
    fenv: Seq<(Seq<char>, SigV)>,
    out: Seq<(Seq<char>, SigV)>,
) -> Seq<(Seq<char>, SigV)>
    decreases fs.len() - i,
{
    if i < 0 || i >= fs.len() {
        out
    } else if fs[i].type_params.len() != 0 {
        exports_pass(fs, i + 1, fenv, out)
    } else {
        match lookup(fenv, fs[i].name) {
            Some(sig) => exports_pass(fs, i + 1, fenv, assoc_insert(out, fs[i].name, sig)),
            None => exports_pass(fs, i + 1, fenv, out),
        }
    }
}

// ─── Array literals ────────────────────────────────────────────────────────

/// Whether every array literal in an expression has an element (the
/// parser refuses `[]`; its type could not be known).
pub open spec fn expr_filled(e: ExprV) -> bool
    decreases e, 0int,
{
    match e {
        ExprV::BinaryOp { left, right, .. } => expr_filled(*left) && expr_filled(*right),
        ExprV::Call { args, .. } => exprs_filled_from(args, 0),
        ExprV::If { condition, then_body, then_expr, else_body, else_expr, .. } => expr_filled(*condition)
            && stmts_filled_from(then_body, 0) && expr_filled(*then_expr) && stmts_filled_from(else_body, 0) && expr_filled(
            *else_expr,
        ),
        ExprV::UnaryOp { operand, .. } => expr_filled(*operand),
        ExprV::StructLiteral { fields, .. } => fields_filled_from(fields, 0),
        ExprV::FieldAccess { object, .. } => expr_filled(*object),
        ExprV::EnumVariant { args, .. } => exprs_filled_from(args, 0),
        ExprV::Match { scrutinee, arms, .. } => expr_filled(*scrutinee) && arms_filled_from(arms, 0),
        ExprV::MethodCall { object, args, .. } => expr_filled(*object) && exprs_filled_from(args, 0),
        ExprV::Spawn { args, .. } => exprs_filled_from(args, 0),
        ExprV::ChannelCreate { capacity, .. } => match capacity {
            Some(c) => expr_filled(*c),
            None => true,
        },
        ExprV::MutexCreate { value, .. } => expr_filled(*value),
        ExprV::Lambda { body, .. } => stmts_filled_from(body, 0),
        ExprV::TupleLiteral { elements, .. } => exprs_filled_from(elements, 0),
        ExprV::ArrayLiteral { elements, .. } => elements.len() > 0 && exprs_filled_from(elements, 0),
        _ => true,
    }
}

/// Whether the expressions `s[i..]` are filled.
pub open spec fn exprs_filled_from(s: Seq<ExprV>, i: int) -> bool
    decreases s, s.len() - i,
{
    if i < 0 || i >= s.len() {
        true
    } else {
        expr_filled(s[i]) && exprs_filled_from(s, i + 1)
    }
}

/// Whether the statements `s[i..]` are filled.
pub open spec fn stmts_filled_from(s: Seq<StmtV>, i: int) -> bool
    decreases s, s.len() - i,
{
    if i < 0 || i >= s.len() {
        true
    } else {
        stmt_filled(s[i]) && stmts_filled_from(s, i + 1)
    }
}

/// Whether the field values `s[i..]` of a struct literal are filled.
pub open spec fn fields_filled_from(s: Seq<(Seq<char>, ExprV)>, i: int) -> bool
    decreases s, s.len() - i,
{
    if i < 0 || i >= s.len() {
        true
    } else {
        expr_filled(s[i].1) && fields_filled_from(s, i + 1)
    }
}

/// Whether the bodies of the match arms `s[i..]` are filled.
pub open spec fn arms_filled_from(s: Seq<MatchArmV>, i: int) -> bool
    decreases s, s.len() - i,
{
    if i < 0 || i >= s.len() {
        true
    } else {
        expr_filled(s[i].body) && arms_filled_from(s, i + 1)
    }
}

/// Whether every array literal in a statement has an element.
pub open spec fn stmt_filled(s: StmtV) -> bool
    decreases s, 0int,
{
    match s {
        StmtV::Let { value, .. } => expr_filled(value),
        StmtV::Expr(e) => expr_filled(e),
        StmtV::While { condition, body, .. } => expr_filled(condition) && stmts_filled_from(body, 0),
        StmtV::Return { value, .. } => expr_filled(value),
        StmtV::Assign { value, .. } => expr_filled(value),
        StmtV::If { condition, body, .. } => expr_filled(condition) && stmts_filled_from(body, 0),
        StmtV::LetDestructure { value, .. } => expr_filled(value),
        StmtV::ForIn { iterable, body, .. } => expr_filled(iterable) && stmts_filled_from(body, 0),
        StmtV::Break { .. } => true,
        StmtV::Continue { .. } => true,
    }
}

/// Whether every array literal in the bodies of `fs` has an element.
pub open spec fn bodies_filled(fs: Seq<FunctionV>) -> bool {
    forall|i: int| 0 <= i < fs.len() ==> stmts_filled_from(#[trigger] fs[i].body, 0)
}

/// Whether every array literal of a program has an element.
pub open spec fn program_filled(p: ProgramV) -> bool {
    &&& bodies_filled(p.functions)
    &&& forall|i: int| 0 <= i < p.impls.len() ==> bodies_filled(#[trigger] p.impls[i].methods)
    &&& forall|i: int| 0 <= i < p.globals.len() ==> expr_filled(#[trigger] p.globals[i].value)
}

// ─── The whole program ─────────────────────────────────────────────────────

/// What checking program `p` against the modules `ms` gives: its exports,
/// or the first error.  With `require_main`, a program without a `main`
/// function is refused.
pub open spec fn check_program(p: ProgramV, ms: ModulesV, require_main: bool) -> Result<ModuleExportsV, Seq<char>> {
    match structs_pass(p.structs, 0, Seq::empty(), ms) {
        Err(e) => Err(e),
        Ok(sreg) => match enums_pass(p.enums, 0, sreg, Seq::empty(), ms) {
            Err(e) => Err(e),
            Ok(ereg) => match traits_pass(p.traits, 0, sreg, ereg, ms, Seq::empty()) {
                Err(e) => Err(e),
                Ok(treg) => match impls_pass(p.impls, 0, sreg, ereg, treg, ms, Seq::empty()) {
                    Err(e) => Err(e),
                    Ok(mreg) => match signatures_pass(p.functions, 0, sreg, ereg, ms, Seq::empty(), Seq::empty()) {
                        Err(e) => Err(e),
                        Ok(sigs) => match mangled_pass(p.impls, 0, sreg, ereg, ms, sigs.0) {
                            Err(e) => Err(e),
                            Ok(fenv) => {
                                let env = EnvV {
                                    fns: fenv,
                                    ret: TypeV::Int,
                                    structs: sreg,
                                    enums: ereg,
                                    methods: mreg,
                                    generics: sigs.1,
                                    traits: treg,
                                    modules: ms,
                                };
                                match globals_pass(p.globals, 0, Seq::empty(), env) {
                                    Err(e) => Err(e),
                                    Ok(g) => if require_main && lookup(fenv, "main"@) is None {
                                        Err("missing 'main' function"@)
                                    } else {
                                        match functions_pass(p.functions, 0, env, g) {
                                            Err(e) => Err(e),
                                            Ok(_) => match impl_bodies_pass(p.impls, 0, env, g) {
                                                Err(e) => Err(e),
                                                Ok(_) => Ok(
                                                    ModuleExportsV {
                                                        functions: exports_pass(p.functions, 0, fenv, Seq::empty()),
                                                        structs: sreg,
                                                        enums: ereg,
                                                    },
                                                ),
                                            },
                                        }
                                    },
                                }
                            },
                        },
                    },
                },
            },
        },
    }
}

} // verus!
