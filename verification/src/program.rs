//! Checking a whole program: registries from its declarations, then every
//! body, then what it exports.
use vstd::prelude::*;
use crate::ast::{Program, Stmt, stmts_v, Param, StructField, StructDef, EnumVariant, EnumDef, TraitMethodSig, TraitDef, TypeName, ParamV, Function, FunctionV, ImplBlock, GlobalDef, opt_string_v};
use crate::types::{Type, TypeV, types_v, fields_tv, variants_tv, type_eq, types_eq};
use crate::typeck_spec::{FieldsV, VariantsV, SigV, GenericFnInfoV, assoc_insert, key_index, lemma_key_index, lemma_key_index_is};
use crate::typeck::{TypeError, FunctionSignature, GenericFnInfo, ModuleExports, find_key, find_key2, sigs_reg_v, structs_reg_v, enums_reg_v, methods_reg_v, generics_reg_v, traits_reg_v, trait_sigs_v, modules_v, resolve_type};
use crate::program_spec::{StructsRegV, EnumsRegV, TraitsRegV, param_type_names, type_name_texts, resolve_names, param_types, struct_fields_pass, structs_pass, variants_pass, enums_pass, trait_methods_pass, traits_pass, MethodsRegV, method_index, conformance, impl_methods_pass, impls_pass, generic_info, signatures_pass, mangled, mangled_methods_pass, mangled_pass, params_locals, body_pass, check_body, functions_pass, methods_bodies_pass, impl_bodies_pass, exports_pass, check_program, globals_pass};
use crate::typeck_spec::{EnvV, LocalsV, ModuleExportsV};
use crate::typeck::{Env, Locals, locals_v, locals_insert, clone_locals, clone_type, clone_types, types_compatible};
use crate::types::{type_to_string};
use crate::checker::{check_expr, check_stmt};
use crate::plans::q_text;
use crate::text::{string_of, concat_str};
use crate::checker::fail;

verus! {

/// Registered structs.
pub type StructsReg = Vec<(String, Vec<(String, Type)>)>;

/// Registered enums.
pub type EnumsReg = Vec<(String, Vec<(String, Vec<Type>)>)>;

/// Registered traits.
pub type TraitsReg = Vec<(String, Vec<(String, Vec<Type>, Type)>)>;

/// The views of parameters.
pub open spec fn params_v(ps: Seq<Param>) -> Seq<ParamV> {
    ps.map_values(|p: Param| p@)
}

// ─── Registry updates ──────────────────────────────────────────────────────

/// The structs registry with `k` bound to `v`.
pub fn structs_insert(reg: &mut StructsReg, k: String, v: Vec<(String, Type)>)
    ensures
        structs_reg_v(final(reg)@) == assoc_insert(structs_reg_v(old(reg)@), k@, fields_tv(v@)),
{
    let i = find_key(reg, &k);
    proof {
        lemma_key_index_is(structs_reg_v(reg@), k@, i as int);
    }
    let ghost rv = structs_reg_v(reg@);
    let ghost vv = fields_tv(v@);
    if i < reg.len() {
        reg.set(i, (k, v));
        assert(structs_reg_v(reg@) =~= rv.update(i as int, (rv[i as int].0, vv)));
    } else {
        reg.push((k, v));
        assert(structs_reg_v(reg@) =~= rv.push((k@, vv)));
    }
}

/// The enums registry with `k` bound to `v`.
pub fn enums_insert(reg: &mut EnumsReg, k: String, v: Vec<(String, Vec<Type>)>)
    ensures
        enums_reg_v(final(reg)@) == assoc_insert(enums_reg_v(old(reg)@), k@, variants_tv(v@)),
{
    let i = find_key(reg, &k);
    proof {
        lemma_key_index_is(enums_reg_v(reg@), k@, i as int);
    }
    let ghost rv = enums_reg_v(reg@);
    let ghost vv = variants_tv(v@);
    if i < reg.len() {
        reg.set(i, (k, v));
        assert(enums_reg_v(reg@) =~= rv.update(i as int, (rv[i as int].0, vv)));
    } else {
        reg.push((k, v));
        assert(enums_reg_v(reg@) =~= rv.push((k@, vv)));
    }
}

/// The traits registry with `k` bound to `v`.
pub fn traits_insert(reg: &mut TraitsReg, k: String, v: Vec<(String, Vec<Type>, Type)>)
    ensures
        traits_reg_v(final(reg)@) == assoc_insert(traits_reg_v(old(reg)@), k@, trait_sigs_v(v@)),
{
    let i = find_key(reg, &k);
    proof {
        lemma_key_index_is(traits_reg_v(reg@), k@, i as int);
    }
    let ghost rv = traits_reg_v(reg@);
    let ghost vv = trait_sigs_v(v@);
    if i < reg.len() {
        reg.set(i, (k, v));
        assert(traits_reg_v(reg@) =~= rv.update(i as int, (rv[i as int].0, vv)));
    } else {
        reg.push((k, v));
        assert(traits_reg_v(reg@) =~= rv.push((k@, vv)));
    }
}

/// The signatures with `k` bound to `v`.
pub fn sigs_insert(reg: &mut Vec<(String, FunctionSignature)>, k: String, v: FunctionSignature)
    ensures
        sigs_reg_v(final(reg)@) == assoc_insert(sigs_reg_v(old(reg)@), k@, v@),
{
    let i = find_key(reg, &k);
    proof {
        lemma_key_index_is(sigs_reg_v(reg@), k@, i as int);
    }
    let ghost rv = sigs_reg_v(reg@);
    let ghost vv = v@;
    if i < reg.len() {
        reg.set(i, (k, v));
        assert(sigs_reg_v(reg@) =~= rv.update(i as int, (rv[i as int].0, vv)));
    } else {
        reg.push((k, v));
        assert(sigs_reg_v(reg@) =~= rv.push((k@, vv)));
    }
}

/// The generic functions with `k` bound to `v`.
pub fn generics_insert(reg: &mut Vec<(String, GenericFnInfo)>, k: String, v: GenericFnInfo)
    ensures
        generics_reg_v(final(reg)@) == assoc_insert(generics_reg_v(old(reg)@), k@, v@),
{
    let i = find_key(reg, &k);
    proof {
        lemma_key_index_is(generics_reg_v(reg@), k@, i as int);
    }
    let ghost rv = generics_reg_v(reg@);
    let ghost vv = v@;
    if i < reg.len() {
        reg.set(i, (k, v));
        assert(generics_reg_v(reg@) =~= rv.update(i as int, (rv[i as int].0, vv)));
    } else {
        reg.push((k, v));
        assert(generics_reg_v(reg@) =~= rv.push((k@, vv)));
    }
}

/// The methods with the pair `(a, b)` bound to `v`.
pub fn methods_insert(reg: &mut Vec<((String, String), FunctionSignature)>, a: String, b: String, v: FunctionSignature)
    ensures
        methods_reg_v(final(reg)@) == assoc_insert(methods_reg_v(old(reg)@), (a@, b@), v@),
{
    let i = find_key2(reg, &a, &b);
    let ghost rv = methods_reg_v(reg@);
    proof {
        lemma_key_index(rv, (a@, b@));
        let r = key_index(rv, (a@, b@));
        if r < i {
            assert(rv[r].0 == (a@, b@));
        } else if i < r {
            assert(rv[i as int].0 != (a@, b@));
        }
    }
    let ghost vv = v@;
    if i < reg.len() {
        reg.set(i, ((a, b), v));
        assert(methods_reg_v(reg@) =~= rv.update(i as int, (rv[i as int].0, vv)));
    } else {
        reg.push(((a, b), v));
        assert(methods_reg_v(reg@) =~= rv.push(((a@, b@), vv)));
    }
}

// ─── Types of declarations ─────────────────────────────────────────────────

/// The types of the parameters `ps[skip..]`, or the first error.
pub fn resolve_params(
    ps: &Vec<Param>,
    skip: usize,
    structs: &StructsReg,
    enums: &EnumsReg,
    ms: &Vec<(String, ModuleExports)>,
) -> (r: Result<Vec<Type>, TypeError>)
    requires
        skip <= ps@.len(),
    ensures
        match r {
            Ok(ts) => param_types(params_v(ps@).subrange(skip as int, ps@.len() as int), structs_reg_v(structs@), enums_reg_v(enums@), modules_v(ms@))
                == Ok::<Seq<TypeV>, Seq<char>>(types_v(ts@)),
            Err(e) => param_types(params_v(ps@).subrange(skip as int, ps@.len() as int), structs_reg_v(structs@), enums_reg_v(enums@), modules_v(ms@))
                == Err::<Seq<TypeV>, Seq<char>>(e.message@),
        },
{
    let ghost names = param_type_names(params_v(ps@).subrange(skip as int, ps@.len() as int));
    let ghost sv = structs_reg_v(structs@);
    let ghost ev = enums_reg_v(enums@);
    let ghost mv = modules_v(ms@);
    let mut out: Vec<Type> = Vec::new();
    let mut i: usize = skip;
    while i < ps.len()
        invariant
            skip <= i <= ps@.len(),
            names == param_type_names(params_v(ps@).subrange(skip as int, ps@.len() as int)),
            names.len() == ps@.len() - skip,
            forall|j: int| 0 <= j < names.len() ==> #[trigger] names[j] == ps@[skip + j].ty_name.name@,
            sv == structs_reg_v(structs@),
            ev == enums_reg_v(enums@),
            mv == modules_v(ms@),
            resolve_names(names, 0, sv, ev, mv, Seq::empty()) == resolve_names(names, i - skip, sv, ev, mv, types_v(out@)),
        decreases ps@.len() - i,
    {
        assert(names[i - skip] == ps@[i as int].ty_name.name@);
        let t = match resolve_type(&ps[i].ty_name.name, structs, enums, ms) {
            Ok(t) => t,
            Err(e) => return Err(e),
        };
        let ghost before = out@;
        out.push(t);
        assert(out@.drop_last() =~= before);
        i = i + 1;
    }
    Ok(out)
}

/// The fields of a struct definition, resolved against the structs so far.
fn resolve_struct_fields(fs: &Vec<StructField>, structs: &StructsReg, ms: &Vec<(String, ModuleExports)>) -> (r: Result<
    Vec<(String, Type)>,
    TypeError,
>)
    ensures
        match r {
            Ok(out) => struct_fields_pass(fs@.map_values(|f: StructField| f@), 0, structs_reg_v(structs@), modules_v(ms@), Seq::empty())
                == Ok::<FieldsV, Seq<char>>(fields_tv(out@)),
            Err(e) => struct_fields_pass(fs@.map_values(|f: StructField| f@), 0, structs_reg_v(structs@), modules_v(ms@), Seq::empty())
                == Err::<FieldsV, Seq<char>>(e.message@),
        },
{
    let ghost fv = fs@.map_values(|f: StructField| f@);
    let ghost sv = structs_reg_v(structs@);
    let ghost mv = modules_v(ms@);
    let no_enums: EnumsReg = Vec::new();
    assert(enums_reg_v(no_enums@) =~= Seq::<(Seq<char>, VariantsV)>::empty());
    let mut out: Vec<(String, Type)> = Vec::new();
    let mut i: usize = 0;
    while i < fs.len()
        invariant
            i <= fs@.len(),
            fv == fs@.map_values(|f: StructField| f@),
            sv == structs_reg_v(structs@),
            mv == modules_v(ms@),
            enums_reg_v(no_enums@) == Seq::<(Seq<char>, VariantsV)>::empty(),
            struct_fields_pass(fv, 0, sv, mv, Seq::empty()) == struct_fields_pass(fv, i as int, sv, mv, fields_tv(out@)),
        decreases fs@.len() - i,
    {
        assert(fv[i as int] == fs@[i as int]@);
        let t = match resolve_type(&fs[i].ty_name.name, structs, &no_enums, ms) {
            Ok(t) => t,
            Err(e) => return Err(e),
        };
        let ghost before = out@;
        out.push((fs[i].name.clone(), t));
        assert(out@.drop_last() =~= before);
        i = i + 1;
    }
    Ok(out)
}

/// The structs registry of a program's struct definitions.
pub fn structs_registry(ss: &Vec<StructDef>, ms: &Vec<(String, ModuleExports)>) -> (r: Result<StructsReg, TypeError>)
    ensures
        match r {
            Ok(reg) => structs_pass(ss@.map_values(|s: StructDef| s@), 0, Seq::empty(), modules_v(ms@))
                == Ok::<StructsRegV, Seq<char>>(structs_reg_v(reg@)),
            Err(e) => structs_pass(ss@.map_values(|s: StructDef| s@), 0, Seq::empty(), modules_v(ms@))
                == Err::<StructsRegV, Seq<char>>(e.message@),
        },
{
    let ghost sv = ss@.map_values(|s: StructDef| s@);
    let ghost mv = modules_v(ms@);
    let mut reg: StructsReg = Vec::new();
    assert(structs_reg_v(reg@) =~= Seq::<(Seq<char>, FieldsV)>::empty());
    let mut i: usize = 0;
    while i < ss.len()
        invariant
            i <= ss@.len(),
            sv == ss@.map_values(|s: StructDef| s@),
            mv == modules_v(ms@),
            structs_pass(sv, 0, Seq::empty(), mv) == structs_pass(sv, i as int, structs_reg_v(reg@), mv),
        decreases ss@.len() - i,
    {
        assert(sv[i as int] == ss@[i as int]@);
        assert(sv[i as int].fields =~= ss@[i as int].fields@.map_values(|f: StructField| f@));
        let fs = match resolve_struct_fields(&ss[i].fields, &reg, ms) {
            Ok(fs) => fs,
            Err(e) => return Err(e),
        };
        structs_insert(&mut reg, ss[i].name.clone(), fs);
        i = i + 1;
    }
    Ok(reg)
}

/// The types named by `ts`, or the first error.
fn resolve_type_names(ts: &Vec<TypeName>, structs: &StructsReg, enums: &EnumsReg, ms: &Vec<(String, ModuleExports)>) -> (r: Result<
    Vec<Type>,
    TypeError,
>)
    ensures
        match r {
            Ok(out) => resolve_names(type_name_texts(ts@.map_values(|t: TypeName| t@)), 0, structs_reg_v(structs@), enums_reg_v(enums@), modules_v(ms@), Seq::empty())
                == Ok::<Seq<TypeV>, Seq<char>>(types_v(out@)),
            Err(e) => resolve_names(type_name_texts(ts@.map_values(|t: TypeName| t@)), 0, structs_reg_v(structs@), enums_reg_v(enums@), modules_v(ms@), Seq::empty())
                == Err::<Seq<TypeV>, Seq<char>>(e.message@),
        },
{
    let ghost names = type_name_texts(ts@.map_values(|t: TypeName| t@));
    let ghost sv = structs_reg_v(structs@);
    let ghost ev = enums_reg_v(enums@);
    let ghost mv = modules_v(ms@);
    let mut out: Vec<Type> = Vec::new();
    let mut i: usize = 0;
    while i < ts.len()
        invariant
            i <= ts@.len(),
            names == type_name_texts(ts@.map_values(|t: TypeName| t@)),
            names.len() == ts@.len(),
            forall|j: int| 0 <= j < names.len() ==> #[trigger] names[j] == ts@[j].name@,
            sv == structs_reg_v(structs@),
            ev == enums_reg_v(enums@),
            mv == modules_v(ms@),
            resolve_names(names, 0, sv, ev, mv, Seq::empty()) == resolve_names(names, i as int, sv, ev, mv, types_v(out@)),
        decreases ts@.len() - i,
    {
        assert(names[i as int] == ts@[i as int].name@);
        let t = match resolve_type(&ts[i].name, structs, enums, ms) {
            Ok(t) => t,
            Err(e) => return Err(e),
        };
        let ghost before = out@;
        out.push(t);
        assert(out@.drop_last() =~= before);
        i = i + 1;
    }
    Ok(out)
}

/// The variants of an enum definition.
fn resolve_variants(vs: &Vec<EnumVariant>, structs: &StructsReg, enums: &EnumsReg, ms: &Vec<(String, ModuleExports)>) -> (r: Result<
    Vec<(String, Vec<Type>)>,
    TypeError,
>)
    ensures
        match r {
            Ok(out) => variants_pass(vs@.map_values(|v: EnumVariant| v@), 0, structs_reg_v(structs@), enums_reg_v(enums@), modules_v(ms@), Seq::empty())
                == Ok::<VariantsV, Seq<char>>(variants_tv(out@)),
            Err(e) => variants_pass(vs@.map_values(|v: EnumVariant| v@), 0, structs_reg_v(structs@), enums_reg_v(enums@), modules_v(ms@), Seq::empty())
                == Err::<VariantsV, Seq<char>>(e.message@),
        },
{
    let ghost vv = vs@.map_values(|v: EnumVariant| v@);
    let ghost sv = structs_reg_v(structs@);
    let ghost ev = enums_reg_v(enums@);
    let ghost mv = modules_v(ms@);
    let mut out: Vec<(String, Vec<Type>)> = Vec::new();
    let mut i: usize = 0;
    while i < vs.len()
        invariant
            i <= vs@.len(),
            vv == vs@.map_values(|v: EnumVariant| v@),
            sv == structs_reg_v(structs@),
            ev == enums_reg_v(enums@),
            mv == modules_v(ms@),
            variants_pass(vv, 0, sv, ev, mv, Seq::empty()) == variants_pass(vv, i as int, sv, ev, mv, variants_tv(out@)),
        decreases vs@.len() - i,
    {
        assert(vv[i as int] == vs@[i as int]@);
        assert(vv[i as int].fields =~= vs@[i as int].fields@.map_values(|t: TypeName| t@));
        let ts = match resolve_type_names(&vs[i].fields, structs, enums, ms) {
            Ok(ts) => ts,
            Err(e) => return Err(e),
        };
        let ghost before = out@;
        out.push((vs[i].name.clone(), ts));
        assert(out@.drop_last() =~= before);
        i = i + 1;
    }
    Ok(out)
}

/// The enums registry of a program's enum definitions.
pub fn enums_registry(es: &Vec<EnumDef>, structs: &StructsReg, ms: &Vec<(String, ModuleExports)>) -> (r: Result<
    EnumsReg,
    TypeError,
>)
    ensures
        match r {
            Ok(reg) => enums_pass(es@.map_values(|e: EnumDef| e@), 0, structs_reg_v(structs@), Seq::empty(), modules_v(ms@))
                == Ok::<EnumsRegV, Seq<char>>(enums_reg_v(reg@)),
            Err(e) => enums_pass(es@.map_values(|e: EnumDef| e@), 0, structs_reg_v(structs@), Seq::empty(), modules_v(ms@))
                == Err::<EnumsRegV, Seq<char>>(e.message@),
        },
{
    let ghost dv = es@.map_values(|e: EnumDef| e@);
    let ghost sv = structs_reg_v(structs@);
    let ghost mv = modules_v(ms@);
    let mut reg: EnumsReg = Vec::new();
    assert(enums_reg_v(reg@) =~= Seq::<(Seq<char>, VariantsV)>::empty());
    let mut i: usize = 0;
    while i < es.len()
        invariant
            i <= es@.len(),
            dv == es@.map_values(|e: EnumDef| e@),
            sv == structs_reg_v(structs@),
            mv == modules_v(ms@),
            enums_pass(dv, 0, sv, Seq::empty(), mv) == enums_pass(dv, i as int, sv, enums_reg_v(reg@), mv),
        decreases es@.len() - i,
    {
        assert(dv[i as int] == es@[i as int]@);
        assert(dv[i as int].variants =~= es@[i as int].variants@.map_values(|v: EnumVariant| v@));
        let vs = match resolve_variants(&es[i].variants, structs, &reg, ms) {
            Ok(vs) => vs,
            Err(e) => return Err(e),
        };
        enums_insert(&mut reg, es[i].name.clone(), vs);
        i = i + 1;
    }
    Ok(reg)
}

/// The signatures of a trait's methods.
fn resolve_trait_methods(tms: &Vec<TraitMethodSig>, structs: &StructsReg, enums: &EnumsReg, ms: &Vec<(String, ModuleExports)>) -> (r: Result<
    Vec<(String, Vec<Type>, Type)>,
    TypeError,
>)
    ensures
        match r {
            Ok(out) => trait_methods_pass(tms@.map_values(|m: TraitMethodSig| m@), 0, structs_reg_v(structs@), enums_reg_v(enums@), modules_v(ms@), Seq::empty())
                == Ok::<Seq<(Seq<char>, Seq<TypeV>, TypeV)>, Seq<char>>(trait_sigs_v(out@)),
            Err(e) => trait_methods_pass(tms@.map_values(|m: TraitMethodSig| m@), 0, structs_reg_v(structs@), enums_reg_v(enums@), modules_v(ms@), Seq::empty())
                == Err::<Seq<(Seq<char>, Seq<TypeV>, TypeV)>, Seq<char>>(e.message@),
        },
{
    let ghost tv = tms@.map_values(|m: TraitMethodSig| m@);
    let ghost sv = structs_reg_v(structs@);
    let ghost ev = enums_reg_v(enums@);
    let ghost mv = modules_v(ms@);
    let mut out: Vec<(String, Vec<Type>, Type)> = Vec::new();
    assert(trait_sigs_v(out@) =~= Seq::<(Seq<char>, Seq<TypeV>, TypeV)>::empty());
    let mut i: usize = 0;
    while i < tms.len()
        invariant
            i <= tms@.len(),
            tv == tms@.map_values(|m: TraitMethodSig| m@),
            sv == structs_reg_v(structs@),
            ev == enums_reg_v(enums@),
            mv == modules_v(ms@),
            trait_methods_pass(tv, 0, sv, ev, mv, Seq::empty()) == trait_methods_pass(tv, i as int, sv, ev, mv, trait_sigs_v(out@)),
        decreases tms@.len() - i,
    {
        assert(tv[i as int] == tms@[i as int]@);
        assert(tv[i as int].params =~= params_v(tms@[i as int].params@));
        assert(params_v(tms@[i as int].params@).subrange(0, tms@[i as int].params@.len() as int) =~= params_v(tms@[i as int].params@));
        let ps = match resolve_params(&tms[i].params, 0, structs, enums, ms) {
            Ok(ps) => ps,
            Err(e) => return Err(e),
        };
        let r = match resolve_type(&tms[i].return_type.name, structs, enums, ms) {
            Ok(t) => t,
            Err(e) => return Err(e),
        };
        let ghost before = out@;
        out.push((tms[i].name.clone(), ps, r));
        assert(trait_sigs_v(out@) =~= trait_sigs_v(before).push((tms@[i as int].name@, types_v(ps@), r@)));
        i = i + 1;
    }
    Ok(out)
}

/// The traits registry of a program's trait definitions.
pub fn traits_registry(ts: &Vec<TraitDef>, structs: &StructsReg, enums: &EnumsReg, ms: &Vec<(String, ModuleExports)>) -> (r: Result<
    TraitsReg,
    TypeError,
>)
    ensures
        match r {
            Ok(reg) => traits_pass(ts@.map_values(|t: TraitDef| t@), 0, structs_reg_v(structs@), enums_reg_v(enums@), modules_v(ms@), Seq::empty())
                == Ok::<TraitsRegV, Seq<char>>(traits_reg_v(reg@)),
            Err(e) => traits_pass(ts@.map_values(|t: TraitDef| t@), 0, structs_reg_v(structs@), enums_reg_v(enums@), modules_v(ms@), Seq::empty())
                == Err::<TraitsRegV, Seq<char>>(e.message@),
        },
{
    let ghost dv = ts@.map_values(|t: TraitDef| t@);
    let ghost sv = structs_reg_v(structs@);
    let ghost ev = enums_reg_v(enums@);
    let ghost mv = modules_v(ms@);
    let mut reg: TraitsReg = Vec::new();
    assert(traits_reg_v(reg@) =~= Seq::<(Seq<char>, Seq<(Seq<char>, Seq<TypeV>, TypeV)>)>::empty());
    let mut i: usize = 0;
    while i < ts.len()
        invariant
            i <= ts@.len(),
            dv == ts@.map_values(|t: TraitDef| t@),
            sv == structs_reg_v(structs@),
            ev == enums_reg_v(enums@),
            mv == modules_v(ms@),
            traits_pass(dv, 0, sv, ev, mv, Seq::empty()) == traits_pass(dv, i as int, sv, ev, mv, traits_reg_v(reg@)),
        decreases ts@.len() - i,
    {
        assert(dv[i as int] == ts@[i as int]@);
        assert(dv[i as int].methods =~= ts@[i as int].methods@.map_values(|m: TraitMethodSig| m@));
        let tms = match resolve_trait_methods(&ts[i].methods, structs, enums, ms) {
            Ok(v) => v,
            Err(e) => return Err(e),
        };
        traits_insert(&mut reg, ts[i].name.clone(), tms);
        i = i + 1;
    }
    Ok(reg)
}

// ─── Impl blocks ───────────────────────────────────────────────────────────

/// Every method of an impl block has its `self` parameter.
pub open spec fn methods_have_self(fs: Seq<FunctionV>) -> bool {
    forall|k: int| 0 <= k < fs.len() ==> (#[trigger] fs[k]).params.len() >= 1
}

/// The views of functions.
pub open spec fn functions_v(fs: Seq<Function>) -> Seq<FunctionV> {
    fs.map_values(|f: Function| f@)
}

/// The first index holding a method of the given name is `method_index`.
proof fn lemma_method_index(fs: Seq<FunctionV>, name: Seq<char>, i: int)
    requires
        0 <= i <= fs.len(),
        forall|j: int| 0 <= j < i ==> (#[trigger] fs[j]).name != name,
        i < fs.len() ==> fs[i].name == name,
    ensures
        method_index(fs, name) == i,
    decreases fs.len(),
{
    if fs.len() > 0 && i > 0 {
        assert(fs[0].name != name);
        assert forall|j: int| 0 <= j < i - 1 implies (#[trigger] fs.drop_first()[j]).name != name by {
            assert(fs.drop_first()[j] == fs[j + 1]);
        }
        lemma_method_index(fs.drop_first(), name, i - 1);
    }
}

/// The index of the first method named `name`, or the length.
fn find_method(fs: &Vec<Function>, name: &String) -> (r: usize)
    ensures
        r == method_index(functions_v(fs@), name@),
        r <= fs@.len(),
{
    let ghost fv = functions_v(fs@);
    let mut i: usize = 0;
    while i < fs.len()
        invariant
            i <= fs@.len(),
            fv == functions_v(fs@),
            forall|j: int| 0 <= j < i ==> (#[trigger] fv[j]).name != name@,
        decreases fs@.len() - i,
    {
        if fs[i].name == *name {
            proof {
                lemma_method_index(fv, name@, i as int);
            }
            return i;
        }
        assert(fv[i as int].name == fs@[i as int].name@);
        i = i + 1;
    }
    proof {
        lemma_method_index(fv, name@, i as int);
    }
    i
}

/// The check of an impl of trait `tn` for `target` against the trait's
/// methods `tms`.
fn check_conformance(
    tn: &String,
    target: &String,
    fs: &Vec<Function>,
    tms: &Vec<(String, Vec<Type>, Type)>,
    structs: &StructsReg,
    enums: &EnumsReg,
    ms: &Vec<(String, ModuleExports)>,
) -> (r: Result<(), TypeError>)
    requires
        methods_have_self(functions_v(fs@)),
    ensures
        match r {
            Ok(_) => conformance(tn@, target@, functions_v(fs@), trait_sigs_v(tms@), 0, structs_reg_v(structs@), enums_reg_v(enums@), modules_v(ms@))
                == Ok::<(), Seq<char>>(()),
            Err(e) => conformance(tn@, target@, functions_v(fs@), trait_sigs_v(tms@), 0, structs_reg_v(structs@), enums_reg_v(enums@), modules_v(ms@))
                == Err::<(), Seq<char>>(e.message@),
        },
{
    let ghost fv = functions_v(fs@);
    let ghost tv = trait_sigs_v(tms@);
    let ghost sv = structs_reg_v(structs@);
    let ghost ev = enums_reg_v(enums@);
    let ghost mv = modules_v(ms@);
    let mut j: usize = 0;
    while j < tms.len()
        invariant
            j <= tms@.len(),
            fv == functions_v(fs@),
            tv == trait_sigs_v(tms@),
            tv.len() == tms@.len(),
            methods_have_self(fv),
            sv == structs_reg_v(structs@),
            ev == enums_reg_v(enums@),
            mv == modules_v(ms@),
            conformance(tn@, target@, fv, tv, 0, sv, ev, mv) == conformance(tn@, target@, fv, tv, j as int, sv, ev, mv),
        decreases tms@.len() - j,
    {
        let mname = &tms[j].0;
        assert(tv[j as int] == (mname@, types_v(tms@[j as int].1@), tms@[j as int].2@));
        let k = find_method(fs, mname);
        if k >= fs.len() {
            return fail(concat_str(
                concat_str(concat_str(concat_str(concat_str(string_of("impl "), tn.as_str()), " for "), target.as_str()), " is missing method "),
                q_text(mname.as_str()).as_str(),
            ));
        }
        assert(fv[k as int] == fs@[k as int]@);
        assert(fv[k as int].params.len() >= 1);
        assert(fv[k as int].params.drop_first() =~= params_v(fs@[k as int].params@).subrange(1, fs@[k as int].params@.len() as int));
        let actual = match resolve_params(&fs[k].params, 1, structs, enums, ms) {
            Ok(ts) => ts,
            Err(e) => return Err(e),
        };
        if !types_eq(&actual, &tms[j].1) {
            return fail(concat_str(
                concat_str(concat_str(concat_str(string_of("method "), q_text(mname.as_str()).as_str()), " params don't match trait "), q_text(tn.as_str()).as_str()),
                " signature",
            ));
        }
        let rt = match resolve_type(&fs[k].return_type.name, structs, enums, ms) {
            Ok(t) => t,
            Err(e) => return Err(e),
        };
        if !type_eq(&rt, &tms[j].2) {
            return fail(concat_str(
                concat_str(
                    concat_str(concat_str(string_of("method "), q_text(mname.as_str()).as_str()), " return type doesn't match trait "),
                    q_text(tn.as_str()).as_str(),
                ),
                " signature",
            ));
        }
        j = j + 1;
    }
    Ok(())
}

/// The methods registry after the methods of an impl for `target`.
fn register_impl_methods(
    target: &String,
    fs: &Vec<Function>,
    structs: &StructsReg,
    enums: &EnumsReg,
    ms: &Vec<(String, ModuleExports)>,
    mreg: &mut Vec<((String, String), FunctionSignature)>,
) -> (r: Result<(), TypeError>)
    requires
        methods_have_self(functions_v(fs@)),
    ensures
        match r {
            Ok(_) => impl_methods_pass(target@, functions_v(fs@), 0, structs_reg_v(structs@), enums_reg_v(enums@), modules_v(ms@), methods_reg_v(old(mreg)@))
                == Ok::<MethodsRegV, Seq<char>>(methods_reg_v(final(mreg)@)),
            Err(e) => impl_methods_pass(target@, functions_v(fs@), 0, structs_reg_v(structs@), enums_reg_v(enums@), modules_v(ms@), methods_reg_v(old(mreg)@))
                == Err::<MethodsRegV, Seq<char>>(e.message@),
        },
{
    let ghost fv = functions_v(fs@);
    let ghost sv = structs_reg_v(structs@);
    let ghost ev = enums_reg_v(enums@);
    let ghost mv = modules_v(ms@);
    let ghost m0 = methods_reg_v(mreg@);
    let mut k: usize = 0;
    while k < fs.len()
        invariant
            k <= fs@.len(),
            fv == functions_v(fs@),
            methods_have_self(fv),
            sv == structs_reg_v(structs@),
            ev == enums_reg_v(enums@),
            mv == modules_v(ms@),
            m0 == methods_reg_v(old(mreg)@),
            impl_methods_pass(target@, fv, 0, sv, ev, mv, m0) == impl_methods_pass(target@, fv, k as int, sv, ev, mv, methods_reg_v(mreg@)),
        decreases fs@.len() - k,
    {
        assert(fv[k as int] == fs@[k as int]@);
        assert(fv[k as int].params.len() >= 1);
        assert(fv[k as int].params.drop_first() =~= params_v(fs@[k as int].params@).subrange(1, fs@[k as int].params@.len() as int));
        let ps = match resolve_params(&fs[k].params, 1, structs, enums, ms) {
            Ok(ts) => ts,
            Err(e) => return Err(e),
        };
        let rt = match resolve_type(&fs[k].return_type.name, structs, enums, ms) {
            Ok(t) => t,
            Err(e) => return Err(e),
        };
        methods_insert(mreg, target.clone(), fs[k].name.clone(), FunctionSignature { params: ps, return_type: rt });
        k = k + 1;
    }
    Ok(())
}

/// The impl blocks of a program whose methods all have `self`.
pub open spec fn impls_have_self(is: Seq<ImplBlock>) -> bool {
    forall|i: int| 0 <= i < is.len() ==> methods_have_self(functions_v((#[trigger] is[i]).methods@))
}

/// The methods registry of a program's impl blocks, each trait impl checked
/// against its trait first.
pub fn methods_registry(
    is: &Vec<ImplBlock>,
    structs: &StructsReg,
    enums: &EnumsReg,
    traits: &TraitsReg,
    ms: &Vec<(String, ModuleExports)>,
) -> (r: Result<Vec<((String, String), FunctionSignature)>, TypeError>)
    requires
        impls_have_self(is@),
    ensures
        match r {
            Ok(reg) => impls_pass(is@.map_values(|i: ImplBlock| i@), 0, structs_reg_v(structs@), enums_reg_v(enums@), traits_reg_v(traits@), modules_v(ms@), Seq::empty())
                == Ok::<MethodsRegV, Seq<char>>(methods_reg_v(reg@)),
            Err(e) => impls_pass(is@.map_values(|i: ImplBlock| i@), 0, structs_reg_v(structs@), enums_reg_v(enums@), traits_reg_v(traits@), modules_v(ms@), Seq::empty())
                == Err::<MethodsRegV, Seq<char>>(e.message@),
        },
{
    let ghost iv = is@.map_values(|i: ImplBlock| i@);
    let ghost sv = structs_reg_v(structs@);
    let ghost ev = enums_reg_v(enums@);
    let ghost tv = traits_reg_v(traits@);
    let ghost mv = modules_v(ms@);
    let mut reg: Vec<((String, String), FunctionSignature)> = Vec::new();
    assert(methods_reg_v(reg@) =~= Seq::<((Seq<char>, Seq<char>), SigV)>::empty());
    let mut i: usize = 0;
    while i < is.len()
        invariant
            i <= is@.len(),
            iv == is@.map_values(|i: ImplBlock| i@),
            impls_have_self(is@),
            sv == structs_reg_v(structs@),
            ev == enums_reg_v(enums@),
            tv == traits_reg_v(traits@),
            mv == modules_v(ms@),
            impls_pass(iv, 0, sv, ev, tv, mv, Seq::empty()) == impls_pass(iv, i as int, sv, ev, tv, mv, methods_reg_v(reg@)),
        decreases is@.len() - i,
    {
        let imp = &is[i];
        assert(iv[i as int] == imp@);
        assert(imp@.methods =~= functions_v(imp.methods@));
        assert(methods_have_self(functions_v(is@[i as int].methods@)));
        match &imp.trait_name {
            Some(tn) => {
                let ti = find_key(traits, tn);
                proof {
                    lemma_key_index_is(tv, tn@, ti as int);
                }
                if ti >= traits.len() {
                    return fail(concat_str(string_of("undefined trait "), q_text(tn.as_str()).as_str()));
                }
                match check_conformance(tn, &imp.target_type, &imp.methods, &traits[ti].1, structs, enums, ms) {
                    Ok(_) => {},
                    Err(e) => return Err(e),
                }
            },
            None => {},
        }
        match register_impl_methods(&imp.target_type, &imp.methods, structs, enums, ms, &mut reg) {
            Ok(_) => {},
            Err(e) => return Err(e),
        }
        i = i + 1;
    }
    Ok(reg)
}

// ─── Function signatures ───────────────────────────────────────────────────

/// The description of a generic function.
fn generic_info_of(f: &Function) -> (r: GenericFnInfo)
    ensures
        r@ == generic_info(f@),
{
    let mut tps: Vec<(String, Option<String>)> = Vec::new();
    let mut i: usize = 0;
    while i < f.type_params.len()
        invariant
            i <= f.type_params@.len(),
            tps@.len() == i,
            forall|j: int| 0 <= j < i ==> (#[trigger] tps@[j]).0@ == f.type_params@[j].name@ && crate::typeck::opt_text(tps@[j].1)
                == opt_string_v(f.type_params@[j].bound),
        decreases f.type_params@.len() - i,
    {
        let tp = &f.type_params[i];
        let b = match &tp.bound {
            Some(x) => Some(x.clone()),
            None => None,
        };
        tps.push((tp.name.clone(), b));
        i = i + 1;
    }
    let mut pts: Vec<String> = Vec::new();
    let mut k: usize = 0;
    while k < f.params.len()
        invariant
            k <= f.params@.len(),
            pts@.len() == k,
            forall|j: int| 0 <= j < k ==> (#[trigger] pts@[j])@ == f.params@[j].ty_name.name@,
        decreases f.params@.len() - k,
    {
        pts.push(f.params[k].ty_name.name.clone());
        k = k + 1;
    }
    let r = GenericFnInfo { type_params: tps, param_types: pts, return_type_name: f.return_type.name.clone() };
    assert(r@.type_params =~= generic_info(f@).type_params);
    assert(r@.param_types =~= generic_info(f@).param_types);
    r
}

/// The signatures of a program's functions: those without type parameters
/// and the generic ones.
pub fn signatures(
    fs: &Vec<Function>,
    structs: &StructsReg,
    enums: &EnumsReg,
    ms: &Vec<(String, ModuleExports)>,
) -> (r: Result<(Vec<(String, FunctionSignature)>, Vec<(String, GenericFnInfo)>), TypeError>)
    ensures
        match r {
            Ok(p) => signatures_pass(functions_v(fs@), 0, structs_reg_v(structs@), enums_reg_v(enums@), modules_v(ms@), Seq::empty(), Seq::empty())
                == Ok::<(Seq<(Seq<char>, SigV)>, Seq<(Seq<char>, GenericFnInfoV)>), Seq<char>>((sigs_reg_v(p.0@), generics_reg_v(p.1@))),
            Err(e) => signatures_pass(functions_v(fs@), 0, structs_reg_v(structs@), enums_reg_v(enums@), modules_v(ms@), Seq::empty(), Seq::empty())
                == Err::<(Seq<(Seq<char>, SigV)>, Seq<(Seq<char>, GenericFnInfoV)>), Seq<char>>(e.message@),
        },
{
    let ghost fv = functions_v(fs@);
    let ghost sv = structs_reg_v(structs@);
    let ghost ev = enums_reg_v(enums@);
    let ghost mv = modules_v(ms@);
    let mut fenv: Vec<(String, FunctionSignature)> = Vec::new();
    let mut genv: Vec<(String, GenericFnInfo)> = Vec::new();
    assert(sigs_reg_v(fenv@) =~= Seq::<(Seq<char>, SigV)>::empty());
    assert(generics_reg_v(genv@) =~= Seq::<(Seq<char>, GenericFnInfoV)>::empty());
    let mut i: usize = 0;
    while i < fs.len()
        invariant
            i <= fs@.len(),
            fv == functions_v(fs@),
            sv == structs_reg_v(structs@),
            ev == enums_reg_v(enums@),
            mv == modules_v(ms@),
            signatures_pass(fv, 0, sv, ev, mv, Seq::empty(), Seq::empty()) == signatures_pass(
                fv,
                i as int,
                sv,
                ev,
                mv,
                sigs_reg_v(fenv@),
                generics_reg_v(genv@),
            ),
        decreases fs@.len() - i,
    {
        let f = &fs[i];
        assert(fv[i as int] == f@);
        if f.type_params.len() == 0 {
            assert(f@.params =~= params_v(f.params@).subrange(0, f.params@.len() as int));
            let ps = match resolve_params(&f.params, 0, structs, enums, ms) {
                Ok(ts) => ts,
                Err(e) => return Err(e),
            };
            let rt = match resolve_type(&f.return_type.name, structs, enums, ms) {
                Ok(t) => t,
                Err(e) => return Err(e),
            };
            sigs_insert(&mut fenv, f.name.clone(), FunctionSignature { params: ps, return_type: rt });
        } else {
            let gi = generic_info_of(f);
            generics_insert(&mut genv, f.name.clone(), gi);
        }
        i = i + 1;
    }
    Ok((fenv, genv))
}

/// The functions with the methods `fs` of an impl for `target` added under
/// their mangled names.
fn add_mangled_for_impl(
    target: &String,
    fs: &Vec<Function>,
    structs: &StructsReg,
    enums: &EnumsReg,
    ms: &Vec<(String, ModuleExports)>,
    fenv: &mut Vec<(String, FunctionSignature)>,
) -> (r: Result<(), TypeError>)
    ensures
        match r {
            Ok(_) => mangled_methods_pass(target@, functions_v(fs@), 0, structs_reg_v(structs@), enums_reg_v(enums@), modules_v(ms@), sigs_reg_v(old(fenv)@))
                == Ok::<Seq<(Seq<char>, SigV)>, Seq<char>>(sigs_reg_v(final(fenv)@)),
            Err(e) => mangled_methods_pass(target@, functions_v(fs@), 0, structs_reg_v(structs@), enums_reg_v(enums@), modules_v(ms@), sigs_reg_v(old(fenv)@))
                == Err::<Seq<(Seq<char>, SigV)>, Seq<char>>(e.message@),
        },
{
    let ghost fv = functions_v(fs@);
    let ghost sv = structs_reg_v(structs@);
    let ghost ev = enums_reg_v(enums@);
    let ghost mv = modules_v(ms@);
    let ghost f0 = sigs_reg_v(fenv@);
    let mut k: usize = 0;
    while k < fs.len()
        invariant
            k <= fs@.len(),
            fv == functions_v(fs@),
            sv == structs_reg_v(structs@),
            ev == enums_reg_v(enums@),
            mv == modules_v(ms@),
            f0 == sigs_reg_v(old(fenv)@),
            mangled_methods_pass(target@, fv, 0, sv, ev, mv, f0) == mangled_methods_pass(target@, fv, k as int, sv, ev, mv, sigs_reg_v(fenv@)),
        decreases fs@.len() - k,
    {
        let m = &fs[k];
        assert(fv[k as int] == m@);
        assert(m@.params =~= params_v(m.params@).subrange(0, m.params@.len() as int));
        let ps = match resolve_params(&m.params, 0, structs, enums, ms) {
            Ok(ts) => ts,
            Err(e) => return Err(e),
        };
        let rt = match resolve_type(&m.return_type.name, structs, enums, ms) {
            Ok(t) => t,
            Err(e) => return Err(e),
        };
        let name = concat_str(concat_str(target.clone(), "_"), m.name.as_str());
        assert(name@ == mangled(target@, m.name@));
        sigs_insert(fenv, name, FunctionSignature { params: ps, return_type: rt });
        k = k + 1;
    }
    Ok(())
}

/// The functions with the methods of the impl blocks added under their
/// mangled names `Type_method`, every parameter included.
pub fn add_mangled_methods(
    is: &Vec<ImplBlock>,
    structs: &StructsReg,
    enums: &EnumsReg,
    ms: &Vec<(String, ModuleExports)>,
    fenv: &mut Vec<(String, FunctionSignature)>,
) -> (r: Result<(), TypeError>)
    ensures
        match r {
            Ok(_) => mangled_pass(is@.map_values(|i: ImplBlock| i@), 0, structs_reg_v(structs@), enums_reg_v(enums@), modules_v(ms@), sigs_reg_v(old(fenv)@))
                == Ok::<Seq<(Seq<char>, SigV)>, Seq<char>>(sigs_reg_v(final(fenv)@)),
            Err(e) => mangled_pass(is@.map_values(|i: ImplBlock| i@), 0, structs_reg_v(structs@), enums_reg_v(enums@), modules_v(ms@), sigs_reg_v(old(fenv)@))
                == Err::<Seq<(Seq<char>, SigV)>, Seq<char>>(e.message@),
        },
{
    let ghost iv = is@.map_values(|i: ImplBlock| i@);
    let ghost sv = structs_reg_v(structs@);
    let ghost ev = enums_reg_v(enums@);
    let ghost mv = modules_v(ms@);
    let ghost f0 = sigs_reg_v(fenv@);
    let mut i: usize = 0;
    while i < is.len()
        invariant
            i <= is@.len(),
            iv == is@.map_values(|i: ImplBlock| i@),
            sv == structs_reg_v(structs@),
            ev == enums_reg_v(enums@),
            mv == modules_v(ms@),
            f0 == sigs_reg_v(old(fenv)@),
            mangled_pass(iv, 0, sv, ev, mv, f0) == mangled_pass(iv, i as int, sv, ev, mv, sigs_reg_v(fenv@)),
        decreases is@.len() - i,
    {
        let imp = &is[i];
        assert(iv[i as int] == imp@);
        assert(imp@.methods =~= functions_v(imp.methods@));
        match add_mangled_for_impl(&imp.target_type, &imp.methods, structs, enums, ms, fenv) {
            Ok(_) => {},
            Err(e) => return Err(e),
        }
        i = i + 1;
    }
    Ok(())
}

// ─── Bodies ────────────────────────────────────────────────────────────────

/// The locals of a body: its parameters, none of them assignable.
fn params_locals_exec(ps: &Vec<Param>, g: &Locals, env: &Env) -> (r: Result<Locals, TypeError>)
    ensures
        match r {
            Ok(l) => params_locals(params_v(ps@), 0, env.view().structs, env.view().enums, env.view().modules, locals_v(g@))
                == Ok::<LocalsV, Seq<char>>(locals_v(l@)),
            Err(e) => params_locals(params_v(ps@), 0, env.view().structs, env.view().enums, env.view().modules, locals_v(g@))
                == Err::<LocalsV, Seq<char>>(e.message@),
        },
{
    let ghost pv = params_v(ps@);
    let ghost ev = env.view();
    let mut l: Locals = clone_locals(g);
    let mut i: usize = 0;
    while i < ps.len()
        invariant
            i <= ps@.len(),
            pv == params_v(ps@),
            ev == env.view(),
            params_locals(pv, 0, ev.structs, ev.enums, ev.modules, locals_v(g@)) == params_locals(
                pv,
                i as int,
                ev.structs,
                ev.enums,
                ev.modules,
                locals_v(l@),
            ),
        decreases ps@.len() - i,
    {
        assert(pv[i as int] == ps@[i as int]@);
        let t = match resolve_type(&ps[i].ty_name.name, &env.structs, &env.enums, env.modules) {
            Ok(t) => t,
            Err(e) => return Err(e),
        };
        locals_insert(&mut l, ps[i].name.clone(), t, false);
        i = i + 1;
    }
    Ok(l)
}

/// The statements of a non-empty body, the last of which must give a value
/// of the return type or be a `return`.
fn check_body_stmts(body: &Vec<Stmt>, l: &mut Locals, env: &Env, who: &String) -> (r: Result<(), TypeError>)
    ensures
        match r {
            Ok(_) => body_pass(stmts_v(body@), 0, locals_v(old(l)@), env.view(), who@) == Ok::<(), Seq<char>>(()),
            Err(e) => body_pass(stmts_v(body@), 0, locals_v(old(l)@), env.view(), who@) == Err::<(), Seq<char>>(e.message@),
        },
{
    let ghost bv = stmts_v(body@);
    let ghost l0 = locals_v(l@);
    let ghost ev = env.view();
    proof {
        crate::ast::lemma_stmts_v(body@);
    }
    let mut i: usize = 0;
    while i < body.len()
        invariant
            i <= body@.len(),
            bv == stmts_v(body@),
            bv.len() == body@.len(),
            forall|a: int| 0 <= a < body@.len() ==> #[trigger] bv[a] == crate::ast::stmt_v(body@[a]),
            ev == env.view(),
            l0 == locals_v(old(l)@),
            body_pass(bv, 0, l0, ev, who@) == body_pass(bv, i as int, locals_v(l@), ev, who@),
        decreases body@.len() - i,
    {
        assert(bv[i as int] == crate::ast::stmt_v(body@[i as int]));
        match check_stmt(&body[i], l, env) {
            Ok(_) => {},
            Err(e) => return Err(e),
        }
        if i == body.len() - 1 {
            match &body[i] {
                Stmt::Expr(e) => {
                    let t = match check_expr(e, l, env) {
                        Ok(t) => t,
                        Err(er) => return Err(er),
                    };
                    if !types_compatible(&t, &env.ret) {
                        let a = type_to_string(&env.ret);
                        let b = type_to_string(&t);
                        return fail(concat_str(
                            concat_str(concat_str(concat_str(who.clone(), ": return type mismatch: expected "), a.as_str()), " but got "),
                            b.as_str(),
                        ));
                    }
                    return Ok(());
                },
                Stmt::Return { .. } => {
                    return Ok(());
                },
                _ => {
                    return fail(concat_str(who.clone(), ": missing return expression"));
                },
            }
        }
        i = i + 1;
    }
    Ok(())
}

/// A body with parameters `ps`, checked with the return type `env.ret`.
fn check_body_exec(ps: &Vec<Param>, body: &Vec<Stmt>, env: &Env, g: &Locals, who: &String) -> (r: Result<(), TypeError>)
    ensures
        match r {
            Ok(_) => check_body(params_v(ps@), stmts_v(body@), env.ret@, env.view(), locals_v(g@), who@) == Ok::<(), Seq<char>>(()),
            Err(e) => check_body(params_v(ps@), stmts_v(body@), env.ret@, env.view(), locals_v(g@), who@) == Err::<(), Seq<char>>(e.message@),
        },
{
    let mut l = match params_locals_exec(ps, g, env) {
        Ok(l) => l,
        Err(e) => return Err(e),
    };
    proof {
        crate::ast::lemma_stmts_v(body@);
    }
    if body.len() == 0 {
        return fail(concat_str(who.clone(), ": missing return expression"));
    }
    assert(EnvV { ret: env.ret@, ..env.view() } == env.view());
    check_body_stmts(body, &mut l, env, who)
}

/// The environment with another return type.
pub open spec fn with_int_ret(e: EnvV) -> EnvV {
    EnvV { ret: TypeV::Int, ..e }
}

/// The bodies of the functions without type parameters.
fn check_function_bodies(fs: &Vec<Function>, env: &mut Env, g: &Locals) -> (r: Result<(), TypeError>)
    ensures
        with_int_ret(final(env).view()) == with_int_ret(old(env).view()),
        match r {
            Ok(_) => functions_pass(functions_v(fs@), 0, with_int_ret(old(env).view()), locals_v(g@)) == Ok::<(), Seq<char>>(()),
            Err(e) => functions_pass(functions_v(fs@), 0, with_int_ret(old(env).view()), locals_v(g@)) == Err::<(), Seq<char>>(e.message@),
        },
{
    let ghost fv = functions_v(fs@);
    let ghost base = with_int_ret(env.view());
    let mut i: usize = 0;
    while i < fs.len()
        invariant
            i <= fs@.len(),
            fv == functions_v(fs@),
            base == with_int_ret(old(env).view()),
            with_int_ret(env.view()) == base,
            functions_pass(fv, 0, base, locals_v(g@)) == functions_pass(fv, i as int, base, locals_v(g@)),
        decreases fs@.len() - i,
    {
        let f = &fs[i];
        assert(fv[i as int] == f@);
        if f.type_params.len() == 0 {
            let j = find_key(&env.fns, &f.name);
            proof {
                lemma_key_index_is(sigs_reg_v(env.fns@), f.name@, j as int);
            }
            let ret = if j < env.fns.len() {
                clone_type(&env.fns[j].1.return_type)
            } else {
                Type::Int
            };
            env.ret = ret;
            assert(EnvV { ret: env.ret@, ..base } == env.view());
            assert(f@.params == params_v(f.params@));
            let who = concat_str(string_of("function "), q_text(f.name.as_str()).as_str());
            match check_body_exec(&f.params, &f.body, env, g, &who) {
                Ok(_) => {},
                Err(e) => return Err(e),
            }
        }
        i = i + 1;
    }
    Ok(())
}

/// The bodies of the methods of an impl block.
fn check_method_bodies(fs: &Vec<Function>, env: &mut Env, g: &Locals) -> (r: Result<(), TypeError>)
    ensures
        with_int_ret(final(env).view()) == with_int_ret(old(env).view()),
        match r {
            Ok(_) => methods_bodies_pass(functions_v(fs@), 0, with_int_ret(old(env).view()), locals_v(g@)) == Ok::<(), Seq<char>>(()),
            Err(e) => methods_bodies_pass(functions_v(fs@), 0, with_int_ret(old(env).view()), locals_v(g@)) == Err::<(), Seq<char>>(e.message@),
        },
{
    let ghost fv = functions_v(fs@);
    let ghost base = with_int_ret(env.view());
    let mut k: usize = 0;
    while k < fs.len()
        invariant
            k <= fs@.len(),
            fv == functions_v(fs@),
            base == with_int_ret(old(env).view()),
            with_int_ret(env.view()) == base,
            methods_bodies_pass(fv, 0, base, locals_v(g@)) == methods_bodies_pass(fv, k as int, base, locals_v(g@)),
        decreases fs@.len() - k,
    {
        let f = &fs[k];
        assert(fv[k as int] == f@);
        let ret = match resolve_type(&f.return_type.name, &env.structs, &env.enums, env.modules) {
            Ok(t) => t,
            Err(e) => return Err(e),
        };
        env.ret = ret;
        assert(EnvV { ret: env.ret@, ..base } == env.view());
        assert(f@.params == params_v(f.params@));
        let who = concat_str(string_of("method "), q_text(f.name.as_str()).as_str());
        match check_body_exec(&f.params, &f.body, env, g, &who) {
            Ok(_) => {},
            Err(e) => return Err(e),
        }
        k = k + 1;
    }
    Ok(())
}

/// The bodies of the methods of all impl blocks.
fn check_impl_bodies(is: &Vec<ImplBlock>, env: &mut Env, g: &Locals) -> (r: Result<(), TypeError>)
    ensures
        with_int_ret(final(env).view()) == with_int_ret(old(env).view()),
        match r {
            Ok(_) => impl_bodies_pass(is@.map_values(|i: ImplBlock| i@), 0, with_int_ret(old(env).view()), locals_v(g@)) == Ok::<(), Seq<char>>(()),
            Err(e) => impl_bodies_pass(is@.map_values(|i: ImplBlock| i@), 0, with_int_ret(old(env).view()), locals_v(g@)) == Err::<(), Seq<char>>(e.message@),
        },
{
    let ghost iv = is@.map_values(|i: ImplBlock| i@);
    let ghost base = with_int_ret(env.view());
    let mut i: usize = 0;
    while i < is.len()
        invariant
            i <= is@.len(),
            iv == is@.map_values(|i: ImplBlock| i@),
            base == with_int_ret(old(env).view()),
            with_int_ret(env.view()) == base,
            impl_bodies_pass(iv, 0, base, locals_v(g@)) == impl_bodies_pass(iv, i as int, base, locals_v(g@)),
        decreases is@.len() - i,
    {
        assert(iv[i as int] == is@[i as int]@);
        assert(iv[i as int].methods =~= functions_v(is@[i as int].methods@));
        match check_method_bodies(&is[i].methods, env, g) {
            Ok(_) => {},
            Err(e) => return Err(e),
        }
        i = i + 1;
    }
    Ok(())
}

/// The globals of a program: each value checked with the globals before
/// it, each name an assignable local.
fn globals_locals(gs: &Vec<GlobalDef>, env: &Env) -> (r: Result<Locals, TypeError>)
    ensures
        match r {
            Ok(l) => globals_pass(gs@.map_values(|g: GlobalDef| g@), 0, Seq::empty(), env.view()) == Ok::<LocalsV, Seq<char>>(locals_v(l@)),
            Err(e) => globals_pass(gs@.map_values(|g: GlobalDef| g@), 0, Seq::empty(), env.view()) == Err::<LocalsV, Seq<char>>(e.message@),
        },
{
    let ghost gv = gs@.map_values(|g: GlobalDef| g@);
    let ghost ev = env.view();
    let mut l: Locals = Vec::new();
    assert(locals_v(l@) =~= Seq::<(Seq<char>, (TypeV, bool))>::empty());
    let mut i: usize = 0;
    while i < gs.len()
        invariant
            i <= gs@.len(),
            gv == gs@.map_values(|g: GlobalDef| g@),
            ev == env.view(),
            globals_pass(gv, 0, Seq::empty(), ev) == globals_pass(gv, i as int, locals_v(l@), ev),
        decreases gs@.len() - i,
    {
        assert(gv[i as int] == gs@[i as int]@);
        let t = match check_expr(&gs[i].value, &l, env) {
            Ok(t) => t,
            Err(e) => return Err(e),
        };
        locals_insert(&mut l, gs[i].name.clone(), t, true);
        i = i + 1;
    }
    Ok(l)
}

/// A copy of a signature.
fn clone_sig(s: &FunctionSignature) -> (r: FunctionSignature)
    ensures
        r@ == s@,
{
    FunctionSignature { params: clone_types(&s.params), return_type: clone_type(&s.return_type) }
}

/// The exported signatures of the functions without type parameters.
fn exports_of(fs: &Vec<Function>, fenv: &Vec<(String, FunctionSignature)>) -> (r: Vec<(String, FunctionSignature)>)
    ensures
        sigs_reg_v(r@) == exports_pass(functions_v(fs@), 0, sigs_reg_v(fenv@), Seq::empty()),
{
    let ghost fv = functions_v(fs@);
    let ghost env_v = sigs_reg_v(fenv@);
    let mut out: Vec<(String, FunctionSignature)> = Vec::new();
    assert(sigs_reg_v(out@) =~= Seq::<(Seq<char>, SigV)>::empty());
    let mut i: usize = 0;
    while i < fs.len()
        invariant
            i <= fs@.len(),
            fv == functions_v(fs@),
            env_v == sigs_reg_v(fenv@),
            exports_pass(fv, 0, env_v, Seq::empty()) == exports_pass(fv, i as int, env_v, sigs_reg_v(out@)),
        decreases fs@.len() - i,
    {
        let f = &fs[i];
        assert(fv[i as int] == f@);
        if f.type_params.len() == 0 {
            let j = find_key(fenv, &f.name);
            proof {
                lemma_key_index_is(env_v, f.name@, j as int);
            }
            if j < fenv.len() {
                sigs_insert(&mut out, f.name.clone(), clone_sig(&fenv[j].1));
            }
        }
        i = i + 1;
    }
    out
}

// ─── The whole program ─────────────────────────────────────────────────────

/// What the parser makes sure of a program, and checking asks for: every
/// method of an impl block has its `self` parameter, and every array
/// literal has an element.
pub open spec fn program_checkable(p: &Program) -> bool {
    impls_have_self(p.impls@) && crate::program_spec::program_filled(p@)
}

/// Checks a program against the modules `ms`: its exports, or the first
/// error.  With `require_main`, a program without `main` is refused.
pub fn check_program_exec(program: &Program, ms: &Vec<(String, ModuleExports)>, require_main: bool) -> (r: Result<
    ModuleExports,
    TypeError,
>)
    requires
        program_checkable(program),
    ensures
        match r {
            Ok(x) => check_program(program@, modules_v(ms@), require_main) == Ok::<ModuleExportsV, Seq<char>>(x@),
            Err(e) => check_program(program@, modules_v(ms@), require_main) == Err::<ModuleExportsV, Seq<char>>(e.message@),
        },
{
    let ghost pv = program@;
    let ghost mv = modules_v(ms@);
    assert(pv.structs =~= program.structs@.map_values(|s: StructDef| s@));
    assert(pv.enums =~= program.enums@.map_values(|e: EnumDef| e@));
    assert(pv.traits =~= program.traits@.map_values(|t: TraitDef| t@));
    assert(pv.impls =~= program.impls@.map_values(|i: ImplBlock| i@));
    assert(pv.functions =~= functions_v(program.functions@));
    let structs = match structs_registry(&program.structs, ms) {
        Ok(r) => r,
        Err(e) => return Err(e),
    };
    let enums = match enums_registry(&program.enums, &structs, ms) {
        Ok(r) => r,
        Err(e) => return Err(e),
    };
    let traits = match traits_registry(&program.traits, &structs, &enums, ms) {
        Ok(r) => r,
        Err(e) => return Err(e),
    };
    let methods = match methods_registry(&program.impls, &structs, &enums, &traits, ms) {
        Ok(r) => r,
        Err(e) => return Err(e),
    };
    let (mut fenv, genv) = match signatures(&program.functions, &structs, &enums, ms) {
        Ok(p) => p,
        Err(e) => return Err(e),
    };
    match add_mangled_methods(&program.impls, &structs, &enums, ms, &mut fenv) {
        Ok(_) => {},
        Err(e) => return Err(e),
    }
    let mut env = Env {
        fns: &fenv,
        ret: Type::Int,
        structs: &structs,
        enums: &enums,
        methods: &methods,
        generics: &genv,
        traits: &traits,
        modules: ms,
    };
    assert(with_int_ret(env.view()) == env.view());
    assert(pv.globals =~= program.globals@.map_values(|g: GlobalDef| g@));
    let g = match globals_locals(&program.globals, &env) {
        Ok(g) => g,
        Err(e) => return Err(e),
    };
    if require_main {
        let main_name = string_of("main");
        let mi = find_key(&env.fns, &main_name);
        proof {
            lemma_key_index_is(sigs_reg_v(env.fns@), main_name@, mi as int);
        }
        if mi >= env.fns.len() {
            return fail(string_of("missing 'main' function"));
        }
    }
    match check_function_bodies(&program.functions, &mut env, &g) {
        Ok(_) => {},
        Err(e) => return Err(e),
    }
    match check_impl_bodies(&program.impls, &mut env, &g) {
        Ok(_) => {},
        Err(e) => return Err(e),
    }
    let functions = exports_of(&program.functions, env.fns);
    Ok(ModuleExports { functions, structs, enums })
}

} // verus!
