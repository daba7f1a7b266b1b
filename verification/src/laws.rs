//! Properties of the type checker as a whole.
use vstd::prelude::*;
use crate::types::TypeV;
use crate::ast::{FunctionV, ProgramV, StmtV, ParamV, ExprV, SpanV};
use crate::captures::{captures_of, param_names, stmts_names_from, lemma_add_names_keeps, stmts_read_from, lemma_add_names_takes};
use crate::typeck_spec::{SigV, GenericFnInfoV, EnvV, compatible};
use crate::program_spec::{
    StructsRegV, EnumsRegV, ModulesV, signatures_pass, functions_pass, exports_pass, check_program, generic_info,
    mangled_pass, mangled_methods_pass,
};
use crate::typeck_spec::{lookup, assoc_insert, key_index, lemma_key_index, ModuleExportsV};
use crate::typeck_spec::{LocalsV, CheckV, tc_expr, tc_checks, passes, checks_for, builtin_of, wrong_count, q, tc_call, tc_user_call, tc_sig_call, tc_generic_call, tc_generic_args, missing_field, tc_struct_fields};

verus! {

/// Every type is compatible with itself.
pub proof fn law_compatible_reflexive(t: TypeV)
    ensures
        compatible(t, t),
{
}

/// An error-only result is compatible with a result of any type.
pub proof fn law_result_err_fits_any_result(inner: TypeV)
    ensures
        compatible(TypeV::ResultErr, TypeV::Result { inner: Box::new(inner) }),
{
}

/// Checking a program and checking it as a library module give the same
/// outcome, except that a program without `main` is refused as a program.
pub proof fn law_check_is_module_check_plus_main(p: ProgramV, ms: ModulesV)
    ensures
        check_program(p, ms, true) == check_program(p, ms, false) || check_program(p, ms, true) == Err::<
            crate::typeck_spec::ModuleExportsV,
            Seq<char>,
        >("missing 'main' function"@),
        check_program(p, ms, false) is Err ==> check_program(p, ms, true) is Err,
{
}

/// Two lists of functions that differ at most in the bodies of generic
/// functions (and in source positions).
pub open spec fn differ_in_generic_bodies(a: Seq<FunctionV>, b: Seq<FunctionV>) -> bool {
    &&& a.len() == b.len()
    &&& forall|i: int|
        #![trigger a[i], b[i]]
        0 <= i < a.len() ==> {
            &&& a[i].name == b[i].name
            &&& a[i].type_params == b[i].type_params
            &&& a[i].params == b[i].params
            &&& a[i].return_type == b[i].return_type
            &&& (a[i].type_params.len() == 0 ==> a[i].body == b[i].body)
        }
}

proof fn lemma_signatures_same(
    a: Seq<FunctionV>,
    b: Seq<FunctionV>,
    i: int,
    sreg: StructsRegV,
    ereg: EnumsRegV,
    ms: ModulesV,
    fenv: Seq<(Seq<char>, SigV)>,
    genv: Seq<(Seq<char>, GenericFnInfoV)>,
)
    requires
        differ_in_generic_bodies(a, b),
    ensures
        signatures_pass(a, i, sreg, ereg, ms, fenv, genv) == signatures_pass(b, i, sreg, ereg, ms, fenv, genv),
    decreases a.len() - i,
{
    if 0 <= i < a.len() {
        assert(a[i].params == b[i].params && a[i].type_params == b[i].type_params);
        if a[i].type_params.len() == 0 {
            match crate::program_spec::param_types(a[i].params, sreg, ereg, ms) {
                Ok(ps) => match crate::typeck_spec::resolve(a[i].return_type.name, sreg, ereg, ms) {
                    Ok(r) => {
                        lemma_signatures_same(
                            a,
                            b,
                            i + 1,
                            sreg,
                            ereg,
                            ms,
                            crate::typeck_spec::assoc_insert(fenv, a[i].name, (ps, r)),
                            genv,
                        );
                    },
                    Err(_) => {},
                },
                Err(_) => {},
            }
        } else {
            assert(generic_info(a[i]) == generic_info(b[i]));
            lemma_signatures_same(
                a,
                b,
                i + 1,
                sreg,
                ereg,
                ms,
                fenv,
                crate::typeck_spec::assoc_insert(genv, a[i].name, generic_info(a[i])),
            );
        }
    }
}

proof fn lemma_functions_same(a: Seq<FunctionV>, b: Seq<FunctionV>, i: int, env: EnvV, g: crate::typeck_spec::LocalsV)
    requires
        differ_in_generic_bodies(a, b),
    ensures
        functions_pass(a, i, env, g) == functions_pass(b, i, env, g),
    decreases a.len() - i,
{
    if 0 <= i < a.len() {
        assert(a[i].params == b[i].params && a[i].type_params == b[i].type_params && a[i].name == b[i].name);
        if a[i].type_params.len() == 0 {
            assert(a[i].body == b[i].body);
        }
        lemma_functions_same(a, b, i + 1, env, g);
    }
}

proof fn lemma_exports_same(
    a: Seq<FunctionV>,
    b: Seq<FunctionV>,
    i: int,
    fenv: Seq<(Seq<char>, SigV)>,
    out: Seq<(Seq<char>, SigV)>,
)
    requires
        differ_in_generic_bodies(a, b),
    ensures
        exports_pass(a, i, fenv, out) == exports_pass(b, i, fenv, out),
    decreases a.len() - i,
{
    if 0 <= i < a.len() {
        assert(a[i].type_params == b[i].type_params && a[i].name == b[i].name);
        if a[i].type_params.len() != 0 {
            lemma_exports_same(a, b, i + 1, fenv, out);
        } else {
            match crate::typeck_spec::lookup(fenv, a[i].name) {
                Some(sig) => {
                    lemma_exports_same(a, b, i + 1, fenv, crate::typeck_spec::assoc_insert(out, a[i].name, sig));
                },
                None => {
                    lemma_exports_same(a, b, i + 1, fenv, out);
                },
            }
        }
    }
}

/// The body of a generic function is not checked: programs that differ
/// only there (and in source positions of functions) check alike.
pub proof fn law_generic_bodies_unchecked(p: ProgramV, q: ProgramV, ms: ModulesV, require_main: bool)
    requires
        p.structs == q.structs,
        p.enums == q.enums,
        p.traits == q.traits,
        p.impls == q.impls,
        p.globals == q.globals,
        differ_in_generic_bodies(p.functions, q.functions),
    ensures
        check_program(p, ms, require_main) == check_program(q, ms, require_main),
{
    let e: Seq<(Seq<char>, SigV)> = Seq::empty();
    let g: Seq<(Seq<char>, GenericFnInfoV)> = Seq::empty();
    match crate::program_spec::structs_pass(p.structs, 0, Seq::empty(), ms) {
        Ok(sreg) => match crate::program_spec::enums_pass(p.enums, 0, sreg, Seq::empty(), ms) {
            Ok(ereg) => {
                lemma_signatures_same(p.functions, q.functions, 0, sreg, ereg, ms, e, g);
                match signatures_pass(p.functions, 0, sreg, ereg, ms, e, g) {
                    Ok(sigs) => match crate::program_spec::mangled_pass(p.impls, 0, sreg, ereg, ms, sigs.0) {
                        Ok(fenv) => {
                            match crate::program_spec::traits_pass(p.traits, 0, sreg, ereg, ms, Seq::empty()) {
                                Ok(treg) => match crate::program_spec::impls_pass(p.impls, 0, sreg, ereg, treg, ms, Seq::empty()) {
                                    Ok(mreg) => {
                                        let env = EnvV {
                                            fns: fenv,
                                            ret: TypeV::Int,
                                            structs: sreg,
                                            enums: ereg,
                                            methods: mreg,
                                            generics: sigs.1,
                                            traits: treg,
                                            modules: ms,
                                        };
                                        if let Ok(g) = crate::program_spec::globals_pass(p.globals, 0, Seq::empty(), env) {
                                            lemma_functions_same(p.functions, q.functions, 0, env, g);
                                        }
                                        lemma_exports_same(p.functions, q.functions, 0, fenv, Seq::empty());
                                    },
                                    Err(_) => {},
                                },
                                Err(_) => {},
                            }
                        },
                        Err(_) => {},
                    },
                    Err(_) => {},
                }
            },
            Err(_) => {},
        },
        Err(_) => {},
    }
}

/// A name bound in an association list stays bound after an insertion,
/// and the inserted name is bound.
proof fn lemma_insert_keeps<V>(s: Seq<(Seq<char>, V)>, k: Seq<char>, v: V, k2: Seq<char>)
    ensures
        lookup(assoc_insert(s, k, v), k) == Some(v),
        lookup(s, k2) is Some ==> lookup(assoc_insert(s, k, v), k2) is Some,
        lookup(assoc_insert(s, k, v), k2) is Some ==> (k2 == k || lookup(s, k2) is Some),
        k2 != k ==> lookup(assoc_insert(s, k, v), k2) == lookup(s, k2),
{
    lemma_key_index(s, k);
    lemma_key_index(s, k2);
    let t = assoc_insert(s, k, v);
    lemma_key_index(t, k);
    lemma_key_index(t, k2);
    let i = key_index(s, k);
    if i < s.len() {
        assert(t == s.update(i, (k, v)));
    } else {
        assert(t == s.push((k, v)));
    }
    let ki = key_index(t, k);
    if ki < i {
        assert(t[ki] == s[ki]);
    }
    if i < ki {
        assert(t[i].0 == k);
    }
    if lookup(s, k2) is Some {
        let j = key_index(s, k2);
        assert(t[j].0 == k2);
        if key_index(t, k2) >= t.len() {
            assert(t[j].0 != k2);
        }
    }
    if lookup(t, k2) is Some && k2 != k {
        let j = key_index(t, k2);
        assert(s[j].0 == k2);
        if key_index(s, k2) >= s.len() {
            assert(s[j].0 != k2);
        }
    }
    if k2 != k {
        let a = key_index(s, k2);
        let b = key_index(t, k2);
        if a < b && a < s.len() {
            assert(t[a] == s[a]);
        }
        if b < a {
            assert(t[b] == s[b]);
        }
        if a == b && a < s.len() {
            assert(t[a] == s[a]);
        }
    }
}

/// The names of the functions without type parameters among `fs[..i]`
/// are bound in `m`.
pub open spec fn plain_names_bound(fs: Seq<FunctionV>, i: int, m: Seq<(Seq<char>, SigV)>) -> bool {
    forall|j: int| 0 <= j < i && j < fs.len() && (#[trigger] fs[j]).type_params.len() == 0 ==> lookup(m, fs[j].name) is Some
}

proof fn lemma_signatures_bind(
    fs: Seq<FunctionV>,
    i: int,
    sreg: StructsRegV,
    ereg: EnumsRegV,
    ms: ModulesV,
    fenv: Seq<(Seq<char>, SigV)>,
    genv: Seq<(Seq<char>, GenericFnInfoV)>,
)
    requires
        0 <= i,
        plain_names_bound(fs, i, fenv),
    ensures
        signatures_pass(fs, i, sreg, ereg, ms, fenv, genv) matches Ok(r) ==> plain_names_bound(fs, fs.len() as int, r.0),
    decreases fs.len() - i,
{
    if i < fs.len() {
        if fs[i].type_params.len() == 0 {
            match crate::program_spec::param_types(fs[i].params, sreg, ereg, ms) {
                Ok(ps) => match crate::typeck_spec::resolve(fs[i].return_type.name, sreg, ereg, ms) {
                    Ok(r) => {
                        let f2 = assoc_insert(fenv, fs[i].name, (ps, r));
                        assert forall|j: int| 0 <= j < i + 1 && j < fs.len() && (#[trigger] fs[j]).type_params.len() == 0
                            implies lookup(f2, fs[j].name) is Some by {
                            lemma_insert_keeps(fenv, fs[i].name, (ps, r), fs[j].name);
                        }
                        lemma_signatures_bind(fs, i + 1, sreg, ereg, ms, f2, genv);
                    },
                    Err(_) => {},
                },
                Err(_) => {},
            }
        } else {
            lemma_signatures_bind(fs, i + 1, sreg, ereg, ms, fenv, assoc_insert(genv, fs[i].name, generic_info(fs[i])));
        }
    }
}

proof fn lemma_mangled_methods_keep(
    target: Seq<char>,
    fs: Seq<crate::ast::FunctionV>,
    k: int,
    sreg: StructsRegV,
    ereg: EnumsRegV,
    ms: ModulesV,
    fenv: Seq<(Seq<char>, SigV)>,
    n: Seq<char>,
)
    requires
        lookup(fenv, n) is Some,
    ensures
        mangled_methods_pass(target, fs, k, sreg, ereg, ms, fenv) matches Ok(r) ==> lookup(r, n) is Some,
    decreases fs.len() - k,
{
    if 0 <= k < fs.len() {
        match crate::program_spec::param_types(fs[k].params, sreg, ereg, ms) {
            Ok(ps) => match crate::typeck_spec::resolve(fs[k].return_type.name, sreg, ereg, ms) {
                Ok(r) => {
                    let name = crate::program_spec::mangled(target, fs[k].name);
                    lemma_insert_keeps(fenv, name, (ps, r), n);
                    lemma_mangled_methods_keep(target, fs, k + 1, sreg, ereg, ms, assoc_insert(fenv, name, (ps, r)), n);
                },
                Err(_) => {},
            },
            Err(_) => {},
        }
    }
}

proof fn lemma_mangled_keep(
    is: Seq<crate::ast::ImplBlockV>,
    i: int,
    sreg: StructsRegV,
    ereg: EnumsRegV,
    ms: ModulesV,
    fenv: Seq<(Seq<char>, SigV)>,
    n: Seq<char>,
)
    requires
        lookup(fenv, n) is Some,
    ensures
        mangled_pass(is, i, sreg, ereg, ms, fenv) matches Ok(r) ==> lookup(r, n) is Some,
    decreases is.len() - i,
{
    if 0 <= i < is.len() {
        lemma_mangled_methods_keep(is[i].target_type, is[i].methods, 0, sreg, ereg, ms, fenv, n);
        match mangled_methods_pass(is[i].target_type, is[i].methods, 0, sreg, ereg, ms, fenv) {
            Ok(f2) => {
                lemma_mangled_keep(is, i + 1, sreg, ereg, ms, f2, n);
            },
            Err(_) => {},
        }
    }
}

proof fn lemma_exports_names(
    fs: Seq<FunctionV>,
    i: int,
    fenv: Seq<(Seq<char>, SigV)>,
    out: Seq<(Seq<char>, SigV)>,
    n: Seq<char>,
)
    requires
        0 <= i,
        plain_names_bound(fs, fs.len() as int, fenv),
        plain_names_bound(fs, i, out),
        lookup(out, n) is Some ==> exists|j: int| 0 <= j < fs.len() && (#[trigger] fs[j]).type_params.len() == 0 && fs[j].name == n,
    ensures
        plain_names_bound(fs, fs.len() as int, exports_pass(fs, i, fenv, out)),
        lookup(exports_pass(fs, i, fenv, out), n) is Some ==> exists|j: int|
            0 <= j < fs.len() && (#[trigger] fs[j]).type_params.len() == 0 && fs[j].name == n,
    decreases fs.len() - i,
{
    if i < fs.len() {
        if fs[i].type_params.len() != 0 {
            lemma_exports_names(fs, i + 1, fenv, out, n);
        } else {
            assert(lookup(fenv, fs[i].name) is Some);
            let sig = lookup(fenv, fs[i].name).unwrap();
            let o2 = assoc_insert(out, fs[i].name, sig);
            assert forall|j: int| 0 <= j < i + 1 && j < fs.len() && (#[trigger] fs[j]).type_params.len() == 0
                implies lookup(o2, fs[j].name) is Some by {
                lemma_insert_keeps(out, fs[i].name, sig, fs[j].name);
            }
            lemma_insert_keeps(out, fs[i].name, sig, n);
            lemma_exports_names(fs, i + 1, fenv, o2, n);
        }
    }
}

/// A program that checks exports exactly its functions without type
/// parameters: each of them is exported, and every exported name is one
/// of them.
pub proof fn law_exports_are_plain_functions(p: ProgramV, ms: ModulesV, require_main: bool, n: Seq<char>)
    ensures
        check_program(p, ms, require_main) matches Ok(x) ==> {
            &&& forall|j: int|
                0 <= j < p.functions.len() && (#[trigger] p.functions[j]).type_params.len() == 0 ==> lookup(
                    x.functions,
                    p.functions[j].name,
                ) is Some
            &&& (lookup(x.functions, n) is Some ==> exists|j: int|
                0 <= j < p.functions.len() && (#[trigger] p.functions[j]).type_params.len() == 0 && p.functions[j].name == n)
        },
{
    let e: Seq<(Seq<char>, SigV)> = Seq::empty();
    let g: Seq<(Seq<char>, GenericFnInfoV)> = Seq::empty();
    if let Ok(x) = check_program(p, ms, require_main) {
        if let Ok(sreg) = crate::program_spec::structs_pass(p.structs, 0, Seq::empty(), ms) {
            if let Ok(ereg) = crate::program_spec::enums_pass(p.enums, 0, sreg, Seq::empty(), ms) {
                if let Ok(sigs) = signatures_pass(p.functions, 0, sreg, ereg, ms, e, g) {
                    if let Ok(fenv) = mangled_pass(p.impls, 0, sreg, ereg, ms, sigs.0) {
                        lemma_signatures_bind(p.functions, 0, sreg, ereg, ms, e, g);
                        assert forall|j: int| 0 <= j < p.functions.len() && (#[trigger] p.functions[j]).type_params.len() == 0
                            implies lookup(fenv, p.functions[j].name) is Some by {
                            lemma_mangled_keep(p.impls, 0, sreg, ereg, ms, sigs.0, p.functions[j].name);
                        }
                        lemma_exports_names(p.functions, 0, fenv, Seq::empty(), n);
                        assert(x.functions == exports_pass(p.functions, 0, fenv, Seq::empty()));
                    }
                }
            }
        }
    }
}

/// Of several modules, the first one that exports a struct or an enum of a
/// name gives the type that the name stands for: modules after it are not
/// looked at.
pub proof fn law_first_module_wins(
    ms1: Seq<(Seq<char>, ModuleExportsV)>,
    ms2: Seq<(Seq<char>, ModuleExportsV)>,
    name: Seq<char>,
)
    ensures
        crate::typeck_spec::type_in_modules(ms1 + ms2, name) == match crate::typeck_spec::type_in_modules(ms1, name) {
            Some(t) => Some(t),
            None => crate::typeck_spec::type_in_modules(ms2, name),
        },
    decreases ms1.len(),
{
    if ms1.len() > 0 {
        assert((ms1 + ms2)[0] == ms1[0]);
        assert((ms1 + ms2).drop_first() =~= ms1.drop_first() + ms2);
        law_first_module_wins(ms1.drop_first(), ms2, name);
    } else {
        assert(ms1 + ms2 =~= ms2);
    }
}

/// A program with a function `main` without type parameters checks as a
/// program exactly as it checks as a library module.
pub proof fn law_check_is_module_check_with_main(p: ProgramV, ms: ModulesV, k: int)
    requires
        0 <= k < p.functions.len(),
        p.functions[k].name == "main"@,
        p.functions[k].type_params.len() == 0,
    ensures
        check_program(p, ms, true) == check_program(p, ms, false),
{
    let e: Seq<(Seq<char>, SigV)> = Seq::empty();
    let g: Seq<(Seq<char>, GenericFnInfoV)> = Seq::empty();
    if let Ok(sreg) = crate::program_spec::structs_pass(p.structs, 0, Seq::empty(), ms) {
        if let Ok(ereg) = crate::program_spec::enums_pass(p.enums, 0, sreg, Seq::empty(), ms) {
            if let Ok(sigs) = signatures_pass(p.functions, 0, sreg, ereg, ms, e, g) {
                lemma_signatures_bind(p.functions, 0, sreg, ereg, ms, e, g);
                assert(lookup(sigs.0, p.functions[k].name) is Some);
                lemma_mangled_keep(p.impls, 0, sreg, ereg, ms, sigs.0, "main"@);
            }
        }
    }
}

/// A name made of a type name, `_` and a method name is never `main`.
proof fn lemma_mangled_not_main(t: Seq<char>, m: Seq<char>)
    ensures
        crate::program_spec::mangled(t, m) != "main"@,
{
    reveal_strlit("main");
    reveal_strlit("_");
    let s = crate::program_spec::mangled(t, m);
    let mn = "main"@;
    assert(mn.len() == 4 && mn[0] == 'm' && mn[1] == 'a' && mn[2] == 'i' && mn[3] == 'n');
    assert("_"@.len() == 1 && "_"@[0] == '_');
    assert(s.len() == t.len() + 1 + m.len());
    assert(s[t.len() as int] == '_');
    if s == mn {
        assert(t.len() < 4);
        assert(mn[t.len() as int] != '_');
    }
}

proof fn lemma_signatures_unbound(
    fs: Seq<FunctionV>,
    i: int,
    sreg: StructsRegV,
    ereg: EnumsRegV,
    ms: ModulesV,
    fenv: Seq<(Seq<char>, SigV)>,
    genv: Seq<(Seq<char>, GenericFnInfoV)>,
    n: Seq<char>,
)
    requires
        lookup(fenv, n) is None,
        forall|j: int| 0 <= j < fs.len() && (#[trigger] fs[j]).type_params.len() == 0 ==> fs[j].name != n,
    ensures
        signatures_pass(fs, i, sreg, ereg, ms, fenv, genv) matches Ok(r) ==> lookup(r.0, n) is None,
    decreases fs.len() - i,
{
    if 0 <= i < fs.len() {
        if fs[i].type_params.len() == 0 {
            match crate::program_spec::param_types(fs[i].params, sreg, ereg, ms) {
                Ok(ps) => match crate::typeck_spec::resolve(fs[i].return_type.name, sreg, ereg, ms) {
                    Ok(r) => {
                        lemma_insert_keeps(fenv, fs[i].name, (ps, r), n);
                        lemma_signatures_unbound(fs, i + 1, sreg, ereg, ms, assoc_insert(fenv, fs[i].name, (ps, r)), genv, n);
                    },
                    Err(_) => {},
                },
                Err(_) => {},
            }
        } else {
            lemma_signatures_unbound(fs, i + 1, sreg, ereg, ms, fenv, assoc_insert(genv, fs[i].name, generic_info(fs[i])), n);
        }
    }
}

proof fn lemma_mangled_methods_no_main(
    target: Seq<char>,
    fs: Seq<FunctionV>,
    k: int,
    sreg: StructsRegV,
    ereg: EnumsRegV,
    ms: ModulesV,
    fenv: Seq<(Seq<char>, SigV)>,
)
    requires
        lookup(fenv, "main"@) is None,
    ensures
        mangled_methods_pass(target, fs, k, sreg, ereg, ms, fenv) matches Ok(r) ==> lookup(r, "main"@) is None,
    decreases fs.len() - k,
{
    if 0 <= k < fs.len() {
        match crate::program_spec::param_types(fs[k].params, sreg, ereg, ms) {
            Ok(ps) => match crate::typeck_spec::resolve(fs[k].return_type.name, sreg, ereg, ms) {
                Ok(r) => {
                    let name = crate::program_spec::mangled(target, fs[k].name);
                    lemma_mangled_not_main(target, fs[k].name);
                    lemma_insert_keeps(fenv, name, (ps, r), "main"@);
                    lemma_mangled_methods_no_main(target, fs, k + 1, sreg, ereg, ms, assoc_insert(fenv, name, (ps, r)));
                },
                Err(_) => {},
            },
            Err(_) => {},
        }
    }
}

proof fn lemma_mangled_no_main(
    is: Seq<crate::ast::ImplBlockV>,
    i: int,
    sreg: StructsRegV,
    ereg: EnumsRegV,
    ms: ModulesV,
    fenv: Seq<(Seq<char>, SigV)>,
)
    requires
        lookup(fenv, "main"@) is None,
    ensures
        mangled_pass(is, i, sreg, ereg, ms, fenv) matches Ok(r) ==> lookup(r, "main"@) is None,
    decreases is.len() - i,
{
    if 0 <= i < is.len() {
        lemma_mangled_methods_no_main(is[i].target_type, is[i].methods, 0, sreg, ereg, ms, fenv);
        match mangled_methods_pass(is[i].target_type, is[i].methods, 0, sreg, ereg, ms, fenv) {
            Ok(f2) => {
                lemma_mangled_no_main(is, i + 1, sreg, ereg, ms, f2);
            },
            Err(_) => {},
        }
    }
}

/// A program with no function `main` without type parameters that checks
/// as a library module is refused as a program for want of `main`.
pub proof fn law_no_main_refused(p: ProgramV, ms: ModulesV)
    requires
        forall|j: int| 0 <= j < p.functions.len() && (#[trigger] p.functions[j]).type_params.len() == 0 ==> p.functions[j].name != "main"@,
        check_program(p, ms, false) is Ok,
    ensures
        check_program(p, ms, true) == Err::<ModuleExportsV, Seq<char>>("missing 'main' function"@),
{
    let e: Seq<(Seq<char>, SigV)> = Seq::empty();
    let g: Seq<(Seq<char>, GenericFnInfoV)> = Seq::empty();
    if let Ok(sreg) = crate::program_spec::structs_pass(p.structs, 0, Seq::empty(), ms) {
        if let Ok(ereg) = crate::program_spec::enums_pass(p.enums, 0, sreg, Seq::empty(), ms) {
            if let Ok(sigs) = signatures_pass(p.functions, 0, sreg, ereg, ms, e, g) {
                lemma_signatures_unbound(p.functions, 0, sreg, ereg, ms, e, g, "main"@);
                lemma_mangled_no_main(p.impls, 0, sreg, ereg, ms, sigs.0);
            }
        }
    }
}

/// Whether the impl blocks `is[i..]` that implement a trait each have
/// every method of the trait, with its parameter and return types.
pub open spec fn impls_conform(
    is: Seq<crate::ast::ImplBlockV>,
    i: int,
    sreg: StructsRegV,
    ereg: EnumsRegV,
    treg: crate::program_spec::TraitsRegV,
    ms: ModulesV,
) -> bool {
    forall|j: int|
        #![trigger is[j]]
        i <= j < is.len() && is[j].trait_name is Some ==> {
            let tn = is[j].trait_name->0;
            &&& lookup(treg, tn) is Some
            &&& crate::program_spec::conformance(tn, is[j].target_type, is[j].methods, lookup(treg, tn)->0, 0, sreg, ereg, ms) is Ok
        }
}

proof fn lemma_impls_conform(
    is: Seq<crate::ast::ImplBlockV>,
    i: int,
    sreg: StructsRegV,
    ereg: EnumsRegV,
    treg: crate::program_spec::TraitsRegV,
    ms: ModulesV,
    mreg: crate::program_spec::MethodsRegV,
)
    requires
        0 <= i,
        crate::program_spec::impls_pass(is, i, sreg, ereg, treg, ms, mreg) is Ok,
    ensures
        impls_conform(is, i, sreg, ereg, treg, ms),
    decreases is.len() - i,
{
    if i < is.len() {
        let m2 = crate::program_spec::impl_methods_pass(is[i].target_type, is[i].methods, 0, sreg, ereg, ms, mreg)->Ok_0;
        lemma_impls_conform(is, i + 1, sreg, ereg, treg, ms, m2);
        assert forall|j: int|
            #![trigger is[j]]
            i <= j < is.len() && is[j].trait_name is Some implies {
                let tn = is[j].trait_name->0;
                &&& lookup(treg, tn) is Some
                &&& crate::program_spec::conformance(tn, is[j].target_type, is[j].methods, lookup(treg, tn)->0, 0, sreg, ereg, ms) is Ok
            } by {
            if j > i {
                assert(impls_conform(is, i + 1, sreg, ereg, treg, ms));
                assert(i + 1 <= j);
            } else {
                let imp = is[i];
                let tn = imp.trait_name->0;
                assert(crate::program_spec::impls_pass(is, i, sreg, ereg, treg, ms, mreg) is Ok);
                match lookup(treg, tn) {
                    Some(tms) => {
                        let c = crate::program_spec::conformance(tn, imp.target_type, imp.methods, tms, 0, sreg, ereg, ms);
                        assert(c is Ok);
                    },
                    None => {
                        assert(false);
                    },
                }
            }
        }
    }
}

/// A program that checks implements every trait it names in an impl block
/// completely: the trait exists, and each of its methods is in the block
/// with the trait's parameter types (after `self`) and return type.
pub proof fn law_trait_impls_conform(p: ProgramV, ms: ModulesV, require_main: bool)
    ensures
        check_program(p, ms, require_main) is Ok ==> {
            &&& crate::program_spec::structs_pass(p.structs, 0, Seq::empty(), ms) matches Ok(sreg)
            &&& crate::program_spec::enums_pass(p.enums, 0, sreg, Seq::empty(), ms) matches Ok(ereg)
            &&& crate::program_spec::traits_pass(p.traits, 0, sreg, ereg, ms, Seq::empty()) matches Ok(treg)
            &&& impls_conform(p.impls, 0, sreg, ereg, treg, ms)
        },
{
    if let Ok(_) = check_program(p, ms, require_main) {
        if let Ok(sreg) = crate::program_spec::structs_pass(p.structs, 0, Seq::empty(), ms) {
            if let Ok(ereg) = crate::program_spec::enums_pass(p.enums, 0, sreg, Seq::empty(), ms) {
                if let Ok(treg) = crate::program_spec::traits_pass(p.traits, 0, sreg, ereg, ms, Seq::empty()) {
                    lemma_impls_conform(p.impls, 0, sreg, ereg, treg, ms, Seq::empty());
                }
            }
        }
    }
}

proof fn lemma_exports_sigs(
    fs: Seq<FunctionV>,
    i: int,
    fenv: Seq<(Seq<char>, SigV)>,
    out: Seq<(Seq<char>, SigV)>,
    n: Seq<char>,
)
    requires
        0 <= i,
        lookup(out, n) is Some ==> lookup(out, n) == lookup(fenv, n),
    ensures
        lookup(exports_pass(fs, i, fenv, out), n) is Some ==> lookup(exports_pass(fs, i, fenv, out), n) == lookup(fenv, n),
    decreases fs.len() - i,
{
    if i < fs.len() {
        if fs[i].type_params.len() != 0 {
            lemma_exports_sigs(fs, i + 1, fenv, out, n);
        } else {
            match lookup(fenv, fs[i].name) {
                Some(sig) => {
                    lemma_insert_keeps(out, fs[i].name, sig, n);
                    lemma_exports_sigs(fs, i + 1, fenv, assoc_insert(out, fs[i].name, sig), n);
                },
                None => {
                    lemma_exports_sigs(fs, i + 1, fenv, out, n);
                },
            }
        }
    }
}

/// A program that checks exports the structs and enums it declares, and
/// each exported function with the signature it was registered under.
pub proof fn law_exports_signatures(p: ProgramV, ms: ModulesV, require_main: bool, n: Seq<char>)
    ensures
        check_program(p, ms, require_main) matches Ok(x) ==> {
            &&& crate::program_spec::structs_pass(p.structs, 0, Seq::empty(), ms) matches Ok(sreg)
            &&& crate::program_spec::enums_pass(p.enums, 0, sreg, Seq::empty(), ms) matches Ok(ereg)
            &&& signatures_pass(p.functions, 0, sreg, ereg, ms, Seq::empty(), Seq::empty()) matches Ok(sigs)
            &&& mangled_pass(p.impls, 0, sreg, ereg, ms, sigs.0) matches Ok(fenv)
            &&& x.structs == sreg
            &&& x.enums == ereg
            &&& (lookup(x.functions, n) is Some ==> lookup(x.functions, n) == lookup(fenv, n))
        },
{
    let e: Seq<(Seq<char>, SigV)> = Seq::empty();
    let g: Seq<(Seq<char>, GenericFnInfoV)> = Seq::empty();
    if let Ok(x) = check_program(p, ms, require_main) {
        if let Ok(sreg) = crate::program_spec::structs_pass(p.structs, 0, Seq::empty(), ms) {
            if let Ok(ereg) = crate::program_spec::enums_pass(p.enums, 0, sreg, Seq::empty(), ms) {
                if let Ok(sigs) = signatures_pass(p.functions, 0, sreg, ereg, ms, e, g) {
                    if let Ok(fenv) = mangled_pass(p.impls, 0, sreg, ereg, ms, sigs.0) {
                        lemma_exports_sigs(p.functions, 0, fenv, Seq::empty(), n);
                    }
                }
            }
        }
    }
}

/// The captures of a lambda name variables of the scope, none of them a
/// parameter of the lambda, each once, and each read by its body.
pub proof fn law_captures_are_distinct_scope_names(body: Seq<StmtV>, params: Seq<ParamV>, scope: Seq<Seq<char>>)
    ensures
        captures_of(body, params, scope).no_duplicates(),
        forall|i: int|
            0 <= i < captures_of(body, params, scope).len() ==> {
                let n = #[trigger] captures_of(body, params, scope)[i];
                &&& scope.contains(n)
                &&& !param_names(params).contains(n)
                &&& stmts_names_from(body, 0).contains(n)
            },
{
    lemma_add_names_keeps(Seq::empty(), stmts_names_from(body, 0), param_names(params), scope);
}

/// The checks of `args[i..]` pass exactly when each argument has a type and
/// that type passes its check.
proof fn lemma_tc_checks_ok(args: Seq<ExprV>, checks: Seq<CheckV>, i: int, l: LocalsV, env: EnvV)
    requires
        0 <= i <= args.len(),
        args.len() <= checks.len(),
    ensures
        tc_checks(args, checks, i, l, env) is Ok <==> forall|j: int|
            i <= j < args.len() ==> (#[trigger] tc_expr(args[j], l, env)) is Ok && passes(
                checks[j],
                tc_expr(args[j], l, env)->Ok_0,
            ),
    decreases args.len() - i,
{
    reveal_with_fuel(tc_expr, 1);
    if i < args.len() {
        lemma_tc_checks_ok(args, checks, i + 1, l, env);
        let t = tc_expr(args[i], l, env);
        let all_from = forall|j: int|
            i <= j < args.len() ==> (#[trigger] tc_expr(args[j], l, env)) is Ok && passes(
                checks[j],
                tc_expr(args[j], l, env)->Ok_0,
            );
        if all_from {
            assert(t is Ok && passes(checks[i], t->Ok_0));
            assert(tc_checks(args, checks, i + 1, l, env) is Ok);
        }
        if tc_checks(args, checks, i, l, env) is Ok {
            assert(t is Ok && passes(checks[i], t->Ok_0));
            assert(tc_checks(args, checks, i + 1, l, env) is Ok);
            assert forall|j: int| i <= j < args.len() implies (#[trigger] tc_expr(args[j], l, env)) is Ok && passes(
                checks[j],
                tc_expr(args[j], l, env)->Ok_0,
            ) by {
                if j > i {
                }
            }
        }
    }
}

/// A call of a function of the program whose name no builtin takes: with a
/// wrong number of arguments it is refused with the count message; with the
/// right number it has the function's return type exactly when every
/// argument has a type compatible with its parameter's type, and no other
/// type in any case.
pub proof fn law_user_call(f: Seq<char>, args: Seq<ExprV>, span: SpanV, sig: SigV, l: LocalsV, env: EnvV)
    requires
        builtin_of(f) is None,
        lookup(env.fns, f) == Some(sig),
    ensures
        args.len() != sig.0.len() ==> tc_expr(ExprV::Call { function: f, args, span }, l, env) == Err::<
            TypeV,
            Seq<char>,
        >(wrong_count(f, sig.0.len(), args.len())),
        args.len() == sig.0.len() ==> (tc_expr(ExprV::Call { function: f, args, span }, l, env) == Ok::<
            TypeV,
            Seq<char>,
        >(sig.1) <==> forall|i: int|
            0 <= i < args.len() ==> (#[trigger] tc_expr(args[i], l, env)) is Ok && compatible(
                tc_expr(args[i], l, env)->Ok_0,
                sig.0[i],
            )),
        tc_expr(ExprV::Call { function: f, args, span }, l, env) is Ok ==> tc_expr(
            ExprV::Call { function: f, args, span },
            l,
            env,
        ) == Ok::<TypeV, Seq<char>>(sig.1),
{
    reveal_with_fuel(tc_expr, 1);
    let call = ExprV::Call { function: f, args, span };
    assert(tc_expr(call, l, env) == tc_call(f, args, l, env));
    assert(tc_call(f, args, l, env) == tc_user_call(f, args, l, env));
    assert(tc_user_call(f, args, l, env) == tc_sig_call(f, sig, args, l, env));
    if args.len() == sig.0.len() {
        let cs = checks_for(sig.0, 2, q(f));
        lemma_tc_checks_ok(args, cs, 0, l, env);
        assert forall|i: int| 0 <= i < args.len() implies (passes(cs[i], tc_expr(args[i], l, env)->Ok_0) <==> compatible(
            tc_expr(args[i], l, env)->Ok_0,
            sig.0[i],
        )) by {
            assert(cs[i].mode == 2 && cs[i].expected == sig.0[i]);
        }
    }
}

/// After argument `i` of a generic call binds type parameter `t` to `a`, an
/// argument `j` for the same parameter with another type `b` is refused.
proof fn lemma_generic_conflict_after(
    f: Seq<char>,
    info: GenericFnInfoV,
    args: Seq<ExprV>,
    k: int,
    tmap: Seq<(Seq<char>, TypeV)>,
    l: LocalsV,
    env: EnvV,
    j: int,
    a: TypeV,
    b: TypeV,
)
    requires
        0 <= k <= j < args.len(),
        args.len() == info.param_types.len(),
        lookup(info.type_params, info.param_types[j]) is Some,
        lookup(tmap, info.param_types[j]) == Some(a),
        tc_expr(args[j], l, env) == Ok::<TypeV, Seq<char>>(b),
        a != b,
    ensures
        tc_generic_args(f, info, args, k, tmap, l, env) is Err,
    decreases j - k,
{
    reveal_with_fuel(tc_expr, 1);
    let t = info.param_types[j];
    if k < j {
        match tc_expr(args[k], l, env) {
            Err(_) => {},
            Ok(actual) => {
                let pname = info.param_types[k];
                if lookup(info.type_params, pname) is Some {
                    match lookup(tmap, pname) {
                        Some(existing) => {
                            if existing == actual {
                                lemma_generic_conflict_after(f, info, args, k + 1, tmap, l, env, j, a, b);
                            }
                        },
                        None => {
                            let m2 = assoc_insert(tmap, pname, actual);
                            lemma_insert_keeps(tmap, pname, actual, t);
                            lemma_generic_conflict_after(f, info, args, k + 1, m2, l, env, j, a, b);
                        },
                    }
                } else {
                    lemma_generic_conflict_after(f, info, args, k + 1, tmap, l, env, j, a, b);
                }
            },
        }
    }
}

/// Before argument `i` of a generic call is reached, a later conflict on the
/// same type parameter still makes the call fail.
proof fn lemma_generic_conflict_before(
    f: Seq<char>,
    info: GenericFnInfoV,
    args: Seq<ExprV>,
    k: int,
    tmap: Seq<(Seq<char>, TypeV)>,
    l: LocalsV,
    env: EnvV,
    i: int,
    j: int,
    a: TypeV,
    b: TypeV,
)
    requires
        0 <= k <= i < j < args.len(),
        args.len() == info.param_types.len(),
        lookup(info.type_params, info.param_types[i]) is Some,
        info.param_types[j] == info.param_types[i],
        tc_expr(args[i], l, env) == Ok::<TypeV, Seq<char>>(a),
        tc_expr(args[j], l, env) == Ok::<TypeV, Seq<char>>(b),
        a != b,
    ensures
        tc_generic_args(f, info, args, k, tmap, l, env) is Err,
    decreases i - k,
{
    reveal_with_fuel(tc_expr, 1);
    let t = info.param_types[i];
    match tc_expr(args[k], l, env) {
        Err(_) => {},
        Ok(actual) => {
            let pname = info.param_types[k];
            if lookup(info.type_params, pname) is Some {
                match lookup(tmap, pname) {
                    Some(existing) => {
                        if existing == actual {
                            if k < i {
                                lemma_generic_conflict_before(f, info, args, k + 1, tmap, l, env, i, j, a, b);
                            } else {
                                lemma_generic_conflict_after(f, info, args, k + 1, tmap, l, env, j, a, b);
                            }
                        }
                    },
                    None => {
                        let m2 = assoc_insert(tmap, pname, actual);
                        lemma_insert_keeps(tmap, pname, actual, t);
                        if k < i {
                            lemma_generic_conflict_before(f, info, args, k + 1, m2, l, env, i, j, a, b);
                        } else {
                            lemma_generic_conflict_after(f, info, args, k + 1, m2, l, env, j, a, b);
                        }
                    },
                }
            } else {
                lemma_generic_conflict_before(f, info, args, k + 1, tmap, l, env, i, j, a, b);
            }
        },
    }
}

/// A generic call in which two arguments for the same type parameter have
/// different types is refused.
pub proof fn law_generic_call_conflict(
    f: Seq<char>,
    info: GenericFnInfoV,
    args: Seq<ExprV>,
    l: LocalsV,
    env: EnvV,
    i: int,
    j: int,
)
    requires
        0 <= i < j < args.len(),
        lookup(info.type_params, info.param_types[i]) is Some,
        info.param_types[j] == info.param_types[i],
        tc_expr(args[i], l, env) is Ok,
        tc_expr(args[j], l, env) is Ok,
        tc_expr(args[i], l, env) != tc_expr(args[j], l, env),
    ensures
        tc_generic_call(f, info, args, l, env) is Err,
{
    if args.len() == info.param_types.len() {
        lemma_generic_conflict_before(
            f,
            info,
            args,
            0,
            Seq::empty(),
            l,
            env,
            i,
            j,
            tc_expr(args[i], l, env)->Ok_0,
            tc_expr(args[j], l, env)->Ok_0,
        );
    }
}

/// Inferring the type parameters of later arguments keeps a binding made
/// before.
proof fn lemma_generic_keeps(
    f: Seq<char>,
    info: GenericFnInfoV,
    args: Seq<ExprV>,
    k: int,
    tmap: Seq<(Seq<char>, TypeV)>,
    l: LocalsV,
    env: EnvV,
    r: Seq<char>,
    a: TypeV,
)
    requires
        0 <= k <= args.len(),
        args.len() == info.param_types.len(),
        lookup(tmap, r) == Some(a),
    ensures
        tc_generic_args(f, info, args, k, tmap, l, env) matches Ok(fm) ==> lookup(fm, r) == Some(a),
    decreases args.len() - k,
{
    reveal_with_fuel(tc_expr, 1);
    if k < args.len() {
        match tc_expr(args[k], l, env) {
            Err(_) => {},
            Ok(actual) => {
                let pname = info.param_types[k];
                if lookup(info.type_params, pname) is Some && lookup(tmap, pname) is None {
                    lemma_insert_keeps(tmap, pname, actual, r);
                    lemma_generic_keeps(f, info, args, k + 1, assoc_insert(tmap, pname, actual), l, env, r, a);
                } else {
                    lemma_generic_keeps(f, info, args, k + 1, tmap, l, env, r, a);
                }
            },
        }
    }
}

/// A type parameter not bound yet is bound to the type of the first argument
/// declared with it.
proof fn lemma_generic_binds(
    f: Seq<char>,
    info: GenericFnInfoV,
    args: Seq<ExprV>,
    k: int,
    tmap: Seq<(Seq<char>, TypeV)>,
    l: LocalsV,
    env: EnvV,
    i: int,
)
    requires
        0 <= k <= i < args.len(),
        args.len() == info.param_types.len(),
        lookup(info.type_params, info.param_types[i]) is Some,
        lookup(tmap, info.param_types[i]) is None,
        forall|m: int| k <= m < i ==> info.param_types[m] != info.param_types[i],
    ensures
        tc_generic_args(f, info, args, k, tmap, l, env) matches Ok(fm) ==> lookup(fm, info.param_types[i]) == Some(
            tc_expr(args[i], l, env)->Ok_0,
        ),
    decreases i - k,
{
    reveal_with_fuel(tc_expr, 1);
    let r = info.param_types[i];
    match tc_expr(args[k], l, env) {
        Err(_) => {},
        Ok(actual) => {
            let pname = info.param_types[k];
            if k < i {
                if lookup(info.type_params, pname) is Some && lookup(tmap, pname) is None {
                    lemma_insert_keeps(tmap, pname, actual, r);
                    lemma_generic_binds(f, info, args, k + 1, assoc_insert(tmap, pname, actual), l, env, i);
                } else {
                    lemma_generic_binds(f, info, args, k + 1, tmap, l, env, i);
                }
            } else {
                lemma_insert_keeps(tmap, pname, actual, r);
                lemma_generic_keeps(f, info, args, k + 1, assoc_insert(tmap, pname, actual), l, env, r, actual);
            }
        },
    }
}

/// When the return type of a generic function is one of its type parameters,
/// a call that is accepted has the type of the first argument declared with
/// that parameter.
pub proof fn law_generic_return_inferred(
    f: Seq<char>,
    info: GenericFnInfoV,
    args: Seq<ExprV>,
    l: LocalsV,
    env: EnvV,
    i: int,
)
    requires
        0 <= i < info.param_types.len(),
        lookup(info.type_params, info.return_type_name) is Some,
        info.param_types[i] == info.return_type_name,
        forall|m: int| 0 <= m < i ==> info.param_types[m] != info.return_type_name,
    ensures
        tc_generic_call(f, info, args, l, env) is Ok ==> tc_generic_call(f, info, args, l, env) == Ok::<
            TypeV,
            Seq<char>,
        >(tc_expr(args[i], l, env)->Ok_0),
{
    if args.len() == info.param_types.len() {
        lemma_generic_binds(f, info, args, 0, Seq::empty(), l, env, i);
    }
}

/// A call of a generic function of the program whose name no builtin and no
/// plain function takes is checked as a generic call.
pub proof fn law_generic_call_dispatch(
    f: Seq<char>,
    args: Seq<ExprV>,
    span: SpanV,
    info: GenericFnInfoV,
    l: LocalsV,
    env: EnvV,
)
    requires
        builtin_of(f) is None,
        lookup(env.fns, f) is None,
        lookup(env.generics, f) == Some(info),
    ensures
        tc_expr(ExprV::Call { function: f, args, span }, l, env) == tc_generic_call(f, info, args, l, env),
{
    reveal_with_fuel(tc_expr, 1);
    assert(tc_call(f, args, l, env) == tc_user_call(f, args, l, env));
}

/// No field of `ef[j..]` is missing from `given` exactly when each has a
/// value there.
proof fn lemma_missing_field_none(ef: Seq<(Seq<char>, TypeV)>, j: int, given: Seq<(Seq<char>, ExprV)>)
    requires
        0 <= j <= ef.len(),
    ensures
        missing_field(ef, j, given) is None <==> forall|m: int|
            j <= m < ef.len() ==> exists|k: int| 0 <= k < given.len() && #[trigger] given[k].0 == (#[trigger] ef[m]).0,
    decreases ef.len() - j,
{
    if j < ef.len() {
        lemma_missing_field_none(ef, j + 1, given);
    }
}

/// The field values `fields[i..]` check exactly when each names a field of
/// the struct and has exactly that field's type.
proof fn lemma_struct_fields_ok(
    sname: Seq<char>,
    ef: Seq<(Seq<char>, TypeV)>,
    fields: Seq<(Seq<char>, ExprV)>,
    i: int,
    l: LocalsV,
    env: EnvV,
)
    requires
        0 <= i <= fields.len(),
    ensures
        tc_struct_fields(sname, ef, fields, i, l, env) is Ok <==> forall|k: int|
            i <= k < fields.len() ==> (#[trigger] lookup(ef, fields[k].0)) is Some && tc_expr(fields[k].1, l, env)
                == Ok::<TypeV, Seq<char>>(lookup(ef, fields[k].0)->Some_0),
    decreases fields.len() - i,
{
    reveal_with_fuel(tc_expr, 1);
    if i < fields.len() {
        lemma_struct_fields_ok(sname, ef, fields, i + 1, l, env);
        if tc_struct_fields(sname, ef, fields, i, l, env) is Ok {
            assert forall|k: int| i <= k < fields.len() implies (#[trigger] lookup(ef, fields[k].0)) is Some
                && tc_expr(fields[k].1, l, env) == Ok::<TypeV, Seq<char>>(lookup(ef, fields[k].0)->Some_0) by {
                if k > i {
                }
            }
        }
    }
}

/// A struct literal of an unknown struct is refused; one of a known struct
/// has that struct's type exactly when every field of the struct is given
/// and every given field names a field of the struct and has exactly its
/// type; a missing field is reported by name; no other type comes out.
pub proof fn law_struct_literal(
    name: Seq<char>,
    fields: Seq<(Seq<char>, ExprV)>,
    span: SpanV,
    l: LocalsV,
    env: EnvV,
)
    ensures
        lookup(env.structs, name) is None ==> tc_expr(ExprV::StructLiteral { name, fields, span }, l, env) == Err::<
            TypeV,
            Seq<char>,
        >("undefined struct "@ + q(name)),
        lookup(env.structs, name) matches Some(ef) ==> (tc_expr(
            ExprV::StructLiteral { name, fields, span },
            l,
            env,
        ) == Ok::<TypeV, Seq<char>>(TypeV::Struct { name, fields: ef }) <==> ((forall|m: int|
            0 <= m < ef.len() ==> exists|k: int| 0 <= k < fields.len() && #[trigger] fields[k].0 == (#[trigger] ef[m]).0)
            && (forall|k: int|
            0 <= k < fields.len() ==> (#[trigger] lookup(ef, fields[k].0)) is Some && tc_expr(fields[k].1, l, env)
                == Ok::<TypeV, Seq<char>>(lookup(ef, fields[k].0)->Some_0)))),
        lookup(env.structs, name) matches Some(ef) ==> (missing_field(ef, 0, fields) matches Some(n) ==> tc_expr(
            ExprV::StructLiteral { name, fields, span },
            l,
            env,
        ) == Err::<TypeV, Seq<char>>("missing field "@ + q(n) + " in struct "@ + q(name))),
        tc_expr(ExprV::StructLiteral { name, fields, span }, l, env) is Ok ==> (lookup(env.structs, name) matches Some(
            ef,
        ) && tc_expr(ExprV::StructLiteral { name, fields, span }, l, env) == Ok::<TypeV, Seq<char>>(
            TypeV::Struct { name, fields: ef },
        )),
{
    reveal_with_fuel(tc_expr, 1);
    match lookup(env.structs, name) {
        None => {},
        Some(ef) => {
            lemma_missing_field_none(ef, 0, fields);
            lemma_struct_fields_ok(name, ef, fields, 0, l, env);
        },
    }
}

/// Every variable of the scope that a lambda body reads, outside nested
/// lambdas, and that is no parameter of the lambda, is captured: a name
/// used as the receiver of a method call, an argument, a condition or in
/// any other place.
pub proof fn law_captures_are_complete(body: Seq<StmtV>, params: Seq<ParamV>, scope: Seq<Seq<char>>, n: Seq<char>)
    requires
        stmts_read_from(body, 0, n),
        scope.contains(n),
        !param_names(params).contains(n),
    ensures
        captures_of(body, params, scope).contains(n),
{
    crate::captures::lemma_stmts_read_named_pub(body, n);
    lemma_add_names_takes(Seq::empty(), stmts_names_from(body, 0), param_names(params), scope, n);
}

} // verus!
