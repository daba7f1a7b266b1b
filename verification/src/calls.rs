//! The checks of calls and of their arguments.
use vstd::prelude::*;
use crate::ast::{Expr, expr_v, exprs_v, lemma_exprs_v};
use crate::types::{Type, TypeV, types_v, lemma_types_v, type_to_string, type_eq};
use crate::typeck_spec::{q, tc_generic_args, missing_method, bound_error, generic_return, lemma_key_index_is, tc_checks, tc_call, tc_builtin_call, tc_user_call, tc_sig_call, tc_generic_call, tc_local_call};
use crate::typeck::{TypeError, FunctionSignature, GenericFnInfo, Env, Locals, locals_v, sigs_reg_v, generics_reg_v, find_key, clone_type, usize_text, find_key2, lemma_key_index_is2, methods_reg_v, traits_reg_v, trait_sigs_v, resolve_type};
use crate::plans::{Check, checks_v, q_text, wrong_count_text, checks_for_params, checks_of_builtin, arg_head_text};
use crate::builtins::{Builtin, builtin_rule};
use crate::checker::{check_expr, fail, passes_exec};
use crate::text::{string_of, concat_str};

verus! {

pub open spec fn ok_types(r: Result<Seq<TypeV>, Seq<char>>, done: Seq<TypeV>) -> Result<Seq<TypeV>, Seq<char>> {
    match r {
        Err(e) => Err(e),
        Ok(ts) => Ok(done + ts),
    }
}

/// The types of `args[i..]` under `checks`, or the first error.
pub fn check_args(args: &Vec<Expr>, checks: &Vec<Check>, i: usize, l: &Locals, env: &Env) -> (r: Result<Vec<Type>, TypeError>)
    requires
        i <= args@.len(),
    ensures
        match r {
            Ok(ts) => tc_checks(exprs_v(args@), checks_v(checks@), i as int, locals_v(l@), env.view()) == Ok::<Seq<TypeV>, Seq<char>>(types_v(ts@)),
            Err(e) => tc_checks(exprs_v(args@), checks_v(checks@), i as int, locals_v(l@), env.view()) == Err::<Seq<TypeV>, Seq<char>>(e.message@),
        },
        r matches Ok(ts) ==> ts@.len() == args@.len() - i,
    decreases args, 0int,
{
    let ghost av = exprs_v(args@);
    let ghost cv = checks_v(checks@);
    let ghost lv = locals_v(l@);
    let ghost ev = env.view();
    proof {
        lemma_exprs_v(args@);
    }
    let mut out: Vec<Type> = Vec::new();
    let mut k: usize = i;
    proof {
        assert(types_v(out@) =~= Seq::<TypeV>::empty());
        match tc_checks(av, cv, i as int, lv, ev) {
            Err(e) => {},
            Ok(ts) => {
                assert(Seq::<TypeV>::empty() + ts =~= ts);
            },
        }
    }
    while k < args.len()
        invariant
            i <= k <= args@.len(),
            av == exprs_v(args@),
            cv == checks_v(checks@),
            lv == locals_v(l@),
            ev == env.view(),
            out@.len() == k - i,
            av.len() == args@.len(),
            forall|j: int| 0 <= j < args@.len() ==> #[trigger] av[j] == expr_v(args@[j]),
            tc_checks(av, cv, i as int, lv, ev) == ok_types(tc_checks(av, cv, k as int, lv, ev), types_v(out@)),
        decreases args@.len() - k,
    {
        proof {
            assert(decreases_to!(args => args@));
            assert(decreases_to!(args@ => args@[k as int]));
        }
        let t = match check_expr(&args[k], l, env) {
            Ok(t) => t,
            Err(e) => {
                assert(tc_checks(av, cv, k as int, lv, ev) == Err::<Seq<TypeV>, Seq<char>>(e.message@));
                return Err(e);
            },
        };
        if k < checks.len() && !passes_exec(&checks[k], &t) {
            let ts = type_to_string(&t);
            let c = &checks[k];
            let msg = concat_str(concat_str(c.head.clone(), ts.as_str()), c.tail.as_str());
            assert(tc_checks(av, cv, k as int, lv, ev) == Err::<Seq<TypeV>, Seq<char>>(msg@));
            return fail(msg);
        }
        let ghost before = out@;
        let ghost tv = t@;
        out.push(t);
        proof {
            assert(out@.drop_last() =~= before);
            assert(types_v(out@) == types_v(before).push(tv));
            match tc_checks(av, cv, k + 1, lv, ev) {
                Err(e) => {},
                Ok(ts) => {
                    assert(types_v(before) + (seq![tv] + ts) =~= types_v(out@) + ts);
                },
            }
        }
        k = k + 1;
    }
    proof {
        assert(types_v(out@) + Seq::<TypeV>::empty() =~= types_v(out@));
    }
    Ok(out)
}

/// A call of a function by name.
pub fn check_call(f: &String, args: &Vec<Expr>, l: &Locals, env: &Env) -> (r: Result<Type, TypeError>)
    ensures
        match r {
            Ok(t) => tc_call(f@, exprs_v(args@), locals_v(l@), env.view()) == Ok::<TypeV, Seq<char>>(t@),
            Err(er) => tc_call(f@, exprs_v(args@), locals_v(l@), env.view()) == Err::<TypeV, Seq<char>>(er.message@),
        },
    decreases args, 3int,
{
    proof {
        lemma_exprs_v(args@);
    }
    match builtin_rule(f) {
        Some(b) => check_builtin_call(&b, args, l, env),
        None => check_user_call(f, args, l, env),
    }
}

/// A call of a builtin function with rule `b`.
fn check_builtin_call(b: &Builtin, args: &Vec<Expr>, l: &Locals, env: &Env) -> (r: Result<Type, TypeError>)
    ensures
        match r {
            Ok(t) => tc_builtin_call(b@, exprs_v(args@), locals_v(l@), env.view()) == Ok::<TypeV, Seq<char>>(t@),
            Err(er) => tc_builtin_call(b@, exprs_v(args@), locals_v(l@), env.view()) == Err::<TypeV, Seq<char>>(er.message@),
        },
    decreases args, 2int,
{
    let ghost av = exprs_v(args@);
    let ghost lv = locals_v(l@);
    let ghost ev = env.view();
    let ghost bv = b@;
    proof {
        lemma_exprs_v(args@);
    }
    if args.len() != b.arity {
        let msg = if b.count {
            concat_str(b.arity_msg.clone(), usize_text(args.len()).as_str())
        } else {
            b.arity_msg.clone()
        };
        proof {
            if !b.count {
                assert(msg@ =~= b@.arity_msg + Seq::<char>::empty());
            }
        }
        return fail(msg);
    }
    let checks = checks_of_builtin(b);
    let ts = match check_args(args, &checks, 0, l, env) {
        Ok(ts) => ts,
        Err(er) => return Err(er),
    };
    match &b.ret {
        Some(t) => Ok(clone_type(t)),
        None => {
            proof {
                lemma_types_v(ts@);
            }
            if ts.len() == 0 {
                return fail(String::new());
            }
            Ok(Type::Result { inner: Box::new(clone_type(&ts[0])) })
        },
    }
}

/// A call of a function that is not a builtin.
fn check_user_call(f: &String, args: &Vec<Expr>, l: &Locals, env: &Env) -> (r: Result<Type, TypeError>)
    ensures
        match r {
            Ok(t) => tc_user_call(f@, exprs_v(args@), locals_v(l@), env.view()) == Ok::<TypeV, Seq<char>>(t@),
            Err(er) => tc_user_call(f@, exprs_v(args@), locals_v(l@), env.view()) == Err::<TypeV, Seq<char>>(er.message@),
        },
    decreases args, 2int,
{
    let j = find_key(&env.fns, f);
    proof {
        lemma_key_index_is(sigs_reg_v(env.fns@), f@, j as int);
    }
    if j < env.fns.len() {
        return check_sig_call(f, &env.fns[j].1, args, l, env);
    }
    let g = find_key(&env.generics, f);
    proof {
        lemma_key_index_is(generics_reg_v(env.generics@), f@, g as int);
    }
    if g < env.generics.len() {
        return check_generic_call(f, &env.generics[g].1, args, l, env);
    }
    check_local_call(f, args, l, env)
}

/// A call of a function of the program.
fn check_sig_call(f: &String, sig: &FunctionSignature, args: &Vec<Expr>, l: &Locals, env: &Env) -> (r: Result<Type, TypeError>)
    ensures
        match r {
            Ok(t) => tc_sig_call(f@, sig@, exprs_v(args@), locals_v(l@), env.view()) == Ok::<TypeV, Seq<char>>(t@),
            Err(er) => tc_sig_call(f@, sig@, exprs_v(args@), locals_v(l@), env.view()) == Err::<TypeV, Seq<char>>(er.message@),
        },
    decreases args, 1int,
{
    proof {
        lemma_exprs_v(args@);
        lemma_types_v(sig.params@);
    }
    if args.len() != sig.params.len() {
        return fail(wrong_count_text(f.as_str(), sig.params.len(), args.len()));
    }
    let qf = q_text(f.as_str());
    let checks = checks_for_params(&sig.params, 2, qf.as_str());
    match check_args(args, &checks, 0, l, env) {
        Ok(_) => Ok(clone_type(&sig.return_type)),
        Err(er) => Err(er),
    }
}

pub open spec fn tmap_v(s: Seq<(String, Type)>) -> Seq<(Seq<char>, TypeV)> {
    s.map_values(|e: (String, Type)| (e.0@, e.1@))
}

pub open spec fn opt_msg(o: Option<String>) -> Option<Seq<char>> {
    match o {
        Some(s) => Some(s@),
        None => None,
    }
}

/// The inferred type parameters after the arguments of a generic function.
fn check_generic_args(f: &String, info: &GenericFnInfo, args: &Vec<Expr>, l: &Locals, env: &Env) -> (r: Result<Vec<(String, Type)>, TypeError>)
    requires
        args@.len() == info.param_types@.len(),
    ensures
        match r {
            Ok(m) => tc_generic_args(f@, info@, exprs_v(args@), 0, Seq::empty(), locals_v(l@), env.view()) == Ok::<Seq<(Seq<char>, TypeV)>, Seq<char>>(tmap_v(m@)),
            Err(er) => tc_generic_args(f@, info@, exprs_v(args@), 0, Seq::empty(), locals_v(l@), env.view()) == Err::<Seq<(Seq<char>, TypeV)>, Seq<char>>(er.message@),
        },
    decreases args, 0int,
{
    let ghost av = exprs_v(args@);
    let ghost lv = locals_v(l@);
    let ghost ev = env.view();
    let ghost iv = info@;
    proof {
        lemma_exprs_v(args@);
    }
    let mut tmap: Vec<(String, Type)> = Vec::new();
    assert(tmap_v(tmap@) =~= Seq::<(Seq<char>, TypeV)>::empty());
    let qf = q_text(f.as_str());
    let mut k: usize = 0;
    while k < args.len()
        invariant
            k <= args@.len(),
            args@.len() == info.param_types@.len(),
            av == exprs_v(args@),
            lv == locals_v(l@),
            ev == env.view(),
            iv == info@,
            qf@ == q(f@),
            av.len() == args@.len(),
            forall|j: int| 0 <= j < args@.len() ==> #[trigger] av[j] == expr_v(args@[j]),
            tc_generic_args(f@, iv, av, 0, Seq::empty(), lv, ev) == tc_generic_args(f@, iv, av, k as int, tmap_v(tmap@), lv, ev),
        decreases args@.len() - k,
    {
        proof {
            assert(decreases_to!(args => args@));
            assert(decreases_to!(args@ => args@[k as int]));
        }
        let actual = match check_expr(&args[k], l, env) {
            Ok(t) => t,
            Err(er) => return Err(er),
        };
        let pname = &info.param_types[k];
        assert(iv.param_types[k as int] == pname@);
        let tpi = find_key(&info.type_params, pname);
        proof {
            lemma_key_index_is(iv.type_params, pname@, tpi as int);
        }
        if tpi < info.type_params.len() {
            let mi = find_key(&tmap, pname);
            proof {
                lemma_key_index_is(tmap_v(tmap@), pname@, mi as int);
            }
            if mi < tmap.len() {
                let existing = &tmap[mi].1;
                if !type_eq(existing, &actual) {
                    let qp = q_text(pname.as_str());
                    let et = type_to_string(existing);
                    let n = usize_text(k + 1);
                    let at = type_to_string(&actual);
                    let msg = concat_str(
                        concat_str(
                            concat_str(
                                concat_str(
                                    concat_str(concat_str(concat_str(string_of("type parameter "), qp.as_str()), " inferred as "), et.as_str()),
                                    " but argument ",
                                ),
                                n.as_str(),
                            ),
                            " has type ",
                        ),
                        at.as_str(),
                    );
                    return fail(msg);
                }
            } else {
                let ghost before = tmap_v(tmap@);
                let ghost av0 = actual@;
                tmap.push((pname.clone(), actual));
                proof {
                    assert(tmap_v(tmap@) =~= before.push((pname@, av0)));
                    assert(crate::typeck_spec::assoc_insert(before, pname@, av0) == before.push((pname@, av0)));
                }
            }
        } else {
            let expected = match resolve_type(pname, &env.structs, &env.enums, env.modules) {
                Ok(t) => t,
                Err(er) => return Err(er),
            };
            if !type_eq(&actual, &expected) {
                let head = arg_head_text(k, qf.as_str(), &expected);
                let at = type_to_string(&actual);
                return fail(concat_str(head, at.as_str()));
            }
        }
        k = k + 1;
    }
    Ok(tmap)
}

/// The first method of a trait that type `tn` lacks.
fn find_missing_method(tms: &Vec<(String, Vec<Type>, Type)>, tn: &String, env: &Env) -> (r: Option<String>)
    ensures
        opt_msg(r) == missing_method(trait_sigs_v(tms@), 0, tn@, env.view().methods),
{
    let ghost tv = trait_sigs_v(tms@);
    let mut j: usize = 0;
    while j < tms.len()
        invariant
            j <= tms@.len(),
            tv == trait_sigs_v(tms@),
            missing_method(tv, 0, tn@, env.view().methods) == missing_method(tv, j as int, tn@, env.view().methods),
        decreases tms@.len() - j,
    {
        let mi = find_key2(&env.methods, tn, &tms[j].0);
        proof {
            lemma_key_index_is2(methods_reg_v(env.methods@), (tn@, tms@[j as int].0@), mi as int);
        }
        if mi >= env.methods.len() {
            return Some(tms[j].0.clone());
        }
        j = j + 1;
    }
    None
}

/// The first trait bound of a generic function that the inferred types break.
fn find_bound_error(info: &GenericFnInfo, tmap: &Vec<(String, Type)>, env: &Env) -> (r: Option<String>)
    ensures
        opt_msg(r) == bound_error(info@.type_params, 0, tmap_v(tmap@), env.view()),
{
    let ghost tps = info@.type_params;
    let mut k: usize = 0;
    while k < info.type_params.len()
        invariant
            k <= info.type_params@.len(),
            tps == info@.type_params,
            bound_error(tps, 0, tmap_v(tmap@), env.view()) == bound_error(tps, k as int, tmap_v(tmap@), env.view()),
        decreases info.type_params@.len() - k,
    {
        let tp = &info.type_params[k];
        match &tp.1 {
            None => {},
            Some(tr) => {
                let mi = find_key(tmap, &tp.0);
                proof {
                    lemma_key_index_is(tmap_v(tmap@), tp.0@, mi as int);
                }
                if mi >= tmap.len() {
                    return Some(concat_str(string_of("could not infer type parameter "), q_text(tp.0.as_str()).as_str()));
                }
                let ct = &tmap[mi].1;
                let tn = match ct {
                    Type::Struct { name, .. } => name,
                    Type::Enum { name, .. } => name,
                    _ => {
                        let ts = type_to_string(ct);
                        return Some(concat_str(
                            concat_str(concat_str(string_of("type "), ts.as_str()), " cannot satisfy trait bound "),
                            q_text(tr.as_str()).as_str(),
                        ));
                    },
                };
                let ti = find_key(&env.traits, tr);
                proof {
                    lemma_key_index_is(traits_reg_v(env.traits@), tr@, ti as int);
                }
                if ti >= env.traits.len() {
                    return Some(concat_str(string_of("undefined trait "), q_text(tr.as_str()).as_str()));
                }
                match find_missing_method(&env.traits[ti].1, tn, env) {
                    Some(mn) => {
                        let msg = concat_str(
                            concat_str(
                                concat_str(
                                    concat_str(concat_str(concat_str(string_of("type "), q_text(tn.as_str()).as_str()), " does not implement trait "), q_text(tr.as_str()).as_str()),
                                    " (missing method ",
                                ),
                                q_text(mn.as_str()).as_str(),
                            ),
                            ")",
                        );
                        return Some(msg);
                    },
                    None => {},
                }
            },
        }
        k = k + 1;
    }
    None
}

/// The return type of a generic function once its type parameters are
/// inferred.
fn generic_return_type(info: &GenericFnInfo, tmap: &Vec<(String, Type)>, env: &Env) -> (r: Result<Type, TypeError>)
    ensures
        match r {
            Ok(t) => generic_return(info@, tmap_v(tmap@), env.view()) == Ok::<TypeV, Seq<char>>(t@),
            Err(er) => generic_return(info@, tmap_v(tmap@), env.view()) == Err::<TypeV, Seq<char>>(er.message@),
        },
{
    let rtn = &info.return_type_name;
    let tpi = find_key(&info.type_params, rtn);
    proof {
        lemma_key_index_is(info@.type_params, rtn@, tpi as int);
    }
    if tpi < info.type_params.len() {
        let mi = find_key(tmap, rtn);
        proof {
            lemma_key_index_is(tmap_v(tmap@), rtn@, mi as int);
        }
        if mi < tmap.len() {
            Ok(clone_type(&tmap[mi].1))
        } else {
            fail(concat_str(string_of("could not infer return type parameter "), q_text(rtn.as_str()).as_str()))
        }
    } else {
        resolve_type(rtn, &env.structs, &env.enums, env.modules)
    }
}

/// A call of a generic function.
fn check_generic_call(f: &String, info: &GenericFnInfo, args: &Vec<Expr>, l: &Locals, env: &Env) -> (r: Result<Type, TypeError>)
    ensures
        match r {
            Ok(t) => tc_generic_call(f@, info@, exprs_v(args@), locals_v(l@), env.view()) == Ok::<TypeV, Seq<char>>(t@),
            Err(er) => tc_generic_call(f@, info@, exprs_v(args@), locals_v(l@), env.view()) == Err::<TypeV, Seq<char>>(er.message@),
        },
    decreases args, 1int,
{
    proof {
        lemma_exprs_v(args@);
    }
    if args.len() != info.param_types.len() {
        return fail(wrong_count_text(f.as_str(), info.param_types.len(), args.len()));
    }
    let tmap = match check_generic_args(f, info, args, l, env) {
        Ok(m) => m,
        Err(er) => return Err(er),
    };
    match find_bound_error(info, &tmap, env) {
        Some(msg) => fail(msg),
        None => generic_return_type(info, &tmap, env),
    }
}

/// A call through a local that holds a function.
fn check_local_call(f: &String, args: &Vec<Expr>, l: &Locals, env: &Env) -> (r: Result<Type, TypeError>)
    ensures
        match r {
            Ok(t) => tc_local_call(f@, exprs_v(args@), locals_v(l@), env.view()) == Ok::<TypeV, Seq<char>>(t@),
            Err(er) => tc_local_call(f@, exprs_v(args@), locals_v(l@), env.view()) == Err::<TypeV, Seq<char>>(er.message@),
        },
    decreases args, 1int,
{
    proof {
        lemma_exprs_v(args@);
    }
    let qf = q_text(f.as_str());
    let k = find_key(l, f);
    proof {
        lemma_key_index_is(locals_v(l@), f@, k as int);
    }
    if k < l.len() {
        match &l[k].1.0 {
            Type::Fn { params, ret } => {
                proof {
                    lemma_types_v(params@);
                }
                if args.len() != params.len() {
                    return fail(wrong_count_text(f.as_str(), params.len(), args.len()));
                }
                let checks = checks_for_params(params, 1, qf.as_str());
                return match check_args(args, &checks, 0, l, env) {
                    Ok(_) => Ok(clone_type(ret)),
                    Err(er) => Err(er),
                };
            },
            _ => {},
        }
    }
    fail(concat_str(string_of("undefined function "), qf.as_str()))
}

} // verus!
