//! Argument checks and the plans by which calls of methods and builtin
//! functions are checked.
use vstd::prelude::*;
use crate::types::{Type, TypeV, type_v, types_v, lemma_types_v, type_text, type_to_string};
use crate::typeck_spec::{CheckV, PlanV, SigV, lookup, q, arg_head, checks_for, builtin_checks, element_checks, wrong_count, exact, any_check, no_args, one_arg, two_args, no_method, method_plan, nominal_name, user_plan, full_plan};
use crate::typeck::{Env, text_is, usize_text, clone_type, find_key2, methods_reg_v, lemma_key_index_is2};
use crate::builtins::{Builtin};
use crate::text::{string_of, concat_str};

verus! {

/// A check of one argument (see `CheckV`).
pub struct Check {
    pub mode: u8,
    pub expected: Type,
    pub mask: u8,
    pub head: String,
    pub tail: String,
}

impl View for Check {
    type V = CheckV;

    open spec fn view(&self) -> CheckV {
        CheckV { mode: self.mode, expected: self.expected@, mask: self.mask, head: self.head@, tail: self.tail@ }
    }
}

pub open spec fn checks_v(s: Seq<Check>) -> Seq<CheckV> {
    s.map_values(|c: Check| c@)
}

/// How a method call is checked (see `PlanV`).
pub enum Plan {
    Simple { min: usize, max: usize, arity_msg: String, checks: Vec<Check>, ret: Type },
    FnArg { arity_msg: String, inner: Type, needs_bool: bool, head: String, result: u8 },
    Zip { inner: Type },
    Fail { message: String },
    User,
}

impl View for Plan {
    type V = PlanV;

    open spec fn view(&self) -> PlanV {
        match self {
            Plan::Simple { min, max, arity_msg, checks, ret } => PlanV::Simple {
                min: *min as nat,
                max: *max as nat,
                arity_msg: arity_msg@,
                checks: checks_v(checks@),
                ret: ret@,
            },
            Plan::FnArg { arity_msg, inner, needs_bool, head, result } => PlanV::FnArg {
                arity_msg: arity_msg@,
                inner: inner@,
                needs_bool: *needs_bool,
                head: head@,
                result: *result,
            },
            Plan::Zip { inner } => PlanV::Zip { inner: inner@ },
            Plan::Fail { message } => PlanV::Fail { message: message@ },
            Plan::User => PlanV::User,
        }
    }
}

/// `'s'`
pub fn q_text(s: &str) -> (r: String)
    ensures
        r@ == q(s@),
{
    concat_str(concat_str(string_of("'"), s), "'")
}

/// The head of the message for a wrong argument `i` (from 0) of `callee`.
pub fn arg_head_text(i: usize, callee: &str, expected: &Type) -> (r: String)
    requires
        i < usize::MAX,
    ensures
        r@ == arg_head(i as int, callee@, expected@),
{
    let n = usize_text(i + 1);
    let t = type_to_string(expected);
    let r = concat_str(
        concat_str(
            concat_str(concat_str(concat_str(concat_str(string_of("argument "), n.as_str()), " to "), callee), ": expected "),
            t.as_str(),
        ),
        " but got ",
    );
    proof {
        assert(r@ =~= arg_head(i as int, callee@, expected@));
    }
    r
}

/// The message for a call with the wrong number of arguments.
pub fn wrong_count_text(f: &str, expected: usize, got: usize) -> (r: String)
    ensures
        r@ == wrong_count(f@, expected as nat, got as nat),
{
    let fq = q_text(f);
    let e = usize_text(expected);
    let g = usize_text(got);
    let r = concat_str(
        concat_str(
            concat_str(concat_str(concat_str(string_of("wrong argument count calling "), fq.as_str()), ": expected "), e.as_str()),
            " argument(s) but got ",
        ),
        g.as_str(),
    );
    proof {
        assert(r@ =~= wrong_count(f@, expected as nat, got as nat));
    }
    r
}

/// Checks of arguments against parameter types, in the given mode.
pub fn checks_for_params(params: &Vec<Type>, mode: u8, callee: &str) -> (r: Vec<Check>)
    ensures
        checks_v(r@) == checks_for(types_v(params@), mode, callee@),
{
    proof {
        lemma_types_v(params@);
    }
    let ghost want = checks_for(types_v(params@), mode, callee@);
    let mut out: Vec<Check> = Vec::new();
    let mut i: usize = 0;
    while i < params.len()
        invariant
            i <= params@.len(),
            types_v(params@).len() == params@.len(),
            forall|j: int| 0 <= j < params@.len() ==> #[trigger] types_v(params@)[j] == params@[j]@,
            want == checks_for(types_v(params@), mode, callee@),
            checks_v(out@) == want.subrange(0, i as int),
        decreases params@.len() - i,
    {
        let head = arg_head_text(i, callee, &params[i]);
        let c = Check { mode, expected: clone_type(&params[i]), mask: 0, head, tail: String::new() };
        let ghost before = out@;
        out.push(c);
        proof {
            assert(checks_v(out@) =~= checks_v(before).push(c@));
            assert(want[i as int] == c@);
            assert(want.subrange(0, i + 1) =~= want.subrange(0, i as int).push(want[i as int]));
        }
        i = i + 1;
    }
    assert(want.subrange(0, params@.len() as int) =~= want);
    out
}

/// The checks of a builtin's arguments.
pub fn checks_of_builtin(b: &Builtin) -> (r: Vec<Check>)
    ensures
        checks_v(r@) == builtin_checks(b@.checks),
{
    let cs = &b.checks;
    let ghost want = builtin_checks(b@.checks);
    let mut out: Vec<Check> = Vec::new();
    let mut i: usize = 0;
    while i < cs.len()
        invariant
            i <= cs@.len(),
            want == builtin_checks(b@.checks),
            cs == &b.checks,
            checks_v(out@) == want.subrange(0, i as int),
        decreases cs@.len() - i,
    {
        let a = &cs[i];
        let c = Check {
            mode: if a.allowed == 0 { 0 } else { 4 },
            expected: Type::Int,
            mask: a.allowed,
            head: a.head.clone(),
            tail: String::new(),
        };
        let ghost before = out@;
        out.push(c);
        proof {
            assert(checks_v(out@) =~= checks_v(before).push(c@));
            assert(want[i as int] == c@);
            assert(want.subrange(0, i + 1) =~= want.subrange(0, i as int).push(want[i as int]));
        }
        i = i + 1;
    }
    assert(want.subrange(0, cs@.len() as int) =~= want);
    out
}

/// The checks of the elements of an array literal after the first.
pub fn checks_of_elements(first: &Type, n: usize) -> (r: Vec<Check>)
    ensures
        checks_v(r@) == element_checks(first@, n as nat),
{
    let ghost want = element_checks(first@, n as nat);
    let ft = type_to_string(first);
    let tail = concat_str(concat_str(string_of(" but expected "), ft.as_str()), " (from first element)");
    let mut out: Vec<Check> = Vec::new();
    let mut i: usize = 0;
    while i < n
        invariant
            i <= n,
            want == element_checks(first@, n as nat),
            tail@ == " but expected "@ + type_text(first@) + " (from first element)"@,
            checks_v(out@) == want.subrange(0, i as int),
        decreases n - i,
    {
        let it = usize_text(i);
        let head = concat_str(concat_str(string_of("array literal element "), it.as_str()), " has type ");
        let c = Check { mode: 1, expected: clone_type(first), mask: 0, head, tail: tail.clone() };
        let ghost before = out@;
        out.push(c);
        proof {
            assert(checks_v(out@) =~= checks_v(before).push(c@));
            assert(want[i as int] == c@);
            assert(want.subrange(0, i + 1) =~= want.subrange(0, i as int).push(want[i as int]));
        }
        i = i + 1;
    }
    assert(want.subrange(0, n as int) =~= want);
    out
}


fn exact_check(t: Type, head: String) -> (r: Check)
    ensures
        r@ == exact(t@, head@),
{
    Check { mode: 1, expected: t, mask: 0, head, tail: String::new() }
}

fn no_args_plan(m: &String, ret: Type) -> (r: Plan)
    ensures
        r@ == no_args(m@, ret@),
{
    let checks: Vec<Check> = Vec::new();
    let r = Plan::Simple { min: 0, max: 0, arity_msg: concat_str(m.clone(), "() takes no arguments"), checks, ret };
    assert(checks_v(checks@) =~= Seq::<CheckV>::empty());
    r
}

fn one_arg_plan(arity_msg: &str, c: Check, ret: Type) -> (r: Plan)
    ensures
        r@ == one_arg(arity_msg@, c@, ret@),
{
    let ghost cv = c@;
    let checks: Vec<Check> = vec![c];
    assert(checks_v(checks@) =~= seq![cv]);
    Plan::Simple { min: 1, max: 1, arity_msg: string_of(arity_msg), checks, ret }
}

fn two_args_plan(arity_msg: &str, c1: Check, c2: Check, ret: Type) -> (r: Plan)
    ensures
        r@ == two_args(arity_msg@, c1@, c2@, ret@),
{
    let ghost v1 = c1@;
    let ghost v2 = c2@;
    let checks: Vec<Check> = vec![c1, c2];
    assert(checks_v(checks@) =~= seq![v1, v2]);
    Plan::Simple { min: 2, max: 2, arity_msg: string_of(arity_msg), checks, ret }
}

fn no_method_plan(kind: &str, m: &String) -> (r: Plan)
    ensures
        r@ == no_method(kind@, m@),
{
    let msg = concat_str(concat_str(concat_str(string_of(kind), " has no method '"), m.as_str()), "'");
    assert(msg@ =~= kind@ + " has no method '"@ + m@ + "'"@);
    Plan::Fail { message: msg }
}

/// `a`, the text of `t`, then `b`.
fn around(a: &str, t: &Type, b: &str) -> (r: String)
    ensures
        r@ == a@ + type_text(t@) + b@,
{
    let ts = type_to_string(t);
    concat_str(concat_str(string_of(a), ts.as_str()), b)
}

fn array_plan(inner: &Type, m: &String) -> (r: Plan)
    ensures
        r@ == method_plan(TypeV::Array { inner: Box::new(inner@) }, m@),
{
    if text_is(m, "push") {
        one_arg_plan("push() takes exactly 1 argument", exact_check(clone_type(inner), around("push() type mismatch: array holds ", inner, " but got ")), Type::Int)
    } else if text_is(m, "get") {
        one_arg_plan("get() takes exactly 1 argument", exact_check(Type::Int, string_of("get() index must be Int, got ")), clone_type(inner))
    } else if text_is(m, "set") {
        two_args_plan(
            "set() takes exactly 2 arguments (index, value)",
            exact_check(Type::Int, string_of("set() index must be Int, got ")),
            exact_check(clone_type(inner), around("set() type mismatch: array holds ", inner, " but got ")),
            Type::Int,
        )
    } else if text_is(m, "len") {
        no_args_plan(m, Type::Int)
    } else if text_is(m, "pop") {
        no_args_plan(m, clone_type(inner))
    } else if text_is(m, "remove") {
        one_arg_plan("remove() takes exactly 1 argument (index)", exact_check(Type::Int, string_of("remove() index must be Int, got ")), clone_type(inner))
    } else if text_is(m, "map") {
        Plan::FnArg { arity_msg: string_of("map() takes exactly 1 argument (function)"), inner: clone_type(inner), needs_bool: false, head: around("map() requires a function (", inner, ") -> T, got "), result: 0 }
    } else if text_is(m, "filter") {
        Plan::FnArg { arity_msg: string_of("filter() takes exactly 1 argument (function)"), inner: clone_type(inner), needs_bool: true, head: around("filter() requires a function (", inner, ") -> Bool, got "), result: 1 }
    } else if text_is(m, "any") {
        Plan::FnArg { arity_msg: string_of("any() takes exactly 1 argument (function)"), inner: clone_type(inner), needs_bool: true, head: around("any() requires a function (", inner, ") -> Bool, got "), result: 2 }
    } else if text_is(m, "find") {
        Plan::FnArg { arity_msg: string_of("find() takes exactly 1 argument (function)"), inner: clone_type(inner), needs_bool: true, head: around("find() requires a function (", inner, ") -> Bool, got "), result: 3 }
    } else if text_is(m, "enumerate") {
        let elements: Vec<Type> = vec![Type::Int, clone_type(inner)];
        let ghost iv = inner@;
        proof {
            lemma_types_v(elements@);
            assert(types_v(elements@) =~= seq![TypeV::Int, iv]);
        }
        let tup = Type::Tuple { elements };
        assert(tup@ == TypeV::Tuple { elements: seq![TypeV::Int, iv] });
        let arr = Type::Array { inner: Box::new(tup) };
        assert(arr@ == TypeV::Array { inner: Box::new(TypeV::Tuple { elements: seq![TypeV::Int, iv] }) });
        no_args_plan(m, arr)
    } else if text_is(m, "zip") {
        Plan::Zip { inner: clone_type(inner) }
    } else if text_is(m, "contains") {
        one_arg_plan("contains() takes exactly 1 argument", exact_check(clone_type(inner), around("contains() argument must be ", inner, ", got ")), Type::Bool)
    } else {
        Plan::User
    }
}

fn string_plan(m: &String) -> (r: Plan)
    ensures
        r@ == method_plan(TypeV::String, m@),
{
    if text_is(m, "len") {
        no_args_plan(m, Type::Int)
    } else if text_is(m, "substring") {
        two_args_plan(
            "substring() takes exactly 2 arguments (start, end)",
            exact_check(Type::Int, string_of("substring() start must be Int, got ")),
            exact_check(Type::Int, string_of("substring() end must be Int, got ")),
            Type::String,
        )
    } else if text_is(m, "trim") {
        no_args_plan(m, Type::String)
    } else if text_is(m, "starts_with") || text_is(m, "sw") {
        one_arg_plan("starts_with() takes exactly 1 argument", exact_check(Type::String, string_of("starts_with() requires String argument, got ")), Type::Bool)
    } else if text_is(m, "ends_with") || text_is(m, "ew") {
        one_arg_plan("ends_with() takes exactly 1 argument", exact_check(Type::String, string_of("ends_with() requires String argument, got ")), Type::Bool)
    } else if text_is(m, "contains") {
        one_arg_plan("contains() takes exactly 1 argument", exact_check(Type::String, string_of("contains() requires String argument, got ")), Type::Bool)
    } else if text_is(m, "split") {
        let r = one_arg_plan("split() takes exactly 1 argument (delimiter)", exact_check(Type::String, string_of("split() requires String delimiter, got ")), Type::Array { inner: Box::new(Type::String) });
        assert(type_v(Type::String) == TypeV::String);
        r
    } else if text_is(m, "replace") {
        two_args_plan(
            "replace() takes exactly 2 arguments (old, new)",
            exact_check(Type::String, string_of("replace() first argument must be String, got ")),
            exact_check(Type::String, string_of("replace() second argument must be String, got ")),
            Type::String,
        )
    } else {
        Plan::User
    }
}

fn json_plan(m: &String) -> (r: Plan)
    ensures
        r@ == method_plan(TypeV::JsonValue, m@),
{
    if text_is(m, "get") {
        one_arg_plan("get() takes exactly 1 argument", exact_check(Type::String, string_of("get() key must be String, got ")), Type::JsonValue)
    } else if text_is(m, "get_index") {
        one_arg_plan("get_index() takes exactly 1 argument", exact_check(Type::Int, string_of("get_index() index must be Int, got ")), Type::JsonValue)
    } else if text_is(m, "get_string") {
        no_args_plan(m, Type::String)
    } else if text_is(m, "get_int") {
        no_args_plan(m, Type::Int)
    } else if text_is(m, "get_bool") {
        no_args_plan(m, Type::Bool)
    } else if text_is(m, "len") {
        no_args_plan(m, Type::Int)
    } else if text_is(m, "type_of") {
        no_args_plan(m, Type::String)
    } else if text_is(m, "set") {
        two_args_plan(
            "set() takes exactly 2 arguments (key, value)",
            exact_check(Type::String, string_of("set() key must be String, got ")),
            exact_check(Type::JsonValue, string_of("set() value must be JsonValue, got ")),
            Type::Int,
        )
    } else if text_is(m, "push") {
        one_arg_plan("push() takes exactly 1 argument", exact_check(Type::JsonValue, string_of("push() requires JsonValue argument, got ")), Type::Int)
    } else {
        no_method_plan("JsonValue", m)
    }
}

fn map_plan(m: &String) -> (r: Plan)
    ensures
        r@ == method_plan(TypeV::Mapping, m@),
{
    if text_is(m, "get") {
        one_arg_plan("get() takes exactly 1 argument", exact_check(Type::String, string_of("get() key must be String, got ")), Type::Int)
    } else if text_is(m, "set") {
        let any = Check { mode: 0, expected: Type::Int, mask: 0, head: String::new(), tail: String::new() };
        assert(any@ == any_check());
        two_args_plan("set() takes exactly 2 arguments (key, value)", exact_check(Type::String, string_of("set() key must be String, got ")), any, Type::Int)
    } else if text_is(m, "has") {
        one_arg_plan("has() takes exactly 1 argument", exact_check(Type::String, string_of("has() key must be String, got ")), Type::Bool)
    } else if text_is(m, "len") {
        no_args_plan(m, Type::Int)
    } else if text_is(m, "keys") {
        let r = no_args_plan(m, Type::Array { inner: Box::new(Type::String) });
        assert(type_v(Type::String) == TypeV::String);
        r
    } else if text_is(m, "vals") {
        let r = no_args_plan(m, Type::Array { inner: Box::new(Type::Int) });
        assert(type_v(Type::Int) == TypeV::Int);
        r
    } else {
        no_method_plan("Map", m)
    }
}

fn http_plan(recv: &Type, m: &String) -> (r: Plan)
    requires
        recv is HttpResponse || recv is HttpServer || recv is HttpRequest,
    ensures
        r@ == method_plan(recv@, m@),
{
    match recv {
        Type::HttpResponse => if text_is(m, "status") {
            no_args_plan(m, Type::Int)
        } else if text_is(m, "body") {
            no_args_plan(m, Type::String)
        } else if text_is(m, "header") {
            one_arg_plan("header() takes exactly 1 argument", exact_check(Type::String, string_of("header() name must be String, got ")), Type::String)
        } else if text_is(m, "ok") {
            no_args_plan(m, Type::Bool)
        } else {
            no_method_plan("HttpResponse", m)
        },
        Type::HttpServer => if text_is(m, "accept") {
            no_args_plan(m, Type::HttpRequest)
        } else {
            no_method_plan("HttpServer", m)
        },
        _ => if text_is(m, "path") {
            no_args_plan(m, Type::String)
        } else if text_is(m, "method") {
            no_args_plan(m, Type::String)
        } else if text_is(m, "body") {
            no_args_plan(m, Type::String)
        } else if text_is(m, "respond") {
            let c1 = exact_check(Type::Int, string_of("respond() status must be Int, got "));
            let c2 = exact_check(Type::String, string_of("respond() body must be String, got "));
            let c3 = exact_check(Type::String, string_of("respond() content_type must be String, got "));
            let ghost vs = seq![c1@, c2@, c3@];
            let checks: Vec<Check> = vec![c1, c2, c3];
            assert(checks_v(checks@) =~= vs);
            Plan::Simple {
                min: 2,
                max: 3,
                arity_msg: string_of("respond() takes 2 or 3 arguments (status, body[, content_type])"),
                checks,
                ret: Type::Int,
            }
        } else {
            no_method_plan("HttpRequest", m)
        },
    }
}

fn result_plan(recv: &Type, m: &String) -> (r: Plan)
    requires
        recv is Result || recv is ResultErr,
    ensures
        r@ == method_plan(recv@, m@),
{
    match recv {
        Type::Result { inner } => if text_is(m, "is_ok") || text_is(m, "is_err") {
            no_args_plan(m, Type::Bool)
        } else if text_is(m, "unwrap") {
            no_args_plan(m, clone_type(inner))
        } else if text_is(m, "unwrap_or") {
            one_arg_plan("unwrap_or() takes exactly 1 argument", exact_check(clone_type(inner), around("unwrap_or() default must be ", inner, ", got ")), clone_type(inner))
        } else if text_is(m, "error") {
            no_args_plan(m, Type::String)
        } else {
            no_method_plan("Result", m)
        },
        _ => if text_is(m, "is_ok") || text_is(m, "is_err") {
            no_args_plan(m, Type::Bool)
        } else if text_is(m, "error") {
            no_args_plan(m, Type::String)
        } else {
            Plan::User
        },
    }
}

/// How calling method `m` on a value of type `recv` is checked.
pub fn plan_for_method(recv: &Type, m: &String) -> (r: Plan)
    ensures
        r@ == method_plan(recv@, m@),
{
    match recv {
        Type::Sender { inner } => if text_is(m, "send") {
            one_arg_plan("send() takes exactly 1 argument", exact_check(clone_type(inner), around("send() type mismatch: channel holds ", inner, " but got ")), Type::Int)
        } else {
            Plan::User
        },
        Type::Receiver { inner } => if text_is(m, "recv") {
            no_args_plan(m, clone_type(inner))
        } else {
            Plan::User
        },
        Type::JoinHandle => if text_is(m, "join") {
            no_args_plan(m, Type::Int)
        } else {
            Plan::User
        },
        Type::Mutex { inner } => if text_is(m, "lock") {
            no_args_plan(m, clone_type(inner))
        } else if text_is(m, "unlock") {
            one_arg_plan("unlock() takes exactly 1 argument", exact_check(clone_type(inner), around("unlock() type mismatch: mutex holds ", inner, " but got ")), Type::Int)
        } else {
            Plan::User
        },
        Type::Array { inner } => array_plan(inner, m),
        Type::String => string_plan(m),
        Type::JsonValue => json_plan(m),
        Type::Mapping => map_plan(m),
        Type::HttpResponse => http_plan(recv, m),
        Type::HttpServer => http_plan(recv, m),
        Type::HttpRequest => http_plan(recv, m),
        Type::Result { .. } => result_plan(recv, m),
        Type::ResultErr => result_plan(recv, m),
        _ => Plan::User,
    }
}


/// How a method of a struct or an enum is checked, for `nargs` arguments.
pub fn plan_for_user(recv: &Type, m: &String, nargs: usize, env: &Env) -> (r: Plan)
    ensures
        r@ == user_plan(recv@, m@, nargs as nat, env.view()),
{
    let tn = match recv {
        Type::Struct { name, .. } => name.clone(),
        Type::Enum { name, .. } => name.clone(),
        _ => {
            let ts = type_to_string(recv);
            return Plan::Fail { message: concat_str(string_of("method call on non-struct/enum type "), ts.as_str()) };
        },
    };
    assert(nominal_name(recv@) == Some(tn@));
    let i = find_key2(&env.methods, &tn, m);
    proof {
        lemma_key_index_is2(methods_reg_v(env.methods@), (tn@, m@), i as int);
    }
    let qm = q_text(m.as_str());
    let qt = q_text(tn.as_str());
    if i >= env.methods.len() {
        let msg = concat_str(concat_str(concat_str(string_of("no method "), qm.as_str()), " on type "), qt.as_str());
        return Plan::Fail { message: msg };
    }
    let sig = &env.methods[i].1;
    let ghost sv: SigV = sig@;
    assert(lookup(env.view().methods, (tn@, m@)) == Some(sv));
    if nargs != sig.params.len() {
        proof {
            lemma_types_v(sig.params@);
        }
        let n = usize_text(sig.params.len());
        let g = usize_text(nargs);
        let msg = concat_str(
            concat_str(
                concat_str(
                    concat_str(concat_str(concat_str(concat_str(string_of("method "), qm.as_str()), " on "), qt.as_str()), " expects "),
                    n.as_str(),
                ),
                " argument(s) but got ",
            ),
            g.as_str(),
        );
        return Plan::Fail { message: msg };
    }
    proof {
        lemma_types_v(sig.params@);
    }
    let callee = concat_str(string_of("method "), qm.as_str());
    let checks = checks_for_params(&sig.params, 1, callee.as_str());
    Plan::Simple { min: nargs, max: nargs, arity_msg: String::new(), checks, ret: clone_type(&sig.return_type) }
}

/// How calling `m` on a value of type `recv` with `nargs` arguments is
/// checked.
pub fn plan_for_call(recv: &Type, m: &String, nargs: usize, env: &Env) -> (r: Plan)
    ensures
        r@ == full_plan(recv@, m@, nargs as nat, env.view()),
{
    let p = plan_for_method(recv, m);
    match p {
        Plan::User => plan_for_user(recv, m, nargs, env),
        _ => p,
    }
}

} // verus!
