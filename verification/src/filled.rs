//! Whether a program may be given to `check`: every method of an impl block
//! has its `self` parameter and every array literal has an element.
use vstd::prelude::*;
use crate::ast::{Expr, Stmt, MatchArm, Program, Function, ExprV, StmtV, MatchArmV, expr_v, exprs_v, stmt_v, stmts_v, fields_v, arms_v, lemma_exprs_v, lemma_stmts_v, lemma_fields_v, lemma_arms_v};
use crate::program_spec::{expr_filled, stmt_filled, exprs_filled_from, stmts_filled_from, fields_filled_from, arms_filled_from, bodies_filled};
use crate::program::{program_checkable, methods_have_self, functions_v};

verus! {

/// The expressions `s[i..]` are filled exactly when each of them is.
pub proof fn lemma_exprs_filled_all(s: Seq<ExprV>, i: int)
    requires
        0 <= i <= s.len(),
    ensures
        exprs_filled_from(s, i) <==> forall|j: int| i <= j < s.len() ==> expr_filled(#[trigger] s[j]),
    decreases s.len() - i,
{
    if i < s.len() {
        lemma_exprs_filled_all(s, i + 1);
    }
}

/// The statements `s[i..]` are filled exactly when each of them is.
pub proof fn lemma_stmts_filled_all(s: Seq<StmtV>, i: int)
    requires
        0 <= i <= s.len(),
    ensures
        stmts_filled_from(s, i) <==> forall|j: int| i <= j < s.len() ==> stmt_filled(#[trigger] s[j]),
    decreases s.len() - i,
{
    if i < s.len() {
        lemma_stmts_filled_all(s, i + 1);
    }
}

/// A filled list of expressions with a filled one added stays filled.
pub proof fn lemma_exprs_filled_push(s: Seq<ExprV>, x: ExprV)
    requires
        exprs_filled_from(s, 0),
        expr_filled(x),
    ensures
        exprs_filled_from(s.push(x), 0),
{
    lemma_exprs_filled_all(s, 0);
    lemma_exprs_filled_all(s.push(x), 0);
    assert forall|j: int| 0 <= j < s.push(x).len() implies expr_filled(#[trigger] s.push(x)[j]) by {
        if j < s.len() {
            assert(s.push(x)[j] == s[j]);
        }
    }
}

/// A filled list of statements with a filled one added stays filled.
pub proof fn lemma_stmts_filled_push(s: Seq<StmtV>, x: StmtV)
    requires
        stmts_filled_from(s, 0),
        stmt_filled(x),
    ensures
        stmts_filled_from(s.push(x), 0),
{
    lemma_stmts_filled_all(s, 0);
    lemma_stmts_filled_all(s.push(x), 0);
    assert forall|j: int| 0 <= j < s.push(x).len() implies stmt_filled(#[trigger] s.push(x)[j]) by {
        if j < s.len() {
            assert(s.push(x)[j] == s[j]);
        }
    }
}

/// Filled field values with a filled one added stay filled.
pub proof fn lemma_fields_filled_push(s: Seq<(Seq<char>, ExprV)>, x: (Seq<char>, ExprV))
    requires
        fields_filled_from(s, 0),
        expr_filled(x.1),
    ensures
        fields_filled_from(s.push(x), 0),
{
    lemma_fields_filled_from(s, 0);
    lemma_fields_filled_from(s.push(x), 0);
    assert forall|j: int| 0 <= j < s.push(x).len() implies expr_filled(#[trigger] s.push(x)[j].1) by {
        if j < s.len() {
            assert(s.push(x)[j] == s[j]);
        }
    }
}

/// Filled match arms with a filled one added stay filled.
pub proof fn lemma_arms_filled_push(s: Seq<MatchArmV>, x: MatchArmV)
    requires
        arms_filled_from(s, 0),
        expr_filled(x.body),
    ensures
        arms_filled_from(s.push(x), 0),
{
    lemma_arms_filled_from(s, 0);
    lemma_arms_filled_from(s.push(x), 0);
    assert forall|j: int| 0 <= j < s.push(x).len() implies expr_filled(#[trigger] s.push(x)[j].body) by {
        if j < s.len() {
            assert(s.push(x)[j] == s[j]);
        }
    }
}

/// The field values `s[i..]` are filled exactly when each of them is.
pub proof fn lemma_fields_filled_from(s: Seq<(Seq<char>, ExprV)>, i: int)
    requires
        0 <= i <= s.len(),
    ensures
        (forall|j: int| i <= j < s.len() ==> expr_filled(#[trigger] s[j].1)) <==> fields_filled_from(s, i),
    decreases s.len() - i,
{
    if i < s.len() {
        lemma_fields_filled_from(s, i + 1);
    }
}

/// The match arm bodies `s[i..]` are filled exactly when each of them is.
pub proof fn lemma_arms_filled_from(s: Seq<MatchArmV>, i: int)
    requires
        0 <= i <= s.len(),
    ensures
        (forall|j: int| i <= j < s.len() ==> expr_filled(#[trigger] s[j].body)) <==> arms_filled_from(s, i),
    decreases s.len() - i,
{
    if i < s.len() {
        lemma_arms_filled_from(s, i + 1);
    }
}

/// Whether the expressions of a list are filled.
fn exprs_filled(es: &Vec<Expr>) -> (r: bool)
    ensures
        r == exprs_filled_from(exprs_v(es@), 0),
    decreases es, 0int,
{
    let ghost s = exprs_v(es@);
    proof {
        lemma_exprs_v(es@);
    }
    let mut i: usize = 0;
    while i < es.len()
        invariant
            i <= es@.len(),
            s == exprs_v(es@),
            s.len() == es@.len(),
            forall|j: int| 0 <= j < es@.len() ==> #[trigger] s[j] == expr_v(es@[j]),
            exprs_filled_from(s, 0) == exprs_filled_from(s, i as int),
        decreases es@.len() - i,
    {
        proof {
            assert(decreases_to!(es => es@));
            assert(decreases_to!(es@ => es@[i as int]));
        }
        assert(s[i as int] == expr_v(es@[i as int]));
        if !expr_filled_exec(&es[i]) {
            return false;
        }
        i = i + 1;
    }
    true
}

/// Whether the statements of a list are filled.
fn stmts_filled(ss: &Vec<Stmt>) -> (r: bool)
    ensures
        r == stmts_filled_from(stmts_v(ss@), 0),
    decreases ss, 0int,
{
    let ghost s = stmts_v(ss@);
    proof {
        lemma_stmts_v(ss@);
    }
    let mut i: usize = 0;
    while i < ss.len()
        invariant
            i <= ss@.len(),
            s == stmts_v(ss@),
            s.len() == ss@.len(),
            forall|j: int| 0 <= j < ss@.len() ==> #[trigger] s[j] == stmt_v(ss@[j]),
            stmts_filled_from(s, 0) == stmts_filled_from(s, i as int),
        decreases ss@.len() - i,
    {
        proof {
            assert(decreases_to!(ss => ss@));
            assert(decreases_to!(ss@ => ss@[i as int]));
        }
        assert(s[i as int] == stmt_v(ss@[i as int]));
        if !stmt_filled_exec(&ss[i]) {
            return false;
        }
        i = i + 1;
    }
    true
}

/// Whether the field values of a struct literal are filled.
fn fields_filled(fs: &Vec<(String, Expr)>) -> (r: bool)
    ensures
        r == fields_filled_from(fields_v(fs@), 0),
    decreases fs, 0int,
{
    let ghost s = fields_v(fs@);
    proof {
        lemma_fields_v(fs@);
    }
    let mut i: usize = 0;
    while i < fs.len()
        invariant
            i <= fs@.len(),
            s == fields_v(fs@),
            s.len() == fs@.len(),
            forall|j: int| 0 <= j < fs@.len() ==> #[trigger] s[j] == (fs@[j].0@, expr_v(fs@[j].1)),
            fields_filled_from(s, 0) == fields_filled_from(s, i as int),
        decreases fs@.len() - i,
    {
        proof {
            assert(decreases_to!(fs => fs@));
            assert(decreases_to!(fs@ => fs@[i as int]));
            assert(decreases_to!(fs@[i as int] => fs@[i as int].1));
        }
        assert(s[i as int] == (fs@[i as int].0@, expr_v(fs@[i as int].1)));
        if !expr_filled_exec(&fs[i].1) {
            return false;
        }
        i = i + 1;
    }
    true
}

/// Whether the bodies of match arms are filled.
fn arms_filled(arms: &Vec<MatchArm>) -> (r: bool)
    ensures
        r == arms_filled_from(arms_v(arms@), 0),
    decreases arms, 0int,
{
    let ghost s = arms_v(arms@);
    proof {
        lemma_arms_v(arms@);
    }
    let mut i: usize = 0;
    while i < arms.len()
        invariant
            i <= arms@.len(),
            s == arms_v(arms@),
            s.len() == arms@.len(),
            forall|j: int| 0 <= j < arms@.len() ==> #[trigger] s[j] == arms@[j]@,
            arms_filled_from(s, 0) == arms_filled_from(s, i as int),
        decreases arms@.len() - i,
    {
        proof {
            assert(decreases_to!(arms => arms@));
            assert(decreases_to!(arms@ => arms@[i as int]));
            assert(decreases_to!(arms@[i as int] => arms@[i as int].body));
        }
        assert(s[i as int] == arms@[i as int]@);
        if !expr_filled_exec(&arms[i].body) {
            return false;
        }
        i = i + 1;
    }
    true
}

/// Whether every array literal of an expression has an element.
fn expr_filled_exec(e: &Expr) -> (r: bool)
    ensures
        r == expr_filled(e@),
    decreases e, 1int,
{
    match e {
        Expr::BinaryOp { left, right, .. } => expr_filled_exec(left) && expr_filled_exec(right),
        Expr::Call { args, .. } => exprs_filled(args),
        Expr::If { condition, then_body, then_expr, else_body, else_expr, .. } => {
            expr_filled_exec(condition) && stmts_filled(then_body) && expr_filled_exec(then_expr) && stmts_filled(
                else_body,
            ) && expr_filled_exec(else_expr)
        },
        Expr::UnaryOp { operand, .. } => expr_filled_exec(operand),
        Expr::StructLiteral { fields, .. } => fields_filled(fields),
        Expr::FieldAccess { object, .. } => expr_filled_exec(object),
        Expr::EnumVariant { args, .. } => exprs_filled(args),
        Expr::Match { scrutinee, arms, .. } => expr_filled_exec(scrutinee) && arms_filled(arms),
        Expr::MethodCall { object, args, .. } => expr_filled_exec(object) && exprs_filled(args),
        Expr::Spawn { args, .. } => exprs_filled(args),
        Expr::ChannelCreate { capacity, .. } => match capacity {
            Some(c) => expr_filled_exec(c),
            None => true,
        },
        Expr::MutexCreate { value, .. } => expr_filled_exec(value),
        Expr::Lambda { body, .. } => stmts_filled(body),
        Expr::TupleLiteral { elements, .. } => exprs_filled(elements),
        Expr::ArrayLiteral { elements, .. } => elements.len() > 0 && exprs_filled(elements),
        _ => true,
    }
}

/// Whether every array literal of a statement has an element.
fn stmt_filled_exec(s: &Stmt) -> (r: bool)
    ensures
        r == stmt_filled(stmt_v(*s)),
    decreases s, 1int,
{
    match s {
        Stmt::Let { value, .. } => expr_filled_exec(value),
        Stmt::Expr(e) => expr_filled_exec(e),
        Stmt::While { condition, body, .. } => expr_filled_exec(condition) && stmts_filled(body),
        Stmt::Return { value, .. } => expr_filled_exec(value),
        Stmt::Assign { value, .. } => expr_filled_exec(value),
        Stmt::If { condition, body, .. } => expr_filled_exec(condition) && stmts_filled(body),
        Stmt::LetDestructure { value, .. } => expr_filled_exec(value),
        Stmt::ForIn { iterable, body, .. } => expr_filled_exec(iterable) && stmts_filled(body),
        Stmt::Break { .. } => true,
        Stmt::Continue { .. } => true,
    }
}

/// Whether the bodies of functions are filled and, with `need_self`, each
/// has a first parameter.
fn functions_ok(fs: &Vec<Function>, need_self: bool) -> (r: bool)
    ensures
        r == (bodies_filled(functions_v(fs@)) && (need_self ==> methods_have_self(functions_v(fs@)))),
{
    let ghost fv = functions_v(fs@);
    let mut i: usize = 0;
    while i < fs.len()
        invariant
            i <= fs@.len(),
            fv == functions_v(fs@),
            forall|a: int| 0 <= a < i ==> stmts_filled_from(#[trigger] fv[a].body, 0),
            need_self ==> forall|a: int| 0 <= a < i ==> (#[trigger] fv[a]).params.len() >= 1,
        decreases fs@.len() - i,
    {
        assert(fv[i as int] == fs@[i as int]@);
        if need_self && fs[i].params.len() == 0 {
            assert(fv[i as int].params.len() == 0);
            return false;
        }
        if !stmts_filled(&fs[i].body) {
            assert(!stmts_filled_from(fv[i as int].body, 0));
            return false;
        }
        i = i + 1;
    }
    true
}

/// Whether `check` may be given the program: every method of an impl block
/// has its `self` parameter and every array literal has an element, as the
/// parser makes sure.
pub fn is_checkable(p: &Program) -> (r: bool)
    ensures
        r == program_checkable(p),
{
    let ghost pv = p@;
    assert(pv.functions =~= functions_v(p.functions@));
    if !functions_ok(&p.functions, false) {
        return false;
    }
    let mut i: usize = 0;
    while i < p.impls.len()
        invariant
            i <= p.impls@.len(),
            pv == p@,
            forall|a: int| 0 <= a < i ==> methods_have_self(functions_v((#[trigger] p.impls@[a]).methods@)),
            forall|a: int| 0 <= a < i ==> bodies_filled(#[trigger] pv.impls[a].methods),
        decreases p.impls@.len() - i,
    {
        assert(pv.impls[i as int].methods =~= functions_v(p.impls@[i as int].methods@));
        if !functions_ok(&p.impls[i].methods, true) {
            return false;
        }
        i = i + 1;
    }
    let mut k: usize = 0;
    while k < p.globals.len()
        invariant
            k <= p.globals@.len(),
            pv == p@,
            forall|a: int| 0 <= a < p.impls@.len() ==> methods_have_self(functions_v((#[trigger] p.impls@[a]).methods@)),
            forall|a: int| 0 <= a < p.impls@.len() ==> bodies_filled(#[trigger] pv.impls[a].methods),
            bodies_filled(pv.functions),
            forall|a: int| 0 <= a < k ==> expr_filled(#[trigger] pv.globals[a].value),
        decreases p.globals@.len() - k,
    {
        assert(pv.globals[k as int].value == p.globals@[k as int].value@);
        if !expr_filled_exec(&p.globals[k].value) {
            return false;
        }
        k = k + 1;
    }
    true
}

} // verus!
