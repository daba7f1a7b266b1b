//! Which variables of the enclosing scope a lambda body reads: the names it
//! captures, each once, in the order of its first use.
use vstd::prelude::*;
use crate::ast::{Expr, Stmt, MatchArm, Param, ExprV, StmtV, MatchArmV, ParamV, stmt_v, exprs_v, stmts_v, fields_v, arms_v, strings_v, lemma_exprs_v, lemma_stmts_v, lemma_fields_v, lemma_arms_v};

verus! {

/// The identifiers that an expression reads, in the order in which a walk
/// from left to right meets them. The body of a nested lambda is not entered,
/// and neither is the capacity of a channel.
pub open spec fn expr_names(e: ExprV) -> Seq<Seq<char>>
    decreases e, 0int,
{
    match e {
        ExprV::Identifier { name, .. } => seq![name],
        ExprV::BinaryOp { left, right, .. } => expr_names(*left) + expr_names(*right),
        ExprV::Call { args, .. } => exprs_names_from(args, 0),
        ExprV::MethodCall { object, args, .. } => expr_names(*object) + exprs_names_from(args, 0),
        ExprV::If { condition, then_body, then_expr, else_body, else_expr, .. } => expr_names(*condition)
            + stmts_names_from(then_body, 0) + expr_names(*then_expr) + stmts_names_from(else_body, 0)
            + expr_names(*else_expr),
        ExprV::UnaryOp { operand, .. } => expr_names(*operand),
        ExprV::FieldAccess { object, .. } => expr_names(*object),
        ExprV::StructLiteral { fields, .. } => fields_names_from(fields, 0),
        ExprV::EnumVariant { args, .. } => exprs_names_from(args, 0),
        ExprV::Match { scrutinee, arms, .. } => expr_names(*scrutinee) + arms_names_from(arms, 0),
        ExprV::ArrayLiteral { elements, .. } => exprs_names_from(elements, 0),
        ExprV::TupleLiteral { elements, .. } => exprs_names_from(elements, 0),
        ExprV::Spawn { args, .. } => exprs_names_from(args, 0),
        ExprV::MutexCreate { value, .. } => expr_names(*value),
        _ => Seq::empty(),
    }
}

/// The identifiers read by the expressions `s[i..]`, one after another.
pub open spec fn exprs_names_from(s: Seq<ExprV>, i: int) -> Seq<Seq<char>>
    decreases s, s.len() - i,
{
    if i < 0 || i >= s.len() {
        Seq::empty()
    } else {
        expr_names(s[i]) + exprs_names_from(s, i + 1)
    }
}

/// The identifiers read by the statements `s[i..]`, one after another.
pub open spec fn stmts_names_from(s: Seq<StmtV>, i: int) -> Seq<Seq<char>>
    decreases s, s.len() - i,
{
    if i < 0 || i >= s.len() {
        Seq::empty()
    } else {
        stmt_names(s[i]) + stmts_names_from(s, i + 1)
    }
}

/// The identifiers read by the field values `s[i..]` of a struct literal.
pub open spec fn fields_names_from(s: Seq<(Seq<char>, ExprV)>, i: int) -> Seq<Seq<char>>
    decreases s, s.len() - i,
{
    if i < 0 || i >= s.len() {
        Seq::empty()
    } else {
        expr_names(s[i].1) + fields_names_from(s, i + 1)
    }
}

/// The identifiers read by the bodies of the match arms `s[i..]`.
pub open spec fn arms_names_from(s: Seq<MatchArmV>, i: int) -> Seq<Seq<char>>
    decreases s, s.len() - i,
{
    if i < 0 || i >= s.len() {
        Seq::empty()
    } else {
        expr_names(s[i].body) + arms_names_from(s, i + 1)
    }
}

/// The identifiers that a statement reads.
pub open spec fn stmt_names(s: StmtV) -> Seq<Seq<char>>
    decreases s, 0int,
{
    match s {
        StmtV::Let { value, .. } => expr_names(value),
        StmtV::Expr(e) => expr_names(e),
        StmtV::While { condition, body, .. } => expr_names(condition) + stmts_names_from(body, 0),
        StmtV::Return { value, .. } => expr_names(value),
        StmtV::Assign { value, .. } => expr_names(value),
        StmtV::If { condition, body, .. } => expr_names(condition) + stmts_names_from(body, 0),
        StmtV::LetDestructure { value, .. } => expr_names(value),
        StmtV::ForIn { iterable, body, .. } => expr_names(iterable) + stmts_names_from(body, 0),
        StmtV::Break { .. } => Seq::empty(),
        StmtV::Continue { .. } => Seq::empty(),
    }
}

/// Whether the expression reads the variable `n`: `n` occurs in it as a name,
/// outside the body of any lambda in it and outside the capacity of a
/// channel.
pub open spec fn expr_reads(e: ExprV, n: Seq<char>) -> bool
    decreases e, 0int,
{
    match e {
        ExprV::Identifier { name, .. } => name == n,
        ExprV::BinaryOp { left, right, .. } => expr_reads(*left, n) || expr_reads(*right, n),
        ExprV::Call { args, .. } => exprs_read_from(args, 0, n),
        ExprV::MethodCall { object, args, .. } => expr_reads(*object, n) || exprs_read_from(args, 0, n),
        ExprV::If { condition, then_body, then_expr, else_body, else_expr, .. } => expr_reads(*condition, n)
            || stmts_read_from(then_body, 0, n) || expr_reads(*then_expr, n) || stmts_read_from(else_body, 0, n)
            || expr_reads(*else_expr, n),
        ExprV::UnaryOp { operand, .. } => expr_reads(*operand, n),
        ExprV::FieldAccess { object, .. } => expr_reads(*object, n),
        ExprV::StructLiteral { fields, .. } => fields_read_from(fields, 0, n),
        ExprV::EnumVariant { args, .. } => exprs_read_from(args, 0, n),
        ExprV::Match { scrutinee, arms, .. } => expr_reads(*scrutinee, n) || arms_read_from(arms, 0, n),
        ExprV::ArrayLiteral { elements, .. } => exprs_read_from(elements, 0, n),
        ExprV::TupleLiteral { elements, .. } => exprs_read_from(elements, 0, n),
        ExprV::Spawn { args, .. } => exprs_read_from(args, 0, n),
        ExprV::MutexCreate { value, .. } => expr_reads(*value, n),
        _ => false,
    }
}

/// Whether one of the expressions `s[i..]` reads `n`.
pub open spec fn exprs_read_from(s: Seq<ExprV>, i: int, n: Seq<char>) -> bool
    decreases s, s.len() - i,
{
    if i < 0 || i >= s.len() {
        false
    } else {
        expr_reads(s[i], n) || exprs_read_from(s, i + 1, n)
    }
}

/// Whether one of the statements `s[i..]` reads `n`.
pub open spec fn stmts_read_from(s: Seq<StmtV>, i: int, n: Seq<char>) -> bool
    decreases s, s.len() - i,
{
    if i < 0 || i >= s.len() {
        false
    } else {
        stmt_reads(s[i], n) || stmts_read_from(s, i + 1, n)
    }
}

/// Whether one of the field values `s[i..]` reads `n`.
pub open spec fn fields_read_from(s: Seq<(Seq<char>, ExprV)>, i: int, n: Seq<char>) -> bool
    decreases s, s.len() - i,
{
    if i < 0 || i >= s.len() {
        false
    } else {
        expr_reads(s[i].1, n) || fields_read_from(s, i + 1, n)
    }
}

/// Whether one of the bodies of the match arms `s[i..]` reads `n`.
pub open spec fn arms_read_from(s: Seq<MatchArmV>, i: int, n: Seq<char>) -> bool
    decreases s, s.len() - i,
{
    if i < 0 || i >= s.len() {
        false
    } else {
        expr_reads(s[i].body, n) || arms_read_from(s, i + 1, n)
    }
}

/// Whether the statement reads `n`.
pub open spec fn stmt_reads(s: StmtV, n: Seq<char>) -> bool
    decreases s, 0int,
{
    match s {
        StmtV::Let { value, .. } => expr_reads(value, n),
        StmtV::Expr(e) => expr_reads(e, n),
        StmtV::While { condition, body, .. } => expr_reads(condition, n) || stmts_read_from(body, 0, n),
        StmtV::Return { value, .. } => expr_reads(value, n),
        StmtV::Assign { value, .. } => expr_reads(value, n),
        StmtV::If { condition, body, .. } => expr_reads(condition, n) || stmts_read_from(body, 0, n),
        StmtV::LetDestructure { value, .. } => expr_reads(value, n),
        StmtV::ForIn { iterable, body, .. } => expr_reads(iterable, n) || stmts_read_from(body, 0, n),
        StmtV::Break { .. } => false,
        StmtV::Continue { .. } => false,
    }
}

/// A name an expression reads is among the names it is walked for.
pub proof fn lemma_reads_named(e: ExprV, n: Seq<char>)
    requires
        expr_reads(e, n),
    ensures
        expr_names(e).contains(n),
    decreases e, 0int,
{
    match e {
        ExprV::Identifier { name, .. } => {
            assert(seq![name][0] == n);
        },
        ExprV::BinaryOp { left, right, .. } => {
            if expr_reads(*left, n) {
                lemma_reads_named(*left, n);
                lemma_contains_left(expr_names(*left), expr_names(*right), n);
            } else {
                lemma_reads_named(*right, n);
                lemma_contains_right(expr_names(*left), expr_names(*right), n);
            }
        },
        ExprV::Call { args, .. } => lemma_exprs_read_named(args, 0, n),
        ExprV::MethodCall { object, args, .. } => {
            if expr_reads(*object, n) {
                lemma_reads_named(*object, n);
                lemma_contains_left(expr_names(*object), exprs_names_from(args, 0), n);
            } else {
                lemma_exprs_read_named(args, 0, n);
                lemma_contains_right(expr_names(*object), exprs_names_from(args, 0), n);
            }
        },
        ExprV::If { condition, then_body, then_expr, else_body, else_expr, .. } => {
            let a = expr_names(*condition);
            let b = stmts_names_from(then_body, 0);
            let c = expr_names(*then_expr);
            let d = stmts_names_from(else_body, 0);
            let f = expr_names(*else_expr);
            if expr_reads(*condition, n) {
                lemma_reads_named(*condition, n);
                lemma_contains_left(a, b, n);
                lemma_contains_left(a + b, c, n);
                lemma_contains_left(a + b + c, d, n);
                lemma_contains_left(a + b + c + d, f, n);
            } else if stmts_read_from(then_body, 0, n) {
                lemma_stmts_read_named(then_body, 0, n);
                lemma_contains_right(a, b, n);
                lemma_contains_left(a + b, c, n);
                lemma_contains_left(a + b + c, d, n);
                lemma_contains_left(a + b + c + d, f, n);
            } else if expr_reads(*then_expr, n) {
                lemma_reads_named(*then_expr, n);
                lemma_contains_right(a + b, c, n);
                lemma_contains_left(a + b + c, d, n);
                lemma_contains_left(a + b + c + d, f, n);
            } else if stmts_read_from(else_body, 0, n) {
                lemma_stmts_read_named(else_body, 0, n);
                lemma_contains_right(a + b + c, d, n);
                lemma_contains_left(a + b + c + d, f, n);
            } else {
                lemma_reads_named(*else_expr, n);
                lemma_contains_right(a + b + c + d, f, n);
            }
        },
        ExprV::UnaryOp { operand, .. } => lemma_reads_named(*operand, n),
        ExprV::FieldAccess { object, .. } => lemma_reads_named(*object, n),
        ExprV::StructLiteral { fields, .. } => lemma_fields_read_named(fields, 0, n),
        ExprV::EnumVariant { args, .. } => lemma_exprs_read_named(args, 0, n),
        ExprV::Match { scrutinee, arms, .. } => {
            if expr_reads(*scrutinee, n) {
                lemma_reads_named(*scrutinee, n);
                lemma_contains_left(expr_names(*scrutinee), arms_names_from(arms, 0), n);
            } else {
                lemma_arms_read_named(arms, 0, n);
                lemma_contains_right(expr_names(*scrutinee), arms_names_from(arms, 0), n);
            }
        },
        ExprV::ArrayLiteral { elements, .. } => lemma_exprs_read_named(elements, 0, n),
        ExprV::TupleLiteral { elements, .. } => lemma_exprs_read_named(elements, 0, n),
        ExprV::Spawn { args, .. } => lemma_exprs_read_named(args, 0, n),
        ExprV::MutexCreate { value, .. } => lemma_reads_named(*value, n),
        _ => {},
    }
}

proof fn lemma_contains_left(a: Seq<Seq<char>>, b: Seq<Seq<char>>, n: Seq<char>)
    requires
        a.contains(n),
    ensures
        (a + b).contains(n),
{
    let k = choose|k: int| 0 <= k < a.len() && a[k] == n;
    assert((a + b)[k] == n);
}

proof fn lemma_contains_right(a: Seq<Seq<char>>, b: Seq<Seq<char>>, n: Seq<char>)
    requires
        b.contains(n),
    ensures
        (a + b).contains(n),
{
    let k = choose|k: int| 0 <= k < b.len() && b[k] == n;
    assert((a + b)[a.len() + k] == n);
}

proof fn lemma_exprs_read_named(s: Seq<ExprV>, i: int, n: Seq<char>)
    requires
        exprs_read_from(s, i, n),
    ensures
        exprs_names_from(s, i).contains(n),
    decreases s, s.len() - i,
{
    if expr_reads(s[i], n) {
        lemma_reads_named(s[i], n);
        lemma_contains_left(expr_names(s[i]), exprs_names_from(s, i + 1), n);
    } else {
        lemma_exprs_read_named(s, i + 1, n);
        lemma_contains_right(expr_names(s[i]), exprs_names_from(s, i + 1), n);
    }
}

proof fn lemma_stmts_read_named(s: Seq<StmtV>, i: int, n: Seq<char>)
    requires
        stmts_read_from(s, i, n),
    ensures
        stmts_names_from(s, i).contains(n),
    decreases s, s.len() - i,
{
    if stmt_reads(s[i], n) {
        lemma_stmt_read_named(s[i], n);
        lemma_contains_left(stmt_names(s[i]), stmts_names_from(s, i + 1), n);
    } else {
        lemma_stmts_read_named(s, i + 1, n);
        lemma_contains_right(stmt_names(s[i]), stmts_names_from(s, i + 1), n);
    }
}

proof fn lemma_fields_read_named(s: Seq<(Seq<char>, ExprV)>, i: int, n: Seq<char>)
    requires
        fields_read_from(s, i, n),
    ensures
        fields_names_from(s, i).contains(n),
    decreases s, s.len() - i,
{
    if expr_reads(s[i].1, n) {
        lemma_reads_named(s[i].1, n);
        lemma_contains_left(expr_names(s[i].1), fields_names_from(s, i + 1), n);
    } else {
        lemma_fields_read_named(s, i + 1, n);
        lemma_contains_right(expr_names(s[i].1), fields_names_from(s, i + 1), n);
    }
}

proof fn lemma_arms_read_named(s: Seq<MatchArmV>, i: int, n: Seq<char>)
    requires
        arms_read_from(s, i, n),
    ensures
        arms_names_from(s, i).contains(n),
    decreases s, s.len() - i,
{
    if expr_reads(s[i].body, n) {
        lemma_reads_named(s[i].body, n);
        lemma_contains_left(expr_names(s[i].body), arms_names_from(s, i + 1), n);
    } else {
        lemma_arms_read_named(s, i + 1, n);
        lemma_contains_right(expr_names(s[i].body), arms_names_from(s, i + 1), n);
    }
}

proof fn lemma_stmt_read_named(s: StmtV, n: Seq<char>)
    requires
        stmt_reads(s, n),
    ensures
        stmt_names(s).contains(n),
    decreases s, 0int,
{
    match s {
        StmtV::Let { value, .. } => lemma_reads_named(value, n),
        StmtV::Expr(e) => lemma_reads_named(e, n),
        StmtV::Return { value, .. } => lemma_reads_named(value, n),
        StmtV::Assign { value, .. } => lemma_reads_named(value, n),
        StmtV::LetDestructure { value, .. } => lemma_reads_named(value, n),
        StmtV::While { condition, body, .. } => {
            if expr_reads(condition, n) {
                lemma_reads_named(condition, n);
                lemma_contains_left(expr_names(condition), stmts_names_from(body, 0), n);
            } else {
                lemma_stmts_read_named(body, 0, n);
                lemma_contains_right(expr_names(condition), stmts_names_from(body, 0), n);
            }
        },
        StmtV::If { condition, body, .. } => {
            if expr_reads(condition, n) {
                lemma_reads_named(condition, n);
                lemma_contains_left(expr_names(condition), stmts_names_from(body, 0), n);
            } else {
                lemma_stmts_read_named(body, 0, n);
                lemma_contains_right(expr_names(condition), stmts_names_from(body, 0), n);
            }
        },
        StmtV::ForIn { iterable, body, .. } => {
            if expr_reads(iterable, n) {
                lemma_reads_named(iterable, n);
                lemma_contains_left(expr_names(iterable), stmts_names_from(body, 0), n);
            } else {
                lemma_stmts_read_named(body, 0, n);
                lemma_contains_right(expr_names(iterable), stmts_names_from(body, 0), n);
            }
        },
        _ => {},
    }
}

/// A name the statements read is among the names they are walked for.
pub proof fn lemma_stmts_read_named_pub(s: Seq<StmtV>, n: Seq<char>)
    requires
        stmts_read_from(s, 0, n),
    ensures
        stmts_names_from(s, 0).contains(n),
{
    lemma_stmts_read_named(s, 0, n);
}

/// Adding names keeps the names already there.
proof fn lemma_add_names_grows(acc: Seq<Seq<char>>, names: Seq<Seq<char>>, params: Seq<Seq<char>>, scope: Seq<Seq<char>>, n: Seq<char>)
    requires
        acc.contains(n),
    ensures
        add_names(acc, names, params, scope).contains(n),
    decreases names.len(),
{
    if names.len() > 0 {
        let next = add_name(acc, names[0], params, scope);
        let k = choose|k: int| 0 <= k < acc.len() && acc[k] == n;
        assert(next[k] == n);
        lemma_add_names_grows(next, names.drop_first(), params, scope, n);
    }
}

/// A name among `names` that is in scope and no parameter ends up added.
pub proof fn lemma_add_names_takes(acc: Seq<Seq<char>>, names: Seq<Seq<char>>, params: Seq<Seq<char>>, scope: Seq<Seq<char>>, n: Seq<char>)
    requires
        names.contains(n),
        scope.contains(n),
        !params.contains(n),
    ensures
        add_names(acc, names, params, scope).contains(n),
    decreases names.len(),
{
    let next = add_name(acc, names[0], params, scope);
    if names[0] == n {
        if !acc.contains(n) {
            assert(next[acc.len() as int] == n);
        } else {
            assert(next == acc);
        }
        lemma_add_names_grows(next, names.drop_first(), params, scope, n);
    } else {
        let k = choose|k: int| 0 <= k < names.len() && names[k] == n;
        assert(names.drop_first()[k - 1] == n);
        lemma_add_names_takes(next, names.drop_first(), params, scope, n);
    }
}

/// `acc` with the name `n` added at its end when `n` is in scope, is no
/// parameter and is not there yet.
pub open spec fn add_name(
    acc: Seq<Seq<char>>,
    n: Seq<char>,
    params: Seq<Seq<char>>,
    scope: Seq<Seq<char>>,
) -> Seq<Seq<char>> {
    if scope.contains(n) && !params.contains(n) && !acc.contains(n) {
        acc.push(n)
    } else {
        acc
    }
}

/// `acc` with the names of `names` added, in their order, by `add_name`.
pub open spec fn add_names(
    acc: Seq<Seq<char>>,
    names: Seq<Seq<char>>,
    params: Seq<Seq<char>>,
    scope: Seq<Seq<char>>,
) -> Seq<Seq<char>>
    decreases names.len(),
{
    if names.len() == 0 {
        acc
    } else {
        add_names(add_name(acc, names[0], params, scope), names.drop_first(), params, scope)
    }
}

/// The names of parameters.
pub open spec fn param_names(params: Seq<ParamV>) -> Seq<Seq<char>> {
    params.map_values(|p: ParamV| p.name)
}

/// The variables of `scope` that a lambda with these parameters and this body
/// captures: each name that the body reads, is in scope and is no parameter,
/// once, in the order of its first use.
pub open spec fn captures_of(body: Seq<StmtV>, params: Seq<ParamV>, scope: Seq<Seq<char>>) -> Seq<Seq<char>> {
    add_names(Seq::empty(), stmts_names_from(body, 0), param_names(params), scope)
}

/// Adding the names of `a + b` adds those of `a`, then those of `b`.
pub proof fn lemma_add_names_append(
    acc: Seq<Seq<char>>,
    a: Seq<Seq<char>>,
    b: Seq<Seq<char>>,
    params: Seq<Seq<char>>,
    scope: Seq<Seq<char>>,
)
    ensures
        add_names(acc, a + b, params, scope) == add_names(add_names(acc, a, params, scope), b, params, scope),
    decreases a.len(),
{
    if a.len() == 0 {
        assert(a + b =~= b);
    } else {
        assert((a + b).drop_first() =~= a.drop_first() + b);
        assert((a + b)[0] == a[0]);
        lemma_add_names_append(add_name(acc, a[0], params, scope), a.drop_first(), b, params, scope);
    }
}

/// `add_names` keeps a list free of repeats, adds only names in scope that
/// are no parameter, and adds only names of `names`.
pub proof fn lemma_add_names_keeps(
    acc: Seq<Seq<char>>,
    names: Seq<Seq<char>>,
    params: Seq<Seq<char>>,
    scope: Seq<Seq<char>>,
)
    requires
        acc.no_duplicates(),
        forall|i: int| 0 <= i < acc.len() ==> scope.contains(#[trigger] acc[i]) && !params.contains(acc[i]),
    ensures
        add_names(acc, names, params, scope).no_duplicates(),
        forall|i: int|
            0 <= i < add_names(acc, names, params, scope).len() ==> {
                let n = #[trigger] add_names(acc, names, params, scope)[i];
                &&& scope.contains(n)
                &&& !params.contains(n)
                &&& (acc.contains(n) || names.contains(n))
            },
    decreases names.len(),
{
    if names.len() > 0 {
        let next = add_name(acc, names[0], params, scope);
        if next != acc {
            assert forall|i: int, j: int| 0 <= i < j < next.len() implies next[i] != next[j] by {
                if j == next.len() - 1 {
                    assert(acc[i] == next[i]);
                }
            }
        }
        assert forall|i: int| 0 <= i < next.len() implies scope.contains(#[trigger] next[i]) && !params.contains(next[i]) by {
            if i < acc.len() {
                assert(next[i] == acc[i]);
            }
        }
        lemma_add_names_keeps(next, names.drop_first(), params, scope);
        let r = add_names(acc, names, params, scope);
        assert forall|i: int| 0 <= i < r.len() implies (acc.contains(#[trigger] r[i]) || names.contains(r[i])) by {
            let n = r[i];
            if names.drop_first().contains(n) {
                let k = choose|k: int| 0 <= k < names.drop_first().len() && names.drop_first()[k] == n;
                assert(names[k + 1] == n);
            } else if next.contains(n) && !acc.contains(n) {
                let k = choose|k: int| 0 <= k < next.len() && next[k] == n;
                if k < acc.len() {
                    assert(acc[k] == n);
                }
                assert(n == names[0]);
            }
        }
    }
}

/// Whether `n` is one of the strings of `v`.
pub(crate) fn contains_string(v: &Vec<String>, n: &String) -> (r: bool)
    ensures
        r == strings_v(v@).contains(n@),
{
    let mut i: usize = 0;
    while i < v.len()
        invariant
            i <= v@.len(),
            forall|j: int| 0 <= j < i ==> (#[trigger] v@[j])@ != n@,
        decreases v@.len() - i,
    {
        if v[i] == *n {
            proof {
                assert(strings_v(v@)[i as int] == n@);
            }
            return true;
        }
        i = i + 1;
    }
    proof {
        if strings_v(v@).contains(n@) {
            let j = choose|j: int| 0 <= j < strings_v(v@).len() && strings_v(v@)[j] == n@;
            assert(v@[j]@ == n@);
        }
    }
    false
}

/// Adds the name `n` to `caps` as `add_name` says.
fn add_name_exec(caps: &mut Vec<String>, n: &String, params: &Vec<String>, scope: &Vec<String>)
    ensures
        strings_v(final(caps)@) == add_name(strings_v(old(caps)@), n@, strings_v(params@), strings_v(scope@)),
{
    if contains_string(scope, n) && !contains_string(params, n) && !contains_string(caps, n) {
        caps.push(n.clone());
        proof {
            assert(strings_v(caps@) =~= strings_v(old(caps)@).push(n@));
        }
    }
}

/// Adds the names that the expressions of a list read.
fn collect_exprs(es: &Vec<Expr>, params: &Vec<String>, scope: &Vec<String>, caps: &mut Vec<String>)
    ensures
        strings_v(final(caps)@) == add_names(
            strings_v(old(caps)@),
            exprs_names_from(exprs_v(es@), 0),
            strings_v(params@),
            strings_v(scope@),
        ),
    decreases es, 0int,
{
    let ghost s = exprs_v(es@);
    let ghost c0 = strings_v(caps@);
    let ghost p = strings_v(params@);
    let ghost sc = strings_v(scope@);
    proof {
        lemma_exprs_v(es@);
    }
    let mut i: usize = 0;
    while i < es.len()
        invariant
            i <= es@.len(),
            s == exprs_v(es@),
            s.len() == es@.len(),
            p == strings_v(params@),
            sc == strings_v(scope@),
            forall|j: int| 0 <= j < es@.len() ==> #[trigger] s[j] == es@[j]@,
            add_names(strings_v(caps@), exprs_names_from(s, i as int), p, sc) == add_names(
                c0,
                exprs_names_from(s, 0),
                p,
                sc,
            ),
        decreases es@.len() - i,
    {
        proof {
            assert(decreases_to!(es => es@));
            assert(decreases_to!(es@ => es@[i as int]));
        }
        let ghost before = strings_v(caps@);
        assert(s[i as int] == es@[i as int]@);
        collect_expr(&es[i], params, scope, caps);
        proof {
            lemma_add_names_append(before, expr_names(s[i as int]), exprs_names_from(s, i + 1), p, sc);
        }
        i = i + 1;
    }
    proof {
        assert(exprs_names_from(s, i as int) == Seq::<Seq<char>>::empty());
    }
}

/// Adds the names that the statements of a list read.
fn collect_stmts(ss: &Vec<Stmt>, params: &Vec<String>, scope: &Vec<String>, caps: &mut Vec<String>)
    ensures
        strings_v(final(caps)@) == add_names(
            strings_v(old(caps)@),
            stmts_names_from(stmts_v(ss@), 0),
            strings_v(params@),
            strings_v(scope@),
        ),
    decreases ss, 0int,
{
    let ghost s = stmts_v(ss@);
    let ghost c0 = strings_v(caps@);
    let ghost p = strings_v(params@);
    let ghost sc = strings_v(scope@);
    proof {
        lemma_stmts_v(ss@);
    }
    let mut i: usize = 0;
    while i < ss.len()
        invariant
            i <= ss@.len(),
            s == stmts_v(ss@),
            s.len() == ss@.len(),
            p == strings_v(params@),
            sc == strings_v(scope@),
            forall|j: int| 0 <= j < ss@.len() ==> #[trigger] s[j] == stmt_v(ss@[j]),
            add_names(strings_v(caps@), stmts_names_from(s, i as int), p, sc) == add_names(
                c0,
                stmts_names_from(s, 0),
                p,
                sc,
            ),
        decreases ss@.len() - i,
    {
        proof {
            assert(decreases_to!(ss => ss@));
            assert(decreases_to!(ss@ => ss@[i as int]));
        }
        let ghost before = strings_v(caps@);
        assert(s[i as int] == stmt_v(ss@[i as int]));
        collect_stmt(&ss[i], params, scope, caps);
        proof {
            lemma_add_names_append(before, stmt_names(s[i as int]), stmts_names_from(s, i + 1), p, sc);
        }
        i = i + 1;
    }
    proof {
        assert(stmts_names_from(s, i as int) == Seq::<Seq<char>>::empty());
    }
}

/// Adds the names that the field values of a struct literal read.
fn collect_fields(fs: &Vec<(String, Expr)>, params: &Vec<String>, scope: &Vec<String>, caps: &mut Vec<String>)
    ensures
        strings_v(final(caps)@) == add_names(
            strings_v(old(caps)@),
            fields_names_from(fields_v(fs@), 0),
            strings_v(params@),
            strings_v(scope@),
        ),
    decreases fs, 0int,
{
    let ghost s = fields_v(fs@);
    let ghost c0 = strings_v(caps@);
    let ghost p = strings_v(params@);
    let ghost sc = strings_v(scope@);
    proof {
        lemma_fields_v(fs@);
    }
    let mut i: usize = 0;
    while i < fs.len()
        invariant
            i <= fs@.len(),
            s == fields_v(fs@),
            s.len() == fs@.len(),
            p == strings_v(params@),
            sc == strings_v(scope@),
            forall|j: int| 0 <= j < fs@.len() ==> #[trigger] s[j] == (fs@[j].0@, fs@[j].1@),
            add_names(strings_v(caps@), fields_names_from(s, i as int), p, sc) == add_names(
                c0,
                fields_names_from(s, 0),
                p,
                sc,
            ),
        decreases fs@.len() - i,
    {
        proof {
            assert(decreases_to!(fs => fs@));
            assert(decreases_to!(fs@ => fs@[i as int]));
            assert(decreases_to!(fs@[i as int] => fs@[i as int].1));
        }
        let ghost before = strings_v(caps@);
        assert(s[i as int] == (fs@[i as int].0@, fs@[i as int].1@));
        collect_expr(&fs[i].1, params, scope, caps);
        proof {
            lemma_add_names_append(before, expr_names(s[i as int].1), fields_names_from(s, i + 1), p, sc);
        }
        i = i + 1;
    }
    proof {
        assert(fields_names_from(s, i as int) == Seq::<Seq<char>>::empty());
    }
}

/// Adds the names that the bodies of match arms read.
fn collect_arms(arms: &Vec<MatchArm>, params: &Vec<String>, scope: &Vec<String>, caps: &mut Vec<String>)
    ensures
        strings_v(final(caps)@) == add_names(
            strings_v(old(caps)@),
            arms_names_from(arms_v(arms@), 0),
            strings_v(params@),
            strings_v(scope@),
        ),
    decreases arms, 0int,
{
    let ghost s = arms_v(arms@);
    let ghost c0 = strings_v(caps@);
    let ghost p = strings_v(params@);
    let ghost sc = strings_v(scope@);
    proof {
        lemma_arms_v(arms@);
    }
    let mut i: usize = 0;
    while i < arms.len()
        invariant
            i <= arms@.len(),
            s == arms_v(arms@),
            s.len() == arms@.len(),
            p == strings_v(params@),
            sc == strings_v(scope@),
            forall|j: int| 0 <= j < arms@.len() ==> #[trigger] s[j] == arms@[j]@,
            add_names(strings_v(caps@), arms_names_from(s, i as int), p, sc) == add_names(
                c0,
                arms_names_from(s, 0),
                p,
                sc,
            ),
        decreases arms@.len() - i,
    {
        proof {
            assert(decreases_to!(arms => arms@));
            assert(decreases_to!(arms@ => arms@[i as int]));
            assert(decreases_to!(arms@[i as int] => arms@[i as int].body));
        }
        let ghost before = strings_v(caps@);
        assert(s[i as int] == arms@[i as int]@);
        collect_expr(&arms[i].body, params, scope, caps);
        proof {
            lemma_add_names_append(before, expr_names(s[i as int].body), arms_names_from(s, i + 1), p, sc);
        }
        i = i + 1;
    }
    proof {
        assert(arms_names_from(s, i as int) == Seq::<Seq<char>>::empty());
    }
}

/// Adds the names that an expression reads, as `add_names` says.
fn collect_expr(e: &Expr, params: &Vec<String>, scope: &Vec<String>, caps: &mut Vec<String>)
    ensures
        strings_v(final(caps)@) == add_names(
            strings_v(old(caps)@),
            expr_names(e@),
            strings_v(params@),
            strings_v(scope@),
        ),
    decreases e, 1int,
{
    let ghost c0 = strings_v(caps@);
    let ghost p = strings_v(params@);
    let ghost sc = strings_v(scope@);
    match e {
        Expr::Identifier { name, .. } => {
            add_name_exec(caps, name, params, scope);
            proof {
                let ns = seq![name@];
                assert(ns.drop_first() =~= Seq::<Seq<char>>::empty());
                assert(ns[0] == name@);
                assert(expr_names(e@) == ns);
                let x = add_name(c0, name@, p, sc);
                assert(add_names(x, Seq::<Seq<char>>::empty(), p, sc) == x);
                assert(add_names(c0, ns, p, sc) == add_names(x, ns.drop_first(), p, sc));
            }
        },
        Expr::BinaryOp { left, right, .. } => {
            collect_expr(left, params, scope, caps);
            collect_expr(right, params, scope, caps);
            proof {
                lemma_add_names_append(c0, expr_names(left@), expr_names(right@), p, sc);
            }
        },
        Expr::Call { args, .. } => collect_exprs(args, params, scope, caps),
        Expr::MethodCall { object, args, .. } => {
            collect_expr(object, params, scope, caps);
            collect_exprs(args, params, scope, caps);
            proof {
                lemma_add_names_append(c0, expr_names(object@), exprs_names_from(exprs_v(args@), 0), p, sc);
            }
        },
        Expr::If { condition, then_body, then_expr, else_body, else_expr, .. } => {
            collect_expr(condition, params, scope, caps);
            collect_stmts(then_body, params, scope, caps);
            collect_expr(then_expr, params, scope, caps);
            collect_stmts(else_body, params, scope, caps);
            collect_expr(else_expr, params, scope, caps);
            proof {
                let a = expr_names(condition@);
                let b = stmts_names_from(stmts_v(then_body@), 0);
                let c = expr_names(then_expr@);
                let d = stmts_names_from(stmts_v(else_body@), 0);
                let f = expr_names(else_expr@);
                lemma_add_names_append(c0, a + b + c + d, f, p, sc);
                lemma_add_names_append(c0, a + b + c, d, p, sc);
                lemma_add_names_append(c0, a + b, c, p, sc);
                lemma_add_names_append(c0, a, b, p, sc);
            }
        },
        Expr::UnaryOp { operand, .. } => collect_expr(operand, params, scope, caps),
        Expr::FieldAccess { object, .. } => collect_expr(object, params, scope, caps),
        Expr::StructLiteral { fields, .. } => collect_fields(fields, params, scope, caps),
        Expr::EnumVariant { args, .. } => collect_exprs(args, params, scope, caps),
        Expr::Match { scrutinee, arms, .. } => {
            collect_expr(scrutinee, params, scope, caps);
            collect_arms(arms, params, scope, caps);
            proof {
                lemma_add_names_append(c0, expr_names(scrutinee@), arms_names_from(arms_v(arms@), 0), p, sc);
            }
        },
        Expr::ArrayLiteral { elements, .. } => collect_exprs(elements, params, scope, caps),
        Expr::TupleLiteral { elements, .. } => collect_exprs(elements, params, scope, caps),
        Expr::Spawn { args, .. } => collect_exprs(args, params, scope, caps),
        Expr::MutexCreate { value, .. } => collect_expr(value, params, scope, caps),
        _ => {},
    }
}

/// Adds the names that a statement reads, as `add_names` says.
fn collect_stmt(s: &Stmt, params: &Vec<String>, scope: &Vec<String>, caps: &mut Vec<String>)
    ensures
        strings_v(final(caps)@) == add_names(
            strings_v(old(caps)@),
            stmt_names(stmt_v(*s)),
            strings_v(params@),
            strings_v(scope@),
        ),
    decreases s, 1int,
{
    let ghost c0 = strings_v(caps@);
    let ghost p = strings_v(params@);
    let ghost sc = strings_v(scope@);
    match s {
        Stmt::Let { value, .. } => collect_expr(value, params, scope, caps),
        Stmt::Expr(e) => collect_expr(e, params, scope, caps),
        Stmt::Return { value, .. } => collect_expr(value, params, scope, caps),
        Stmt::Assign { value, .. } => collect_expr(value, params, scope, caps),
        Stmt::LetDestructure { value, .. } => collect_expr(value, params, scope, caps),
        Stmt::While { condition, body, .. } => {
            collect_expr(condition, params, scope, caps);
            collect_stmts(body, params, scope, caps);
            proof {
                lemma_add_names_append(c0, expr_names(condition@), stmts_names_from(stmts_v(body@), 0), p, sc);
            }
        },
        Stmt::If { condition, body, .. } => {
            collect_expr(condition, params, scope, caps);
            collect_stmts(body, params, scope, caps);
            proof {
                lemma_add_names_append(c0, expr_names(condition@), stmts_names_from(stmts_v(body@), 0), p, sc);
            }
        },
        Stmt::ForIn { iterable, body, .. } => {
            collect_expr(iterable, params, scope, caps);
            collect_stmts(body, params, scope, caps);
            proof {
                lemma_add_names_append(c0, expr_names(iterable@), stmts_names_from(stmts_v(body@), 0), p, sc);
            }
        },
        Stmt::Break { .. } => {},
        Stmt::Continue { .. } => {},
    }
}

/// The variables of `scope` that a lambda with these parameters and this body
/// captures: each name that the body reads, is in `scope` and names no
/// parameter, once, in the order of its first use. The body of a lambda
/// nested in it is not looked into.
pub fn find_captures(body: &Vec<Stmt>, params: &Vec<Param>, scope: &Vec<String>) -> (r: Vec<String>)
    ensures
        strings_v(r@) == captures_of(stmts_v(body@), params@.map_values(|q: Param| q@), strings_v(scope@)),
{
    let mut names: Vec<String> = Vec::new();
    let mut i: usize = 0;
    while i < params.len()
        invariant
            i <= params@.len(),
            strings_v(names@) =~= param_names(params@.map_values(|q: Param| q@)).take(i as int),
        decreases params@.len() - i,
    {
        names.push(params[i].name.clone());
        i = i + 1;
        proof {
            assert(param_names(params@.map_values(|q: Param| q@)).take(i as int) =~= param_names(
                params@.map_values(|q: Param| q@),
            ).take(i - 1).push(params@[i - 1].name@));
        }
    }
    proof {
        assert(param_names(params@.map_values(|q: Param| q@)).take(i as int) =~= param_names(
            params@.map_values(|q: Param| q@),
        ));
    }
    let mut caps: Vec<String> = Vec::new();
    proof {
        assert(strings_v(caps@) =~= Seq::<Seq<char>>::empty());
    }
    collect_stmts(body, &names, scope, &mut caps);
    caps
}

} // verus!
