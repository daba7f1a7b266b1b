//! What the operators of the language mean, and how the lexer, the parser,
//! the type checker and the lowering treat them, stated over all inputs.
use vstd::prelude::*;
use crate::token::{TokenKind, KindView};
use crate::ast::{BinOp, ExprV, SpanV};
use crate::types::TypeV;
use crate::parser_spec::{infix_power, parse_expr, expr_loop, parse_atom, span_at, at};
use crate::typeck_spec::{binop_type, tc_expr, LocalsV, EnvV};
use crate::ir::{IrBinOp, IrCmpOp, IrTypeV};
use crate::lower::{BuilderV, InstructionV, lower_expr_s, ir_cmp, ir_bin};
use crate::token::{PartView, TokenView};
use crate::lexer::{lex_from, string_body, escape_char, eof_token, LexOutcome, Step, step, string_step};

verus! {

// ─── Precedence and associativity ─────────────────────────────────────────

/// The precedence level of a binary operator, loosest first: `||`, `&&`,
/// equality, ordering, additive, multiplicative.
pub open spec fn level(op: BinOp) -> int {
    match op {
        BinOp::Or => 0,
        BinOp::And => 1,
        BinOp::Eq | BinOp::NotEq => 2,
        BinOp::Lt | BinOp::Gt | BinOp::LtEq | BinOp::GtEq => 3,
        BinOp::Add | BinOp::Sub => 4,
        BinOp::Mul | BinOp::Div | BinOp::Mod => 5,
    }
}

/// The binding powers of the infix operators order them as precedence and
/// associativity ask: in `x op2 y op1 z` the parser continues the right
/// operand of `op2` with `op1` (the left binding power of `op1` is at least
/// the right one of `op2`) exactly when `op1` binds tighter than `op2`. So
/// operators of one level, `op2` itself among them, associate to the left:
/// `a - b - c` is `(a - b) - c`, and `a - b + c` is `(a - b) + c`.
pub proof fn law_infix_precedence(k1: KindView, k2: KindView)
    requires
        infix_power(k1) is Some,
        infix_power(k2) is Some,
    ensures
        ({
            let (l1, r1, op1) = infix_power(k1)->0;
            let (l2, r2, op2) = infix_power(k2)->0;
            (l1 >= r2) <==> level(op1) > level(op2)
        }),
{
}

/// Each infix token stands for its own operator.
pub proof fn law_infix_operator(t: TokenKind)
    requires
        infix_power(KindView::Simple(t)) is Some,
    ensures
        ({
            let op = (infix_power(KindView::Simple(t))->0).2;
            &&& t == TokenKind::Or <==> op == BinOp::Or
            &&& t == TokenKind::And <==> op == BinOp::And
            &&& t == TokenKind::EqEq <==> op == BinOp::Eq
            &&& t == TokenKind::NotEq <==> op == BinOp::NotEq
            &&& t == TokenKind::Lt <==> op == BinOp::Lt
            &&& t == TokenKind::Gt <==> op == BinOp::Gt
            &&& t == TokenKind::LtEq <==> op == BinOp::LtEq
            &&& t == TokenKind::GtEq <==> op == BinOp::GtEq
            &&& t == TokenKind::Plus <==> op == BinOp::Add
            &&& t == TokenKind::Minus <==> op == BinOp::Sub
            &&& t == TokenKind::Star <==> op == BinOp::Mul
            &&& t == TokenKind::Slash <==> op == BinOp::Div
            &&& t == TokenKind::Percent <==> op == BinOp::Mod
        }),
{
}

/// Whether `e` is a binary operation `op` whose operands satisfy `l` and `r`.
pub open spec fn joins(e: ExprV, op: BinOp, l: spec_fn(ExprV) -> bool, r: spec_fn(ExprV) -> bool) -> bool {
    match e {
        ExprV::BinaryOp { left, op: o, right, .. } => o == op && l(*left) && r(*right),
        _ => false,
    }
}

/// The literal an integer token at `i` is parsed to.
pub open spec fn int_atom(ts: Seq<TokenView>, i: int) -> ExprV {
    ExprV::IntLiteral { value: ts[i].kind->Int_0, span: span_at(ts, i) }
}

/// Three integers joined by two infix operators group by precedence, and to
/// the left within one level: `x op1 y op2 z` is `(x op1 y) op2 z` unless
/// `op2` binds tighter than `op1`, when it is `x op1 (y op2 z)`; so
/// `10 - 3 - 2` is `(10 - 3) - 2` and `1 + 2 * 3` is `1 + (2 * 3)`.
pub proof fn law_parse_grouping(ts: Seq<TokenView>, p: int)
    requires
        0 <= p,
        p + 5 < ts.len(),
        ts[p].kind is Int,
        ts[p + 2].kind is Int,
        ts[p + 4].kind is Int,
        infix_power(ts[p + 1].kind) is Some,
        infix_power(ts[p + 3].kind) is Some,
        infix_power(ts[p + 5].kind) is None,
        !at(ts, p + 5, TokenKind::Dot),
    ensures
        ({
            let op1 = (infix_power(ts[p + 1].kind)->0).2;
            let op2 = (infix_power(ts[p + 3].kind)->0).2;
            let r = parse_expr(ts, p, 0);
            &&& r is Ok
            &&& (r->Ok_0).1 == p + 5
            &&& level(op2) <= level(op1) ==> joins((r->Ok_0).0, op2, |a: ExprV| joins(a, op1, |u: ExprV| u == int_atom(ts, p), |v: ExprV| v == int_atom(ts, p + 2)), |c: ExprV| c == int_atom(ts, p + 4))
            &&& level(op2) > level(op1) ==> joins((r->Ok_0).0, op1, |a: ExprV| a == int_atom(ts, p), |c: ExprV| joins(c, op2, |u: ExprV| u == int_atom(ts, p + 2), |v: ExprV| v == int_atom(ts, p + 4)))
        }),
{
    let (l1, r1, op1) = infix_power(ts[p + 1].kind)->0;
    let (l2, r2, op2) = infix_power(ts[p + 3].kind)->0;
    let x = int_atom(ts, p);
    let y = int_atom(ts, p + 2);
    let z = int_atom(ts, p + 4);
    assert(!at(ts, p + 1, TokenKind::Dot));
    assert(!at(ts, p + 3, TokenKind::Dot));
    assert(parse_atom(ts, p) == Ok::<(ExprV, int), crate::parser_spec::ParseErrorView>((x, p + 1)));
    assert(parse_atom(ts, p + 2) == Ok::<(ExprV, int), crate::parser_spec::ParseErrorView>((y, p + 3)));
    assert(parse_atom(ts, p + 4) == Ok::<(ExprV, int), crate::parser_spec::ParseErrorView>((z, p + 5)));
    assert(expr_loop(ts, p + 5, z, r2) == Ok::<(ExprV, int), crate::parser_spec::ParseErrorView>((z, p + 5)));
    assert(parse_expr(ts, p + 4, r2) == Ok::<(ExprV, int), crate::parser_spec::ParseErrorView>((z, p + 5)));
    if l2 < r1 {
        assert(expr_loop(ts, p + 3, y, r1) == Ok::<(ExprV, int), crate::parser_spec::ParseErrorView>((y, p + 3)));
        assert(parse_expr(ts, p + 2, r1) == Ok::<(ExprV, int), crate::parser_spec::ParseErrorView>((y, p + 3)));
        let xy = ExprV::BinaryOp { left: Box::new(x), op: op1, right: Box::new(y), span: (crate::parser_spec::expr_span(x).0, crate::parser_spec::expr_span(y).1) };
        assert(expr_loop(ts, p + 1, x, 0) == expr_loop(ts, p + 3, xy, 0));
        let xyz = ExprV::BinaryOp { left: Box::new(xy), op: op2, right: Box::new(z), span: (crate::parser_spec::expr_span(xy).0, crate::parser_spec::expr_span(z).1) };
        assert(expr_loop(ts, p + 3, xy, 0) == expr_loop(ts, p + 5, xyz, 0));
        assert(expr_loop(ts, p + 5, xyz, 0) == Ok::<(ExprV, int), crate::parser_spec::ParseErrorView>((xyz, p + 5)));
        assert(parse_expr(ts, p, 0) == expr_loop(ts, p + 1, x, 0));
    } else {
        let yz = ExprV::BinaryOp { left: Box::new(y), op: op2, right: Box::new(z), span: (crate::parser_spec::expr_span(y).0, crate::parser_spec::expr_span(z).1) };
        assert(expr_loop(ts, p + 3, y, r1) == expr_loop(ts, p + 5, yz, r1));
        assert(expr_loop(ts, p + 5, yz, r1) == Ok::<(ExprV, int), crate::parser_spec::ParseErrorView>((yz, p + 5)));
        assert(parse_expr(ts, p + 2, r1) == Ok::<(ExprV, int), crate::parser_spec::ParseErrorView>((yz, p + 5)));
        let xyz = ExprV::BinaryOp { left: Box::new(x), op: op1, right: Box::new(yz), span: (crate::parser_spec::expr_span(x).0, crate::parser_spec::expr_span(yz).1) };
        assert(expr_loop(ts, p + 1, x, 0) == expr_loop(ts, p + 5, xyz, 0));
        assert(expr_loop(ts, p + 5, xyz, 0) == Ok::<(ExprV, int), crate::parser_spec::ParseErrorView>((xyz, p + 5)));
        assert(parse_expr(ts, p, 0) == expr_loop(ts, p + 1, x, 0));
    }
}

// ─── Typing of comparisons ────────────────────────────────────────────────

/// `==` and `!=` are typed alike: on any operand types they give the same
/// type, or fail with the same message.
pub proof fn law_equality_operators_agree(lt: TypeV, rt: TypeV)
    ensures
        binop_type(BinOp::Eq, lt, rt) == binop_type(BinOp::NotEq, lt, rt),
{
}

/// Two values of one of the types `Int`, `Float`, `String` or `Bool` can
/// always be compared for equality, which gives a `Bool`.
pub proof fn law_equality_on_equal_types(op: BinOp, t: TypeV)
    requires
        op == BinOp::Eq || op == BinOp::NotEq,
        t == TypeV::Int || t == TypeV::Float || t == TypeV::String || t == TypeV::Bool,
    ensures
        binop_type(op, t, t) == Ok::<TypeV, Seq<char>>(TypeV::Bool),
{
}

/// An ordering comparison is typed the same whichever of `<`, `>`, `<=`,
/// `>=` it is: they accept the same operand types and all give `Bool`.
pub proof fn law_ordering_operators_agree(op1: BinOp, op2: BinOp, lt: TypeV, rt: TypeV)
    requires
        level(op1) == 3,
        level(op2) == 3,
    ensures
        binop_type(op1, lt, rt) == binop_type(op2, lt, rt),
        binop_type(op1, lt, rt) is Ok ==> binop_type(op1, lt, rt) == Ok::<TypeV, Seq<char>>(TypeV::Bool),
{
}

/// An equality test of two expressions of one of the types `Int`, `Float`,
/// `String` or `Bool` type-checks, to `Bool`, whether it is `==` or `!=`.
pub proof fn law_equality_test_checks(left: ExprV, op: BinOp, right: ExprV, span: SpanV, l: LocalsV, env: EnvV, t: TypeV)
    requires
        op == BinOp::Eq || op == BinOp::NotEq,
        t == TypeV::Int || t == TypeV::Float || t == TypeV::String || t == TypeV::Bool,
        tc_expr(left, l, env) == Ok::<TypeV, Seq<char>>(t),
        tc_expr(right, l, env) == Ok::<TypeV, Seq<char>>(t),
    ensures
        tc_expr(ExprV::BinaryOp { left: Box::new(left), op, right: Box::new(right), span }, l, env) == Ok::<TypeV, Seq<char>>(
            TypeV::Bool,
        ),
{
    reveal_with_fuel(tc_expr, 1);
    law_equality_on_equal_types(op, t);
}

// ─── Meaning of the lowered operators ─────────────────────────────────────

/// Whether a comparison of the language holds between two numbers.
pub open spec fn compare_holds(op: BinOp, a: int, b: int) -> bool {
    match op {
        BinOp::Eq => a == b,
        BinOp::NotEq => a != b,
        BinOp::Lt => a < b,
        BinOp::Gt => a > b,
        BinOp::LtEq => a <= b,
        BinOp::GtEq => a >= b,
        _ => false,
    }
}

/// Whether a comparison of the IR holds between two numbers.
pub open spec fn ir_compare_holds(op: IrCmpOp, a: int, b: int) -> bool {
    match op {
        IrCmpOp::Eq => a == b,
        IrCmpOp::NotEq => a != b,
        IrCmpOp::Lt => a < b,
        IrCmpOp::Gt => a > b,
        IrCmpOp::LtEq => a <= b,
        IrCmpOp::GtEq => a >= b,
    }
}

/// The value of an arithmetic operation of the language (divisor not 0).
pub open spec fn arith_value(op: BinOp, a: int, b: int) -> int {
    match op {
        BinOp::Add => a + b,
        BinOp::Sub => a - b,
        BinOp::Mul => a * b,
        BinOp::Div => a / b,
        _ => a % b,
    }
}

/// The value of an arithmetic operation of the IR (divisor not 0).
pub open spec fn ir_arith_value(op: IrBinOp, a: int, b: int) -> int {
    match op {
        IrBinOp::Add => a + b,
        IrBinOp::Sub => a - b,
        IrBinOp::Mul => a * b,
        IrBinOp::Div => a / b,
        IrBinOp::Mod => a % b,
    }
}

/// The IR comparison a comparison lowers to holds exactly when the
/// comparison does, on all numbers.
pub proof fn law_lowered_comparison_means_the_same(op: BinOp, a: int, b: int)
    requires
        level(op) == 2 || level(op) == 3,
    ensures
        ir_compare_holds(ir_cmp(op), a, b) == compare_holds(op, a, b),
{
}

/// The IR arithmetic an arithmetic operator lowers to computes the same
/// value, on all numbers.
pub proof fn law_lowered_arithmetic_means_the_same(op: BinOp, a: int, b: int)
    requires
        level(op) == 4 || level(op) == 5,
    ensures
        ir_arith_value(ir_bin(op), a, b) == arith_value(op, a, b),
{
}

/// Lowering a comparison `left op right` ends with one comparison
/// instruction into the register it gives back: on floats, on strings or on
/// other values, and in each case with an IR operator that holds exactly when
/// `op` does.
pub proof fn law_lowered_comparison_instruction(b: BuilderV, left: ExprV, op: BinOp, right: ExprV, span: SpanV, x: int, y: int)
    requires
        level(op) == 2 || level(op) == 3,
        lower_expr_s(b, ExprV::BinaryOp { left: Box::new(left), op, right: Box::new(right), span }) is Some,
    ensures
        ({
            let (b2, d) = lower_expr_s(b, ExprV::BinaryOp { left: Box::new(left), op, right: Box::new(right), span })->0;
            let i = b2.instrs.last();
            b2.instrs.len() > 0 && match i {
                InstructionV::CmpOp { dest, op: o, .. } => dest == d && ir_compare_holds(o, x, y) == compare_holds(op, x, y),
                InstructionV::FloatCmpOp { dest, op: o, .. } => dest == d && ir_compare_holds(o, x, y) == compare_holds(op, x, y),
                InstructionV::StringCmpOp { dest, op: o, .. } => dest == d && ir_compare_holds(o, x, y) == compare_holds(op, x, y),
                _ => false,
            }
        }),
{
}

// ─── String literals ───────────────────────────────────────────────────────

/// A byte that stands for itself inside a string literal: anything but a
/// quote, a backslash or an opening brace.
pub open spec fn plain_byte(x: u8) -> bool {
    x != 34 && x != 92 && x != 123
}

/// The characters of bytes read one by one.
pub open spec fn byte_chars(s: Seq<u8>) -> Seq<char> {
    s.map_values(|x: u8| x as char)
}

/// What a backslash followed by the byte `x` stands for in a string
/// literal: `\n` a newline, `\t` a tab, `\\` a backslash, `\"` a quote, `\{`
/// an opening brace; before any other byte the backslash stands for itself.
pub open spec fn escape_meaning(x: u8) -> Seq<char> {
    if x == 110 {
        seq!['\n']
    } else if x == 116 {
        seq!['\t']
    } else if x == 92 {
        seq!['\\']
    } else if x == 34 {
        seq!['"']
    } else if x == 123 {
        seq!['{']
    } else {
        seq!['\\', x as char]
    }
}

/// The source of a string literal holding `a`, a backslash, `x`, then `c`.
pub open spec fn escaped_literal(a: Seq<u8>, x: u8, c: Seq<u8>) -> Seq<u8> {
    seq![34u8] + a + seq![92u8, x] + c + seq![34u8]
}

/// Plain bytes of a string body are taken over one by one.
proof fn lemma_plain_run(b: Seq<u8>, start: int, i: int, j: int, parts: Seq<PartView>, interp: bool, cur: Seq<char>)
    requires
        0 <= i <= j <= b.len(),
        forall|k: int| i <= k < j ==> plain_byte(#[trigger] b[k]),
    ensures
        string_body(b, start, i, parts, interp, cur) == string_body(b, start, j, parts, interp, cur + byte_chars(b.subrange(i, j))),
    decreases j - i,
{
    if i == j {
        assert(cur + byte_chars(b.subrange(i, j)) =~= cur);
    } else {
        lemma_plain_run(b, start, i + 1, j, parts, interp, cur.push(b[i] as char));
        assert(cur.push(b[i] as char) + byte_chars(b.subrange(i + 1, j)) =~= cur + byte_chars(b.subrange(i, j)));
    }
}

/// A string literal with one escape in it lexes to one string token whose
/// text has, at the escape's place, what the escape stands for: `"a\nb"`
/// holds a newline between `a` and `b`.
pub proof fn law_string_escape(a: Seq<u8>, x: u8, c: Seq<u8>)
    requires
        forall|k: int| 0 <= k < a.len() ==> plain_byte(#[trigger] a[k]),
        forall|k: int| 0 <= k < c.len() ==> plain_byte(#[trigger] c[k]),
    ensures
        lex_from(escaped_literal(a, x, c), 0) == LexOutcome::Tokens(
            seq![
                TokenView {
                    kind: KindView::Str(byte_chars(a) + escape_meaning(x) + byte_chars(c)),
                    start: 0,
                    end: escaped_literal(a, x, c).len() as int,
                },
                eof_token(escaped_literal(a, x, c).len() as int),
            ],
        ),
{
    let b = escaped_literal(a, x, c);
    let n = b.len() as int;
    let al = a.len() as int;
    let cl = c.len() as int;
    assert(n == al + cl + 4);
    assert(b[0] == 34u8);
    assert(b.subrange(1, 1 + al) =~= a);
    assert(b[1 + al] == 92u8);
    assert(b[2 + al] == x);
    assert(b.subrange(3 + al, 3 + al + cl) =~= c);
    assert(b[n - 1] == 34u8);
    assert(b[1] != 34u8) by {
        if al > 0 {
            assert(b[1] == a[0]);
        }
    }
    assert forall|k: int| 1 <= k < 1 + al implies plain_byte(#[trigger] b[k]) by {
        assert(b[k] == a[k - 1]);
    }
    assert forall|k: int| 3 + al <= k < 3 + al + cl implies plain_byte(#[trigger] b[k]) by {
        assert(b[k] == c[k - 3 - al]);
    }
    let e: Seq<PartView> = Seq::empty();
    assert(step(b, 0) == string_step(b, 0));
    assert(string_step(b, 0) == string_body(b, 0, 1, e, false, Seq::empty()));
    lemma_plain_run(b, 0, 1, 1 + al, e, false, Seq::empty());
    let ca = Seq::<char>::empty() + byte_chars(b.subrange(1, 1 + al));
    assert(ca =~= byte_chars(a));
    lemma_plain_run(b, 0, 3 + al, 3 + al + cl, e, false, byte_chars(a) + escape_meaning(x));
    let fin = byte_chars(a) + escape_meaning(x) + byte_chars(b.subrange(3 + al, 3 + al + cl));
    assert(fin =~= byte_chars(a) + escape_meaning(x) + byte_chars(c));
    match escape_char(x) {
        Some(ch) => {
            assert(escape_meaning(x) =~= seq![ch]);
            assert(byte_chars(a).push(ch) =~= byte_chars(a) + escape_meaning(x));
            assert(string_body(b, 0, 1 + al, e, false, byte_chars(a)) == string_body(
                b,
                0,
                3 + al,
                e,
                false,
                byte_chars(a) + escape_meaning(x),
            ));
        },
        None => {
            assert(plain_byte(x));
            assert(byte_chars(a).push('\\').push(x as char) =~= byte_chars(a) + escape_meaning(x));
            assert(string_body(b, 0, 2 + al, e, false, byte_chars(a).push('\\')) == string_body(
                b,
                0,
                3 + al,
                e,
                false,
                byte_chars(a).push('\\').push(x as char),
            ));
            assert(string_body(b, 0, 1 + al, e, false, byte_chars(a)) == string_body(
                b,
                0,
                3 + al,
                e,
                false,
                byte_chars(a) + escape_meaning(x),
            ));
        },
    }
    assert(string_body(b, 0, n - 1, e, false, fin) == Step::Emit(KindView::Str(fin), n));
    assert(lex_from(b, n) == LexOutcome::Tokens(seq![eof_token(n)]));
    assert(seq![TokenView { kind: KindView::Str(fin), start: 0, end: n }] + seq![eof_token(n)] =~= seq![
        TokenView { kind: KindView::Str(fin), start: 0, end: n },
        eof_token(n),
    ]);
}

} // verus!
