//! What the parser computes, stated over token views: a recursive-descent
//! reading of the token sequence with operator precedence, one definition
//! per grammar rule.
//!
//! Every rule takes the token sequence and a position and gives either the
//! parsed value with the position after it, or an error.  The checks
//! `moved(ts, p, q)` that guard the recursive calls always hold on the
//! parser's runs (each rule consumes at least one token where the guard is
//! placed); they only let the definitions terminate.
use vstd::prelude::*;
use crate::token::{TokenKind, KindView, PartView, TokenView, StringPart, parts_view};
use crate::text::{string_of, concat_str};
use vstd::string::StrSliceExecFns;
use crate::lexer::{spec_lex, LexOutcome};
use crate::ast::{SpanV, BinOp, UnaryOp, ExprV, StmtV, TypeNameV, TypeParamV, ParamV, PatternV, MatchArmV, ImportV, FunctionV, StructFieldV, StructDefV, EnumVariantV, EnumDefV, TraitMethodSigV, TraitDefV, ImplBlockV, ProgramV};

verus! {

/// The mathematical value of a parse error.
pub struct ParseErrorView {
    pub message: Seq<char>,
    pub start: int,
    pub end: int,
}

/// The name of a token kind's variant.
pub open spec fn kind_name(t: TokenKind) -> Seq<char> {
    match t {
        TokenKind::IntLiteral(..) => "IntLiteral"@,
        TokenKind::FloatLiteral(..) => "FloatLiteral"@,
        TokenKind::StringLiteral(..) => "StringLiteral"@,
        TokenKind::InterpolatedString(..) => "InterpolatedString"@,
        TokenKind::Identifier(..) => "Identifier"@,
        TokenKind::Fn => "Fn"@,
        TokenKind::Let => "Let"@,
        TokenKind::Plus => "Plus"@,
        TokenKind::Minus => "Minus"@,
        TokenKind::Star => "Star"@,
        TokenKind::Slash => "Slash"@,
        TokenKind::Percent => "Percent"@,
        TokenKind::Eq => "Eq"@,
        TokenKind::PlusEq => "PlusEq"@,
        TokenKind::MinusEq => "MinusEq"@,
        TokenKind::StarEq => "StarEq"@,
        TokenKind::SlashEq => "SlashEq"@,
        TokenKind::PercentEq => "PercentEq"@,
        TokenKind::LParen => "LParen"@,
        TokenKind::RParen => "RParen"@,
        TokenKind::LBrace => "LBrace"@,
        TokenKind::RBrace => "RBrace"@,
        TokenKind::LBracket => "LBracket"@,
        TokenKind::RBracket => "RBracket"@,
        TokenKind::Comma => "Comma"@,
        TokenKind::Colon => "Colon"@,
        TokenKind::True => "True"@,
        TokenKind::False => "False"@,
        TokenKind::If => "If"@,
        TokenKind::Else => "Else"@,
        TokenKind::While => "While"@,
        TokenKind::Return => "Return"@,
        TokenKind::Mut => "Mut"@,
        TokenKind::Struct => "Struct"@,
        TokenKind::Enum => "Enum"@,
        TokenKind::Match => "Match"@,
        TokenKind::Trait => "Trait"@,
        TokenKind::Impl => "Impl"@,
        TokenKind::For => "For"@,
        TokenKind::SelfValue => "SelfValue"@,
        TokenKind::SelfType => "SelfType"@,
        TokenKind::Spawn => "Spawn"@,
        TokenKind::Channel => "Channel"@,
        TokenKind::Mutex => "Mutex"@,
        TokenKind::Array => "Array"@,
        TokenKind::In => "In"@,
        TokenKind::Import => "Import"@,
        TokenKind::Global => "Global"@,
        TokenKind::Break => "Break"@,
        TokenKind::Continue => "Continue"@,
        TokenKind::Dot => "Dot"@,
        TokenKind::ColonColon => "ColonColon"@,
        TokenKind::ColonEq => "ColonEq"@,
        TokenKind::FatArrow => "FatArrow"@,
        TokenKind::EqEq => "EqEq"@,
        TokenKind::NotEq => "NotEq"@,
        TokenKind::Lt => "Lt"@,
        TokenKind::Gt => "Gt"@,
        TokenKind::LtEq => "LtEq"@,
        TokenKind::GtEq => "GtEq"@,
        TokenKind::And => "And"@,
        TokenKind::Or => "Or"@,
        TokenKind::Bang => "Bang"@,
        TokenKind::Question => "Question"@,
        TokenKind::Pipe => "Pipe"@,
        TokenKind::Eof => "Eof"@,
    }
}

/// The text of `char::escape_debug` applied to `c`.
pub uninterp spec fn char_escape_debug(c: char) -> Seq<char>;

/// How a character is written inside a quoted string: a single quote as
/// itself, any other character as `char::escape_debug` writes it.
pub open spec fn char_in_quotes(c: char) -> Seq<char> {
    if c == '\'' {
        seq!['\'']
    } else {
        char_escape_debug(c)
    }
}

/// The characters of `s`, each written as inside a quoted string.
pub open spec fn quoted_body(s: Seq<char>) -> Seq<char>
    decreases s.len(),
{
    if s.len() == 0 {
        Seq::empty()
    } else {
        quoted_body(s.drop_last()) + char_in_quotes(s.last())
    }
}

/// A text between double quotes, escaped as `Debug` escapes a `str`.
pub open spec fn quoted(s: Seq<char>) -> Seq<char> {
    "\""@ + quoted_body(s) + "\""@
}

/// The decimal text of an integer, with a minus sign when it is negative.
pub open spec fn int_text(v: i64) -> Seq<char> {
    if v < 0 {
        "-"@ + crate::typeck_spec::nat_text((-v) as nat)
    } else {
        crate::typeck_spec::nat_text(v as nat)
    }
}

/// The text of a segment of an interpolated string.
pub open spec fn part_text(p: PartView) -> Seq<char> {
    match p {
        PartView::Literal(s) => "Literal("@ + quoted(s) + ")"@,
        PartView::Ident(s) => "Ident("@ + quoted(s) + ")"@,
        PartView::Expr(s) => "Expr("@ + quoted(s) + ")"@,
    }
}

/// The texts of segments, separated by `, `.
pub open spec fn parts_text(ps: Seq<PartView>) -> Seq<char>
    decreases ps.len(),
{
    if ps.len() == 0 {
        Seq::empty()
    } else if ps.len() == 1 {
        part_text(ps[0])
    } else {
        parts_text(ps.drop_last()) + ", "@ + part_text(ps.last())
    }
}

/// The text by which error messages name a token kind: the variant's name,
/// followed by its value in brackets. Numbers are written in decimal, texts
/// between double quotes with `Debug`'s escapes, the segments of an
/// interpolated string as a bracketed list. A float literal is written as
/// its text in the source.
pub open spec fn kind_debug(k: KindView) -> Seq<char> {
    match k {
        KindView::Simple(t) => kind_name(t),
        KindView::Int(v) => "IntLiteral("@ + int_text(v) + ")"@,
        KindView::Float(s) => "FloatLiteral("@ + s + ")"@,
        KindView::Str(s) => "StringLiteral("@ + quoted(s) + ")"@,
        KindView::Interp(ps) => "InterpolatedString(["@ + parts_text(ps) + "])"@,
        KindView::Ident(s) => "Identifier("@ + quoted(s) + ")"@,
    }
}

/// Calls `char::escape_debug` and collects the characters it yields. The
/// contract names the result only: it is a function of the character.
#[verifier::external_body]
fn escape_debug_text(c: char) -> (r: String)
    ensures
        r@ == char_escape_debug(c),
{
    c.escape_debug().to_string()
}

/// The name of a token kind's variant.
fn kind_name_text(t: &TokenKind) -> (r: String)
    ensures
        r@ == kind_name(*t),
{
    match t {
        TokenKind::IntLiteral(..) => string_of("IntLiteral"),
        TokenKind::FloatLiteral(..) => string_of("FloatLiteral"),
        TokenKind::StringLiteral(..) => string_of("StringLiteral"),
        TokenKind::InterpolatedString(..) => string_of("InterpolatedString"),
        TokenKind::Identifier(..) => string_of("Identifier"),
        TokenKind::Fn => string_of("Fn"),
        TokenKind::Let => string_of("Let"),
        TokenKind::Plus => string_of("Plus"),
        TokenKind::Minus => string_of("Minus"),
        TokenKind::Star => string_of("Star"),
        TokenKind::Slash => string_of("Slash"),
        TokenKind::Percent => string_of("Percent"),
        TokenKind::Eq => string_of("Eq"),
        TokenKind::PlusEq => string_of("PlusEq"),
        TokenKind::MinusEq => string_of("MinusEq"),
        TokenKind::StarEq => string_of("StarEq"),
        TokenKind::SlashEq => string_of("SlashEq"),
        TokenKind::PercentEq => string_of("PercentEq"),
        TokenKind::LParen => string_of("LParen"),
        TokenKind::RParen => string_of("RParen"),
        TokenKind::LBrace => string_of("LBrace"),
        TokenKind::RBrace => string_of("RBrace"),
        TokenKind::LBracket => string_of("LBracket"),
        TokenKind::RBracket => string_of("RBracket"),
        TokenKind::Comma => string_of("Comma"),
        TokenKind::Colon => string_of("Colon"),
        TokenKind::True => string_of("True"),
        TokenKind::False => string_of("False"),
        TokenKind::If => string_of("If"),
        TokenKind::Else => string_of("Else"),
        TokenKind::While => string_of("While"),
        TokenKind::Return => string_of("Return"),
        TokenKind::Mut => string_of("Mut"),
        TokenKind::Struct => string_of("Struct"),
        TokenKind::Enum => string_of("Enum"),
        TokenKind::Match => string_of("Match"),
        TokenKind::Trait => string_of("Trait"),
        TokenKind::Impl => string_of("Impl"),
        TokenKind::For => string_of("For"),
        TokenKind::SelfValue => string_of("SelfValue"),
        TokenKind::SelfType => string_of("SelfType"),
        TokenKind::Spawn => string_of("Spawn"),
        TokenKind::Channel => string_of("Channel"),
        TokenKind::Mutex => string_of("Mutex"),
        TokenKind::Array => string_of("Array"),
        TokenKind::In => string_of("In"),
        TokenKind::Import => string_of("Import"),
        TokenKind::Global => string_of("Global"),
        TokenKind::Break => string_of("Break"),
        TokenKind::Continue => string_of("Continue"),
        TokenKind::Dot => string_of("Dot"),
        TokenKind::ColonColon => string_of("ColonColon"),
        TokenKind::ColonEq => string_of("ColonEq"),
        TokenKind::FatArrow => string_of("FatArrow"),
        TokenKind::EqEq => string_of("EqEq"),
        TokenKind::NotEq => string_of("NotEq"),
        TokenKind::Lt => string_of("Lt"),
        TokenKind::Gt => string_of("Gt"),
        TokenKind::LtEq => string_of("LtEq"),
        TokenKind::GtEq => string_of("GtEq"),
        TokenKind::And => string_of("And"),
        TokenKind::Or => string_of("Or"),
        TokenKind::Bang => string_of("Bang"),
        TokenKind::Question => string_of("Question"),
        TokenKind::Pipe => string_of("Pipe"),
        TokenKind::Eof => string_of("Eof"),
    }
}

/// A text between double quotes, escaped as `Debug` escapes a `str`.
fn quoted_text(s: &str) -> (r: String)
    ensures
        r@ == quoted(s@),
{
    let n: usize = s.unicode_len();
    let mut out = string_of("\"");
    let mut i: usize = 0;
    while i < n
        invariant
            n == s@.len(),
            i <= n,
            out@ == "\""@ + quoted_body(s@.subrange(0, i as int)),
        decreases n - i,
    {
        let c = s.get_char(i);
        let piece = if c == '\'' {
            string_of("'")
        } else {
            escape_debug_text(c)
        };
        proof {
            let sub = s@.subrange(0, i + 1);
            assert(sub.drop_last() =~= s@.subrange(0, i as int));
            assert(sub.last() == c);
            if c == '\'' {
                reveal_strlit("'");
                assert(piece@ =~= seq!['\'']);
            }
        }
        out = concat_str(out, piece.as_str());
        i = i + 1;
    }
    proof {
        assert(s@.subrange(0, n as int) =~= s@);
    }
    concat_str(out, "\"")
}

/// The decimal text of an unsigned number.
fn u64_text(n: u64) -> (r: String)
    ensures
        r@ == crate::typeck_spec::nat_text(n as nat),
    decreases n,
{
    let d = n % 10;
    let ds = if d == 0 {
        "0"
    } else if d == 1 {
        "1"
    } else if d == 2 {
        "2"
    } else if d == 3 {
        "3"
    } else if d == 4 {
        "4"
    } else if d == 5 {
        "5"
    } else if d == 6 {
        "6"
    } else if d == 7 {
        "7"
    } else if d == 8 {
        "8"
    } else {
        "9"
    };
    assert(ds@ == crate::typeck_spec::digit_text(d as nat));
    if n < 10 {
        string_of(ds)
    } else {
        let head = u64_text(n / 10);
        concat_str(head, ds)
    }
}

/// The decimal text of an integer, with a minus sign when it is negative.
fn i64_text(v: i64) -> (r: String)
    ensures
        r@ == int_text(v),
{
    if v < 0 {
        let m: u64 = if v == i64::MIN {
            9223372036854775808u64
        } else {
            (-v) as u64
        };
        concat_str(string_of("-"), u64_text(m).as_str())
    } else {
        u64_text(v as u64)
    }
}

/// The text of a segment of an interpolated string.
fn part_text_exec(p: &StringPart) -> (r: String)
    ensures
        r@ == part_text(p@),
{
    match p {
        StringPart::Literal(s) => concat_str(concat_str(string_of("Literal("), quoted_text(s.as_str()).as_str()), ")"),
        StringPart::Ident(s) => concat_str(concat_str(string_of("Ident("), quoted_text(s.as_str()).as_str()), ")"),
        StringPart::Expr(s) => concat_str(concat_str(string_of("Expr("), quoted_text(s.as_str()).as_str()), ")"),
    }
}

/// The texts of segments, separated by `, `.
fn parts_text_exec(ps: &Vec<StringPart>) -> (r: String)
    ensures
        r@ == parts_text(parts_view(ps@)),
{
    let mut out = string_of("");
    proof {
        reveal_strlit("");
        assert(parts_view(ps@).subrange(0, 0) =~= Seq::<PartView>::empty());
        assert(out@ =~= Seq::<char>::empty());
    }
    let mut i: usize = 0;
    while i < ps.len()
        invariant
            i <= ps@.len(),
            out@ == parts_text(parts_view(ps@).subrange(0, i as int)),
        decreases ps@.len() - i,
    {
        let t = part_text_exec(&ps[i]);
        proof {
            let sub = parts_view(ps@).subrange(0, i + 1);
            assert(sub.drop_last() =~= parts_view(ps@).subrange(0, i as int));
            assert(sub.last() == ps@[i as int]@);
            if i == 0 {
                assert(sub[0] == ps@[0]@);
            }
        }
        if i == 0 {
            out = t;
        } else {
            out = concat_str(concat_str(out, ", "), t.as_str());
        }
        i = i + 1;
    }
    proof {
        assert(parts_view(ps@).subrange(0, i as int) =~= parts_view(ps@));
    }
    out
}

/// The text by which error messages name a token kind, as `kind_debug`
/// states it.
pub(crate) fn debug_text(k: &TokenKind) -> (r: String)
    ensures
        r@ == kind_debug(k@),
{
    match k {
        TokenKind::IntLiteral(v) => concat_str(concat_str(string_of("IntLiteral("), i64_text(*v).as_str()), ")"),
        TokenKind::FloatLiteral(s) => concat_str(concat_str(string_of("FloatLiteral("), s.as_str()), ")"),
        TokenKind::StringLiteral(s) => concat_str(concat_str(string_of("StringLiteral("), quoted_text(s.as_str()).as_str()), ")"),
        TokenKind::InterpolatedString(ps) => concat_str(concat_str(string_of("InterpolatedString(["), parts_text_exec(ps).as_str()), "])"),
        TokenKind::Identifier(s) => concat_str(concat_str(string_of("Identifier("), quoted_text(s.as_str()).as_str()), ")"),
        _ => kind_name_text(k),
    }
}

/// The result of a rule.
pub type PRes<T> = Result<(T, int), ParseErrorView>;

/// A successful result: the value and the position after it.
pub open spec fn okp<T>(v: T, p: int) -> PRes<T> {
    Ok((v, p))
}

/// Whether a result is the failure `e`.
pub open spec fn failed<T>(r: PRes<T>, e: ParseErrorView) -> bool {
    r == Err::<(T, int), ParseErrorView>(e)
}

/// Whether a result is the success `v` ending at `p`.
pub open spec fn succeeded<T>(r: PRes<T>, v: T, p: int) -> bool {
    r == Ok::<(T, int), ParseErrorView>((v, p))
}

/// The value of a guard that never fails on the parser's runs.
pub open spec fn stuck() -> ParseErrorView {
    ParseErrorView { message: Seq::empty(), start: 0, end: 0 }
}

/// `q` lies after `p` and within the tokens.
pub open spec fn moved(ts: Seq<TokenView>, p: int, q: int) -> bool {
    p < q <= ts.len()
}

/// The tokens left from `p` on.
pub open spec fn rem(ts: Seq<TokenView>, p: int) -> nat {
    if p < ts.len() {
        (ts.len() - p) as nat
    } else {
        0
    }
}

pub open spec fn in_range(ts: Seq<TokenView>, p: int) -> bool {
    0 <= p < ts.len()
}

/// Whether the token at `p` is the payload-free kind `k`.
pub open spec fn at(ts: Seq<TokenView>, p: int, k: TokenKind) -> bool {
    ts[p].kind == KindView::Simple(k)
}

pub open spec fn span_at(ts: Seq<TokenView>, p: int) -> SpanV {
    (ts[p].start, ts[p].end)
}

pub open spec fn error_at(ts: Seq<TokenView>, p: int, m: Seq<char>) -> ParseErrorView {
    ParseErrorView { message: m, start: ts[p].start, end: ts[p].end }
}

pub open spec fn error_span(s: SpanV, m: Seq<char>) -> ParseErrorView {
    ParseErrorView { message: m, start: s.0, end: s.1 }
}

/// Consume a token of kind `k`.
pub open spec fn expect(ts: Seq<TokenView>, p: int, k: TokenKind) -> PRes<TokenView> {
    if at(ts, p, k) {
        Ok((ts[p], p + 1))
    } else {
        Err(
            error_at(
                ts,
                p,
                "expected "@ + kind_debug(KindView::Simple(k)) + ", got "@ + kind_debug(ts[p].kind),
            ),
        )
    }
}

/// Consume an identifier, giving its text and span.
pub open spec fn expect_ident(ts: Seq<TokenView>, p: int) -> PRes<(Seq<char>, SpanV)> {
    match ts[p].kind {
        KindView::Ident(n) => Ok(((n, span_at(ts, p)), p + 1)),
        _ => Err(error_at(ts, p, "expected identifier, got "@ + kind_debug(ts[p].kind))),
    }
}

/// A member name after `.`: an identifier, or a non-negative integer (a
/// tuple index) taken as its decimal text.
pub open spec fn member_name(ts: Seq<TokenView>, p: int) -> PRes<(Seq<char>, SpanV)> {
    match ts[p].kind {
        KindView::Int(v) => if v >= 0 {
            Ok(((crate::typeck_spec::nat_text(v as nat), span_at(ts, p)), p + 1))
        } else {
            expect_ident(ts, p)
        },
        _ => expect_ident(ts, p),
    }
}

/// The span of an expression.
pub open spec fn expr_span(e: ExprV) -> SpanV {
    match e {
        ExprV::IntLiteral { span, .. } => span,
        ExprV::FloatLiteral { span, .. } => span,
        ExprV::BoolLiteral { span, .. } => span,
        ExprV::StringLiteral { span, .. } => span,
        ExprV::Identifier { span, .. } => span,
        ExprV::BinaryOp { span, .. } => span,
        ExprV::Call { span, .. } => span,
        ExprV::If { span, .. } => span,
        ExprV::UnaryOp { span, .. } => span,
        ExprV::StructLiteral { span, .. } => span,
        ExprV::FieldAccess { span, .. } => span,
        ExprV::EnumVariant { span, .. } => span,
        ExprV::Match { span, .. } => span,
        ExprV::MethodCall { span, .. } => span,
        ExprV::Spawn { span, .. } => span,
        ExprV::ChannelCreate { span, .. } => span,
        ExprV::MutexCreate { span, .. } => span,
        ExprV::ArrayCreate { span, .. } => span,
        ExprV::ArrayLiteral { span, .. } => span,
        ExprV::TupleLiteral { span, .. } => span,
        ExprV::Lambda { span, .. } => span,
    }
}

/// The span of a statement.
pub open spec fn stmt_span(s: StmtV) -> SpanV {
    match s {
        StmtV::Let { span, .. } => span,
        StmtV::Expr(e) => expr_span(e),
        StmtV::While { span, .. } => span,
        StmtV::Return { span, .. } => span,
        StmtV::Assign { span, .. } => span,
        StmtV::If { span, .. } => span,
        StmtV::LetDestructure { span, .. } => span,
        StmtV::ForIn { span, .. } => span,
        StmtV::Break { span } => span,
        StmtV::Continue { span } => span,
    }
}

/// Binding powers and operator of an infix token: `(left, right, op)`.
pub open spec fn infix_power(k: KindView) -> Option<(u8, u8, BinOp)> {
    match k {
        KindView::Simple(t) => match t {
            TokenKind::Or => Some((1, 2, BinOp::Or)),
            TokenKind::And => Some((3, 4, BinOp::And)),
            TokenKind::EqEq => Some((5, 6, BinOp::Eq)),
            TokenKind::NotEq => Some((5, 6, BinOp::NotEq)),
            TokenKind::Lt => Some((7, 8, BinOp::Lt)),
            TokenKind::Gt => Some((7, 8, BinOp::Gt)),
            TokenKind::LtEq => Some((7, 8, BinOp::LtEq)),
            TokenKind::GtEq => Some((7, 8, BinOp::GtEq)),
            TokenKind::Plus => Some((9, 10, BinOp::Add)),
            TokenKind::Minus => Some((9, 10, BinOp::Sub)),
            TokenKind::Star => Some((11, 12, BinOp::Mul)),
            TokenKind::Slash => Some((11, 12, BinOp::Div)),
            TokenKind::Percent => Some((11, 12, BinOp::Mod)),
            _ => None,
        },
        _ => None,
    }
}

/// Unicode's uppercase property of a character (`char::is_uppercase`).
pub uninterp spec fn is_uppercase_char(c: char) -> bool;

/// Calls `char::is_uppercase`.  The contract names the result: Unicode's
/// `Uppercase` property of the character, a table too long to restate.
#[verifier::external_body]
pub(crate) fn char_is_uppercase(c: char) -> (r: bool)
    ensures
        r == is_uppercase_char(c),
{
    c.is_uppercase()
}

/// Whether a name starts with an uppercase character.
pub open spec fn starts_upper(n: Seq<char>) -> bool {
    n.len() > 0 && is_uppercase_char(n[0])
}

/// One past the index of the last `/` byte, or 0 when there is none.
pub open spec fn after_last_slash(b: Seq<u8>, j: int) -> int
    decreases j,
{
    if j <= 0 || j > b.len() {
        0
    } else if b[j - 1] == 47 {
        j
    } else {
        after_last_slash(b, j - 1)
    }
}

/// The module name of an import path: its text after the last `/`.
pub open spec fn module_name_of(path: Seq<char>) -> Seq<char> {
    let b = vstd::utf8::encode_utf8(path);
    vstd::utf8::decode_utf8(b.subrange(after_last_slash(b, b.len() as int), b.len() as int))
}

/// The message for an interpolated segment that holds an expression.
pub open spec fn interp_expr_message() -> Seq<char> {
    "expressions in string interpolation are not supported"@
}

/// An interpolated string as a chain of `+` over its segments.
pub open spec fn desugar_parts(parts: Seq<PartView>, span: SpanV) -> Result<ExprV, ParseErrorView>
    decreases parts.len(),
{
    if parts.len() == 0 {
        Ok(ExprV::StringLiteral { value: Seq::empty(), span })
    } else {
        let last = match parts.last() {
            PartView::Literal(s) => Ok(ExprV::StringLiteral { value: s, span }),
            PartView::Ident(n) => Ok(ExprV::Identifier { name: n, span }),
            PartView::Expr(_) => Err(error_span(span, interp_expr_message())),
        };
        match last {
            Err(e) => Err(e),
            Ok(le) => if parts.len() == 1 {
                Ok(le)
            } else {
                match desugar_parts(parts.drop_last(), span) {
                    Err(e) => Err(e),
                    Ok(front) => Ok(
                        ExprV::BinaryOp {
                            left: Box::new(front),
                            op: BinOp::Add,
                            right: Box::new(le),
                            span,
                        },
                    ),
                }
            },
        }
    }
}

// ─── Types and parameters ──────────────────────────────────────────────────

/// `Name` or `Name<Inner>`.
pub open spec fn type_ref(ts: Seq<TokenView>, p: int) -> PRes<TypeNameV>
    decreases ts.len() - p,
{
    if !in_range(ts, p) {
        Err(stuck())
    } else {
        match expect_ident(ts, p) {
            Err(e) => Err(e),
            Ok(((name, span), p1)) => if in_range(ts, p1) && at(ts, p1, TokenKind::Lt) {
                match type_ref(ts, p1 + 1) {
                    Err(e) => Err(e),
                    Ok((inner, p2)) => match expect(ts, p2, TokenKind::Gt) {
                        Err(e) => Err(e),
                        Ok((_, p3)) => Ok(
                            (TypeNameV { name: name + "<"@ + inner.name + ">"@, span }, p3),
                        ),
                    },
                }
            } else {
                Ok((TypeNameV { name, span }, p1))
            },
        }
    }
}

/// The rest of a generic parameter list after `<`.
pub open spec fn type_params_rest(ts: Seq<TokenView>, p: int, acc: Seq<TypeParamV>) -> PRes<
    Seq<TypeParamV>,
>
    decreases ts.len() - p,
{
    if !in_range(ts, p) {
        Err(stuck())
    } else if at(ts, p, TokenKind::Gt) {
        Ok((acc, p + 1))
    } else {
        match expect_ident(ts, p) {
            Err(e) => Err(e),
            Ok(((name, nspan), p1)) => {
                let bound: Result<(Option<Seq<char>>, int), ParseErrorView> = if at(
                    ts,
                    p1,
                    TokenKind::Colon,
                ) {
                    match expect_ident(ts, p1 + 1) {
                        Err(e) => Err(e),
                        Ok(((b, _), p2)) => Ok((Some(b), p2)),
                    }
                } else {
                    Ok((None, p1))
                };
                match bound {
                    Err(e) => Err(e),
                    Ok((bnd, p2)) => {
                        let end = if bnd is Some {
                            ts[p2 - 1].end
                        } else {
                            nspan.1
                        };
                        let acc2 = acc.push(TypeParamV { name, bound: bnd, span: (nspan.0, end) });
                        if at(ts, p2, TokenKind::Comma) {
                            if moved(ts, p, p2 + 1) {
                                type_params_rest(ts, p2 + 1, acc2)
                            } else {
                                Err(stuck())
                            }
                        } else {
                            match expect(ts, p2, TokenKind::Gt) {
                                Err(e) => Err(e),
                                Ok((_, p3)) => Ok((acc2, p3)),
                            }
                        }
                    },
                }
            },
        }
    }
}

/// An optional generic parameter list `<A, B: Bound>`.
pub open spec fn type_params(ts: Seq<TokenView>, p: int) -> PRes<Seq<TypeParamV>> {
    if at(ts, p, TokenKind::Lt) {
        type_params_rest(ts, p + 1, Seq::empty())
    } else {
        Ok((Seq::empty(), p))
    }
}

/// A name followed by a type, as a parameter.
pub open spec fn param(ts: Seq<TokenView>, p: int) -> PRes<ParamV> {
    match expect_ident(ts, p) {
        Err(e) => Err(e),
        Ok(((name, nspan), p0)) => match type_ref(ts, if in_range(ts, p0) && at(ts, p0, TokenKind::Colon) { p0 + 1 } else { p0 }) {
            Err(e) => Err(e),
            Ok((tn, p2)) => Ok((ParamV { name, ty_name: tn, span: (nspan.0, tn.span.1) }, p2)),
        },
    }
}

/// Parameters separated by commas.
pub open spec fn params_rest(ts: Seq<TokenView>, p: int, acc: Seq<ParamV>) -> PRes<Seq<ParamV>>
    decreases ts.len() - p,
{
    if !in_range(ts, p) {
        Err(stuck())
    } else {
        match param(ts, p) {
            Err(e) => Err(e),
            Ok((pr, p2)) => if at(ts, p2, TokenKind::Comma) {
                if moved(ts, p, p2 + 1) {
                    params_rest(ts, p2 + 1, acc.push(pr))
                } else {
                    Err(stuck())
                }
            } else if in_range(ts, p2) && ts[p2].kind is Ident {
                if moved(ts, p, p2) {
                    params_rest(ts, p2, acc.push(pr))
                } else {
                    Err(stuck())
                }
            } else {
                Ok((acc.push(pr), p2))
            },
        }
    }
}

/// A parameter list up to (not including) `)`.
pub open spec fn params(ts: Seq<TokenView>, p: int) -> PRes<Seq<ParamV>> {
    if at(ts, p, TokenKind::RParen) || at(ts, p, TokenKind::Pipe) {
        Ok((Seq::empty(), p))
    } else {
        params_rest(ts, p, Seq::empty())
    }
}

/// Parameters after `self`, each introduced by a comma.
pub open spec fn self_params_rest(ts: Seq<TokenView>, p: int, acc: Seq<ParamV>) -> PRes<
    Seq<ParamV>,
>
    decreases ts.len() - p,
{
    if !in_range(ts, p) {
        Err(stuck())
    } else if !at(ts, p, TokenKind::Comma) {
        Ok((acc, p))
    } else if at(ts, p + 1, TokenKind::RParen) {
        Ok((acc, p + 1))
    } else {
        match param(ts, p + 1) {
            Err(e) => Err(e),
            Ok((pr, p2)) => if moved(ts, p, p2) {
                self_params_rest(ts, p2, acc.push(pr))
            } else {
                Err(stuck())
            },
        }
    }
}

// ─── Expressions and statements ────────────────────────────────────────────

/// The statement-level or expression-level rule `rule` at position `p`.
/// The rules form one mutually recursive family; `rank` orders the rules
/// that call each other without consuming a token.
pub open spec fn parse_expr(ts: Seq<TokenView>, p: int, min_bp: u8) -> PRes<ExprV>
    decreases rem(ts, p), 5int,
{
    if !in_range(ts, p) {
        Err(stuck())
    } else {
        match parse_atom(ts, p) {
            Err(e) => Err(e),
            Ok((lhs, p1)) => if moved(ts, p, p1) {
                expr_loop(ts, p1, lhs, min_bp)
            } else {
                Err(stuck())
            },
        }
    }
}

/// Postfix `.field`, `.method(args)` and infix operators after `lhs`.
pub open spec fn expr_loop(ts: Seq<TokenView>, p: int, lhs: ExprV, min_bp: u8) -> PRes<ExprV>
    decreases rem(ts, p), 5int,
{
    if !in_range(ts, p) {
        Err(stuck())
    } else if at(ts, p, TokenKind::Dot) {
        match member_name(ts, p + 1) {
            Err(e) => Err(e),
            Ok(((f, fspan), p2)) => {
                let start = expr_span(lhs).0;
                if in_range(ts, p2) && at(ts, p2, TokenKind::LParen) {
                    match call_args(ts, p2 + 1) {
                        Err(e) => Err(e),
                        Ok((args, p3)) => match expect(ts, p3, TokenKind::RParen) {
                            Err(e) => Err(e),
                            Ok((rp, p4)) => if moved(ts, p, p4) {
                                expr_loop(
                                    ts,
                                    p4,
                                    ExprV::MethodCall {
                                        object: Box::new(lhs),
                                        method: f,
                                        args,
                                        span: (start, rp.end),
                                    },
                                    min_bp,
                                )
                            } else {
                                Err(stuck())
                            },
                        },
                    }
                } else if moved(ts, p, p2) {
                    expr_loop(
                        ts,
                        p2,
                        ExprV::FieldAccess {
                            object: Box::new(lhs),
                            field: f,
                            span: (start, fspan.1),
                        },
                        min_bp,
                    )
                } else {
                    Err(stuck())
                }
            },
        }
    } else {
        match infix_power(ts[p].kind) {
            None => Ok((lhs, p)),
            Some((lbp, rbp, op)) => if lbp < min_bp {
                Ok((lhs, p))
            } else {
                match parse_expr(ts, p + 1, rbp) {
                    Err(e) => Err(e),
                    Ok((rhs, p2)) => if moved(ts, p, p2) {
                        expr_loop(
                            ts,
                            p2,
                            ExprV::BinaryOp {
                                left: Box::new(lhs),
                                op,
                                right: Box::new(rhs),
                                span: (expr_span(lhs).0, expr_span(rhs).1),
                            },
                            min_bp,
                        )
                    } else {
                        Err(stuck())
                    },
                }
            },
        }
    }
}

/// Call arguments up to (not including) `)`.
pub open spec fn call_args(ts: Seq<TokenView>, p: int) -> PRes<Seq<ExprV>>
    decreases rem(ts, p), 7int,
{
    if !in_range(ts, p) {
        Err(stuck())
    } else if at(ts, p, TokenKind::RParen) {
        Ok((Seq::empty(), p))
    } else {
        args_rest(ts, p, Seq::empty())
    }
}

/// Arguments separated by commas.
pub open spec fn args_rest(ts: Seq<TokenView>, p: int, acc: Seq<ExprV>) -> PRes<Seq<ExprV>>
    decreases rem(ts, p), 6int,
{
    if !in_range(ts, p) {
        Err(stuck())
    } else {
        match parse_expr(ts, p, 0) {
            Err(e) => Err(e),
            Ok((a, p1)) => if in_range(ts, p1) && at(ts, p1, TokenKind::Comma) {
                if moved(ts, p, p1 + 1) {
                    args_rest(ts, p1 + 1, acc.push(a))
                } else {
                    Err(stuck())
                }
            } else {
                Ok((acc.push(a), p1))
            },
        }
    }
}

/// Expressions until `close`, each optionally followed by a comma; with
/// `stop_at_eof` the list also ends at the end of input.
pub open spec fn expr_list(
    ts: Seq<TokenView>,
    p: int,
    close: TokenKind,
    stop_at_eof: bool,
    acc: Seq<ExprV>,
) -> PRes<Seq<ExprV>>
    decreases rem(ts, p), 6int,
{
    if !in_range(ts, p) {
        Err(stuck())
    } else if at(ts, p, close) || (stop_at_eof && at(ts, p, TokenKind::Eof)) {
        Ok((acc, p))
    } else {
        match parse_expr(ts, p, 0) {
            Err(e) => Err(e),
            Ok((a, p1)) => {
                let p2 = if in_range(ts, p1) && at(ts, p1, TokenKind::Comma) {
                    p1 + 1
                } else {
                    p1
                };
                if moved(ts, p, p2) {
                    expr_list(ts, p2, close, stop_at_eof, acc.push(a))
                } else {
                    Err(stuck())
                }
            },
        }
    }
}

/// Struct literal fields `name: value` until `}` or end of input.
pub open spec fn struct_fields(ts: Seq<TokenView>, p: int, acc: Seq<(Seq<char>, ExprV)>) -> PRes<
    Seq<(Seq<char>, ExprV)>,
>
    decreases rem(ts, p), 6int,
{
    if !in_range(ts, p) {
        Err(stuck())
    } else if at(ts, p, TokenKind::RBrace) || at(ts, p, TokenKind::Eof) {
        Ok((acc, p))
    } else {
        match expect_ident(ts, p) {
            Err(e) => Err(e),
            Ok(((f, _), p1)) => match expect(ts, p1, TokenKind::Colon) {
                Err(e) => Err(e),
                Ok((_, p2)) => if moved(ts, p, p2) {
                    match parse_expr(ts, p2, 0) {
                        Err(e) => Err(e),
                        Ok((v, p3)) => {
                            let p4 = if in_range(ts, p3) && at(ts, p3, TokenKind::Comma) {
                                p3 + 1
                            } else {
                                p3
                            };
                            if moved(ts, p, p4) {
                                struct_fields(ts, p4, acc.push((f, v)))
                            } else {
                                Err(stuck())
                            }
                        },
                    }
                } else {
                    Err(stuck())
                },
            },
        }
    }
}

/// An atom: a literal, name, call, prefix operation or bracketed form.
pub open spec fn paren_atom(ts: Seq<TokenView>, p: int) -> PRes<ExprV>
    decreases rem(ts, p), 3int,
{
    if !in_range(ts, p) {
        Err(stuck())
    } else if in_range(ts, p + 1) && at(ts, p + 1, TokenKind::RParen) {
        Err(error_at(ts, p + 1, "unexpected token in expression: "@ + kind_debug(ts[p + 1].kind)))
    } else {
        match expr_list(ts, p + 1, TokenKind::RParen, true, Seq::empty()) {
            Err(e) => Err(e),
            Ok((els, p1)) => match expect(ts, p1, TokenKind::RParen) {
                Err(err) => Err(err),
                Ok((rp, p2)) => if els.len() == 1 {
                    Ok((els[0], p2))
                } else {
                    Ok((ExprV::TupleLiteral { elements: els, span: (ts[p].start, rp.end) }, p2))
                },
            },
        }
    }
}

/// A lambda `|x:T ..| R { body }`; its body ends with the block's value
/// as an expression statement.
pub open spec fn lambda_atom(ts: Seq<TokenView>, p: int) -> PRes<ExprV>
    decreases rem(ts, p), 3int,
{
    if !in_range(ts, p) || !in_range(ts, p + 1) {
        Err(stuck())
    } else {
        match params(ts, p + 1) {
            Err(e) => Err(e),
            Ok((ps, p1)) => match expect(ts, p1, TokenKind::Pipe) {
                Err(e) => Err(e),
                Ok((_, p2)) => match type_ref(ts, p2) {
                    Err(e) => Err(e),
                    Ok((rt, p3)) => match expect(ts, p3, TokenKind::LBrace) {
                        Err(e) => Err(e),
                        Ok((_, p4)) => if moved(ts, p, p4) {
                            match block_body(ts, p4, Seq::empty()) {
                                Err(e) => Err(e),
                                Ok(((ss, e), p5)) => match expect(ts, p5, TokenKind::RBrace) {
                                    Err(err) => Err(err),
                                    Ok((rb, p6)) => Ok(
                                        (
                                            ExprV::Lambda {
                                                params: ps,
                                                return_type: rt,
                                                body: ss.push(StmtV::Expr(e)),
                                                span: (ts[p].start, rb.end),
                                            },
                                            p6,
                                        ),
                                    ),
                                },
                            }
                        } else {
                            Err(stuck())
                        },
                    },
                },
            },
        }
    }
}

/// An atom: a literal, a name, a call, a parenthesized expression or
/// tuple, and the other forms that start an expression.
pub open spec fn parse_atom(ts: Seq<TokenView>, p: int) -> PRes<ExprV>
    decreases rem(ts, p), 4int,
{
    if !in_range(ts, p) {
        Err(stuck())
    } else {
        let sp = span_at(ts, p);
        let start = ts[p].start;
        match ts[p].kind {
            KindView::Int(v) => Ok((ExprV::IntLiteral { value: v, span: sp }, p + 1)),
            KindView::Float(s) => Ok((ExprV::FloatLiteral { value: s, span: sp }, p + 1)),
            KindView::Str(s) => Ok((ExprV::StringLiteral { value: s, span: sp }, p + 1)),
            KindView::Interp(parts) => match desugar_parts(parts, sp) {
                Err(e) => Err(e),
                Ok(e) => Ok((e, p + 1)),
            },
            KindView::Ident(name) => {
                let p1 = p + 1;
                if in_range(ts, p1) && at(ts, p1, TokenKind::ColonColon) {
                    match expect_ident(ts, p1 + 1) {
                        Err(e) => Err(e),
                        Ok(((vn, vspan), p2)) => if in_range(ts, p2) && at(
                            ts,
                            p2,
                            TokenKind::LParen,
                        ) {
                            match call_args(ts, p2 + 1) {
                                Err(e) => Err(e),
                                Ok((args, p3)) => match expect(ts, p3, TokenKind::RParen) {
                                    Err(e) => Err(e),
                                    Ok((rp, p4)) => Ok(
                                        (
                                            ExprV::EnumVariant {
                                                enum_name: name,
                                                variant_name: vn,
                                                args,
                                                span: (start, rp.end),
                                            },
                                            p4,
                                        ),
                                    ),
                                },
                            }
                        } else {
                            Ok(
                                (
                                    ExprV::EnumVariant {
                                        enum_name: name,
                                        variant_name: vn,
                                        args: Seq::empty(),
                                        span: (start, vspan.1),
                                    },
                                    p2,
                                ),
                            )
                        },
                    }
                } else if in_range(ts, p1) && at(ts, p1, TokenKind::LParen) {
                    match call_args(ts, p1 + 1) {
                        Err(e) => Err(e),
                        Ok((args, p2)) => match expect(ts, p2, TokenKind::RParen) {
                            Err(e) => Err(e),
                            Ok((rp, p3)) => Ok(
                                (ExprV::Call { function: name, args, span: (start, rp.end) }, p3),
                            ),
                        },
                    }
                } else if in_range(ts, p1) && at(ts, p1, TokenKind::LBrace) && starts_upper(name) {
                    match struct_fields(ts, p1 + 1, Seq::empty()) {
                        Err(e) => Err(e),
                        Ok((fields, p2)) => match expect(ts, p2, TokenKind::RBrace) {
                            Err(e) => Err(e),
                            Ok((rb, p3)) => Ok(
                                (ExprV::StructLiteral { name, fields, span: (start, rb.end) }, p3),
                            ),
                        },
                    }
                } else {
                    Ok((ExprV::Identifier { name, span: sp }, p1))
                }
            },
            KindView::Simple(t) => match t {
                TokenKind::SelfValue => Ok((ExprV::Identifier { name: "self"@, span: sp }, p + 1)),
                TokenKind::True => Ok((ExprV::BoolLiteral { value: true, span: sp }, p + 1)),
                TokenKind::False => Ok((ExprV::BoolLiteral { value: false, span: sp }, p + 1)),
                TokenKind::If => parse_if_expr(ts, p),
                TokenKind::Match => parse_match_expr(ts, p),
                TokenKind::Bang => match parse_expr(ts, p + 1, 13) {
                    Err(e) => Err(e),
                    Ok((o, p1)) => Ok(
                        (
                            ExprV::UnaryOp {
                                op: UnaryOp::Not,
                                operand: Box::new(o),
                                span: (start, expr_span(o).1),
                            },
                            p1,
                        ),
                    ),
                },
                TokenKind::Minus => match parse_expr(ts, p + 1, 13) {
                    Err(e) => Err(e),
                    Ok((o, p1)) => Ok(
                        (
                            ExprV::UnaryOp {
                                op: UnaryOp::Neg,
                                operand: Box::new(o),
                                span: (start, expr_span(o).1),
                            },
                            p1,
                        ),
                    ),
                },
                TokenKind::Spawn => match expect_ident(ts, p + 1) {
                    Err(e) => Err(e),
                    Ok(((f, _), p2)) => match expect(ts, p2, TokenKind::LParen) {
                        Err(e) => Err(e),
                        Ok((_, p3)) => match expr_list(
                            ts,
                            p3,
                            TokenKind::RParen,
                            false,
                            Seq::empty(),
                        ) {
                            Err(e) => Err(e),
                            Ok((args, p4)) => match expect(ts, p4, TokenKind::RParen) {
                                Err(e) => Err(e),
                                Ok((rp, p5)) => Ok(
                                    (ExprV::Spawn { function: f, args, span: (start, rp.end) }, p5),
                                ),
                            },
                        },
                    },
                },
                TokenKind::Array => match expect(ts, p + 1, TokenKind::Lt) {
                    Err(e) => Err(e),
                    Ok((_, p2)) => match type_ref(ts, p2) {
                        Err(e) => Err(e),
                        Ok((tn, p3)) => match expect(ts, p3, TokenKind::Gt) {
                            Err(e) => Err(e),
                            Ok((_, p4)) => match expect(ts, p4, TokenKind::LParen) {
                                Err(e) => Err(e),
                                Ok((_, p5)) => match expect(ts, p5, TokenKind::RParen) {
                                    Err(e) => Err(e),
                                    Ok((rp, p6)) => Ok(
                                        (
                                            ExprV::ArrayCreate {
                                                element_type: tn,
                                                span: (start, rp.end),
                                            },
                                            p6,
                                        ),
                                    ),
                                },
                            },
                        },
                    },
                },
                TokenKind::Mutex => match expect(ts, p + 1, TokenKind::LParen) {
                    Err(e) => Err(e),
                    Ok((_, p2)) => match parse_expr(ts, p2, 0) {
                        Err(e) => Err(e),
                        Ok((v, p3)) => match expect(ts, p3, TokenKind::RParen) {
                            Err(e) => Err(e),
                            Ok((rp, p4)) => Ok(
                                (
                                    ExprV::MutexCreate {
                                        value: Box::new(v),
                                        span: (start, rp.end),
                                    },
                                    p4,
                                ),
                            ),
                        },
                    },
                },
                TokenKind::Channel => match expect(ts, p + 1, TokenKind::Lt) {
                    Err(e) => Err(e),
                    Ok((_, p2)) => match type_ref(ts, p2) {
                        Err(e) => Err(e),
                        Ok((tn, p3)) => match expect(ts, p3, TokenKind::Gt) {
                            Err(e) => Err(e),
                            Ok((_, p4)) => match expect(ts, p4, TokenKind::LParen) {
                                Err(e) => Err(e),
                                Ok((_, p5)) => if !moved(ts, p, p5) {
                                    Err(stuck())
                                } else {
                                    let cap: PRes<Option<Box<ExprV>>> = if in_range(ts, p5)
                                        && !at(ts, p5, TokenKind::RParen) {
                                        match parse_expr(ts, p5, 0) {
                                            Err(e) => Err(e),
                                            Ok((c, p6)) => Ok((Some(Box::new(c)), p6)),
                                        }
                                    } else {
                                        Ok((None, p5))
                                    };
                                    match cap {
                                        Err(e) => Err(e),
                                        Ok((c, p6)) => match expect(ts, p6, TokenKind::RParen) {
                                            Err(e) => Err(e),
                                            Ok((rp, p7)) => Ok(
                                                (
                                                    ExprV::ChannelCreate {
                                                        element_type: tn,
                                                        capacity: c,
                                                        span: (start, rp.end),
                                                    },
                                                    p7,
                                                ),
                                            ),
                                        },
                                    }
                                },
                            },
                        },
                    },
                },
                TokenKind::LParen => paren_atom(ts, p),
                TokenKind::Pipe => lambda_atom(ts, p),
                TokenKind::LBracket => match expr_list(
                    ts,
                    p + 1,
                    TokenKind::RBracket,
                    true,
                    Seq::empty(),
                ) {
                    Err(e) => Err(e),
                    Ok((els, p1)) => match expect(ts, p1, TokenKind::RBracket) {
                        Err(e) => Err(e),
                        Ok((rb, p2)) => if els.len() == 0 {
                            Err(
                                error_span(
                                    (start, rb.end),
                                    "empty array literal not allowed; use array<T>() for empty arrays"@,
                                ),
                            )
                        } else {
                            Ok((ExprV::ArrayLiteral { elements: els, span: (start, rb.end) }, p2))
                        },
                    },
                },
                _ => Err(
                    error_at(ts, p, "unexpected token in expression: "@ + kind_debug(ts[p].kind)),
                ),
            },
        }
    }
}

/// `if cond { stmts expr } else { stmts expr }`.
pub open spec fn parse_if_expr(ts: Seq<TokenView>, p: int) -> PRes<ExprV>
    decreases rem(ts, p), 3int,
{
    if !in_range(ts, p) {
        Err(stuck())
    } else {
        match expect(ts, p, TokenKind::If) {
            Err(e) => Err(e),
            Ok((it, p1)) => match parse_expr(ts, p1, 0) {
                Err(e) => Err(e),
                Ok((cond, p2)) => match expect(ts, p2, TokenKind::LBrace) {
                    Err(e) => Err(e),
                    Ok((_, p3)) => if moved(ts, p, p3) {
                        if_else_rest(ts, p3, it.start, cond)
                    } else {
                        Err(stuck())
                    },
                },
            },
        }
    }
}

/// The two branches of an if/else expression, after the first `{`.
pub open spec fn if_else_rest(ts: Seq<TokenView>, p: int, start: int, cond: ExprV) -> PRes<ExprV>
    decreases rem(ts, p), 10int,
{
    if !in_range(ts, p) {
        Err(stuck())
    } else {
        match block_body(ts, p, Seq::empty()) {
            Err(e) => Err(e),
            Ok(((tb, te), p1)) => match expect(ts, p1, TokenKind::RBrace) {
                Err(e) => Err(e),
                Ok((_, p2)) => match expect(ts, p2, TokenKind::Else) {
                    Err(e) => Err(e),
                    Ok((_, p3)) => match expect(ts, p3, TokenKind::LBrace) {
                        Err(e) => Err(e),
                        Ok((_, p4)) => if moved(ts, p, p4) {
                            match block_body(ts, p4, Seq::empty()) {
                                Err(e) => Err(e),
                                Ok(((eb, ee), p5)) => match expect(ts, p5, TokenKind::RBrace) {
                                    Err(e) => Err(e),
                                    Ok((rb, p6)) => Ok(
                                        (
                                            ExprV::If {
                                                condition: Box::new(cond),
                                                then_body: tb,
                                                then_expr: Box::new(te),
                                                else_body: eb,
                                                else_expr: Box::new(ee),
                                                span: (start, rb.end),
                                            },
                                            p6,
                                        ),
                                    ),
                                },
                            }
                        } else {
                            Err(stuck())
                        },
                    },
                },
            },
        }
    }
}

/// An enum pattern `Enum::Variant(a, b)`.
pub open spec fn pattern(ts: Seq<TokenView>, p: int) -> PRes<PatternV> {
    match expect_ident(ts, p) {
        Err(e) => Err(e),
        Ok(((en, espan), p1)) => match expect(ts, p1, TokenKind::ColonColon) {
            Err(e) => Err(e),
            Ok((_, p2)) => match expect_ident(ts, p2) {
                Err(e) => Err(e),
                Ok(((vn, vspan), p3)) => if at(ts, p3, TokenKind::LParen) {
                    match bindings(ts, p3 + 1, Seq::empty()) {
                        Err(e) => Err(e),
                        Ok((bs, p4)) => match expect(ts, p4, TokenKind::RParen) {
                            Err(e) => Err(e),
                            Ok((rp, p5)) => Ok(
                                (
                                    PatternV {
                                        enum_name: en,
                                        variant_name: vn,
                                        bindings: bs,
                                        span: (espan.0, rp.end),
                                    },
                                    p5,
                                ),
                            ),
                        },
                    }
                } else {
                    Ok(
                        (
                            PatternV {
                                enum_name: en,
                                variant_name: vn,
                                bindings: Seq::empty(),
                                span: (espan.0, vspan.1),
                            },
                            p3,
                        ),
                    )
                },
            },
        },
    }
}

/// Binding names until `)`, each optionally followed by a comma.
pub open spec fn bindings(ts: Seq<TokenView>, p: int, acc: Seq<Seq<char>>) -> PRes<
    Seq<Seq<char>>,
>
    decreases ts.len() - p,
{
    if !in_range(ts, p) {
        Err(stuck())
    } else if at(ts, p, TokenKind::RParen) {
        Ok((acc, p))
    } else {
        match expect_ident(ts, p) {
            Err(e) => Err(e),
            Ok(((b, _), p1)) => {
                let p2 = if in_range(ts, p1) && at(ts, p1, TokenKind::Comma) {
                    p1 + 1
                } else {
                    p1
                };
                if moved(ts, p, p2) {
                    bindings(ts, p2, acc.push(b))
                } else {
                    Err(stuck())
                }
            },
        }
    }
}

/// A match arm `pattern => expr`.
pub open spec fn match_arm(ts: Seq<TokenView>, p: int) -> PRes<MatchArmV>
    decreases rem(ts, p), 2int,
{
    if !in_range(ts, p) {
        Err(stuck())
    } else {
        match pattern(ts, p) {
            Err(e) => Err(e),
            Ok((pat, p1)) => match expect(ts, p1, TokenKind::FatArrow) {
                Err(e) => Err(e),
                Ok((_, p2)) => if moved(ts, p, p2) {
                    match parse_expr(ts, p2, 0) {
                        Err(e) => Err(e),
                        Ok((body, p3)) => Ok(
                            (MatchArmV { pattern: pat, body, span: (pat.span.0, expr_span(body).1) }, p3),
                        ),
                    }
                } else {
                    Err(stuck())
                },
            },
        }
    }
}

/// Match arms until `}` or end of input.
pub open spec fn match_arms(ts: Seq<TokenView>, p: int, acc: Seq<MatchArmV>) -> PRes<
    Seq<MatchArmV>,
>
    decreases rem(ts, p), 3int,
{
    if !in_range(ts, p) {
        Err(stuck())
    } else if at(ts, p, TokenKind::RBrace) || at(ts, p, TokenKind::Eof) {
        Ok((acc, p))
    } else {
        match match_arm(ts, p) {
            Err(e) => Err(e),
            Ok((arm, p1)) => {
                let p2 = if in_range(ts, p1) && at(ts, p1, TokenKind::Comma) {
                    p1 + 1
                } else {
                    p1
                };
                if moved(ts, p, p2) {
                    match_arms(ts, p2, acc.push(arm))
                } else {
                    Err(stuck())
                }
            },
        }
    }
}

/// `match scrutinee { arms }`.
pub open spec fn parse_match_expr(ts: Seq<TokenView>, p: int) -> PRes<ExprV>
    decreases rem(ts, p), 3int,
{
    if !in_range(ts, p) {
        Err(stuck())
    } else {
        match expect(ts, p, TokenKind::Match) {
            Err(e) => Err(e),
            Ok((mt, p1)) => match parse_expr(ts, p1, 0) {
                Err(e) => Err(e),
                Ok((scrut, p2)) => match expect(ts, p2, TokenKind::LBrace) {
                    Err(e) => Err(e),
                    Ok((_, p3)) => if moved(ts, p, p3) {
                        match match_arms(ts, p3, Seq::empty()) {
                            Err(e) => Err(e),
                            Ok((arms, p4)) => match expect(ts, p4, TokenKind::RBrace) {
                                Err(e) => Err(e),
                                Ok((rb, p5)) => Ok(
                                    (
                                        ExprV::Match {
                                            scrutinee: Box::new(scrut),
                                            arms,
                                            span: (mt.start, rb.end),
                                        },
                                        p5,
                                    ),
                                ),
                            },
                        }
                    } else {
                        Err(stuck())
                    },
                },
            },
        }
    }
}

/// The inside of a `{ ... }` block: statements and a final expression.
pub open spec fn block_body(ts: Seq<TokenView>, p: int, acc: Seq<StmtV>) -> PRes<
    (Seq<StmtV>, ExprV),
>
    decreases rem(ts, p), 9int,
{
    if !in_range(ts, p) {
        Err(stuck())
    } else if at(ts, p, TokenKind::RBrace) || at(ts, p, TokenKind::Eof) {
        Err(error_at(ts, p, "expected expression in block"@))
    } else {
        match parse_stmt(ts, p) {
            Err(e) => Err(e),
            Ok((s, p1)) => if in_range(ts, p1) && at(ts, p1, TokenKind::RBrace) {
                match s {
                    StmtV::Expr(e) => Ok(((acc, e), p1)),
                    _ => Err(
                        error_span(
                            stmt_span(s),
                            "block must end with an expression, not a statement"@,
                        ),
                    ),
                }
            } else if moved(ts, p, p1) {
                block_body(ts, p1, acc.push(s))
            } else {
                Err(stuck())
            },
        }
    }
}

/// Statements until `}` or end of input.
pub open spec fn body(ts: Seq<TokenView>, p: int, acc: Seq<StmtV>) -> PRes<Seq<StmtV>>
    decreases rem(ts, p), 9int,
{
    if !in_range(ts, p) {
        Err(stuck())
    } else if at(ts, p, TokenKind::RBrace) || at(ts, p, TokenKind::Eof) {
        Ok((acc, p))
    } else {
        match parse_stmt(ts, p) {
            Err(e) => Err(e),
            Ok((s, p1)) => if moved(ts, p, p1) {
                body(ts, p1, acc.push(s))
            } else {
                Err(stuck())
            },
        }
    }
}

/// A statement.
pub open spec fn parse_stmt(ts: Seq<TokenView>, p: int) -> PRes<StmtV>
    decreases rem(ts, p), 8int,
{
    if !in_range(ts, p) {
        Err(stuck())
    } else if at(ts, p, TokenKind::Let) {
        parse_let(ts, p)
    } else if at(ts, p, TokenKind::While) {
        parse_while(ts, p)
    } else if at(ts, p, TokenKind::Return) {
        parse_return(ts, p)
    } else if at(ts, p, TokenKind::If) {
        parse_if_stmt(ts, p)
    } else if at(ts, p, TokenKind::For) {
        parse_for(ts, p)
    } else {
        match parse_expr(ts, p, 0) {
            Err(e) => Err(e),
            Ok((e, p1)) => if in_range(ts, p1) && at(ts, p1, TokenKind::Eq) {
                match e {
                    ExprV::Identifier { name, span } => if moved(ts, p, p1 + 1) {
                        match parse_expr(ts, p1 + 1, 0) {
                            Err(err) => Err(err),
                            Ok((v, p2)) => Ok(
                                (StmtV::Assign { name, value: v, span: (span.0, expr_span(v).1) }, p2),
                            ),
                        }
                    } else {
                        Err(stuck())
                    },
                    _ => Err(
                        error_span(expr_span(e), "left side of assignment must be a variable name"@),
                    ),
                }
            } else {
                Ok((StmtV::Expr(e), p1))
            },
        }
    }
}

/// `for var in iterable { body }`.
pub open spec fn parse_for(ts: Seq<TokenView>, p: int) -> PRes<StmtV>
    decreases rem(ts, p), 7int,
{
    if !in_range(ts, p + 1) {
        Err(stuck())
    } else {
        let start = ts[p].start;
        match ts[p + 1].kind {
            KindView::Ident(var) => match expect(ts, p + 2, TokenKind::In) {
                Err(e) => Err(e),
                Ok((_, p3)) => match parse_expr(ts, p3, 0) {
                    Err(e) => Err(e),
                    Ok((iter, p4)) => match expect(ts, p4, TokenKind::LBrace) {
                        Err(e) => Err(e),
                        Ok((_, p5)) => if moved(ts, p, p5) {
                            match body(ts, p5, Seq::empty()) {
                                Err(e) => Err(e),
                                Ok((b, p6)) => match expect(ts, p6, TokenKind::RBrace) {
                                    Err(e) => Err(e),
                                    Ok((rb, p7)) => Ok(
                                        (
                                            StmtV::ForIn {
                                                var,
                                                iterable: iter,
                                                body: b,
                                                span: (start, rb.end),
                                            },
                                            p7,
                                        ),
                                    ),
                                },
                            }
                        } else {
                            Err(stuck())
                        },
                    },
                },
            },
            _ => Err(error_at(ts, p + 1, "expected variable name after 'for'"@)),
        }
    }
}

/// `let name Type = value`, `let mut name = value` or `let (a, b) = value`.
pub open spec fn parse_let(ts: Seq<TokenView>, p: int) -> PRes<StmtV>
    decreases rem(ts, p), 7int,
{
    if !in_range(ts, p) {
        Err(stuck())
    } else {
        match expect(ts, p, TokenKind::Let) {
            Err(e) => Err(e),
            Ok((lt, p1)) => if at(ts, p1, TokenKind::LParen) {
                let_destructure(ts, p1 + 1, lt.start)
            } else {
                let_binding(ts, p1, lt.start)
            },
        }
    }
}

/// The rest of `let (a, b) = value` after the opening parenthesis.
pub open spec fn let_destructure(ts: Seq<TokenView>, p: int, start: int) -> PRes<StmtV>
    decreases rem(ts, p), 6int,
{
    match expect_ident(ts, p) {
        Err(e) => Err(e),
        Ok(((n1, _), p2)) => match expect(ts, p2, TokenKind::Comma) {
            Err(e) => Err(e),
            Ok((_, p3)) => match expect_ident(ts, p3) {
                Err(e) => Err(e),
                Ok(((n2, _), p4)) => match expect(ts, p4, TokenKind::RParen) {
                    Err(e) => Err(e),
                    Ok((_, p5)) => match expect(ts, p5, TokenKind::Eq) {
                        Err(e) => Err(e),
                        Ok((_, p6)) => if !moved(ts, p, p6) {
                            Err(stuck())
                        } else {
                            match parse_expr(ts, p6, 0) {
                                Err(e) => Err(e),
                                Ok((v, p7)) => Ok(
                                    (
                                        StmtV::LetDestructure {
                                            names: seq![n1, n2],
                                            value: v,
                                            span: (start, expr_span(v).1),
                                        },
                                        p7,
                                    ),
                                ),
                            }
                        },
                    },
                },
            },
        },
    }
}

/// The rest of `let [mut] name [Type] = value` after the keyword.
pub open spec fn let_binding(ts: Seq<TokenView>, p: int, start: int) -> PRes<StmtV>
    decreases rem(ts, p), 6int,
{
    let mutable = at(ts, p, TokenKind::Mut);
    let p2 = if mutable {
        p + 1
    } else {
        p
    };
    match expect_ident(ts, p2) {
        Err(e) => Err(e),
        Ok(((name, _), p3)) => {
            let tn: PRes<Option<TypeNameV>> = if !at(ts, p3, TokenKind::Eq) {
                match type_ref(ts, p3) {
                    Err(e) => Err(e),
                    Ok((t, p4)) => Ok((Some(t), p4)),
                }
            } else {
                Ok((None, p3))
            };
            match tn {
                Err(e) => Err(e),
                Ok((t, p4)) => match expect(ts, p4, TokenKind::Eq) {
                    Err(e) => Err(e),
                    Ok((_, p5)) => if !moved(ts, p, p5) {
                        Err(stuck())
                    } else {
                        match parse_expr(ts, p5, 0) {
                            Err(e) => Err(e),
                            Ok((v, p6)) => Ok(
                                (
                                    StmtV::Let {
                                        name,
                                        mutable,
                                        ty_name: t,
                                        value: v,
                                        span: (start, expr_span(v).1),
                                    },
                                    p6,
                                ),
                            ),
                        }
                    },
                },
            }
        },
    }
}

/// `while cond { body }`.
pub open spec fn parse_while(ts: Seq<TokenView>, p: int) -> PRes<StmtV>
    decreases rem(ts, p), 7int,
{
    if !in_range(ts, p) {
        Err(stuck())
    } else {
        match expect(ts, p, TokenKind::While) {
            Err(e) => Err(e),
            Ok((wt, p1)) => match parse_expr(ts, p1, 0) {
                Err(e) => Err(e),
                Ok((cond, p2)) => match expect(ts, p2, TokenKind::LBrace) {
                    Err(e) => Err(e),
                    Ok((_, p3)) => if moved(ts, p, p3) {
                        match body(ts, p3, Seq::empty()) {
                            Err(e) => Err(e),
                            Ok((b, p4)) => match expect(ts, p4, TokenKind::RBrace) {
                                Err(e) => Err(e),
                                Ok((rb, p5)) => Ok(
                                    (StmtV::While { condition: cond, body: b, span: (wt.start, rb.end) }, p5),
                                ),
                            },
                        }
                    } else {
                        Err(stuck())
                    },
                },
            },
        }
    }
}

/// `return value`.
pub open spec fn parse_return(ts: Seq<TokenView>, p: int) -> PRes<StmtV>
    decreases rem(ts, p), 7int,
{
    if !in_range(ts, p) {
        Err(stuck())
    } else {
        match expect(ts, p, TokenKind::Return) {
            Err(e) => Err(e),
            Ok((rt, p1)) => match parse_expr(ts, p1, 0) {
                Err(e) => Err(e),
                Ok((v, p2)) => Ok((StmtV::Return { value: v, span: (rt.start, expr_span(v).1) }, p2)),
            },
        }
    }
}

/// Whether, with `depth` braces open at `q`, the brace that closes them is
/// followed by `else`.
pub open spec fn else_after_block(ts: Seq<TokenView>, q: int, depth: nat) -> bool
    decreases ts.len() - q,
{
    if q < 0 || q >= ts.len() {
        false
    } else if at(ts, q, TokenKind::LBrace) {
        else_after_block(ts, q + 1, depth + 1)
    } else if at(ts, q, TokenKind::RBrace) {
        if depth <= 1 {
            q + 1 < ts.len() && at(ts, q + 1, TokenKind::Else)
        } else {
            else_after_block(ts, q + 1, (depth - 1) as nat)
        }
    } else if at(ts, q, TokenKind::Eof) {
        false
    } else {
        else_after_block(ts, q + 1, depth)
    }
}

/// `if cond { ... }` as a statement, or with an `else` as an if/else
/// expression statement.
pub open spec fn parse_if_stmt(ts: Seq<TokenView>, p: int) -> PRes<StmtV>
    decreases rem(ts, p), 7int,
{
    if !in_range(ts, p) {
        Err(stuck())
    } else {
        match expect(ts, p, TokenKind::If) {
            Err(e) => Err(e),
            Ok((it, p1)) => match parse_expr(ts, p1, 0) {
                Err(e) => Err(e),
                Ok((cond, p2)) => match expect(ts, p2, TokenKind::LBrace) {
                    Err(e) => Err(e),
                    Ok((_, p3)) => if !moved(ts, p, p3) {
                        Err(stuck())
                    } else if else_after_block(ts, p3, 1) {
                        match if_else_rest(ts, p3, it.start, cond) {
                            Err(e) => Err(e),
                            Ok((e, p4)) => Ok((StmtV::Expr(e), p4)),
                        }
                    } else {
                        match body(ts, p3, Seq::empty()) {
                            Err(e) => Err(e),
                            Ok((b, p4)) => match expect(ts, p4, TokenKind::RBrace) {
                                Err(e) => Err(e),
                                Ok((rb, p5)) => Ok(
                                    (StmtV::If { condition: cond, body: b, span: (it.start, rb.end) }, p5),
                                ),
                            },
                        }
                    },
                },
            },
        }
    }
}


// ─── Declarations ──────────────────────────────────────────────────────────

/// `import "path"`.
pub open spec fn import_decl(ts: Seq<TokenView>, p: int) -> PRes<ImportV> {
    match expect(ts, p, TokenKind::Import) {
        Err(e) => Err(e),
        Ok((it, p1)) => match ts[p1].kind {
            KindView::Str(path) => {
                let m = module_name_of(path);
                if m.len() == 0 {
                    Err(error_at(ts, p1, "import path must not be empty"@))
                } else {
                    Ok((ImportV { path, module_name: m, span: (it.start, ts[p1].end) }, p1 + 1))
                }
            },
            _ => Err(
                error_at(
                    ts,
                    p1,
                    "expected string literal after 'import', got "@ + kind_debug(ts[p1].kind),
                ),
            ),
        },
    }
}

/// `fn name<T>(params) Type { body }`.
pub open spec fn function_decl(ts: Seq<TokenView>, p: int) -> PRes<FunctionV> {
    if !in_range(ts, p) {
        Err(stuck())
    } else {
        let p1 = if at(ts, p, TokenKind::Fn) { p + 1 } else { p };
        match expect_ident(ts, p1) {
            Err(e) => Err(e),
            Ok(((name, _), p2)) => match type_params(ts, p2) {
                Err(e) => Err(e),
                Ok((tps, p3)) => match expect(ts, p3, TokenKind::LParen) {
                    Err(e) => Err(e),
                    Ok((_, p4)) => match params(ts, p4) {
                        Err(e) => Err(e),
                        Ok((ps, p5)) => match expect(ts, p5, TokenKind::RParen) {
                            Err(e) => Err(e),
                            Ok((_, p6)) => match type_ref(ts, p6) {
                                Err(e) => Err(e),
                                Ok((rt, p7)) => match expect(ts, p7, TokenKind::LBrace) {
                                    Err(e) => Err(e),
                                    Ok((_, p8)) => match body(ts, p8, Seq::empty()) {
                                        Err(e) => Err(e),
                                        Ok((b, p9)) => match expect(ts, p9, TokenKind::RBrace) {
                                            Err(e) => Err(e),
                                            Ok((rb, p10)) => Ok(
                                                (
                                                    FunctionV {
                                                        name,
                                                        type_params: tps,
                                                        params: ps,
                                                        return_type: rt,
                                                        body: b,
                                                        span: (ts[p].start, rb.end),
                                                    },
                                                    p10,
                                                ),
                                            ),
                                        },
                                    },
                                },
                            },
                        },
                    },
                },
            },
        }
    }
}

/// Struct fields `name Type` until `}` or end of input.
pub open spec fn struct_field_list(ts: Seq<TokenView>, p: int, acc: Seq<StructFieldV>) -> PRes<
    Seq<StructFieldV>,
>
    decreases rem(ts, p),
{
    if !in_range(ts, p) {
        Err(stuck())
    } else if at(ts, p, TokenKind::RBrace) || at(ts, p, TokenKind::Eof) {
        Ok((acc, p))
    } else {
        match param(ts, p) {
            Err(e) => Err(e),
            Ok((f, p1)) => {
                let p2 = if in_range(ts, p1) && at(ts, p1, TokenKind::Comma) {
                    p1 + 1
                } else {
                    p1
                };
                if moved(ts, p, p2) {
                    struct_field_list(
                        ts,
                        p2,
                        acc.push(StructFieldV { name: f.name, ty_name: f.ty_name, span: f.span }),
                    )
                } else {
                    Err(stuck())
                }
            },
        }
    }
}

/// `struct Name { fields }`.
pub open spec fn struct_decl(ts: Seq<TokenView>, p: int) -> PRes<StructDefV> {
    match expect(ts, p, TokenKind::Struct) {
        Err(e) => Err(e),
        Ok((st, p1)) => match expect_ident(ts, p1) {
            Err(e) => Err(e),
            Ok(((name, _), p2)) => match expect(ts, p2, TokenKind::LBrace) {
                Err(e) => Err(e),
                Ok((_, p3)) => match struct_field_list(ts, p3, Seq::empty()) {
                    Err(e) => Err(e),
                    Ok((fields, p4)) => match expect(ts, p4, TokenKind::RBrace) {
                        Err(e) => Err(e),
                        Ok((rb, p5)) => Ok(
                            (StructDefV { name, fields, span: (st.start, rb.end) }, p5),
                        ),
                    },
                },
            },
        },
    }
}

/// Variant field types until `)`, each optionally followed by a comma.
pub open spec fn variant_fields(ts: Seq<TokenView>, p: int, acc: Seq<TypeNameV>) -> PRes<
    Seq<TypeNameV>,
>
    decreases rem(ts, p),
{
    if !in_range(ts, p) {
        Err(stuck())
    } else if at(ts, p, TokenKind::RParen) {
        Ok((acc, p))
    } else {
        match type_ref(ts, p) {
            Err(e) => Err(e),
            Ok((t, p1)) => {
                let p2 = if in_range(ts, p1) && at(ts, p1, TokenKind::Comma) {
                    p1 + 1
                } else {
                    p1
                };
                if moved(ts, p, p2) {
                    variant_fields(ts, p2, acc.push(t))
                } else {
                    Err(stuck())
                }
            },
        }
    }
}

/// One enum variant `Name` or `Name(Types)`.
pub open spec fn variant(ts: Seq<TokenView>, p: int) -> PRes<EnumVariantV> {
    match expect_ident(ts, p) {
        Err(e) => Err(e),
        Ok(((name, vspan), p1)) => if at(ts, p1, TokenKind::LParen) {
            match variant_fields(ts, p1 + 1, Seq::empty()) {
                Err(e) => Err(e),
                Ok((fields, p2)) => match expect(ts, p2, TokenKind::RParen) {
                    Err(e) => Err(e),
                    Ok((rp, p3)) => Ok((EnumVariantV { name, fields, span: (vspan.0, rp.end) }, p3)),
                },
            }
        } else {
            Ok((EnumVariantV { name, fields: Seq::empty(), span: vspan }, p1))
        },
    }
}

/// Enum variants until `}` or end of input.
pub open spec fn variant_list(ts: Seq<TokenView>, p: int, acc: Seq<EnumVariantV>) -> PRes<
    Seq<EnumVariantV>,
>
    decreases rem(ts, p),
{
    if !in_range(ts, p) {
        Err(stuck())
    } else if at(ts, p, TokenKind::RBrace) || at(ts, p, TokenKind::Eof) {
        Ok((acc, p))
    } else {
        match variant(ts, p) {
            Err(e) => Err(e),
            Ok((v, p1)) => {
                let p2 = if in_range(ts, p1) && at(ts, p1, TokenKind::Comma) {
                    p1 + 1
                } else {
                    p1
                };
                if moved(ts, p, p2) {
                    variant_list(ts, p2, acc.push(v))
                } else {
                    Err(stuck())
                }
            },
        }
    }
}

/// `enum Name { variants }`.
pub open spec fn enum_decl(ts: Seq<TokenView>, p: int) -> PRes<EnumDefV> {
    match expect(ts, p, TokenKind::Enum) {
        Err(e) => Err(e),
        Ok((et, p1)) => match expect_ident(ts, p1) {
            Err(e) => Err(e),
            Ok(((name, _), p2)) => match expect(ts, p2, TokenKind::LBrace) {
                Err(e) => Err(e),
                Ok((_, p3)) => match variant_list(ts, p3, Seq::empty()) {
                    Err(e) => Err(e),
                    Ok((vs, p4)) => match expect(ts, p4, TokenKind::RBrace) {
                        Err(e) => Err(e),
                        Ok((rb, p5)) => Ok(
                            (EnumDefV { name, variants: vs, span: (et.start, rb.end) }, p5),
                        ),
                    },
                },
            },
        },
    }
}

/// `fn name<T>(self, params) Type` in a trait.
pub open spec fn trait_method(ts: Seq<TokenView>, p: int) -> PRes<TraitMethodSigV> {
    match expect(ts, p, TokenKind::Fn) {
        Err(e) => Err(e),
        Ok((ft, p1)) => match expect_ident(ts, p1) {
            Err(e) => Err(e),
            Ok(((name, _), p2)) => match type_params(ts, p2) {
                Err(e) => Err(e),
                Ok((tps, p3)) => match expect(ts, p3, TokenKind::LParen) {
                    Err(e) => Err(e),
                    Ok((_, p4)) => match expect(ts, p4, TokenKind::SelfValue) {
                        Err(e) => Err(e),
                        Ok((_, p5)) => match self_params_rest(ts, p5, Seq::empty()) {
                            Err(e) => Err(e),
                            Ok((ps, p6)) => match expect(ts, p6, TokenKind::RParen) {
                                Err(e) => Err(e),
                                Ok((_, p7)) => match type_ref(ts, p7) {
                                    Err(e) => Err(e),
                                    Ok((rt, p8)) => Ok(
                                        (
                                            TraitMethodSigV {
                                                name,
                                                type_params: tps,
                                                params: ps,
                                                return_type: rt,
                                                span: (ft.start, rt.span.1),
                                            },
                                            p8,
                                        ),
                                    ),
                                },
                            },
                        },
                    },
                },
            },
        },
    }
}

/// Trait method signatures until `}` or end of input.
pub open spec fn trait_methods(ts: Seq<TokenView>, p: int, acc: Seq<TraitMethodSigV>) -> PRes<
    Seq<TraitMethodSigV>,
>
    decreases rem(ts, p),
{
    if !in_range(ts, p) {
        Err(stuck())
    } else if at(ts, p, TokenKind::RBrace) || at(ts, p, TokenKind::Eof) {
        Ok((acc, p))
    } else {
        match trait_method(ts, p) {
            Err(e) => Err(e),
            Ok((m, p1)) => if moved(ts, p, p1) {
                trait_methods(ts, p1, acc.push(m))
            } else {
                Err(stuck())
            },
        }
    }
}

/// `trait Name { signatures }`.
pub open spec fn trait_decl(ts: Seq<TokenView>, p: int) -> PRes<TraitDefV> {
    match expect(ts, p, TokenKind::Trait) {
        Err(e) => Err(e),
        Ok((tt, p1)) => match expect_ident(ts, p1) {
            Err(e) => Err(e),
            Ok(((name, _), p2)) => match expect(ts, p2, TokenKind::LBrace) {
                Err(e) => Err(e),
                Ok((_, p3)) => match trait_methods(ts, p3, Seq::empty()) {
                    Err(e) => Err(e),
                    Ok((ms, p4)) => match expect(ts, p4, TokenKind::RBrace) {
                        Err(e) => Err(e),
                        Ok((rb, p5)) => Ok(
                            (TraitDefV { name, methods: ms, span: (tt.start, rb.end) }, p5),
                        ),
                    },
                },
            },
        },
    }
}

/// A method of an impl block for `target`: its `self` becomes a parameter of
/// that type.
pub open spec fn method_decl(ts: Seq<TokenView>, p: int, target: Seq<char>) -> PRes<FunctionV> {
    match expect(ts, p, TokenKind::Fn) {
        Err(e) => Err(e),
        Ok((ft, p1)) => match expect_ident(ts, p1) {
            Err(e) => Err(e),
            Ok(((name, _), p2)) => match type_params(ts, p2) {
                Err(e) => Err(e),
                Ok((tps, p3)) => match expect(ts, p3, TokenKind::LParen) {
                    Err(e) => Err(e),
                    Ok((_, p4)) => match expect(ts, p4, TokenKind::SelfValue) {
                        Err(e) => Err(e),
                        Ok((st, p5)) => {
                            let sspan = (st.start, st.end);
                            let self_param = ParamV {
                                name: "self"@,
                                ty_name: TypeNameV { name: target, span: sspan },
                                span: sspan,
                            };
                            match self_params_rest(ts, p5, seq![self_param]) {
                                Err(e) => Err(e),
                                Ok((ps, p6)) => match expect(ts, p6, TokenKind::RParen) {
                                    Err(e) => Err(e),
                                    Ok((_, p7)) => match type_ref(ts, p7) {
                                        Err(e) => Err(e),
                                        Ok((rt, p8)) => match expect(ts, p8, TokenKind::LBrace) {
                                            Err(e) => Err(e),
                                            Ok((_, p9)) => match body(ts, p9, Seq::empty()) {
                                                Err(e) => Err(e),
                                                Ok((b, p10)) => match expect(
                                                    ts,
                                                    p10,
                                                    TokenKind::RBrace,
                                                ) {
                                                    Err(e) => Err(e),
                                                    Ok((rb, p11)) => Ok(
                                                        (
                                                            FunctionV {
                                                                name,
                                                                type_params: tps,
                                                                params: ps,
                                                                return_type: rt,
                                                                body: b,
                                                                span: (ft.start, rb.end),
                                                            },
                                                            p11,
                                                        ),
                                                    ),
                                                },
                                            },
                                        },
                                    },
                                },
                            }
                        },
                    },
                },
            },
        },
    }
}

/// Methods of an impl block until `}` or end of input.
pub open spec fn impl_methods(
    ts: Seq<TokenView>,
    p: int,
    target: Seq<char>,
    acc: Seq<FunctionV>,
) -> PRes<Seq<FunctionV>>
    decreases rem(ts, p),
{
    if !in_range(ts, p) {
        Err(stuck())
    } else if at(ts, p, TokenKind::RBrace) || at(ts, p, TokenKind::Eof) {
        Ok((acc, p))
    } else {
        match method_decl(ts, p, target) {
            Err(e) => Err(e),
            Ok((m, p1)) => if moved(ts, p, p1) {
                impl_methods(ts, p1, target, acc.push(m))
            } else {
                Err(stuck())
            },
        }
    }
}

/// `impl Type { methods }` or `impl Trait for Type { methods }`.
pub open spec fn impl_decl(ts: Seq<TokenView>, p: int) -> PRes<ImplBlockV> {
    match expect(ts, p, TokenKind::Impl) {
        Err(e) => Err(e),
        Ok((it, p1)) => match expect_ident(ts, p1) {
            Err(e) => Err(e),
            Ok(((first, _), p2)) => {
                let head: PRes<(Option<Seq<char>>, Seq<char>)> = if at(ts, p2, TokenKind::For) {
                    match expect_ident(ts, p2 + 1) {
                        Err(e) => Err(e),
                        Ok(((target, _), p3)) => Ok(((Some(first), target), p3)),
                    }
                } else {
                    Ok(((None, first), p2))
                };
                match head {
                    Err(e) => Err(e),
                    Ok(((trait_name, target), p3)) => match expect(ts, p3, TokenKind::LBrace) {
                        Err(e) => Err(e),
                        Ok((_, p4)) => match impl_methods(ts, p4, target, Seq::empty()) {
                            Err(e) => Err(e),
                            Ok((ms, p5)) => match expect(ts, p5, TokenKind::RBrace) {
                                Err(e) => Err(e),
                                Ok((rb, p6)) => Ok(
                                    (
                                        ImplBlockV {
                                            trait_name,
                                            target_type: target,
                                            methods: ms,
                                            span: (it.start, rb.end),
                                        },
                                        p6,
                                    ),
                                ),
                            },
                        },
                    },
                }
            },
        }
    }
}

/// The declarations of a program from `p` on, after the ones in `prog`;
/// `decl` tells whether a declaration other than an import was seen.
#[verifier::opaque]
pub open spec fn program_rest(ts: Seq<TokenView>, p: int, prog: ProgramV, decl: bool) -> Result<
    ProgramV,
    ParseErrorView,
>
    decreases rem(ts, p),
{
    if !in_range(ts, p) {
        Err(stuck())
    } else if at(ts, p, TokenKind::Eof) {
        Ok(prog)
    } else if at(ts, p, TokenKind::Import) {
        if decl {
            Err(error_at(ts, p, "imports must appear before all declarations"@))
        } else {
            match import_decl(ts, p) {
                Err(e) => Err(e),
                Ok((i, p1)) => if moved(ts, p, p1) {
                    program_rest(ts, p1, ProgramV { imports: prog.imports.push(i), ..prog }, decl)
                } else {
                    Err(stuck())
                },
            }
        }
    } else if at(ts, p, TokenKind::Enum) {
        match enum_decl(ts, p) {
            Err(e) => Err(e),
            Ok((d, p1)) => if moved(ts, p, p1) {
                program_rest(ts, p1, ProgramV { enums: prog.enums.push(d), ..prog }, true)
            } else {
                Err(stuck())
            },
        }
    } else if at(ts, p, TokenKind::Struct) {
        match struct_decl(ts, p) {
            Err(e) => Err(e),
            Ok((d, p1)) => if moved(ts, p, p1) {
                program_rest(ts, p1, ProgramV { structs: prog.structs.push(d), ..prog }, true)
            } else {
                Err(stuck())
            },
        }
    } else if at(ts, p, TokenKind::Trait) {
        match trait_decl(ts, p) {
            Err(e) => Err(e),
            Ok((d, p1)) => if moved(ts, p, p1) {
                program_rest(ts, p1, ProgramV { traits: prog.traits.push(d), ..prog }, true)
            } else {
                Err(stuck())
            },
        }
    } else if at(ts, p, TokenKind::Impl) {
        match impl_decl(ts, p) {
            Err(e) => Err(e),
            Ok((d, p1)) => if moved(ts, p, p1) {
                program_rest(ts, p1, ProgramV { impls: prog.impls.push(d), ..prog }, true)
            } else {
                Err(stuck())
            },
        }
    } else {
        match function_decl(ts, p) {
            Err(e) => Err(e),
            Ok((d, p1)) => if moved(ts, p, p1) {
                program_rest(ts, p1, ProgramV { functions: prog.functions.push(d), ..prog }, true)
            } else {
                Err(stuck())
            },
        }
    }
}

/// `program_rest` at the end of input.
pub proof fn lemma_rest_eof(ts: Seq<TokenView>, p: int, prog: ProgramV, decl: bool)
    requires
        in_range(ts, p),
        at(ts, p, TokenKind::Eof),
    ensures
        program_rest(ts, p, prog, decl) == Ok::<ProgramV, ParseErrorView>(prog),
{
    reveal(program_rest);
}

/// `program_rest` at an import.
pub proof fn lemma_rest_import(ts: Seq<TokenView>, p: int, prog: ProgramV, decl: bool)
    requires
        in_range(ts, p),
        at(ts, p, TokenKind::Import),
    ensures
        program_rest(ts, p, prog, decl) == if decl {
            Err(error_at(ts, p, "imports must appear before all declarations"@))
        } else {
            match import_decl(ts, p) {
                Err(e) => Err(e),
                Ok((i, p1)) => if moved(ts, p, p1) {
                    program_rest(ts, p1, ProgramV { imports: prog.imports.push(i), ..prog }, decl)
                } else {
                    Err(stuck())
                },
            }
        },
{
    reveal(program_rest);
}

/// `program_rest` at an enum.
pub proof fn lemma_rest_enum(ts: Seq<TokenView>, p: int, prog: ProgramV, decl: bool)
    requires
        in_range(ts, p),
        at(ts, p, TokenKind::Enum),
    ensures
        program_rest(ts, p, prog, decl) == match enum_decl(ts, p) {
            Err(e) => Err(e),
            Ok((d, p1)) => if moved(ts, p, p1) {
                program_rest(ts, p1, ProgramV { enums: prog.enums.push(d), ..prog }, true)
            } else {
                Err(stuck())
            },
        },
{
    reveal(program_rest);
}

/// `program_rest` at a struct.
pub proof fn lemma_rest_struct(ts: Seq<TokenView>, p: int, prog: ProgramV, decl: bool)
    requires
        in_range(ts, p),
        at(ts, p, TokenKind::Struct),
    ensures
        program_rest(ts, p, prog, decl) == match struct_decl(ts, p) {
            Err(e) => Err(e),
            Ok((d, p1)) => if moved(ts, p, p1) {
                program_rest(ts, p1, ProgramV { structs: prog.structs.push(d), ..prog }, true)
            } else {
                Err(stuck())
            },
        },
{
    reveal(program_rest);
}

/// `program_rest` at a trait.
pub proof fn lemma_rest_trait(ts: Seq<TokenView>, p: int, prog: ProgramV, decl: bool)
    requires
        in_range(ts, p),
        at(ts, p, TokenKind::Trait),
    ensures
        program_rest(ts, p, prog, decl) == match trait_decl(ts, p) {
            Err(e) => Err(e),
            Ok((d, p1)) => if moved(ts, p, p1) {
                program_rest(ts, p1, ProgramV { traits: prog.traits.push(d), ..prog }, true)
            } else {
                Err(stuck())
            },
        },
{
    reveal(program_rest);
}

/// `program_rest` at an impl block.
pub proof fn lemma_rest_impl(ts: Seq<TokenView>, p: int, prog: ProgramV, decl: bool)
    requires
        in_range(ts, p),
        at(ts, p, TokenKind::Impl),
    ensures
        program_rest(ts, p, prog, decl) == match impl_decl(ts, p) {
            Err(e) => Err(e),
            Ok((d, p1)) => if moved(ts, p, p1) {
                program_rest(ts, p1, ProgramV { impls: prog.impls.push(d), ..prog }, true)
            } else {
                Err(stuck())
            },
        },
{
    reveal(program_rest);
}

/// `program_rest` anywhere else: a function.
pub proof fn lemma_rest_function(ts: Seq<TokenView>, p: int, prog: ProgramV, decl: bool)
    requires
        in_range(ts, p),
        !at(ts, p, TokenKind::Eof),
        !at(ts, p, TokenKind::Import),
        !at(ts, p, TokenKind::Enum),
        !at(ts, p, TokenKind::Struct),
        !at(ts, p, TokenKind::Trait),
        !at(ts, p, TokenKind::Impl),
    ensures
        program_rest(ts, p, prog, decl) == match function_decl(ts, p) {
            Err(e) => Err(e),
            Ok((d, p1)) => if moved(ts, p, p1) {
                program_rest(ts, p1, ProgramV { functions: prog.functions.push(d), ..prog }, true)
            } else {
                Err(stuck())
            },
        },
{
    reveal(program_rest);
}


pub open spec fn empty_program() -> ProgramV {
    ProgramV {
        imports: Seq::empty(),
        functions: Seq::empty(),
        structs: Seq::empty(),
        enums: Seq::empty(),
        traits: Seq::empty(),
        impls: Seq::empty(),
        globals: Seq::empty(),
    }
}

/// What parsing a token sequence gives.
pub open spec fn parse_tokens(ts: Seq<TokenView>) -> Result<ProgramV, ParseErrorView> {
    program_rest(ts, 0, empty_program(), false)
}

/// What parsing a source text gives: the lexer's error, or what parsing its
/// tokens gives.
pub open spec fn parse_source(source: &str) -> Result<ProgramV, ParseErrorView> {
    match spec_lex(source) {
        LexOutcome::Tokens(ts) => parse_tokens(ts),
        LexOutcome::Error(e) => Err(ParseErrorView { message: e.message, start: e.start, end: e.end }),
        LexOutcome::Panic => Err(stuck()),
    }
}

} // verus!
