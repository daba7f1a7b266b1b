//! The parser: tokens to a `Program`.
use vstd::prelude::*;
use crate::token::{Span, Token, TokenKind, KindView, PartView, TokenView, StringPart, tokens_view, parts_view};
use crate::ast::{Program, Import, TypeName, TypeParam, Param, Function, StructField, StructDef, EnumVariant, EnumDef, TraitMethodSig, TraitDef, ImplBlock, BinOp, UnaryOp, Pattern, MatchArm, Stmt, Expr, SpanV, span_v, ExprV, StmtV, TypeNameV, TypeParamV, ParamV, PatternV, ImportV, FunctionV, StructFieldV, StructDefV, EnumVariantV, EnumDefV, TraitMethodSigV, TraitDefV, ImplBlockV, ProgramV, expr_v, exprs_v, fields_v, arms_v, stmt_v, stmts_v, strings_v, lemma_exprs_v};
use crate::parser_spec::{ParseErrorView, paren_atom, member_name, lambda_atom, debug_text, rem, at, error_at, error_span, failed, succeeded, expect, expect_ident, expr_span, stmt_span, infix_power, char_is_uppercase, starts_upper, after_last_slash, module_name_of, interp_expr_message, desugar_parts, type_ref, type_params_rest, type_params, param, params_rest, params, self_params_rest, parse_expr, expr_loop, call_args, args_rest, expr_list, struct_fields, parse_atom, parse_if_expr, if_else_rest, pattern, bindings, match_arm, match_arms, parse_match_expr, block_body, body, parse_stmt, parse_for, parse_let, let_destructure, let_binding, parse_while, parse_return, else_after_block, parse_if_stmt, import_decl, function_decl, struct_field_list, struct_decl, variant_fields, variant, variant_list, enum_decl, trait_method, trait_methods, trait_decl, method_decl, impl_methods, impl_decl, program_rest, empty_program, parse_source, lemma_rest_eof, lemma_rest_import, lemma_rest_enum, lemma_rest_struct, lemma_rest_trait, lemma_rest_impl, lemma_rest_function};
use crate::lexer::{lex, spec_lex};
use crate::program::program_checkable;
use crate::program_spec::{expr_filled, stmt_filled, exprs_filled_from, stmts_filled_from, fields_filled_from, arms_filled_from};
use crate::filled::{lemma_exprs_filled_push, lemma_stmts_filled_push, lemma_fields_filled_push, lemma_arms_filled_push};
use crate::text::{string_of, concat_str, first_char, text_between, lemma_boundary_at_non_continuation, lemma_boundary_after_ascii};
use vstd::utf8::*;
use vstd::string::StringSliceAdditionalSpecFns;


verus! {

/// An error produced during parsing.
#[derive(Debug)]
pub struct ParseError {
    pub message: String,
    pub span: Span,
}

impl View for ParseError {
    type V = ParseErrorView;

    open spec fn view(&self) -> ParseErrorView {
        ParseErrorView {
            message: self.message@,
            start: self.span.start as int,
            end: self.span.end as int,
        }
    }
}

impl ParseError {
    pub fn new(message: String, span: Span) -> (r: Self)
        ensures
            r.message == message,
            r.span == span,
    {
        ParseError { message, span }
    }
}

/// Whether a token kind is the payload-free kind `k`.
fn kind_is(t: &TokenKind, k: &TokenKind) -> (r: bool)
    requires
        k.is_simple(),
    ensures
        r == (t@ == KindView::Simple(*k)),
{
    match (t, k) {
        (TokenKind::Fn, TokenKind::Fn) => true,
        (TokenKind::Let, TokenKind::Let) => true,
        (TokenKind::Plus, TokenKind::Plus) => true,
        (TokenKind::Minus, TokenKind::Minus) => true,
        (TokenKind::Star, TokenKind::Star) => true,
        (TokenKind::Slash, TokenKind::Slash) => true,
        (TokenKind::Percent, TokenKind::Percent) => true,
        (TokenKind::Eq, TokenKind::Eq) => true,
        (TokenKind::PlusEq, TokenKind::PlusEq) => true,
        (TokenKind::MinusEq, TokenKind::MinusEq) => true,
        (TokenKind::StarEq, TokenKind::StarEq) => true,
        (TokenKind::SlashEq, TokenKind::SlashEq) => true,
        (TokenKind::PercentEq, TokenKind::PercentEq) => true,
        (TokenKind::LParen, TokenKind::LParen) => true,
        (TokenKind::RParen, TokenKind::RParen) => true,
        (TokenKind::LBrace, TokenKind::LBrace) => true,
        (TokenKind::RBrace, TokenKind::RBrace) => true,
        (TokenKind::LBracket, TokenKind::LBracket) => true,
        (TokenKind::RBracket, TokenKind::RBracket) => true,
        (TokenKind::Comma, TokenKind::Comma) => true,
        (TokenKind::Colon, TokenKind::Colon) => true,
        (TokenKind::True, TokenKind::True) => true,
        (TokenKind::False, TokenKind::False) => true,
        (TokenKind::If, TokenKind::If) => true,
        (TokenKind::Else, TokenKind::Else) => true,
        (TokenKind::While, TokenKind::While) => true,
        (TokenKind::Return, TokenKind::Return) => true,
        (TokenKind::Mut, TokenKind::Mut) => true,
        (TokenKind::Struct, TokenKind::Struct) => true,
        (TokenKind::Enum, TokenKind::Enum) => true,
        (TokenKind::Match, TokenKind::Match) => true,
        (TokenKind::Trait, TokenKind::Trait) => true,
        (TokenKind::Impl, TokenKind::Impl) => true,
        (TokenKind::For, TokenKind::For) => true,
        (TokenKind::SelfValue, TokenKind::SelfValue) => true,
        (TokenKind::SelfType, TokenKind::SelfType) => true,
        (TokenKind::Spawn, TokenKind::Spawn) => true,
        (TokenKind::Channel, TokenKind::Channel) => true,
        (TokenKind::Mutex, TokenKind::Mutex) => true,
        (TokenKind::Array, TokenKind::Array) => true,
        (TokenKind::In, TokenKind::In) => true,
        (TokenKind::Import, TokenKind::Import) => true,
        (TokenKind::Global, TokenKind::Global) => true,
        (TokenKind::Break, TokenKind::Break) => true,
        (TokenKind::Continue, TokenKind::Continue) => true,
        (TokenKind::Dot, TokenKind::Dot) => true,
        (TokenKind::ColonColon, TokenKind::ColonColon) => true,
        (TokenKind::ColonEq, TokenKind::ColonEq) => true,
        (TokenKind::FatArrow, TokenKind::FatArrow) => true,
        (TokenKind::EqEq, TokenKind::EqEq) => true,
        (TokenKind::NotEq, TokenKind::NotEq) => true,
        (TokenKind::Lt, TokenKind::Lt) => true,
        (TokenKind::Gt, TokenKind::Gt) => true,
        (TokenKind::LtEq, TokenKind::LtEq) => true,
        (TokenKind::GtEq, TokenKind::GtEq) => true,
        (TokenKind::And, TokenKind::And) => true,
        (TokenKind::Or, TokenKind::Or) => true,
        (TokenKind::Bang, TokenKind::Bang) => true,
        (TokenKind::Question, TokenKind::Question) => true,
        (TokenKind::Pipe, TokenKind::Pipe) => true,
        (TokenKind::Eof, TokenKind::Eof) => true,
        _ => false,
    }
}


/// A parser over a token sequence that ends with the end-of-input token.
struct Parser {
    tokens: Vec<Token>,
    pos: usize,
}

impl Parser {
    spec fn tv(&self) -> Seq<TokenView> {
        tokens_view(self.tokens@)
    }

    spec fn p(&self) -> int {
        self.pos as int
    }

    /// The tokens end with the end-of-input token and the position is on a
    /// token.
    spec fn wf(&self) -> bool {
        &&& self.tokens@.len() >= 1
        &&& self.tv().last().kind == KindView::Simple(TokenKind::Eof)
        &&& self.pos < self.tokens@.len()
    }

    fn new(tokens: Vec<Token>) -> (r: Self)
        requires
            tokens@.len() >= 1,
            tokens_view(tokens@).last().kind == KindView::Simple(TokenKind::Eof),
        ensures
            r.wf(),
            r.tokens@ == tokens@,
            r.pos == 0,
    {
        Parser { tokens, pos: 0 }
    }

    fn peek(&self) -> (r: &Token)
        requires
            self.wf(),
        ensures
            r@ == self.tv()[self.p()],
    {
        &self.tokens[self.pos]
    }

    /// Whether the current token is the payload-free kind `k`.
    fn at(&self, k: &TokenKind) -> (r: bool)
        requires
            self.wf(),
            k.is_simple(),
        ensures
            r == at(self.tv(), self.p(), *k),
    {
        kind_is(&self.tokens[self.pos].kind, k)
    }

    /// Move past the current token, which is not the end of input.
    fn advance(&mut self)
        requires
            old(self).wf(),
            !at(old(self).tv(), old(self).p(), TokenKind::Eof),
        ensures
            final(self).wf(),
            final(self).tokens@ == old(self).tokens@,
            final(self).pos == old(self).pos + 1,
    {
        assert(self.tv().len() == self.tokens@.len());
        assert(self.tv().last() == self.tv()[self.tv().len() - 1]);
        assert(self.pos != self.tokens@.len() - 1);
        let n: usize = self.tokens.len();
        assert(self.pos + 1 < n);
        self.pos = self.pos + 1;
    }

    /// The span of the current token.
    fn span_here(&self) -> (r: Span)
        requires
            self.wf(),
        ensures
            r.start == self.tv()[self.p()].start,
            r.end == self.tv()[self.p()].end,
    {
        let t = self.peek();
        t.span.start..t.span.end
    }

    /// The span of the token before the current one.
    fn prev_span(&self) -> (r: Span)
        requires
            self.wf(),
            self.pos > 0,
        ensures
            r.start == self.tv()[self.p() - 1].start,
            r.end == self.tv()[self.p() - 1].end,
    {
        let t = &self.tokens[self.pos - 1];
        t.span.start..t.span.end
    }

    /// An error at the current token.
    fn error_here(&self, m: String) -> (r: ParseError)
        requires
            self.wf(),
        ensures
            r@ == error_at(self.tv(), self.p(), m@),
    {
        ParseError::new(m, self.span_here())
    }

    /// Consume a token of the payload-free kind `k`, giving its span.
    fn expect(&mut self, k: TokenKind) -> (r: Result<Span, ParseError>)
        requires
            old(self).wf(),
            k.is_simple(),
            k != TokenKind::Eof,
        ensures
            final(self).wf(),
            final(self).tokens@ == old(self).tokens@,
            match r {
                Ok(sp) => succeeded(expect(old(self).tv(), old(self).p(), k), old(self).tv()[old(self).p()], final(self).p()) && sp.start == old(self).tv()[old(self).p()].start && sp.end == old(self).tv()[old(self).p()].end && final(self).pos == old(self).pos + 1,
                Err(e) => failed(expect(old(self).tv(), old(self).p(), k), e@) && final(self).pos
                    == old(self).pos,
            },
    {
        if self.at(&k) {
            let sp = self.span_here();
            self.advance();
            Ok(sp)
        } else {
            let want = debug_text(&k);
            let got = debug_text(&self.peek().kind);
            let m = concat_str(concat_str(concat_str(string_of("expected "), want.as_str()), ", got "), got.as_str());
            Err(self.error_here(m))
        }
    }

    /// A member name after `.`: an identifier or a tuple index.
    fn parse_member_name(&mut self) -> (r: Result<(String, Span), ParseError>)
        requires
            old(self).wf(),
        ensures
            final(self).wf(),
            final(self).tokens@ == old(self).tokens@,
            match r {
                Ok((n, sp)) => succeeded(member_name(old(self).tv(), old(self).p()), (n@, span_v(sp)), final(self).p()) && final(self).pos == old(self).pos + 1,
                Err(e) => failed(member_name(old(self).tv(), old(self).p()), e@) && final(self).pos == old(self).pos,
            },
    {
        assert(self.tv()[self.p()] == self.tokens@[self.p()]@);
        match &self.tokens[self.pos].kind {
            TokenKind::IntLiteral(v) => {
                if *v >= 0 {
                    let t = index_text(*v);
                    let sp = self.span_here();
                    self.advance();
                    return Ok((t, sp));
                }
            },
            _ => {},
        }
        self.expect_ident()
    }

    /// Consume an identifier, giving its text and span.
    fn expect_ident(&mut self) -> (r: Result<(String, Span), ParseError>)
        requires
            old(self).wf(),
        ensures
            final(self).wf(),
            final(self).tokens@ == old(self).tokens@,
            match r {
                Ok((n, sp)) => succeeded(expect_ident(old(self).tv(), old(self).p()), (n@, span_v(sp)), final(self).p()) && final(self).pos == old(self).pos + 1,
                Err(e) => failed(expect_ident(old(self).tv(), old(self).p()), e@) && final(self).pos == old(self).pos,
            },
    {
        let sp = self.span_here();
        match &self.tokens[self.pos].kind {
            TokenKind::Identifier(name) => {
                let n = name.clone();
                assert(self.tv()[self.p()] == self.tokens@[self.p()]@);
                self.advance();
                Ok((n, sp))
            },
            _ => {
                let got = debug_text(&self.peek().kind);
                let m = concat_str(string_of("expected identifier, got "), got.as_str());
                Err(self.error_here(m))
            },
        }
    }
}


// ─── Views of collections ──────────────────────────────────────────────────

spec fn tps_v(s: Seq<TypeParam>) -> Seq<TypeParamV> {
    s.map_values(|x: TypeParam| x@)
}

spec fn params_v(s: Seq<Param>) -> Seq<ParamV> {
    s.map_values(|x: Param| x@)
}

proof fn lemma_exprs_push(s: Seq<Expr>, e: Expr)
    ensures
        exprs_v(s.push(e)) == exprs_v(s).push(expr_v(e)),
        exprs_filled_from(exprs_v(s), 0) && expr_filled(expr_v(e)) ==> exprs_filled_from(exprs_v(s).push(expr_v(e)), 0),
{
    assert(s.push(e).drop_last() =~= s);
    if exprs_filled_from(exprs_v(s), 0) && expr_filled(expr_v(e)) {
        lemma_exprs_filled_push(exprs_v(s), expr_v(e));
    }
}

proof fn lemma_stmts_push(s: Seq<Stmt>, e: Stmt)
    ensures
        stmts_v(s.push(e)) == stmts_v(s).push(stmt_v(e)),
        stmts_filled_from(stmts_v(s), 0) && stmt_filled(stmt_v(e)) ==> stmts_filled_from(stmts_v(s).push(stmt_v(e)), 0),
{
    assert(s.push(e).drop_last() =~= s);
    if stmts_filled_from(stmts_v(s), 0) && stmt_filled(stmt_v(e)) {
        lemma_stmts_filled_push(stmts_v(s), stmt_v(e));
    }
}

proof fn lemma_fields_push(s: Seq<(String, Expr)>, e: (String, Expr))
    ensures
        fields_v(s.push(e)) == fields_v(s).push((e.0@, expr_v(e.1))),
        fields_filled_from(fields_v(s), 0) && expr_filled(expr_v(e.1)) ==> fields_filled_from(fields_v(s).push((e.0@, expr_v(e.1))), 0),
{
    assert(s.push(e).drop_last() =~= s);
    if fields_filled_from(fields_v(s), 0) && expr_filled(expr_v(e.1)) {
        lemma_fields_filled_push(fields_v(s), (e.0@, expr_v(e.1)));
    }
}

proof fn lemma_arms_push(s: Seq<MatchArm>, e: MatchArm)
    ensures
        arms_v(s.push(e)) == arms_v(s).push(e@),
        arms_filled_from(arms_v(s), 0) && expr_filled(e@.body) ==> arms_filled_from(arms_v(s).push(e@), 0),
{
    assert(s.push(e).drop_last() =~= s);
    if arms_filled_from(arms_v(s), 0) && expr_filled(e@.body) {
        lemma_arms_filled_push(arms_v(s), e@);
    }
}

proof fn lemma_exprs_empty()
    ensures
        exprs_v(Seq::<Expr>::empty()) == Seq::<ExprV>::empty(),
        exprs_filled_from(Seq::<ExprV>::empty(), 0),
{
}

/// `let (a, b) = value` from its parts.
fn destructure_stmt(name1: String, name2: String, value: Expr, start: usize) -> (s: Stmt)
    ensures
        s@ == (StmtV::LetDestructure {
            names: seq![name1@, name2@],
            value: value@,
            span: (start as int, expr_span(value@).1),
        }),
{
    let end: usize = span_of(&value).end;
    let mut names: Vec<String> = Vec::new();
    names.push(name1);
    names.push(name2);
    assert(strings_v(names@) =~= seq![name1@, name2@]);
    Stmt::LetDestructure { names, value, span: start..end }
}

/// The span of an expression.
fn span_of(e: &Expr) -> (r: Span)
    ensures
        span_v(r) == expr_span(e@),
{
    let sp = match e {
        Expr::IntLiteral { span, .. } => span,
        Expr::FloatLiteral { span, .. } => span,
        Expr::BoolLiteral { span, .. } => span,
        Expr::StringLiteral { span, .. } => span,
        Expr::Identifier { span, .. } => span,
        Expr::BinaryOp { span, .. } => span,
        Expr::Call { span, .. } => span,
        Expr::If { span, .. } => span,
        Expr::UnaryOp { span, .. } => span,
        Expr::StructLiteral { span, .. } => span,
        Expr::FieldAccess { span, .. } => span,
        Expr::EnumVariant { span, .. } => span,
        Expr::Match { span, .. } => span,
        Expr::MethodCall { span, .. } => span,
        Expr::Spawn { span, .. } => span,
        Expr::ChannelCreate { span, .. } => span,
        Expr::MutexCreate { span, .. } => span,
        Expr::ArrayCreate { span, .. } => span,
        Expr::ArrayLiteral { span, .. } => span,
        Expr::TupleLiteral { span, .. } => span,
        Expr::Lambda { span, .. } => span,
    };
    sp.start..sp.end
}

/// The decimal text of a non-negative integer.
fn index_text(n: i64) -> (r: String)
    requires
        n >= 0,
    ensures
        r@ == crate::typeck_spec::nat_text(n as nat),
    decreases n,
{
    let d = n % 10;
    let ds = if d == 0 {
        "0"
    } else if d == 1 {
        "1"
    } else if d == 2 {
        "2"
    } else if d == 3 {
        "3"
    } else if d == 4 {
        "4"
    } else if d == 5 {
        "5"
    } else if d == 6 {
        "6"
    } else if d == 7 {
        "7"
    } else if d == 8 {
        "8"
    } else {
        "9"
    };
    assert(ds@ == crate::typeck_spec::digit_text(d as nat));
    if n < 10 {
        string_of(ds)
    } else {
        concat_str(index_text(n / 10), ds)
    }
}

/// The span of a statement.
fn stmt_span_of(st: &Stmt) -> (r: Span)
    ensures
        span_v(r) == stmt_span(st@),
{
    match st {
        Stmt::Let { span, .. } => span.start..span.end,
        Stmt::Expr(e) => span_of(e),
        Stmt::While { span, .. } => span.start..span.end,
        Stmt::Return { span, .. } => span.start..span.end,
        Stmt::Assign { span, .. } => span.start..span.end,
        Stmt::If { span, .. } => span.start..span.end,
        Stmt::LetDestructure { span, .. } => span.start..span.end,
        Stmt::ForIn { span, .. } => span.start..span.end,
        Stmt::Break { span } => span.start..span.end,
        Stmt::Continue { span } => span.start..span.end,
    }
}

/// Binding powers and operator of an infix token.
fn infix_binding_power(k: &TokenKind) -> (r: Option<(u8, u8, BinOp)>)
    ensures
        r == infix_power(k@),
{
    match k {
        TokenKind::Or => Some((1, 2, BinOp::Or)),
        TokenKind::And => Some((3, 4, BinOp::And)),
        TokenKind::EqEq => Some((5, 6, BinOp::Eq)),
        TokenKind::NotEq => Some((5, 6, BinOp::NotEq)),
        TokenKind::Lt => Some((7, 8, BinOp::Lt)),
        TokenKind::Gt => Some((7, 8, BinOp::Gt)),
        TokenKind::LtEq => Some((7, 8, BinOp::LtEq)),
        TokenKind::GtEq => Some((7, 8, BinOp::GtEq)),
        TokenKind::Plus => Some((9, 10, BinOp::Add)),
        TokenKind::Minus => Some((9, 10, BinOp::Sub)),
        TokenKind::Star => Some((11, 12, BinOp::Mul)),
        TokenKind::Slash => Some((11, 12, BinOp::Div)),
        TokenKind::Percent => Some((11, 12, BinOp::Mod)),
        _ => None,
    }
}

impl Parser {
    fn parse_type_ref(&mut self) -> (r: Result<TypeName, ParseError>)
        requires
            old(self).wf(),
        ensures
            final(self).wf(),
            final(self).tokens@ == old(self).tokens@,
            match r {
                Ok(x) => succeeded(type_ref(old(self).tv(), old(self).p()), x@, final(self).p()) && final(self).pos > old(self).pos,
                Err(e) => failed(type_ref(old(self).tv(), old(self).p()), e@),
            },
        decreases rem(old(self).tv(), old(self).p()),
    {
        let (name, span) = match self.expect_ident() {
            Ok(v) => v,
            Err(e) => return Err(e),
        };
        if self.at(&TokenKind::Lt) {
            self.advance();
            let inner = match self.parse_type_ref() {
                Ok(t) => t,
                Err(e) => return Err(e),
            };
            match self.expect(TokenKind::Gt) {
                Ok(_) => {},
                Err(e) => return Err(e),
            }
            let full = concat_str(concat_str(concat_str(name, "<"), inner.name.as_str()), ">");
            Ok(TypeName { name: full, span })
        } else {
            Ok(TypeName { name, span })
        }
    }

    fn parse_type_params(&mut self) -> (r: Result<Vec<TypeParam>, ParseError>)
        requires
            old(self).wf(),
        ensures
            final(self).wf(),
            final(self).tokens@ == old(self).tokens@,
            match r {
                Ok(x) => succeeded(type_params(old(self).tv(), old(self).p()), tps_v(x@), final(self).p()) && final(self).pos >= old(self).pos,
                Err(e) => failed(type_params(old(self).tv(), old(self).p()), e@),
            },
    {
        let mut tps: Vec<TypeParam> = Vec::new();
        if !self.at(&TokenKind::Lt) {
            assert(tps_v(tps@) =~= Seq::<TypeParamV>::empty());
            return Ok(tps);
        }
        let ghost p0 = self.p();
        let ghost ts = self.tv();
        self.advance();
        assert(tps_v(tps@) =~= Seq::<TypeParamV>::empty());
        loop
            invariant
                self.wf(),
                self.tokens@ == old(self).tokens@,
                ts == self.tv(),
                p0 == old(self).p(),
                self.pos > p0,
                type_params(ts, p0) == type_params_rest(ts, self.p(), tps_v(tps@)),
            decreases rem(ts, self.p()),
        {
            if self.at(&TokenKind::Gt) {
                self.advance();
                return Ok(tps);
            }
            let ghost q = self.p();
            let (name, name_span) = match self.expect_ident() {
                Ok(v) => v,
                Err(e) => return Err(e),
            };
            let bound = if self.at(&TokenKind::Colon) {
                self.advance();
                match self.expect_ident() {
                    Ok((b, _)) => Some(b),
                    Err(e) => return Err(e),
                }
            } else {
                None
            };
            let end: usize = if bound.is_some() {
                self.prev_span().end
            } else {
                name_span.end
            };
            let tp = TypeParam { name, bound, span: name_span.start..end };
            let ghost before = tps@;
            tps.push(tp);
            assert(tps_v(tps@) =~= tps_v(before).push(tp@));
            if self.at(&TokenKind::Comma) {
                self.advance();
            } else {
                return match self.expect(TokenKind::Gt) {
                    Ok(_) => Ok(tps),
                    Err(e) => Err(e),
                };
            }
        }
    }

    fn parse_param(&mut self) -> (r: Result<Param, ParseError>)
        requires
            old(self).wf(),
        ensures
            final(self).wf(),
            final(self).tokens@ == old(self).tokens@,
            match r {
                Ok(x) => succeeded(param(old(self).tv(), old(self).p()), x@, final(self).p()) && final(self).pos > old(self).pos,
                Err(e) => failed(param(old(self).tv(), old(self).p()), e@),
            },
    {
        let (name, name_span) = match self.expect_ident() {
            Ok(v) => v,
            Err(e) => return Err(e),
        };
        if self.at(&TokenKind::Colon) {
            self.advance();
        }
        let ty = match self.parse_type_ref() {
            Ok(t) => t,
            Err(e) => return Err(e),
        };
        let end: usize = ty.span.end;
        Ok(Param { name, ty_name: ty, span: name_span.start..end })
    }

    fn parse_params(&mut self) -> (r: Result<Vec<Param>, ParseError>)
        requires
            old(self).wf(),
        ensures
            final(self).wf(),
            final(self).tokens@ == old(self).tokens@,
            match r {
                Ok(x) => succeeded(params(old(self).tv(), old(self).p()), params_v(x@), final(self).p()) && final(self).pos >= old(self).pos,
                Err(e) => failed(params(old(self).tv(), old(self).p()), e@),
            },
    {
        let mut ps: Vec<Param> = Vec::new();
        assert(params_v(ps@) =~= Seq::<ParamV>::empty());
        if self.at(&TokenKind::RParen) || self.at(&TokenKind::Pipe) {
            return Ok(ps);
        }
        let ghost p0 = self.p();
        let ghost ts = self.tv();
        loop
            invariant
                self.wf(),
                self.tokens@ == old(self).tokens@,
                ts == self.tv(),
                p0 == old(self).p(),
                self.pos >= p0,
                params(ts, p0) == params_rest(ts, self.p(), params_v(ps@)),
            decreases rem(ts, self.p()),
        {
            let pr = match self.parse_param() {
                Ok(v) => v,
                Err(e) => return Err(e),
            };
            let ghost before = ps@;
            ps.push(pr);
            assert(params_v(ps@) =~= params_v(before).push(pr@));
            if self.at(&TokenKind::Comma) {
                self.advance();
            } else {
                assert(self.tv()[self.p()] == self.tokens@[self.p()]@);
                match &self.tokens[self.pos].kind {
                    TokenKind::Identifier(_) => {},
                    _ => {
                        return Ok(ps);
                    },
                }
            }
        }
    }

    /// Parameters after `self`, each introduced by a comma, appended to `acc`.
    fn parse_self_params(&mut self, acc: Vec<Param>) -> (r: Result<Vec<Param>, ParseError>)
        requires
            old(self).wf(),
        ensures
            final(self).wf(),
            final(self).tokens@ == old(self).tokens@,
            match r {
                Ok(x) => succeeded(self_params_rest(old(self).tv(), old(self).p(), params_v(acc@)), params_v(x@), final(self).p()) && final(self).pos >= old(self).pos,
                Err(e) => failed(self_params_rest(old(self).tv(), old(self).p(), params_v(acc@)), e@),
            },
            r matches Ok(x) ==> x@.len() >= acc@.len(),
    {
        let mut ps = acc;
        let ghost p0 = self.p();
        let ghost ts = self.tv();
        loop
            invariant
                self.wf(),
                self.tokens@ == old(self).tokens@,
                ts == self.tv(),
                p0 == old(self).p(),
                self.pos >= p0,
                self_params_rest(ts, p0, params_v(acc@)) == self_params_rest(
                    ts,
                    self.p(),
                    params_v(ps@),
                ),
                ps@.len() >= acc@.len(),
            decreases rem(ts, self.p()),
        {
            if !self.at(&TokenKind::Comma) {
                return Ok(ps);
            }
            self.advance();
            if self.at(&TokenKind::RParen) {
                return Ok(ps);
            }
            let pr = match self.parse_param() {
                Ok(v) => v,
                Err(e) => return Err(e),
            };
            let ghost before = ps@;
            ps.push(pr);
            assert(params_v(ps@) =~= params_v(before).push(pr@));
        }
    }
}


impl Parser {
    fn parse_expr(&mut self, min_bp: u8) -> (r: Result<Expr, ParseError>)
        requires
            old(self).wf(),
        ensures
            final(self).wf(),
            final(self).tokens@ == old(self).tokens@,
            match r {
                Ok(x) => succeeded(parse_expr(old(self).tv(), old(self).p(), min_bp), x@, final(self).p()) && final(self).pos > old(self).pos,
                Err(e) => failed(parse_expr(old(self).tv(), old(self).p(), min_bp), e@),
            },
            r matches Ok(x) ==> expr_filled(x@),
        decreases rem(old(self).tv(), old(self).p()), 5int,
    {
        let ghost p0 = self.p();
        let ghost ts = self.tv();
        let mut lhs = match self.parse_atom() {
            Ok(e) => e,
            Err(e) => return Err(e),
        };
        loop
            invariant
                self.wf(),
                self.tokens@ == old(self).tokens@,
                ts == self.tv(),
                p0 == old(self).p(),
                self.pos > p0,
                parse_expr(ts, p0, min_bp) == expr_loop(ts, self.p(), lhs@, min_bp),
                expr_filled(lhs@),
            decreases rem(ts, self.p()),
        {
            if self.at(&TokenKind::Dot) {
                self.advance();
                let (field, fspan) = match self.parse_member_name() {
                    Ok(v) => v,
                    Err(e) => return Err(e),
                };
                let start: usize = span_of(&lhs).start;
                if self.at(&TokenKind::LParen) {
                    self.advance();
                    let args = match self.parse_call_args() {
                        Ok(a) => a,
                        Err(e) => return Err(e),
                    };
                    let rp = match self.expect(TokenKind::RParen) {
                        Ok(sp) => sp,
                        Err(e) => return Err(e),
                    };
                    let obj = lhs;
                    lhs = Expr::MethodCall {
                        object: Box::new(obj),
                        method: field,
                        args,
                        span: start..rp.end,
                    };
                } else {
                    let obj = lhs;
                    lhs = Expr::FieldAccess { object: Box::new(obj), field, span: start..fspan.end };
                }
            } else {
                match infix_binding_power(&self.peek().kind) {
                    None => return Ok(lhs),
                    Some((left_bp, right_bp, op)) => {
                        if left_bp < min_bp {
                            return Ok(lhs);
                        }
                        assert(self.tv()[self.p()] == self.tokens@[self.p()]@);
                        self.advance();
                        let rhs = match self.parse_expr(right_bp) {
                            Ok(e) => e,
                            Err(e) => return Err(e),
                        };
                        let start: usize = span_of(&lhs).start;
                        let end: usize = span_of(&rhs).end;
                        let left = lhs;
                        lhs = Expr::BinaryOp {
                            left: Box::new(left),
                            op,
                            right: Box::new(rhs),
                            span: start..end,
                        };
                    },
                }
            }
        }
    }

    fn parse_call_args(&mut self) -> (r: Result<Vec<Expr>, ParseError>)
        requires
            old(self).wf(),
        ensures
            final(self).wf(),
            final(self).tokens@ == old(self).tokens@,
            match r {
                Ok(x) => succeeded(call_args(old(self).tv(), old(self).p()), exprs_v(x@), final(self).p()) && final(self).pos >= old(self).pos,
                Err(e) => failed(call_args(old(self).tv(), old(self).p()), e@),
            },
            r matches Ok(x) ==> exprs_filled_from(exprs_v(x@), 0),
        decreases rem(old(self).tv(), old(self).p()), 7int,
    {
        let mut args: Vec<Expr> = Vec::new();
        proof {
            lemma_exprs_empty();
        }
        if self.at(&TokenKind::RParen) {
            return Ok(args);
        }
        let ghost p0 = self.p();
        let ghost ts = self.tv();
        loop
            invariant
                self.wf(),
                self.tokens@ == old(self).tokens@,
                ts == self.tv(),
                p0 == old(self).p(),
                self.pos >= p0,
                call_args(ts, p0) == args_rest(ts, self.p(), exprs_v(args@)),
                exprs_filled_from(exprs_v(args@), 0),
            decreases rem(ts, self.p()),
        {
            let a = match self.parse_expr(0) {
                Ok(e) => e,
                Err(e) => return Err(e),
            };
            proof {
                lemma_exprs_push(args@, a);
            }
            args.push(a);
            if self.at(&TokenKind::Comma) {
                self.advance();
            } else {
                return Ok(args);
            }
        }
    }

    /// Expressions until `close` (or, with `stop_at_eof`, the end of input),
    /// each optionally followed by a comma.
    fn parse_expr_list(&mut self, close: TokenKind, stop_at_eof: bool) -> (r: Result<
        Vec<Expr>,
        ParseError,
    >)
        requires
            old(self).wf(),
            close.is_simple(),
        ensures
            final(self).wf(),
            final(self).tokens@ == old(self).tokens@,
            match r {
                Ok(x) => succeeded(expr_list(old(self).tv(), old(self).p(), close, stop_at_eof, Seq::empty()), exprs_v(x@), final(self).p()) && final(self).pos >= old(self).pos,
                Err(e) => failed(expr_list(old(self).tv(), old(self).p(), close, stop_at_eof, Seq::empty()), e@),
            },
            r matches Ok(x) ==> exprs_filled_from(exprs_v(x@), 0),
        decreases rem(old(self).tv(), old(self).p()), 6int,
    {
        let mut items: Vec<Expr> = Vec::new();
        proof {
            lemma_exprs_empty();
        }
        let ghost p0 = self.p();
        let ghost ts = self.tv();
        loop
            invariant
                self.wf(),
                self.tokens@ == old(self).tokens@,
                ts == self.tv(),
                p0 == old(self).p(),
                close.is_simple(),
                self.pos >= p0,
                expr_list(ts, p0, close, stop_at_eof, Seq::empty()) == expr_list(
                    ts,
                    self.p(),
                    close,
                    stop_at_eof,
                    exprs_v(items@),
                ),
                exprs_filled_from(exprs_v(items@), 0),
            decreases rem(ts, self.p()),
        {
            if self.at(&close) || (stop_at_eof && self.at(&TokenKind::Eof)) {
                return Ok(items);
            }
            let a = match self.parse_expr(0) {
                Ok(e) => e,
                Err(e) => return Err(e),
            };
            proof {
                lemma_exprs_push(items@, a);
            }
            items.push(a);
            if self.at(&TokenKind::Comma) {
                self.advance();
            }
        }
    }

    /// Struct literal fields until `}` or the end of input.
    fn parse_struct_fields(&mut self) -> (r: Result<Vec<(String, Expr)>, ParseError>)
        requires
            old(self).wf(),
        ensures
            final(self).wf(),
            final(self).tokens@ == old(self).tokens@,
            match r {
                Ok(x) => succeeded(struct_fields(old(self).tv(), old(self).p(), Seq::empty()), fields_v(x@), final(self).p()) && final(self).pos >= old(self).pos,
                Err(e) => failed(struct_fields(old(self).tv(), old(self).p(), Seq::empty()), e@),
            },
            r matches Ok(x) ==> fields_filled_from(fields_v(x@), 0),
        decreases rem(old(self).tv(), old(self).p()), 6int,
    {
        let mut fields: Vec<(String, Expr)> = Vec::new();
        assert(fields_v(fields@) =~= Seq::empty());
        let ghost p0 = self.p();
        let ghost ts = self.tv();
        loop
            invariant
                self.wf(),
                self.tokens@ == old(self).tokens@,
                ts == self.tv(),
                p0 == old(self).p(),
                self.pos >= p0,
                struct_fields(ts, p0, Seq::empty()) == struct_fields(
                    ts,
                    self.p(),
                    fields_v(fields@),
                ),
                fields_filled_from(fields_v(fields@), 0),
            decreases rem(ts, self.p()),
        {
            if self.at(&TokenKind::RBrace) || self.at(&TokenKind::Eof) {
                return Ok(fields);
            }
            let (name, _) = match self.expect_ident() {
                Ok(v) => v,
                Err(e) => return Err(e),
            };
            match self.expect(TokenKind::Colon) {
                Ok(_) => {},
                Err(e) => return Err(e),
            }
            let v = match self.parse_expr(0) {
                Ok(e) => e,
                Err(e) => return Err(e),
            };
            let f = (name, v);
            proof {
                lemma_fields_push(fields@, f);
            }
            fields.push(f);
            if self.at(&TokenKind::Comma) {
                self.advance();
            }
        }
    }
}


/// Whether any segment holds an expression.
spec fn has_expr_part(parts: Seq<PartView>) -> bool {
    exists|i: int| 0 <= i < parts.len() && parts[i] is Expr
}

/// Desugaring fails exactly when a segment holds an expression.
proof fn lemma_desugar_expr_part(parts: Seq<PartView>, span: SpanV)
    ensures
        has_expr_part(parts) ==> desugar_parts(parts, span) == Err::<ExprV, ParseErrorView>(
            error_span(span, interp_expr_message()),
        ),
        !has_expr_part(parts) ==> desugar_parts(parts, span) is Ok,
    decreases parts.len(),
{
    if parts.len() > 0 {
        lemma_desugar_expr_part(parts.drop_last(), span);
        if has_expr_part(parts) && !(parts.last() is Expr) {
            let i = choose|i: int| 0 <= i < parts.len() && parts[i] is Expr;
            assert(parts.drop_last()[i] is Expr);
        }
        if !has_expr_part(parts) {
            assert(!(parts.last() is Expr)) by {
                if parts.last() is Expr {
                    assert(parts[parts.len() - 1] is Expr);
                }
            }
            assert forall|i: int| 0 <= i < parts.drop_last().len() implies !(
            #[trigger] parts.drop_last()[i] is Expr) by {
                assert(parts.drop_last()[i] == parts[i]);
            }
        }
    }
}

/// An interpolated string as a chain of `+` over its segments.
fn desugar_interpolated_string(parts: &Vec<StringPart>, span: Span) -> (r: Result<
    Expr,
    ParseError,
>)
    ensures
        match r {
            Ok(e) => desugar_parts(parts_view(parts@), span_v(span)) == Ok::<
                ExprV,
                ParseErrorView,
            >(e@),
            Err(e) => desugar_parts(parts_view(parts@), span_v(span)) == Err::<
                ExprV,
                ParseErrorView,
            >(e@),
        },
        r matches Ok(e) ==> expr_filled(e@),
{
    let ghost pv = parts_view(parts@);
    proof {
        lemma_desugar_expr_part(pv, span_v(span));
    }
    let mut result: Option<Expr> = None;
    let mut i: usize = 0;
    while i < parts.len()
        invariant
            0 <= i <= parts@.len(),
            pv == parts_view(parts@),
            i == 0 <==> result is None,
            !has_expr_part(pv.subrange(0, i as int)),
            result matches Some(e) ==> desugar_parts(pv.subrange(0, i as int), span_v(span))
                == Ok::<ExprV, ParseErrorView>(e@),
            result matches Some(e) ==> expr_filled(e@),
            has_expr_part(pv) ==> desugar_parts(pv, span_v(span)) == Err::<ExprV, ParseErrorView>(
                error_span(span_v(span), interp_expr_message()),
            ),
        decreases parts@.len() - i,
    {
        let sp = span.start..span.end;
        let e = match &parts[i] {
            StringPart::Literal(t) => Expr::StringLiteral { value: t.clone(), span: sp },
            StringPart::Ident(n) => Expr::Identifier { name: n.clone(), span: sp },
            StringPart::Expr(_) => {
                assert(pv[i as int] is Expr);
                assert(has_expr_part(pv));
                let m = string_of("expressions in string interpolation are not supported");
                return Err(ParseError::new(m, sp));
            },
        };
        let ghost pre = pv.subrange(0, i as int);
        let ghost next = pv.subrange(0, i + 1);
        let ghost sv = span_v(span);
        let ghost le = match pv[i as int] {
            PartView::Literal(s) => ExprV::StringLiteral { value: s, span: sv },
            PartView::Ident(n) => ExprV::Identifier { name: n, span: sv },
            PartView::Expr(_) => ExprV::StringLiteral { value: Seq::empty(), span: sv },
        };
        assert(pv[i as int] == parts@[i as int]@);
        assert(e@ == le);
        assert(next.drop_last() =~= pre);
        assert(next.last() == pv[i as int]);
        assert(next.len() == i + 1);
        assert(!(pv[i as int] is Expr));
        assert(!has_expr_part(next)) by {
            if has_expr_part(next) {
                let k = choose|k: int| 0 <= k < next.len() && next[k] is Expr;
                if k < i {
                    assert(pre[k] == next[k]);
                }
            }
        }
        result = match result {
            None => {
                assert(i == 0);
                assert(desugar_parts(next, sv) == Ok::<ExprV, ParseErrorView>(le));
                assert(expr_filled(e@));
                Some(e)
            },
            Some(left) => {
                let ghost lv = left@;
                assert(desugar_parts(pre, sv) == Ok::<ExprV, ParseErrorView>(lv));
                let combined = Expr::BinaryOp {
                    left: Box::new(left),
                    op: BinOp::Add,
                    right: Box::new(e),
                    span: span.start..span.end,
                };
                assert(combined@ == ExprV::BinaryOp {
                    left: Box::new(lv),
                    op: BinOp::Add,
                    right: Box::new(le),
                    span: sv,
                });
                assert(desugar_parts(next, sv) == Ok::<ExprV, ParseErrorView>(combined@));
                assert(expr_filled(lv));
                assert(expr_filled(le));
                assert(expr_filled(combined@));
                Some(combined)
            },
        };
        i = i + 1;
    }
    assert(pv.subrange(0, i as int) =~= pv);
    match result {
        Some(e) => Ok(e),
        None => Ok(Expr::StringLiteral { value: String::new(), span }),
    }
}

impl Parser {
    /// A lambda `|x:T ..| R { body }`.
    fn parse_lambda(&mut self) -> (r: Result<Expr, ParseError>)
        requires
            old(self).wf(),
            at(old(self).tv(), old(self).p(), TokenKind::Pipe),
        ensures
            final(self).wf(),
            final(self).tokens@ == old(self).tokens@,
            match r {
                Ok(x) => succeeded(lambda_atom(old(self).tv(), old(self).p()), x@, final(self).p()) && final(self).pos > old(self).pos,
                Err(e) => failed(lambda_atom(old(self).tv(), old(self).p()), e@),
            },
            r matches Ok(x) ==> expr_filled(x@),
        decreases rem(old(self).tv(), old(self).p()), 3int,
    {
        let ghost p0 = self.p();
        let start: usize = self.span_here().start;
        self.advance();
        let params = match self.parse_params() {
            Ok(v) => v,
            Err(e) => return Err(e),
        };
        match self.expect(TokenKind::Pipe) {
            Ok(_v) => _v,
            Err(e) => return Err(e),
        };
        let return_type = match self.parse_type_ref() {
            Ok(v) => v,
            Err(e) => return Err(e),
        };
        match self.expect(TokenKind::LBrace) {
            Ok(_v) => _v,
            Err(e) => return Err(e),
        };
        let (mut body, value) = match self.parse_block_body() {
            Ok(v) => v,
            Err(e) => return Err(e),
        };
        let rb = match self.expect(TokenKind::RBrace) {
            Ok(v) => v,
            Err(e) => return Err(e),
        };
        let ghost bv = stmts_v(body@);
        let ghost ev = value@;
        let ghost old_body = body@;
        body.push(Stmt::Expr(value));
        proof {
            assert(body@.drop_last() =~= old_body);
            assert(stmt_v(body@.last()) == StmtV::Expr(ev));
            assert(stmts_v(body@) == bv.push(StmtV::Expr(ev)));
            lemma_stmts_filled_push(bv, StmtV::Expr(ev));
        }
        let x = Expr::Lambda { params, return_type, body, span: start..rb.end };
        assert(x@ == ExprV::Lambda {
            params: params_v(params@),
            return_type: return_type@,
            body: bv.push(StmtV::Expr(ev)),
            span: (start as int, rb.end as int),
        });
        Ok(x)
    }

    /// `( .. )`: a parenthesized expression, or a tuple of two or more.
    fn parse_paren(&mut self) -> (r: Result<Expr, ParseError>)
        requires
            old(self).wf(),
            at(old(self).tv(), old(self).p(), TokenKind::LParen),
        ensures
            final(self).wf(),
            final(self).tokens@ == old(self).tokens@,
            match r {
                Ok(x) => succeeded(paren_atom(old(self).tv(), old(self).p()), x@, final(self).p()) && final(self).pos > old(self).pos,
                Err(e) => failed(paren_atom(old(self).tv(), old(self).p()), e@),
            },
            r matches Ok(x) ==> expr_filled(x@),
        decreases rem(old(self).tv(), old(self).p()), 3int,
    {
        let start: usize = self.span_here().start;
        self.advance();
        if self.at(&TokenKind::RParen) {
            let got = debug_text(&self.peek().kind);
            let m = concat_str(string_of("unexpected token in expression: "), got.as_str());
            return Err(self.error_here(m));
        }
        let mut elements = match self.parse_expr_list(TokenKind::RParen, true) {
            Ok(v) => v,
            Err(e) => return Err(e),
        };
        let rp = match self.expect(TokenKind::RParen) {
            Ok(v) => v,
            Err(e) => return Err(e),
        };
        proof {
            lemma_exprs_v(elements@);
        }
        if elements.len() == 1 {
            let e = elements.pop().unwrap();
            return Ok(e);
        }
        return Ok(Expr::TupleLiteral { elements, span: start..rp.end });
    }

    #[verifier::rlimit(40)]
    fn parse_atom(&mut self) -> (r: Result<Expr, ParseError>)
        requires
            old(self).wf(),
        ensures
            final(self).wf(),
            final(self).tokens@ == old(self).tokens@,
            match r {
                Ok(x) => succeeded(parse_atom(old(self).tv(), old(self).p()), x@, final(self).p()) && final(self).pos > old(self).pos,
                Err(e) => failed(parse_atom(old(self).tv(), old(self).p()), e@),
            },
            r matches Ok(x) ==> expr_filled(x@),
        decreases rem(old(self).tv(), old(self).p()), 4int,
    {
        let ghost ts = self.tv();
        let ghost p0 = self.p();
        let sp = self.span_here();
        let start: usize = sp.start;
        assert(self.tv()[self.p()] == self.tokens@[self.p()]@);
        match &self.tokens[self.pos].kind {
            TokenKind::IntLiteral(v) => {
                let value: i64 = *v;
                self.advance();
                return Ok(Expr::IntLiteral { value, span: sp });
            },
            TokenKind::FloatLiteral(t) => {
                let value = t.clone();
                self.advance();
                return Ok(Expr::FloatLiteral { value, span: sp });
            },
            TokenKind::StringLiteral(t) => {
                let value = t.clone();
                self.advance();
                return Ok(Expr::StringLiteral { value, span: sp });
            },
            TokenKind::InterpolatedString(parts) => {
                let d = desugar_interpolated_string(parts, sp);
                self.advance();
                return d;
            },
            TokenKind::Identifier(_) => {
                return self.parse_name_atom();
            },
            _ => {},
        }
        if self.at(&TokenKind::SelfValue) {
            self.advance();
            return Ok(Expr::Identifier { name: string_of("self"), span: sp });
        }
        if self.at(&TokenKind::True) {
            self.advance();
            return Ok(Expr::BoolLiteral { value: true, span: sp });
        }
        if self.at(&TokenKind::False) {
            self.advance();
            return Ok(Expr::BoolLiteral { value: false, span: sp });
        }
        if self.at(&TokenKind::If) {
            return self.parse_if_expr();
        }
        if self.at(&TokenKind::Match) {
            return self.parse_match_expr();
        }
        if self.at(&TokenKind::Bang) || self.at(&TokenKind::Minus) {
            let op = if self.at(&TokenKind::Bang) {
                UnaryOp::Not
            } else {
                UnaryOp::Neg
            };
            self.advance();
            let operand = match self.parse_expr(13) {
            Ok(v) => v,
            Err(e) => return Err(e),
        };
            let end: usize = span_of(&operand).end;
            return Ok(Expr::UnaryOp { op, operand: Box::new(operand), span: start..end });
        }
        if self.at(&TokenKind::Spawn) {
            self.advance();
            let (function, _) = match self.expect_ident() {
            Ok(v) => v,
            Err(e) => return Err(e),
        };
            match self.expect(TokenKind::LParen) {
            Ok(_v) => _v,
            Err(e) => return Err(e),
        };
            let args = match self.parse_expr_list(TokenKind::RParen, false) {
            Ok(v) => v,
            Err(e) => return Err(e),
        };
            let rp = match self.expect(TokenKind::RParen) {
            Ok(v) => v,
            Err(e) => return Err(e),
        };
            return Ok(Expr::Spawn { function, args, span: start..rp.end });
        }
        if self.at(&TokenKind::Array) {
            self.advance();
            match self.expect(TokenKind::Lt) {
            Ok(_v) => _v,
            Err(e) => return Err(e),
        };
            let tn = match self.parse_type_ref() {
            Ok(v) => v,
            Err(e) => return Err(e),
        };
            match self.expect(TokenKind::Gt) {
            Ok(_v) => _v,
            Err(e) => return Err(e),
        };
            match self.expect(TokenKind::LParen) {
            Ok(_v) => _v,
            Err(e) => return Err(e),
        };
            let rp = match self.expect(TokenKind::RParen) {
            Ok(v) => v,
            Err(e) => return Err(e),
        };
            return Ok(Expr::ArrayCreate { element_type: tn, span: start..rp.end });
        }
        if self.at(&TokenKind::Mutex) {
            self.advance();
            match self.expect(TokenKind::LParen) {
            Ok(_v) => _v,
            Err(e) => return Err(e),
        };
            let value = match self.parse_expr(0) {
            Ok(v) => v,
            Err(e) => return Err(e),
        };
            let rp = match self.expect(TokenKind::RParen) {
            Ok(v) => v,
            Err(e) => return Err(e),
        };
            return Ok(Expr::MutexCreate { value: Box::new(value), span: start..rp.end });
        }
        if self.at(&TokenKind::Channel) {
            self.advance();
            match self.expect(TokenKind::Lt) {
            Ok(_v) => _v,
            Err(e) => return Err(e),
        };
            let tn = match self.parse_type_ref() {
            Ok(v) => v,
            Err(e) => return Err(e),
        };
            match self.expect(TokenKind::Gt) {
            Ok(_v) => _v,
            Err(e) => return Err(e),
        };
            match self.expect(TokenKind::LParen) {
            Ok(_v) => _v,
            Err(e) => return Err(e),
        };
            let capacity = if !self.at(&TokenKind::RParen) {
                let c = match self.parse_expr(0) {
            Ok(v) => v,
            Err(e) => return Err(e),
        };
                Some(Box::new(c))
            } else {
                None
            };
            let rp = match self.expect(TokenKind::RParen) {
            Ok(v) => v,
            Err(e) => return Err(e),
        };
            return Ok(Expr::ChannelCreate { element_type: tn, capacity, span: start..rp.end });
        }
        if self.at(&TokenKind::LParen) {
            return self.parse_paren();
        }
        if self.at(&TokenKind::Pipe) {
            return self.parse_lambda();
        }
        if self.at(&TokenKind::LBracket) {
            self.advance();
            let elements = match self.parse_expr_list(TokenKind::RBracket, true) {
            Ok(v) => v,
            Err(e) => return Err(e),
        };
            let rb = match self.expect(TokenKind::RBracket) {
            Ok(v) => v,
            Err(e) => return Err(e),
        };
            if elements.len() == 0 {
                let m = string_of("empty array literal not allowed; use array<T>() for empty arrays");
                return Err(ParseError::new(m, start..rb.end));
            }
            return Ok(Expr::ArrayLiteral { elements, span: start..rb.end });
        }
        let got = debug_text(&self.peek().kind);
        let m = concat_str(string_of("unexpected token in expression: "), got.as_str());
        Err(self.error_here(m))
    }

    /// An atom that starts with an identifier: a name, call, enum variant or
    /// struct literal.
    fn parse_name_atom(&mut self) -> (r: Result<Expr, ParseError>)
        requires
            old(self).wf(),
            old(self).tv()[old(self).p()].kind is Ident,
        ensures
            final(self).wf(),
            final(self).tokens@ == old(self).tokens@,
            match r {
                Ok(x) => succeeded(parse_atom(old(self).tv(), old(self).p()), x@, final(self).p()) && final(self).pos > old(self).pos,
                Err(e) => failed(parse_atom(old(self).tv(), old(self).p()), e@),
            },
            r matches Ok(x) ==> expr_filled(x@),
        decreases rem(old(self).tv(), old(self).p()), 3int,
    {
        let (name, name_span) = match self.expect_ident() {
            Ok(v) => v,
            Err(e) => return Err(e),
        };
        let start: usize = name_span.start;
        if self.at(&TokenKind::ColonColon) {
            self.advance();
            let (variant_name, vspan) = match self.expect_ident() {
            Ok(v) => v,
            Err(e) => return Err(e),
        };
            if self.at(&TokenKind::LParen) {
                self.advance();
                let args = match self.parse_call_args() {
            Ok(v) => v,
            Err(e) => return Err(e),
        };
                let rp = match self.expect(TokenKind::RParen) {
            Ok(v) => v,
            Err(e) => return Err(e),
        };
                return Ok(Expr::EnumVariant { enum_name: name, variant_name, args, span: start..rp.end });
            }
            proof {
                lemma_exprs_empty();
            }
            return Ok(
                Expr::EnumVariant {
                    enum_name: name,
                    variant_name,
                    args: Vec::new(),
                    span: start..vspan.end,
                },
            );
        }
        if self.at(&TokenKind::LParen) {
            self.advance();
            let args = match self.parse_call_args() {
            Ok(v) => v,
            Err(e) => return Err(e),
        };
            let rp = match self.expect(TokenKind::RParen) {
            Ok(v) => v,
            Err(e) => return Err(e),
        };
            return Ok(Expr::Call { function: name, args, span: start..rp.end });
        }
        if self.at(&TokenKind::LBrace) && first_is_uppercase(&name) {
            self.advance();
            let fields = match self.parse_struct_fields() {
            Ok(v) => v,
            Err(e) => return Err(e),
        };
            let rb = match self.expect(TokenKind::RBrace) {
            Ok(v) => v,
            Err(e) => return Err(e),
        };
            return Ok(Expr::StructLiteral { name, fields, span: start..rb.end });
        }
        Ok(Expr::Identifier { name, span: name_span })
    }

    fn parse_if_expr(&mut self) -> (r: Result<Expr, ParseError>)
        requires
            old(self).wf(),
        ensures
            final(self).wf(),
            final(self).tokens@ == old(self).tokens@,
            match r {
                Ok(x) => succeeded(parse_if_expr(old(self).tv(), old(self).p()), x@, final(self).p()) && final(self).pos > old(self).pos,
                Err(e) => failed(parse_if_expr(old(self).tv(), old(self).p()), e@),
            },
            r matches Ok(x) ==> expr_filled(x@),
        decreases rem(old(self).tv(), old(self).p()), 3int,
    {
        let it = match self.expect(TokenKind::If) {
            Ok(v) => v,
            Err(e) => return Err(e),
        };
        let cond = match self.parse_expr(0) {
            Ok(v) => v,
            Err(e) => return Err(e),
        };
        match self.expect(TokenKind::LBrace) {
            Ok(_v) => _v,
            Err(e) => return Err(e),
        };
        self.parse_if_else_rest(it.start, cond)
    }

    /// The branches of an if/else expression, after the first `{`.
    fn parse_if_else_rest(&mut self, start: usize, cond: Expr) -> (r: Result<Expr, ParseError>)
        requires
            old(self).wf(),
            expr_filled(cond@),
        ensures
            final(self).wf(),
            final(self).tokens@ == old(self).tokens@,
            match r {
                Ok(x) => succeeded(if_else_rest(old(self).tv(), old(self).p(), start as int, cond@), x@, final(self).p()) && final(self).pos > old(self).pos,
                Err(e) => failed(if_else_rest(old(self).tv(), old(self).p(), start as int, cond@), e@),
            },
            r matches Ok(x) ==> expr_filled(x@),
        decreases rem(old(self).tv(), old(self).p()), 10int,
    {
        let (then_body, then_expr) = match self.parse_block_body() {
            Ok(v) => v,
            Err(e) => return Err(e),
        };
        match self.expect(TokenKind::RBrace) {
            Ok(_v) => _v,
            Err(e) => return Err(e),
        };
        match self.expect(TokenKind::Else) {
            Ok(_v) => _v,
            Err(e) => return Err(e),
        };
        match self.expect(TokenKind::LBrace) {
            Ok(_v) => _v,
            Err(e) => return Err(e),
        };
        let (else_body, else_expr) = match self.parse_block_body() {
            Ok(v) => v,
            Err(e) => return Err(e),
        };
        let rb = match self.expect(TokenKind::RBrace) {
            Ok(v) => v,
            Err(e) => return Err(e),
        };
        Ok(
            Expr::If {
                condition: Box::new(cond),
                then_body,
                then_expr: Box::new(then_expr),
                else_body,
                else_expr: Box::new(else_expr),
                span: start..rb.end,
            },
        )
    }

    fn parse_pattern(&mut self) -> (r: Result<Pattern, ParseError>)
        requires
            old(self).wf(),
        ensures
            final(self).wf(),
            final(self).tokens@ == old(self).tokens@,
            match r {
                Ok(x) => succeeded(pattern(old(self).tv(), old(self).p()), x@, final(self).p()) && final(self).pos > old(self).pos,
                Err(e) => failed(pattern(old(self).tv(), old(self).p()), e@),
            },
    {
        let (enum_name, espan) = match self.expect_ident() {
            Ok(v) => v,
            Err(e) => return Err(e),
        };
        match self.expect(TokenKind::ColonColon) {
            Ok(_v) => _v,
            Err(e) => return Err(e),
        };
        let (variant_name, vspan) = match self.expect_ident() {
            Ok(v) => v,
            Err(e) => return Err(e),
        };
        let mut binds: Vec<String> = Vec::new();
        assert(strings_v(binds@) =~= Seq::empty());
        if !self.at(&TokenKind::LParen) {
            return Ok(
                Pattern::EnumVariant {
                    enum_name,
                    variant_name,
                    bindings: binds,
                    span: espan.start..vspan.end,
                },
            );
        }
        self.advance();
        let ghost p0 = self.p();
        let ghost ts = self.tv();
        loop
            invariant
                self.wf(),
                self.tokens@ == old(self).tokens@,
                ts == self.tv(),
                self.pos >= p0,
                p0 > old(self).p(),
                at(ts, p0 - 1, TokenKind::LParen),
                pattern(ts, old(self).p()) == match bindings(ts, p0, Seq::empty()) {
                    Err(e) => Err(e),
                    Ok((bs, p4)) => match expect(ts, p4, TokenKind::RParen) {
                        Err(e) => Err(e),
                        Ok((rp, p5)) => Ok(
                            (
                                PatternV {
                                    enum_name: enum_name@,
                                    variant_name: variant_name@,
                                    bindings: bs,
                                    span: (espan.start as int, rp.end),
                                },
                                p5,
                            ),
                        ),
                    },
                },
                bindings(ts, p0, Seq::empty()) == bindings(ts, self.p(), strings_v(binds@)),
            decreases rem(ts, self.p()),
        {
            if self.at(&TokenKind::RParen) {
                let rp = match self.expect(TokenKind::RParen) {
                    Ok(v) => v,
                    Err(e) => return Err(e),
                };
                return Ok(
                    Pattern::EnumVariant {
                        enum_name,
                        variant_name,
                        bindings: binds,
                        span: espan.start..rp.end,
                    },
                );
            }
            let (b, _) = match self.expect_ident() {
                Ok(v) => v,
                Err(e) => return Err(e),
            };
            let ghost before = binds@;
            binds.push(b);
            assert(strings_v(binds@) =~= strings_v(before).push(b@));
            if self.at(&TokenKind::Comma) {
                self.advance();
            }
        }
    }

    fn parse_match_arm(&mut self) -> (r: Result<MatchArm, ParseError>)
        requires
            old(self).wf(),
        ensures
            final(self).wf(),
            final(self).tokens@ == old(self).tokens@,
            match r {
                Ok(x) => succeeded(match_arm(old(self).tv(), old(self).p()), x@, final(self).p()) && final(self).pos > old(self).pos,
                Err(e) => failed(match_arm(old(self).tv(), old(self).p()), e@),
            },
            r matches Ok(x) ==> expr_filled(x.body@),
        decreases rem(old(self).tv(), old(self).p()), 2int,
    {
        let pattern = match self.parse_pattern() {
            Ok(v) => v,
            Err(e) => return Err(e),
        };
        let pattern_start: usize = match &pattern {
            Pattern::EnumVariant { span, .. } => span.start,
        };
        match self.expect(TokenKind::FatArrow) {
            Ok(_v) => _v,
            Err(e) => return Err(e),
        };
        let body = match self.parse_expr(0) {
            Ok(v) => v,
            Err(e) => return Err(e),
        };
        let end: usize = span_of(&body).end;
        Ok(MatchArm { pattern, body, span: pattern_start..end })
    }

    fn parse_match_expr(&mut self) -> (r: Result<Expr, ParseError>)
        requires
            old(self).wf(),
        ensures
            final(self).wf(),
            final(self).tokens@ == old(self).tokens@,
            match r {
                Ok(x) => succeeded(parse_match_expr(old(self).tv(), old(self).p()), x@, final(self).p()) && final(self).pos > old(self).pos,
                Err(e) => failed(parse_match_expr(old(self).tv(), old(self).p()), e@),
            },
            r matches Ok(x) ==> expr_filled(x@),
        decreases rem(old(self).tv(), old(self).p()), 3int,
    {
        let mt = match self.expect(TokenKind::Match) {
            Ok(v) => v,
            Err(e) => return Err(e),
        };
        let scrutinee = match self.parse_expr(0) {
            Ok(v) => v,
            Err(e) => return Err(e),
        };
        match self.expect(TokenKind::LBrace) {
            Ok(_v) => _v,
            Err(e) => return Err(e),
        };
        let mut arms: Vec<MatchArm> = Vec::new();
        let ghost p0 = self.p();
        let ghost ts = self.tv();
        assert(arms_v(arms@) =~= Seq::empty());
        loop
            invariant
                self.wf(),
                self.tokens@ == old(self).tokens@,
                ts == self.tv(),
                self.pos >= p0,
                p0 > old(self).p(),
                parse_match_expr(ts, old(self).p()) == match match_arms(ts, p0, Seq::empty()) {
                    Err(e) => Err(e),
                    Ok((arms, p4)) => match expect(ts, p4, TokenKind::RBrace) {
                        Err(e) => Err(e),
                        Ok((rb, p5)) => Ok(
                            (
                                ExprV::Match {
                                    scrutinee: Box::new(scrutinee@),
                                    arms,
                                    span: (mt.start as int, rb.end),
                                },
                                p5,
                            ),
                        ),
                    },
                },
                match_arms(ts, p0, Seq::empty()) == match_arms(ts, self.p(), arms_v(arms@)),
                arms_filled_from(arms_v(arms@), 0),
                expr_filled(scrutinee@),
            decreases rem(ts, self.p()),
        {
            if self.at(&TokenKind::RBrace) || self.at(&TokenKind::Eof) {
                let rb = match self.expect(TokenKind::RBrace) {
                    Ok(v) => v,
                    Err(e) => return Err(e),
                };
                return Ok(Expr::Match { scrutinee: Box::new(scrutinee), arms, span: mt.start..rb.end });
            }
            let arm = match self.parse_match_arm() {
            Ok(v) => v,
            Err(e) => return Err(e),
        };
            proof {
                lemma_arms_push(arms@, arm);
            }
            arms.push(arm);
            if self.at(&TokenKind::Comma) {
                self.advance();
            }
        }
    }

    /// The inside of a `{ ... }` block: statements and a final expression.
    fn parse_block_body(&mut self) -> (r: Result<(Vec<Stmt>, Expr), ParseError>)
        requires
            old(self).wf(),
        ensures
            final(self).wf(),
            final(self).tokens@ == old(self).tokens@,
            match r {
                Ok(x) => succeeded(block_body(old(self).tv(), old(self).p(), Seq::empty()), (stmts_v(x.0@), x.1@), final(self).p()) && final(self).pos > old(self).pos,
                Err(e) => failed(block_body(old(self).tv(), old(self).p(), Seq::empty()), e@),
            },
            r matches Ok(x) ==> stmts_filled_from(stmts_v(x.0@), 0) && expr_filled(x.1@),
        decreases rem(old(self).tv(), old(self).p()), 9int,
    {
        let mut stmts: Vec<Stmt> = Vec::new();
        let ghost p0 = self.p();
        let ghost ts = self.tv();
        assert(stmts_v(stmts@) =~= Seq::empty());
        loop
            invariant
                self.wf(),
                self.tokens@ == old(self).tokens@,
                ts == self.tv(),
                p0 == old(self).p(),
                self.pos >= p0,
                block_body(ts, p0, Seq::empty()) == block_body(ts, self.p(), stmts_v(stmts@)),
                stmts_filled_from(stmts_v(stmts@), 0),
            decreases rem(ts, self.p()),
        {
            if self.at(&TokenKind::RBrace) || self.at(&TokenKind::Eof) {
                let m = string_of("expected expression in block");
                return Err(self.error_here(m));
            }
            let stmt = match self.parse_stmt() {
            Ok(v) => v,
            Err(e) => return Err(e),
        };
            if self.at(&TokenKind::RBrace) {
                match stmt {
                    Stmt::Expr(e) => return Ok((stmts, e)),
                    other => {
                        let m = string_of("block must end with an expression, not a statement");
                        let sp = stmt_span_of(&other);
                        return Err(ParseError::new(m, sp));
                    },
                }
            }
            proof {
                lemma_stmts_push(stmts@, stmt);
            }
            stmts.push(stmt);
        }
    }

    /// Statements until `}` or the end of input.
    fn parse_body(&mut self) -> (r: Result<Vec<Stmt>, ParseError>)
        requires
            old(self).wf(),
        ensures
            final(self).wf(),
            final(self).tokens@ == old(self).tokens@,
            match r {
                Ok(x) => succeeded(body(old(self).tv(), old(self).p(), Seq::empty()), stmts_v(x@), final(self).p()) && final(self).pos >= old(self).pos,
                Err(e) => failed(body(old(self).tv(), old(self).p(), Seq::empty()), e@),
            },
            r matches Ok(x) ==> stmts_filled_from(stmts_v(x@), 0),
        decreases rem(old(self).tv(), old(self).p()), 9int,
    {
        let mut stmts: Vec<Stmt> = Vec::new();
        let ghost p0 = self.p();
        let ghost ts = self.tv();
        assert(stmts_v(stmts@) =~= Seq::empty());
        loop
            invariant
                self.wf(),
                self.tokens@ == old(self).tokens@,
                ts == self.tv(),
                p0 == old(self).p(),
                self.pos >= p0,
                body(ts, p0, Seq::empty()) == body(ts, self.p(), stmts_v(stmts@)),
                stmts_filled_from(stmts_v(stmts@), 0),
            decreases rem(ts, self.p()),
        {
            if self.at(&TokenKind::RBrace) || self.at(&TokenKind::Eof) {
                return Ok(stmts);
            }
            let stmt = match self.parse_stmt() {
            Ok(v) => v,
            Err(e) => return Err(e),
        };
            proof {
                lemma_stmts_push(stmts@, stmt);
            }
            stmts.push(stmt);
        }
    }

    fn parse_stmt(&mut self) -> (r: Result<Stmt, ParseError>)
        requires
            old(self).wf(),
        ensures
            final(self).wf(),
            final(self).tokens@ == old(self).tokens@,
            match r {
                Ok(x) => succeeded(parse_stmt(old(self).tv(), old(self).p()), x@, final(self).p()) && final(self).pos > old(self).pos,
                Err(e) => failed(parse_stmt(old(self).tv(), old(self).p()), e@),
            },
            r matches Ok(x) ==> stmt_filled(stmt_v(x)),
        decreases rem(old(self).tv(), old(self).p()), 8int,
    {
        if self.at(&TokenKind::Let) {
            return self.parse_let();
        }
        if self.at(&TokenKind::While) {
            return self.parse_while();
        }
        if self.at(&TokenKind::Return) {
            return self.parse_return();
        }
        if self.at(&TokenKind::If) {
            return self.parse_if_or_if_else();
        }
        if self.at(&TokenKind::For) {
            return self.parse_for();
        }
        let expr = match self.parse_expr(0) {
            Ok(v) => v,
            Err(e) => return Err(e),
        };
        if self.at(&TokenKind::Eq) {
            match expr {
                Expr::Identifier { name, span: id_span } => {
                    self.advance();
                    let value = match self.parse_expr(0) {
            Ok(v) => v,
            Err(e) => return Err(e),
        };
                    let end: usize = span_of(&value).end;
                    return Ok(Stmt::Assign { name, value, span: id_span.start..end });
                },
                other => {
                    let m = string_of("left side of assignment must be a variable name");
                    return Err(ParseError::new(m, span_of(&other)));
                },
            }
        }
        Ok(Stmt::Expr(expr))
    }

    fn parse_for(&mut self) -> (r: Result<Stmt, ParseError>)
        requires
            old(self).wf(),
            at(old(self).tv(), old(self).p(), TokenKind::For),
        ensures
            final(self).wf(),
            final(self).tokens@ == old(self).tokens@,
            match r {
                Ok(x) => succeeded(parse_for(old(self).tv(), old(self).p()), x@, final(self).p()) && final(self).pos > old(self).pos,
                Err(e) => failed(parse_for(old(self).tv(), old(self).p()), e@),
            },
            r matches Ok(x) ==> stmt_filled(stmt_v(x)),
        decreases rem(old(self).tv(), old(self).p()), 7int,
    {
        let start: usize = self.span_here().start;
        self.advance();
        assert(self.tv()[self.p()] == self.tokens@[self.p()]@);
        let var = match &self.tokens[self.pos].kind {
            TokenKind::Identifier(name) => name.clone(),
            _ => {
                let m = string_of("expected variable name after 'for'");
                return Err(self.error_here(m));
            },
        };
        self.advance();
        match self.expect(TokenKind::In) {
            Ok(_v) => _v,
            Err(e) => return Err(e),
        };
        let iterable = match self.parse_expr(0) {
            Ok(v) => v,
            Err(e) => return Err(e),
        };
        match self.expect(TokenKind::LBrace) {
            Ok(_v) => _v,
            Err(e) => return Err(e),
        };
        let body = match self.parse_body() {
            Ok(v) => v,
            Err(e) => return Err(e),
        };
        match self.expect(TokenKind::RBrace) {
            Ok(_v) => _v,
            Err(e) => return Err(e),
        };
        let end: usize = self.prev_span().end;
        Ok(Stmt::ForIn { var, iterable, body, span: start..end })
    }

    fn parse_let(&mut self) -> (r: Result<Stmt, ParseError>)
        requires
            old(self).wf(),
        ensures
            final(self).wf(),
            final(self).tokens@ == old(self).tokens@,
            match r {
                Ok(x) => succeeded(parse_let(old(self).tv(), old(self).p()), x@, final(self).p()) && final(self).pos > old(self).pos,
                Err(e) => failed(parse_let(old(self).tv(), old(self).p()), e@),
            },
            r matches Ok(x) ==> stmt_filled(stmt_v(x)),
        decreases rem(old(self).tv(), old(self).p()), 7int,
    {
        let lt = match self.expect(TokenKind::Let) {
            Ok(v) => v,
            Err(e) => return Err(e),
        };
        if self.at(&TokenKind::LParen) {
            self.advance();
            self.parse_let_destructure(lt.start)
        } else {
            self.parse_let_binding(lt.start)
        }
    }

    fn parse_let_destructure(&mut self, start: usize) -> (r: Result<Stmt, ParseError>)
        requires
            old(self).wf(),
        ensures
            final(self).wf(),
            final(self).tokens@ == old(self).tokens@,
            match r {
                Ok(x) => succeeded(let_destructure(old(self).tv(), old(self).p(), start as int), x@, final(self).p()) && final(self).pos > old(self).pos,
                Err(e) => failed(let_destructure(old(self).tv(), old(self).p(), start as int), e@),
            },
            r matches Ok(x) ==> stmt_filled(stmt_v(x)),
        decreases rem(old(self).tv(), old(self).p()), 6int,
    {
        let (name1, _) = match self.expect_ident() {
            Ok(v) => v,
            Err(e) => return Err(e),
        };
        match self.expect(TokenKind::Comma) {
            Ok(_v) => _v,
            Err(e) => return Err(e),
        };
        let (name2, _) = match self.expect_ident() {
            Ok(v) => v,
            Err(e) => return Err(e),
        };
        match self.expect(TokenKind::RParen) {
            Ok(_v) => _v,
            Err(e) => return Err(e),
        };
        match self.expect(TokenKind::Eq) {
            Ok(_v) => _v,
            Err(e) => return Err(e),
        };
        let value = match self.parse_expr(0) {
            Ok(v) => v,
            Err(e) => return Err(e),
        };
        Ok(destructure_stmt(name1, name2, value, start))
    }

    fn parse_let_binding(&mut self, start: usize) -> (r: Result<Stmt, ParseError>)
        requires
            old(self).wf(),
        ensures
            final(self).wf(),
            final(self).tokens@ == old(self).tokens@,
            match r {
                Ok(x) => succeeded(let_binding(old(self).tv(), old(self).p(), start as int), x@, final(self).p()) && final(self).pos > old(self).pos,
                Err(e) => failed(let_binding(old(self).tv(), old(self).p(), start as int), e@),
            },
            r matches Ok(x) ==> stmt_filled(stmt_v(x)),
        decreases rem(old(self).tv(), old(self).p()), 6int,
    {
        let mutable = self.at(&TokenKind::Mut);
        if mutable {
            self.advance();
        }
        let (name, _) = match self.expect_ident() {
            Ok(v) => v,
            Err(e) => return Err(e),
        };
        let ty_name = if !self.at(&TokenKind::Eq) {
            let t = match self.parse_type_ref() {
                Ok(v) => v,
                Err(e) => return Err(e),
            };
            Some(t)
        } else {
            None
        };
        match self.expect(TokenKind::Eq) {
            Ok(_v) => _v,
            Err(e) => return Err(e),
        };
        let value = match self.parse_expr(0) {
            Ok(v) => v,
            Err(e) => return Err(e),
        };
        let end: usize = span_of(&value).end;
        Ok(Stmt::Let { name, mutable, ty_name, value, span: start..end })
    }

    fn parse_while(&mut self) -> (r: Result<Stmt, ParseError>)
        requires
            old(self).wf(),
        ensures
            final(self).wf(),
            final(self).tokens@ == old(self).tokens@,
            match r {
                Ok(x) => succeeded(parse_while(old(self).tv(), old(self).p()), x@, final(self).p()) && final(self).pos > old(self).pos,
                Err(e) => failed(parse_while(old(self).tv(), old(self).p()), e@),
            },
            r matches Ok(x) ==> stmt_filled(stmt_v(x)),
        decreases rem(old(self).tv(), old(self).p()), 7int,
    {
        let wt = match self.expect(TokenKind::While) {
            Ok(v) => v,
            Err(e) => return Err(e),
        };
        let condition = match self.parse_expr(0) {
            Ok(v) => v,
            Err(e) => return Err(e),
        };
        match self.expect(TokenKind::LBrace) {
            Ok(_v) => _v,
            Err(e) => return Err(e),
        };
        let body = match self.parse_body() {
            Ok(v) => v,
            Err(e) => return Err(e),
        };
        let rb = match self.expect(TokenKind::RBrace) {
            Ok(v) => v,
            Err(e) => return Err(e),
        };
        Ok(Stmt::While { condition, body, span: wt.start..rb.end })
    }

    fn parse_return(&mut self) -> (r: Result<Stmt, ParseError>)
        requires
            old(self).wf(),
        ensures
            final(self).wf(),
            final(self).tokens@ == old(self).tokens@,
            match r {
                Ok(x) => succeeded(parse_return(old(self).tv(), old(self).p()), x@, final(self).p()) && final(self).pos > old(self).pos,
                Err(e) => failed(parse_return(old(self).tv(), old(self).p()), e@),
            },
            r matches Ok(x) ==> stmt_filled(stmt_v(x)),
        decreases rem(old(self).tv(), old(self).p()), 7int,
    {
        let rt = match self.expect(TokenKind::Return) {
            Ok(v) => v,
            Err(e) => return Err(e),
        };
        let value = match self.parse_expr(0) {
            Ok(v) => v,
            Err(e) => return Err(e),
        };
        let end: usize = span_of(&value).end;
        Ok(Stmt::Return { value, span: rt.start..end })
    }

    /// Whether the block whose `{` was just consumed is followed by `else`.
    fn peek_has_else_after_block(&self) -> (r: bool)
        requires
            self.wf(),
        ensures
            r == else_after_block(self.tv(), self.p(), 1),
    {
        let n: usize = self.tokens.len();
        let mut depth: usize = 1;
        let mut q: usize = self.pos;
        let ghost ts = self.tv();
        while q < n
            invariant
                n == self.tokens@.len(),
                ts == self.tv(),
                self.wf(),
                self.pos <= q <= n,
                1 <= depth <= q - self.pos + 1,
                else_after_block(ts, self.p(), 1) == else_after_block(ts, q as int, depth as nat),
            decreases n - q,
        {
            assert(ts[q as int] == self.tokens@[q as int]@);
            let k = &self.tokens[q].kind;
            if kind_is(k, &TokenKind::LBrace) {
                depth = depth + 1;
            } else if kind_is(k, &TokenKind::RBrace) {
                if depth <= 1 {
                    if q + 1 < n {
                        assert(ts[q + 1] == self.tokens@[q + 1]@);
                        return kind_is(&self.tokens[q + 1].kind, &TokenKind::Else);
                    }
                    return false;
                }
                depth = depth - 1;
            } else if kind_is(k, &TokenKind::Eof) {
                return false;
            }
            q = q + 1;
        }
        false
    }

    fn parse_if_or_if_else(&mut self) -> (r: Result<Stmt, ParseError>)
        requires
            old(self).wf(),
        ensures
            final(self).wf(),
            final(self).tokens@ == old(self).tokens@,
            match r {
                Ok(x) => succeeded(parse_if_stmt(old(self).tv(), old(self).p()), x@, final(self).p()) && final(self).pos > old(self).pos,
                Err(e) => failed(parse_if_stmt(old(self).tv(), old(self).p()), e@),
            },
            r matches Ok(x) ==> stmt_filled(stmt_v(x)),
        decreases rem(old(self).tv(), old(self).p()), 7int,
    {
        let it = match self.expect(TokenKind::If) {
            Ok(v) => v,
            Err(e) => return Err(e),
        };
        let condition = match self.parse_expr(0) {
            Ok(v) => v,
            Err(e) => return Err(e),
        };
        match self.expect(TokenKind::LBrace) {
            Ok(_v) => _v,
            Err(e) => return Err(e),
        };
        if self.peek_has_else_after_block() {
            let e = match self.parse_if_else_rest(it.start, condition) {
            Ok(v) => v,
            Err(e) => return Err(e),
        };
            Ok(Stmt::Expr(e))
        } else {
            let body = match self.parse_body() {
            Ok(v) => v,
            Err(e) => return Err(e),
        };
            let rb = match self.expect(TokenKind::RBrace) {
            Ok(v) => v,
            Err(e) => return Err(e),
        };
            Ok(Stmt::If { condition, body, span: it.start..rb.end })
        }
    }
}

/// Whether a name starts with an uppercase character.
fn first_is_uppercase(name: &String) -> (r: bool)
    ensures
        r == starts_upper(name@),
{
    match first_char(name.as_str()) {
        Some(c) => char_is_uppercase(c),
        None => false,
    }
}


/// The module name of an import path: the text after its last `/`.
fn module_name(path: &str) -> (r: String)
    ensures
        r@ == module_name_of(path@),
{
    let bytes = path.as_bytes();
    let n: usize = bytes.len();
    let ghost b = bytes@;
    assert(b == encode_utf8(path@));
    let mut j: usize = n;
    while j > 0 && bytes[j - 1] != 47u8
        invariant
            j <= n,
            n == b.len(),
            b == bytes@,
            after_last_slash(b, n as int) == after_last_slash(b, j as int),
        decreases j,
    {
        j = j - 1;
    }
    proof {
        encode_utf8_valid_utf8(path@);
        assert(valid_utf8(b));
        if j > 0 {
            lemma_boundary_at_non_continuation(b, j - 1);
            lemma_boundary_after_ascii(b, j - 1);
        }
        lemma_boundary_at_non_continuation(b, n as int);
    }
    text_between(path, j, n)
}

impl Parser {
    fn parse_import(&mut self) -> (r: Result<Import, ParseError>)
        requires
            old(self).wf(),
        ensures
            final(self).wf(),
            final(self).tokens@ == old(self).tokens@,
            match r {
                Ok(x) => succeeded(import_decl(old(self).tv(), old(self).p()), x@, final(self).p()) && final(self).pos > old(self).pos,
                Err(e) => failed(import_decl(old(self).tv(), old(self).p()), e@),
            },
    {
        let it = match self.expect(TokenKind::Import) {
            Ok(v) => v,
            Err(e) => return Err(e),
        };
        let sp = self.span_here();
        assert(self.tv()[self.p()] == self.tokens@[self.p()]@);
        let path = match &self.tokens[self.pos].kind {
            TokenKind::StringLiteral(s) => s.clone(),
            _ => {
                let got = debug_text(&self.peek().kind);
                let m = concat_str(string_of("expected string literal after 'import', got "), got.as_str());
                return Err(self.error_here(m));
            },
        };
        let module_name = module_name(path.as_str());
        if module_name.as_str().is_empty() {
            return Err(self.error_here(string_of("import path must not be empty")));
        }
        self.advance();
        Ok(Import { path, module_name, span: it.start..sp.end })
    }
}


spec fn sfields_v(s: Seq<StructField>) -> Seq<StructFieldV> {
    s.map_values(|x: StructField| x@)
}

spec fn tnames_v(s: Seq<TypeName>) -> Seq<TypeNameV> {
    s.map_values(|x: TypeName| x@)
}

spec fn variants_v(s: Seq<EnumVariant>) -> Seq<EnumVariantV> {
    s.map_values(|x: EnumVariant| x@)
}

spec fn sigs_v(s: Seq<TraitMethodSig>) -> Seq<TraitMethodSigV> {
    s.map_values(|x: TraitMethodSig| x@)
}

spec fn funcs_v(s: Seq<Function>) -> Seq<FunctionV> {
    s.map_values(|x: Function| x@)
}

impl Parser {
    fn parse_function(&mut self) -> (r: Result<Function, ParseError>)
        requires
            old(self).wf(),
        ensures
            final(self).wf(),
            final(self).tokens@ == old(self).tokens@,
            match r {
                Ok(x) => succeeded(function_decl(old(self).tv(), old(self).p()), x@, final(self).p()) && final(self).pos > old(self).pos,
                Err(e) => failed(function_decl(old(self).tv(), old(self).p()), e@),
            },
            r matches Ok(x) ==> stmts_filled_from(x@.body, 0),
    {
        let ft = self.span_here();
        if self.at(&TokenKind::Fn) {
            self.advance();
        }
        let (name, _) = match self.expect_ident() {
            Ok(v) => v,
            Err(e) => return Err(e),
        };
        let type_params = match self.parse_type_params() {
            Ok(v) => v,
            Err(e) => return Err(e),
        };
        match self.expect(TokenKind::LParen) {
            Ok(_v) => _v,
            Err(e) => return Err(e),
        };
        let params = match self.parse_params() {
            Ok(v) => v,
            Err(e) => return Err(e),
        };
        match self.expect(TokenKind::RParen) {
            Ok(_v) => _v,
            Err(e) => return Err(e),
        };
        let return_type = match self.parse_type_ref() {
            Ok(v) => v,
            Err(e) => return Err(e),
        };
        match self.expect(TokenKind::LBrace) {
            Ok(_v) => _v,
            Err(e) => return Err(e),
        };
        let body = match self.parse_body() {
            Ok(v) => v,
            Err(e) => return Err(e),
        };
        let rb = match self.expect(TokenKind::RBrace) {
            Ok(v) => v,
            Err(e) => return Err(e),
        };
        let f = Function { name, type_params, params, return_type, body, span: ft.start..rb.end };
        assert(f@.type_params =~= tps_v(f.type_params@));
        assert(f@.params =~= params_v(f.params@));
        Ok(f)
    }

    /// Struct fields until `}` or the end of input.
    fn parse_field_list(&mut self) -> (r: Result<Vec<StructField>, ParseError>)
        requires
            old(self).wf(),
        ensures
            final(self).wf(),
            final(self).tokens@ == old(self).tokens@,
            match r {
                Ok(x) => succeeded(struct_field_list(old(self).tv(), old(self).p(), Seq::empty()), sfields_v(x@), final(self).p()) && final(self).pos >= old(self).pos,
                Err(e) => failed(struct_field_list(old(self).tv(), old(self).p(), Seq::empty()), e@),
            },
    {
        let mut fields: Vec<StructField> = Vec::new();
        let ghost p0 = self.p();
        let ghost ts = self.tv();
        assert(sfields_v(fields@) =~= Seq::<StructFieldV>::empty());
        loop
            invariant
                self.wf(),
                self.tokens@ == old(self).tokens@,
                ts == self.tv(),
                p0 == old(self).p(),
                self.pos >= p0,
                struct_field_list(ts, p0, Seq::empty()) == struct_field_list(ts, self.p(), sfields_v(fields@)),
            decreases rem(ts, self.p()),
        {
            if self.at(&TokenKind::RBrace) || self.at(&TokenKind::Eof) {
                return Ok(fields);
            }
            let pr = match self.parse_param() {
                Ok(v) => v,
                Err(e) => return Err(e),
            };
            if self.at(&TokenKind::Comma) {
                self.advance();
            }
            let ghost before = fields@;
            let f = StructField { name: pr.name, ty_name: pr.ty_name, span: pr.span };
            fields.push(f);
            assert(sfields_v(fields@) =~= sfields_v(before).push(f@));
        }
    }

    fn parse_struct_def(&mut self) -> (r: Result<StructDef, ParseError>)
        requires
            old(self).wf(),
        ensures
            final(self).wf(),
            final(self).tokens@ == old(self).tokens@,
            match r {
                Ok(x) => succeeded(struct_decl(old(self).tv(), old(self).p()), x@, final(self).p()) && final(self).pos > old(self).pos,
                Err(e) => failed(struct_decl(old(self).tv(), old(self).p()), e@),
            },
    {
        let st = match self.expect(TokenKind::Struct) {
            Ok(v) => v,
            Err(e) => return Err(e),
        };
        let (name, _) = match self.expect_ident() {
            Ok(v) => v,
            Err(e) => return Err(e),
        };
        match self.expect(TokenKind::LBrace) {
            Ok(_v) => _v,
            Err(e) => return Err(e),
        };
        let fields = match self.parse_field_list() {
            Ok(v) => v,
            Err(e) => return Err(e),
        };
        let rb = match self.expect(TokenKind::RBrace) {
            Ok(v) => v,
            Err(e) => return Err(e),
        };
        let d = StructDef { name, fields, span: st.start..rb.end };
        assert(d@.fields =~= sfields_v(d.fields@));
        Ok(d)
    }

    /// Variant field types after `(`, until `)`.
    fn parse_variant_fields(&mut self) -> (r: Result<Vec<TypeName>, ParseError>)
        requires
            old(self).wf(),
        ensures
            final(self).wf(),
            final(self).tokens@ == old(self).tokens@,
            match r {
                Ok(x) => succeeded(variant_fields(old(self).tv(), old(self).p(), Seq::empty()), tnames_v(x@), final(self).p()) && final(self).pos >= old(self).pos,
                Err(e) => failed(variant_fields(old(self).tv(), old(self).p(), Seq::empty()), e@),
            },
    {
        let mut fields: Vec<TypeName> = Vec::new();
        let ghost p0 = self.p();
        let ghost ts = self.tv();
        assert(tnames_v(fields@) =~= Seq::<TypeNameV>::empty());
        loop
            invariant
                self.wf(),
                self.tokens@ == old(self).tokens@,
                ts == self.tv(),
                p0 == old(self).p(),
                self.pos >= p0,
                variant_fields(ts, p0, Seq::empty()) == variant_fields(ts, self.p(), tnames_v(fields@)),
            decreases rem(ts, self.p()),
        {
            if self.at(&TokenKind::RParen) {
                return Ok(fields);
            }
            let t = match self.parse_type_ref() {
                Ok(v) => v,
                Err(e) => return Err(e),
            };
            if self.at(&TokenKind::Comma) {
                self.advance();
            }
            let ghost before = fields@;
            let ghost tv = t@;
            fields.push(t);
            assert(tnames_v(fields@) =~= tnames_v(before).push(tv));
        }
    }

    fn parse_variant(&mut self) -> (r: Result<EnumVariant, ParseError>)
        requires
            old(self).wf(),
        ensures
            final(self).wf(),
            final(self).tokens@ == old(self).tokens@,
            match r {
                Ok(x) => succeeded(variant(old(self).tv(), old(self).p()), x@, final(self).p()) && final(self).pos > old(self).pos,
                Err(e) => failed(variant(old(self).tv(), old(self).p()), e@),
            },
    {
        let (name, vspan) = match self.expect_ident() {
            Ok(v) => v,
            Err(e) => return Err(e),
        };
        if self.at(&TokenKind::LParen) {
            self.advance();
            let fields = match self.parse_variant_fields() {
                Ok(v) => v,
                Err(e) => return Err(e),
            };
            let rp = match self.expect(TokenKind::RParen) {
                Ok(v) => v,
                Err(e) => return Err(e),
            };
            let v = EnumVariant { name, fields, span: vspan.start..rp.end };
            assert(v@.fields =~= tnames_v(v.fields@));
            Ok(v)
        } else {
            let v = EnumVariant { name, fields: Vec::new(), span: vspan };
            assert(v@.fields =~= Seq::<TypeNameV>::empty());
            Ok(v)
        }
    }

    /// Enum variants until `}` or the end of input.
    fn parse_variant_list(&mut self) -> (r: Result<Vec<EnumVariant>, ParseError>)
        requires
            old(self).wf(),
        ensures
            final(self).wf(),
            final(self).tokens@ == old(self).tokens@,
            match r {
                Ok(x) => succeeded(variant_list(old(self).tv(), old(self).p(), Seq::empty()), variants_v(x@), final(self).p()) && final(self).pos >= old(self).pos,
                Err(e) => failed(variant_list(old(self).tv(), old(self).p(), Seq::empty()), e@),
            },
    {
        let mut vs: Vec<EnumVariant> = Vec::new();
        let ghost p0 = self.p();
        let ghost ts = self.tv();
        assert(variants_v(vs@) =~= Seq::<EnumVariantV>::empty());
        loop
            invariant
                self.wf(),
                self.tokens@ == old(self).tokens@,
                ts == self.tv(),
                p0 == old(self).p(),
                self.pos >= p0,
                variant_list(ts, p0, Seq::empty()) == variant_list(ts, self.p(), variants_v(vs@)),
            decreases rem(ts, self.p()),
        {
            if self.at(&TokenKind::RBrace) || self.at(&TokenKind::Eof) {
                return Ok(vs);
            }
            let v = match self.parse_variant() {
                Ok(v) => v,
                Err(e) => return Err(e),
            };
            if self.at(&TokenKind::Comma) {
                self.advance();
            }
            let ghost before = vs@;
            let ghost vv = v@;
            vs.push(v);
            assert(variants_v(vs@) =~= variants_v(before).push(vv));
        }
    }

    fn parse_enum_def(&mut self) -> (r: Result<EnumDef, ParseError>)
        requires
            old(self).wf(),
        ensures
            final(self).wf(),
            final(self).tokens@ == old(self).tokens@,
            match r {
                Ok(x) => succeeded(enum_decl(old(self).tv(), old(self).p()), x@, final(self).p()) && final(self).pos > old(self).pos,
                Err(e) => failed(enum_decl(old(self).tv(), old(self).p()), e@),
            },
    {
        let et = match self.expect(TokenKind::Enum) {
            Ok(v) => v,
            Err(e) => return Err(e),
        };
        let (name, _) = match self.expect_ident() {
            Ok(v) => v,
            Err(e) => return Err(e),
        };
        match self.expect(TokenKind::LBrace) {
            Ok(_v) => _v,
            Err(e) => return Err(e),
        };
        let variants = match self.parse_variant_list() {
            Ok(v) => v,
            Err(e) => return Err(e),
        };
        let rb = match self.expect(TokenKind::RBrace) {
            Ok(v) => v,
            Err(e) => return Err(e),
        };
        let d = EnumDef { name, variants, span: et.start..rb.end };
        assert(d@.variants =~= variants_v(d.variants@));
        Ok(d)
    }
}


impl Parser {
    fn parse_trait_method_sig(&mut self) -> (r: Result<TraitMethodSig, ParseError>)
        requires
            old(self).wf(),
        ensures
            final(self).wf(),
            final(self).tokens@ == old(self).tokens@,
            match r {
                Ok(x) => succeeded(trait_method(old(self).tv(), old(self).p()), x@, final(self).p()) && final(self).pos > old(self).pos,
                Err(e) => failed(trait_method(old(self).tv(), old(self).p()), e@),
            },
    {
        let ft = match self.expect(TokenKind::Fn) {
            Ok(v) => v,
            Err(e) => return Err(e),
        };
        let (name, _) = match self.expect_ident() {
            Ok(v) => v,
            Err(e) => return Err(e),
        };
        let type_params = match self.parse_type_params() {
            Ok(v) => v,
            Err(e) => return Err(e),
        };
        match self.expect(TokenKind::LParen) {
            Ok(_v) => _v,
            Err(e) => return Err(e),
        };
        match self.expect(TokenKind::SelfValue) {
            Ok(_v) => _v,
            Err(e) => return Err(e),
        };
        let acc: Vec<Param> = Vec::new();
        assert(params_v(acc@) =~= Seq::<ParamV>::empty());
        let params = match self.parse_self_params(acc) {
            Ok(v) => v,
            Err(e) => return Err(e),
        };
        match self.expect(TokenKind::RParen) {
            Ok(_v) => _v,
            Err(e) => return Err(e),
        };
        let return_type = match self.parse_type_ref() {
            Ok(v) => v,
            Err(e) => return Err(e),
        };
        let end: usize = return_type.span.end;
        let m = TraitMethodSig { name, type_params, params, return_type, span: ft.start..end };
        assert(m@.type_params =~= tps_v(m.type_params@));
        assert(m@.params =~= params_v(m.params@));
        Ok(m)
    }

    /// Trait method signatures until `}` or the end of input.
    fn parse_trait_methods(&mut self) -> (r: Result<Vec<TraitMethodSig>, ParseError>)
        requires
            old(self).wf(),
        ensures
            final(self).wf(),
            final(self).tokens@ == old(self).tokens@,
            match r {
                Ok(x) => succeeded(trait_methods(old(self).tv(), old(self).p(), Seq::empty()), sigs_v(x@), final(self).p()) && final(self).pos >= old(self).pos,
                Err(e) => failed(trait_methods(old(self).tv(), old(self).p(), Seq::empty()), e@),
            },
    {
        let mut ms: Vec<TraitMethodSig> = Vec::new();
        let ghost p0 = self.p();
        let ghost ts = self.tv();
        assert(sigs_v(ms@) =~= Seq::<TraitMethodSigV>::empty());
        loop
            invariant
                self.wf(),
                self.tokens@ == old(self).tokens@,
                ts == self.tv(),
                p0 == old(self).p(),
                self.pos >= p0,
                trait_methods(ts, p0, Seq::empty()) == trait_methods(ts, self.p(), sigs_v(ms@)),
            decreases rem(ts, self.p()),
        {
            if self.at(&TokenKind::RBrace) || self.at(&TokenKind::Eof) {
                return Ok(ms);
            }
            let m = match self.parse_trait_method_sig() {
                Ok(v) => v,
                Err(e) => return Err(e),
            };
            let ghost before = ms@;
            let ghost mv = m@;
            ms.push(m);
            assert(sigs_v(ms@) =~= sigs_v(before).push(mv));
        }
    }

    fn parse_trait_def(&mut self) -> (r: Result<TraitDef, ParseError>)
        requires
            old(self).wf(),
        ensures
            final(self).wf(),
            final(self).tokens@ == old(self).tokens@,
            match r {
                Ok(x) => succeeded(trait_decl(old(self).tv(), old(self).p()), x@, final(self).p()) && final(self).pos > old(self).pos,
                Err(e) => failed(trait_decl(old(self).tv(), old(self).p()), e@),
            },
    {
        let tt = match self.expect(TokenKind::Trait) {
            Ok(v) => v,
            Err(e) => return Err(e),
        };
        let (name, _) = match self.expect_ident() {
            Ok(v) => v,
            Err(e) => return Err(e),
        };
        match self.expect(TokenKind::LBrace) {
            Ok(_v) => _v,
            Err(e) => return Err(e),
        };
        let methods = match self.parse_trait_methods() {
            Ok(v) => v,
            Err(e) => return Err(e),
        };
        let rb = match self.expect(TokenKind::RBrace) {
            Ok(v) => v,
            Err(e) => return Err(e),
        };
        let d = TraitDef { name, methods, span: tt.start..rb.end };
        assert(d@.methods =~= sigs_v(d.methods@));
        Ok(d)
    }

    /// A method of an impl block for `target`; its `self` parameter gets
    /// that type.
    fn parse_method(&mut self, target: &String) -> (r: Result<Function, ParseError>)
        requires
            old(self).wf(),
        ensures
            final(self).wf(),
            final(self).tokens@ == old(self).tokens@,
            match r {
                Ok(x) => succeeded(method_decl(old(self).tv(), old(self).p(), target@), x@, final(self).p()) && final(self).pos > old(self).pos,
                Err(e) => failed(method_decl(old(self).tv(), old(self).p(), target@), e@),
            },
            r matches Ok(x) ==> stmts_filled_from(x@.body, 0) && x@.params.len() >= 1,
    {
        let ft = match self.expect(TokenKind::Fn) {
            Ok(v) => v,
            Err(e) => return Err(e),
        };
        let (name, _) = match self.expect_ident() {
            Ok(v) => v,
            Err(e) => return Err(e),
        };
        let type_params = match self.parse_type_params() {
            Ok(v) => v,
            Err(e) => return Err(e),
        };
        match self.expect(TokenKind::LParen) {
            Ok(_v) => _v,
            Err(e) => return Err(e),
        };
        let st = match self.expect(TokenKind::SelfValue) {
            Ok(v) => v,
            Err(e) => return Err(e),
        };
        let self_param = Param {
            name: string_of("self"),
            ty_name: TypeName { name: target.clone(), span: st.start..st.end },
            span: st.start..st.end,
        };
        let mut acc: Vec<Param> = Vec::new();
        acc.push(self_param);
        assert(params_v(acc@) =~= seq![acc@[0]@]);
        let params = match self.parse_self_params(acc) {
            Ok(v) => v,
            Err(e) => return Err(e),
        };
        match self.expect(TokenKind::RParen) {
            Ok(_v) => _v,
            Err(e) => return Err(e),
        };
        let return_type = match self.parse_type_ref() {
            Ok(v) => v,
            Err(e) => return Err(e),
        };
        match self.expect(TokenKind::LBrace) {
            Ok(_v) => _v,
            Err(e) => return Err(e),
        };
        let body = match self.parse_body() {
            Ok(v) => v,
            Err(e) => return Err(e),
        };
        let rb = match self.expect(TokenKind::RBrace) {
            Ok(v) => v,
            Err(e) => return Err(e),
        };
        let f = Function { name, type_params, params, return_type, body, span: ft.start..rb.end };
        assert(f@.type_params =~= tps_v(f.type_params@));
        assert(f@.params =~= params_v(f.params@));
        Ok(f)
    }

    /// Methods of an impl block until `}` or the end of input.
    fn parse_impl_methods(&mut self, target: &String) -> (r: Result<Vec<Function>, ParseError>)
        requires
            old(self).wf(),
        ensures
            final(self).wf(),
            final(self).tokens@ == old(self).tokens@,
            match r {
                Ok(x) => succeeded(impl_methods(old(self).tv(), old(self).p(), target@, Seq::empty()), funcs_v(x@), final(self).p()) && final(self).pos >= old(self).pos,
                Err(e) => failed(impl_methods(old(self).tv(), old(self).p(), target@, Seq::empty()), e@),
            },
            r matches Ok(x) ==> forall|k: int| 0 <= k < x@.len() ==> stmts_filled_from((#[trigger] x@[k])@.body, 0) && x@[k]@.params.len() >= 1,
    {
        let mut ms: Vec<Function> = Vec::new();
        let ghost p0 = self.p();
        let ghost ts = self.tv();
        assert(funcs_v(ms@) =~= Seq::<FunctionV>::empty());
        loop
            invariant
                self.wf(),
                self.tokens@ == old(self).tokens@,
                ts == self.tv(),
                p0 == old(self).p(),
                self.pos >= p0,
                impl_methods(ts, p0, target@, Seq::empty()) == impl_methods(ts, self.p(), target@, funcs_v(ms@)),
                forall|k: int| 0 <= k < ms@.len() ==> stmts_filled_from((#[trigger] ms@[k])@.body, 0) && ms@[k]@.params.len() >= 1,
            decreases rem(ts, self.p()),
        {
            if self.at(&TokenKind::RBrace) || self.at(&TokenKind::Eof) {
                return Ok(ms);
            }
            let m = match self.parse_method(target) {
                Ok(v) => v,
                Err(e) => return Err(e),
            };
            let ghost before = ms@;
            let ghost mv = m@;
            ms.push(m);
            assert(funcs_v(ms@) =~= funcs_v(before).push(mv));
        }
    }

    fn parse_impl_block(&mut self) -> (r: Result<ImplBlock, ParseError>)
        requires
            old(self).wf(),
        ensures
            final(self).wf(),
            final(self).tokens@ == old(self).tokens@,
            match r {
                Ok(x) => succeeded(impl_decl(old(self).tv(), old(self).p()), x@, final(self).p()) && final(self).pos > old(self).pos,
                Err(e) => failed(impl_decl(old(self).tv(), old(self).p()), e@),
            },
            r matches Ok(x) ==> forall|k: int| 0 <= k < x.methods@.len() ==> stmts_filled_from((#[trigger] x.methods@[k])@.body, 0) && x.methods@[k]@.params.len() >= 1,
    {
        let it = match self.expect(TokenKind::Impl) {
            Ok(v) => v,
            Err(e) => return Err(e),
        };
        let (first, _) = match self.expect_ident() {
            Ok(v) => v,
            Err(e) => return Err(e),
        };
        let (trait_name, target) = if self.at(&TokenKind::For) {
            self.advance();
            let (target, _) = match self.expect_ident() {
                Ok(v) => v,
                Err(e) => return Err(e),
            };
            (Some(first), target)
        } else {
            (None, first)
        };
        match self.expect(TokenKind::LBrace) {
            Ok(_v) => _v,
            Err(e) => return Err(e),
        };
        let methods = match self.parse_impl_methods(&target) {
            Ok(v) => v,
            Err(e) => return Err(e),
        };
        let rb = match self.expect(TokenKind::RBrace) {
            Ok(v) => v,
            Err(e) => return Err(e),
        };
        let b = ImplBlock { trait_name, target_type: target, methods, span: it.start..rb.end };
        assert(b@.methods =~= funcs_v(b.methods@));
        Ok(b)
    }
}


spec fn imports_v(s: Seq<Import>) -> Seq<ImportV> {
    s.map_values(|x: Import| x@)
}

spec fn structs_v(s: Seq<StructDef>) -> Seq<StructDefV> {
    s.map_values(|x: StructDef| x@)
}

spec fn enums_v(s: Seq<EnumDef>) -> Seq<EnumDefV> {
    s.map_values(|x: EnumDef| x@)
}

spec fn traits_v(s: Seq<TraitDef>) -> Seq<TraitDefV> {
    s.map_values(|x: TraitDef| x@)
}

spec fn impls_v(s: Seq<ImplBlock>) -> Seq<ImplBlockV> {
    s.map_values(|x: ImplBlock| x@)
}

/// The declarations collected so far, as a program.
spec fn collected(
    imports: Seq<Import>,
    functions: Seq<Function>,
    structs: Seq<StructDef>,
    enums: Seq<EnumDef>,
    traits: Seq<TraitDef>,
    impls: Seq<ImplBlock>,
) -> ProgramV {
    ProgramV {
        imports: imports_v(imports),
        functions: funcs_v(functions),
        structs: structs_v(structs),
        enums: enums_v(enums),
        traits: traits_v(traits),
        impls: impls_v(impls),
        globals: Seq::empty(),
    }
}

impl Parser {
    fn parse_program(&mut self) -> (r: Result<Program, ParseError>)
        requires
            old(self).wf(),
        ensures
            match r {
                Ok(x) => program_rest(old(self).tv(), old(self).p(), empty_program(), false) == Ok::<ProgramV, ParseErrorView>(x@),
                Err(e) => program_rest(old(self).tv(), old(self).p(), empty_program(), false) == Err::<ProgramV, ParseErrorView>(e@),
            },
            r matches Ok(x) ==> program_checkable(&x),
    {
        let mut imports: Vec<Import> = Vec::new();
        let mut functions: Vec<Function> = Vec::new();
        let mut structs: Vec<StructDef> = Vec::new();
        let mut enums: Vec<EnumDef> = Vec::new();
        let mut traits: Vec<TraitDef> = Vec::new();
        let mut impls: Vec<ImplBlock> = Vec::new();
        let mut has_declarations = false;
        let ghost p0 = self.p();
        let ghost ts = self.tv();
        assert(imports_v(imports@) =~= Seq::<ImportV>::empty());
        assert(funcs_v(functions@) =~= Seq::<FunctionV>::empty());
        assert(structs_v(structs@) =~= Seq::<StructDefV>::empty());
        assert(enums_v(enums@) =~= Seq::<EnumDefV>::empty());
        assert(traits_v(traits@) =~= Seq::<TraitDefV>::empty());
        assert(impls_v(impls@) =~= Seq::<ImplBlockV>::empty());
        assert(collected(imports@, functions@, structs@, enums@, traits@, impls@) == empty_program());
        loop
            invariant
                self.wf(),
                self.tokens@ == old(self).tokens@,
                ts == self.tv(),
                p0 == old(self).p(),
                program_rest(ts, p0, empty_program(), false) == program_rest(
                    ts,
                    self.p(),
                    collected(imports@, functions@, structs@, enums@, traits@, impls@),
                    has_declarations,
                ),
                forall|k: int| 0 <= k < functions@.len() ==> stmts_filled_from((#[trigger] functions@[k])@.body, 0),
                forall|k: int, m: int|
                    0 <= k < impls@.len() && 0 <= m < impls@[k].methods@.len() ==> stmts_filled_from(
                        (#[trigger] impls@[k].methods@[m])@.body,
                        0,
                    ) && impls@[k].methods@[m]@.params.len() >= 1,
            decreases rem(ts, self.p()),
        {
            let ghost q = self.p();
            let ghost prog = collected(imports@, functions@, structs@, enums@, traits@, impls@);
            if self.at(&TokenKind::Eof) {
                proof { lemma_rest_eof(ts, q, prog, has_declarations); }
                let pr = Program { imports, functions, structs, enums, traits, impls, globals: Vec::new() };
                assert(pr@.imports =~= prog.imports);
                assert(pr@.functions =~= prog.functions);
                assert(pr@.structs =~= prog.structs);
                assert(pr@.enums =~= prog.enums);
                assert(pr@.traits =~= prog.traits);
                assert(pr@.impls =~= prog.impls);
                assert(pr@.globals =~= prog.globals);
                return Ok(pr);
            }
            if self.at(&TokenKind::Import) {
                proof { lemma_rest_import(ts, q, prog, has_declarations); }
                if has_declarations {
                    let m = string_of("imports must appear before all declarations");
                    return Err(self.error_here(m));
                }
                let i = match self.parse_import() {
                    Ok(v) => v,
                    Err(e) => return Err(e),
                };
                let ghost iv = i@;
                imports.push(i);
                assert(imports_v(imports@) =~= prog.imports.push(iv));
            } else if self.at(&TokenKind::Enum) {
                proof { lemma_rest_enum(ts, q, prog, has_declarations); }
                has_declarations = true;
                let d = match self.parse_enum_def() {
                    Ok(v) => v,
                    Err(e) => return Err(e),
                };
                let ghost dv = d@;
                enums.push(d);
                assert(enums_v(enums@) =~= prog.enums.push(dv));
            } else if self.at(&TokenKind::Struct) {
                proof { lemma_rest_struct(ts, q, prog, has_declarations); }
                has_declarations = true;
                let d = match self.parse_struct_def() {
                    Ok(v) => v,
                    Err(e) => return Err(e),
                };
                let ghost dv = d@;
                structs.push(d);
                assert(structs_v(structs@) =~= prog.structs.push(dv));
            } else if self.at(&TokenKind::Trait) {
                proof { lemma_rest_trait(ts, q, prog, has_declarations); }
                has_declarations = true;
                let d = match self.parse_trait_def() {
                    Ok(v) => v,
                    Err(e) => return Err(e),
                };
                let ghost dv = d@;
                traits.push(d);
                assert(traits_v(traits@) =~= prog.traits.push(dv));
            } else if self.at(&TokenKind::Impl) {
                proof { lemma_rest_impl(ts, q, prog, has_declarations); }
                has_declarations = true;
                let d = match self.parse_impl_block() {
                    Ok(v) => v,
                    Err(e) => return Err(e),
                };
                let ghost dv = d@;
                impls.push(d);
                assert(impls_v(impls@) =~= prog.impls.push(dv));
            } else {
                proof { lemma_rest_function(ts, q, prog, has_declarations); }
                has_declarations = true;
                let d = match self.parse_function() {
                    Ok(v) => v,
                    Err(e) => return Err(e),
                };
                let ghost dv = d@;
                functions.push(d);
                assert(funcs_v(functions@) =~= prog.functions.push(dv));
            }
        }
    }
}

/// Parse the given source string into a `Program`. Every program it gives
/// back may be handed to `check`: its methods have `self` and its array
/// literals have elements.
///
/// The `requires` leaves out the texts on which the lexer panics (an
/// identifier that runs into a non-ASCII letter, sliced off mid-character).
pub fn parse(source: &str) -> (r: Result<Program, ParseError>)
    requires
        !(spec_lex(source) is Panic),
        source.spec_bytes().len() < usize::MAX,
    ensures
        match r {
            Ok(p) => parse_source(source) == Ok::<ProgramV, ParseErrorView>(p@),
            Err(e) => parse_source(source) == Err::<ProgramV, ParseErrorView>(e@),
        },
        r matches Ok(p) ==> program_checkable(&p),
{
    let tokens = match lex(source) {
        Ok(t) => t,
        Err(e) => return Err(ParseError { message: e.message, span: e.span }),
    };
    let mut parser = Parser::new(tokens);
    parser.parse_program()
}

} // verus!
