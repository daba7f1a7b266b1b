//! Tokens produced by the lexer, and their mathematical views.
use vstd::prelude::*;

verus! {

/// Byte offsets `start..end` into the source text.
pub type Span = std::ops::Range<usize>;

/// A token: its kind and the bytes of the source it was read from.
#[derive(Debug)]
pub struct Token {
    pub kind: TokenKind,
    pub span: Span,
}

/// A segment of an interpolated string.
#[derive(Debug, Clone, PartialEq)]
pub enum StringPart {
    Literal(String),
    Ident(String),
    Expr(String),
}

/// The kind of a token.
///
/// `FloatLiteral` holds the literal's text exactly as written (digits, a
/// dot, digits); its numeric value is that text read as a decimal number.
#[derive(Debug, Clone, PartialEq)]
pub enum TokenKind {
    IntLiteral(i64),
    FloatLiteral(String),
    StringLiteral(String),
    InterpolatedString(Vec<StringPart>),
    Identifier(String),
    Fn,
    Let,
    Plus,
    Minus,
    Star,
    Slash,
    Percent,
    Eq,
    PlusEq,
    MinusEq,
    StarEq,
    SlashEq,
    PercentEq,
    LParen,
    RParen,
    LBrace,
    RBrace,
    LBracket,
    RBracket,
    Comma,
    Colon,
    True,
    False,
    If,
    Else,
    While,
    Return,
    Mut,
    Struct,
    Enum,
    Match,
    Trait,
    Impl,
    For,
    SelfValue,
    SelfType,
    Spawn,
    Channel,
    Mutex,
    Array,
    In,
    Import,
    Global,
    Break,
    Continue,
    Dot,
    ColonColon,
    ColonEq,
    FatArrow,
    EqEq,
    NotEq,
    Lt,
    Gt,
    LtEq,
    GtEq,
    And,
    Or,
    Bang,
    Question,
    Pipe,
    Eof,
}

/// The mathematical value of a string-interpolation segment.
pub enum PartView {
    Literal(Seq<char>),
    Ident(Seq<char>),
    Expr(Seq<char>),
}

/// The mathematical value of a token kind: the kinds that carry text or
/// numbers are mapped to their values; every other kind stands for itself.
pub enum KindView {
    Simple(TokenKind),
    Int(i64),
    Float(Seq<char>),
    Str(Seq<char>),
    Interp(Seq<PartView>),
    Ident(Seq<char>),
}

/// The mathematical value of a token.
pub struct TokenView {
    pub kind: KindView,
    pub start: int,
    pub end: int,
}

impl View for StringPart {
    type V = PartView;

    open spec fn view(&self) -> PartView {
        match self {
            StringPart::Literal(s) => PartView::Literal(s@),
            StringPart::Ident(s) => PartView::Ident(s@),
            StringPart::Expr(s) => PartView::Expr(s@),
        }
    }
}

/// The views of a sequence of string parts.
pub open spec fn parts_view(parts: Seq<StringPart>) -> Seq<PartView> {
    parts.map_values(|p: StringPart| p@)
}

impl TokenKind {
    /// Whether this kind carries no payload.
    pub open spec fn is_simple(&self) -> bool {
        !(self is IntLiteral || self is FloatLiteral || self is StringLiteral
            || self is InterpolatedString || self is Identifier)
    }
}

impl View for TokenKind {
    type V = KindView;

    open spec fn view(&self) -> KindView {
        match self {
            TokenKind::IntLiteral(v) => KindView::Int(*v),
            TokenKind::FloatLiteral(s) => KindView::Float(s@),
            TokenKind::StringLiteral(s) => KindView::Str(s@),
            TokenKind::InterpolatedString(ps) => KindView::Interp(parts_view(ps@)),
            TokenKind::Identifier(s) => KindView::Ident(s@),
            _ => KindView::Simple(*self),
        }
    }
}

impl View for Token {
    type V = TokenView;

    open spec fn view(&self) -> TokenView {
        TokenView { kind: self.kind@, start: self.span.start as int, end: self.span.end as int }
    }
}

/// The views of a sequence of tokens.
pub open spec fn tokens_view(ts: Seq<Token>) -> Seq<TokenView> {
    ts.map_values(|t: Token| t@)
}

} // verus!
