//! The lexer: source text to tokens.
use vstd::prelude::*;
use vstd::utf8::*;
use vstd::string::StringSliceAdditionalSpecFns;
use crate::token::{Span, TokenKind, StringPart, Token, KindView, PartView, TokenView, tokens_view, parts_view};
use crate::text::{trim_white_space, trim_str, push_char, text_between, string_of, concat_str, lemma_boundary_at_non_continuation, lemma_continuation_follows_multibyte, lemma_boundary_after_ascii, lemma_boundary_not_continuation};

verus! {

broadcast use vstd::utf8::encode_utf8_valid_utf8, vstd::utf8::encode_utf8_decode_utf8;

/// An error produced during lexing.
#[derive(Debug)]
pub struct LexError {
    pub message: String,
    pub span: Span,
}

/// The mathematical value of a lexing error.
pub struct LexErrorView {
    pub message: Seq<char>,
    pub start: int,
    pub end: int,
}

impl View for LexError {
    type V = LexErrorView;

    open spec fn view(&self) -> LexErrorView {
        LexErrorView {
            message: self.message@,
            start: self.span.start as int,
            end: self.span.end as int,
        }
    }
}

// ─── Byte classes ──────────────────────────────────────────────────────────

pub open spec fn is_space_byte(c: u8) -> bool {
    c == 32 || c == 9 || c == 13 || c == 10
}

pub open spec fn is_digit_byte(c: u8) -> bool {
    48 <= c <= 57
}

pub open spec fn is_ascii_alpha_byte(c: u8) -> bool {
    (65 <= c <= 90) || (97 <= c <= 122)
}

/// Bytes that start an identifier: ASCII letters and `_`.
pub open spec fn is_ident_start_byte(c: u8) -> bool {
    is_ascii_alpha_byte(c) || c == 95
}

/// Bytes whose Latin-1 character (`byte as char`) is alphabetic or numeric
/// in Unicode: ASCII letters and digits, and the letters and numeric signs
/// of the Latin-1 supplement (ª ² ³ µ ¹ º ¼ ½ ¾ À–Ö Ø–ö ø–ÿ).
pub open spec fn is_latin1_alnum_byte(c: u8) -> bool {
    ||| is_ascii_alpha_byte(c)
    ||| is_digit_byte(c)
    ||| c == 0xaa || c == 0xb2 || c == 0xb3 || c == 0xb5 || c == 0xb9 || c == 0xba
    ||| 0xbc <= c <= 0xbe
    ||| 0xc0 <= c <= 0xd6
    ||| 0xd8 <= c <= 0xf6
    ||| 0xf8 <= c
}

/// Bytes that continue an identifier.
pub open spec fn is_ident_continue_byte(c: u8) -> bool {
    is_latin1_alnum_byte(c) || c == 95
}

/// Bytes that are ASCII letters, digits or `_`.
pub open spec fn is_word_byte(c: u8) -> bool {
    is_ascii_alpha_byte(c) || is_digit_byte(c) || c == 95
}

// ─── Scanning helpers ──────────────────────────────────────────────────────

/// The first index at or after `i` whose byte is not a digit (or the end).
pub open spec fn digits_end(b: Seq<u8>, i: int) -> int
    decreases b.len() - i,
{
    if 0 <= i < b.len() && is_digit_byte(b[i]) {
        digits_end(b, i + 1)
    } else {
        i
    }
}

/// The first index at or after `i` whose byte cannot continue an identifier.
pub open spec fn ident_end(b: Seq<u8>, i: int) -> int
    decreases b.len() - i,
{
    if 0 <= i < b.len() && is_ident_continue_byte(b[i]) {
        ident_end(b, i + 1)
    } else {
        i
    }
}

/// The index of the first newline at or after `i` (or the end).
pub open spec fn line_end(b: Seq<u8>, i: int) -> int
    decreases b.len() - i,
{
    if 0 <= i < b.len() && b[i] != 10 {
        line_end(b, i + 1)
    } else {
        i
    }
}

/// The decimal value of a sequence of digit bytes.
pub open spec fn decimal_value(d: Seq<u8>) -> nat
    decreases d.len(),
{
    if d.len() == 0 {
        0
    } else {
        decimal_value(d.drop_last()) * 10 + ((d.last() - 48) as nat)
    }
}

/// Each byte read as the character with that code (Latin-1).
pub open spec fn latin1_chars(d: Seq<u8>) -> Seq<char> {
    d.map_values(|x: u8| x as char)
}

/// The kind of a keyword, or an identifier with this text.
pub open spec fn word_kind(t: Seq<char>) -> KindView {
    if t == "fn"@ {
        KindView::Simple(TokenKind::Fn)
    } else if t == "let"@ {
        KindView::Simple(TokenKind::Let)
    } else if t == "true"@ {
        KindView::Simple(TokenKind::True)
    } else if t == "false"@ {
        KindView::Simple(TokenKind::False)
    } else if t == "if"@ {
        KindView::Simple(TokenKind::If)
    } else if t == "else"@ {
        KindView::Simple(TokenKind::Else)
    } else if t == "while"@ {
        KindView::Simple(TokenKind::While)
    } else if t == "return"@ {
        KindView::Simple(TokenKind::Return)
    } else if t == "mut"@ {
        KindView::Simple(TokenKind::Mut)
    } else if t == "struct"@ {
        KindView::Simple(TokenKind::Struct)
    } else if t == "enum"@ {
        KindView::Simple(TokenKind::Enum)
    } else if t == "match"@ {
        KindView::Simple(TokenKind::Match)
    } else if t == "trait"@ {
        KindView::Simple(TokenKind::Trait)
    } else if t == "impl"@ {
        KindView::Simple(TokenKind::Impl)
    } else if t == "for"@ {
        KindView::Simple(TokenKind::For)
    } else if t == "self"@ {
        KindView::Simple(TokenKind::SelfValue)
    } else if t == "Self"@ {
        KindView::Simple(TokenKind::SelfType)
    } else if t == "spawn"@ {
        KindView::Simple(TokenKind::Spawn)
    } else if t == "channel"@ {
        KindView::Simple(TokenKind::Channel)
    } else if t == "mutex"@ {
        KindView::Simple(TokenKind::Mutex)
    } else if t == "array"@ {
        KindView::Simple(TokenKind::Array)
    } else if t == "in"@ {
        KindView::Simple(TokenKind::In)
    } else if t == "import"@ {
        KindView::Simple(TokenKind::Import)
    } else if t == "g"@ {
        KindView::Simple(TokenKind::Global)
    } else if t == "break"@ {
        KindView::Simple(TokenKind::Break)
    } else if t == "continue"@ {
        KindView::Simple(TokenKind::Continue)
    } else {
        KindView::Ident(t)
    }
}

/// The kind of a one-byte operator or delimiter that no second byte extends.
pub open spec fn single_kind(c: u8) -> Option<TokenKind> {
    if c == 40 {
        Some(TokenKind::LParen)
    } else if c == 41 {
        Some(TokenKind::RParen)
    } else if c == 123 {
        Some(TokenKind::LBrace)
    } else if c == 125 {
        Some(TokenKind::RBrace)
    } else if c == 91 {
        Some(TokenKind::LBracket)
    } else if c == 93 {
        Some(TokenKind::RBracket)
    } else if c == 44 {
        Some(TokenKind::Comma)
    } else if c == 46 {
        Some(TokenKind::Dot)
    } else if c == 63 {
        Some(TokenKind::Question)
    } else {
        None
    }
}

/// The kind of the two-byte operator `c d`, if there is one.
pub open spec fn pair_kind(c: u8, d: u8) -> Option<TokenKind> {
    if c == 43 && d == 61 {
        Some(TokenKind::PlusEq)
    } else if c == 45 && d == 61 {
        Some(TokenKind::MinusEq)
    } else if c == 42 && d == 61 {
        Some(TokenKind::StarEq)
    } else if c == 47 && d == 61 {
        Some(TokenKind::SlashEq)
    } else if c == 37 && d == 61 {
        Some(TokenKind::PercentEq)
    } else if c == 61 && d == 61 {
        Some(TokenKind::EqEq)
    } else if c == 61 && d == 62 {
        Some(TokenKind::FatArrow)
    } else if c == 33 && d == 61 {
        Some(TokenKind::NotEq)
    } else if c == 60 && d == 61 {
        Some(TokenKind::LtEq)
    } else if c == 62 && d == 61 {
        Some(TokenKind::GtEq)
    } else if c == 38 && d == 38 {
        Some(TokenKind::And)
    } else if c == 124 && d == 124 {
        Some(TokenKind::Or)
    } else if c == 58 && d == 58 {
        Some(TokenKind::ColonColon)
    } else if c == 58 && d == 61 {
        Some(TokenKind::ColonEq)
    } else {
        None
    }
}

/// The kind of the operator `c` when no two-byte operator starts with it.
pub open spec fn lone_kind(c: u8) -> Option<TokenKind> {
    if c == 43 {
        Some(TokenKind::Plus)
    } else if c == 45 {
        Some(TokenKind::Minus)
    } else if c == 42 {
        Some(TokenKind::Star)
    } else if c == 47 {
        Some(TokenKind::Slash)
    } else if c == 37 {
        Some(TokenKind::Percent)
    } else if c == 61 {
        Some(TokenKind::Eq)
    } else if c == 33 {
        Some(TokenKind::Bang)
    } else if c == 60 {
        Some(TokenKind::Lt)
    } else if c == 62 {
        Some(TokenKind::Gt)
    } else if c == 124 {
        Some(TokenKind::Pipe)
    } else if c == 58 {
        Some(TokenKind::Colon)
    } else {
        single_kind(c)
    }
}

/// What one step of the lexer does at a position.
pub enum Step {
    /// Nothing is produced; lexing goes on at the given index.
    Skip(int),
    /// A token of this kind spans from the position to the given index.
    Emit(KindView, int),
    /// Lexing stops with this error.
    Fail(LexErrorView),
    /// Slicing the text inside a character panics.
    Panic,
}

/// The error for an unexpected byte `c` at `pos`.
pub open spec fn unexpected_char(c: u8, pos: int) -> LexErrorView {
    LexErrorView {
        message: "unexpected character '"@ + seq![c as char] + "'"@,
        start: pos,
        end: pos + 1,
    }
}

/// A number literal starting at `pos`.
pub open spec fn number_step(b: Seq<u8>, pos: int) -> Step {
    let e1 = digits_end(b, pos);
    if e1 + 1 < b.len() && b[e1] == 46 && is_digit_byte(b[e1 + 1]) {
        let e2 = digits_end(b, e1 + 1);
        Step::Emit(KindView::Float(latin1_chars(b.subrange(pos, e2))), e2)
    } else {
        let digits = b.subrange(pos, e1);
        if decimal_value(digits) <= i64::MAX {
            Step::Emit(KindView::Int(decimal_value(digits) as i64), e1)
        } else {
            Step::Fail(
                LexErrorView {
                    message: "integer literal '"@ + latin1_chars(digits) + "' overflows i64"@,
                    start: pos,
                    end: e1,
                },
            )
        }
    }
}

/// An identifier or keyword starting at `pos`.
pub open spec fn word_step(b: Seq<u8>, pos: int) -> Step {
    let e = ident_end(b, pos);
    if is_char_boundary(b, e) {
        Step::Emit(word_kind(decode_utf8(b.subrange(pos, e))), e)
    } else {
        Step::Panic
    }
}

/// The first index `i` at or after `k` where three quote bytes start, as
/// `Some(i)`, or `None` when the text ends first.
pub open spec fn triple_close(b: Seq<u8>, k: int) -> Option<int>
    decreases b.len() - k,
{
    if k < 0 || k + 2 >= b.len() {
        None
    } else if b[k] == 34 && b[k + 1] == 34 && b[k + 2] == 34 {
        Some(k)
    } else {
        triple_close(b, k + 1)
    }
}

/// The index where the closing scan of a triple-quoted string gives up.
pub open spec fn triple_fail_pos(b: Seq<u8>, k: int) -> int {
    if k + 2 >= b.len() {
        k
    } else {
        b.len() - 2
    }
}

/// A triple-quoted string whose opening quotes are at `pos`.
pub open spec fn triple_step(b: Seq<u8>, pos: int) -> Step {
    match triple_close(b, pos + 3) {
        Some(k) => Step::Emit(KindView::Str(decode_utf8(b.subrange(pos + 3, k))), k + 3),
        None => Step::Fail(
            LexErrorView {
                message: "unterminated multiline string"@,
                start: pos,
                end: triple_fail_pos(b, pos + 3),
            },
        ),
    }
}

/// Scan for the `}` that closes an interpolation: from index `p` with
/// `depth` braces open; stops at a quote or backslash, at the end of the
/// text, or when the depth drops to zero.  Returns the stop index and depth.
pub open spec fn brace_probe(b: Seq<u8>, p: int, depth: nat) -> (int, nat)
    decreases b.len() - p,
{
    if 0 <= p < b.len() && depth > 0 {
        if b[p] == 34 || b[p] == 92 {
            (p, depth)
        } else {
            let d2: nat = if b[p] == 123 {
                depth + 1
            } else if b[p] == 125 {
                (depth - 1) as nat
            } else {
                depth
            };
            if d2 > 0 {
                brace_probe(b, p + 1, d2)
            } else {
                (p, 0)
            }
        }
    } else {
        (p, depth)
    }
}

/// The probe stops at or after where it started, and inside the text when
/// it started inside.
pub proof fn lemma_brace_probe_bounds(b: Seq<u8>, p: int, depth: nat)
    ensures
        brace_probe(b, p, depth).0 >= p,
        0 <= p <= b.len() ==> brace_probe(b, p, depth).0 <= b.len(),
    decreases b.len() - p,
{
    if 0 <= p < b.len() && depth > 0 && !(b[p] == 34 || b[p] == 92) {
        let d2: nat = if b[p] == 123 {
            depth + 1
        } else if b[p] == 125 {
            (depth - 1) as nat
        } else {
            depth
        };
        if d2 > 0 {
            lemma_brace_probe_bounds(b, p + 1, d2);
        }
    }
}

/// Whether UTF-8 bytes spell a simple identifier: an ASCII letter or `_`
/// followed by ASCII letters, digits or `_`.
pub open spec fn is_simple_ident(t: Seq<u8>) -> bool {
    &&& t.len() > 0
    &&& is_ident_start_byte(t[0])
    &&& forall|i: int| 0 <= i < t.len() ==> is_word_byte(#[trigger] t[i])
}

/// The character an escape `\x` stands for, if `x` names an escape.
pub open spec fn escape_char(x: u8) -> Option<char> {
    if x == 110 {
        Some('\n')
    } else if x == 116 {
        Some('\t')
    } else if x == 92 {
        Some('\\')
    } else if x == 34 {
        Some('"')
    } else if x == 123 {
        Some('{')
    } else {
        None
    }
}

/// `parts` with the pending literal `cur` appended when it is not empty.
pub open spec fn flush_literal(parts: Seq<PartView>, cur: Seq<char>) -> Seq<PartView> {
    if cur.len() > 0 {
        parts.push(PartView::Literal(cur))
    } else {
        parts
    }
}

/// The body of a regular string literal opened at `start`, scanned from `i`:
/// `parts` are the segments found so far, `interp` tells whether one of them
/// is an interpolation, `cur` is the pending literal text.
pub open spec fn string_body(
    b: Seq<u8>,
    start: int,
    i: int,
    parts: Seq<PartView>,
    interp: bool,
    cur: Seq<char>,
) -> Step
    decreases b.len() - i,
{
    if i < 0 || i >= b.len() {
        Step::Fail(LexErrorView { message: "unterminated string literal"@, start: start, end: i })
    } else if b[i] == 34 {
        if interp {
            Step::Emit(KindView::Interp(flush_literal(parts, cur)), i + 1)
        } else {
            Step::Emit(KindView::Str(cur), i + 1)
        }
    } else if b[i] == 92 {
        if i + 1 < b.len() {
            match escape_char(b[i + 1]) {
                Some(c) => string_body(b, start, i + 2, parts, interp, cur.push(c)),
                None => string_body(b, start, i + 1, parts, interp, cur.push('\\')),
            }
        } else {
            string_body(b, start, i + 1, parts, interp, cur.push('\\'))
        }
    } else if b[i] == 123 {
        let (probe, depth) = brace_probe(b, i + 1, 1);
        proof {
            lemma_brace_probe_bounds(b, i + 1, 1);
        }
        if probe < b.len() && depth == 0 {
            let content = trim_white_space(decode_utf8(b.subrange(i + 1, probe)));
            if content.len() > 0 {
                let part = if is_simple_ident(encode_utf8(content)) {
                    PartView::Ident(content)
                } else {
                    PartView::Expr(content)
                };
                string_body(
                    b,
                    start,
                    probe + 1,
                    flush_literal(parts, cur).push(part),
                    true,
                    Seq::empty(),
                )
            } else {
                string_body(b, start, i + 1, parts, interp, cur.push('{'))
            }
        } else {
            string_body(b, start, i + 1, parts, interp, cur.push('{'))
        }
    } else {
        string_body(b, start, i + 1, parts, interp, cur.push(b[i] as char))
    }
}

/// A string literal whose opening quote is at `pos`.
pub open spec fn string_step(b: Seq<u8>, pos: int) -> Step {
    if pos + 2 < b.len() && b[pos + 1] == 34 && b[pos + 2] == 34 {
        triple_step(b, pos)
    } else {
        string_body(b, pos, pos + 1, Seq::empty(), false, Seq::empty())
    }
}

/// An operator, delimiter or unexpected byte at `pos`.
pub open spec fn symbol_step(b: Seq<u8>, pos: int) -> Step {
    let c = b[pos];
    if pos + 1 < b.len() && pair_kind(c, b[pos + 1]) is Some {
        Step::Emit(KindView::Simple(pair_kind(c, b[pos + 1])->0), pos + 2)
    } else {
        match lone_kind(c) {
            Some(k) => Step::Emit(KindView::Simple(k), pos + 1),
            None => Step::Fail(unexpected_char(c, pos)),
        }
    }
}

/// One step of the lexer at `pos`, which is inside the text.
pub open spec fn step(b: Seq<u8>, pos: int) -> Step {
    let c = b[pos];
    if is_space_byte(c) {
        Step::Skip(pos + 1)
    } else if c == 47 && pos + 1 < b.len() && b[pos + 1] == 47 {
        Step::Skip(line_end(b, pos))
    } else if is_digit_byte(c) {
        number_step(b, pos)
    } else if is_ident_start_byte(c) {
        word_step(b, pos)
    } else if c == 34 {
        string_step(b, pos)
    } else {
        symbol_step(b, pos)
    }
}

/// The outcome of lexing.
pub enum LexOutcome {
    Tokens(Seq<TokenView>),
    Error(LexErrorView),
    Panic,
}

/// `ts` followed by what `out` produced.
pub open spec fn prepend_tokens(ts: Seq<TokenView>, out: LexOutcome) -> LexOutcome {
    match out {
        LexOutcome::Tokens(rest) => LexOutcome::Tokens(ts + rest),
        other => other,
    }
}

/// The end-of-input token of a text of `n` bytes.
pub open spec fn eof_token(n: int) -> TokenView {
    TokenView { kind: KindView::Simple(TokenKind::Eof), start: n, end: n }
}

/// Lexing the bytes `b` from index `pos`.
pub open spec fn lex_from(b: Seq<u8>, pos: int) -> LexOutcome
    decreases b.len() - pos,
{
    if pos < 0 || pos >= b.len() {
        LexOutcome::Tokens(seq![eof_token(b.len() as int)])
    } else {
        match step(b, pos) {
            Step::Skip(p) => if pos < p <= b.len() {
                lex_from(b, p)
            } else {
                LexOutcome::Panic
            },
            Step::Emit(k, e) => if pos < e <= b.len() {
                prepend_tokens(seq![TokenView { kind: k, start: pos, end: e }], lex_from(b, e))
            } else {
                LexOutcome::Panic
            },
            Step::Fail(err) => LexOutcome::Error(err),
            Step::Panic => LexOutcome::Panic,
        }
    }
}

/// What lexing a text produces.
pub open spec fn spec_lex(src: &str) -> LexOutcome {
    lex_from(src.spec_bytes(), 0)
}


// ─── Executable scanning ───────────────────────────────────────────────────

fn is_digit(c: u8) -> (r: bool)
    ensures
        r == is_digit_byte(c),
{
    48 <= c && c <= 57
}

fn is_ascii_alpha(c: u8) -> (r: bool)
    ensures
        r == is_ascii_alpha_byte(c),
{
    (65 <= c && c <= 90) || (97 <= c && c <= 122)
}

fn is_ident_continue(c: u8) -> (r: bool)
    ensures
        r == is_ident_continue_byte(c),
{
    is_ascii_alpha(c) || is_digit(c) || c == 0xaa || c == 0xb2 || c == 0xb3 || c == 0xb5 || c
        == 0xb9 || c == 0xba || (0xbc <= c && c <= 0xbe) || (0xc0 <= c && c <= 0xd6) || (0xd8
        <= c && c <= 0xf6) || 0xf8 <= c || c == 95
}

/// Whether the byte, read as a Latin-1 character, is alphabetic or numeric
/// in Unicode.
pub fn latin1_alnum(c: u8) -> (r: bool)
    ensures
        r == is_latin1_alnum_byte(c),
{
    c != 95 && is_ident_continue(c)
}

fn scan_digits(bytes: &[u8], i: usize) -> (r: usize)
    requires
        i <= bytes@.len(),
    ensures
        r == digits_end(bytes@, i as int),
        i <= r <= bytes@.len(),
{
    let mut j: usize = i;
    while j < bytes.len() && is_digit(bytes[j])
        invariant
            i <= j <= bytes@.len(),
            digits_end(bytes@, i as int) == digits_end(bytes@, j as int),
        decreases bytes@.len() - j,
    {
        j = j + 1;
    }
    j
}

fn scan_ident(bytes: &[u8], i: usize) -> (r: usize)
    requires
        i <= bytes@.len(),
    ensures
        r == ident_end(bytes@, i as int),
        i <= r <= bytes@.len(),
{
    let mut j: usize = i;
    while j < bytes.len() && is_ident_continue(bytes[j])
        invariant
            i <= j <= bytes@.len(),
            ident_end(bytes@, i as int) == ident_end(bytes@, j as int),
        decreases bytes@.len() - j,
    {
        j = j + 1;
    }
    j
}

fn scan_line(bytes: &[u8], i: usize) -> (r: usize)
    requires
        i <= bytes@.len(),
    ensures
        r == line_end(bytes@, i as int),
        i <= r <= bytes@.len(),
{
    let mut j: usize = i;
    while j < bytes.len() && bytes[j] != 10
        invariant
            i <= j <= bytes@.len(),
            line_end(bytes@, i as int) == line_end(bytes@, j as int),
        decreases bytes@.len() - j,
    {
        j = j + 1;
    }
    j
}

/// The bytes `a..e` read as Latin-1 characters.
fn latin1_string(bytes: &[u8], a: usize, e: usize) -> (r: String)
    requires
        a <= e <= bytes@.len(),
    ensures
        r@ == latin1_chars(bytes@.subrange(a as int, e as int)),
{
    let mut s = String::new();
    let mut i: usize = a;
    while i < e
        invariant
            a <= i <= e <= bytes@.len(),
            s@ == latin1_chars(bytes@.subrange(a as int, i as int)),
        decreases e - i,
    {
        let c = bytes[i] as char;
        push_char(&mut s, c);
        i = i + 1;
        assert(s@ =~= latin1_chars(bytes@.subrange(a as int, i as int)));
    }
    s
}

/// Appending a digit multiplies the decimal value by ten and adds the digit.
proof fn lemma_decimal_push(b: Seq<u8>, a: int, i: int)
    requires
        0 <= a <= i < b.len(),
    ensures
        decimal_value(b.subrange(a, i + 1)) == decimal_value(b.subrange(a, i)) * 10 + ((b[i]
            - 48) as nat),
{
    assert(b.subrange(a, i + 1).drop_last() =~= b.subrange(a, i));
}

/// The decimal value never shrinks as digits are appended.
proof fn lemma_decimal_grows(b: Seq<u8>, a: int, i: int, e: int)
    requires
        0 <= a <= i <= e <= b.len(),
        forall|k: int| a <= k < e ==> is_digit_byte(#[trigger] b[k]),
    ensures
        decimal_value(b.subrange(a, i)) <= decimal_value(b.subrange(a, e)),
    decreases e - i,
{
    if i < e {
        lemma_decimal_push(b, a, i);
        lemma_decimal_grows(b, a, i + 1, e);
    }
}

/// Every byte before `digits_end` is a digit.
proof fn lemma_digits_end_digits(b: Seq<u8>, i: int)
    requires
        0 <= i <= b.len(),
    ensures
        i <= digits_end(b, i) <= b.len(),
        forall|k: int| i <= k < digits_end(b, i) ==> is_digit_byte(#[trigger] b[k]),
        digits_end(b, i) < b.len() ==> !is_digit_byte(b[digits_end(b, i)]),
    decreases b.len() - i,
{
    if i < b.len() && is_digit_byte(b[i]) {
        lemma_digits_end_digits(b, i + 1);
    }
}

/// The value of the digits `a..e` when it fits in an `i64`.
fn decimal_i64(bytes: &[u8], a: usize, e: usize) -> (r: Option<i64>)
    requires
        a <= e <= bytes@.len(),
        forall|k: int| a <= k < e ==> is_digit_byte(#[trigger] bytes@[k]),
    ensures
        match r {
            Some(v) => decimal_value(bytes@.subrange(a as int, e as int)) <= i64::MAX && v
                == decimal_value(bytes@.subrange(a as int, e as int)),
            None => decimal_value(bytes@.subrange(a as int, e as int)) > i64::MAX,
        },
{
    let mut v: u64 = 0;
    let mut i: usize = a;
    assert(bytes@.subrange(a as int, a as int) =~= Seq::<u8>::empty());
    while i < e
        invariant
            a <= i <= e <= bytes@.len(),
            forall|k: int| a <= k < e ==> is_digit_byte(#[trigger] bytes@[k]),
            v == decimal_value(bytes@.subrange(a as int, i as int)),
            v <= i64::MAX,
        decreases e - i,
    {
        let d: u8 = bytes[i] - 48;
        proof {
            lemma_decimal_push(bytes@, a as int, i as int);
        }
        let nv: u128 = (v as u128) * 10 + (d as u128);
        if nv > 9223372036854775807u128 {
            proof {
                lemma_decimal_grows(bytes@, a as int, (i + 1) as int, e as int);
            }
            return None;
        }
        v = nv as u64;
        i = i + 1;
    }
    Some(v as i64)
}


/// What one executable step of the lexer produced.
enum Scanned {
    Skip(usize),
    Emit(TokenKind, usize),
    Fail(LexError),
}

impl View for Scanned {
    type V = Step;

    closed spec fn view(&self) -> Step {
        match self {
            Scanned::Skip(p) => Step::Skip(*p as int),
            Scanned::Emit(k, e) => Step::Emit(k@, *e as int),
            Scanned::Fail(err) => Step::Fail(err@),
        }
    }
}

/// The step ends after `pos` and no later than `len`.
spec fn advances(r: Scanned, pos: int, len: int) -> bool {
    match r {
        Scanned::Skip(p) => pos < p <= len,
        Scanned::Emit(_, e) => pos < e <= len,
        Scanned::Fail(_) => true,
    }
}

/// Whether the text of `t` is exactly `w`.
fn text_is(t: &String, w: &str) -> (r: bool)
    ensures
        r == (t@ == w@),
{
    let s = string_of(w);
    *t == s
}

/// The keyword spelled by `t`, or an identifier with that text.
fn word_kind_of(t: String) -> (k: TokenKind)
    ensures
        k@ == word_kind(t@),
{
    if text_is(&t, "fn") {
        TokenKind::Fn
    } else if text_is(&t, "let") {
        TokenKind::Let
    } else if text_is(&t, "true") {
        TokenKind::True
    } else if text_is(&t, "false") {
        TokenKind::False
    } else if text_is(&t, "if") {
        TokenKind::If
    } else if text_is(&t, "else") {
        TokenKind::Else
    } else if text_is(&t, "while") {
        TokenKind::While
    } else if text_is(&t, "return") {
        TokenKind::Return
    } else if text_is(&t, "mut") {
        TokenKind::Mut
    } else if text_is(&t, "struct") {
        TokenKind::Struct
    } else if text_is(&t, "enum") {
        TokenKind::Enum
    } else if text_is(&t, "match") {
        TokenKind::Match
    } else if text_is(&t, "trait") {
        TokenKind::Trait
    } else if text_is(&t, "impl") {
        TokenKind::Impl
    } else if text_is(&t, "for") {
        TokenKind::For
    } else if text_is(&t, "self") {
        TokenKind::SelfValue
    } else if text_is(&t, "Self") {
        TokenKind::SelfType
    } else if text_is(&t, "spawn") {
        TokenKind::Spawn
    } else if text_is(&t, "channel") {
        TokenKind::Channel
    } else if text_is(&t, "mutex") {
        TokenKind::Mutex
    } else if text_is(&t, "array") {
        TokenKind::Array
    } else if text_is(&t, "in") {
        TokenKind::In
    } else if text_is(&t, "import") {
        TokenKind::Import
    } else if text_is(&t, "g") {
        TokenKind::Global
    } else if text_is(&t, "break") {
        TokenKind::Break
    } else if text_is(&t, "continue") {
        TokenKind::Continue
    } else {
        TokenKind::Identifier(t)
    }
}

fn single_kind_of(c: u8) -> (r: Option<TokenKind>)
    ensures
        r == single_kind(c),
{
    if c == 40 {
        Some(TokenKind::LParen)
    } else if c == 41 {
        Some(TokenKind::RParen)
    } else if c == 123 {
        Some(TokenKind::LBrace)
    } else if c == 125 {
        Some(TokenKind::RBrace)
    } else if c == 91 {
        Some(TokenKind::LBracket)
    } else if c == 93 {
        Some(TokenKind::RBracket)
    } else if c == 44 {
        Some(TokenKind::Comma)
    } else if c == 46 {
        Some(TokenKind::Dot)
    } else if c == 63 {
        Some(TokenKind::Question)
    } else {
        None
    }
}

fn pair_kind_of(c: u8, d: u8) -> (r: Option<TokenKind>)
    ensures
        r == pair_kind(c, d),
{
    if c == 43 && d == 61 {
        Some(TokenKind::PlusEq)
    } else if c == 45 && d == 61 {
        Some(TokenKind::MinusEq)
    } else if c == 42 && d == 61 {
        Some(TokenKind::StarEq)
    } else if c == 47 && d == 61 {
        Some(TokenKind::SlashEq)
    } else if c == 37 && d == 61 {
        Some(TokenKind::PercentEq)
    } else if c == 61 && d == 61 {
        Some(TokenKind::EqEq)
    } else if c == 61 && d == 62 {
        Some(TokenKind::FatArrow)
    } else if c == 33 && d == 61 {
        Some(TokenKind::NotEq)
    } else if c == 60 && d == 61 {
        Some(TokenKind::LtEq)
    } else if c == 62 && d == 61 {
        Some(TokenKind::GtEq)
    } else if c == 38 && d == 38 {
        Some(TokenKind::And)
    } else if c == 124 && d == 124 {
        Some(TokenKind::Or)
    } else if c == 58 && d == 58 {
        Some(TokenKind::ColonColon)
    } else if c == 58 && d == 61 {
        Some(TokenKind::ColonEq)
    } else {
        None
    }
}

fn lone_kind_of(c: u8) -> (r: Option<TokenKind>)
    ensures
        r == lone_kind(c),
{
    if c == 43 {
        Some(TokenKind::Plus)
    } else if c == 45 {
        Some(TokenKind::Minus)
    } else if c == 42 {
        Some(TokenKind::Star)
    } else if c == 47 {
        Some(TokenKind::Slash)
    } else if c == 37 {
        Some(TokenKind::Percent)
    } else if c == 61 {
        Some(TokenKind::Eq)
    } else if c == 33 {
        Some(TokenKind::Bang)
    } else if c == 60 {
        Some(TokenKind::Lt)
    } else if c == 62 {
        Some(TokenKind::Gt)
    } else if c == 124 {
        Some(TokenKind::Pipe)
    } else if c == 58 {
        Some(TokenKind::Colon)
    } else {
        single_kind_of(c)
    }
}

fn symbol_token(bytes: &[u8], pos: usize) -> (r: Scanned)
    requires
        pos < bytes@.len(),
    ensures
        r@ == symbol_step(bytes@, pos as int),
        advances(r, pos as int, bytes@.len() as int),
{
    let c: u8 = bytes[pos];
    if pos < bytes.len() - 1 {
        if let Some(k) = pair_kind_of(c, bytes[pos + 1]) {
            return Scanned::Emit(k, pos + 2);
        }
    }
    match lone_kind_of(c) {
        Some(k) => Scanned::Emit(k, pos + 1),
        None => {
            let mut m = string_of("unexpected character '");
            push_char(&mut m, c as char);
            let m = concat_str(m, "'");
            assert(m@ =~= "unexpected character '"@ + seq![c as char] + "'"@);
            Scanned::Fail(LexError { message: m, span: pos..pos + 1 })
        },
    }
}

fn number_token(bytes: &[u8], pos: usize) -> (r: Scanned)
    requires
        pos < bytes@.len(),
        is_digit_byte(bytes@[pos as int]),
    ensures
        r@ == number_step(bytes@, pos as int),
        advances(r, pos as int, bytes@.len() as int),
{
    let len: usize = bytes.len();
    let e1: usize = scan_digits(bytes, pos);
    proof {
        lemma_digits_end_digits(bytes@, pos as int);
    }
    if e1 < len && len - e1 > 1 && bytes[e1] == 46 && is_digit(bytes[e1 + 1]) {
        let e2: usize = scan_digits(bytes, e1 + 1);
        let text = latin1_string(bytes, pos, e2);
        Scanned::Emit(TokenKind::FloatLiteral(text), e2)
    } else {
        match decimal_i64(bytes, pos, e1) {
            Some(v) => Scanned::Emit(TokenKind::IntLiteral(v), e1),
            None => {
                let text = latin1_string(bytes, pos, e1);
                let m = concat_str(string_of("integer literal '"), text.as_str());
                let m = concat_str(m, "' overflows i64");
                Scanned::Fail(LexError { message: m, span: pos..e1 })
            },
        }
    }
}

fn word_token(src: &str, bytes: &[u8], pos: usize) -> (r: Scanned)
    requires
        bytes@ == src.spec_bytes(),
        pos < bytes@.len() < usize::MAX,
        is_ident_start_byte(bytes@[pos as int]),
        !(word_step(bytes@, pos as int) is Panic),
    ensures
        r@ == word_step(bytes@, pos as int),
        advances(r, pos as int, bytes@.len() as int),
{
    let e: usize = scan_ident(bytes, pos + 1);
    proof {
        assert(valid_utf8(bytes@));
        lemma_boundary_at_non_continuation(bytes@, pos as int);
    }
    let text = text_between(src, pos, e);
    let k = word_kind_of(text);
    Scanned::Emit(k, e)
}


/// The executable form of `brace_probe` started with one brace open.
fn probe_braces(bytes: &[u8], p: usize) -> (r: (usize, usize))
    requires
        p <= bytes@.len(),
        bytes@.len() < usize::MAX,
    ensures
        r.0 as int == brace_probe(bytes@, p as int, 1).0,
        r.1 as nat == brace_probe(bytes@, p as int, 1).1,
{
    let len: usize = bytes.len();
    let mut q: usize = p;
    let mut depth: usize = 1;
    while q < len && depth > 0 && bytes[q] != 34 && bytes[q] != 92
        invariant
            p <= q <= len,
            len == bytes@.len(),
            len < usize::MAX,
            depth <= q - p + 1,
            brace_probe(bytes@, p as int, 1) == brace_probe(bytes@, q as int, depth as nat),
        decreases len - q, depth,
    {
        let d2: usize = if bytes[q] == 123 {
            depth + 1
        } else if bytes[q] == 125 {
            depth - 1
        } else {
            depth
        };
        if d2 > 0 {
            q = q + 1;
            depth = d2;
        } else {
            depth = 0;
        }
    }
    (q, depth)
}

/// Whether the UTF-8 bytes of `t` spell a simple identifier.
fn simple_ident(t: &String) -> (r: bool)
    ensures
        r == is_simple_ident(encode_utf8(t@)),
{
    let bs = t.as_str().as_bytes();
    if bs.len() == 0 {
        return false;
    }
    if !(is_ascii_alpha(bs[0]) || bs[0] == 95) {
        return false;
    }
    let mut i: usize = 0;
    while i < bs.len()
        invariant
            0 <= i <= bs@.len(),
            bs@ == encode_utf8(t@),
            forall|k: int| 0 <= k < i ==> is_word_byte(#[trigger] bs@[k]),
        decreases bs@.len() - i,
    {
        if !(is_ascii_alpha(bs[i]) || is_digit(bs[i]) || bs[i] == 95) {
            assert(!is_word_byte(bs@[i as int]));
            return false;
        }
        i = i + 1;
    }
    true
}

/// Appends the pending literal to `parts` when it is not empty.
fn flush_pending(parts: &mut Vec<StringPart>, cur: String)
    ensures
        parts_view(final(parts)@) == flush_literal(parts_view(old(parts)@), cur@),
{
    if !cur.as_str().is_empty() {
        let ghost before = parts@;
        parts.push(StringPart::Literal(cur));
        assert(parts_view(parts@) =~= parts_view(before).push(PartView::Literal(cur@)));
    }
}

/// A regular (single-quote-delimited) string literal opened at `start`.
fn regular_string(src: &str, bytes: &[u8], start: usize) -> (r: Scanned)
    requires
        bytes@ == src.spec_bytes(),
        start < bytes@.len() < usize::MAX,
        bytes@[start as int] == 34,
    ensures
        r@ == string_body(bytes@, start as int, start + 1, Seq::empty(), false, Seq::empty()),
        advances(r, start as int, bytes@.len() as int),
{
    let len: usize = bytes.len();
    let ghost b = bytes@;
    let ghost target = string_body(b, start as int, start + 1, Seq::empty(), false, Seq::empty());
    let mut i: usize = start + 1;
    let mut parts: Vec<StringPart> = Vec::new();
    let mut interp = false;
    let mut cur = String::new();
    assert(parts_view(parts@) =~= Seq::<PartView>::empty());
    while i < len && bytes[i] != 34
        invariant
            start < i <= len,
            len == b.len(),
            len < usize::MAX,
            b == bytes@,
            b == src.spec_bytes(),
            target == string_body(b, start as int, i as int, parts_view(parts@), interp, cur@),
        decreases len - i,
    {
        let c: u8 = bytes[i];
        if c == 92 {
            if len - i > 1 {
                let x: u8 = bytes[i + 1];
                if x == 110 {
                    push_char(&mut cur, '\n');
                    i = i + 2;
                } else if x == 116 {
                    push_char(&mut cur, '\t');
                    i = i + 2;
                } else if x == 92 {
                    push_char(&mut cur, '\\');
                    i = i + 2;
                } else if x == 34 {
                    push_char(&mut cur, '"');
                    i = i + 2;
                } else if x == 123 {
                    push_char(&mut cur, '{');
                    i = i + 2;
                } else {
                    push_char(&mut cur, '\\');
                    i = i + 1;
                }
            } else {
                push_char(&mut cur, '\\');
                i = i + 1;
            }
        } else if c == 123 {
            let (probe, depth) = probe_braces(bytes, i + 1);
            proof {
                lemma_brace_probe_bounds(b, i + 1, 1);
            }
            if probe < len && depth == 0 {
                proof {
                    assert(valid_utf8(b));
                    assert(!is_continuation_byte(b[i + 1])) by {
                        if is_continuation_byte(b[i + 1]) {
                            lemma_continuation_follows_multibyte(b, i + 1);
                        }
                    }
                    lemma_boundary_at_non_continuation(b, i + 1);
                    assert(b[probe as int] == 125) by {
                        reveal_with_fuel(brace_probe, 2);
                        lemma_probe_zero_at_close(b, (i + 1) as int, 1);
                    }
                    lemma_boundary_at_non_continuation(b, probe as int);
                }
                let raw = text_between(src, i + 1, probe);
                let content = string_of(trim_str(raw.as_str()));
                if !content.as_str().is_empty() {
                    let old_cur = cur;
                    cur = String::new();
                    flush_pending(&mut parts, old_cur);
                    let is_id = simple_ident(&content);
                    let part = if is_id {
                        StringPart::Ident(content)
                    } else {
                        StringPart::Expr(content)
                    };
                    let ghost pv = part@;
                    let ghost before = parts@;
                    parts.push(part);
                    assert(parts_view(parts@) =~= parts_view(before).push(pv));
                    interp = true;
                    i = probe + 1;
                } else {
                    push_char(&mut cur, '{');
                    i = i + 1;
                }
            } else {
                push_char(&mut cur, '{');
                i = i + 1;
            }
        } else {
            push_char(&mut cur, c as char);
            i = i + 1;
        }
    }
    if i >= len {
        let m = string_of("unterminated string literal");
        return Scanned::Fail(LexError { message: m, span: start..i });
    }
    i = i + 1;
    if interp {
        flush_pending(&mut parts, cur);
        Scanned::Emit(TokenKind::InterpolatedString(parts), i)
    } else {
        Scanned::Emit(TokenKind::StringLiteral(cur), i)
    }
}

/// When the probe stops with no brace left open, it stops at a `}`.
proof fn lemma_probe_zero_at_close(b: Seq<u8>, p: int, depth: nat)
    requires
        depth > 0,
        0 <= p,
        brace_probe(b, p, depth).1 == 0,
    ensures
        0 <= brace_probe(b, p, depth).0 < b.len(),
        b[brace_probe(b, p, depth).0] == 125,
    decreases b.len() - p,
{
    if 0 <= p < b.len() && depth > 0 && !(b[p] == 34 || b[p] == 92) {
        let d2: nat = if b[p] == 123 {
            depth + 1
        } else if b[p] == 125 {
            (depth - 1) as nat
        } else {
            depth
        };
        if d2 > 0 {
            lemma_probe_zero_at_close(b, p + 1, d2);
        }
    }
}

/// A triple-quoted string whose opening quotes are at `pos`.
fn triple_token(src: &str, bytes: &[u8], pos: usize) -> (r: Scanned)
    requires
        bytes@ == src.spec_bytes(),
        pos + 2 < bytes@.len(),
        bytes@[pos as int] == 34,
        bytes@[pos + 1] == 34,
        bytes@[pos + 2] == 34,
    ensures
        r@ == triple_step(bytes@, pos as int),
        advances(r, pos as int, bytes@.len() as int),
{
    let len: usize = bytes.len();
    let ghost b = bytes@;
    let mut k: usize = pos + 3;
    while k < len && len - k > 2 && !(bytes[k] == 34 && bytes[k + 1] == 34 && bytes[k + 2] == 34)
        invariant
            pos + 3 <= k <= len,
            len == b.len(),
            b == bytes@,
            triple_close(b, pos + 3) == triple_close(b, k as int),
            pos + 5 >= len ==> k == pos + 3,
            pos + 5 < len ==> k <= len - 2,
        decreases len - k,
    {
        k = k + 1;
    }
    if !(k < len && len - k > 2) {
        let m = string_of("unterminated multiline string");
        return Scanned::Fail(LexError { message: m, span: pos..k });
    }
    proof {
        assert(valid_utf8(b));
        lemma_boundary_at_non_continuation(b, pos + 2);
        lemma_boundary_after_ascii(b, pos + 2);
        lemma_boundary_at_non_continuation(b, k as int);
    }
    let content = text_between(src, pos + 3, k);
    Scanned::Emit(TokenKind::StringLiteral(content), k + 3)
}


fn string_token(src: &str, bytes: &[u8], pos: usize) -> (r: Scanned)
    requires
        bytes@ == src.spec_bytes(),
        pos < bytes@.len() < usize::MAX,
        bytes@[pos as int] == 34,
    ensures
        r@ == string_step(bytes@, pos as int),
        advances(r, pos as int, bytes@.len() as int),
{
    let len: usize = bytes.len();
    if len - pos > 2 && bytes[pos + 1] == 34 && bytes[pos + 2] == 34 {
        triple_token(src, bytes, pos)
    } else {
        regular_string(src, bytes, pos)
    }
}

/// One step of the lexer at `pos`.
fn lex_step(src: &str, bytes: &[u8], pos: usize) -> (r: Scanned)
    requires
        bytes@ == src.spec_bytes(),
        pos < bytes@.len() < usize::MAX,
        !(step(bytes@, pos as int) is Panic),
    ensures
        r@ == step(bytes@, pos as int),
        advances(r, pos as int, bytes@.len() as int),
{
    let len: usize = bytes.len();
    let c: u8 = bytes[pos];
    if c == 32 || c == 9 || c == 13 || c == 10 {
        Scanned::Skip(pos + 1)
    } else if c == 47 && len - pos > 1 && bytes[pos + 1] == 47 {
        let e: usize = scan_line(bytes, pos + 1);
        Scanned::Skip(e)
    } else if is_digit(c) {
        number_token(bytes, pos)
    } else if is_ascii_alpha(c) || c == 95 {
        word_token(src, bytes, pos)
    } else if c == 34 {
        string_token(src, bytes, pos)
    } else {
        symbol_token(bytes, pos)
    }
}

/// The body of a regular string never panics.
proof fn lemma_string_body_no_panic(
    b: Seq<u8>,
    start: int,
    i: int,
    parts: Seq<PartView>,
    interp: bool,
    cur: Seq<char>,
)
    ensures
        !(string_body(b, start, i, parts, interp, cur) is Panic),
    decreases b.len() - i,
{
    if 0 <= i < b.len() && b[i] != 34 {
        if b[i] == 92 {
            if i + 1 < b.len() {
                match escape_char(b[i + 1]) {
                    Some(c) => lemma_string_body_no_panic(b, start, i + 2, parts, interp, cur.push(c)),
                    None => lemma_string_body_no_panic(b, start, i + 1, parts, interp, cur.push('\\')),
                }
            } else {
                lemma_string_body_no_panic(b, start, i + 1, parts, interp, cur.push('\\'));
            }
        } else if b[i] == 123 {
            let (probe, depth) = brace_probe(b, i + 1, 1);
            lemma_brace_probe_bounds(b, i + 1, 1);
            if probe < b.len() && depth == 0 {
                let content = trim_white_space(decode_utf8(b.subrange(i + 1, probe)));
                if content.len() > 0 {
                    let part = if is_simple_ident(encode_utf8(content)) {
                        PartView::Ident(content)
                    } else {
                        PartView::Expr(content)
                    };
                    lemma_string_body_no_panic(b, start, probe + 1, flush_literal(parts, cur).push(part), true, Seq::empty());
                } else {
                    lemma_string_body_no_panic(b, start, i + 1, parts, interp, cur.push('{'));
                }
            } else {
                lemma_string_body_no_panic(b, start, i + 1, parts, interp, cur.push('{'));
            }
        } else {
            lemma_string_body_no_panic(b, start, i + 1, parts, interp, cur.push(b[i] as char));
        }
    }
}

/// Whether the lexer's step at `pos` panics: an identifier that ends
/// inside a multi-byte character.
fn step_panics(src: &str, bytes: &[u8], pos: usize) -> (r: bool)
    requires
        bytes@ == src.spec_bytes(),
        pos < bytes@.len() < usize::MAX,
    ensures
        r == (step(bytes@, pos as int) is Panic),
{
    let len: usize = bytes.len();
    let c: u8 = bytes[pos];
    if c == 32 || c == 9 || c == 13 || c == 10 {
        false
    } else if c == 47 && len - pos > 1 && bytes[pos + 1] == 47 {
        false
    } else if is_digit(c) {
        false
    } else if is_ascii_alpha(c) || c == 95 {
        let e: usize = scan_ident(bytes, pos + 1);
        assert(valid_utf8(bytes@));
        assert(ident_end(bytes@, pos as int) == e);
        if e < len && 0x80 <= bytes[e] && bytes[e] <= 0xbf {
            proof {
                if is_char_boundary(bytes@, e as int) {
                    lemma_boundary_not_continuation(bytes@, e as int);
                }
            }
            true
        } else {
            proof {
                lemma_boundary_at_non_continuation(bytes@, e as int);
            }
            false
        }
    } else {
        proof {
            lemma_string_body_no_panic(bytes@, pos as int, pos + 1, Seq::empty(), false, Seq::empty());
        }
        false
    }
}

/// Whether lexing the text panics, which `lex` and `parse` leave out.
pub fn lex_panics(source: &str) -> (r: bool)
    requires
        source.spec_bytes().len() < usize::MAX,
    ensures
        r == (spec_lex(source) is Panic),
{
    let bytes = source.as_bytes();
    let len: usize = bytes.len();
    let ghost b = bytes@;
    let mut pos: usize = 0;
    while pos < len
        invariant
            pos <= len,
            len == b.len(),
            b == bytes@,
            b == source.spec_bytes(),
            len < usize::MAX,
            (spec_lex(source) is Panic) == (lex_from(b, pos as int) is Panic),
        decreases len - pos,
    {
        if step_panics(source, bytes, pos) {
            return true;
        }
        match lex_step(source, bytes, pos) {
            Scanned::Skip(p) => {
                pos = p;
            },
            Scanned::Emit(_, e) => {
                pos = e;
            },
            Scanned::Fail(_) => {
                return false;
            },
        }
    }
    false
}

/// Lex the given source string into a sequence of tokens.
///
/// The returned `Vec<Token>` always ends with a `TokenKind::Eof` token.
/// Returns `Err(LexError)` on the first unexpected character.
pub fn lex(source: &str) -> (r: Result<Vec<Token>, LexError>)
    requires
        !(spec_lex(source) is Panic),
        source.spec_bytes().len() < usize::MAX,
    ensures
        match r {
            Ok(ts) => spec_lex(source) == LexOutcome::Tokens(tokens_view(ts@)),
            Err(e) => spec_lex(source) == LexOutcome::Error(e@),
        },
        r matches Ok(ts) ==> well_placed(tokens_view(ts@), source.spec_bytes().len() as int),
        r matches Err(e) ==> error_in_text(e@, source.spec_bytes().len() as int),
{
    proof {
        lemma_lex_shape(source);
    }
    let bytes = source.as_bytes();
    let len: usize = bytes.len();
    let ghost b = bytes@;
    let mut tokens: Vec<Token> = Vec::new();
    let mut pos: usize = 0;
    assert(tokens_view(tokens@) =~= Seq::<TokenView>::empty());
    assert(prepend_tokens(Seq::empty(), lex_from(b, 0)) == lex_from(b, 0)) by {
        if let LexOutcome::Tokens(rest) = lex_from(b, 0) {
            assert(Seq::<TokenView>::empty() + rest =~= rest);
        }
    }
    while pos < len
        invariant
            pos <= len,
            len == b.len(),
            b == bytes@,
            b == source.spec_bytes(),
            len < usize::MAX,
            spec_lex(source) == prepend_tokens(tokens_view(tokens@), lex_from(b, pos as int)),
            !(spec_lex(source) is Panic),
        decreases len - pos,
    {
        assert(!(lex_from(b, pos as int) is Panic));
        let r = lex_step(source, bytes, pos);
        match r {
            Scanned::Skip(p) => {
                pos = p;
            },
            Scanned::Emit(k, e) => {
                let ghost before = tokens@;
                let ghost tv = TokenView { kind: k@, start: pos as int, end: e as int };
                tokens.push(Token { kind: k, span: pos..e });
                assert(tokens_view(tokens@) =~= tokens_view(before) + seq![tv]);
                proof {
                    lemma_prepend_assoc(tokens_view(before), seq![tv], lex_from(b, e as int));
                }
                pos = e;
            },
            Scanned::Fail(err) => {
                assert(lex_from(b, pos as int) == LexOutcome::Error(err@));
                assert(spec_lex(source) == LexOutcome::Error(err@));
                proof {
                    lemma_lex_shape(source);
                }
                return Err(err);
            },
        }
    }
    let ghost before = tokens@;
    tokens.push(Token { kind: TokenKind::Eof, span: len..len });
    assert(tokens_view(tokens@) =~= tokens_view(before) + seq![eof_token(len as int)]);
    Ok(tokens)
}

/// Prepending in two steps is prepending the concatenation.
pub proof fn lemma_prepend_assoc(a: Seq<TokenView>, c: Seq<TokenView>, out: LexOutcome)
    ensures
        prepend_tokens(a, prepend_tokens(c, out)) == prepend_tokens(a + c, out),
{
    if let LexOutcome::Tokens(rest) = out {
        assert(a + (c + rest) =~= (a + c) + rest);
    }
}


// ─── Laws ─────────────────────────────────────────────────────────────────

/// Tokens that are well placed in a text of `n` bytes: the last token is the
/// end-of-input token at `n`, no other token is, and every other token
/// covers a non-empty range that ends before the next token starts.
pub open spec fn well_placed(ts: Seq<TokenView>, n: int) -> bool {
    &&& ts.len() >= 1
    &&& ts.last() == eof_token(n)
    &&& forall|i: int|
        0 <= i < ts.len() - 1 ==> {
            &&& (#[trigger] ts[i]).kind != KindView::Simple(TokenKind::Eof)
            &&& 0 <= ts[i].start < ts[i].end <= ts[i + 1].start
        }
}

/// An error range that lies inside a text of `n` bytes and is not empty.
pub open spec fn error_in_text(e: LexErrorView, n: int) -> bool {
    0 <= e.start < e.end <= n
}

/// A string body never produces the end-of-input kind, and its error
/// starts at the opening quote and ends inside the text.
proof fn lemma_string_body_shape(
    b: Seq<u8>,
    start: int,
    i: int,
    parts: Seq<PartView>,
    interp: bool,
    cur: Seq<char>,
)
    requires
        0 <= start < i <= b.len(),
    ensures
        string_body(b, start, i, parts, interp, cur) matches Step::Emit(k, _) ==> (k is Str
            || k is Interp),
        string_body(b, start, i, parts, interp, cur) matches Step::Fail(e) ==> e.start == start
            && start < e.end <= b.len(),
        !(string_body(b, start, i, parts, interp, cur) is Skip),
    decreases b.len() - i,
{
    if i < b.len() && b[i] != 34 {
        if b[i] == 92 {
            if i + 1 < b.len() {
                match escape_char(b[i + 1]) {
                    Some(c) => lemma_string_body_shape(b, start, i + 2, parts, interp, cur.push(c)),
                    None => lemma_string_body_shape(
                        b,
                        start,
                        i + 1,
                        parts,
                        interp,
                        cur.push('\\'),
                    ),
                }
            } else {
                lemma_string_body_shape(b, start, i + 1, parts, interp, cur.push('\\'));
            }
        } else if b[i] == 123 {
            let (probe, depth) = brace_probe(b, i + 1, 1);
            lemma_brace_probe_bounds(b, i + 1, 1);
            if probe < b.len() && depth == 0 {
                let content = trim_white_space(decode_utf8(b.subrange(i + 1, probe)));
                if content.len() > 0 {
                    let part = if is_simple_ident(encode_utf8(content)) {
                        PartView::Ident(content)
                    } else {
                        PartView::Expr(content)
                    };
                    lemma_string_body_shape(
                        b,
                        start,
                        probe + 1,
                        flush_literal(parts, cur).push(part),
                        true,
                        Seq::empty(),
                    );
                } else {
                    lemma_string_body_shape(b, start, i + 1, parts, interp, cur.push('{'));
                }
            } else {
                lemma_string_body_shape(b, start, i + 1, parts, interp, cur.push('{'));
            }
        } else {
            lemma_string_body_shape(b, start, i + 1, parts, interp, cur.push(b[i] as char));
        }
    }
}

/// A step never produces the end-of-input kind, and a failing step reports
/// a non-empty range inside the text.
proof fn lemma_step_shape(b: Seq<u8>, pos: int)
    requires
        0 <= pos < b.len(),
    ensures
        step(b, pos) matches Step::Emit(k, _) ==> k != KindView::Simple(TokenKind::Eof),
        step(b, pos) matches Step::Fail(e) ==> error_in_text(e, b.len() as int),
{
    let c = b[pos];
    lemma_digits_end_digits(b, pos);
    if is_digit_byte(c) {
        let e1 = digits_end(b, pos);
        if e1 + 1 < b.len() && b[e1] == 46 && is_digit_byte(b[e1 + 1]) {
        } else {
            assert(pos < e1) by {
                assert(digits_end(b, pos) == digits_end(b, pos + 1));
                lemma_digits_end_digits(b, pos + 1);
            }
        }
    } else if !is_space_byte(c) && !(c == 47 && pos + 1 < b.len() && b[pos + 1] == 47)
        && !is_ident_start_byte(c) && c == 34 {
        if pos + 2 < b.len() && b[pos + 1] == 34 && b[pos + 2] == 34 {
        } else {
            lemma_string_body_shape(b, pos, pos + 1, Seq::empty(), false, Seq::empty());
        }
    }
}

/// Lexing from `pos` gives well-placed tokens that all start at or after
/// `pos`, or an error inside the text.
pub proof fn lemma_lex_from_shape(b: Seq<u8>, pos: int)
    requires
        0 <= pos <= b.len(),
    ensures
        lex_from(b, pos) matches LexOutcome::Tokens(ts) ==> well_placed(ts, b.len() as int)
            && ts[0].start >= pos,
        lex_from(b, pos) matches LexOutcome::Error(e) ==> error_in_text(e, b.len() as int),
    decreases b.len() - pos,
{
    if pos < b.len() {
        lemma_step_shape(b, pos);
        match step(b, pos) {
            Step::Skip(p) => {
                if pos < p <= b.len() {
                    lemma_lex_from_shape(b, p);
                }
            },
            Step::Emit(k, e) => {
                if pos < e <= b.len() {
                    lemma_lex_from_shape(b, e);
                    if let LexOutcome::Tokens(rest) = lex_from(b, e) {
                        let t = TokenView { kind: k, start: pos, end: e };
                        let ts = seq![t] + rest;
                        assert(ts.last() == rest.last());
                        assert forall|i: int| 0 <= i < ts.len() - 1 implies {
                            &&& (#[trigger] ts[i]).kind != KindView::Simple(TokenKind::Eof)
                            &&& 0 <= ts[i].start < ts[i].end <= ts[i + 1].start
                        } by {
                            if i > 0 {
                                assert(ts[i] == rest[i - 1]);
                                assert(ts[i + 1] == rest[i]);
                            }
                        }
                    }
                }
            },
            _ => {},
        }
    }
}

/// Every successful lex ends with the end-of-input token at the end of the
/// text and nowhere else, and the other tokens are non-empty, in order and
/// do not overlap; every lexing error points at a non-empty range inside
/// the text.
pub proof fn lemma_lex_shape(src: &str)
    ensures
        spec_lex(src) matches LexOutcome::Tokens(ts) ==> well_placed(
            ts,
            src.spec_bytes().len() as int,
        ),
        spec_lex(src) matches LexOutcome::Error(e) ==> error_in_text(
            e,
            src.spec_bytes().len() as int,
        ),
{
    lemma_lex_from_shape(src.spec_bytes(), 0);
}

} // verus!
