use lib::lexer::lex;
use lib::token::{Token, TokenKind};
use lib::token::TokenKind::{IntLiteral, Identifier, StringLiteral, Fn, Let, Plus, Minus, Star, Slash, LParen, RParen, LBrace, RBrace, Comma, Colon, True, False, EqEq, NotEq, Lt, Gt, LtEq, GtEq, And, Or, Bang, If, Else, While, Return, Mut, Struct, Dot, Enum, Match, FatArrow, ColonColon, Trait, Impl, For, SelfValue, SelfType, Spawn, Channel, Mutex, Array, In, Import, Eof};

fn kinds(tokens: &[Token]) -> Vec<TokenKind> {
    tokens.iter().map(|t| t.kind.clone()).collect()
}

#[test]
fn lex_integer_literal() {
    let tokens = lex("42").unwrap();
    assert_eq!(kinds(&tokens), vec![IntLiteral(42), Eof]);
}

#[test]
fn lex_identifier() {
    let tokens = lex("foo").unwrap();
    assert_eq!(kinds(&tokens), vec![Identifier("foo".to_string()), Eof]);
}

#[test]
fn lex_fn_keyword() {
    let tokens = lex("fn").unwrap();
    assert_eq!(kinds(&tokens), vec![Fn, Eof]);
}

#[test]
fn lex_let_keyword() {
    let tokens = lex("let").unwrap();
    assert_eq!(kinds(&tokens), vec![Let, Eof]);
}

#[test]
fn lex_operators() {
    let tokens = lex("+ - * /").unwrap();
    assert_eq!(kinds(&tokens), vec![Plus, Minus, Star, Slash, Eof]);
}

#[test]
fn lex_delimiters_and_punctuation() {
    let tokens = lex("( ) { } , :").unwrap();
    assert_eq!(
        kinds(&tokens),
        vec![LParen, RParen, LBrace, RBrace, Comma, Colon, Eof]
    );
}

#[test]
fn lex_simple_function() {
    let tokens = lex("fn main() Int { 42 }").unwrap();
    assert_eq!(
        kinds(&tokens),
        vec![
            Fn,
            Identifier("main".to_string()),
            LParen,
            RParen,
            Identifier("Int".to_string()),
            LBrace,
            IntLiteral(42),
            RBrace,
            Eof,
        ]
    );
}

#[test]
fn lex_skips_whitespace_and_comments() {
    let tokens = lex("fn // comment\nmain").unwrap();
    assert_eq!(
        kinds(&tokens),
        vec![Fn, Identifier("main".to_string()), Eof]
    );
}

#[test]
fn lex_bool_keywords() {
    let tokens = lex("true false").unwrap();
    assert_eq!(kinds(&tokens), vec![True, False, Eof]);
}

#[test]
fn lex_comparison_operators() {
    let tokens = lex("== != < > <= >=").unwrap();
    assert_eq!(kinds(&tokens), vec![EqEq, NotEq, Lt, Gt, LtEq, GtEq, Eof]);
}

#[test]
fn lex_boolean_operators() {
    let tokens = lex("&& || !").unwrap();
    assert_eq!(kinds(&tokens), vec![And, Or, Bang, Eof]);
}

#[test]
fn lex_if_else_keywords() {
    let tokens = lex("if else").unwrap();
    assert_eq!(kinds(&tokens), vec![If, Else, Eof]);
}

#[test]
fn lex_eq_vs_eqeq() {
    let tokens = lex("= ==").unwrap();
    assert_eq!(kinds(&tokens), vec![TokenKind::Eq, EqEq, Eof]);
}

#[test]
fn lex_while_return_mut_keywords() {
    let tokens = lex("while return mut").unwrap();
    assert_eq!(kinds(&tokens), vec![While, Return, Mut, Eof]);
}

#[test]
fn lex_string_literal() {
    let tokens = lex(r#""hello""#).unwrap();
    assert_eq!(kinds(&tokens), vec![StringLiteral("hello".to_string()), Eof]);
}

#[test]
fn lex_struct_keyword() {
    let tokens = lex("struct").unwrap();
    assert_eq!(kinds(&tokens), vec![Struct, Eof]);
}

#[test]
fn lex_dot_token() {
    let tokens = lex("a.b").unwrap();
    assert_eq!(
        kinds(&tokens),
        vec![Identifier("a".to_string()), Dot, Identifier("b".to_string()), Eof]
    );
}

#[test]
fn lex_enum_match_keywords() {
    let tokens = lex("enum match").unwrap();
    assert_eq!(kinds(&tokens), vec![Enum, Match, Eof]);
}

#[test]
fn lex_fat_arrow() {
    let tokens = lex("=>").unwrap();
    assert_eq!(kinds(&tokens), vec![FatArrow, Eof]);
}

#[test]
fn lex_colon_colon() {
    let tokens = lex("::").unwrap();
    assert_eq!(kinds(&tokens), vec![ColonColon, Eof]);
}

#[test]
fn lex_trait_impl_for_keywords() {
    let tokens = lex("trait impl for").unwrap();
    assert_eq!(kinds(&tokens), vec![Trait, Impl, For, Eof]);
}

#[test]
fn lex_self_keywords() {
    let tokens = lex("self Self").unwrap();
    assert_eq!(kinds(&tokens), vec![SelfValue, SelfType, Eof]);
}

#[test]
fn lex_spawn_keyword() {
    let tokens = lex("spawn").unwrap();
    assert_eq!(kinds(&tokens), vec![Spawn, Eof]);
}

#[test]
fn lex_channel_keyword() {
    let tokens = lex("channel").unwrap();
    assert_eq!(kinds(&tokens), vec![Channel, Eof]);
}

#[test]
fn lex_mutex_keyword() {
    let tokens = lex("mutex").unwrap();
    assert_eq!(kinds(&tokens), vec![Mutex, Eof]);
}

#[test]
fn lex_array_keyword() {
    let tokens = lex("array").unwrap();
    assert_eq!(kinds(&tokens), vec![Array, Eof]);
}

#[test]
fn lex_in_keyword() {
    let tokens = lex("in").unwrap();
    assert_eq!(kinds(&tokens), vec![In, Eof]);
}

#[test]
fn lex_records_spans() {
    let tokens = lex("fn main").unwrap();
    // "fn" is at bytes 0..2, "main" at bytes 3..7
    assert_eq!(tokens[0].span, 0..2);
    assert_eq!(tokens[1].span, 3..7);
}

#[test]
fn lex_import_keyword() {
    let tokens = lex("import \"utils\"").unwrap();
    assert_eq!(
        kinds(&tokens),
        vec![Import, StringLiteral("utils".to_string()), Eof]
    );
}

#[test]
fn lex_pipe_token() {
    let tokens = lex("|x:I| I { x }").unwrap();
    assert_eq!(tokens[0].kind, TokenKind::Pipe);
    // Second pipe
    assert!(tokens.iter().filter(|t| t.kind == TokenKind::Pipe).count() == 2);
}
