use lib::ast::{Expr, Stmt};
use lib::captures::find_captures;
use lib::parser::parse;

fn captures_in(src: &str, stmt_index: usize, names: &[&str]) -> Vec<String> {
    let program = parse(src).expect("parse error in test input");
    let main = &program.functions[0];
    match &main.body[stmt_index] {
        Stmt::Let { value: Expr::Lambda { params, body, .. }, .. }
        | Stmt::Assign { value: Expr::Lambda { params, body, .. }, .. } => find_captures(body, params, &scope(names)),
        _ => panic!("statement {} is no lambda binding", stmt_index),
    }
}

fn scope(names: &[&str]) -> Vec<String> {
    names.iter().map(|n| n.to_string()).collect()
}

#[test]
fn captures_a_variable_of_the_scope() {
    let caps = captures_in("main() I { offset = 10\n f = |x:I| I { x + offset }\n 0 }", 1, &["offset", "f"]);
    assert_eq!(caps, vec!["offset".to_string()]);
}

#[test]
fn parameters_are_not_captured() {
    let caps = captures_in("main() I { x = 1\n f = |x:I| I { x + 1 }\n 0 }", 1, &["x"]);
    assert!(caps.is_empty());
}

#[test]
fn names_out_of_scope_are_not_captured() {
    let caps = captures_in("main() I { f = |x:I| I { x + y }\n 0 }", 0, &["z"]);
    assert!(caps.is_empty());
}

#[test]
fn captures_come_once_in_order_of_first_use() {
    let caps = captures_in("main() I { a = 1\n b = 2\n f = |x:I| I { b + a + b + x + a }\n 0 }", 2, &["a", "b"]);
    assert_eq!(caps, vec!["b".to_string(), "a".to_string()]);
}

#[test]
fn nested_lambda_bodies_are_not_entered() {
    let caps = captures_in("main() I { a = 1\n f = |x:I| I { h = |y:I| I { y + a }\n x }\n 0 }", 1, &["a"]);
    assert!(caps.is_empty());
}
