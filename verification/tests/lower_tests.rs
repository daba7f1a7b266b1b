use lib::lower::{lower, Instruction, Module};
use lib::parser::parse;

fn lower_src(src: &str) -> Module {
    let program = parse(src).expect("parse error in test input");
    lower(&program, None, &Vec::new()).expect("lowering left out a form")
}

#[test]
fn lower_minimal() {
    let m = lower_src("fn main() Int { 42 }");
    assert_eq!(m.functions.len(), 1);
    let f = &m.functions[0];
    assert_eq!(f.name, "main");
    assert_eq!(f.body.len(), 2);
    assert!(matches!(&f.body[0], Instruction::Const { dest, value: 42 } if dest == "%0"));
    assert!(matches!(&f.body[1], Instruction::Ret { value } if value == "%0"));
}

#[test]
fn lower_function_call() {
    let m = lower_src("fn add(a Int, b Int) Int { a + b } fn main() Int { add(1, 2) }");
    assert_eq!(m.functions.len(), 2);
    assert_eq!(m.functions[0].params, vec!["arg0".to_string(), "arg1".to_string()]);
    assert!(m.functions[1].body.iter().any(|i| matches!(i, Instruction::Call { function, args, .. } if function == "add" && args.len() == 2)));
}

#[test]
fn lower_comparison() {
    let m = lower_src("fn main() Bool { 1 == 2 }");
    assert!(m.functions[0].body.iter().any(|i| matches!(i, Instruction::CmpOp { .. })));
}

#[test]
fn lower_if_else() {
    let m = lower_src("fn main() Int { if true { 1 } else { 2 } }");
    let body = &m.functions[0].body;
    assert!(body.iter().any(|i| matches!(i, Instruction::Branch { then_label, else_label, .. } if then_label == "then_0" && else_label == "else_1")));
    assert!(body.iter().any(|i| matches!(i, Instruction::Phi { .. })));
}

#[test]
fn lower_while_loop() {
    let m = lower_src("fn main() Int { let mut x Int = 0 while x < 10 { x = x + 1 } x }");
    let body = &m.functions[0].body;
    assert!(body.iter().any(|i| matches!(i, Instruction::Alloca { .. })));
    assert!(body.iter().any(|i| matches!(i, Instruction::Label { name } if name == "while_cond_0")));
    assert!(body.iter().any(|i| matches!(i, Instruction::Store { .. })));
}

#[test]
fn lower_print_int() {
    let m = lower_src("fn main() Int { print(42) }");
    assert!(m.functions[0].body.iter().any(|i| matches!(i, Instruction::PrintInt { .. })));
}

#[test]
fn lower_leaves_out_struct_literals() {
    let program = parse("struct P { x Int, } fn main() Int { let p = P { x: 1 } 0 }").expect("parse");
    assert!(lower(&program, None, &Vec::new()).is_none());
}
