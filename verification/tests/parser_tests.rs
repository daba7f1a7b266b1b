use lib::parser::parse;
use lib::ast::{BinOp, Expr, Pattern, Stmt, UnaryOp};

#[test]
fn parse_minimal_function() {
    let prog = parse("fn main() Int { 42 }").unwrap();
    assert_eq!(prog.functions.len(), 1);
    let func = &prog.functions[0];
    assert_eq!(func.name, "main");
    assert_eq!(func.params.len(), 0);
    assert_eq!(func.return_type.name, "Int");
    assert_eq!(func.body.len(), 1);
    matches!(&func.body[0], Stmt::Expr(Expr::IntLiteral { value: 42, .. }));
    if let Stmt::Expr(Expr::IntLiteral { value, .. }) = &func.body[0] {
        assert_eq!(*value, 42);
    } else {
        panic!("expected IntLiteral(42)");
    }
}

#[test]
fn parse_let_binding() {
    let prog = parse("fn main() Int { let x Int = 42 x }").unwrap();
    let body = &prog.functions[0].body;
    assert_eq!(body.len(), 2);
    assert!(matches!(&body[0], Stmt::Let { name, .. } if name == "x"));
    assert!(matches!(&body[1], Stmt::Expr(Expr::Identifier { name, .. }) if name == "x"));
}

#[test]
fn parse_binary_expression() {
    let prog = parse("fn main() Int { 1 + 2 }").unwrap();
    let body = &prog.functions[0].body;
    assert_eq!(body.len(), 1);
    if let Stmt::Expr(Expr::BinaryOp { op, left, right, .. }) = &body[0] {
        assert_eq!(*op, BinOp::Add);
        assert!(matches!(left.as_ref(), Expr::IntLiteral { value: 1, .. }));
        assert!(matches!(right.as_ref(), Expr::IntLiteral { value: 2, .. }));
    } else {
        panic!("expected BinaryOp");
    }
}

#[test]
fn parse_operator_precedence() {
    // 1 + 2 * 3 should parse as 1 + (2 * 3)
    let prog = parse("fn main() Int { 1 + 2 * 3 }").unwrap();
    let body = &prog.functions[0].body;
    if let Stmt::Expr(Expr::BinaryOp { op, left, right, .. }) = &body[0] {
        assert_eq!(*op, BinOp::Add);
        assert!(matches!(left.as_ref(), Expr::IntLiteral { value: 1, .. }));
        if let Expr::BinaryOp { op: inner_op, left: il, right: ir, .. } = right.as_ref() {
            assert_eq!(*inner_op, BinOp::Mul);
            assert!(matches!(il.as_ref(), Expr::IntLiteral { value: 2, .. }));
            assert!(matches!(ir.as_ref(), Expr::IntLiteral { value: 3, .. }));
        } else {
            panic!("expected inner BinaryOp(Mul)");
        }
    } else {
        panic!("expected outer BinaryOp(Add)");
    }
}

#[test]
fn parse_function_call() {
    let prog = parse("fn main() Int { add(1, 2) }").unwrap();
    let body = &prog.functions[0].body;
    assert_eq!(body.len(), 1);
    if let Stmt::Expr(Expr::Call { function, args, .. }) = &body[0] {
        assert_eq!(function, "add");
        assert_eq!(args.len(), 2);
        assert!(matches!(&args[0], Expr::IntLiteral { value: 1, .. }));
        assert!(matches!(&args[1], Expr::IntLiteral { value: 2, .. }));
    } else {
        panic!("expected Call");
    }
}

#[test]
fn parse_function_with_params() {
    let prog = parse("fn add(a Int, b Int) Int { a + b }").unwrap();
    let func = &prog.functions[0];
    assert_eq!(func.name, "add");
    assert_eq!(func.params.len(), 2);
    assert_eq!(func.params[0].name, "a");
    assert_eq!(func.params[0].ty_name.name, "Int");
    assert_eq!(func.params[1].name, "b");
    assert_eq!(func.params[1].ty_name.name, "Int");
}

#[test]
fn parse_multiple_functions() {
    let src = "fn foo() Int { 1 } fn bar() Int { 2 }";
    let prog = parse(src).unwrap();
    assert_eq!(prog.functions.len(), 2);
    assert_eq!(prog.functions[0].name, "foo");
    assert_eq!(prog.functions[1].name, "bar");
}

#[test]
fn parse_bool_literal() {
    let prog = parse("fn main() Bool { true }").unwrap();
    if let Stmt::Expr(Expr::BoolLiteral { value, .. }) = &prog.functions[0].body[0] {
        assert_eq!(*value, true);
    } else {
        panic!("expected BoolLiteral(true)");
    }
}

#[test]
fn parse_comparison() {
    let prog = parse("fn main() Bool { 1 == 2 }").unwrap();
    if let Stmt::Expr(Expr::BinaryOp { op, .. }) = &prog.functions[0].body[0] {
        assert_eq!(*op, BinOp::Eq);
    } else {
        panic!("expected BinaryOp(Eq)");
    }
}

#[test]
fn parse_if_else_expr() {
    let prog = parse("fn main() Int { if true { 1 } else { 2 } }").unwrap();
    if let Stmt::Expr(Expr::If { then_expr, else_expr, .. }) = &prog.functions[0].body[0] {
        assert!(matches!(then_expr.as_ref(), Expr::IntLiteral { value: 1, .. }));
        assert!(matches!(else_expr.as_ref(), Expr::IntLiteral { value: 2, .. }));
    } else {
        panic!("expected If expression");
    }
}

#[test]
fn parse_unary_not() {
    let prog = parse("fn main() Bool { !true }").unwrap();
    if let Stmt::Expr(Expr::UnaryOp { op, operand, .. }) = &prog.functions[0].body[0] {
        assert_eq!(*op, UnaryOp::Not);
        assert!(matches!(operand.as_ref(), Expr::BoolLiteral { value: true, .. }));
    } else {
        panic!("expected UnaryOp(Not)");
    }
}

#[test]
fn parse_precedence_comparison_vs_arithmetic() {
    // 1 + 2 == 3 should parse as (1 + 2) == 3
    let prog = parse("fn main() Bool { 1 + 2 == 3 }").unwrap();
    if let Stmt::Expr(Expr::BinaryOp { op, left, .. }) = &prog.functions[0].body[0] {
        assert_eq!(*op, BinOp::Eq);
        assert!(matches!(left.as_ref(), Expr::BinaryOp { op: BinOp::Add, .. }));
    } else {
        panic!("expected BinaryOp(Eq) at top level");
    }
}

#[test]
fn parse_boolean_operators() {
    // true && false || true should parse as (true && false) || true
    let prog = parse("fn main() Bool { true && false || true }").unwrap();
    if let Stmt::Expr(Expr::BinaryOp { op, left, .. }) = &prog.functions[0].body[0] {
        assert_eq!(*op, BinOp::Or);
        assert!(matches!(left.as_ref(), Expr::BinaryOp { op: BinOp::And, .. }));
    } else {
        panic!("expected BinaryOp(Or) at top level");
    }
}

#[test]
fn parse_if_else_with_let() {
    let prog = parse("fn main() Int { if true { let x Int = 1 x } else { 2 } }").unwrap();
    if let Stmt::Expr(Expr::If { then_body, then_expr, .. }) = &prog.functions[0].body[0] {
        assert_eq!(then_body.len(), 1); // let x = 1
        assert!(matches!(then_expr.as_ref(), Expr::Identifier { name, .. } if name == "x"));
    } else {
        panic!("expected If expression");
    }
}

#[test]
fn parse_while_loop() {
    let prog = parse("fn main() Int { while true { 1 } 0 }").unwrap();
    let body = &prog.functions[0].body;
    assert_eq!(body.len(), 2);
    assert!(matches!(&body[0], Stmt::While { .. }));
}

#[test]
fn parse_return_stmt() {
    let prog = parse("fn main() Int { return 42 }").unwrap();
    let body = &prog.functions[0].body;
    assert_eq!(body.len(), 1);
    if let Stmt::Return { value, .. } = &body[0] {
        assert!(matches!(value, Expr::IntLiteral { value: 42, .. }));
    } else {
        panic!("expected Return statement");
    }
}

#[test]
fn parse_mutable_let() {
    let prog = parse("fn main() Int { let mut x Int = 0 x }").unwrap();
    if let Stmt::Let { name, mutable, .. } = &prog.functions[0].body[0] {
        assert_eq!(name, "x");
        assert!(*mutable);
    } else {
        panic!("expected mutable Let");
    }
}

#[test]
fn parse_assignment() {
    let prog = parse("fn main() Int { let mut x Int = 0 x = 42 x }").unwrap();
    let body = &prog.functions[0].body;
    assert_eq!(body.len(), 3);
    if let Stmt::Assign { name, .. } = &body[1] {
        assert_eq!(name, "x");
    } else {
        panic!("expected Assign statement");
    }
}

#[test]
fn parse_let_inferred_type() {
    let prog = parse("fn main() Int { let x = 42 x }").unwrap();
    if let Stmt::Let { name, ty_name, .. } = &prog.functions[0].body[0] {
        assert_eq!(name, "x");
        assert!(ty_name.is_none());
    } else {
        panic!("expected Let");
    }
}

#[test]
fn parse_let_mut_inferred_type() {
    let prog = parse("fn main() Int { let mut x = 0 x }").unwrap();
    if let Stmt::Let { name, mutable, ty_name, .. } = &prog.functions[0].body[0] {
        assert_eq!(name, "x");
        assert!(*mutable);
        assert!(ty_name.is_none());
    } else {
        panic!("expected mutable Let");
    }
}

#[test]
fn parse_string_literal() {
    let prog = parse(r#"fn main() Int { print("hello") }"#).unwrap();
    if let Stmt::Expr(Expr::Call { function, args, .. }) = &prog.functions[0].body[0] {
        assert_eq!(function, "print");
        assert!(matches!(&args[0], Expr::StringLiteral { value, .. } if value == "hello"));
    } else {
        panic!("expected print call");
    }
}

#[test]
fn parse_struct_def() {
    let prog = parse("struct Point { x Int, y Int, } fn main() Int { 0 }").unwrap();
    assert_eq!(prog.structs.len(), 1);
    let s = &prog.structs[0];
    assert_eq!(s.name, "Point");
    assert_eq!(s.fields.len(), 2);
    assert_eq!(s.fields[0].name, "x");
    assert_eq!(s.fields[0].ty_name.name, "Int");
    assert_eq!(s.fields[1].name, "y");
    assert_eq!(s.fields[1].ty_name.name, "Int");
}

#[test]
fn parse_struct_literal() {
    let prog = parse("fn main() Int { let p = Point { x: 1, y: 2 } 0 }").unwrap();
    let body = &prog.functions[0].body;
    if let Stmt::Let { value, .. } = &body[0] {
        if let Expr::StructLiteral { name, fields, .. } = value {
            assert_eq!(name, "Point");
            assert_eq!(fields.len(), 2);
            assert_eq!(fields[0].0, "x");
            assert_eq!(fields[1].0, "y");
        } else {
            panic!("expected StructLiteral, got {:?}", value);
        }
    } else {
        panic!("expected Let");
    }
}

#[test]
fn parse_field_access() {
    let prog = parse("fn main() Int { let p = Point { x: 1, y: 2 } p.x }").unwrap();
    let body = &prog.functions[0].body;
    assert_eq!(body.len(), 2);
    if let Stmt::Expr(Expr::FieldAccess { object, field, .. }) = &body[1] {
        assert_eq!(field, "x");
        assert!(matches!(object.as_ref(), Expr::Identifier { name, .. } if name == "p"));
    } else {
        panic!("expected FieldAccess, got {:?}", &body[1]);
    }
}

#[test]
fn parse_enum_def() {
    let prog = parse("enum Color { Red, Green, Blue, } fn main() Int { 0 }").unwrap();
    assert_eq!(prog.enums.len(), 1);
    let e = &prog.enums[0];
    assert_eq!(e.name, "Color");
    assert_eq!(e.variants.len(), 3);
    assert_eq!(e.variants[0].name, "Red");
    assert_eq!(e.variants[0].fields.len(), 0);
    assert_eq!(e.variants[1].name, "Green");
    assert_eq!(e.variants[2].name, "Blue");
}

#[test]
fn parse_enum_with_data() {
    let prog = parse("enum Shape { Circle(Int), Rectangle(Int, Int), } fn main() Int { 0 }").unwrap();
    let e = &prog.enums[0];
    assert_eq!(e.name, "Shape");
    assert_eq!(e.variants.len(), 2);
    assert_eq!(e.variants[0].name, "Circle");
    assert_eq!(e.variants[0].fields.len(), 1);
    assert_eq!(e.variants[0].fields[0].name, "Int");
    assert_eq!(e.variants[1].name, "Rectangle");
    assert_eq!(e.variants[1].fields.len(), 2);
}

#[test]
fn parse_enum_variant_expr() {
    let prog = parse("fn main() Int { let c = Color::Red 0 }").unwrap();
    let body = &prog.functions[0].body;
    if let Stmt::Let { value, .. } = &body[0] {
        if let Expr::EnumVariant { enum_name, variant_name, args, .. } = value {
            assert_eq!(enum_name, "Color");
            assert_eq!(variant_name, "Red");
            assert_eq!(args.len(), 0);
        } else {
            panic!("expected EnumVariant, got {:?}", value);
        }
    } else {
        panic!("expected Let");
    }
}

#[test]
fn parse_match_expr() {
    let prog = parse("fn main() Int { match Color::Red { Color::Red => 1, Color::Green => 2, } }").unwrap();
    let body = &prog.functions[0].body;
    if let Stmt::Expr(Expr::Match { arms, .. }) = &body[0] {
        assert_eq!(arms.len(), 2);
        if let Pattern::EnumVariant { enum_name, variant_name, .. } = &arms[0].pattern {
            assert_eq!(enum_name, "Color");
            assert_eq!(variant_name, "Red");
        } else {
            panic!("expected EnumVariant pattern");
        }
    } else {
        panic!("expected Match expression, got {:?}", &body[0]);
    }
}

#[test]
fn parse_trait_def() {
    let prog = parse("trait Describable { fn describe(self) Int } fn main() Int { 0 }").unwrap();
    assert_eq!(prog.traits.len(), 1);
    let t = &prog.traits[0];
    assert_eq!(t.name, "Describable");
    assert_eq!(t.methods.len(), 1);
    assert_eq!(t.methods[0].name, "describe");
    assert_eq!(t.methods[0].params.len(), 0); // self is not in params
    assert_eq!(t.methods[0].return_type.name, "Int");
}

#[test]
fn parse_impl_block() {
    let prog = parse("struct Point { x Int, y Int, } impl Point { fn sum(self) Int { self.x + self.y } } fn main() Int { 0 }").unwrap();
    assert_eq!(prog.impls.len(), 1);
    let imp = &prog.impls[0];
    assert_eq!(imp.trait_name, None);
    assert_eq!(imp.target_type, "Point");
    assert_eq!(imp.methods.len(), 1);
    assert_eq!(imp.methods[0].name, "sum");
    // First param is self with type Point
    assert_eq!(imp.methods[0].params[0].name, "self");
    assert_eq!(imp.methods[0].params[0].ty_name.name, "Point");
}

#[test]
fn parse_trait_impl() {
    let prog = parse("trait Describable { fn value(self) Int } struct Point { x Int, y Int, } impl Describable for Point { fn value(self) Int { self.x } } fn main() Int { 0 }").unwrap();
    assert_eq!(prog.impls.len(), 1);
    let imp = &prog.impls[0];
    assert_eq!(imp.trait_name, Some("Describable".to_string()));
    assert_eq!(imp.target_type, "Point");
}

#[test]
fn parse_method_call() {
    let prog = parse("fn main() Int { let p = Point { x: 1, y: 2 } p.sum() }").unwrap();
    let body = &prog.functions[0].body;
    if let Stmt::Expr(Expr::MethodCall { object, method, args, .. }) = &body[1] {
        assert_eq!(method, "sum");
        assert_eq!(args.len(), 0);
        assert!(matches!(object.as_ref(), Expr::Identifier { name, .. } if name == "p"));
    } else {
        panic!("expected MethodCall, got {:?}", &body[1]);
    }
}

#[test]
fn parse_method_call_with_args() {
    let prog = parse("fn main() Int { let p = Point { x: 1, y: 2 } p.add(3) }").unwrap();
    let body = &prog.functions[0].body;
    if let Stmt::Expr(Expr::MethodCall { method, args, .. }) = &body[1] {
        assert_eq!(method, "add");
        assert_eq!(args.len(), 1);
    } else {
        panic!("expected MethodCall, got {:?}", &body[1]);
    }
}

#[test]
fn parse_trait_method_with_params() {
    let prog = parse("trait Math { fn add(self, n Int) Int } fn main() Int { 0 }").unwrap();
    let t = &prog.traits[0];
    assert_eq!(t.methods[0].name, "add");
    assert_eq!(t.methods[0].params.len(), 1);
    assert_eq!(t.methods[0].params[0].name, "n");
    assert_eq!(t.methods[0].params[0].ty_name.name, "Int");
}

#[test]
fn parse_immutable_let() {
    let prog = parse("fn main() Int { let x Int = 42 x }").unwrap();
    if let Stmt::Let { mutable, .. } = &prog.functions[0].body[0] {
        assert!(!*mutable);
    } else {
        panic!("expected Let");
    }
}

#[test]
fn parse_generic_function() {
    let prog = parse("fn identity<T>(x T) T { x } fn main() Int { identity(42) }").unwrap();
    let func = &prog.functions[0];
    assert_eq!(func.name, "identity");
    assert_eq!(func.type_params.len(), 1);
    assert_eq!(func.type_params[0].name, "T");
    assert_eq!(func.type_params[0].bound, None);
    assert_eq!(func.params[0].ty_name.name, "T");
    assert_eq!(func.return_type.name, "T");
}

#[test]
fn parse_generic_with_bound() {
    let prog = parse("fn get_sum<T: Summable>(x T) Int { x.sum() } fn main() Int { 0 }").unwrap();
    let func = &prog.functions[0];
    assert_eq!(func.type_params.len(), 1);
    assert_eq!(func.type_params[0].name, "T");
    assert_eq!(func.type_params[0].bound, Some("Summable".to_string()));
}

#[test]
fn parse_generic_multiple_params() {
    let prog = parse("fn pair<A, B>(a A, b B) Int { 0 } fn main() Int { 0 }").unwrap();
    let func = &prog.functions[0];
    assert_eq!(func.type_params.len(), 2);
    assert_eq!(func.type_params[0].name, "A");
    assert_eq!(func.type_params[1].name, "B");
}

#[test]
fn parse_non_generic_function_unchanged() {
    let prog = parse("fn add(a Int, b Int) Int { a + b } fn main() Int { 0 }").unwrap();
    assert_eq!(prog.functions[0].type_params.len(), 0);
}

#[test]
fn parse_spawn_expr() {
    let program = parse("fn main() Int { spawn foo(1, 2) }").unwrap();
    match &program.functions[0].body[0] {
        Stmt::Expr(Expr::Spawn { function, args, .. }) => {
            assert_eq!(function, "foo");
            assert_eq!(args.len(), 2);
        }
        other => panic!("expected Spawn, got {:?}", other),
    }
}

#[test]
fn parse_channel_create() {
    let program = parse("fn main() Int { let (tx, rx) = channel<Int>() 0 }").unwrap();
    match &program.functions[0].body[0] {
        Stmt::LetDestructure { names, value, .. } => {
            assert_eq!(names, &["tx".to_string(), "rx".to_string()]);
            assert!(matches!(value, Expr::ChannelCreate { .. }));
        }
        other => panic!("expected LetDestructure, got {:?}", other),
    }
}

#[test]
fn parse_send_method_call() {
    let program = parse("fn main() Int { let (tx, rx) = channel<Int>() tx.send(42) 0 }").unwrap();
    match &program.functions[0].body[1] {
        Stmt::Expr(Expr::MethodCall { method, args, .. }) => {
            assert_eq!(method, "send");
            assert_eq!(args.len(), 1);
        }
        other => panic!("expected send MethodCall, got {:?}", other),
    }
}

#[test]
fn parse_recv_method_call() {
    let program = parse("fn main() Int { let (tx, rx) = channel<Int>() let val = rx.recv() 0 }").unwrap();
    match &program.functions[0].body[1] {
        Stmt::Let { value, .. } => {
            assert!(matches!(value, Expr::MethodCall { method, .. } if method == "recv"));
        }
        other => panic!("expected Let with recv, got {:?}", other),
    }
}

#[test]
fn parse_join_method_call() {
    let program = parse("fn main() Int { let h = spawn foo() h.join() 0 }").unwrap();
    match &program.functions[0].body[1] {
        Stmt::Expr(Expr::MethodCall { method, .. }) => {
            assert_eq!(method, "join");
        }
        other => panic!("expected join MethodCall, got {:?}", other),
    }
}

#[test]
fn parse_spawn_no_args() {
    let program = parse("fn main() Int { spawn worker() }").unwrap();
    match &program.functions[0].body[0] {
        Stmt::Expr(Expr::Spawn { function, args, .. }) => {
            assert_eq!(function, "worker");
            assert_eq!(args.len(), 0);
        }
        other => panic!("expected Spawn, got {:?}", other),
    }
}

#[test]
fn parse_mutex_create() {
    let program = parse("fn main() Int { let m = mutex(0) 0 }").unwrap();
    match &program.functions[0].body[0] {
        Stmt::Let { value, .. } => {
            assert!(matches!(value, Expr::MutexCreate { .. }));
        }
        other => panic!("expected Let with MutexCreate, got {:?}", other),
    }
}

#[test]
fn parse_bounded_channel() {
    let program = parse("fn main() Int { let (tx, rx) = channel<Int>(10) 0 }").unwrap();
    match &program.functions[0].body[0] {
        Stmt::LetDestructure { value, .. } => {
            match value {
                Expr::ChannelCreate { capacity: Some(cap), .. } => {
                    assert!(matches!(**cap, Expr::IntLiteral { value: 10, .. }));
                }
                other => panic!("expected ChannelCreate with capacity, got {:?}", other),
            }
        }
        other => panic!("expected LetDestructure, got {:?}", other),
    }
}

#[test]
fn parse_lock_unlock_method_calls() {
    let program = parse("fn main() Int { let m = mutex(0) let v = m.lock() m.unlock(v) 0 }").unwrap();
    match &program.functions[0].body[1] {
        Stmt::Let { value, .. } => {
            assert!(matches!(value, Expr::MethodCall { method, .. } if method == "lock"));
        }
        other => panic!("expected Let with lock() call, got {:?}", other),
    }
    match &program.functions[0].body[2] {
        Stmt::Expr(Expr::MethodCall { method, args, .. }) => {
            assert_eq!(method, "unlock");
            assert_eq!(args.len(), 1);
        }
        other => panic!("expected unlock() call, got {:?}", other),
    }
}

#[test]
fn parse_array_create() {
    let program = parse("fn main() Int { let a = array<Int>() 0 }").unwrap();
    match &program.functions[0].body[0] {
        Stmt::Let { value, .. } => {
            assert!(matches!(value, Expr::ArrayCreate { .. }));
        }
        other => panic!("expected Let with ArrayCreate, got {:?}", other),
    }
}

#[test]
fn parse_for_in() {
    let program = parse("fn main() Int { let a = array<Int>() for x in a { print(x) } 0 }").unwrap();
    match &program.functions[0].body[1] {
        Stmt::ForIn { var, .. } => {
            assert_eq!(var, "x");
        }
        other => panic!("expected ForIn, got {:?}", other),
    }
}

#[test]
fn parse_array_push_get_set_len() {
    let program = parse("fn main() Int { let a = array<Int>() a.push(1) a.get(0) }").unwrap();
    match &program.functions[0].body[1] {
        Stmt::Expr(Expr::MethodCall { method, args, .. }) => {
            assert_eq!(method, "push");
            assert_eq!(args.len(), 1);
        }
        other => panic!("expected push call, got {:?}", other),
    }
}

#[test]
fn parse_int_to_string_call() {
    let program = parse("fn main() Int { let s = int_to_string(42) 0 }").unwrap();
    match &program.functions[0].body[0] {
        Stmt::Let { value, .. } => {
            assert!(matches!(value, Expr::Call { function, .. } if function == "int_to_string"));
        }
        other => panic!("expected Let with Call, got {:?}", other),
    }
}

#[test]
fn parse_string_concat() {
    let program = parse(r#"fn main() Int { let s = "a" + "b" 0 }"#).unwrap();
    match &program.functions[0].body[0] {
        Stmt::Let { value, .. } => {
            assert!(matches!(value, Expr::BinaryOp { .. }));
        }
        other => panic!("expected Let with BinaryOp, got {:?}", other),
    }
}

#[test]
fn parse_import_declaration() {
    let prog = parse("import \"utils\"\nfn main() Int { 0 }").unwrap();
    assert_eq!(prog.imports.len(), 1);
    assert_eq!(prog.imports[0].path, "utils");
    assert_eq!(prog.imports[0].module_name, "utils");
}

#[test]
fn parse_multiple_imports() {
    let prog = parse("import \"utils\"\nimport \"models/user\"\nfn main() Int { 0 }").unwrap();
    assert_eq!(prog.imports.len(), 2);
    assert_eq!(prog.imports[0].path, "utils");
    assert_eq!(prog.imports[0].module_name, "utils");
    assert_eq!(prog.imports[1].path, "models/user");
    assert_eq!(prog.imports[1].module_name, "user");
}

#[test]
fn parse_import_after_function_errors() {
    let result = parse("fn foo() Int { 0 }\nimport \"utils\"\nfn main() Int { 0 }");
    assert!(result.is_err());
    let err = result.unwrap_err();
    assert!(err.message.contains("imports must appear before all declarations"),
        "expected import placement error, got: {}", err.message);
}

fn parse_message(src: &str) -> String {
    match parse(src) {
        Ok(_) => panic!("expected a parse error for {}", src),
        Err(e) => e.message,
    }
}

#[test]
fn error_names_a_float_token_by_its_value() {
    assert_eq!(parse_message("fn 1.5"), "expected identifier, got FloatLiteral(1.5)");
}

#[test]
fn error_names_an_int_token_by_its_value() {
    assert_eq!(parse_message("fn 42"), "expected identifier, got IntLiteral(42)");
}

#[test]
fn error_quotes_the_text_of_a_string_token() {
    assert_eq!(parse_message("fn \"a'b\""), "expected identifier, got StringLiteral(\"a'b\")");
}

#[test]
fn error_quotes_an_identifier_token() {
    assert_eq!(parse_message("import foo"), "expected string literal after 'import', got Identifier(\"foo\")");
}

#[test]
fn error_names_a_plain_token_kind() {
    assert_eq!(parse_message("fn ("), "expected identifier, got LParen");
}
