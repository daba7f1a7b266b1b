use lib::filled::is_checkable;
use lib::lexer::lex_panics;
use lib::ast::{Expr, GlobalDef, Param, Stmt, TypeName};
use lib::ir::{ir_type_for_return, IrType};
use lib::lexer::latin1_alnum;
use lib::parser::parse;
use lib::typeck::{check, check_module, resolve_type, types_compatible, ModuleExports};
use lib::types::{type_to_string, Type};

fn check_src(src: &str) -> Result<ModuleExports, String> {
    let prog = parse(src).expect("parse error in test input");
    check(&prog, &Vec::new()).map_err(|e| e.message)
}

fn module_src(src: &str) -> Result<ModuleExports, String> {
    let prog = parse(src).expect("parse error in test input");
    check_module(&prog, &Vec::new()).map_err(|e| e.message)
}

fn err_of(src: &str) -> String {
    match check_src(src) {
        Ok(_) => panic!("expected an error for {}", src),
        Err(m) => m,
    }
}

// Checking as a program and as a module differ only by the need for `main`.

#[test]
fn program_without_main_is_refused_but_module_is_not() {
    let src = "fn add(a Int, b Int) Int { a + b }";
    assert_eq!(err_of(src), "missing 'main' function");
    let ex = module_src(src).unwrap();
    assert_eq!(ex.functions.len(), 1);
    assert_eq!(ex.functions[0].0, "add");
}

#[test]
fn module_error_is_also_program_error() {
    let src = "fn f() Int { true }";
    let a = module_src(src).unwrap_err();
    assert_eq!(a, "function 'f': return type mismatch: expected Int but got Bool");
    assert_eq!(err_of(src), "missing 'main' function");
    let with_main = "fn f() Int { true } fn main() Int { 0 }";
    assert_eq!(err_of(with_main), a);
}

#[test]
fn program_with_main_checks_as_module_alike() {
    let src = "fn helper(x Int) Int { x * 2 } fn main() Int { helper(21) }";
    let a = check_src(src).unwrap();
    let b = module_src(src).unwrap();
    assert_eq!(a.functions.len(), b.functions.len());
    assert_eq!(a.functions[0].0, b.functions[0].0);
    assert_eq!(a.functions[1].0, b.functions[1].0);
}

// Generic bodies are not checked.

#[test]
fn generic_body_with_type_error_is_not_checked() {
    assert!(check_src("fn odd<T>(x T) T { x + true } fn main() Int { 0 }").is_ok());
}

#[test]
fn generic_functions_are_not_exported() {
    let ex = check_src("fn id<T>(x T) T { x } fn main() Int { id(1) }").unwrap();
    assert_eq!(ex.functions.len(), 1);
    assert_eq!(ex.functions[0].0, "main");
}

// Compatibility of types.

#[test]
fn compatible_is_reflexive_on_examples() {
    let ts = vec![
        Type::Int,
        Type::Bool,
        Type::String,
        Type::Array { inner: Box::new(Type::Int) },
        Type::Result { inner: Box::new(Type::Bool) },
        Type::Tuple { elements: vec![Type::Int, Type::String] },
    ];
    for t in ts.iter() {
        assert!(types_compatible(t, t));
    }
}

#[test]
fn result_err_fits_any_result() {
    assert!(types_compatible(&Type::ResultErr, &Type::Result { inner: Box::new(Type::Int) }));
    assert!(types_compatible(&Type::ResultErr, &Type::Result { inner: Box::new(Type::String) }));
    assert!(!types_compatible(&Type::Result { inner: Box::new(Type::Int) }, &Type::ResultErr));
    assert!(!types_compatible(&Type::Bool, &Type::Int));
}

// Errors of the declarations, with their exact messages.

#[test]
fn undefined_trait_message() {
    let src = "struct P { x Int, } impl Show for P { fn show(self) Int { 0 } } fn main() Int { 0 }";
    assert_eq!(err_of(src), "undefined trait 'Show'");
}

#[test]
fn missing_trait_method_message() {
    let src = "trait Show { fn show(self) Int } struct P { x Int, } impl Show for P { fn other(self) Int { 0 } } fn main() Int { 0 }";
    assert_eq!(err_of(src), "impl Show for P is missing method 'show'");
}

#[test]
fn trait_params_mismatch_message() {
    let src = "trait Show { fn show(self, n Int) Int } struct P { x Int, } impl Show for P { fn show(self, n Bool) Int { 0 } } fn main() Int { 0 }";
    assert_eq!(err_of(src), "method 'show' params don't match trait 'Show' signature");
}

#[test]
fn trait_return_mismatch_message() {
    let src = "trait Show { fn show(self) Int } struct P { x Int, } impl Show for P { fn show(self) Bool { true } } fn main() Int { 0 }";
    assert_eq!(err_of(src), "method 'show' return type doesn't match trait 'Show' signature");
}

#[test]
fn unknown_field_type_message() {
    assert_eq!(err_of("struct P { x Nope, } fn main() Int { 0 }"), "unknown type 'Nope'");
}

#[test]
fn missing_return_expression_messages() {
    assert_eq!(err_of("fn main() Int { let x = 1 }"), "function 'main': missing return expression");
    let src = "struct P { x Int, } impl P { fn get(self) Int { let y = 1 } } fn main() Int { 0 }";
    assert_eq!(err_of(src), "method 'get': missing return expression");
}

#[test]
fn method_return_mismatch_message() {
    let src = "struct P { x Int, } impl P { fn get(self) Int { true } } fn main() Int { 0 }";
    assert_eq!(err_of(src), "method 'get': return type mismatch: expected Int but got Bool");
}

#[test]
fn mangled_method_is_a_function() {
    let src = "struct P { x Int, } impl P { fn get(self) Int { self.x } } fn main() Int { let p = P { x: 3 } P_get(p) }";
    assert!(check_src(src).is_ok());
}

#[test]
fn exports_carry_structs_and_enums() {
    let ex = module_src("struct P { x Int, } enum C { Red, Blue(Int), } fn f(p P) Int { p.x }").unwrap();
    assert_eq!(ex.structs.len(), 1);
    assert_eq!(ex.structs[0].0, "P");
    assert_eq!(ex.enums.len(), 1);
    assert_eq!(ex.enums[0].0, "C");
    assert_eq!(ex.enums[0].1.len(), 2);
    assert_eq!(ex.functions.len(), 1);
    assert_eq!(type_to_string(&ex.functions[0].1.params[0]), "P");
}

// Statements.

#[test]
fn while_condition_message() {
    assert_eq!(err_of("fn main() Int { while 1 { 0 } 0 }"), "while condition must be Bool, got Int");
}

#[test]
fn for_in_binds_elements() {
    assert!(check_src("fn main() Int { let a = [1, 2] let mut s = 0 for x in a { s = s + x } s }").is_ok());
    assert_eq!(err_of("fn main() Int { for x in 3 { 0 } 0 }"), "for-in requires Array, got Int");
}

#[test]
fn assignment_messages() {
    assert_eq!(err_of("fn main() Int { let x = 1 x = 2 x }"), "cannot assign to immutable variable 'x'");
    assert_eq!(
        err_of("fn main() Int { let mut x = 1 x = true x }"),
        "type mismatch in assignment to 'x': expected Int but got Bool"
    );
}

#[test]
fn let_annotation_message() {
    assert_eq!(
        err_of("fn main() Int { let x Bool = 1 0 }"),
        "type mismatch in let 'x': declared Bool but expression has type Int"
    );
}

// Type names.

#[test]
fn resolve_type_names() {
    let none = Vec::new();
    let t = resolve_type(&"Array<Int>".to_string(), &Vec::new(), &Vec::new(), &none).unwrap();
    assert_eq!(type_to_string(&t), "Array<Int>");
    let t = resolve_type(&"(Int String)".to_string(), &Vec::new(), &Vec::new(), &none).unwrap();
    assert_eq!(type_to_string(&t), "(Int, String)");
    let e = resolve_type(&"(Int, String)".to_string(), &Vec::new(), &Vec::new(), &none).unwrap_err();
    assert_eq!(e.message, "unknown type 'Int,'");
    let t = resolve_type(&"R<I>".to_string(), &Vec::new(), &Vec::new(), &none).unwrap();
    assert_eq!(type_to_string(&t), "Result<Int>");
    let e = resolve_type(&"Widget".to_string(), &Vec::new(), &Vec::new(), &none).unwrap_err();
    assert_eq!(e.message, "unknown type 'Widget'");
}

// The IR types of the checker's types.

#[test]
fn ir_types_of_return_types() {
    assert!(matches!(ir_type_for_return(&Type::Int), IrType::Int));
    assert!(matches!(ir_type_for_return(&Type::String), IrType::Str));
    assert!(matches!(ir_type_for_return(&Type::Bool), IrType::Bool));
    match ir_type_for_return(&Type::Array { inner: Box::new(Type::Bool) }) {
        IrType::Array(inner) => assert!(matches!(*inner, IrType::Bool)),
        _ => panic!("expected an array type"),
    }
    match ir_type_for_return(&Type::Struct { name: "P".to_string(), fields: vec![] }) {
        IrType::Struct(n) => assert_eq!(n, "P"),
        _ => panic!("expected a struct type"),
    }
}

// The lexer's identifier characters agree with Unicode's classes.

#[test]
fn latin1_alnum_agrees_with_char_classes() {
    for b in 0u16..256 {
        let c = b as u8;
        assert_eq!(latin1_alnum(c), (c as char).is_alphanumeric(), "byte {}", b);
    }
}

// Parser errors name the token kinds.

#[test]
fn parse_error_names_the_token() {
    let e = parse("fn main() Int { 1 + }").unwrap_err();
    assert!(e.message.contains("RBrace"), "got: {}", e.message);
}

// Of several modules, the first that exports a type name gives its type.

fn module_with_user(field: &str, t: Type) -> (String, ModuleExports) {
    (
        field.to_string(),
        ModuleExports {
            functions: Vec::new(),
            structs: vec![("User".to_string(), vec![(field.to_string(), t)])],
            enums: Vec::new(),
        },
    )
}

#[test]
fn first_module_exporting_a_type_wins() {
    let src = "fn age(u User) Int { u.age } fn main() Int { 0 }";
    let prog = parse(src).unwrap();
    let ms = vec![module_with_user("age", Type::Int), module_with_user("name", Type::String)];
    assert!(check(&prog, &ms).is_ok());
    let ms = vec![module_with_user("name", Type::String), module_with_user("age", Type::Int)];
    assert!(check(&prog, &ms).is_err());
}

// Forms the parser does not produce, built by hand: tuple literals,
// `break` / `continue`, and global definitions.


fn int_lit(v: i64) -> Expr {
    Expr::IntLiteral { value: v, span: 0..1 }
}

fn ident(n: &str) -> Expr {
    Expr::Identifier { name: n.to_string(), span: 0..1 }
}

fn main_with_body(body: Vec<Stmt>) -> lib::ast::Program {
    let mut prog = parse("fn main() Int { 0 }").unwrap();
    prog.functions[0].body = body;
    prog
}

fn let_stmt(name: &str, value: Expr) -> Stmt {
    Stmt::Let { name: name.to_string(), mutable: false, ty_name: None, value, span: 0..1 }
}

fn field(obj: Expr, f: &str) -> Expr {
    Expr::FieldAccess { object: Box::new(obj), field: f.to_string(), span: 0..1 }
}

#[test]
fn tuple_literal_and_index() {
    let t = Expr::TupleLiteral { elements: vec![int_lit(1), int_lit(2), int_lit(3)], span: 0..1 };
    let prog = main_with_body(vec![let_stmt("t", t), Stmt::Expr(field(ident("t"), "0"))]);
    assert!(check(&prog, &Vec::new()).is_ok());
}

#[test]
fn tuple_index_out_of_bounds() {
    let t = Expr::TupleLiteral { elements: vec![int_lit(1), int_lit(2)], span: 0..1 };
    let prog = main_with_body(vec![let_stmt("t", t), Stmt::Expr(field(ident("t"), "5"))]);
    assert!(check(&prog, &Vec::new()).is_err());
}

#[test]
fn tuple_type_is_element_types() {
    let t = Expr::TupleLiteral {
        elements: vec![int_lit(1), Expr::BoolLiteral { value: true, span: 0..1 }],
        span: 0..1,
    };
    // the second element is a Bool, so returning it from an Int function fails
    let prog = main_with_body(vec![let_stmt("t", t), Stmt::Expr(field(ident("t"), "1"))]);
    assert_eq!(
        check(&prog, &Vec::new()).unwrap_err().message,
        "function 'main': return type mismatch: expected Int but got Bool"
    );
}

#[test]
fn break_and_continue_check() {
    let w = Stmt::While {
        condition: Expr::BoolLiteral { value: true, span: 0..1 },
        body: vec![Stmt::Continue { span: 0..1 }, Stmt::Break { span: 0..1 }],
        span: 0..1,
    };
    assert!(check(&main_with_body(vec![w, Stmt::Expr(int_lit(0))]), &Vec::new()).is_ok());
    let last = main_with_body(vec![Stmt::Break { span: 0..1 }]);
    assert_eq!(check(&last, &Vec::new()).unwrap_err().message, "function 'main': missing return expression");
}

#[test]
fn globals_are_assignable_locals() {
    let mut prog = main_with_body(vec![
        Stmt::Assign { name: "g".to_string(), value: int_lit(5), span: 0..1 },
        Stmt::Expr(ident("g")),
    ]);
    prog.globals.push(GlobalDef { name: "g".to_string(), value: int_lit(1), span: 0..1 });
    assert!(check(&prog, &Vec::new()).is_ok());
}

#[test]
fn global_value_errors_come_first() {
    let mut prog = parse("fn helper() Int { 0 }").unwrap();
    prog.globals.push(GlobalDef { name: "g".to_string(), value: ident("nope"), span: 0..1 });
    assert_eq!(check(&prog, &Vec::new()).unwrap_err().message, "undefined variable 'nope'");
}

fn lambda(pname: &str, ptype: &str, ret: &str, body: Expr) -> Expr {
    Expr::Lambda {
        params: vec![Param {
            name: pname.to_string(),
            ty_name: TypeName { name: ptype.to_string(), span: 0..1 },
            span: 0..1,
        }],
        return_type: TypeName { name: ret.to_string(), span: 0..1 },
        body: vec![Stmt::Expr(body)],
        span: 0..1,
    }
}

fn plus(a: Expr, b: Expr) -> Expr {
    Expr::BinaryOp { left: Box::new(a), op: lib::ast::BinOp::Add, right: Box::new(b), span: 0..1 }
}

#[test]
fn lambda_basic() {
    let f = lambda("x", "I", "I", plus(ident("x"), int_lit(10)));
    let prog = main_with_body(vec![let_stmt("f", f), Stmt::Expr(int_lit(0))]);
    assert!(check(&prog, &Vec::new()).is_ok());
}

#[test]
fn lambda_captures_enclosing_locals() {
    let f = lambda("x", "I", "I", plus(ident("x"), ident("offset")));
    let prog = main_with_body(vec![let_stmt("offset", int_lit(10)), let_stmt("f", f), Stmt::Expr(int_lit(0))]);
    assert!(check(&prog, &Vec::new()).is_ok());
}

#[test]
fn lambda_body_type_error() {
    let f = lambda("x", "S", "I", plus(ident("x"), int_lit(10)));
    let prog = main_with_body(vec![let_stmt("f", f), Stmt::Expr(int_lit(0))]);
    assert!(check(&prog, &Vec::new()).is_err());
}

#[test]
fn lambda_has_function_type() {
    let f = lambda("x", "I", "B", Expr::BoolLiteral { value: true, span: 0..1 });
    let prog = main_with_body(vec![let_stmt("f", f), Stmt::Expr(ident("f"))]);
    // a function value stands where Int is asked for
    assert!(check(&prog, &Vec::new()).is_ok());
    let g = lambda("x", "I", "Nope", int_lit(1));
    let prog = main_with_body(vec![let_stmt("g", g), Stmt::Expr(int_lit(0))]);
    assert_eq!(check(&prog, &Vec::new()).unwrap_err().message, "unknown type 'Nope'");
}

// What `check` asks of a program can be tested.

#[test]
fn parsed_programs_are_checkable() {
    let p = parse("struct P { x Int, } impl P { fn get(self) Int { self.x } } fn main() Int { let a = [1, 2] a.len() }").unwrap();
    assert!(is_checkable(&p));
    let empty = main_with_body(vec![Stmt::Expr(Expr::ArrayLiteral { elements: vec![], span: 0..1 })]);
    assert!(!is_checkable(&empty));
    let mut no_self = parse("struct P { x Int, } impl P { fn get(self) Int { 0 } } fn main() Int { 0 }").unwrap();
    no_self.impls[0].methods[0].params.clear();
    assert!(!is_checkable(&no_self));
}

#[test]
fn lexing_that_panics_is_detected() {
    assert!(!lex_panics("fn main() Int { 0 }"));
    // an identifier ending inside a two-byte character (a Latin-1 letter lead byte)
    assert!(lex_panics("x\u{00e9}"));
}

// The compact forms of the grammar.

#[test]
fn parse_compact_function_tuple_and_lambda() {
    let p = parse("main() I { t = (1 2 3)\n f = |x:I y:I| I { x }\n t.0 }").unwrap();
    assert_eq!(p.functions[0].name, "main");
    assert_eq!(p.functions[0].return_type.name, "I");
    match &p.functions[0].body[0] {
        Stmt::Assign { value: Expr::TupleLiteral { elements, .. }, .. } => assert_eq!(elements.len(), 3),
        _ => panic!("expected a tuple assignment"),
    }
    match &p.functions[0].body[2] {
        Stmt::Expr(Expr::FieldAccess { field, .. }) => assert_eq!(field, "0"),
        _ => panic!("expected a tuple index"),
    }
    assert!(parse("fn f(a:Int) Int { (a) }").is_ok());
    assert_eq!(parse("fn f() Int { () }").unwrap_err().message, "unexpected token in expression: RParen");
}

#[test]
fn parsed_program_with_methods_and_arrays_is_checkable() {
    let src = "struct P { x Int, } impl P { fn get(self) Int { self.x } } fn main() Int { let a = [1, 2, 3] a.len() }";
    let prog = parse(src).expect("parse error in test input");
    assert!(is_checkable(&prog));
}
