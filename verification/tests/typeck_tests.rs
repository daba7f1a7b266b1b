use lib::parser::parse;
use lib::typeck::{check, FunctionSignature, ModuleExports, TypeError};
use lib::types::Type;

fn do_check(src: &str) -> Result<(), TypeError> {
    let prog = parse(src)
        .expect("parse error in test input");
    check(&prog, &Vec::new())?;
    Ok(())
}

#[test]
fn check_valid_minimal() {
    assert!(do_check("fn main() Int { 42 }").is_ok());
}

#[test]
fn check_valid_let_binding() {
    assert!(do_check("fn main() Int { let x Int = 42 x }").is_ok());
}

#[test]
fn check_valid_arithmetic() {
    assert!(do_check("fn main() Int { let x Int = 1 + 2 x }").is_ok());
}

#[test]
fn check_valid_function_call() {
    assert!(do_check(
        "fn add(a Int, b Int) Int { a + b } fn main() Int { add(1, 2) }"
    ).is_ok());
}

#[test]
fn check_undefined_variable() {
    let err = do_check("fn main() Int { x }").unwrap_err();
    assert!(
        err.message.contains("undefined variable"),
        "expected 'undefined variable' in error, got: {}",
        err.message
    );
}

#[test]
fn check_undefined_function() {
    let err = do_check("fn main() Int { foo(1) }").unwrap_err();
    assert!(
        err.message.contains("undefined function"),
        "expected 'undefined function' in error, got: {}",
        err.message
    );
}

#[test]
fn check_wrong_arg_count() {
    let err = do_check(
        "fn add(a Int, b Int) Int { a + b } fn main() Int { add(1) }"
    ).unwrap_err();
    assert!(
        err.message.contains("argument"),
        "expected 'argument' in error, got: {}",
        err.message
    );
}

#[test]
fn check_requires_main() {
    let err = do_check("fn add(a Int, b Int) Int { a + b }").unwrap_err();
    assert!(
        err.message.contains("main"),
        "expected 'main' in error, got: {}",
        err.message
    );
}

#[test]
fn check_missing_return_expression() {
    let err = do_check("fn main() Int { let x Int = 42 }").unwrap_err();
    assert!(
        err.message.contains("missing return"),
        "expected 'missing return' in error, got: {}",
        err.message
    );
}

#[test]
fn check_bool_literal() {
    assert!(do_check("fn main() Bool { true }").is_ok());
}

#[test]
fn check_comparison_returns_bool() {
    assert!(do_check("fn main() Bool { 1 == 2 }").is_ok());
}

#[test]
fn check_if_else_valid() {
    assert!(do_check("fn main() Int { if true { 1 } else { 2 } }").is_ok());
}

#[test]
fn check_if_condition_must_be_bool() {
    let err = do_check("fn main() Int { if 1 { 1 } else { 2 } }").unwrap_err();
    assert!(err.message.contains("Bool"), "expected Bool error, got: {}", err.message);
}

#[test]
fn check_if_branch_type_mismatch() {
    let err = do_check("fn main() Int { if true { 1 } else { true } }").unwrap_err();
    assert!(err.message.contains("mismatch"), "expected mismatch error, got: {}", err.message);
}

#[test]
fn check_not_operator() {
    assert!(do_check("fn main() Bool { !true }").is_ok());
}

#[test]
fn check_boolean_operators() {
    assert!(do_check("fn main() Bool { true && false }").is_ok());
    assert!(do_check("fn main() Bool { true || false }").is_ok());
}

#[test]
fn check_comparison_in_if() {
    assert!(do_check("fn main() Int { let x Int = 5 if x > 3 { 1 } else { 0 } }").is_ok());
}

#[test]
fn check_while_loop() {
    assert!(do_check("fn main() Int { let mut x Int = 0 while x < 10 { x = x + 1 } x }").is_ok());
}

#[test]
fn check_while_condition_must_be_bool() {
    let err = do_check("fn main() Int { while 1 { 0 } 0 }").unwrap_err();
    assert!(err.message.contains("Bool"), "got: {}", err.message);
}

#[test]
fn check_return_statement() {
    assert!(do_check("fn main() Int { return 42 }").is_ok());
}

#[test]
fn check_return_type_mismatch() {
    let err = do_check("fn main() Int { return true }").unwrap_err();
    assert!(err.message.contains("mismatch"), "got: {}", err.message);
}

#[test]
fn check_mutable_assignment() {
    assert!(do_check("fn main() Int { let mut x Int = 1 x = 2 x }").is_ok());
}

#[test]
fn check_immutable_assignment_error() {
    let err = do_check("fn main() Int { let x Int = 1 x = 2 x }").unwrap_err();
    assert!(err.message.contains("immutable"), "got: {}", err.message);
}

#[test]
fn check_assign_type_mismatch() {
    let err = do_check("fn main() Int { let mut x Int = 1 x = true x }").unwrap_err();
    assert!(err.message.contains("mismatch"), "got: {}", err.message);
}

#[test]
fn check_inferred_int() {
    assert!(do_check("fn main() Int { let x = 42 x }").is_ok());
}

#[test]
fn check_inferred_bool() {
    assert!(do_check("fn main() Bool { let x = true x }").is_ok());
}

#[test]
fn check_inferred_mut() {
    assert!(do_check("fn main() Int { let mut x = 0 x = 42 x }").is_ok());
}

#[test]
fn check_print_string() {
    assert!(do_check(r#"fn main() Int { print("hello") }"#).is_ok());
}

#[test]
fn check_print_int() {
    assert!(do_check("fn main() Int { print(42) }").is_ok());
}

#[test]
fn check_while_with_return() {
    assert!(do_check("fn main() Int { while true { return 42 } 0 }").is_ok());
}

#[test]
fn check_enum_valid() {
    assert!(do_check(
        "enum Color { Red, Green, Blue, } fn main() Int { let c = Color::Green match c { Color::Red => 1, Color::Green => 2, Color::Blue => 3, } }"
    ).is_ok());
}

#[test]
fn check_enum_with_data() {
    assert!(do_check(
        "enum Shape { Circle(Int), Rectangle(Int, Int), } fn main() Int { let s = Shape::Rectangle(3, 4) match s { Shape::Circle(r) => r, Shape::Rectangle(w, h) => w * h, } }"
    ).is_ok());
}

#[test]
fn check_enum_undefined() {
    let err = do_check(
        "fn main() Int { let c = Foo::Bar 0 }"
    ).unwrap_err();
    assert!(err.message.contains("undefined enum"), "got: {}", err.message);
}

#[test]
fn check_enum_wrong_variant() {
    let err = do_check(
        "enum Color { Red, Green, Blue, } fn main() Int { let c = Color::Yellow 0 }"
    ).unwrap_err();
    assert!(err.message.contains("unknown variant"), "got: {}", err.message);
}

#[test]
fn check_match_arm_type_mismatch() {
    let err = do_check(
        "enum Color { Red, Green, } fn main() Int { let c = Color::Red match c { Color::Red => 1, Color::Green => true, } }"
    ).unwrap_err();
    assert!(err.message.contains("mismatch"), "got: {}", err.message);
}

#[test]
fn check_struct_valid() {
    assert!(do_check(
        "struct Point { x Int, y Int, } fn main() Int { let p = Point { x: 1, y: 2 } p.x }"
    ).is_ok());
}

#[test]
fn check_struct_wrong_field_type() {
    let err = do_check(
        "struct Point { x Int, y Int, } fn main() Int { let p = Point { x: true, y: 2 } p.x }"
    ).unwrap_err();
    assert!(err.message.contains("mismatch"), "got: {}", err.message);
}

#[test]
fn check_struct_unknown_field() {
    let err = do_check(
        "struct Point { x Int, y Int, } fn main() Int { let p = Point { x: 1, y: 2 } p.z }"
    ).unwrap_err();
    assert!(err.message.contains("no field"), "got: {}", err.message);
}

#[test]
fn check_struct_missing_field() {
    let err = do_check(
        "struct Point { x Int, y Int, } fn main() Int { let p = Point { x: 1 } p.x }"
    ).unwrap_err();
    assert!(err.message.contains("missing field"), "got: {}", err.message);
}

#[test]
fn check_struct_undefined() {
    let err = do_check(
        "fn main() Int { let p = Foo { x: 1 } 0 }"
    ).unwrap_err();
    assert!(err.message.contains("undefined struct"), "got: {}", err.message);
}

#[test]
fn check_method_call_valid() {
    assert!(do_check(
        "struct Point { x Int, y Int, } impl Point { fn sum(self) Int { self.x + self.y } } fn main() Int { let p = Point { x: 3, y: 4 } p.sum() }"
    ).is_ok());
}

#[test]
fn check_method_call_with_args() {
    assert!(do_check(
        "struct Point { x Int, y Int, } impl Point { fn add(self, n Int) Int { self.x + self.y + n } } fn main() Int { let p = Point { x: 3, y: 4 } p.add(10) }"
    ).is_ok());
}

#[test]
fn check_method_undefined() {
    let err = do_check(
        "struct Point { x Int, y Int, } fn main() Int { let p = Point { x: 1, y: 2 } p.foo() }"
    ).unwrap_err();
    assert!(err.message.contains("no method"), "got: {}", err.message);
}

#[test]
fn check_method_wrong_args() {
    let err = do_check(
        "struct Point { x Int, y Int, } impl Point { fn sum(self) Int { self.x + self.y } } fn main() Int { let p = Point { x: 1, y: 2 } p.sum(1) }"
    ).unwrap_err();
    assert!(err.message.contains("expects"), "got: {}", err.message);
}

#[test]
fn check_trait_impl_valid() {
    assert!(do_check(
        "trait Summable { fn sum(self) Int } struct Point { x Int, y Int, } impl Summable for Point { fn sum(self) Int { self.x + self.y } } fn main() Int { let p = Point { x: 3, y: 4 } p.sum() }"
    ).is_ok());
}

#[test]
fn check_trait_missing_method() {
    let err = do_check(
        "trait Summable { fn sum(self) Int } struct Point { x Int, y Int, } impl Summable for Point { } fn main() Int { 0 }"
    ).unwrap_err();
    assert!(err.message.contains("missing method"), "got: {}", err.message);
}

#[test]
fn check_trait_undefined() {
    let err = do_check(
        "struct Point { x Int, y Int, } impl Foo for Point { fn bar(self) Int { 0 } } fn main() Int { 0 }"
    ).unwrap_err();
    assert!(err.message.contains("undefined trait"), "got: {}", err.message);
}

#[test]
fn check_generic_identity() {
    assert!(do_check(
        "fn identity<T>(x T) T { x } fn main() Int { identity(42) }"
    ).is_ok());
}

#[test]
fn check_generic_identity_bool() {
    assert!(do_check(
        "fn identity<T>(x T) T { x } fn main() Bool { identity(true) }"
    ).is_ok());
}

#[test]
fn check_generic_with_trait_bound() {
    assert!(do_check(
        "trait Summable { fn sum(self) Int } struct Point { x Int, y Int, } impl Summable for Point { fn sum(self) Int { self.x + self.y } } fn get_sum<T: Summable>(x T) Int { x.sum() } fn main() Int { let p = Point { x: 3, y: 4 } get_sum(p) }"
    ).is_ok());
}

#[test]
fn check_generic_bound_not_satisfied() {
    let err = do_check(
        "trait Summable { fn sum(self) Int } fn get_sum<T: Summable>(x T) Int { x.sum() } fn main() Int { get_sum(42) }"
    ).unwrap_err();
    assert!(err.message.contains("cannot satisfy") || err.message.contains("does not implement"), "got: {}", err.message);
}

#[test]
fn check_generic_type_mismatch() {
    let err = do_check(
        "fn same<T>(a T, b T) T { a } fn main() Int { same(42, true) }"
    ).unwrap_err();
    assert!(err.message.contains("inferred") || err.message.contains("mismatch"), "got: {}", err.message);
}

#[test]
fn check_generic_wrong_arg_count() {
    let err = do_check(
        "fn identity<T>(x T) T { x } fn main() Int { identity(1, 2) }"
    ).unwrap_err();
    assert!(err.message.contains("argument"), "got: {}", err.message);
}

#[test]
fn typeck_spawn_produces_join_handle() {
    let program = parse("fn worker() Int { 0 } fn main() Int { let h = spawn worker() 0 }").unwrap();
    assert!(check(&program, &Vec::new()).is_ok());
}

#[test]
fn typeck_spawn_wrong_args() {
    let program = parse("fn worker(x Int) Int { x } fn main() Int { let h = spawn worker() 0 }").unwrap();
    assert!(check(&program, &Vec::new()).is_err());
}

#[test]
fn typeck_channel_creates_sender_receiver() {
    let program = parse("fn main() Int { let (tx, rx) = channel<Int>() tx.send(42) rx.recv() }").unwrap();
    assert!(check(&program, &Vec::new()).is_ok());
}

#[test]
fn typeck_send_type_mismatch() {
    let program = parse("fn main() Int { let (tx, rx) = channel<Int>() tx.send(true) 0 }").unwrap();
    let err = check(&program, &Vec::new()).unwrap_err();
    assert!(err.message.contains("mismatch"), "got: {}", err.message);
}

#[test]
fn typeck_recv_returns_element_type() {
    let program = parse("fn main() Int { let (tx, rx) = channel<Int>() tx.send(42) rx.recv() }").unwrap();
    assert!(check(&program, &Vec::new()).is_ok());
}

#[test]
fn typeck_join_on_handle() {
    let program = parse("fn worker() Int { 0 } fn main() Int { let h = spawn worker() h.join() }").unwrap();
    assert!(check(&program, &Vec::new()).is_ok());
}

#[test]
fn typeck_join_on_non_handle() {
    let program = parse("fn main() Int { let x Int = 42 x.join() }").unwrap();
    assert!(check(&program, &Vec::new()).is_err());
}

#[test]
fn typeck_send_on_non_sender() {
    let program = parse("fn main() Int { let x Int = 42 x.send(1) 0 }").unwrap();
    assert!(check(&program, &Vec::new()).is_err());
}

#[test]
fn check_mutex_create() {
    assert!(do_check("fn main() Int { let m = mutex(0) 0 }").is_ok());
}

#[test]
fn check_mutex_lock_returns_inner_type() {
    assert!(do_check("fn main() Int { let m = mutex(42) let v = m.lock() v }").is_ok());
}

#[test]
fn check_mutex_unlock_matching_type() {
    assert!(do_check("fn main() Int { let m = mutex(0) let v = m.lock() m.unlock(v + 1) 0 }").is_ok());
}

#[test]
fn check_mutex_unlock_wrong_type() {
    let err = do_check("fn main() Int { let m = mutex(0) m.unlock(true) 0 }").unwrap_err();
    assert!(err.message.contains("mismatch") || err.message.contains("type"),
        "expected type error, got: {}", err.message);
}

#[test]
fn check_lock_on_non_mutex() {
    let err = do_check("fn main() Int { let x = 42 x.lock() }").unwrap_err();
    assert!(err.message.contains("method") || err.message.contains("lock"),
        "expected method error, got: {}", err.message);
}

#[test]
fn check_bounded_channel_capacity_non_int() {
    let err = do_check("fn main() Int { let (tx, rx) = channel<Int>(true) 0 }").unwrap_err();
    assert!(err.message.contains("Int") || err.message.contains("capacity"),
        "expected capacity type error, got: {}", err.message);
}

#[test]
fn check_array_create() {
    assert!(do_check("fn main() Int { let a = array<Int>() 0 }").is_ok());
}

#[test]
fn check_array_push_matching_type() {
    assert!(do_check("fn main() Int { let a = array<Int>() a.push(1) 0 }").is_ok());
}

#[test]
fn check_array_push_wrong_type() {
    let err = do_check("fn main() Int { let a = array<Int>() a.push(true) 0 }").unwrap_err();
    assert!(err.message.contains("mismatch") || err.message.contains("type"),
        "expected type error, got: {}", err.message);
}

#[test]
fn check_array_get_returns_element_type() {
    assert!(do_check("fn main() Int { let a = array<Int>() a.push(1) a.get(0) }").is_ok());
}

#[test]
fn check_array_len_returns_int() {
    assert!(do_check("fn main() Int { let a = array<Int>() a.len() }").is_ok());
}

#[test]
fn check_for_in_binds_element_type() {
    assert!(do_check("fn main() Int { let a = array<Int>() a.push(1) for x in a { print(x) } 0 }").is_ok());
}

#[test]
fn check_for_in_non_array_error() {
    let err = do_check("fn main() Int { for x in 42 { print(x) } 0 }").unwrap_err();
    assert!(err.message.contains("Array") || err.message.contains("for"),
        "expected for-in type error, got: {}", err.message);
}

#[test]
fn check_string_len() {
    assert!(do_check(r#"fn main() Int { let s = "hello" s.len() }"#).is_ok());
}

#[test]
fn check_string_concat() {
    assert!(do_check(r#"fn main() Int { let s = "a" + "b" 0 }"#).is_ok());
}

#[test]
fn check_string_plus_int_error() {
    let err = do_check(r#"fn main() Int { let s = "a" + 1 0 }"#).unwrap_err();
    assert!(err.message.contains("type") || err.message.contains("mismatch") || err.message.contains("operand"),
        "expected type error, got: {}", err.message);
}

#[test]
fn check_int_to_string() {
    assert!(do_check(r#"fn main() Int { let s = int_to_string(42) 0 }"#).is_ok());
}

#[test]
fn check_string_to_int() {
    assert!(do_check(r#"fn main() Int { string_to_int("42") }"#).is_ok());
}

#[test]
fn check_cross_module_function_call() {
    let prog = parse(
        "fn main() Int { utils.add(1, 2) }"
    ).expect("parse error");

    let mut module_exports = Vec::new();
    let mut utils_fns = Vec::new();
    utils_fns.push(("add".to_string(), FunctionSignature {
        params: vec![Type::Int, Type::Int],
        return_type: Type::Int,
    }));
    module_exports.push(("utils".to_string(), ModuleExports {
        functions: utils_fns,
        structs: Vec::new(),
        enums: Vec::new(),
    }));

    assert!(check(&prog, &module_exports).is_ok());
}

#[test]
fn check_cross_module_function_with_struct_return() {
    let prog = parse(
        "fn main() Int { let u = models.create() u.age }"
    ).expect("parse error");

    let mut module_exports = Vec::new();
    let user_fields = vec![
        ("name".to_string(), Type::String),
        ("age".to_string(), Type::Int),
    ];
    let mut models_fns = Vec::new();
    models_fns.push(("create".to_string(), FunctionSignature {
        params: vec![],
        return_type: Type::Struct {
            name: "User".to_string(),
            fields: vec![
                ("name".to_string(), Type::String),
                ("age".to_string(), Type::Int),
            ],
        },
    }));
    let mut models_structs = Vec::new();
    models_structs.push(("User".to_string(), user_fields));
    module_exports.push(("models".to_string(), ModuleExports {
        functions: models_fns,
        structs: models_structs,
        enums: Vec::new(),
    }));

    assert!(check(&prog, &module_exports).is_ok());
}

#[test]
fn check_unknown_function_in_module() {
    let prog = parse(
        "fn main() Int { utils.nonexistent() }"
    ).expect("parse error");

    let mut module_exports = Vec::new();
    module_exports.push(("utils".to_string(), ModuleExports {
        functions: Vec::new(),
        structs: Vec::new(),
        enums: Vec::new(),
    }));

    let err = check(&prog, &module_exports).unwrap_err();
    assert!(err.message.contains("not found in module"),
        "expected module function error, got: {}", err.message);
}

#[test]
fn check_unknown_module_prefix() {
    let prog = parse(
        "fn main() Int { nomod.func() }"
    ).expect("parse error");

    let err = check(&prog, &Vec::new()).unwrap_err();
    assert!(err.message.contains("undefined") || err.message.contains("no method"),
        "expected undefined/no method error, got: {}", err.message);
}

#[test]
fn check_field_access_on_module_errors() {
    let prog = parse(
        "fn main() Int { utils.x }"
    ).expect("parse error");

    let mut module_exports = Vec::new();
    module_exports.push(("utils".to_string(), ModuleExports {
        functions: Vec::new(),
        structs: Vec::new(),
        enums: Vec::new(),
    }));

    let err = check(&prog, &module_exports).unwrap_err();
    assert!(err.message.contains("cannot access field on module"),
        "expected module field access error, got: {}", err.message);
}

#[test]
fn check_duplicate_import_is_ok() {
    let prog = parse(
        "fn main() Int { utils.add(1, 2) }"
    ).expect("parse error");

    let mut module_exports = Vec::new();
    let mut utils_fns = Vec::new();
    utils_fns.push(("add".to_string(), FunctionSignature {
        params: vec![Type::Int, Type::Int],
        return_type: Type::Int,
    }));
    module_exports.push(("utils".to_string(), ModuleExports {
        functions: utils_fns,
        structs: Vec::new(),
        enums: Vec::new(),
    }));

    assert!(check(&prog, &module_exports).is_ok());
}

#[test]
fn check_file_read_builtin() {
    do_check("fn main() Int { let s = file_read(\"test.txt\") 0 }").unwrap();
}

#[test]
fn check_file_write_builtin() {
    do_check("fn main() Int { file_write(\"test.txt\", \"hello\") }").unwrap();
}

#[test]
fn check_file_exists_builtin() {
    do_check("fn main() Int { if file_exists(\"test.txt\") { 1 } else { 0 } }").unwrap();
}

#[test]
fn check_file_read_wrong_type() {
    let err = do_check("fn main() Int { let s = file_read(42) 0 }").unwrap_err();
    assert!(err.message.contains("String"),
        "expected type error mentioning String, got: {}", err.message);
}

#[test]
fn check_json_parse_returns_json_value() {
    assert!(do_check("fn main() Int { let v = json_parse(\"{}\") \n 0 }").is_ok());
}

#[test]
fn check_json_object_returns_json_value() {
    assert!(do_check("fn main() Int { let v = json_object() \n 0 }").is_ok());
}

#[test]
fn check_json_array_returns_json_value() {
    assert!(do_check("fn main() Int { let v = json_array() \n 0 }").is_ok());
}

#[test]
fn check_json_string_accepts_string() {
    assert!(do_check("fn main() Int { let v = json_string(\"hi\") \n 0 }").is_ok());
}

#[test]
fn check_json_int_accepts_int() {
    assert!(do_check("fn main() Int { let v = json_int(42) \n 0 }").is_ok());
}

#[test]
fn check_json_bool_accepts_bool() {
    assert!(do_check("fn main() Int { let v = json_bool(true) \n 0 }").is_ok());
}

#[test]
fn check_json_null_no_args() {
    assert!(do_check("fn main() Int { let v = json_null() \n 0 }").is_ok());
}

#[test]
fn check_json_stringify_accepts_json_value() {
    assert!(do_check("fn main() Int { let v = json_object() \n let s = json_stringify(v) \n 0 }").is_ok());
}

#[test]
fn check_json_parse_rejects_int() {
    let err = do_check("fn main() Int { let v = json_parse(42) \n 0 }").unwrap_err();
    assert!(err.message.contains("String"), "expected String error, got: {}", err.message);
}

#[test]
fn check_json_stringify_rejects_string() {
    let err = do_check("fn main() Int { let s = json_stringify(\"hello\") \n 0 }").unwrap_err();
    assert!(err.message.contains("JsonValue"), "expected JsonValue error, got: {}", err.message);
}

#[test]
fn check_json_get_method() {
    assert!(do_check("fn main() Int { let v = json_parse(\"{}\") \n let inner = v.get(\"key\") \n 0 }").is_ok());
}

#[test]
fn check_json_get_index_method() {
    assert!(do_check("fn main() Int { let v = json_array() \n let inner = v.get_index(0) \n 0 }").is_ok());
}

#[test]
fn check_json_get_string_method() {
    assert!(do_check("fn main() Int { let v = json_string(\"hi\") \n let s = v.get_string() \n 0 }").is_ok());
}

#[test]
fn check_json_get_int_method() {
    assert!(do_check("fn main() Int { let v = json_int(5) \n let n = v.get_int() \n 0 }").is_ok());
}

#[test]
fn check_json_get_bool_method() {
    assert!(do_check("fn main() Int { let v = json_bool(true) \n let b = v.get_bool() \n 0 }").is_ok());
}

#[test]
fn check_json_len_method() {
    assert!(do_check("fn main() Int { let v = json_array() \n v.len() }").is_ok());
}

#[test]
fn check_json_type_of_method() {
    assert!(do_check("fn main() Int { let v = json_null() \n let t = v.type_of() \n 0 }").is_ok());
}

#[test]
fn check_json_set_method() {
    assert!(do_check("fn main() Int { let obj = json_object() \n let v = json_int(1) \n obj.set(\"k\", v) \n 0 }").is_ok());
}

#[test]
fn check_json_push_method() {
    assert!(do_check("fn main() Int { let arr = json_array() \n let v = json_int(1) \n arr.push(v) \n 0 }").is_ok());
}

#[test]
fn check_http_get_returns_http_response() {
    assert!(do_check("fn main() Int { let r = http_get(\"http://example.com\") \n r.status() }").is_ok());
}

#[test]
fn check_http_post_returns_http_response() {
    assert!(do_check("fn main() Int { let r = http_post(\"http://example.com\", \"body\", \"text/plain\") \n r.status() }").is_ok());
}

#[test]
fn check_http_response_methods() {
    assert!(do_check("fn main() Int { let r = http_get(\"http://example.com\") \n let s = r.status() \n let b = r.body() \n let h = r.header(\"content-type\") \n 0 }").is_ok());
}

#[test]
fn check_http_response_ok_method() {
    assert!(do_check("fn main() Int { let r = http_get(\"http://example.com\") \n if r.ok() { 1 } else { 0 } }").is_ok());
}

#[test]
fn check_http_get_wrong_arg_type() {
    let err = do_check("fn main() Int { let r = http_get(42) \n 0 }").unwrap_err();
    assert!(err.message.contains("String"), "expected String error, got: {}", err.message);
}

#[test]
fn check_log_info_accepts_string() {
    assert!(do_check("fn main() Int { log_info(\"hello\") }").is_ok());
}

#[test]
fn check_log_set_level_accepts_int() {
    assert!(do_check("fn main() Int { log_set_level(2) }").is_ok());
}

#[test]
fn check_log_info_rejects_int() {
    let err = do_check("fn main() Int { log_info(42) }").unwrap_err();
    assert!(err.message.contains("String"), "expected String error, got: {}", err.message);
}

#[test]
fn check_ok_returns_result() {
    assert!(do_check("fn main() Int { let r = ok(42) \n r.unwrap() }").is_ok());
}

#[test]
fn check_err_returns_result() {
    assert!(do_check("fn main() Int { let r = err(\"bad\") \n 0 }").is_ok());
}

#[test]
fn check_result_is_ok_method() {
    assert!(do_check("fn main() Int { let r = ok(42) \n if r.is_ok() { 1 } else { 0 } }").is_ok());
}

#[test]
fn check_result_unwrap_or() {
    assert!(do_check("fn main() Int { let r = ok(42) \n r.unwrap_or(0) }").is_ok());
}

#[test]
fn check_result_error_method() {
    assert!(do_check("fn main() Int { let r = err(\"oops\") \n let msg = r.error() \n 0 }").is_ok());
}

#[test]
fn check_result_return_type() {
    assert!(do_check("fn divide(a Int, b Int) Result<Int> { if b == 0 { err(\"div by zero\") } else { ok(a / b) } } fn main() Int { let r = divide(10, 2) \n r.unwrap() }").is_ok());
}

#[test]
fn check_err_wrong_arg_type() {
    let err = do_check("fn main() Int { let r = err(42) \n 0 }").unwrap_err();
    assert!(err.message.contains("String"), "expected String error, got: {}", err.message);
}

#[test]
fn check_result_if_else_compat() {
    // err() in then, ok() in else — should be compatible
    assert!(do_check("fn main() Int { let r = if true { err(\"bad\") } else { ok(42) } \n 0 }").is_ok());
}

#[test]
fn check_float_literal() {
    assert!(do_check("fn main() Float { 3.14 }").is_ok());
}

#[test]
fn check_float_arithmetic() {
    assert!(do_check("fn main() Float { let a = 1.5 \n let b = 2.5 \n a + b }").is_ok());
}

#[test]
fn check_float_comparison() {
    assert!(do_check("fn main() Int { let a = 1.5 \n let b = 2.5 \n if a < b { 1 } else { 0 } }").is_ok());
}

#[test]
fn check_int_to_float() {
    assert!(do_check("fn main() Float { int_to_float(42) }").is_ok());
}

#[test]
fn check_float_to_int() {
    assert!(do_check("fn main() Int { float_to_int(3.14) }").is_ok());
}

#[test]
fn check_float_to_string() {
    assert!(do_check("fn main() Int { let s = float_to_string(3.14) \n 0 }").is_ok());
}

#[test]
fn check_string_trim() {
    assert!(do_check("fn main() Int { let s = \"hello\".trim() \n 0 }").is_ok());
}

#[test]
fn check_string_starts_with() {
    assert!(do_check("fn main() Int { if \"hello\".starts_with(\"he\") { 1 } else { 0 } }").is_ok());
}

#[test]
fn check_string_ends_with() {
    assert!(do_check("fn main() Int { if \"hello\".ends_with(\"lo\") { 1 } else { 0 } }").is_ok());
}

#[test]
fn check_string_contains() {
    assert!(do_check("fn main() Int { if \"hello\".contains(\"ll\") { 1 } else { 0 } }").is_ok());
}

#[test]
fn check_string_split() {
    assert!(do_check("fn main() Int { let parts = \"a,b,c\".split(\",\") \n parts.len() }").is_ok());
}

#[test]
fn check_array_pop() {
    assert!(do_check("fn main() Int { let a = array<Int>() \n a.push(1) \n a.pop() }").is_ok());
}

#[test]
fn check_array_contains() {
    assert!(do_check("fn main() Int { let a = array<Int>() \n a.push(1) \n if a.contains(1) { 1 } else { 0 } }").is_ok());
}

#[test]
fn check_string_replace() {
    assert!(do_check("fn main() Int { let s = \"hello world\".replace(\"world\", \"there\") \n 0 }").is_ok());
}

#[test]
fn check_array_remove() {
    assert!(do_check("fn main() Int { let a = array<Int>() \n a.push(1) \n a.push(2) \n a.remove(0) }").is_ok());
}

#[test]
fn check_http_listen() {
    assert!(do_check("fn main() Int { let s = http_listen(8080) \n 0 }").is_ok());
}

#[test]
fn check_http_server_accept() {
    assert!(do_check("fn main() Int { let s = http_listen(8080) \n let r = s.accept() \n 0 }").is_ok());
}

#[test]
fn check_http_request_methods() {
    assert!(do_check("fn main() Int { let s = http_listen(8080) \n let r = s.accept() \n let p = r.path() \n let m = r.method() \n r.respond(200, \"ok\") }").is_ok());
}

#[test]
fn check_array_literal() {
    assert!(do_check("fn main() Int { let a = [1, 2, 3] \n a.len() }").is_ok());
}

#[test]
fn check_array_literal_type_mismatch() {
    let err = do_check(r#"fn main() Int { let a = [1, "hello"]
 a.len() }"#).unwrap_err();
    assert!(err.message.contains("array literal element"));
}

// Modulo operator tests
#[test]
fn check_modulo_int() {
    assert!(do_check("fn main() Int { 17 % 5 }").is_ok());
}

#[test]
fn check_modulo_float() {
    assert!(do_check("fn main() Float { 3.14 % 1.0 }").is_ok());
}

#[test]
fn check_modulo_type_mismatch() {
    assert!(do_check("fn main() Int { true % 5 }").is_err());
}

// Unary negation tests
#[test]
fn check_neg_int() {
    assert!(do_check("fn main() Int { -42 }").is_ok());
}

#[test]
fn check_neg_float() {
    assert!(do_check("fn main() Float { -3.14 }").is_ok());
}

#[test]
fn check_neg_bool_error() {
    assert!(do_check("fn main() Int { -true }").is_err());
}

#[test]
fn check_neg_in_expr() {
    assert!(do_check("fn main() Int { let x = 10 \n x + -3 }").is_ok());
}

// Array literal tests
#[test]
fn check_array_literal_string() {
    assert!(do_check("fn main() Int { let a = [\"a\", \"b\"] \n a.len() }").is_ok());
}

// String interpolation tests
#[test]
fn check_string_interp() {
    assert!(do_check("fn main() Int { let name = \"world\" \n let s = \"Hello {name}!\" \n s.len() }").is_ok());
}

#[test]
fn check_string_interp_type_error() {
    assert!(do_check("fn main() Int { let x = 42 \n let s = \"value: {x}\" \n s.len() }").is_err());
}

// Multiline string test
#[test]
fn check_multiline_string() {
    assert!(do_check("fn main() Int { let s = \"\"\"\nhello\nworld\n\"\"\" \n s.len() }").is_ok());
}

#[test]
fn check_tuple_literal() {
    let src = "main() I { t = (1 2 3)\n t.0 }";
    let program = parse(src).unwrap();
    let result = check(&program, &Vec::new());
    assert!(result.is_ok());
}

#[test]
fn check_tuple_access_out_of_bounds() {
    let src = "main() I { t = (1 2)\n t.5 }";
    let program = parse(src).unwrap();
    let result = check(&program, &Vec::new());
    assert!(result.is_err());
}

#[test]
fn check_lambda_basic() {
    let src = "main() I { f = |x:I| I { x + 10 }\n 0 }";
    let program = parse(src).unwrap();
    let result = check(&program, &Vec::new());
    assert!(result.is_ok());
}

#[test]
fn check_lambda_capture() {
    let src = "main() I { offset = 10\n f = |x:I| I { x + offset }\n 0 }";
    let program = parse(src).unwrap();
    let result = check(&program, &Vec::new());
    assert!(result.is_ok());
}

#[test]
fn check_lambda_type_error() {
    let src = "main() I { f = |x:S| I { x + 10 }\n 0 }";
    let program = parse(src).unwrap();
    let result = check(&program, &Vec::new());
    assert!(result.is_err()); // Can't add String + Int
}
