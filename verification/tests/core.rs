//! End-to-end scenarios: source text through the lexer, parser, resolver and
//! evaluator, checking the printed output and the reported errors.

use lox::{
    had_error, parse_program, reset, ErrorKind, Interpreter, Lexer, NativeKind, Resolver, Session,
};

/// Runs a program from source and returns its printed lines.
fn run(source: &str) -> Result<Vec<String>, ErrorKind> {
    let mut lexer = Lexer::new(source);
    let tokens = lexer.scan_tokens();
    let program = match parse_program(&tokens) {
        Ok(p) => p,
        Err(e) => panic!("parse error: {}", e.message),
    };
    let mut resolver = Resolver::new();
    if let Err(e) = resolver.resolve_stmts(&program) {
        return Err(e.kind);
    }
    let mut interp = Interpreter::new();
    interp.install_resolution(&resolver.locals);
    match interp.interpret(&program) {
        Ok(()) => Ok(interp.output),
        Err(e) => Err(e.kind),
    }
}

fn run_ok(source: &str) -> Vec<String> {
    match run(source) {
        Ok(out) => out,
        Err(e) => panic!("unexpected error: {:?}", e),
    }
}

#[test]
fn shadowing_prints_inner_then_outer() {
    let out = run_ok("var a = 1; { var a = 2; print a; } print a;");
    assert_eq!(out, vec!["2".to_string(), "1".to_string()]);
}

#[test]
fn closures_capture_by_reference() {
    let out = run_ok(
        "fun makeCounter() { var i = 0; fun count() { i = i + 1; print i; } return count; } \
         var c = makeCounter(); c(); c();",
    );
    assert_eq!(out, vec!["1".to_string(), "2".to_string()]);
}

#[test]
fn break_terminates_nearest_while() {
    let out = run_ok(
        "var r = 0; var i = 0; while (i < 5) { i = i + 1; if (i == 3) { break; } r = i; } \
         print r; print i;",
    );
    assert_eq!(out, vec!["2".to_string(), "3".to_string()]);
}

#[test]
fn return_terminates_nearest_function() {
    let out = run_ok("fun f() { while (true) { return 7; } } print f();");
    assert_eq!(out, vec!["7".to_string()]);
}

#[test]
fn nested_loops_break_inner_only() {
    let out = run_ok(
        "var total = 0; var i = 0; while (i < 3) { i = i + 1; var j = 0; \
         while (j < 10) { j = j + 1; if (j == 2) { break; } total = total + 1; } } print total;",
    );
    assert_eq!(out, vec!["3".to_string()]);
}

#[test]
fn inheritance_super_and_this() {
    let out = run_ok(
        "class A { method() { return this.kind; } describe() { return 1; } } \
         class B < A { describe() { return 2; } test() { return super.describe(); } } \
         var b = B(); b.kind = 10; print b.method(); print b.describe(); print b.test();",
    );
    assert_eq!(out, vec!["10".to_string(), "2".to_string(), "1".to_string()]);
}

#[test]
fn initializer_runs_and_result_is_instance() {
    let out = run_ok(
        "class P { init(x) { this.x = x; } get() { return this.x; } } \
         var p = P(41); print p.get();",
    );
    assert_eq!(out, vec!["41".to_string()]);
}

#[test]
fn arithmetic_and_concatenation() {
    let out = run_ok("print 1 + 2; print \"a\" + \"b\"; print 7 - 2 * 3; print 7 / 2;");
    assert_eq!(
        out,
        vec!["3".to_string(), "ab".to_string(), "1".to_string(), "3".to_string()]
    );
}

#[test]
fn adding_number_and_string_is_wrong_value_type() {
    match run("print 1 + \"a\";") {
        Err(ErrorKind::WrongValueType(_)) => {}
        other => panic!("expected a wrong-value-type error, got {:?}", other),
    }
}

#[test]
fn division_by_zero_is_wrong_value_type() {
    match run("print 1 / 0;") {
        Err(ErrorKind::WrongValueType(m)) => assert_eq!(m, "Division by zero."),
        other => panic!("expected a wrong-value-type error, got {:?}", other),
    }
}

#[test]
fn nil_equality_and_truthiness() {
    let out = run_ok("print nil == nil; print nil == 0; print !0; print !\"\"; print !nil;");
    assert_eq!(
        out,
        vec![
            "true".to_string(),
            "false".to_string(),
            "false".to_string(),
            "false".to_string(),
            "true".to_string()
        ]
    );
}

#[test]
fn addition_wraps_on_overflow() {
    let out = run_ok("print 9223372036854775807 + 1;");
    assert_eq!(out, vec!["-9223372036854775808".to_string()]);
}

#[test]
fn own_initializer_read_is_rejected_statically() {
    match run("{ var a = a; print a; }") {
        Err(ErrorKind::InvalidContext(m)) => {
            assert_eq!(m, "Can't read local variable in its own initializer")
        }
        other => panic!("expected an invalid-context error, got {:?}", other),
    }
}

#[test]
fn this_outside_class_is_rejected() {
    match run("print this;") {
        Err(ErrorKind::InvalidContext(_)) => {}
        other => panic!("expected an invalid-context error, got {:?}", other),
    }
}

#[test]
fn return_outside_function_is_rejected() {
    match run("return;") {
        Err(ErrorKind::UnexpectedStmt(_)) => {}
        other => panic!("expected an unexpected-statement error, got {:?}", other),
    }
}

#[test]
fn break_outside_loop_is_rejected() {
    match run("break;") {
        Err(ErrorKind::UnexpectedStmt(_)) => {}
        other => panic!("expected an unexpected-statement error, got {:?}", other),
    }
}

#[test]
fn value_returned_from_init_is_rejected() {
    match run("class A { init() { return 1; } } var a = A(); print a;") {
        Err(ErrorKind::UnexpectedStmt(_)) => {}
        other => panic!("expected an unexpected-statement error, got {:?}", other),
    }
}

#[test]
fn self_inheritance_is_rejected() {
    match run("class A < A { m() { return 1; } } print 1;") {
        Err(ErrorKind::UnexpectedExpr(m)) => assert_eq!(m, "A class can't inherit from itself."),
        other => panic!("expected an unexpected-expression error, got {:?}", other),
    }
}

#[test]
fn unused_local_is_rejected() {
    match run("{ var a = 1; }") {
        Err(ErrorKind::UnusedVariable(n)) => assert_eq!(n, "a"),
        other => panic!("expected an unused-variable error, got {:?}", other),
    }
}

#[test]
fn undefined_variable_is_a_runtime_error() {
    match run("print missing;") {
        Err(ErrorKind::UndefinedVar(_)) => {}
        other => panic!("expected an undefined-variable error, got {:?}", other),
    }
}

#[test]
fn assignment_to_undeclared_name_is_a_runtime_error() {
    match run("missing = 3;") {
        Err(ErrorKind::UndefinedVar(_)) => {}
        other => panic!("expected an undefined-variable error, got {:?}", other),
    }
}

#[test]
fn calling_a_number_is_not_callable() {
    match run("1();") {
        Err(ErrorKind::NotCallable(_)) => {}
        other => panic!("expected a not-callable error, got {:?}", other),
    }
}

#[test]
fn noncallable_callee_is_rejected_before_arguments() {
    // The argument would raise an undefined-variable error if it were
    // evaluated; the callee check comes first.
    match run("1(missing);") {
        Err(ErrorKind::NotCallable(_)) => {}
        other => panic!("expected a not-callable error, got {:?}", other),
    }
}

#[test]
fn callable_callee_evaluates_arguments_left_to_right() {
    let out = run_ok(
        "var x = 1; fun f(a, b) { return a + b; } print f(x = 5, x + 1); print x;",
    );
    assert_eq!(out, vec!["11".to_string(), "5".to_string()]);
}

#[test]
fn arity_mismatch_is_reported() {
    match run("fun f(a) { return a; } f();") {
        Err(ErrorKind::WrongValueType(m)) => {
            assert_eq!(m, "Expected 1 arguments but got 0.")
        }
        other => panic!("expected an arity error, got {:?}", other),
    }
}

#[test]
fn property_on_non_instance_is_rejected() {
    match run("var o = 1; print o.x;") {
        Err(ErrorKind::UnexpectedExpr(_)) => {}
        other => panic!("expected an unexpected-expression error, got {:?}", other),
    }
}

#[test]
fn undefined_property_is_reported() {
    match run("class A { m() { return 1; } } var a = A(); print a.missing;") {
        Err(ErrorKind::UndefinedVar(m)) => assert_eq!(m, "Undefined property 'missing'."),
        other => panic!("expected an undefined-variable error, got {:?}", other),
    }
}

#[test]
fn for_loop_desugars_to_while() {
    let out = run_ok("var s = 0; for (var i = 0; i < 4; i = i + 1) { s = s + i; } print s;");
    assert_eq!(out, vec!["6".to_string()]);
}

#[test]
fn logical_operators_short_circuit() {
    let out = run_ok("print false and missing; print 1 or missing; print nil or 5;");
    assert_eq!(
        out,
        vec!["false".to_string(), "1".to_string(), "5".to_string()]
    );
}

#[test]
fn comma_operator_keeps_the_right_value() {
    let out = run_ok("print (1, 2);");
    assert_eq!(out, vec!["2".to_string()]);
}

#[test]
fn clock_native_reports_the_installed_reading() {
    let mut lexer = Lexer::new("print clock();");
    let tokens = lexer.scan_tokens();
    let program = parse_program(&tokens).expect("parse");
    let mut resolver = Resolver::new();
    resolver.resolve_stmts(&program).expect("resolve");
    let mut interp = Interpreter::new();
    interp.set_global_fn("clock", 0, NativeKind::Clock);
    interp.set_clock(42);
    interp.install_resolution(&resolver.locals);
    interp.interpret(&program).expect("interpret");
    assert_eq!(interp.output, vec!["42".to_string()]);
}

#[test]
fn resolution_is_deterministic() {
    let src = "var a = 1; { var b = a; { print b; print a; } }";
    let mut lexer = Lexer::new(src);
    let tokens = lexer.scan_tokens();
    let program = parse_program(&tokens).expect("parse");
    let mut r1 = Resolver::new();
    r1.resolve_stmts(&program).expect("resolve");
    let mut r2 = Resolver::new();
    r2.resolve_stmts(&program).expect("resolve");
    assert_eq!(r1.locals, r2.locals);
}

#[test]
fn interpretation_is_idempotent() {
    let src = "var a = 1; fun bump() { a = a + 1; return a; } print bump(); print bump(); print a;";
    let first = run_ok(src);
    let second = run_ok(src);
    assert_eq!(first, second);
    assert_eq!(
        first,
        vec!["2".to_string(), "3".to_string(), "3".to_string()]
    );
}

#[test]
fn session_flag_records_and_resets() {
    let mut s = Session::new();
    assert!(!had_error(&s));
    s.note_error();
    assert!(had_error(&s));
    reset(&mut s);
    assert!(!had_error(&s));
}
