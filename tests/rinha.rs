use std::rc::Rc;
use zwitterion::ast::{BinaryOp, Term};
use zwitterion::interpreter::{from_ast, interpret, interpret_binary, interpret_from_ast, Interpreter};
use zwitterion::value::{Env, Kind, Mismatch, RuntimeError, Value};

fn integer(n: i64) -> Term {
    Term::Int(n)
}

fn string(s: &str) -> Term {
    Term::Str(s.to_string())
}

fn var(name: &str) -> Term {
    Term::Var(name.to_string())
}

fn binary(lhs: Term, op: BinaryOp, rhs: Term) -> Term {
    Term::Binary { lhs: Box::new(lhs), op, rhs: Box::new(rhs) }
}

fn let_in(name: &str, value: Term, next: Term) -> Term {
    Term::Let { name: name.to_string(), value: Box::new(value), next: Box::new(next) }
}

fn function(parameters: &[&str], body: Term) -> Term {
    Term::Function {
        parameters: parameters.iter().map(|p| p.to_string()).collect(),
        body: Rc::new(body),
    }
}

fn call(callee: Term, arguments: Vec<Term>) -> Term {
    Term::Call { callee: Box::new(callee), arguments }
}

fn tuple(first: Term, second: Term) -> Term {
    Term::Tuple { first: Box::new(first), second: Box::new(second) }
}

fn first(value: Term) -> Term {
    Term::First { value: Box::new(value) }
}

fn second(value: Term) -> Term {
    Term::Second { value: Box::new(value) }
}

fn print(value: Term) -> Term {
    Term::Print { value: Box::new(value) }
}

fn output_of(program: &Term) -> String {
    interpret_from_ast(program).0
}

fn int_value(r: Result<Value, RuntimeError>) -> i64 {
    match r {
        Ok(Value::Int(n)) => n,
        other => panic!("expected an integer, got {:?}", other),
    }
}

fn str_value(r: Result<Value, RuntimeError>) -> String {
    match r {
        Ok(Value::Str(s)) => s,
        other => panic!("expected a string, got {:?}", other),
    }
}

fn bool_value(r: Result<Value, RuntimeError>) -> bool {
    match r {
        Ok(Value::Bool(b)) => b,
        other => panic!("expected a boolean, got {:?}", other),
    }
}

fn eval_binary(a: Term, op: BinaryOp, b: Term) -> Result<Value, RuntimeError> {
    interpret_from_ast(&binary(a, op, b)).1
}

#[test]
fn print_number() {
    // print(1)
    assert_eq!(output_of(&print(integer(1))), "1\n");
}

#[test]
fn print_string() {
    // print("Hello, world")
    assert_eq!(output_of(&print(string("Hello, world"))), "Hello, world\n");
}

#[test]
fn define_variable() {
    // let a = 1; print(a)
    let program = let_in("a", integer(1), print(var("a")));
    let (out, result) = interpret_from_ast(&program);
    assert_eq!(out, "1\n");
    assert_eq!(int_value(result), 1);
}

#[test]
fn print_twice() {
    // let a = 1; print(print(a))
    let program = let_in("a", integer(1), print(print(var("a"))));
    assert_eq!(output_of(&program), "1\n1\n");
}

#[test]
fn sum() {
    // let sum = fn(a, b) => { a + b }; print(sum(1, 2))
    let adder = function(&["a", "b"], binary(var("a"), BinaryOp::Add, var("b")));
    let program = let_in("sum", adder, print(call(var("sum"), vec![integer(1), integer(2)])));
    assert_eq!(output_of(&program), "3\n");

    // print((fn(a, b) => { a + b })(1, 2))
    let adder = function(&["a", "b"], binary(var("a"), BinaryOp::Add, var("b")));
    let program = print(call(adder, vec![integer(1), integer(2)]));
    assert_eq!(output_of(&program), "3\n");
}

#[test]
fn declare_tuple() {
    // let tuple = (1, 2); print(tuple)
    let program = let_in("tuple", tuple(integer(1), integer(2)), print(var("tuple")));
    assert_eq!(output_of(&program), "(1, 2)\n");
}

#[test]
fn tuple_first() {
    // let tuple = (1, 2); print(first(tuple))
    let program = let_in("tuple", tuple(integer(1), integer(2)), print(first(var("tuple"))));
    assert_eq!(output_of(&program), "1\n");
}

#[test]
fn tuple_second() {
    // let tuple = (1, 2); print(second(tuple))
    let program = let_in("tuple", tuple(integer(1), integer(2)), print(second(var("tuple"))));
    assert_eq!(output_of(&program), "2\n");
}

#[test]
fn tuple_first_fail() {
    // print(first(true))
    let (out, result) = interpret_from_ast(&print(first(Term::Bool(true))));
    assert_eq!(out, "");
    assert!(matches!(result, Err(RuntimeError::TypeMismatch(Mismatch::First(Kind::Bool)))));
}

#[test]
fn tuple_second_fail() {
    // print(second(true))
    let (out, result) = interpret_from_ast(&print(second(Term::Bool(true))));
    assert_eq!(out, "");
    assert!(matches!(result, Err(RuntimeError::TypeMismatch(Mismatch::Second(Kind::Bool)))));
}

#[test]
fn integer_arithmetic() {
    assert_eq!(int_value(eval_binary(integer(7), BinaryOp::Add, integer(5))), 12);
    assert_eq!(int_value(eval_binary(integer(7), BinaryOp::Sub, integer(5))), 2);
    assert_eq!(int_value(eval_binary(integer(7), BinaryOp::Mul, integer(-5))), -35);
    assert_eq!(int_value(eval_binary(integer(-7), BinaryOp::Div, integer(2))), -3);
    assert_eq!(int_value(eval_binary(integer(-7), BinaryOp::Rem, integer(2))), -1);
    assert_eq!(int_value(eval_binary(integer(7), BinaryOp::Rem, integer(-2))), 1);
    assert_eq!(int_value(eval_binary(integer(i64::MIN), BinaryOp::Rem, integer(-1))), 0);
}

#[test]
fn division_by_zero() {
    assert!(matches!(eval_binary(integer(1), BinaryOp::Div, integer(0)), Err(RuntimeError::DivisionByZero)));
    assert!(matches!(eval_binary(integer(1), BinaryOp::Rem, integer(0)), Err(RuntimeError::DivisionByZero)));
}

#[test]
fn overflow() {
    assert!(matches!(eval_binary(integer(i64::MAX), BinaryOp::Add, integer(1)), Err(RuntimeError::Overflow)));
    assert!(matches!(eval_binary(integer(i64::MIN), BinaryOp::Sub, integer(1)), Err(RuntimeError::Overflow)));
    assert!(matches!(eval_binary(integer(i64::MAX), BinaryOp::Mul, integer(2)), Err(RuntimeError::Overflow)));
    assert!(matches!(eval_binary(integer(i64::MIN), BinaryOp::Div, integer(-1)), Err(RuntimeError::Overflow)));
}

#[test]
fn string_concatenation_keeps_order() {
    assert_eq!(str_value(eval_binary(string("a"), BinaryOp::Add, integer(1))), "a1");
    assert_eq!(str_value(eval_binary(integer(1), BinaryOp::Add, string("a"))), "1a");
    assert_eq!(str_value(eval_binary(string("a"), BinaryOp::Add, string("b"))), "ab");
    assert_eq!(str_value(eval_binary(integer(-12), BinaryOp::Add, string("x"))), "-12x");
}

#[test]
fn comparisons_and_equality() {
    assert!(bool_value(eval_binary(integer(1), BinaryOp::Lt, integer(2))));
    assert!(!bool_value(eval_binary(integer(1), BinaryOp::Gt, integer(2))));
    assert!(bool_value(eval_binary(integer(2), BinaryOp::Lte, integer(2))));
    assert!(!bool_value(eval_binary(integer(1), BinaryOp::Gte, integer(2))));
    assert!(bool_value(eval_binary(string("a"), BinaryOp::Eq, string("a"))));
    assert!(bool_value(eval_binary(string("a"), BinaryOp::Neq, string("b"))));
    assert!(bool_value(eval_binary(Term::Bool(true), BinaryOp::Eq, Term::Bool(true))));
    assert!(matches!(
        eval_binary(integer(1), BinaryOp::Eq, string("1")),
        Err(RuntimeError::TypeMismatch(Mismatch::Binary(BinaryOp::Eq, Kind::Int, Kind::Str)))
    ));
    assert!(matches!(
        eval_binary(tuple(integer(1), integer(2)), BinaryOp::Eq, tuple(integer(1), integer(2))),
        Err(RuntimeError::TypeMismatch(Mismatch::Binary(BinaryOp::Eq, Kind::Tuple, Kind::Tuple)))
    ));
    assert!(matches!(
        eval_binary(Term::Bool(true), BinaryOp::Add, integer(1)),
        Err(RuntimeError::TypeMismatch(Mismatch::Binary(BinaryOp::Add, Kind::Bool, Kind::Int)))
    ));
}

#[test]
fn logical_operators_evaluate_both_sides() {
    // false && print(true)
    let program = binary(Term::Bool(false), BinaryOp::And, print(Term::Bool(true)));
    let (out, result) = interpret_from_ast(&program);
    assert_eq!(out, "true\n");
    assert!(!bool_value(result));

    // true || print(false)
    let program = binary(Term::Bool(true), BinaryOp::Or, print(Term::Bool(false)));
    let (out, result) = interpret_from_ast(&program);
    assert_eq!(out, "false\n");
    assert!(bool_value(result));
}

#[test]
fn closures_capture_at_definition() {
    // let x = 1; let f = fn() => x; let x = 2; f()
    let program = let_in(
        "x",
        integer(1),
        let_in("f", function(&[], var("x")), let_in("x", integer(2), call(var("f"), vec![]))),
    );
    assert_eq!(int_value(interpret_from_ast(&program).1), 1);
}

#[test]
fn call_failures() {
    let program = call(integer(1), vec![]);
    assert!(matches!(interpret_from_ast(&program).1, Err(RuntimeError::NotCallable)));

    // (fn(a) => a)(1, 2), with output written before the failure kept
    let program = tuple(print(integer(5)), call(function(&["a"], var("a")), vec![integer(1), integer(2)]));
    let (out, result) = interpret_from_ast(&program);
    assert_eq!(out, "5\n");
    assert!(matches!(result, Err(RuntimeError::ArityMismatch)));
}

#[test]
fn nested_pairs_are_kept() {
    // first(((1, 2), 3)) prints as (1, 2)
    let program = print(first(tuple(tuple(integer(1), integer(2)), integer(3))));
    assert_eq!(output_of(&program), "(1, 2)\n");
}

#[test]
fn conditionals_run_one_branch() {
    let program = Term::If {
        condition: Box::new(Term::Bool(false)),
        then: Box::new(print(integer(1))),
        otherwise: Box::new(print(integer(2))),
    };
    assert_eq!(output_of(&program), "2\n");
    let program = Term::If {
        condition: Box::new(integer(0)),
        then: Box::new(integer(1)),
        otherwise: Box::new(integer(2)),
    };
    assert!(matches!(
        interpret_from_ast(&program).1,
        Err(RuntimeError::TypeMismatch(Mismatch::Condition(Kind::Int)))
    ));
}

#[test]
fn other_failures() {
    assert!(matches!(interpret_from_ast(&var("nope")).1, Err(RuntimeError::UnboundVariable)));
    assert!(matches!(
        interpret_from_ast(&Term::Error("bad".to_string())).1,
        Err(RuntimeError::MalformedInput)
    ));
    // (fn(f) => f(f))(fn(f) => f(f)) never ends on its own.
    let omega = || function(&["f"], call(var("f"), vec![var("f")]));
    let mut env = Env::new();
    let mut out = String::new();
    let result = interpret(&call(omega(), vec![omega()]), &mut env, &mut out, 200);
    assert!(matches!(result, Err(RuntimeError::DepthExceeded)));
}

#[test]
fn rendering() {
    assert_eq!(Value::Int(-42).render(), "-42");
    assert_eq!(Value::Int(i64::MIN).render(), "-9223372036854775808");
    assert_eq!(Value::Bool(false).render(), "false");
    let closure = interpret_from_ast(&function(&["a"], var("a"))).1.unwrap();
    assert_eq!(closure.render(), "<#closure>");
    let pair = Value::Tuple(Box::new(Value::Str("x".to_string())), Box::new(Value::Bool(true)));
    assert_eq!(pair.render(), "(x, true)");
}

#[test]
fn environment_lookup_and_shadowing() {
    let mut env = Env::new();
    assert!(env.get("a").is_none());
    env.set("a", Value::Int(1));
    env.set("b", Value::Int(2));
    env.set("a", Value::Int(3));
    assert!(matches!(env.get("a"), Some(Value::Int(3))));
    assert!(matches!(env.get("b"), Some(Value::Int(2))));
    let copy = env.snapshot();
    env.set("b", Value::Int(9));
    assert!(matches!(copy.get("b"), Some(Value::Int(2))));
}

#[test]
fn interpreter_keeps_state_between_programs() {
    let mut interpreter = Interpreter::new();
    assert!(interpreter.eval(&let_in("a", integer(4), print(var("a")))).is_ok());
    let r = interpreter.eval(&print(binary(var("a"), BinaryOp::Mul, integer(2))));
    assert_eq!(int_value(r), 8);
    assert_eq!(interpreter.output, "4\n8\n");
}

#[test]
fn from_ast_appends_to_writer() {
    let mut writer = "start\n".to_string();
    let r = from_ast(&print(string("x")), &mut writer);
    assert!(r.is_ok());
    assert_eq!(writer, "start\nx\n");
}

#[test]
fn binary_operator_table() {
    let r = interpret_binary(BinaryOp::And, Value::Bool(true), Value::Bool(false));
    assert!(!bool_value(r));
    let r = interpret_binary(BinaryOp::Or, Value::Int(1), Value::Bool(false));
    assert!(matches!(r, Err(RuntimeError::TypeMismatch(Mismatch::Binary(BinaryOp::Or, Kind::Int, Kind::Bool)))));
}

#[test]
fn diagnostics() {
    let mut buffer = String::new();
    zwitterion::interpreter::panic("Expected tuple", &mut buffer);
    assert_eq!(buffer, "Expected tuple\n");
}

#[test]
fn scopes_drop_their_bindings() {
    let mut env = Env::new();
    env.set("a", Value::Int(1));
    env.push_scope();
    env.set("a", Value::Int(2));
    env.set("b", Value::Int(3));
    assert!(matches!(env.get("a"), Some(Value::Int(2))));
    env.pop_scope();
    assert!(matches!(env.get("a"), Some(Value::Int(1))));
    assert!(env.get("b").is_none());
}

#[test]
fn evaluation_keeps_open_scopes() {
    let mut interpreter = Interpreter::new();
    assert!(interpreter.env.scopes.is_empty());
    interpreter.env.push_scope();
    let adder = function(&["a"], binary(var("a"), BinaryOp::Add, integer(1)));
    let program = let_in("inc", adder, call(var("inc"), vec![integer(2)]));
    assert_eq!(int_value(interpreter.eval(&program)), 3);
    assert_eq!(interpreter.env.scopes.len(), 1);
    interpreter.env.pop_scope();
    assert!(interpreter.env.get("inc").is_none());
}
