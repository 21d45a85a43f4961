//! The evaluator: walks a syntax tree, threading an environment and an
//! output buffer, and stops at the first runtime failure.
use crate::ast::{BinaryOp, Term};
use crate::render::{push_char, write_int, write_value};
use crate::semantics::{
    apply_closure, binary_result, binary_step, bind_params, call_step, eval_args, eval_term, if_step,
    let_step, print_step, project_step, tuple_step, Step,
};
use crate::value::{Bindings, Mismatch, copy_names, share_term, AnonymousFunction, Env, RuntimeError, Val, Value};
use vstd::prelude::*;
use vstd::string::*;

verus! {

/// The model of an evaluation result.
pub open spec fn result_view(r: Result<Value, RuntimeError>) -> Result<Val, RuntimeError> {
    match r {
        Ok(v) => Ok(v@),
        Err(e) => Err(e),
    }
}

fn checked_int(n: Option<i64>) -> (r: Result<Value, RuntimeError>)
    ensures
        match n {
            Some(k) => r == Ok::<Value, RuntimeError>(Value::Int(k)),
            None => r == Err::<Value, RuntimeError>(RuntimeError::Overflow),
        },
{
    match n {
        Some(k) => Ok(Value::Int(k)),
        None => Err(RuntimeError::Overflow),
    }
}

/// Applies a binary operator to two evaluated operands.
pub fn interpret_binary(op: BinaryOp, left: Value, right: Value) -> (r: Result<Value, RuntimeError>)
    ensures
        result_view(r) == binary_result(op, left@, right@),
{
    match (op, left, right) {
        (BinaryOp::Add, Value::Int(a), Value::Int(b)) => checked_int(a.checked_add(b)),
        (BinaryOp::Add, Value::Int(a), Value::Str(b)) => {
            let mut s = String::new();
            write_int(a, &mut s);
            s.append(b.as_str());
            Ok(Value::Str(s))
        },
        (BinaryOp::Add, Value::Str(a), Value::Int(b)) => {
            let mut s = a;
            write_int(b, &mut s);
            Ok(Value::Str(s))
        },
        (BinaryOp::Add, Value::Str(a), Value::Str(b)) => {
            let mut s = a;
            s.append(b.as_str());
            Ok(Value::Str(s))
        },
        (BinaryOp::Sub, Value::Int(a), Value::Int(b)) => checked_int(a.checked_sub(b)),
        (BinaryOp::Mul, Value::Int(a), Value::Int(b)) => checked_int(a.checked_mul(b)),
        (BinaryOp::Div, Value::Int(a), Value::Int(b)) => {
            if b == 0 {
                Err(RuntimeError::DivisionByZero)
            } else {
                checked_int(a.checked_div(b))
            }
        },
        (BinaryOp::Rem, Value::Int(a), Value::Int(b)) => {
            if b == 0 {
                Err(RuntimeError::DivisionByZero)
            } else if b == -1 {
                Ok(Value::Int(0))
            } else {
                checked_int(a.checked_rem(b))
            }
        },
        (BinaryOp::Eq, Value::Int(a), Value::Int(b)) => Ok(Value::Bool(a == b)),
        (BinaryOp::Eq, Value::Str(a), Value::Str(b)) => Ok(Value::Bool(a == b)),
        (BinaryOp::Eq, Value::Bool(a), Value::Bool(b)) => Ok(Value::Bool(a == b)),
        (BinaryOp::Neq, Value::Int(a), Value::Int(b)) => Ok(Value::Bool(a != b)),
        (BinaryOp::Neq, Value::Str(a), Value::Str(b)) => Ok(Value::Bool(!(a == b))),
        (BinaryOp::Neq, Value::Bool(a), Value::Bool(b)) => Ok(Value::Bool(a != b)),
        (BinaryOp::Lt, Value::Int(a), Value::Int(b)) => Ok(Value::Bool(a < b)),
        (BinaryOp::Gt, Value::Int(a), Value::Int(b)) => Ok(Value::Bool(a > b)),
        (BinaryOp::Lte, Value::Int(a), Value::Int(b)) => Ok(Value::Bool(a <= b)),
        (BinaryOp::Gte, Value::Int(a), Value::Int(b)) => Ok(Value::Bool(a >= b)),
        (BinaryOp::And, Value::Bool(a), Value::Bool(b)) => Ok(Value::Bool(a && b)),
        (BinaryOp::Or, Value::Bool(a), Value::Bool(b)) => Ok(Value::Bool(a || b)),
        (op, l, r) => Err(RuntimeError::TypeMismatch(Mismatch::Binary(op, l.kind(), r.kind()))),
    }
}

/// Evaluates `term` in `env`, appending what `print` writes to `out`, with
/// evaluations nested at most `fuel` deep.
///
/// A `let` binds in `env` itself; a call runs its body in a fresh copy of
/// the closure's captured environment, so `env` sees none of its bindings.
/// On failure, `out` keeps everything written before it.
pub fn interpret(term: &Term, env: &mut Env, out: &mut String, fuel: u64) -> (r: Result<Value, RuntimeError>)
    ensures
        eval_term(*term, old(env)@, old(out)@, fuel as nat) == (Step {
            result: result_view(r),
            env: final(env)@,
            out: final(out)@,
        }),
        final(env).scopes@ == old(env).scopes@,
    decreases fuel, 0nat,
{
    if fuel == 0 {
        return Err(RuntimeError::DepthExceeded);
    }
    let f = fuel - 1;
    match term {
        Term::Error(_) => Err(RuntimeError::MalformedInput),
        Term::Int(n) => Ok(Value::Int(*n)),
        Term::Str(s) => Ok(Value::Str(s.clone())),
        Term::Bool(b) => Ok(Value::Bool(*b)),
        Term::Var(x) => match env.get(x.as_str()) {
            Some(v) => Ok(v.duplicate()),
            None => Err(RuntimeError::UnboundVariable),
        },
        Term::Binary { lhs, op, rhs } => interpret_operation(lhs, *op, rhs, env, out, f),
        Term::Let { name, value, next } => interpret_let(name, value, next, env, out, f),
        Term::Function { parameters, body } => {
            let captured = env.snapshot();
            Ok(
                Value::Closure(
                    AnonymousFunction {
                        parameters: copy_names(parameters),
                        body: share_term(body),
                        env: captured,
                    },
                ),
            )
        },
        Term::Call { callee, arguments } => interpret_call(callee, arguments, env, out, f),
        Term::If { condition, then, otherwise } => interpret_if(condition, then, otherwise, env, out, f),
        Term::Tuple { first, second } => interpret_tuple(first, second, env, out, f),
        Term::First { value } => interpret_projection(value, true, env, out, f),
        Term::Second { value } => interpret_projection(value, false, env, out, f),
        Term::Print { value } => interpret_print(value, env, out, f),
    }
}

fn interpret_operation(
    lhs: &Term,
    op: BinaryOp,
    rhs: &Term,
    env: &mut Env,
    out: &mut String,
    fuel: u64,
) -> (r: Result<Value, RuntimeError>)
    ensures
        binary_step(*lhs, op, *rhs, old(env)@, old(out)@, fuel as nat) == (Step {
            result: result_view(r),
            env: final(env)@,
            out: final(out)@,
        }),
        final(env).scopes@ == old(env).scopes@,
    decreases fuel, 1nat,
{
    let l = match interpret(lhs, env, out, fuel) {
        Ok(v) => v,
        Err(e) => return Err(e),
    };
    let r = match interpret(rhs, env, out, fuel) {
        Ok(v) => v,
        Err(e) => return Err(e),
    };
    interpret_binary(op, l, r)
}

fn interpret_let(
    name: &String,
    value: &Term,
    next: &Term,
    env: &mut Env,
    out: &mut String,
    fuel: u64,
) -> (r: Result<Value, RuntimeError>)
    ensures
        let_step(name@, *value, *next, old(env)@, old(out)@, fuel as nat) == (Step {
            result: result_view(r),
            env: final(env)@,
            out: final(out)@,
        }),
        final(env).scopes@ == old(env).scopes@,
    decreases fuel, 1nat,
{
    let v = match interpret(value, env, out, fuel) {
        Ok(v) => v,
        Err(e) => return Err(e),
    };
    env.set(name.as_str(), v);
    interpret(next, env, out, fuel)
}

fn interpret_call(
    callee: &Term,
    arguments: &Vec<Term>,
    env: &mut Env,
    out: &mut String,
    fuel: u64,
) -> (r: Result<Value, RuntimeError>)
    ensures
        call_step(*callee, arguments@, old(env)@, old(out)@, fuel as nat) == (Step {
            result: result_view(r),
            env: final(env)@,
            out: final(out)@,
        }),
        final(env).scopes@ == old(env).scopes@,
    decreases fuel, arguments.len() + 2,
{
    let c = match interpret(callee, env, out, fuel) {
        Ok(v) => v,
        Err(e) => return Err(e),
    };
    match c {
        Value::Closure(func) => call_closure(func, arguments, env, out, fuel),
        _ => Err(RuntimeError::NotCallable),
    }
}

fn interpret_if(
    condition: &Term,
    then: &Term,
    otherwise: &Term,
    env: &mut Env,
    out: &mut String,
    fuel: u64,
) -> (r: Result<Value, RuntimeError>)
    ensures
        if_step(*condition, *then, *otherwise, old(env)@, old(out)@, fuel as nat) == (Step {
            result: result_view(r),
            env: final(env)@,
            out: final(out)@,
        }),
        final(env).scopes@ == old(env).scopes@,
    decreases fuel, 1nat,
{
    let c = match interpret(condition, env, out, fuel) {
        Ok(v) => v,
        Err(e) => return Err(e),
    };
    match c {
        Value::Bool(b) => {
            if b {
                interpret(then, env, out, fuel)
            } else {
                interpret(otherwise, env, out, fuel)
            }
        },
        _ => Err(RuntimeError::TypeMismatch(Mismatch::Condition(c.kind()))),
    }
}

fn interpret_tuple(
    first: &Term,
    second: &Term,
    env: &mut Env,
    out: &mut String,
    fuel: u64,
) -> (r: Result<Value, RuntimeError>)
    ensures
        tuple_step(*first, *second, old(env)@, old(out)@, fuel as nat) == (Step {
            result: result_view(r),
            env: final(env)@,
            out: final(out)@,
        }),
        final(env).scopes@ == old(env).scopes@,
    decreases fuel, 1nat,
{
    let a = match interpret(first, env, out, fuel) {
        Ok(v) => v,
        Err(e) => return Err(e),
    };
    let b = match interpret(second, env, out, fuel) {
        Ok(v) => v,
        Err(e) => return Err(e),
    };
    Ok(Value::Tuple(Box::new(a), Box::new(b)))
}

fn interpret_projection(
    value: &Term,
    first: bool,
    env: &mut Env,
    out: &mut String,
    fuel: u64,
) -> (r: Result<Value, RuntimeError>)
    ensures
        project_step(*value, first, old(env)@, old(out)@, fuel as nat) == (Step {
            result: result_view(r),
            env: final(env)@,
            out: final(out)@,
        }),
        final(env).scopes@ == old(env).scopes@,
    decreases fuel, 1nat,
{
    let p = match interpret(value, env, out, fuel) {
        Ok(v) => v,
        Err(e) => return Err(e),
    };
    match p {
        Value::Tuple(a, b) => {
            if first {
                Ok(*a)
            } else {
                Ok(*b)
            }
        },
        _ => {
            let k = p.kind();
            if first {
                Err(RuntimeError::TypeMismatch(Mismatch::First(k)))
            } else {
                Err(RuntimeError::TypeMismatch(Mismatch::Second(k)))
            }
        },
    }
}

fn interpret_print(value: &Term, env: &mut Env, out: &mut String, fuel: u64) -> (r: Result<
    Value,
    RuntimeError,
>)
    ensures
        print_step(*value, old(env)@, old(out)@, fuel as nat) == (Step {
            result: result_view(r),
            env: final(env)@,
            out: final(out)@,
        }),
        final(env).scopes@ == old(env).scopes@,
    decreases fuel, 1nat,
{
    let v = match interpret(value, env, out, fuel) {
        Ok(v) => v,
        Err(e) => return Err(e),
    };
    let ghost before = out@;
    write_value(&v, out);
    push_char(out, '\n');
    assert(out@ =~= before + crate::render::render(v@) + seq!['\n']);
    Ok(v)
}

/// Once evaluating a prefix of the arguments fails, every longer prefix
/// fails the same way.
proof fn lemma_failed_args_prefix(args: Seq<Term>, k: int, m: int, env: Bindings, out: Seq<char>, fuel: nat)
    requires
        0 <= k <= m <= args.len(),
        eval_args(args.take(k), env, out, fuel).result is Err,
    ensures
        eval_args(args.take(m), env, out, fuel) == eval_args(args.take(k), env, out, fuel),
    decreases m - k,
{
    if m > k {
        lemma_failed_args_prefix(args, k, m - 1, env, out, fuel);
        assert(args.take(m).drop_last() =~= args.take(m - 1));
    }
}

/// Calls `func` on `arguments`, which are evaluated in `env`; the body runs
/// in a copy of the captured bindings extended with the parameters.
fn call_closure(
    func: AnonymousFunction,
    arguments: &Vec<Term>,
    env: &mut Env,
    out: &mut String,
    fuel: u64,
) -> (r: Result<Value, RuntimeError>)
    ensures
        apply_closure(
            crate::value::names_view(func.parameters@),
            *func.body,
            func.env@,
            arguments@,
            old(env)@,
            old(out)@,
            fuel as nat,
        ) == (Step { result: result_view(r), env: final(env)@, out: final(out)@ }),
        final(env).scopes@ == old(env).scopes@,
    decreases fuel, arguments.len() + 1,
{
    if func.parameters.len() != arguments.len() {
        return Err(RuntimeError::ArityMismatch);
    }
    let ghost env0 = env@;
    let ghost out0 = out@;
    let ghost params = crate::value::names_view(func.parameters@);
    let ghost captured = func.env@;
    let mut call_env = func.env;
    let ghost mut vals: Seq<Val> = Seq::empty();
    let mut i: usize = 0;
    while i < arguments.len()
        invariant
            i <= arguments.len(),
            arguments.len() == func.parameters.len(),
            params == crate::value::names_view(func.parameters@),
            captured == func.env@,
            env0 == old(env)@,
            out0 == old(out)@,
            env.scopes@ == old(env).scopes@,
            vals.len() == i,
            eval_args(arguments@.take(i as int), env0, out0, fuel as nat) == (Step {
                result: Ok::<Seq<Val>, RuntimeError>(vals),
                env: env@,
                out: out@,
            }),
            call_env@ == bind_params(captured, params.take(i as int), vals),
        decreases arguments.len() - i,
    {
        proof {
            let t = arguments@.take(i + 1);
            assert(t.drop_last() =~= arguments@.take(i as int));
            assert(t.last() == arguments@[i as int]);
        }
        let ghost env1 = env@;
        let ghost out1 = out@;
        let v = match interpret(&arguments[i], env, out, fuel) {
            Ok(v) => v,
            Err(e) => {
                proof {
                    let t = arguments@.take(i + 1);
                    let step = eval_term(arguments@[i as int], env1, out1, fuel as nat);
                    assert(step.result == Err::<Val, RuntimeError>(e));
                    assert(eval_args(t, env0, out0, fuel as nat) == (Step {
                        result: Err::<Seq<Val>, RuntimeError>(e),
                        env: env@,
                        out: out@,
                    }));
                    lemma_failed_args_prefix(
                        arguments@,
                        i + 1,
                        arguments.len() as int,
                        env0,
                        out0,
                        fuel as nat,
                    );
                    assert(arguments@.take(arguments.len() as int) =~= arguments@);
                    let whole = eval_args(arguments@, env0, out0, fuel as nat);
                    assert(whole.result == Err::<Seq<Val>, RuntimeError>(e));
                    assert(apply_closure(params, *func.body, captured, arguments@, env0, out0, fuel as nat)
                        == (Step { result: Err::<Val, RuntimeError>(e), env: env@, out: out@ }));
                }
                return Err(e);
            },
        };
        proof {
            let b0 = bind_params(captured, params.take(i as int), vals);
            let b1 = bind_params(captured, params.take(i + 1), vals.push(v@));
            assert(b1 =~= b0.push((params[i as int], v@)));
        }
        call_env.set(func.parameters[i].as_str(), v);
        proof {
            vals = vals.push(v@);
        }
        i = i + 1;
    }
    proof {
        assert(arguments@.take(i as int) =~= arguments@);
        assert(params.take(i as int) =~= params);
    }
    interpret(&func.body, &mut call_env, out, fuel)
}

/// How deeply evaluations may nest when no other limit is given.
pub const DEFAULT_DEPTH_LIMIT: u64 = 2048;

/// An evaluator with its top-level environment, its output buffer, and the
/// limit on how deeply evaluations may nest.
pub struct Interpreter {
    pub env: Env,
    pub output: String,
    pub depth_limit: u64,
}

impl Interpreter {
    /// An evaluator with no bindings, no output and the default depth limit.
    pub fn new() -> (r: Interpreter)
        ensures
            r.env@ == Seq::<(Seq<char>, Val)>::empty(),
            r.env.scopes@ == Seq::<usize>::empty(),
            r.output@ == Seq::<char>::empty(),
            r.depth_limit == DEFAULT_DEPTH_LIMIT,
    {
        Interpreter { env: Env::new(), output: String::new(), depth_limit: DEFAULT_DEPTH_LIMIT }
    }

    /// Evaluates `term` in the top-level environment, appending to the
    /// output buffer.
    pub fn eval(&mut self, term: &Term) -> (r: Result<Value, RuntimeError>)
        ensures
            eval_term(*term, old(self).env@, old(self).output@, old(self).depth_limit as nat) == (Step {
                result: result_view(r),
                env: final(self).env@,
                out: final(self).output@,
            }),
            final(self).env.scopes@ == old(self).env.scopes@,
            final(self).depth_limit == old(self).depth_limit,
    {
        interpret(term, &mut self.env, &mut self.output, self.depth_limit)
    }
}

/// Runs a whole program in a fresh environment, appending its output to
/// `writer`; what was written before a failure stays written.
pub fn from_ast(term: &Term, writer: &mut String) -> (r: Result<Value, RuntimeError>)
    ensures
        eval_term(*term, Seq::empty(), old(writer)@, DEFAULT_DEPTH_LIMIT as nat).result == result_view(r),
        eval_term(*term, Seq::empty(), old(writer)@, DEFAULT_DEPTH_LIMIT as nat).out == final(writer)@,
{
    let mut env = Env::new();
    interpret(term, &mut env, writer, DEFAULT_DEPTH_LIMIT)
}

/// Runs a whole program in a fresh environment and returns its output
/// together with its result.
pub fn interpret_from_ast(term: &Term) -> (r: (String, Result<Value, RuntimeError>))
    ensures
        eval_term(*term, Seq::empty(), Seq::empty(), DEFAULT_DEPTH_LIMIT as nat).result == result_view(r.1),
        eval_term(*term, Seq::empty(), Seq::empty(), DEFAULT_DEPTH_LIMIT as nat).out == r.0@,
{
    let mut out = String::new();
    let r = from_ast(term, &mut out);
    (out, r)
}

/// Writes a diagnostic line: the message and a line terminator.
pub fn panic(message: &str, writer: &mut String)
    ensures
        final(writer)@ == old(writer)@ + message@ + seq!['\n'],
{
    let ghost start = writer@;
    writer.append(message);
    push_char(writer, '\n');
    assert(writer@ =~= start + message@ + seq!['\n']);
}

} // verus!
