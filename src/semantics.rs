//! The meaning of programs: a big-step evaluation function over the models
//! of values and environments, with a bound on the nesting depth.
use crate::ast::{BinaryOp, Term};
use crate::env::lookup;
use crate::render::{decimal, render};
use crate::value::{kind_of, names_view, Bindings, Mismatch, RuntimeError, Val};
use vstd::prelude::*;

verus! {

/// Where an evaluation step ends: its result, the environment of the
/// evaluation site afterwards, and everything written to the output so far.
pub struct Step<T> {
    pub result: Result<T, RuntimeError>,
    pub env: Bindings,
    pub out: Seq<char>,
}

pub open spec fn done<T>(v: T, env: Bindings, out: Seq<char>) -> Step<T> {
    Step { result: Ok(v), env, out }
}

pub open spec fn fail<T>(e: RuntimeError, env: Bindings, out: Seq<char>) -> Step<T> {
    Step { result: Err(e), env, out }
}

pub open spec fn fits_i64(n: int) -> bool {
    i64::MIN <= n <= i64::MAX
}

pub open spec fn abs(n: int) -> nat {
    if n < 0 {
        (-n) as nat
    } else {
        n as nat
    }
}

/// Integer division rounding toward zero.
pub open spec fn trunc_div(a: int, b: int) -> int {
    if (a < 0) == (b < 0) {
        (abs(a) / abs(b)) as int
    } else {
        -((abs(a) / abs(b)) as int)
    }
}

/// The remainder of division rounding toward zero; it has the sign of `a`.
pub open spec fn trunc_rem(a: int, b: int) -> int {
    if a < 0 {
        -((abs(a) % abs(b)) as int)
    } else {
        (abs(a) % abs(b)) as int
    }
}

/// An integer result, or `Overflow` where it does not fit in 64 bits.
pub open spec fn int_result(n: int) -> Result<Val, RuntimeError> {
    if fits_i64(n) {
        Ok(Val::Int(n))
    } else {
        Err(RuntimeError::Overflow)
    }
}

/// What a binary operator makes of two evaluated operands.
pub open spec fn binary_result(op: BinaryOp, l: Val, r: Val) -> Result<Val, RuntimeError> {
    match (op, l, r) {
        (BinaryOp::Add, Val::Int(a), Val::Int(b)) => int_result(a + b),
        (BinaryOp::Add, Val::Int(a), Val::Str(b)) => Ok(Val::Str(decimal(a) + b)),
        (BinaryOp::Add, Val::Str(a), Val::Int(b)) => Ok(Val::Str(a + decimal(b))),
        (BinaryOp::Add, Val::Str(a), Val::Str(b)) => Ok(Val::Str(a + b)),
        (BinaryOp::Sub, Val::Int(a), Val::Int(b)) => int_result(a - b),
        (BinaryOp::Mul, Val::Int(a), Val::Int(b)) => int_result(a * b),
        (BinaryOp::Div, Val::Int(a), Val::Int(b)) => if b == 0 {
            Err(RuntimeError::DivisionByZero)
        } else {
            int_result(trunc_div(a, b))
        },
        (BinaryOp::Rem, Val::Int(a), Val::Int(b)) => if b == 0 {
            Err(RuntimeError::DivisionByZero)
        } else {
            Ok(Val::Int(trunc_rem(a, b)))
        },
        (BinaryOp::Eq, Val::Int(a), Val::Int(b)) => Ok(Val::Bool(a == b)),
        (BinaryOp::Eq, Val::Str(a), Val::Str(b)) => Ok(Val::Bool(a == b)),
        (BinaryOp::Eq, Val::Bool(a), Val::Bool(b)) => Ok(Val::Bool(a == b)),
        (BinaryOp::Neq, Val::Int(a), Val::Int(b)) => Ok(Val::Bool(a != b)),
        (BinaryOp::Neq, Val::Str(a), Val::Str(b)) => Ok(Val::Bool(a != b)),
        (BinaryOp::Neq, Val::Bool(a), Val::Bool(b)) => Ok(Val::Bool(a != b)),
        (BinaryOp::Lt, Val::Int(a), Val::Int(b)) => Ok(Val::Bool(a < b)),
        (BinaryOp::Gt, Val::Int(a), Val::Int(b)) => Ok(Val::Bool(a > b)),
        (BinaryOp::Lte, Val::Int(a), Val::Int(b)) => Ok(Val::Bool(a <= b)),
        (BinaryOp::Gte, Val::Int(a), Val::Int(b)) => Ok(Val::Bool(a >= b)),
        (BinaryOp::And, Val::Bool(a), Val::Bool(b)) => Ok(Val::Bool(a && b)),
        (BinaryOp::Or, Val::Bool(a), Val::Bool(b)) => Ok(Val::Bool(a || b)),
        _ => Err(RuntimeError::TypeMismatch(Mismatch::Binary(op, kind_of(l), kind_of(r)))),
    }
}

/// The environment of a call: the captured bindings, then each parameter
/// bound to its argument, in order.
pub open spec fn bind_params(captured: Bindings, params: Seq<Seq<char>>, args: Seq<Val>) -> Bindings {
    captured + Seq::new(params.len(), |j: int| (params[j], args[j]))
}

/// Evaluates `t` in `env`, with `out` written so far, nesting at most
/// `fuel` evaluations deep.
pub open spec fn eval_term(t: Term, env: Bindings, out: Seq<char>, fuel: nat) -> Step<Val>
    decreases fuel, 0nat,
{
    if fuel == 0 {
        fail(RuntimeError::DepthExceeded, env, out)
    } else {
        let f = (fuel - 1) as nat;
        match t {
            Term::Error(_) => fail(RuntimeError::MalformedInput, env, out),
            Term::Int(n) => done(Val::Int(n as int), env, out),
            Term::Str(s) => done(Val::Str(s@), env, out),
            Term::Bool(b) => done(Val::Bool(b), env, out),
            Term::Var(x) => match lookup(env, x@) {
                Some(v) => done(v, env, out),
                None => fail(RuntimeError::UnboundVariable, env, out),
            },
            Term::Binary { lhs, op, rhs } => binary_step(*lhs, op, *rhs, env, out, f),
            Term::Let { name, value, next } => let_step(name@, *value, *next, env, out, f),
            Term::Function { parameters, body } => done(
                Val::Closure { params: names_view(parameters@), body: *body, env },
                env,
                out,
            ),
            Term::Call { callee, arguments } => call_step(*callee, arguments@, env, out, f),
            Term::If { condition, then, otherwise } => if_step(
                *condition,
                *then,
                *otherwise,
                env,
                out,
                f,
            ),
            Term::Tuple { first, second } => tuple_step(*first, *second, env, out, f),
            Term::First { value } => project_step(*value, true, env, out, f),
            Term::Second { value } => project_step(*value, false, env, out, f),
            Term::Print { value } => print_step(*value, env, out, f),
        }
    }
}

/// Both operands are evaluated, left then right, before the operator
/// applies; neither is ever skipped.
pub open spec fn binary_step(
    lhs: Term,
    op: BinaryOp,
    rhs: Term,
    env: Bindings,
    out: Seq<char>,
    fuel: nat,
) -> Step<Val>
    decreases fuel, 1nat,
{
    let l = eval_term(lhs, env, out, fuel);
    match l.result {
        Err(e) => fail(e, l.env, l.out),
        Ok(lv) => {
            let r = eval_term(rhs, l.env, l.out, fuel);
            match r.result {
                Err(e) => fail(e, r.env, r.out),
                Ok(rv) => Step { result: binary_result(op, lv, rv), env: r.env, out: r.out },
            }
        },
    }
}

/// The bound value is added to the current environment, in which the
/// continuation then runs.
pub open spec fn let_step(
    name: Seq<char>,
    value: Term,
    next: Term,
    env: Bindings,
    out: Seq<char>,
    fuel: nat,
) -> Step<Val>
    decreases fuel, 1nat,
{
    let v = eval_term(value, env, out, fuel);
    match v.result {
        Err(e) => fail(e, v.env, v.out),
        Ok(x) => eval_term(next, v.env.push((name, x)), v.out, fuel),
    }
}

pub open spec fn call_step(callee: Term, args: Seq<Term>, env: Bindings, out: Seq<char>, fuel: nat) -> Step<Val>
    decreases fuel, args.len() + 2,
{
    let c = eval_term(callee, env, out, fuel);
    match c.result {
        Err(e) => fail(e, c.env, c.out),
        Ok(Val::Closure { params, body, env: captured }) => apply_closure(
            params,
            body,
            captured,
            args,
            c.env,
            c.out,
            fuel,
        ),
        Ok(_) => fail(RuntimeError::NotCallable, c.env, c.out),
    }
}

/// Exactly one branch runs, chosen by a boolean condition.
pub open spec fn if_step(
    condition: Term,
    then: Term,
    otherwise: Term,
    env: Bindings,
    out: Seq<char>,
    fuel: nat,
) -> Step<Val>
    decreases fuel, 1nat,
{
    let c = eval_term(condition, env, out, fuel);
    match c.result {
        Err(e) => fail(e, c.env, c.out),
        Ok(Val::Bool(b)) => if b {
            eval_term(then, c.env, c.out, fuel)
        } else {
            eval_term(otherwise, c.env, c.out, fuel)
        },
        Ok(v) => fail(RuntimeError::TypeMismatch(Mismatch::Condition(kind_of(v))), c.env, c.out),
    }
}

pub open spec fn tuple_step(first: Term, second: Term, env: Bindings, out: Seq<char>, fuel: nat) -> Step<Val>
    decreases fuel, 1nat,
{
    let a = eval_term(first, env, out, fuel);
    match a.result {
        Err(e) => fail(e, a.env, a.out),
        Ok(x) => {
            let b = eval_term(second, a.env, a.out, fuel);
            match b.result {
                Err(e) => fail(e, b.env, b.out),
                Ok(y) => done(Val::Tuple(Box::new(x), Box::new(y)), b.env, b.out),
            }
        },
    }
}

/// The first (or else the second) component of a pair.
pub open spec fn project_step(value: Term, first: bool, env: Bindings, out: Seq<char>, fuel: nat) -> Step<Val>
    decreases fuel, 1nat,
{
    let p = eval_term(value, env, out, fuel);
    match p.result {
        Err(e) => fail(e, p.env, p.out),
        Ok(Val::Tuple(x, y)) => done(
            if first {
                *x
            } else {
                *y
            },
            p.env,
            p.out,
        ),
        Ok(v) => fail(
            RuntimeError::TypeMismatch(
                if first {
                    Mismatch::First(kind_of(v))
                } else {
                    Mismatch::Second(kind_of(v))
                },
            ),
            p.env,
            p.out,
        ),
    }
}

/// The value is written with a line terminator and is also the result.
pub open spec fn print_step(value: Term, env: Bindings, out: Seq<char>, fuel: nat) -> Step<Val>
    decreases fuel, 1nat,
{
    let p = eval_term(value, env, out, fuel);
    match p.result {
        Err(e) => fail(e, p.env, p.out),
        Ok(x) => done(x, p.env, p.out + render(x) + seq!['\n']),
    }
}

/// Calls a closure on argument terms evaluated in the caller's `env`: the
/// counts must agree, then the body runs in the call environment, and the
/// caller's environment is the one that the arguments left.
pub open spec fn apply_closure(
    params: Seq<Seq<char>>,
    body: Term,
    captured: Bindings,
    args: Seq<Term>,
    env: Bindings,
    out: Seq<char>,
    fuel: nat,
) -> Step<Val>
    decreases fuel, args.len() + 1,
{
    if params.len() != args.len() {
        fail(RuntimeError::ArityMismatch, env, out)
    } else {
        let a = eval_args(args, env, out, fuel);
        match a.result {
            Err(e) => fail(e, a.env, a.out),
            Ok(vals) => {
                let b = eval_term(body, bind_params(captured, params, vals), a.out, fuel);
                Step { result: b.result, env: a.env, out: b.out }
            },
        }
    }
}

/// Evaluates the arguments of a call left to right, each in the caller's
/// environment as the previous ones left it.
pub open spec fn eval_args(args: Seq<Term>, env: Bindings, out: Seq<char>, fuel: nat) -> Step<Seq<Val>>
    decreases fuel, args.len(),
{
    if args.len() == 0 {
        done(Seq::empty(), env, out)
    } else {
        let init = eval_args(args.drop_last(), env, out, fuel);
        match init.result {
            Err(e) => fail(e, init.env, init.out),
            Ok(vs) => {
                let a = eval_term(args.last(), init.env, init.out, fuel);
                match a.result {
                    Err(e) => fail(e, a.env, a.out),
                    Ok(v) => done(vs.push(v), a.env, a.out),
                }
            },
        }
    }
}

} // verus!
