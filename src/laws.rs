//! Laws of the language, proved from its evaluation function.
use crate::ast::{BinaryOp, Term};
use crate::env::lookup;
use crate::render::decimal;
use crate::semantics::{eval_term, fits_i64, trunc_div, trunc_rem};
use crate::value::{kind_of, Bindings, Mismatch, RuntimeError, Val};
use std::rc::Rc;
use vstd::prelude::*;

verus! {

pub open spec fn binary_term(lhs: Term, op: BinaryOp, rhs: Term) -> Term {
    Term::Binary { lhs: Box::new(lhs), op, rhs: Box::new(rhs) }
}

/// Integer operators on integer operands give the exact mathematical
/// result where it fits in 64 bits; `/` and `%` fail with `DivisionByZero`
/// on a zero divisor and otherwise round toward zero.
pub proof fn law_integer_arithmetic(a: i64, b: i64, env: Bindings, out: Seq<char>, fuel: nat)
    requires
        fuel >= 2,
    ensures
        fits_i64(a + b) ==> eval_term(binary_term(Term::Int(a), BinaryOp::Add, Term::Int(b)), env, out, fuel).result
            == Ok::<Val, RuntimeError>(Val::Int(a + b)),
        fits_i64(a - b) ==> eval_term(binary_term(Term::Int(a), BinaryOp::Sub, Term::Int(b)), env, out, fuel).result
            == Ok::<Val, RuntimeError>(Val::Int(a - b)),
        fits_i64(a * b) ==> eval_term(binary_term(Term::Int(a), BinaryOp::Mul, Term::Int(b)), env, out, fuel).result
            == Ok::<Val, RuntimeError>(Val::Int(a * b)),
        b == 0 ==> eval_term(binary_term(Term::Int(a), BinaryOp::Div, Term::Int(b)), env, out, fuel).result
            == Err::<Val, RuntimeError>(RuntimeError::DivisionByZero),
        b == 0 ==> eval_term(binary_term(Term::Int(a), BinaryOp::Rem, Term::Int(b)), env, out, fuel).result
            == Err::<Val, RuntimeError>(RuntimeError::DivisionByZero),
        b != 0 && fits_i64(trunc_div(a as int, b as int)) ==> eval_term(
            binary_term(Term::Int(a), BinaryOp::Div, Term::Int(b)),
            env,
            out,
            fuel,
        ).result == Ok::<Val, RuntimeError>(Val::Int(trunc_div(a as int, b as int))),
        b != 0 ==> eval_term(binary_term(Term::Int(a), BinaryOp::Rem, Term::Int(b)), env, out, fuel).result
            == Ok::<Val, RuntimeError>(Val::Int(trunc_rem(a as int, b as int))),
{
    let f = (fuel - 1) as nat;
    assert(eval_term(Term::Int(a), env, out, f).result == Ok::<Val, RuntimeError>(Val::Int(a as int)));
    assert(eval_term(Term::Int(b), env, out, f).result == Ok::<Val, RuntimeError>(Val::Int(b as int)));
}

/// `+` with a string operand concatenates the textual forms in operand
/// order, so a string and an integer give different strings depending on
/// which comes first.
pub proof fn law_string_concatenation(s: String, n: i64, env: Bindings, out: Seq<char>, fuel: nat)
    requires
        fuel >= 2,
    ensures
        eval_term(binary_term(Term::Str(s), BinaryOp::Add, Term::Int(n)), env, out, fuel).result
            == Ok::<Val, RuntimeError>(Val::Str(s@ + decimal(n as int))),
        eval_term(binary_term(Term::Int(n), BinaryOp::Add, Term::Str(s)), env, out, fuel).result
            == Ok::<Val, RuntimeError>(Val::Str(decimal(n as int) + s@)),
{
    let f = (fuel - 1) as nat;
    assert(eval_term(Term::Int(n), env, out, f).result == Ok::<Val, RuntimeError>(Val::Int(n as int)));
    assert(eval_term(Term::Str(s), env, out, f).result == Ok::<Val, RuntimeError>(Val::Str(s@)));
}

/// `&&` and `||` evaluate both operands: once the left one has succeeded,
/// whatever its value, the right one runs and its output is written.
pub proof fn law_logical_operators_are_strict(
    lhs: Term,
    op: BinaryOp,
    rhs: Term,
    env: Bindings,
    out: Seq<char>,
    fuel: nat,
)
    requires
        op == BinaryOp::And || op == BinaryOp::Or,
        fuel >= 1,
        eval_term(lhs, env, out, (fuel - 1) as nat).result is Ok,
    ensures
        ({
            let l = eval_term(lhs, env, out, (fuel - 1) as nat);
            let r = eval_term(rhs, l.env, l.out, (fuel - 1) as nat);
            &&& eval_term(binary_term(lhs, op, rhs), env, out, fuel).out == r.out
            &&& eval_term(binary_term(lhs, op, rhs), env, out, fuel).env == r.env
        }),
{
}

/// A function literal makes a closure that holds its parameter names, its
/// body, and exactly the bindings visible where it is evaluated.
pub proof fn law_function_captures_current_bindings(
    parameters: Vec<String>,
    body: Rc<Term>,
    env: Bindings,
    out: Seq<char>,
    fuel: nat,
)
    requires
        fuel >= 1,
    ensures
        eval_term(Term::Function { parameters, body }, env, out, fuel) == crate::semantics::done(
            closure_value(parameters, body, env),
            env,
            out,
        ),
{
}

/// A call of a closure runs its body in the bindings the closure captured,
/// extended with the parameters bound to the argument values: whatever the
/// caller's environment holds when the call is made (a name bound anew
/// after the closure was created, say), only the callee's and the
/// arguments' values reach the body.
pub proof fn law_call_uses_captured_bindings(
    callee: Box<Term>,
    arguments: Vec<Term>,
    env: Bindings,
    out: Seq<char>,
    fuel: nat,
)
    requires
        fuel >= 1,
        eval_term(*callee, env, out, (fuel - 1) as nat).result is Ok,
        eval_term(*callee, env, out, (fuel - 1) as nat).result->Ok_0 is Closure,
        eval_term(*callee, env, out, (fuel - 1) as nat).result->Ok_0->params.len() == arguments@.len(),
    ensures
        ({
            let f = (fuel - 1) as nat;
            let c = eval_term(*callee, env, out, f);
            let closure = c.result->Ok_0;
            let a = crate::semantics::eval_args(arguments@, c.env, c.out, f);
            let r = eval_term(Term::Call { callee, arguments }, env, out, fuel);
            &&& a.result is Err ==> r == crate::semantics::fail::<Val>(a.result->Err_0, a.env, a.out)
            &&& a.result is Ok ==> ({
                let b = eval_term(
                    closure->body,
                    crate::semantics::bind_params(closure->env, closure->params, a.result->Ok_0),
                    a.out,
                    f,
                );
                r == (crate::semantics::Step { result: b.result, env: a.env, out: b.out })
            })
        }),
{
    let f = (fuel - 1) as nat;
    assert(eval_term(Term::Call { callee, arguments }, env, out, fuel) == crate::semantics::call_step(
        *callee,
        arguments@,
        env,
        out,
        f,
    ));
}

/// The closure that a function literal makes in `env`.
pub open spec fn closure_value(parameters: Vec<String>, body: Rc<Term>, env: Bindings) -> Val {
    Val::Closure { params: crate::value::names_view(parameters@), body: *body, env }
}

/// An instance of the two laws above: in
/// `let f = fn() => x; let x = n; f()` the call returns the value that `x`
/// had before the closure was made, not `n`.
pub proof fn law_closure_captures_at_definition(
    f: String,
    x: String,
    no_params: Vec<String>,
    body: Rc<Term>,
    callee: Box<Term>,
    no_args: Vec<Term>,
    n: i64,
    env: Bindings,
    out: Seq<char>,
    fuel: nat,
)
    requires
        f@ != x@,
        lookup(env, x@) is Some,
        no_params@.len() == 0,
        no_args@.len() == 0,
        *body == Term::Var(x),
        *callee == Term::Var(f),
        fuel >= 4,
    ensures
        eval_term(
            Term::Let {
                name: f,
                value: Box::new(Term::Function { parameters: no_params, body }),
                next: Box::new(
                    Term::Let {
                        name: x,
                        value: Box::new(Term::Int(n)),
                        next: Box::new(Term::Call { callee, arguments: no_args }),
                    },
                ),
            },
            env,
            out,
            fuel,
        ).result == Ok::<Val, RuntimeError>(lookup(env, x@)->Some_0),
{
    let f1 = (fuel - 1) as nat;
    let f2 = (fuel - 2) as nat;
    let f3 = (fuel - 3) as nat;
    let f4 = (fuel - 4) as nat;
    let closure = closure_value(no_params, body, env);
    assert(crate::value::names_view(no_params@) =~= Seq::<Seq<char>>::empty());
    let env1 = env.push((f@, closure));
    let env2 = env1.push((x@, Val::Int(n as int)));
    assert(env2.drop_last() == env1);
    assert(lookup(env1, f@) == Some(closure));
    assert(lookup(env2, f@) == Some(closure));
    let inner = Term::Call { callee, arguments: no_args };
    assert(eval_term(*callee, env2, out, f3).result == Ok::<Val, RuntimeError>(closure));
    assert(crate::semantics::eval_args(no_args@, env2, out, f3).result == Ok::<Seq<Val>, RuntimeError>(
        Seq::empty(),
    ));
    let call_env = crate::semantics::bind_params(env, Seq::empty(), Seq::empty());
    assert(call_env =~= env);
    assert(eval_term(Term::Var(x), call_env, out, f3).result == Ok::<Val, RuntimeError>(lookup(env, x@)->Some_0));
    assert(crate::semantics::apply_closure(
        crate::value::names_view(no_params@),
        *body,
        env,
        no_args@,
        env2,
        out,
        f3,
    ).result == Ok::<Val, RuntimeError>(lookup(env, x@)->Some_0));
    assert(crate::semantics::call_step(*callee, no_args@, env2, out, f3).result == Ok::<Val, RuntimeError>(
        lookup(env, x@)->Some_0,
    ));
    assert(eval_term(inner, env2, out, f2).result == Ok::<Val, RuntimeError>(lookup(env, x@)->Some_0));
    assert(eval_term(Term::Int(n), env1, out, f2) == crate::semantics::done(Val::Int(n as int), env1, out));
    let second = Term::Let { name: x, value: Box::new(Term::Int(n)), next: Box::new(inner) };
    assert(eval_term(second, env1, out, f1).result == Ok::<Val, RuntimeError>(lookup(env, x@)->Some_0));
    assert(eval_term(Term::Function { parameters: no_params, body }, env, out, f1) == crate::semantics::done(
        closure,
        env,
        out,
    ));
}

/// Calling something that is not a closure fails with `NotCallable`;
/// calling a closure with a different number of arguments than it has
/// parameters fails with `ArityMismatch`.
pub proof fn law_call_failures(callee: Box<Term>, arguments: Vec<Term>, env: Bindings, out: Seq<char>, fuel: nat)
    requires
        fuel >= 1,
        eval_term(*callee, env, out, (fuel - 1) as nat).result is Ok,
    ensures
        ({
            let c = eval_term(*callee, env, out, (fuel - 1) as nat).result->Ok_0;
            let r = eval_term(Term::Call { callee, arguments }, env, out, fuel).result;
            &&& !(c is Closure) ==> r == Err::<Val, RuntimeError>(RuntimeError::NotCallable)
            &&& (c is Closure && c->params.len() != arguments@.len()) ==> r == Err::<Val, RuntimeError>(
                RuntimeError::ArityMismatch,
            )
        }),
{
    let f = (fuel - 1) as nat;
    assert(eval_term(Term::Call { callee, arguments }, env, out, fuel) == crate::semantics::call_step(
        *callee,
        arguments@,
        env,
        out,
        f,
    ));
}

/// `first` and `second` fail with `TypeMismatch` on anything but a pair,
/// and on a pair return the stored component unchanged.
pub proof fn law_projections(value: Box<Term>, env: Bindings, out: Seq<char>, fuel: nat)
    requires
        fuel >= 1,
        eval_term(*value, env, out, (fuel - 1) as nat).result is Ok,
    ensures
        ({
            let p = eval_term(*value, env, out, (fuel - 1) as nat).result->Ok_0;
            let first = eval_term(Term::First { value }, env, out, fuel).result;
            let second = eval_term(Term::Second { value }, env, out, fuel).result;
            &&& !(p is Tuple) ==> first == Err::<Val, RuntimeError>(
                RuntimeError::TypeMismatch(Mismatch::First(kind_of(p))),
            )
            &&& !(p is Tuple) ==> second == Err::<Val, RuntimeError>(
                RuntimeError::TypeMismatch(Mismatch::Second(kind_of(p))),
            )
            &&& p is Tuple ==> first == Ok::<Val, RuntimeError>(*p->Tuple_0)
            &&& p is Tuple ==> second == Ok::<Val, RuntimeError>(*p->Tuple_1)
        }),
{
}

} // verus!
