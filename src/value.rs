//! Runtime values, their mathematical model, and environments.
use crate::ast::{BinaryOp, Term};
use std::rc::Rc;
use vstd::prelude::*;

verus! {

broadcast use vstd::std_specs::vec::axiom_vec_index_decreases, vstd::std_specs::vec::axiom_vec_decreases_to_view;

/// The bindings visible at some point, oldest first; a later binding of a
/// name shadows an earlier one.
pub type Bindings = Seq<(Seq<char>, Val)>;

/// The mathematical model of a runtime value.
pub enum Val {
    Int(int),
    Str(Seq<char>),
    Bool(bool),
    Tuple(Box<Val>, Box<Val>),
    Closure { params: Seq<Seq<char>>, body: Term, env: Bindings },
}

/// A runtime value.
#[derive(Debug)]
pub enum Value {
    Int(i64),
    Str(String),
    Bool(bool),
    Tuple(Box<Value>, Box<Value>),
    Closure(AnonymousFunction),
}

/// A closure: its parameter names, its body, and the bindings that were
/// visible where it was created.
#[derive(Debug)]
pub struct AnonymousFunction {
    pub parameters: Vec<String>,
    pub body: Rc<Term>,
    pub env: Env,
}

/// An environment: a list of bindings, oldest first, and for each open
/// scope the number of bindings that were made before it was entered.
#[derive(Debug)]
pub struct Env {
    pub entries: Vec<(String, Value)>,
    pub scopes: Vec<usize>,
}

pub open spec fn names_view(names: Seq<String>) -> Seq<Seq<char>> {
    names.map_values(|s: String| s@)
}

pub open spec fn value_view(v: Value) -> Val
    decreases v,
{
    match v {
        Value::Int(n) => Val::Int(n as int),
        Value::Str(s) => Val::Str(s@),
        Value::Bool(b) => Val::Bool(b),
        Value::Tuple(a, b) => Val::Tuple(Box::new(value_view(*a)), Box::new(value_view(*b))),
        Value::Closure(f) => Val::Closure {
            params: names_view(f.parameters@),
            body: *f.body,
            env: entries_view(f.env.entries@),
        },
    }
}

pub open spec fn entries_view(s: Seq<(String, Value)>) -> Bindings
    decreases s,
{
    if s.len() == 0 {
        Seq::empty()
    } else {
        entries_view(s.drop_last()).push((s.last().0@, value_view(s.last().1)))
    }
}

impl View for Value {
    type V = Val;

    open spec fn view(&self) -> Val {
        value_view(*self)
    }
}

impl View for Env {
    type V = Bindings;

    open spec fn view(&self) -> Bindings {
        entries_view(self.entries@)
    }
}

/// The variant of a runtime value.
#[derive(Clone, Copy, Debug, PartialEq, Eq, Structural)]
pub enum Kind {
    Int,
    Str,
    Bool,
    Tuple,
    Closure,
}

pub open spec fn kind_of(v: Val) -> Kind {
    match v {
        Val::Int(_) => Kind::Int,
        Val::Str(_) => Kind::Str,
        Val::Bool(_) => Kind::Bool,
        Val::Tuple(_, _) => Kind::Tuple,
        Val::Closure { .. } => Kind::Closure,
    }
}

/// Where operands of the wrong kinds were met, and which kinds they were.
#[derive(Clone, Copy, Debug, PartialEq, Eq, Structural)]
pub enum Mismatch {
    /// A binary operator and the kinds of its left and right operands.
    Binary(BinaryOp, Kind, Kind),
    /// A conditional whose condition is not a boolean.
    Condition(Kind),
    /// `first` of something that is not a pair.
    First(Kind),
    /// `second` of something that is not a pair.
    Second(Kind),
}

/// The failures that abort an evaluation.
#[derive(Clone, Copy, Debug, PartialEq, Eq, Structural)]
pub enum RuntimeError {
    /// A node that the parser could not make sense of was reached.
    MalformedInput,
    /// A variable is bound in no visible scope.
    UnboundVariable,
    /// The callee of a call is not a closure.
    NotCallable,
    /// A closure was called with a wrong number of arguments.
    ArityMismatch,
    /// An operator, a conditional or a projection got operands of the wrong kinds.
    TypeMismatch(Mismatch),
    /// An integer division or remainder by zero.
    DivisionByZero,
    /// An integer result does not fit in 64 bits.
    Overflow,
    /// The evaluation nested deeper than its depth limit.
    DepthExceeded,
}

/// Relies on `Rc::clone`: the new pointer shares the allocation, so it
/// points to the same term.
#[verifier::external_body]
pub(crate) fn share_term(t: &Rc<Term>) -> (r: Rc<Term>)
    ensures
        *r == **t,
{
    Rc::clone(t)
}

/// Copies a list of names.
pub(crate) fn copy_names(names: &Vec<String>) -> (r: Vec<String>)
    ensures
        r@ == names@,
{
    let mut r: Vec<String> = Vec::new();
    let mut i: usize = 0;
    while i < names.len()
        invariant
            i <= names.len(),
            r@ == names@.take(i as int),
        decreases names.len() - i,
    {
        r.push(names[i].clone());
        proof {
            assert(names@.take(i + 1) =~= names@.take(i as int).push(names@[i as int]));
        }
        i = i + 1;
    }
    proof {
        assert(names@.take(names.len() as int) =~= names@);
    }
    r
}

impl AnonymousFunction {
    pub fn new(parameters: Vec<String>, body: Rc<Term>, env: Env) -> (r: AnonymousFunction)
        ensures
            r.parameters == parameters,
            r.body == body,
            r.env == env,
    {
        AnonymousFunction { parameters, body, env }
    }
}

impl Value {
    /// The variant of the value.
    pub fn kind(&self) -> (k: Kind)
        ensures
            k == kind_of(self@),
    {
        match self {
            Value::Int(_) => Kind::Int,
            Value::Str(_) => Kind::Str,
            Value::Bool(_) => Kind::Bool,
            Value::Tuple(_, _) => Kind::Tuple,
            Value::Closure(_) => Kind::Closure,
        }
    }

    /// A copy of the value that shares nothing mutable with it.
    pub fn duplicate(&self) -> (r: Value)
        ensures
            r@ == self@,
        decreases self,
    {
        match self {
            Value::Int(n) => Value::Int(*n),
            Value::Str(s) => Value::Str(s.clone()),
            Value::Bool(b) => Value::Bool(*b),
            Value::Tuple(a, b) => {
                let a2 = a.duplicate();
                let b2 = b.duplicate();
                Value::Tuple(Box::new(a2), Box::new(b2))
            },
            Value::Closure(f) => {
                let env = f.env.snapshot();
                Value::Closure(
                    AnonymousFunction {
                        parameters: copy_names(&f.parameters),
                        body: share_term(&f.body),
                        env,
                    },
                )
            },
        }
    }
}

impl Env {
    /// An independent copy of all the bindings, as a closure captures them;
    /// the copy has no open scope.
    pub fn snapshot(&self) -> (r: Env)
        ensures
            r@ == self@,
            r.scopes@ == Seq::<usize>::empty(),
        decreases self,
    {
        let mut entries: Vec<(String, Value)> = Vec::new();
        let mut i: usize = 0;
        while i < self.entries.len()
            invariant
                i <= self.entries.len(),
                entries_view(entries@) == entries_view(self.entries@.take(i as int)),
            decreases self.entries.len() - i,
        {
            assert(decreases_to!(self => self.entries@[i as int].1));
            let v = self.entries[i].1.duplicate();
            let name = self.entries[i].0.clone();
            proof {
                let t = self.entries@.take(i + 1);
                assert(t.drop_last() =~= self.entries@.take(i as int));
            }
            let ghost prev = entries@;
            entries.push((name, v));
            proof {
                assert(entries@.drop_last() =~= prev);
            }
            i = i + 1;
        }
        proof {
            assert(self.entries@.take(self.entries.len() as int) =~= self.entries@);
        }
        Env { entries, scopes: Vec::new() }
    }
}

} // verus!
