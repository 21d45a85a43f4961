//! The syntax tree that the evaluator walks.
use std::rc::Rc;
use vstd::prelude::*;

verus! {

/// The binary operators of the language.
#[derive(Clone, Copy, Debug, PartialEq, Eq, Structural)]
pub enum BinaryOp {
    Add,
    Sub,
    Mul,
    Div,
    Rem,
    Eq,
    Neq,
    Lt,
    Gt,
    Lte,
    Gte,
    And,
    Or,
}

/// A node of the syntax tree.
///
/// A function body is shared through an `Rc`, so that a closure can hold
/// it without copying the subtree.
#[derive(Debug)]
pub enum Term {
    /// A node that the parser could not make sense of.
    Error(String),
    Int(i64),
    Str(String),
    Bool(bool),
    Var(String),
    Binary { lhs: Box<Term>, op: BinaryOp, rhs: Box<Term> },
    Let { name: String, value: Box<Term>, next: Box<Term> },
    Function { parameters: Vec<String>, body: Rc<Term> },
    Call { callee: Box<Term>, arguments: Vec<Term> },
    If { condition: Box<Term>, then: Box<Term>, otherwise: Box<Term> },
    Tuple { first: Box<Term>, second: Box<Term> },
    First { value: Box<Term> },
    Second { value: Box<Term> },
    Print { value: Box<Term> },
}

} // verus!
