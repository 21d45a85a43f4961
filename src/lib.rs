//! A tree-walking evaluator for a small expression language with integers,
//! strings, booleans, pairs and first-class closures.

pub mod ast;
pub mod env;
pub mod interpreter;
pub mod laws;
pub mod render;
pub mod semantics;
pub mod value;
