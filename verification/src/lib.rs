//! Attributes and meta items of the Rust abstract syntax tree.
use vstd::prelude::*;

pub mod ast;
pub mod attr;
pub mod kw;
pub mod laws;
pub mod lists;
pub mod literal;
pub mod parse;
pub mod span;
pub mod sym;
pub mod symbol;
pub mod token;

verus! {
} // verus!
