//! Syntactic front end of the Burn scripting language: the syntax tree and
//! its model, the grammar as spec functions over token sequences (statements,
//! blocks, precedence climbing), a lookahead buffer with contextual newline
//! handling, integer literal decoding and assignment-target conversion.
use vstd::prelude::*;

pub mod buffer;
pub mod grammar;
pub mod literal;
pub mod lvalue;
pub mod node;
pub mod token;
