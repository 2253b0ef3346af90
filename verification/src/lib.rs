//! Front end of the worm language: tokens, the syntax tree, a verified
//! recursive-descent parser, the typed intermediate representation and the
//! type context.

pub mod token;
pub mod ast;
pub mod errors;
pub mod grammar;
pub mod parser;
pub mod lists;
pub mod laws;
pub mod tir;
pub mod ty;
pub mod tyctxt;
pub mod package;
mod parse_atom;
mod parse_expr;
mod parse_stmt;
mod parse_item;
