//! Abstract-syntax-tree core of a Lisp-family compiler front-end.
//!
//! The crate defines the closed tagged union of AST nodes ([`ast::Expr`]),
//! the capability contract every variant satisfies and the collaborator
//! types nodes are built from ([`types`]), the code-generation walk over a
//! compilation context ([`compiler`]), and a minimal evaluation model
//! ([`eval`]).

pub mod ast;
pub mod compiler;
pub mod eval;
pub mod types;
