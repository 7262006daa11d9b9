//! The capability contract every AST node satisfies, and the collaborator
//! types the AST is built from: identifiers, numeric literals, and the
//! two-slot pair container that backs `Cons`.

use vstd::prelude::*;

use crate::compiler::{gen_spec, result_view, Compiler, ExprResult};
use crate::eval::{eval_result_view, eval_spec, Env, EvalResult};

verus! {

/// The capability contract every AST node variant satisfies: it can be
/// evaluated to a runtime value, and compiled against a compilation
/// context. The context is passed by exclusive mutable reference and is
/// the only thing code generation mutates; the node itself stays
/// immutable.
pub trait Expression: View<V = crate::ast::ExprV> {
    /// Reduces this node to a runtime value under this layer's evaluation
    /// model, resolving symbols through `env`. Exactly [`eval_spec`] says
    /// what comes back.
    fn eval(&self, env: &Env) -> (r: EvalResult)
        ensures
            eval_result_view(r) == eval_spec(self@, env@),
    ;

    /// Generates code for this node, depth-first and post-order, producing
    /// a backend value handle or failing with a message. Exactly
    /// [`gen_spec`] says what is emitted and what comes back.
    fn code_gen(&self, compiler: &mut Compiler) -> (r: ExprResult)
        ensures
            (result_view(r), final(compiler)@) == gen_spec(self@, old(compiler)@),
    ;
}

/// A textual identifier. Identifier equality is equality of the name.
#[derive(Debug)]
pub struct Symbol {
    pub name: String,
}

impl View for Symbol {
    type V = Seq<char>;

    open spec fn view(&self) -> Seq<char> {
        self.name@
    }
}

impl Symbol {
    /// Wraps a name unchanged.
    pub fn new(name: String) -> (r: Symbol)
        ensures
            r.name == name,
    {
        Symbol { name }
    }
}

impl Clone for Symbol {
    fn clone(&self) -> (r: Symbol)
        ensures
            r == *self,
    {
        Symbol { name: self.name.clone() }
    }
}

/// A parsed numeric literal. Its representation is opaque to the AST:
/// nodes carry it through unchanged.
#[derive(Debug, Clone, Copy, PartialEq, Eq, Structural)]
pub struct Number {
    pub value: i64,
}

impl View for Number {
    type V = int;

    open spec fn view(&self) -> int {
        self.value as int
    }
}

impl Number {
    /// Wraps a literal's value unchanged.
    pub fn new(value: i64) -> (r: Number)
        ensures
            r.value == value,
    {
        Number { value }
    }
}

/// The pair container: one head slot and one tail slot, exclusively owned.
/// Right-nested chains of these cells represent Lisp lists.
#[derive(Debug)]
pub struct List<T> {
    pub head: Box<T>,
    pub tail: Box<T>,
}

impl<T> List<T> {
    /// Stores the two children unchanged.
    pub fn new(head: Box<T>, tail: Box<T>) -> (r: List<T>)
        ensures
            r.head == head,
            r.tail == tail,
    {
        List { head, tail }
    }
}

} // verus!
