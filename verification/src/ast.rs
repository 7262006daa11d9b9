//! The AST node representation: a closed tagged union over the eight node
//! variants, its mathematical view, and the constructors the reader uses to
//! build trees bottom-up.
//!
//! The depth-first walks over a tree (evaluation, code generation,
//! comparison, cloning) recurse as deep as the tree nests; the chain
//! traversal is iterative. Callers that accept arbitrarily deep input own
//! the depth policy, as they own timeouts.

use vstd::prelude::*;

use crate::compiler::{Compiler, ExprResult, Instr, Value};
use crate::eval::{Env, EvalResult, RuntimeValue};
use crate::types::{Expression, List, Number, Symbol};

verus! {

/// Mathematical shape of one AST node: what an [`Expr`] denotes, with text
/// as character sequences and numbers as unbounded integers.
pub enum ExprV {
    Sym(Seq<char>),
    Str(Seq<char>),
    Num(int),
    Comment,
    Error(Seq<char>),
    Cons(Box<ExprV>, Box<ExprV>),
    Nil,
    NoMatch,
}

/// One parsed or constructed form.
///
/// `Cons` owns exactly two children (head, tail); right-nested chains
/// terminated by `Nil` represent lists. `Nil` is the unique end-of-list
/// sentinel. `NoMatch` signals that no grammar rule matched: structural
/// absence, distinct from both `Nil` and `Error`. `Error` carries a
/// diagnostic message. `Comment` carries no semantic payload. Nodes are
/// immutable once built.
#[derive(Debug)]
pub enum Expr {
    Sym(Symbol),
    Str(String),
    Num(Number),
    Comment,
    Error(String),
    Cons(List<Expr>),
    Nil,
    NoMatch,
}

/// The elements along the right-nested chain starting at `e`: the heads
/// collected while the node is a pair. Anything that is not a pair ends
/// the chain.
pub open spec fn chain_elems(e: ExprV) -> Seq<ExprV>
    decreases e,
{
    match e {
        ExprV::Cons(h, t) => seq![*h] + chain_elems(*t),
        _ => Seq::empty(),
    }
}

/// Whether the right-nested chain starting at `e` terminates at `Nil`,
/// making it a proper list.
pub open spec fn chain_proper(e: ExprV) -> bool
    decreases e,
{
    match e {
        ExprV::Cons(_, t) => chain_proper(*t),
        ExprV::Nil => true,
        _ => false,
    }
}

/// The denotation of a node, structure and payloads both.
pub open spec fn expr_view(e: Expr) -> ExprV
    decreases e,
{
    match e {
        Expr::Sym(s) => ExprV::Sym(s@),
        Expr::Str(s) => ExprV::Str(s@),
        Expr::Num(n) => ExprV::Num(n@),
        Expr::Comment => ExprV::Comment,
        Expr::Error(m) => ExprV::Error(m@),
        Expr::Cons(l) => ExprV::Cons(Box::new(expr_view(*l.head)), Box::new(expr_view(*l.tail))),
        Expr::Nil => ExprV::Nil,
        Expr::NoMatch => ExprV::NoMatch,
    }
}

impl View for Expr {
    type V = ExprV;

    open spec fn view(&self) -> ExprV {
        expr_view(*self)
    }
}

impl Expr {
    /// Builds one pair cell around the two children, unchanged. The caller
    /// is responsible for terminating chains with `Nil`.
    pub fn make_list(first: Expr, rest: Expr) -> (r: Expr)
        ensures
            r == (Expr::Cons(List { head: Box::new(first), tail: Box::new(rest) })),
            r@ == ExprV::Cons(Box::new(first@), Box::new(rest@)),
    {
        Expr::Cons(List::<Expr>::new(Box::new(first), Box::new(rest)))
    }

    /// Wraps a textual identifier unchanged.
    pub fn make_symbol(v: String) -> (r: Expr)
        ensures
            r == (Expr::Sym(Symbol { name: v })),
            r@ == ExprV::Sym(v@),
    {
        Expr::Sym(Symbol::new(v))
    }

    /// Wraps a literal string unchanged.
    pub fn make_string(v: String) -> (r: Expr)
        ensures
            r == Expr::Str(v),
            r@ == ExprV::Str(v@),
    {
        Expr::Str(v)
    }

    /// Wraps a parsed numeric literal unchanged.
    pub fn make_number(n: Number) -> (r: Expr)
        ensures
            r == Expr::Num(n),
            r@ == ExprV::Num(n@),
    {
        Expr::Num(n)
    }

    /// Traverses the right-nested chain starting at this node: the heads
    /// in order, as deep copies, and whether the chain terminated at `Nil`
    /// (a proper list). The walk is iterative, so its depth does not grow
    /// with the chain's nesting.
    pub fn list_elements(&self) -> (r: (Vec<Expr>, bool))
        ensures
            r.0@.map_values(|x: Expr| x@) == chain_elems(self@),
            r.1 == chain_proper(self@),
    {
        let mut out: Vec<Expr> = Vec::new();
        let mut cur: &Expr = self;
        proof {
            assert(out@.map_values(|x: Expr| x@) =~= Seq::<ExprV>::empty());
        }
        loop
            invariant
                chain_elems(self@) == out@.map_values(|x: Expr| x@) + chain_elems(cur@),
                chain_proper(self@) == chain_proper(cur@),
            decreases cur,
        {
            match cur {
                Expr::Cons(l) => {
                    let ghost prev = out@;
                    let ghost hv = expr_view(*l.head);
                    out.push((*l.head).clone());
                    proof {
                        assert(out@.map_values(|x: Expr| x@) =~= prev.map_values(
                            |x: Expr| x@,
                        ).push(hv));
                        assert(chain_elems(cur@) == seq![hv] + chain_elems(expr_view(*l.tail)));
                        assert(prev.map_values(|x: Expr| x@).push(hv) + chain_elems(
                            expr_view(*l.tail),
                        ) =~= prev.map_values(|x: Expr| x@) + chain_elems(cur@));
                    }
                    cur = &*l.tail;
                },
                Expr::Nil => {
                    proof {
                        assert(out@.map_values(|x: Expr| x@) + chain_elems(cur@)
                            =~= out@.map_values(|x: Expr| x@));
                    }
                    return (out, true);
                },
                _ => {
                    proof {
                        assert(chain_elems(cur@) =~= Seq::<ExprV>::empty());
                        assert(out@.map_values(|x: Expr| x@) + chain_elems(cur@)
                            =~= out@.map_values(|x: Expr| x@));
                    }
                    return (out, false);
                },
            }
        }
    }

    /// Deep structural comparison: two trees are equal exactly when they
    /// have the same variant sequence and the same payloads, never by
    /// identity.
    pub fn deep_eq(&self, other: &Expr) -> (r: bool)
        ensures
            r == (self@ == other@),
        decreases self,
    {
        match self {
            Expr::Sym(a) => match other {
                Expr::Sym(b) => a.name == b.name,
                _ => false,
            },
            Expr::Str(a) => match other {
                Expr::Str(b) => *a == *b,
                _ => false,
            },
            Expr::Num(a) => match other {
                Expr::Num(b) => a.value == b.value,
                _ => false,
            },
            Expr::Comment => match other {
                Expr::Comment => true,
                _ => false,
            },
            Expr::Error(a) => match other {
                Expr::Error(b) => *a == *b,
                _ => false,
            },
            Expr::Cons(a) => match other {
                Expr::Cons(b) => a.head.deep_eq(&b.head) && a.tail.deep_eq(&b.tail),
                _ => false,
            },
            Expr::Nil => match other {
                Expr::Nil => true,
                _ => false,
            },
            Expr::NoMatch => match other {
                Expr::NoMatch => true,
                _ => false,
            },
        }
    }
}

/// Law: the `NoMatch` sentinel never equals `Nil`, and never equals an
/// error node, whatever message that error carries. Structural absence is
/// neither an empty result nor a diagnosed failure.
pub proof fn lemma_no_match_distinct(m: String)
    ensures
        Expr::NoMatch@ != Expr::Nil@,
        Expr::NoMatch@ != Expr::Error(m)@,
{
}

impl Expression for Expr {
    fn eval(&self, env: &Env) -> (r: EvalResult)
        decreases self,
    {
        match self {
            Expr::Sym(s) => match env.resolve(&s.name) {
                Some(v) => Ok(v),
                None => Err("unbound symbol".to_owned()),
            },
            Expr::Str(s) => Ok(RuntimeValue::Str(s.clone())),
            Expr::Num(n) => Ok(RuntimeValue::Num(*n)),
            Expr::Comment => Ok(RuntimeValue::Void),
            Expr::Error(m) => Err(m.clone()),
            Expr::Cons(l) => match l.head.eval(env) {
                Ok(_) => Err("operator is not a callable value".to_owned()),
                Err(m) => Err(m),
            },
            Expr::Nil => Ok(RuntimeValue::EmptyList),
            Expr::NoMatch => Ok(RuntimeValue::Void),
        }
    }

    fn code_gen(&self, compiler: &mut Compiler) -> (r: ExprResult)
        decreases self,
    {
        match self {
            Expr::Sym(s) => Ok(compiler.emit(Instr::LoadSym(s.name.clone()))),
            Expr::Str(s) => Ok(compiler.emit(Instr::ConstStr(s.clone()))),
            Expr::Num(n) => Ok(compiler.emit(Instr::ConstNum(n.value))),
            Expr::Comment => Ok(Value::Void),
            Expr::Error(m) => Err(m.clone()),
            Expr::Cons(l) => {
                let hv = match l.head.code_gen(compiler) {
                    Ok(v) => v,
                    Err(m) => {
                        return Err(m);
                    },
                };
                let tv = match l.tail.code_gen(compiler) {
                    Ok(v) => v,
                    Err(m) => {
                        return Err(m);
                    },
                };
                Ok(compiler.emit(Instr::Pair(hv, tv)))
            },
            Expr::Nil => Ok(compiler.emit(Instr::EmptyList)),
            Expr::NoMatch => Err("code generation reached a NoMatch node".to_owned()),
        }
    }
}

impl PartialEq for Expr {
    fn eq(&self, other: &Expr) -> (r: bool) {
        self.deep_eq(other)
    }
}

impl vstd::std_specs::cmp::PartialEqSpecImpl for Expr {
    open spec fn obeys_eq_spec() -> bool {
        true
    }

    open spec fn eq_spec(&self, other: &Expr) -> bool {
        self@ == other@
    }
}

impl Eq for Expr {

}

impl Clone for Expr {
    /// Deep copy: the clone is structurally equal to the original.
    fn clone(&self) -> (r: Expr)
        ensures
            r == *self,
        decreases self,
    {
        match self {
            Expr::Sym(s) => Expr::Sym(s.clone()),
            Expr::Str(s) => Expr::Str(s.clone()),
            Expr::Num(n) => Expr::Num(*n),
            Expr::Comment => Expr::Comment,
            Expr::Error(m) => Expr::Error(m.clone()),
            Expr::Cons(l) => {
                Expr::Cons(List {
                    head: Box::new((*l.head).clone()),
                    tail: Box::new((*l.tail).clone()),
                })
            },
            Expr::Nil => Expr::Nil,
            Expr::NoMatch => Expr::NoMatch,
        }
    }
}

} // verus!

