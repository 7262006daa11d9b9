//! The evaluation model of this layer: runtime values, the environment
//! symbols resolve through, and the mathematical account of what
//! evaluating a node yields.
//!
//! The layer owns no application machinery: no runtime value here is
//! callable. Literals and the empty list self-evaluate, symbols resolve
//! through the environment, comments and unmatched forms evaluate to the
//! void value, error nodes propagate as failures, and an application
//! whose operator evaluates fails as not callable. Higher layers own
//! callable values and special forms.

use vstd::prelude::*;

use crate::ast::ExprV;
use crate::types::Number;

verus! {

/// A runtime value of this layer's evaluation model.
#[derive(Debug, PartialEq, Eq)]
pub enum RuntimeValue {
    Void,
    Str(String),
    Num(Number),
    EmptyList,
}

/// Mathematical shape of a runtime value.
pub enum RuntimeValueV {
    Void,
    Str(Seq<char>),
    Num(int),
    EmptyList,
}

impl View for RuntimeValue {
    type V = RuntimeValueV;

    open spec fn view(&self) -> RuntimeValueV {
        match self {
            RuntimeValue::Void => RuntimeValueV::Void,
            RuntimeValue::Str(s) => RuntimeValueV::Str(s@),
            RuntimeValue::Num(n) => RuntimeValueV::Num(n@),
            RuntimeValue::EmptyList => RuntimeValueV::EmptyList,
        }
    }
}

impl Clone for RuntimeValue {
    /// The clone carries the same value.
    fn clone(&self) -> (r: RuntimeValue)
        ensures
            r == *self,
    {
        match self {
            RuntimeValue::Void => RuntimeValue::Void,
            RuntimeValue::Str(s) => RuntimeValue::Str(s.clone()),
            RuntimeValue::Num(n) => RuntimeValue::Num(*n),
            RuntimeValue::EmptyList => RuntimeValue::EmptyList,
        }
    }
}

/// The environment symbols resolve through: bindings from names to
/// runtime values, oldest first. The newest binding of a name shadows
/// older ones.
#[derive(Debug)]
pub struct Env {
    pub bindings: Vec<(String, RuntimeValue)>,
}

impl View for Env {
    type V = Seq<(Seq<char>, RuntimeValueV)>;

    open spec fn view(&self) -> Seq<(Seq<char>, RuntimeValueV)> {
        self.bindings@.map_values(|b: (String, RuntimeValue)| (b.0@, b.1@))
    }
}

/// The value the newest binding of `name` carries, if there is one.
pub open spec fn lookup(
    env: Seq<(Seq<char>, RuntimeValueV)>,
    name: Seq<char>,
) -> Option<RuntimeValueV>
    decreases env.len(),
{
    if env.len() == 0 {
        None
    } else if env.last().0 == name {
        Some(env.last().1)
    } else {
        lookup(env.drop_last(), name)
    }
}

impl Env {
    /// An empty environment: nothing is bound.
    pub fn new() -> (r: Env)
        ensures
            r@ == Seq::<(Seq<char>, RuntimeValueV)>::empty(),
    {
        let r = Env { bindings: Vec::new() };
        proof {
            assert(r@ =~= Seq::<(Seq<char>, RuntimeValueV)>::empty());
        }
        r
    }

    /// Adds a binding; it shadows any older binding of the same name.
    pub fn bind(&mut self, name: String, value: RuntimeValue)
        ensures
            final(self)@ == old(self)@.push((name@, value@)),
    {
        let ghost n = name@;
        let ghost v = value@;
        self.bindings.push((name, value));
        proof {
            assert(self@ =~= old(self)@.push((n, v)));
        }
    }

    /// Resolves a name to the value of its newest binding.
    pub fn resolve(&self, name: &String) -> (r: Option<RuntimeValue>)
        ensures
            match r {
                Some(v) => lookup(self@, name@) == Some(v@),
                None => lookup(self@, name@) is None,
            },
    {
        let mut i = self.bindings.len();
        proof {
            assert(self@.take(i as int) =~= self@);
        }
        while i > 0
            invariant
                i <= self.bindings.len(),
                lookup(self@, name@) == lookup(self@.take(i as int), name@),
            decreases i,
        {
            i = i - 1;
            proof {
                assert(self@.take(i + 1).drop_last() =~= self@.take(i as int));
                assert(self@.take(i + 1).last() == self@[i as int]);
            }
            let b = &self.bindings[i];
            if b.0 == *name {
                return Some(b.1.clone());
            }
        }
        None
    }
}

/// Evaluation's success/failure convention: a runtime value, or a textual
/// error message.
pub type EvalResult = Result<RuntimeValue, String>;

/// The denotation of an evaluation outcome, by views.
pub open spec fn eval_result_view(r: EvalResult) -> Result<RuntimeValueV, Seq<char>> {
    match r {
        Ok(v) => Ok(v@),
        Err(m) => Err(m@),
    }
}

/// The message evaluation fails with when an identifier has no binding.
pub open spec fn unbound_symbol_message() -> Seq<char> {
    "unbound symbol"@
}

/// The message evaluation fails with when an application's operator
/// evaluates to a value this layer cannot apply.
pub open spec fn not_callable_message() -> Seq<char> {
    "operator is not a callable value"@
}

/// What evaluating the node shape `e` under environment `env` yields.
///
/// A pair dispatches as an application: its operator (the head) is
/// evaluated first, the first failure wins, and since no value of this
/// layer is callable a successfully evaluated operator still fails as
/// not callable.
pub open spec fn eval_spec(
    e: ExprV,
    env: Seq<(Seq<char>, RuntimeValueV)>,
) -> Result<RuntimeValueV, Seq<char>>
    decreases e,
{
    match e {
        ExprV::Sym(s) => match lookup(env, s) {
            Some(v) => Ok(v),
            None => Err(unbound_symbol_message()),
        },
        ExprV::Str(s) => Ok(RuntimeValueV::Str(s)),
        ExprV::Num(n) => Ok(RuntimeValueV::Num(n)),
        ExprV::Comment => Ok(RuntimeValueV::Void),
        ExprV::Error(m) => Err(m),
        ExprV::Cons(h, _) => match eval_spec(*h, env) {
            Ok(_) => Err(not_callable_message()),
            Err(m) => Err(m),
        },
        ExprV::Nil => Ok(RuntimeValueV::EmptyList),
        ExprV::NoMatch => Ok(RuntimeValueV::Void),
    }
}

} // verus!
