//! The compilation context code generation runs against, and the
//! mathematical account of what generating code for a node does to it.
//!
//! The context owns the stream of emitted instructions; code generation
//! appends to that stream and hands back opaque value handles into it,
//! never touching the AST itself.

use vstd::prelude::*;

use crate::ast::ExprV;

verus! {

/// A backend value handle: an opaque reference to a generated-code
/// artifact. `Emitted(i)` names the result of the `i`-th emitted
/// instruction; `Void` is the handle a semantically empty node (a comment)
/// yields without emitting anything.
#[derive(Debug, Clone, Copy, PartialEq, Eq, Structural)]
pub enum Value {
    Void,
    Emitted(usize),
}

/// Mathematical shape of a value handle, with an unbounded index.
pub enum ValueV {
    Void,
    Emitted(int),
}

impl View for Value {
    type V = ValueV;

    open spec fn view(&self) -> ValueV {
        match self {
            Value::Void => ValueV::Void,
            Value::Emitted(i) => ValueV::Emitted(*i as int),
        }
    }
}

/// One emitted backend instruction: resolve a symbol, materialize a
/// literal, build the canonical empty list, or combine two previously
/// generated values into a pair.
#[derive(Debug, PartialEq, Eq)]
pub enum Instr {
    LoadSym(String),
    ConstStr(String),
    ConstNum(i64),
    EmptyList,
    Pair(Value, Value),
}

/// Mathematical shape of one emitted instruction.
pub enum InstrV {
    LoadSym(Seq<char>),
    ConstStr(Seq<char>),
    ConstNum(int),
    EmptyList,
    Pair(ValueV, ValueV),
}

impl View for Instr {
    type V = InstrV;

    open spec fn view(&self) -> InstrV {
        match self {
            Instr::LoadSym(s) => InstrV::LoadSym(s@),
            Instr::ConstStr(s) => InstrV::ConstStr(s@),
            Instr::ConstNum(n) => InstrV::ConstNum(*n as int),
            Instr::EmptyList => InstrV::EmptyList,
            Instr::Pair(h, t) => InstrV::Pair(h@, t@),
        }
    }
}

/// The mutable, single-owner compilation context threaded through code
/// generation. This layer models exactly what its contracts speak of: the
/// stream of instructions emitted so far.
#[derive(Debug)]
pub struct Compiler {
    pub instrs: Vec<Instr>,
}

impl View for Compiler {
    type V = Seq<InstrV>;

    open spec fn view(&self) -> Seq<InstrV> {
        self.instrs@.map_values(|i: Instr| i@)
    }
}

impl Compiler {
    /// A fresh context with nothing emitted yet.
    pub fn new() -> (r: Compiler)
        ensures
            r@ == Seq::<InstrV>::empty(),
    {
        let c = Compiler { instrs: Vec::new() };
        proof {
            assert(c@ =~= Seq::<InstrV>::empty());
        }
        c
    }

    /// Appends one instruction and hands back the handle naming its result.
    pub fn emit(&mut self, i: Instr) -> (v: Value)
        ensures
            final(self)@ == old(self)@.push(i@),
            v@ == ValueV::Emitted(old(self)@.len() as int),
    {
        let idx = self.instrs.len();
        self.instrs.push(i);
        proof {
            assert(self@ =~= old(self)@.push(self.instrs@.last()@));
        }
        Value::Emitted(idx)
    }

    /// How many instructions have been emitted so far.
    pub fn emitted_count(&self) -> (n: usize)
        ensures
            n == self@.len(),
    {
        self.instrs.len()
    }
}

/// Code generation's success/failure convention: a backend value handle,
/// or a textual error message. No partial success.
pub type ExprResult = Result<Value, String>;

/// The denotation of an outcome: handle or message, by their views.
pub open spec fn result_view(r: ExprResult) -> Result<ValueV, Seq<char>> {
    match r {
        Ok(v) => Ok(v@),
        Err(m) => Err(m@),
    }
}

/// The message code generation fails with when a `NoMatch` node reaches
/// it: such a node signals an upstream reader defect and must fail loudly.
pub open spec fn no_match_message() -> Seq<char> {
    "code generation reached a NoMatch node"@
}

/// What generating code for the node shape `e` does to an instruction
/// stream `prog`: the outcome, and the stream afterwards.
///
/// The walk is depth-first and post-order: a pair generates its head, then
/// its tail, then one `Pair` instruction combining the two handles. The
/// first failure wins and stops the walk. A comment leaves the stream
/// untouched and yields the void handle; an error node fails with its
/// stored message before emitting anything.
pub open spec fn gen_spec(e: ExprV, prog: Seq<InstrV>) -> (Result<
    ValueV,
    Seq<char>,
>, Seq<InstrV>)
    decreases e,
{
    match e {
        ExprV::Sym(s) => (
            Ok(ValueV::Emitted(prog.len() as int)),
            prog.push(InstrV::LoadSym(s)),
        ),
        ExprV::Str(s) => (
            Ok(ValueV::Emitted(prog.len() as int)),
            prog.push(InstrV::ConstStr(s)),
        ),
        ExprV::Num(n) => (
            Ok(ValueV::Emitted(prog.len() as int)),
            prog.push(InstrV::ConstNum(n)),
        ),
        ExprV::Comment => (Ok(ValueV::Void), prog),
        ExprV::Error(m) => (Err(m), prog),
        ExprV::Cons(h, t) => {
            let (hr, hprog) = gen_spec(*h, prog);
            match hr {
                Ok(hv) => {
                    let (tr, tprog) = gen_spec(*t, hprog);
                    match tr {
                        Ok(tv) => (
                            Ok(ValueV::Emitted(tprog.len() as int)),
                            tprog.push(InstrV::Pair(hv, tv)),
                        ),
                        Err(m) => (Err(m), tprog),
                    }
                },
                Err(m) => (Err(m), hprog),
            }
        },
        ExprV::Nil => (
            Ok(ValueV::Emitted(prog.len() as int)),
            prog.push(InstrV::EmptyList),
        ),
        ExprV::NoMatch => (Err(no_match_message()), prog),
    }
}

/// Law: generating code for a comment leaves the compilation context
/// untouched — the emitted-instruction stream, and with it its count, is
/// exactly what it was — and yields the void handle.
pub proof fn lemma_comment_generates_nothing(prog: Seq<InstrV>)
    ensures
        gen_spec(ExprV::Comment, prog) == (Ok::<ValueV, Seq<char>>(ValueV::Void), prog),
{
}

/// Law: generating code for an error node fails with exactly the stored
/// message, and emits nothing for the node or anything below it.
pub proof fn lemma_error_fails_with_message(m: Seq<char>, prog: Seq<InstrV>)
    ensures
        gen_spec(ExprV::Error(m), prog) == (Err::<ValueV, Seq<char>>(m), prog),
{
}

/// Law: an error head short-circuits the whole pair. The outcome is the
/// error's own message, and no code is generated for the sibling tail,
/// whatever it is: the stream stays exactly as it was.
pub proof fn lemma_error_stops_siblings(m: Seq<char>, tail: ExprV, prog: Seq<InstrV>)
    ensures
        gen_spec(ExprV::Cons(Box::new(ExprV::Error(m)), Box::new(tail)), prog) == (
            Err::<ValueV, Seq<char>>(m),
            prog,
        ),
{
    assert(gen_spec(ExprV::Error(m), prog) == (Err::<ValueV, Seq<char>>(m), prog));
}

} // verus!
