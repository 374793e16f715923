//! From the instrumentation's reports to trace events.
//!
//! The instrumented program reports each expression that it computes and
//! names it by a number; at a branch it names the expression that decides.
//! This module keeps what the trace needs of each expression, and knows
//! through which call site the program has come.

use vstd::prelude::*;
use crate::pipeline::{Constraint, TraceEvent};
use crate::trace::{CompareOp, Comparison, SiteId};

verus! {

/// What an expression is to the trace.
#[derive(Clone, Copy, Debug, PartialEq, Eq, Structural)]
pub enum Meaning {
    /// The input byte at an offset.
    InputByte { offset: u64 },
    /// A constant of one byte.
    Constant { value: u8 },
    /// A comparison of an input byte with a constant.
    Check(Constraint),
    /// Anything else.
    Opaque,
}

/// An expression: what it means, and whether a floating-point operation had
/// a part in it.
#[derive(Clone, Copy, Debug, PartialEq, Eq, Structural)]
pub struct Expr {
    pub meaning: Meaning,
    pub float_derived: bool,
}

/// The operator that says of `b` and `a` what `op` says of `a` and `b`.
pub open spec fn mirrored(op: CompareOp) -> CompareOp {
    match op {
        CompareOp::Equal => CompareOp::Equal,
        CompareOp::NotEqual => CompareOp::NotEqual,
        CompareOp::Less => CompareOp::Greater,
        CompareOp::LessEqual => CompareOp::GreaterEqual,
        CompareOp::Greater => CompareOp::Less,
        CompareOp::GreaterEqual => CompareOp::LessEqual,
    }
}

/// The comparison `left op right`. It is a check where one side is an input
/// byte and the other a constant, the byte taken to the left; of any other
/// two it is opaque. A floating-point operation in either side is one in the
/// comparison.
pub open spec fn comparison_of(op: CompareOp, left: Expr, right: Expr) -> Expr {
    Expr {
        meaning: match (left.meaning, right.meaning) {
            (Meaning::InputByte { offset }, Meaning::Constant { value }) => Meaning::Check(
                Constraint { offset, comparison: Comparison { op, operand: value } },
            ),
            (Meaning::Constant { value }, Meaning::InputByte { offset }) => Meaning::Check(
                Constraint { offset, comparison: Comparison { op: mirrored(op), operand: value } },
            ),
            _ => Meaning::Opaque,
        },
        float_derived: left.float_derived || right.float_derived,
    }
}

/// The event of a branch at `site` that `decider` decides: symbolic where
/// the decider is a check, concrete else.
pub open spec fn event_of(decider: Expr, site: SiteId) -> TraceEvent {
    TraceEvent {
        site,
        float_derived: decider.float_derived,
        symbolic: match decider.meaning {
            Meaning::Check(constraint) => Some(constraint),
            _ => None,
        },
    }
}

/// The expressions that the program has reported, each under the number it
/// was given: the first is 1, and 0 names none.
#[derive(Debug)]
pub struct Expressions {
    known: Vec<Expr>,
}

impl View for Expressions {
    type V = Seq<Expr>;

    closed spec fn view(&self) -> Seq<Expr> {
        self.known@
    }
}

impl Expressions {
    /// The expression that `id` names. A number that names none stands for
    /// an opaque expression.
    pub open spec fn named(&self, id: usize) -> Expr {
        if 1 <= id <= self@.len() {
            self@[id - 1]
        } else {
            Expr { meaning: Meaning::Opaque, float_derived: false }
        }
    }

    /// No expression has been reported yet.
    pub fn new() -> (expressions: Expressions)
        ensures
            expressions@ == Seq::<Expr>::empty(),
    {
        Expressions { known: Vec::new() }
    }

    /// The expression that `id` names.
    pub fn get(&self, id: usize) -> (expr: Expr)
        ensures
            expr == self.named(id),
    {
        if 1 <= id && id <= self.known.len() {
            self.known[id - 1]
        } else {
            Expr { meaning: Meaning::Opaque, float_derived: false }
        }
    }

    /// Takes note of an expression and gives it the next number.
    pub fn define(&mut self, expr: Expr) -> (id: usize)
        ensures
            final(self)@ == old(self)@.push(expr),
            id == final(self)@.len(),
            final(self).named(id) == expr,
    {
        self.known.push(expr);
        self.known.len()
    }

    /// The input byte at `offset` was read.
    pub fn input_byte(&mut self, offset: u64) -> (id: usize)
        ensures
            final(self)@ == old(self)@.push(
                Expr { meaning: Meaning::InputByte { offset }, float_derived: false },
            ),
            id == final(self)@.len(),
    {
        self.define(Expr { meaning: Meaning::InputByte { offset }, float_derived: false })
    }

    /// An integer constant was built. It is a constant to the trace where it
    /// fits one byte.
    pub fn integer(&mut self, value: u64) -> (id: usize)
        ensures
            final(self)@ == old(self)@.push(
                Expr {
                    meaning: if value < 256 {
                        Meaning::Constant { value: value as u8 }
                    } else {
                        Meaning::Opaque
                    },
                    float_derived: false,
                },
            ),
            id == final(self)@.len(),
    {
        let meaning = if value < 256 {
            Meaning::Constant { value: value as u8 }
        } else {
            Meaning::Opaque
        };
        self.define(Expr { meaning, float_derived: false })
    }

    /// An expression was extended with zeros. The result means what the
    /// operand means.
    pub fn widen(&mut self, operand: usize) -> (id: usize)
        ensures
            final(self)@ == old(self)@.push(old(self).named(operand)),
            id == final(self)@.len(),
    {
        let expr = self.get(operand);
        self.define(expr)
    }

    /// An operation that is no comparison of integers was applied. The
    /// result is opaque; it derives from a floating-point operation where
    /// the operation is one or an operand does.
    pub fn operation(&mut self, floating: bool, left: usize, right: usize) -> (id: usize)
        ensures
            final(self)@ == old(self)@.push(
                Expr {
                    meaning: Meaning::Opaque,
                    float_derived: floating || old(self).named(left).float_derived || old(
                        self,
                    ).named(right).float_derived,
                },
            ),
            id == final(self)@.len(),
    {
        let float_derived = floating || self.get(left).float_derived || self.get(
            right,
        ).float_derived;
        self.define(Expr { meaning: Meaning::Opaque, float_derived })
    }

    /// Two expressions were compared.
    pub fn compare(&mut self, op: CompareOp, left: usize, right: usize) -> (id: usize)
        ensures
            final(self)@ == old(self)@.push(
                comparison_of(op, old(self).named(left), old(self).named(right)),
            ),
            id == final(self)@.len(),
    {
        let l = self.get(left);
        let r = self.get(right);
        let meaning = match (l.meaning, r.meaning) {
            (Meaning::InputByte { offset }, Meaning::Constant { value }) => Meaning::Check(
                Constraint { offset, comparison: Comparison { op, operand: value } },
            ),
            (Meaning::Constant { value }, Meaning::InputByte { offset }) => {
                let turned = match op {
                    CompareOp::Equal => CompareOp::Equal,
                    CompareOp::NotEqual => CompareOp::NotEqual,
                    CompareOp::Less => CompareOp::Greater,
                    CompareOp::LessEqual => CompareOp::GreaterEqual,
                    CompareOp::Greater => CompareOp::Less,
                    CompareOp::GreaterEqual => CompareOp::LessEqual,
                };
                Meaning::Check(
                    Constraint { offset, comparison: Comparison { op: turned, operand: value } },
                )
            },
            _ => Meaning::Opaque,
        };
        self.define(Expr { meaning, float_derived: l.float_derived || r.float_derived })
    }

    /// The event of a branch at `site` that the expression `decider`
    /// decides.
    pub fn branch(&self, decider: usize, site: SiteId) -> (event: TraceEvent)
        ensures
            event == event_of(self.named(decider), site),
    {
        let expr = self.get(decider);
        TraceEvent {
            site,
            float_derived: expr.float_derived,
            symbolic: match expr.meaning {
                Meaning::Check(constraint) => Some(constraint),
                _ => None,
            },
        }
    }
}

/// The call site on top of a stack of them; 0 outside every call.
pub open spec fn top_of(frames: Seq<u64>) -> u64 {
    if frames.len() == 0 {
        0
    } else {
        frames.last()
    }
}

/// The call sites through which the program has come to where it is.
#[derive(Debug)]
pub struct CallStack {
    frames: Vec<u64>,
}

impl View for CallStack {
    type V = Seq<u64>;

    closed spec fn view(&self) -> Seq<u64> {
        self.frames@
    }
}

impl CallStack {
    /// The program is outside every call.
    pub fn new() -> (stack: CallStack)
        ensures
            stack@ == Seq::<u64>::empty(),
    {
        CallStack { frames: Vec::new() }
    }

    /// The program makes a call at `site`.
    pub fn call(&mut self, site: u64)
        ensures
            final(self)@ == old(self)@.push(site),
    {
        self.frames.push(site);
    }

    /// The program returns from its last call. A return outside every call
    /// changes nothing.
    pub fn ret(&mut self)
        ensures
            final(self)@ == if old(self)@.len() == 0 {
                old(self)@
            } else {
                old(self)@.drop_last()
            },
    {
        let _ = self.frames.pop();
    }

    /// The identity of a branch that the program reaches now.
    pub fn site(&self, branch: u64) -> (site: SiteId)
        ensures
            site == (SiteId { call_site: top_of(self@), branch }),
    {
        let call_site = if self.frames.len() == 0 {
            0
        } else {
            self.frames[self.frames.len() - 1]
        };
        SiteId { call_site, branch }
    }
}

/// A comparison with the sides exchanged says the same of every byte.
pub proof fn lemma_mirrored_says_the_same(op: CompareOp, byte: u8, operand: u8)
    ensures
        (Comparison { op: mirrored(op), operand }).holds(byte) == match op {
            CompareOp::Equal => operand == byte,
            CompareOp::NotEqual => operand != byte,
            CompareOp::Less => operand < byte,
            CompareOp::LessEqual => operand <= byte,
            CompareOp::Greater => operand > byte,
            CompareOp::GreaterEqual => operand >= byte,
        },
{
}

} // verus!
