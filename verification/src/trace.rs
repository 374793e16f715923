//! What a symbolic trace records: at which branch, of which input byte, what
//! was compared.

use vstd::prelude::*;

verus! {

/// The identity of a branch: the call site it was reached through and the
/// branch itself.
#[derive(Clone, Copy, Debug, PartialEq, Eq, Structural)]
pub struct SiteId {
    pub call_site: u64,
    pub branch: u64,
}

/// An unsigned comparison of an input byte with a constant.
#[derive(Clone, Copy, Debug, PartialEq, Eq, Structural)]
pub enum CompareOp {
    Equal,
    NotEqual,
    Less,
    LessEqual,
    Greater,
    GreaterEqual,
}

/// A branch condition on one input byte: the byte, `op`, `operand`.
#[derive(Clone, Copy, Debug, PartialEq, Eq, Structural)]
pub struct Comparison {
    pub op: CompareOp,
    pub operand: u8,
}

impl Comparison {
    /// Whether the condition is true of `byte`.
    pub open spec fn holds(self, byte: u8) -> bool {
        match self.op {
            CompareOp::Equal => byte == self.operand,
            CompareOp::NotEqual => byte != self.operand,
            CompareOp::Less => byte < self.operand,
            CompareOp::LessEqual => byte <= self.operand,
            CompareOp::Greater => byte > self.operand,
            CompareOp::GreaterEqual => byte >= self.operand,
        }
    }

    /// Evaluates the condition on `byte`.
    pub fn eval(&self, byte: u8) -> (outcome: bool)
        ensures
            outcome == self.holds(byte),
    {
        match self.op {
            CompareOp::Equal => byte == self.operand,
            CompareOp::NotEqual => byte != self.operand,
            CompareOp::Less => byte < self.operand,
            CompareOp::LessEqual => byte <= self.operand,
            CompareOp::Greater => byte > self.operand,
            CompareOp::GreaterEqual => byte >= self.operand,
        }
    }
}

/// One recorded event: the branch, the offset of the input byte that decided
/// it, and the comparison that was made of that byte.
#[derive(Clone, Copy, Debug, PartialEq, Eq, Structural)]
pub struct TraceMessage {
    pub site: SiteId,
    pub offset: u64,
    pub comparison: Comparison,
}

} // verus!
