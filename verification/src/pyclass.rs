//! The six rich-comparison operations and their integer codes.
use vstd::prelude::*;

verus! {

/// A rich-comparison operation, as passed to `__richcmp__`.
#[derive(Debug, Clone, Copy, PartialEq, Eq, Structural)]
pub enum CompareOp {
    Lt,
    Le,
    Eq,
    Ne,
    Gt,
    Ge,
}

/// The integer code of an operation: `Lt` is 0, `Le` 1, `Eq` 2, `Ne` 3, `Gt` 4, `Ge` 5.
pub open spec fn op_code(op: CompareOp) -> int {
    match op {
        CompareOp::Lt => 0,
        CompareOp::Le => 1,
        CompareOp::Eq => 2,
        CompareOp::Ne => 3,
        CompareOp::Gt => 4,
        CompareOp::Ge => 5,
    }
}

/// The operation with the given code, if the code is one of the six.
pub open spec fn op_of_code(code: int) -> Option<CompareOp> {
    if code == 0 {
        Some(CompareOp::Lt)
    } else if code == 1 {
        Some(CompareOp::Le)
    } else if code == 2 {
        Some(CompareOp::Eq)
    } else if code == 3 {
        Some(CompareOp::Ne)
    } else if code == 4 {
        Some(CompareOp::Gt)
    } else if code == 5 {
        Some(CompareOp::Ge)
    } else {
        None
    }
}

impl CompareOp {
    /// Reads an operation from its integer code; `None` for any code outside `0..=5`,
    /// which extraction reports as "invalid comparison operation".
    pub fn from_code(code: i32) -> (r: Option<CompareOp>)
        ensures
            r == op_of_code(code as int),
            r is Some <==> 0 <= code <= 5,
    {
        match code {
            0 => Some(CompareOp::Lt),
            1 => Some(CompareOp::Le),
            2 => Some(CompareOp::Eq),
            3 => Some(CompareOp::Ne),
            4 => Some(CompareOp::Gt),
            5 => Some(CompareOp::Ge),
            _ => None,
        }
    }

    /// The integer code of this operation.
    pub fn code(&self) -> (r: i32)
        ensures
            r as int == op_code(*self),
    {
        match self {
            CompareOp::Lt => 0,
            CompareOp::Le => 1,
            CompareOp::Eq => 2,
            CompareOp::Ne => 3,
            CompareOp::Gt => 4,
            CompareOp::Ge => 5,
        }
    }
}

/// Reading back the code of an operation gives the operation again, and a code that
/// reads as an operation is that operation's code: the six codes and the six
/// operations are in one-to-one correspondence.
pub proof fn lemma_op_code_round_trip(op: CompareOp, code: int)
    ensures
        op_of_code(op_code(op)) == Some(op),
        op_of_code(code) == Some(op) ==> op_code(op) == code,
        0 <= op_code(op) <= 5,
{
}

} // verus!
