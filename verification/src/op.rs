//! The operator tag of a node.

use vstd::prelude::*;

verus! {

/// How a node came to be.
#[derive(Clone, Copy, Debug, PartialEq, Eq, Structural)]
pub enum Op {
    /// Made directly from a number; has no operands.
    Leaf,
    /// The sum of its two operands.
    Sum,
    /// The product of its two operands.
    Product,
}

/// The text that stands for an operator in a rendering.
pub open spec fn op_text(op: Op) -> Seq<char> {
    match op {
        Op::Leaf => "Op(=)"@,
        Op::Sum => "Op(+)"@,
        Op::Product => "Op(*)"@,
    }
}

impl Op {
    /// Renders the operator: `Op(=)` for a leaf, `Op(+)` for a sum, `Op(*)`
    /// for a product.
    pub fn to_string(&self) -> (s: String)
        ensures
            s@ == op_text(*self),
    {
        match self {
            Op::Leaf => String::from_str("Op(=)"),
            Op::Sum => String::from_str("Op(+)"),
            Op::Product => String::from_str("Op(*)"),
        }
    }
}

} // verus!
