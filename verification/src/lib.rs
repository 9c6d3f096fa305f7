//! Expression graphs over double-precision scalars.
//!
//! A [`Value`] is a node of an expression tree: a number, a label, the
//! operator that produced it and the operands it was produced from. Leaves
//! are made from numbers; sums and products take ownership of their two
//! operands. The printer renders a node and everything below it as indented
//! lines, depth first.
//!
//! Verified code performs no floating-point arithmetic. A number travels
//! through the graph as a [`Double`], which pairs its binary64 encoding with
//! its decimal text; whoever builds the graph supplies both.

pub mod double;
pub mod op;
pub mod render;
pub mod value;

pub use double::{Double, DoubleView};
pub use op::Op;
pub use render::{print_graph, report};
pub use value::{Value, ValueView};
