//! Text renderings of nodes and of whole graphs.

use vstd::prelude::*;
use crate::op::op_text;
use crate::value::{Value, ValueView};

verus! {

/// The indentation of a line at `depth`: two spaces for each level.
pub open spec fn indentation(depth: nat) -> Seq<char> {
    Seq::new(2 * depth, |i: int| ' ')
}

/// The lines that render `nodes` one after the other, each node at `depth`
/// and followed by the lines of everything below it.
pub open spec fn lines_of(nodes: Seq<ValueView>, depth: nat) -> Seq<Seq<char>>
    decreases nodes, 0nat,
{
    if nodes.len() == 0 {
        Seq::empty()
    } else {
        lines_of(nodes.drop_last(), depth) + nodes.last().lines(depth)
    }
}

/// The number of nodes in `nodes` and below them.
pub open spec fn count_of(nodes: Seq<ValueView>) -> nat
    decreases nodes, 0nat,
{
    if nodes.len() == 0 {
        0
    } else {
        count_of(nodes.drop_last()) + nodes.last().count()
    }
}

impl ValueView {
    /// The rendering of a single node:
    /// `Value(data=<number> label=<label> op=<operator>)`.
    pub open spec fn rendering(self) -> Seq<char> {
        "Value(data="@ + self.value.text + " label="@ + self.label + " op="@ + op_text(self.op)
            + ")"@
    }

    /// The line that shows the node at `depth`.
    pub open spec fn line(self, depth: nat) -> Seq<char> {
        indentation(depth) + self.rendering()
    }

    /// The lines that show the graph below the node, the node itself at
    /// `depth`: the node's own line first, then the lines of each operand in
    /// order, one level deeper.
    pub open spec fn lines(self, depth: nat) -> Seq<Seq<char>>
        decreases self, 1nat,
    {
        seq![self.line(depth)] + lines_of(self.operands, depth + 1)
    }

    /// The number of nodes in the graph below the node, itself included.
    pub open spec fn count(self) -> nat
        decreases self, 1nat,
    {
        1 + count_of(self.operands)
    }
}

/// The greeting that opens a report.
pub open spec fn greeting() -> Seq<char> {
    "Hello, world!"@
}

/// The line of a report that shows the root on its own.
pub open spec fn summary(root: ValueView) -> Seq<char> {
    "a = "@ + root.rendering()
}

/// A whole report on the graph below `root`: the greeting, the summary of
/// the root, then the lines of the graph.
pub open spec fn report_lines(root: ValueView) -> Seq<Seq<char>> {
    seq![greeting(), summary(root)] + root.lines(0)
}

/// Rendering a graph gives one line for each of its nodes.
pub proof fn lemma_one_line_per_node(node: ValueView, depth: nat)
    ensures
        node.lines(depth).len() == node.count(),
    decreases node, 1nat,
{
    lemma_one_line_per_node_of(node.operands, depth + 1);
}

/// Rendering a sequence of graphs gives one line for each of their nodes.
pub proof fn lemma_one_line_per_node_of(nodes: Seq<ValueView>, depth: nat)
    ensures
        lines_of(nodes, depth).len() == count_of(nodes),
    decreases nodes, 0nat,
{
    if nodes.len() > 0 {
        lemma_one_line_per_node_of(nodes.drop_last(), depth);
        lemma_one_line_per_node(nodes.last(), depth);
    }
}

/// The lines of a node with two operands are its own line, then all the
/// lines of the left operand, then all the lines of the right operand, both
/// operands one level deeper than the node.
pub proof fn lemma_operand_order(node: ValueView, depth: nat)
    requires
        node.operands.len() == 2,
    ensures
        node.lines(depth) == seq![node.line(depth)] + node.operands[0].lines(depth + 1)
            + node.operands[1].lines(depth + 1),
        node.lines(depth)[0] == node.line(depth),
        node.lines(depth).subrange(1, 1 + node.operands[0].count() as int)
            == node.operands[0].lines(depth + 1),
        node.lines(depth).subrange(
            1 + node.operands[0].count() as int,
            node.lines(depth).len() as int,
        ) == node.operands[1].lines(depth + 1),
        node.lines(depth).len() == 1 + node.operands[0].count() + node.operands[1].count(),
{
    let left = node.operands[0];
    let right = node.operands[1];
    let first = node.operands.drop_last();
    assert(lines_of(first.drop_last(), depth + 1) =~= Seq::<Seq<char>>::empty());
    assert(lines_of(first, depth + 1) =~= left.lines(depth + 1));
    assert(lines_of(node.operands, depth + 1) =~= left.lines(depth + 1) + right.lines(depth + 1));
    lemma_one_line_per_node(left, depth + 1);
    lemma_one_line_per_node(right, depth + 1);
}

impl Value {
    /// Renders the node as `Value(data=<number> label=<label> op=<operator>)`.
    /// An empty label leaves nothing between `label=` and the space before
    /// `op=`.
    pub fn to_string(&self) -> (s: String)
        ensures
            s@ == self@.rendering(),
    {
        let mut s = String::from_str("Value(data=");
        s.append(self.value().text());
        s.append(" label=");
        s.append(self.label());
        s.append(" op=");
        s.append(self.operator().to_string().as_str());
        s.append(")");
        s
    }
}

/// Renders the graph below `node` as lines, depth first: the line of a node
/// comes before the lines of its operands, and the operands come in the
/// order they were given. Each line is indented by two spaces for every
/// level between its node and `node`.
pub fn print_graph(node: &Value) -> (lines: Vec<String>)
    ensures
        lines.deep_view() == node@.lines(0),
        lines.len() == node@.count(),
{
    proof {
        lemma_one_line_per_node(node@, 0);
    }
    let mut lines: Vec<String> = Vec::new();
    let indent = String::new();
    assert(indent@ =~= indentation(0));
    print_into(node, &indent, Ghost(0), &mut lines);
    lines
}

/// Renders a whole report on the graph below `root`: the greeting
/// `Hello, world!`, the line `a = ` followed by the rendering of `root`, then
/// the lines of the graph as [`print_graph`] gives them.
pub fn report(root: &Value) -> (lines: Vec<String>)
    ensures
        lines.deep_view() == report_lines(root@),
{
    let mut lines: Vec<String> = Vec::new();
    lines.push(String::from_str("Hello, world!"));
    let mut line = String::from_str("a = ");
    line.append(root.to_string().as_str());
    lines.push(line);
    let indent = String::new();
    assert(indent@ =~= indentation(0));
    print_into(root, &indent, Ghost(0), &mut lines);
    lines
}

fn print_into(node: &Value, indent: &String, Ghost(depth): Ghost<nat>, lines: &mut Vec<String>)
    requires
        indent@ == indentation(depth),
    ensures
        final(lines).deep_view() == old(lines).deep_view() + node@.lines(depth),
    decreases node@,
{
    let mut line = indent.clone();
    line.append(node.to_string().as_str());
    lines.push(line);

    let mut deeper = indent.clone();
    deeper.append("  ");
    proof {
        reveal_strlit("  ");
    }

    let operands = node.operands();
    let mut i: usize = 0;
    while i < operands.len()
        invariant
            i <= operands.len(),
            operands.deep_view() == node@.operands,
            deeper@ == indentation(depth + 1),
            lines.deep_view() == old(lines).deep_view() + seq![node@.line(depth)] + lines_of(
                node@.operands.take(i as int),
                depth + 1,
            ),
        decreases operands.len() - i,
    {
        assert(operands[i as int]@ == node@.operands[i as int]);
        print_into(&operands[i], &deeper, Ghost(depth + 1), lines);
        proof {
            let done = node@.operands.take(i as int + 1);
            assert(done.drop_last() =~= node@.operands.take(i as int));
            assert(lines.deep_view() =~= old(lines).deep_view() + seq![node@.line(depth)]
                + lines_of(done, depth + 1));
        }
        i += 1;
    }
    assert(node@.operands.take(i as int) =~= node@.operands);
}

} // verus!
