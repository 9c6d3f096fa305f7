//! The nodes of an expression graph.

use vstd::prelude::*;
use crate::double::{Double, DoubleView};
use crate::op::Op;

verus! {

/// The mathematical content of a [`Value`]: a finite tree.
pub struct ValueView {
    /// The number the node holds.
    pub value: DoubleView,
    /// The label of the node; empty until one is set.
    pub label: Seq<char>,
    /// How the node was produced.
    pub op: Op,
    /// The nodes it was produced from, in the order they were given.
    pub operands: Seq<ValueView>,
}

impl ValueView {
    /// A leaf holding `value` under `label`.
    pub open spec fn leaf(value: DoubleView, label: Seq<char>) -> ValueView {
        ValueView { value, label, op: Op::Leaf, operands: Seq::empty() }
    }

    /// The unlabelled node that `op` makes of `left` and `right`, holding
    /// `value`.
    pub open spec fn combined(
        op: Op,
        left: ValueView,
        right: ValueView,
        value: DoubleView,
    ) -> ValueView {
        ValueView { value, label: Seq::empty(), op, operands: seq![left, right] }
    }

    /// The same node under another label.
    pub open spec fn with_label(self, label: Seq<char>) -> ValueView {
        ValueView { label, ..self }
    }

    /// The node reached by following `path` down from this one; each step of
    /// the path is the position of an operand. `None` where a step names an
    /// operand that is not there.
    pub open spec fn descendant(self, path: Seq<usize>) -> Option<ValueView>
        decreases path.len(),
    {
        if path.len() == 0 {
            Some(self)
        } else if path[0] < self.operands.len() {
            self.operands[path[0] as int].descendant(path.skip(1))
        } else {
            None
        }
    }

    /// The same graph with the node at `path` under another label; the same
    /// graph unchanged where `path` leads nowhere.
    pub open spec fn with_label_at(self, path: Seq<usize>, label: Seq<char>) -> ValueView
        decreases path.len(),
    {
        if path.len() == 0 {
            self.with_label(label)
        } else if path[0] < self.operands.len() {
            ValueView {
                operands: self.operands.update(
                    path[0] as int,
                    self.operands[path[0] as int].with_label_at(path.skip(1), label),
                ),
                ..self
            }
        } else {
            self
        }
    }

    /// The shape every node has: a leaf has no operands, a sum or a product
    /// has exactly two, and the operands are themselves of that shape.
    pub open spec fn wf(self) -> bool
        decreases self,
    {
        &&& self.op == Op::Leaf <==> self.operands.len() == 0
        &&& (self.op == Op::Sum || self.op == Op::Product) <==> self.operands.len() == 2
        &&& forall|i: int| 0 <= i < self.operands.len() ==> (#[trigger] self.operands[i]).wf()
    }
}

/// A node of an expression graph.
///
/// A node owns its operands, so the graph below a node is a tree. Once a node
/// is made, only its label can change.
pub struct Value {
    value: Double,
    label: String,
    op: Op,
    operands: Vec<Value>,
}

impl View for Value {
    type V = ValueView;

    closed spec fn view(&self) -> ValueView {
        self.tree()
    }
}

impl DeepView for Value {
    type V = ValueView;

    open spec fn deep_view(&self) -> ValueView {
        self@
    }
}

impl Value {
    spec fn tree(&self) -> ValueView
        decreases self,
    {
        ValueView {
            value: self.value@,
            label: self.label@,
            op: self.op,
            operands: Seq::new(
                self.operands@.len(),
                |i: int|
                    if 0 <= i < self.operands@.len() {
                        self.operands@[i].tree()
                    } else {
                        arbitrary()
                    },
            ),
        }
    }

    #[verifier::type_invariant]
    spec fn well_formed(&self) -> bool {
        self@.wf()
    }

    /// Makes a leaf that holds `value` and has no label.
    pub fn new(value: Double) -> (node: Value)
        ensures
            node@ == ValueView::leaf(value@, Seq::empty()),
            node@.wf(),
    {
        let node = Value { value, label: String::new(), op: Op::Leaf, operands: Vec::new() };
        assert(node@.operands =~= Seq::empty());
        node
    }

    /// Makes a leaf that holds `value` under `label`.
    pub fn new_with_label(value: Double, label: &str) -> (node: Value)
        ensures
            node@ == ValueView::leaf(value@, label@),
            node@.wf(),
    {
        let mut node = Value::new(value);
        node.set_label(label);
        node
    }

    /// Replaces the label and leaves everything else as it was.
    pub fn set_label(&mut self, label: &str)
        ensures
            final(self)@ == old(self)@.with_label(label@),
            final(self)@.wf(),
    {
        proof {
            use_type_invariant(&*self);
        }
        self.label = String::from_str(label);
    }

    /// Replaces the label of the node at `path` below this one, where each
    /// step of the path is the position of an operand, and says whether there
    /// is such a node. The empty path is the node itself. Where the path
    /// leads nowhere, nothing changes.
    ///
    /// A node that has become an operand is owned by the node made of it;
    /// this is how its label is still reached.
    pub fn set_label_at(&mut self, path: &[usize], label: &str) -> (found: bool)
        ensures
            found == old(self)@.descendant(path@).is_some(),
            final(self)@ == old(self)@.with_label_at(path@, label@),
            final(self)@.wf(),
    {
        assert(path@.skip(0) =~= path@);
        self.set_label_from(path, 0, label)
    }

    fn set_label_from(&mut self, path: &[usize], start: usize, label: &str) -> (found: bool)
        requires
            start <= path@.len(),
        ensures
            found == old(self)@.descendant(path@.skip(start as int)).is_some(),
            final(self)@ == old(self)@.with_label_at(path@.skip(start as int), label@),
            final(self)@.wf(),
        decreases path@.len() - start,
    {
        proof {
            use_type_invariant(&*self);
        }
        if start == path.len() {
            self.set_label(label);
            return true;
        }
        let i = path[start];
        assert(path@.skip(start as int)[0] == i);
        assert(path@.skip(start as int).skip(1) =~= path@.skip(start as int + 1));
        if i >= self.operands.len() {
            return false;
        }
        // The operand cannot be borrowed out of the node while the node has to
        // keep its shape, so the node is taken apart and put together again.
        let mut node = Value::new(Double::new(0, ""));
        std::mem::swap(self, &mut node);
        let Value { value, label: own, op, mut operands } = node;
        let found = operands[i].set_label_from(path, start + 1, label);
        proof {
            let before = old(self)@.operands;
            let after = Value { value, label: own, op, operands }@.operands;
            assert(after.len() == before.len());
            assert forall|k: int| 0 <= k < after.len() implies (#[trigger] after[k]).wf() by {
                if k != i {
                    assert(after[k] == before[k]);
                }
            }
        }
        *self = Value { value, label: own, op, operands };
        assert(self@.operands =~= old(self)@.with_label_at(
            path@.skip(start as int),
            label@,
        ).operands);
        found
    }

    /// The number the node holds.
    pub fn value(&self) -> (value: &Double)
        ensures
            value@ == self@.value,
    {
        &self.value
    }

    /// The label of the node.
    pub fn label(&self) -> (label: &str)
        ensures
            label@ == self@.label,
    {
        self.label.as_str()
    }

    /// How the node was produced. A node is a leaf exactly when it has no
    /// operands.
    pub fn operator(&self) -> (op: Op)
        ensures
            op == self@.op,
            op == Op::Leaf <==> self@.operands.len() == 0,
            self@.wf(),
    {
        proof {
            use_type_invariant(self);
        }
        self.op
    }

    /// The nodes this one was produced from, in the order they were given:
    /// none for a leaf, the left and the right operand otherwise.
    pub fn operands(&self) -> (operands: &Vec<Value>)
        ensures
            operands.deep_view() == self@.operands,
            self@.wf(),
    {
        proof {
            use_type_invariant(self);
        }
        &self.operands
    }

    /// The sum node of `self` and `other`, which become its left and right
    /// operand. `sum` is the number the node holds: the sum of the two
    /// operands' numbers, worked out by the caller.
    pub fn add(self, other: Value, sum: Double) -> (node: Value)
        ensures
            node@ == ValueView::combined(Op::Sum, self@, other@, sum@),
            node@.wf(),
    {
        Value::combine(Op::Sum, self, other, sum)
    }

    /// The product node of `self` and `other`, which become its left and
    /// right operand. `product` is the number the node holds: the product of
    /// the two operands' numbers, worked out by the caller.
    pub fn mul(self, other: Value, product: Double) -> (node: Value)
        ensures
            node@ == ValueView::combined(Op::Product, self@, other@, product@),
            node@.wf(),
    {
        Value::combine(Op::Product, self, other, product)
    }

    fn combine(op: Op, left: Value, right: Value, value: Double) -> (node: Value)
        requires
            op != Op::Leaf,
        ensures
            node@ == ValueView::combined(op, left@, right@, value@),
            node@.wf(),
    {
        proof {
            use_type_invariant(&left);
            use_type_invariant(&right);
        }
        let mut operands = Vec::new();
        operands.push(left);
        operands.push(right);
        let node = Value { value, label: String::new(), op, operands };
        assert(node@.operands =~= seq![left@, right@]);
        node
    }
}

/// A well-formed node is a leaf exactly when it has no operands, has two
/// operands exactly when it is a sum or a product, and its operands are
/// well formed in turn.
pub proof fn lemma_leaf_iff_no_operands(node: ValueView)
    requires
        node.wf(),
    ensures
        node.op == Op::Leaf <==> node.operands.len() == 0,
        node.op != Op::Leaf <==> node.operands.len() == 2,
        forall|i: int| 0 <= i < node.operands.len() ==> (#[trigger] node.operands[i]).wf(),
{
}

/// Setting the same label twice is the same as setting it once.
pub proof fn lemma_set_label_idempotent(node: ValueView, label: Seq<char>)
    ensures
        node.with_label(label).label == label,
        node.with_label(label).with_label(label) == node.with_label(label),
{
}

/// Of two labels set one after the other, the second is the one that stays.
pub proof fn lemma_last_label_wins(node: ValueView, first: Seq<char>, second: Seq<char>)
    ensures
        node.with_label(first).with_label(second) == node.with_label(second),
{
}

/// Relabelling the node at `at` changes that node's label and nothing else:
/// the graph has the same nodes as before, each with the number, the
/// operator and the number of operands it had, and each but the one at `at`
/// with the label it had.
pub proof fn lemma_relabel_changes_one_label(
    node: ValueView,
    at: Seq<usize>,
    label: Seq<char>,
    path: Seq<usize>,
)
    ensures
        node.with_label_at(at, label).descendant(path).is_some() == node.descendant(
            path,
        ).is_some(),
        node.descendant(path) matches Some(before) ==> ({
            let after = node.with_label_at(at, label).descendant(path).unwrap();
            &&& after.value == before.value
            &&& after.op == before.op
            &&& after.operands.len() == before.operands.len()
            &&& path == at ==> after.label == label
            &&& path != at ==> after.label == before.label
        }),
    decreases path.len(),
{
    let relabelled = node.with_label_at(at, label);
    if at.len() > 0 && at[0] < node.operands.len() {
        if path.len() == 0 {
            assert(path != at);
        } else if path[0] < node.operands.len() {
            if path[0] == at[0] {
                lemma_relabel_changes_one_label(
                    node.operands[at[0] as int],
                    at.skip(1),
                    label,
                    path.skip(1),
                );
                if path.skip(1) == at.skip(1) {
                    assert(path.len() == at.len());
                    assert forall|k: int| 0 <= k < path.len() implies path[k] == at[k] by {
                        if k > 0 {
                            assert(path.skip(1)[k - 1] == at.skip(1)[k - 1]);
                        }
                    }
                    assert(path =~= at);
                }
            } else {
                assert(relabelled.operands[path[0] as int] == node.operands[path[0] as int]);
                assert(path != at);
            }
        }
    } else if at.len() == 0 {
        if path.len() > 0 {
            assert(path != at);
        } else {
            assert(path =~= at);
        }
    } else {
        if path == at {
            assert(node.descendant(path).is_none());
        }
    }
}

/// Combining two nodes leaves both as they were: the new node has exactly
/// them as its operands, left first.
pub proof fn lemma_operands_unchanged(op: Op, left: ValueView, right: ValueView, value: DoubleView)
    ensures
        ValueView::combined(op, left, right, value).operands.len() == 2,
        ValueView::combined(op, left, right, value).operands[0] == left,
        ValueView::combined(op, left, right, value).operands[1] == right,
        ValueView::combined(op, left, right, value).value == value,
{
}

} // verus!
