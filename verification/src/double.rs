//! Double-precision numbers as the graph carries them.

use vstd::prelude::*;

verus! {

/// The mathematical content of a [`Double`].
pub struct DoubleView {
    /// The IEEE-754 binary64 encoding of the number.
    pub bits: u64,
    /// The decimal text under which the number is shown.
    pub text: Seq<char>,
}

/// A double-precision number, held as its IEEE-754 binary64 encoding together
/// with the decimal text under which it is shown.
///
/// The graph never computes with the number: it stores the encoding so that
/// the owner of the graph can get the number back, and it copies the text
/// into every rendering of a node that holds the number. Keeping the two in
/// step is the job of whoever makes the `Double`.
pub struct Double {
    bits: u64,
    text: String,
}

impl View for Double {
    type V = DoubleView;

    closed spec fn view(&self) -> DoubleView {
        DoubleView { bits: self.bits, text: self.text@ }
    }
}

impl Double {
    /// Pairs an encoding with its decimal text.
    pub fn new(bits: u64, text: &str) -> (d: Double)
        ensures
            d@ == (DoubleView { bits, text: text@ }),
    {
        Double { bits, text: String::from_str(text) }
    }

    /// The IEEE-754 binary64 encoding of the number.
    pub fn bits(&self) -> (b: u64)
        ensures
            b == self@.bits,
    {
        self.bits
    }

    /// The decimal text of the number.
    pub fn text(&self) -> (t: &str)
        ensures
            t@ == self@.text,
    {
        self.text.as_str()
    }
}

} // verus!
