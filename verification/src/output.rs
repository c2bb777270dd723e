//! The success payload of the capability.

use vstd::prelude::*;

verus! {

/// What the guest hands back when it greets: a record with the one field
/// `greet`.
#[derive(Debug, Clone, PartialEq, Eq)]
pub struct Output {
    pub greet: String,
}

/// The mathematical value of an [`Output`]: the characters of its greeting.
pub struct OutputView {
    pub greet: Seq<char>,
}

impl View for Output {
    type V = OutputView;

    open spec fn view(&self) -> OutputView {
        OutputView { greet: self.greet@ }
    }
}

} // verus!
