//! The virtual text node.

use vstd::prelude::*;
use vstd::std_specs::cmp::PartialEqSpecImpl;

verus! {

/// A text node: an immutable string payload.
#[derive(Clone, Debug)]
pub struct VText {
    /// The text of the node, not yet escaped.
    pub text: String,
}

impl VText {
    /// Creates a text node that holds `text`.
    pub fn new(text: String) -> (node: VText)
        ensures
            node.text == text,
    {
        VText { text }
    }
}

impl PartialEq for VText {
    fn eq(&self, other: &VText) -> (b: bool) {
        self.text == other.text
    }
}

impl PartialEqSpecImpl for VText {
    open spec fn obeys_eq_spec() -> bool {
        true
    }

    /// Two text nodes are equal when they hold the same text.
    open spec fn eq_spec(&self, other: &VText) -> bool {
        self.text@ == other.text@
    }
}

} // verus!
