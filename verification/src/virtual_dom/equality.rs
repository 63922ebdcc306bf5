//! Structural equality of nodes.

use super::vcomp::same_type_id;
use super::vlist::VList;
use super::vnode::VNode;
use super::vtag::same_text;
use super::vtag::Attributes;
use super::vtag::VTag;
use super::vtag::VTagInner;
use vstd::prelude::*;
use vstd::std_specs::cmp::PartialEqSpecImpl;

verus! {

/// Whether two optional texts are both absent or hold the same text.
pub open spec fn same_value(a: Option<String>, b: Option<String>) -> bool {
    match (a, b) {
        (Some(x), Some(y)) => x@ == y@,
        (None, None) => true,
        _ => false,
    }
}

/// Whether `b` maps every name of `a` to the value that `a` maps it to, and
/// has as many entries: the order of the entries does not count.
pub open spec fn same_attributes(a: Attributes, b: Attributes) -> bool {
    &&& a.entries@.len() == b.entries@.len()
    &&& forall|i: int|
        0 <= i < a.entries@.len() ==> b.value_of((#[trigger] a.entries@[i]).name@) == Some(
            a.entries@[i].value@,
        )
}

/// Whether two nodes are equal in structure: they are of the same kind
/// and their parts are equal. Two components are equal when they stand
/// for the same component type.
pub open spec fn same_node(a: VNode, b: VNode) -> bool
    decreases a, 0nat,
{
    match (a, b) {
        (VNode::VTag(x), VNode::VTag(y)) => same_tag(*x, *y),
        (VNode::VText(x), VNode::VText(y)) => x.text@ == y.text@,
        (VNode::VComp(x), VNode::VComp(y)) => x.type_id == y.type_id,
        (VNode::VList(x), VNode::VList(y)) => x.key == y.key && same_nodes(
            x.children@,
            y.children@,
            0,
        ),
        (VNode::VPortal(x), VNode::VPortal(y)) => x.host == y.host && same_node(*x.node, *y.node),
        (VNode::VRef(x), VNode::VRef(y)) => x == y,
        (VNode::VSuspense(x), VNode::VSuspense(y)) => {
            &&& x.suspended == y.suspended
            &&& x.key == y.key
            &&& same_node(*x.children, *y.children)
            &&& same_node(*x.fallback, *y.fallback)
        },
        _ => false,
    }
}

/// Whether two elements are equal in structure.
pub open spec fn same_tag(a: VTag, b: VTag) -> bool
    decreases a, 1nat,
{
    &&& a.key == b.key
    &&& same_attributes(a.attributes, b.attributes)
    &&& match (a.inner, b.inner) {
        (
            VTagInner::Input { value: v, checked: c },
            VTagInner::Input { value: w, checked: d },
        ) => same_value(v, w) && c == d,
        (VTagInner::Textarea { value: v }, VTagInner::Textarea { value: w }) => same_value(v, w),
        (
            VTagInner::Other { tag: s, children: x },
            VTagInner::Other { tag: t, children: y },
        ) => s@ == t@ && x.key == y.key && same_nodes(x.children@, y.children@, 0),
        _ => false,
    }
}

/// Whether two runs of nodes are as long as each other and equal node by
/// node from position `from` on.
pub open spec fn same_nodes(a: Seq<VNode>, b: Seq<VNode>, from: int) -> bool
    decreases a, a.len() - from,
{
    &&& a.len() == b.len()
    &&& if 0 <= from < a.len() {
        same_node(a[from], b[from]) && same_nodes(a, b, from + 1)
    } else {
        true
    }
}

/// Tells whether two optional texts are both absent or hold the same text.
pub fn check_same_value(a: &Option<String>, b: &Option<String>) -> (same: bool)
    ensures
        same == same_value(*a, *b),
{
    match (a, b) {
        (Some(x), Some(y)) => same_text(x.as_str(), y.as_str()),
        (None, None) => true,
        _ => false,
    }
}

impl Attributes {
    /// Tells whether `other` maps the same names to the same values.
    pub fn same_as(&self, other: &Attributes) -> (same: bool)
        ensures
            same == same_attributes(*self, *other),
    {
        if self.entries.len() != other.entries.len() {
            return false;
        }
        let mut i: usize = 0;
        while i < self.entries.len()
            invariant
                i <= self.entries@.len(),
                self.entries@.len() == other.entries@.len(),
                forall|j: int|
                    0 <= j < i ==> other.value_of((#[trigger] self.entries@[j]).name@) == Some(
                        self.entries@[j].value@,
                    ),
            decreases self.entries@.len() - i,
        {
            match other.get(self.entries[i].name.as_str()) {
                Some(value) => {
                    if !same_text(value.as_str(), self.entries[i].value.as_str()) {
                        return false;
                    }
                },
                None => {
                    return false;
                },
            }
            i += 1;
        }
        true
    }
}

/// Tells whether two runs of nodes are equal node by node.
fn check_same_nodes(a: &Vec<VNode>, b: &Vec<VNode>) -> (same: bool)
    ensures
        same == same_nodes(a@, b@, 0),
    decreases a, 0nat,
{
    if a.len() != b.len() {
        return false;
    }
    let mut i: usize = 0;
    while i < a.len()
        invariant
            i <= a.len(),
            a.len() == b.len(),
            same_nodes(a@, b@, 0) == same_nodes(a@, b@, i as int),
        decreases a.len() - i,
    {
        if !a[i].same_as(&b[i]) {
            return false;
        }
        i += 1;
    }
    true
}

impl VList {
    /// Tells whether two lists are equal in structure.
    pub fn same_as(&self, other: &VList) -> (same: bool)
        ensures
            same == (self.key == other.key && same_nodes(self.children@, other.children@, 0)),
        decreases self, 1nat,
    {
        self.key == other.key && check_same_nodes(&self.children, &other.children)
    }
}

impl VTag {
    /// Tells whether two elements are equal in structure.
    pub fn same_as(&self, other: &VTag) -> (same: bool)
        ensures
            same == same_tag(*self, *other),
        decreases self, 1nat,
    {
        if !(self.key == other.key) || !self.attributes.same_as(&other.attributes) {
            return false;
        }
        match (&self.inner, &other.inner) {
            (
                VTagInner::Input { value: v, checked: c },
                VTagInner::Input { value: w, checked: d },
            ) => check_same_value(v, w) && *c == *d,
            (VTagInner::Textarea { value: v }, VTagInner::Textarea { value: w }) => {
                check_same_value(v, w)
            },
            (
                VTagInner::Other { tag: s, children: x },
                VTagInner::Other { tag: t, children: y },
            ) => same_text(s.as_str(), t.as_str()) && x.same_as(y),
            _ => false,
        }
    }
}

impl VNode {
    /// Tells whether two nodes are equal in structure.
    pub fn same_as(&self, other: &VNode) -> (same: bool)
        ensures
            same == same_node(*self, *other),
        decreases self, 0nat,
    {
        match (self, other) {
            (VNode::VTag(x), VNode::VTag(y)) => x.same_as(y),
            (VNode::VText(x), VNode::VText(y)) => same_text(x.text.as_str(), y.text.as_str()),
            (VNode::VComp(x), VNode::VComp(y)) => same_type_id(&x.type_id, &y.type_id),
            (VNode::VList(x), VNode::VList(y)) => x.same_as(y),
            (VNode::VPortal(x), VNode::VPortal(y)) => x.host == y.host && x.node.same_as(&y.node),
            (VNode::VRef(x), VNode::VRef(y)) => *x == *y,
            (VNode::VSuspense(x), VNode::VSuspense(y)) => {
                x.suspended == y.suspended && x.key == y.key && x.children.same_as(&y.children)
                    && x.fallback.same_as(&y.fallback)
            },
            _ => false,
        }
    }
}

impl PartialEq for VNode {
    fn eq(&self, other: &VNode) -> (same: bool) {
        self.same_as(other)
    }
}

impl PartialEqSpecImpl for VNode {
    open spec fn obeys_eq_spec() -> bool {
        true
    }

    /// Nodes are equal when they are equal in structure.
    open spec fn eq_spec(&self, other: &VNode) -> bool {
        same_node(*self, *other)
    }
}

} // verus!
