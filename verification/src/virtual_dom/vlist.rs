//! The virtual list node.

use super::key::Key;
use super::vnode::VNode;
use vstd::prelude::*;

verus! {

/// An ordered sequence of nodes without a tag of its own: its children
/// stand where the list stands.
#[derive(Debug)]
pub struct VList {
    /// The nodes of the list, in document order.
    pub children: Vec<VNode>,
    /// The key of the list among its siblings.
    pub key: Option<Key>,
}

impl VList {
    /// An empty list.
    pub fn new() -> (list: VList)
        ensures
            list.children@.len() == 0,
            list.key is None,
    {
        VList { children: Vec::new(), key: None }
    }

    /// A list of `children`.
    pub fn with_children(children: Vec<VNode>, key: Option<Key>) -> (list: VList)
        ensures
            list.children == children,
            list.key == key,
    {
        VList { children, key }
    }

    /// Adds `child` as the last child.
    pub fn add_child(&mut self, child: VNode)
        ensures
            final(self).children@ == old(self).children@.push(child),
            final(self).key == old(self).key,
    {
        self.children.push(child);
    }

    /// How many children the list holds.
    pub fn len(&self) -> (n: usize)
        ensures
            n == self.children@.len(),
    {
        self.children.len()
    }

    /// Whether the list holds no child.
    pub fn is_empty(&self) -> (empty: bool)
        ensures
            empty == (self.children@.len() == 0),
    {
        self.children.len() == 0
    }
}

} // verus!
