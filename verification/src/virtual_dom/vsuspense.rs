//! The suspense boundary.

use super::key::Key;
use super::vnode::VNode;
use vstd::prelude::*;

verus! {

/// A boundary round children that may not be ready yet.
#[derive(Debug)]
pub struct VSuspense {
    /// What the boundary encloses.
    pub children: Box<VNode>,
    /// What a live surface shows in place of the children while they are
    /// not ready.
    pub fallback: Box<VNode>,
    /// Whether the children are not ready yet.
    pub suspended: bool,
    /// The key of the boundary among its siblings.
    pub key: Option<Key>,
}

impl VSuspense {
    /// Creates a boundary.
    pub fn new(children: VNode, fallback: VNode, suspended: bool, key: Option<Key>) -> (node:
        VSuspense)
        ensures
            *node.children == children,
            *node.fallback == fallback,
            node.suspended == suspended,
            node.key == key,
    {
        VSuspense { children: Box::new(children), fallback: Box::new(fallback), suspended, key }
    }
}

} // verus!
