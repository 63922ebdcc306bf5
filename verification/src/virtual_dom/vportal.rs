//! The portal node.

use super::vnode::VNode;
use super::NodeRef;
use vstd::prelude::*;

verus! {

/// A subtree that belongs under another attachment point of the live
/// surface than the one its parent is attached to.
#[derive(Debug)]
pub struct VPortal {
    /// Where the subtree is attached.
    pub host: NodeRef,
    /// The subtree.
    pub node: Box<VNode>,
}

impl VPortal {
    /// Creates a portal that attaches `content` under `host`.
    pub fn new(content: VNode, host: NodeRef) -> (portal: VPortal)
        ensures
            *portal.node == content,
            portal.host == host,
    {
        VPortal { host, node: Box::new(content) }
    }
}

} // verus!
