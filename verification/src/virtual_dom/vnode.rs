//! The node: one of seven kinds.

use super::vcomp::VComp;
use super::vlist::VList;
use super::vportal::VPortal;
use super::vsuspense::VSuspense;
use super::vtag::VTag;
use super::vtext::VText;
use super::NodeRef;
use vstd::prelude::*;

verus! {

/// A virtual node.
#[derive(Debug)]
pub enum VNode {
    /// An element.
    VTag(Box<VTag>),
    /// Text.
    VText(VText),
    /// A component.
    VComp(VComp),
    /// A sequence of nodes that stand where the list stands.
    VList(VList),
    /// A subtree attached elsewhere on the live surface.
    VPortal(VPortal),
    /// A node of the live surface.
    VRef(NodeRef),
    /// A suspense boundary.
    VSuspense(VSuspense),
}

} // verus!
