//! The virtual nodes: a closed set of seven kinds that form a tree.

pub mod equality;
pub mod key;
pub mod vcomp;
pub mod vlist;
pub mod vnode;
pub mod vportal;
pub mod vsuspense;
pub mod vtag;
pub mod vtext;

use vstd::prelude::*;

verus! {

/// What a hydration marker encloses.
#[derive(Clone, Debug)]
pub enum Collectable {
    /// A component instance, with the name of its type (empty where names
    /// are not recorded).
    Component(String),
    /// A suspense boundary.
    Suspense,
}

impl Collectable {
    /// The name that the markers of this kind carry between their marks.
    pub open spec fn name(self) -> Seq<char> {
        match self {
            Collectable::Component(name) => name@,
            Collectable::Suspense => Seq::empty(),
        }
    }

    /// The mark that begins an opening marker of this kind.
    pub open spec fn spec_open_start_mark(self) -> Seq<char> {
        match self {
            Collectable::Component(_) => "<["@,
            Collectable::Suspense => "<?"@,
        }
    }

    /// The mark that begins a closing marker of this kind.
    pub open spec fn spec_close_start_mark(self) -> Seq<char> {
        match self {
            Collectable::Component(_) => "</["@,
            Collectable::Suspense => "</?"@,
        }
    }

    /// The mark that ends a marker of this kind.
    pub open spec fn spec_end_mark(self) -> Seq<char> {
        match self {
            Collectable::Component(_) => "]>"@,
            Collectable::Suspense => ">"@,
        }
    }

    /// The marker that opens a collectable region: a comment that holds the
    /// opening mark, the name and the end mark.
    pub open spec fn open_tag(self) -> Seq<char> {
        "<!--"@ + self.spec_open_start_mark() + self.name() + self.spec_end_mark() + "-->"@
    }

    /// The marker that closes a collectable region.
    pub open spec fn close_tag(self) -> Seq<char> {
        "<!--"@ + self.spec_close_start_mark() + self.name() + self.spec_end_mark() + "-->"@
    }

    /// The mark that begins an opening marker of this kind.
    pub fn open_start_mark(&self) -> (mark: &'static str)
        ensures
            mark@ == self.spec_open_start_mark(),
    {
        match self {
            Collectable::Component(_) => "<[",
            Collectable::Suspense => "<?",
        }
    }

    /// The mark that begins a closing marker of this kind.
    pub fn close_start_mark(&self) -> (mark: &'static str)
        ensures
            mark@ == self.spec_close_start_mark(),
    {
        match self {
            Collectable::Component(_) => "</[",
            Collectable::Suspense => "</?",
        }
    }

    /// The mark that ends a marker of this kind.
    pub fn end_mark(&self) -> (mark: &'static str)
        ensures
            mark@ == self.spec_end_mark(),
    {
        match self {
            Collectable::Component(_) => "]>",
            Collectable::Suspense => ">",
        }
    }
}

/// A handle to a node of a live surface. The node itself is held by whoever
/// owns the surface; the tree carries only the handle.
#[derive(Clone, Copy, Debug, PartialEq, Eq, Structural)]
pub struct NodeRef {
    /// The number under which the owner of the surface keeps the node.
    pub id: u64,
}

} // verus!
