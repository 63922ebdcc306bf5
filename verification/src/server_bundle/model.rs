//! What serialising a tree means: the markup of a node in document order,
//! and the state of the sink as a mathematical value.

use crate::escape::escape_attr;
use crate::escape::escape_text;
use crate::virtual_dom::vcomp::Mountable;
use crate::virtual_dom::vcomp::VComp;
use crate::virtual_dom::vsuspense::VSuspense;
use crate::virtual_dom::vnode::VNode;
use crate::virtual_dom::vtag::is_void_element;
use crate::virtual_dom::vtag::Attribute;
use crate::virtual_dom::vtag::VTag;
use crate::virtual_dom::vtag::VTagInner;
use crate::virtual_dom::Collectable;
use vstd::prelude::*;

verus! {

/// The markup of one attribute: a space and the name, and for an attribute
/// with a value an equals sign and the escaped value in double quotes.
pub open spec fn attr_text(name: Seq<char>, value: Option<Seq<char>>) -> Seq<char> {
    " "@ + name + match value {
        Some(v) => "=\""@ + escape_attr(v) + "\""@,
        None => Seq::empty(),
    }
}

/// The markup of the attributes from position `from` on, in their order.
pub open spec fn attrs_text(entries: Seq<Attribute>, from: int) -> Seq<char>
    decreases entries.len() - from,
{
    if 0 <= from < entries.len() {
        attr_text(entries[from].name@, Some(entries[from].value@)) + attrs_text(entries, from + 1)
    } else {
        Seq::empty()
    }
}

/// The markup that an input adds before its other attributes: its value,
/// then `checked` where it is checked.
pub open spec fn input_attrs_text(tag: VTag) -> Seq<char> {
    match tag.inner {
        VTagInner::Input { value, checked } => (match value {
            Some(v) => attr_text("value"@, Some(v@)),
            None => Seq::empty(),
        }) + (if checked {
            attr_text("checked"@, None)
        } else {
            Seq::empty()
        }),
        _ => Seq::empty(),
    }
}

/// The opening tag of an element, attributes included.
pub open spec fn tag_open_text(tag: VTag) -> Seq<char> {
    "<"@ + tag.spec_tag() + input_attrs_text(tag) + attrs_text(tag.attributes.entries@, 0) + ">"@
}

/// What follows the children of an element: nothing for a void element,
/// the escaped value and the closing tag for a textarea, the closing tag
/// for any other element.
pub open spec fn tag_close_text(tag: VTag) -> Seq<char> {
    match tag.inner {
        VTagInner::Input { .. } => Seq::empty(),
        VTagInner::Textarea { value } => (match value {
            Some(v) => escape_text(v@),
            None => Seq::empty(),
        }) + "</textarea>"@,
        VTagInner::Other { tag: name, .. } => if is_void_element(name@) {
            Seq::empty()
        } else {
            "</"@ + name@ + ">"@
        },
    }
}

/// The marker that opens a region, or nothing where the output is not
/// hydratable.
pub open spec fn open_marker(kind: Collectable, hydratable: bool) -> Seq<char> {
    if hydratable {
        kind.open_tag()
    } else {
        Seq::empty()
    }
}

/// The marker that closes a region, or nothing where the output is not
/// hydratable.
pub open spec fn close_marker(kind: Collectable, hydratable: bool) -> Seq<char> {
    if hydratable {
        kind.close_tag()
    } else {
        Seq::empty()
    }
}

/// Whether a tree can be serialised: it holds no node of a live surface,
/// and no void element of it holds children. What a portal holds and what
/// a suspense boundary falls back to are never serialised and may be
/// anything.
pub open spec fn renderable(node: VNode) -> bool
    decreases node, 0nat,
{
    match node {
        VNode::VTag(tag) => renderable_tag(*tag),
        VNode::VText(_) => true,
        VNode::VComp(comp) => renderable_comp(comp),
        VNode::VList(list) => all_renderable(list.children@, 0),
        VNode::VPortal(_) => true,
        VNode::VRef(_) => false,
        VNode::VSuspense(suspense) => renderable_suspense(suspense),
    }
}

/// Whether an element can be serialised.
pub open spec fn renderable_tag(tag: VTag) -> bool
    decreases tag, 1nat,
{
    match tag.inner {
        VTagInner::Other { tag: name, children } => {
            &&& is_void_element(name@) ==> children.children@.len() == 0
            &&& all_renderable(children.children@, 0)
        },
        _ => true,
    }
}

/// Whether a component can be serialised: whether its view can.
pub open spec fn renderable_comp(comp: VComp) -> bool
    decreases comp, 1nat,
{
    renderable(*comp.mountable.html)
}

/// Whether a suspense boundary can be serialised: whether its children can.
pub open spec fn renderable_suspense(suspense: VSuspense) -> bool
    decreases suspense, 1nat,
{
    renderable(*suspense.children)
}

/// Whether the nodes from position `from` on can all be serialised.
pub open spec fn all_renderable(nodes: Seq<VNode>, from: int) -> bool
    decreases nodes, nodes.len() - from,
{
    if 0 <= from < nodes.len() {
        renderable(nodes[from]) && all_renderable(nodes, from + 1)
    } else {
        true
    }
}

/// The markup of a node: what a single pass over the tree in document
/// order writes, with every component's view taken as complete.
pub open spec fn html_of(node: VNode, hydratable: bool) -> Seq<char>
    decreases node, 0nat,
{
    match node {
        VNode::VTag(tag) => html_of_tag(*tag, hydratable),
        VNode::VText(text) => escape_text(text.text@),
        VNode::VComp(comp) => html_of_mountable(comp.mountable, hydratable),
        VNode::VList(list) => html_of_all(list.children@, 0, hydratable),
        VNode::VPortal(_) => Seq::empty(),
        VNode::VRef(_) => Seq::empty(),
        VNode::VSuspense(suspense) => html_of_suspense(suspense, hydratable),
    }
}

/// The markup of an element: its opening tag, its children unless it is
/// void, and what closes it.
pub open spec fn html_of_tag(tag: VTag, hydratable: bool) -> Seq<char>
    decreases tag, 1nat,
{
    tag_open_text(tag) + (match tag.inner {
        VTagInner::Other { tag: name, children } => if is_void_element(name@) {
            Seq::empty()
        } else {
            html_of_all(children.children@, 0, hydratable)
        },
        _ => Seq::empty(),
    }) + tag_close_text(tag)
}

/// The markup of a suspense boundary: the markup of its children, between
/// the markers of the boundary where the output is hydratable.
pub open spec fn html_of_suspense(suspense: VSuspense, hydratable: bool) -> Seq<char>
    decreases suspense, 1nat,
{
    open_marker(Collectable::Suspense, hydratable) + html_of(*suspense.children, hydratable)
        + close_marker(Collectable::Suspense, hydratable)
}

/// The markup of the nodes from position `from` on, one after the other.
pub open spec fn html_of_all(nodes: Seq<VNode>, from: int, hydratable: bool) -> Seq<char>
    decreases nodes, nodes.len() - from,
{
    if 0 <= from < nodes.len() {
        html_of(nodes[from], hydratable) + html_of_all(nodes, from + 1, hydratable)
    } else {
        Seq::empty()
    }
}

/// The markup of a component: the markup of its view between the markers
/// of the component.
pub open spec fn html_of_mountable(mountable: Mountable, hydratable: bool) -> Seq<char>
    decreases mountable, 1nat,
{
    open_marker(Collectable::Component(mountable.name), hydratable) + html_of(
        *mountable.html,
        hydratable,
    ) + close_marker(Collectable::Component(mountable.name), hydratable)
}

} // verus!
