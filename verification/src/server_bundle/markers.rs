//! Where the hydration markers stand in the markup of a tree.

use super::model::close_marker;
use super::model::html_of;
use super::model::html_of_all;
use super::model::html_of_mountable;
use super::model::html_of_suspense;
use super::model::html_of_tag;
use super::model::open_marker;
use super::model::tag_close_text;
use super::model::tag_open_text;
use crate::escape::escape_text;
use crate::virtual_dom::vcomp::Mountable;
use crate::virtual_dom::vnode::VNode;
use crate::virtual_dom::vsuspense::VSuspense;
use crate::virtual_dom::vtag::is_void_element;
use crate::virtual_dom::vtag::VTag;
use crate::virtual_dom::vtag::VTagInner;
use crate::virtual_dom::Collectable;
use vstd::prelude::*;

verus! {

/// One piece of the markup of a tree.
pub enum Piece {
    /// Markup that is written in every mode.
    Markup(Seq<char>),
    /// The marker that opens a region.
    Open(Collectable),
    /// The marker that closes a region.
    Close(Collectable),
}

/// The markup of a tree in pieces, in document order: the markers of
/// every component and of every suspense boundary apart from the markup
/// between them.
pub open spec fn pieces_of(node: VNode) -> Seq<Piece>
    decreases node, 0nat,
{
    match node {
        VNode::VTag(tag) => pieces_of_tag(*tag),
        VNode::VText(text) => seq![Piece::Markup(escape_text(text.text@))],
        VNode::VComp(comp) => pieces_of_mountable(comp.mountable),
        VNode::VList(list) => pieces_of_all(list.children@, 0),
        VNode::VPortal(_) => Seq::empty(),
        VNode::VRef(_) => Seq::empty(),
        VNode::VSuspense(suspense) => pieces_of_suspense(suspense),
    }
}

/// The pieces of an element.
pub open spec fn pieces_of_tag(tag: VTag) -> Seq<Piece>
    decreases tag, 1nat,
{
    seq![Piece::Markup(tag_open_text(tag))] + (match tag.inner {
        VTagInner::Other { tag: name, children } => if is_void_element(name@) {
            Seq::empty()
        } else {
            pieces_of_all(children.children@, 0)
        },
        _ => Seq::empty(),
    }) + seq![Piece::Markup(tag_close_text(tag))]
}

/// The pieces of a suspense boundary: those of its children between the
/// markers of the boundary.
pub open spec fn pieces_of_suspense(suspense: VSuspense) -> Seq<Piece>
    decreases suspense, 1nat,
{
    seq![Piece::Open(Collectable::Suspense)] + pieces_of(*suspense.children) + seq![
        Piece::Close(Collectable::Suspense),
    ]
}

/// The pieces of a component: those of its view between the markers of
/// the component.
pub open spec fn pieces_of_mountable(mountable: Mountable) -> Seq<Piece>
    decreases mountable, 1nat,
{
    seq![Piece::Open(Collectable::Component(mountable.name))] + pieces_of(*mountable.html) + seq![
        Piece::Close(Collectable::Component(mountable.name)),
    ]
}

/// The pieces of the nodes from position `from` on.
pub open spec fn pieces_of_all(nodes: Seq<VNode>, from: int) -> Seq<Piece>
    decreases nodes, nodes.len() - from,
{
    if 0 <= from < nodes.len() {
        pieces_of(nodes[from]) + pieces_of_all(nodes, from + 1)
    } else {
        Seq::empty()
    }
}

/// The text of one piece: markup as it is, a marker as the comment that
/// it is written as where the output is hydratable, and as nothing where
/// it is not.
pub open spec fn text_of_piece(piece: Piece, hydratable: bool) -> Seq<char> {
    match piece {
        Piece::Markup(text) => text,
        Piece::Open(kind) => open_marker(kind, hydratable),
        Piece::Close(kind) => close_marker(kind, hydratable),
    }
}

/// The text of a run of pieces, one after the other.
pub open spec fn text_of_pieces(pieces: Seq<Piece>, hydratable: bool) -> Seq<char>
    decreases pieces.len(),
{
    if pieces.len() == 0 {
        Seq::empty()
    } else {
        text_of_piece(pieces[0], hydratable) + text_of_pieces(pieces.drop_first(), hydratable)
    }
}

/// The pieces with every marker taken out.
pub open spec fn without_markers(pieces: Seq<Piece>) -> Seq<Piece>
    decreases pieces.len(),
{
    if pieces.len() == 0 {
        Seq::empty()
    } else if pieces[0] is Markup {
        seq![pieces[0]] + without_markers(pieces.drop_first())
    } else {
        without_markers(pieces.drop_first())
    }
}

/// The regions that are open behind a run of pieces that begins with the
/// regions `open` open, the innermost last; nothing where a marker closes
/// a region that is not the innermost open one.
pub open spec fn open_behind(pieces: Seq<Piece>, open: Seq<Collectable>) -> Option<
    Seq<Collectable>,
>
    decreases pieces.len(),
{
    if pieces.len() == 0 {
        Some(open)
    } else {
        match pieces[0] {
            Piece::Markup(_) => open_behind(pieces.drop_first(), open),
            Piece::Open(kind) => open_behind(pieces.drop_first(), open.push(kind)),
            Piece::Close(kind) => if open.len() > 0 && open.last() == kind {
                open_behind(pieces.drop_first(), open.drop_last())
            } else {
                None
            },
        }
    }
}

/// Whether the markers of a run of pieces nest: every marker that closes
/// a region closes the innermost open one, which is of its kind and
/// carries its name, and no region stays open.
pub open spec fn well_nested(pieces: Seq<Piece>) -> bool {
    open_behind(pieces, Seq::empty()) == Some(Seq::<Collectable>::empty())
}

/// The text, the markup without markers and the open regions of two runs
/// of pieces, one after the other.
pub proof fn lemma_pieces_concat(
    first: Seq<Piece>,
    second: Seq<Piece>,
    hydratable: bool,
    open: Seq<Collectable>,
)
    ensures
        text_of_pieces(first + second, hydratable) == text_of_pieces(first, hydratable)
            + text_of_pieces(second, hydratable),
        without_markers(first + second) == without_markers(first) + without_markers(second),
        open_behind(first + second, open) == match open_behind(first, open) {
            Some(between) => open_behind(second, between),
            None => None,
        },
    decreases first.len(),
{
    if first.len() == 0 {
        assert(first + second =~= second);
        assert(text_of_pieces(first, hydratable) + text_of_pieces(second, hydratable)
            =~= text_of_pieces(second, hydratable));
        assert(without_markers(first) + without_markers(second) =~= without_markers(second));
    } else {
        assert((first + second).drop_first() =~= first.drop_first() + second);
        let next = match first[0] {
            Piece::Markup(_) => open,
            Piece::Open(kind) => open.push(kind),
            Piece::Close(_) => open.drop_last(),
        };
        lemma_pieces_concat(first.drop_first(), second, hydratable, next);
        assert(text_of_pieces(first + second, hydratable) =~= text_of_pieces(first, hydratable)
            + text_of_pieces(second, hydratable));
        assert(without_markers(first + second) =~= without_markers(first) + without_markers(
            second,
        ));
    }
}

/// What is left when the markers are taken out holds no marker.
pub proof fn lemma_without_markers(pieces: Seq<Piece>)
    ensures
        forall|i: int|
            0 <= i < without_markers(pieces).len() ==> (#[trigger] without_markers(
                pieces,
            )[i]) is Markup,
    decreases pieces.len(),
{
    if pieces.len() > 0 {
        lemma_without_markers(pieces.drop_first());
    }
}

/// What holds of a single piece.
pub proof fn lemma_one_piece(piece: Piece, hydratable: bool, open: Seq<Collectable>)
    ensures
        text_of_pieces(seq![piece], hydratable) == text_of_piece(piece, hydratable),
        without_markers(seq![piece]) == (if piece is Markup {
            seq![piece]
        } else {
            Seq::empty()
        }),
        open_behind(seq![piece], open) == match piece {
            Piece::Markup(_) => Some(open),
            Piece::Open(kind) => Some(open.push(kind)),
            Piece::Close(kind) => if open.len() > 0 && open.last() == kind {
                Some(open.drop_last())
            } else {
                None
            },
        },
{
    let pieces = seq![piece];
    assert(pieces.drop_first().len() == 0);
    assert(text_of_pieces(pieces.drop_first(), hydratable) =~= Seq::empty());
    assert(without_markers(pieces.drop_first()) =~= Seq::empty());
    assert(text_of_pieces(pieces, hydratable) =~= text_of_piece(piece, hydratable));
    assert(without_markers(pieces) =~= (if piece is Markup {
        seq![piece]
    } else {
        Seq::empty()
    }));
    match piece {
        Piece::Markup(_) => {
            assert(open_behind(pieces.drop_first(), open) == Some(open));
        },
        Piece::Open(kind) => {
            assert(open_behind(pieces.drop_first(), open.push(kind)) == Some(open.push(kind)));
        },
        Piece::Close(kind) => {
            if open.len() > 0 && open.last() == kind {
                assert(open_behind(pieces.drop_first(), open.drop_last()) == Some(
                    open.drop_last(),
                ));
            }
        },
    }
}

/// What a run of pieces stands for in the two modes, with `open` regions
/// open before it and behind it.
pub open spec fn stands_for(
    pieces: Seq<Piece>,
    hydratable_text: Seq<char>,
    plain_text: Seq<char>,
    open: Seq<Collectable>,
) -> bool {
    &&& text_of_pieces(pieces, true) == hydratable_text
    &&& text_of_pieces(pieces, false) == plain_text
    &&& text_of_pieces(without_markers(pieces), true) == plain_text
    &&& open_behind(pieces, open) == Some(open)
}

/// A run of pieces between two pieces of markup.
proof fn lemma_between_markup(
    before: Seq<char>,
    inner: Seq<Piece>,
    after: Seq<char>,
    hydratable_text: Seq<char>,
    plain_text: Seq<char>,
    open: Seq<Collectable>,
)
    requires
        stands_for(inner, hydratable_text, plain_text, open),
    ensures
        stands_for(
            seq![Piece::Markup(before)] + inner + seq![Piece::Markup(after)],
            before + hydratable_text + after,
            before + plain_text + after,
            open,
        ),
{
    let first = seq![Piece::Markup(before)];
    let last = seq![Piece::Markup(after)];
    lemma_one_piece(Piece::Markup(before), true, open);
    lemma_one_piece(Piece::Markup(before), false, open);
    lemma_one_piece(Piece::Markup(after), true, open);
    lemma_one_piece(Piece::Markup(after), false, open);
    lemma_pieces_concat(first, inner, true, open);
    lemma_pieces_concat(first, inner, false, open);
    lemma_pieces_concat(first + inner, last, true, open);
    lemma_pieces_concat(first + inner, last, false, open);
    lemma_pieces_concat(without_markers(first), without_markers(inner), true, open);
    lemma_pieces_concat(
        without_markers(first) + without_markers(inner),
        without_markers(last),
        true,
        open,
    );
}

/// A run of pieces between the markers of a region.
proof fn lemma_between_markers(
    kind: Collectable,
    inner: Seq<Piece>,
    hydratable_text: Seq<char>,
    plain_text: Seq<char>,
    open: Seq<Collectable>,
)
    requires
        stands_for(inner, hydratable_text, plain_text, open.push(kind)),
    ensures
        stands_for(
            seq![Piece::Open(kind)] + inner + seq![Piece::Close(kind)],
            open_marker(kind, true) + hydratable_text + close_marker(kind, true),
            open_marker(kind, false) + plain_text + close_marker(kind, false),
            open,
        ),
{
    let first = seq![Piece::Open(kind)];
    let last = seq![Piece::Close(kind)];
    lemma_one_piece(Piece::Open(kind), true, open);
    lemma_one_piece(Piece::Open(kind), false, open);
    lemma_one_piece(Piece::Close(kind), true, open.push(kind));
    lemma_one_piece(Piece::Close(kind), false, open.push(kind));
    assert(open.push(kind).drop_last() =~= open);
    lemma_pieces_concat(first, inner, true, open);
    lemma_pieces_concat(first, inner, false, open);
    lemma_pieces_concat(first + inner, last, true, open);
    lemma_pieces_concat(first + inner, last, false, open);
    assert(without_markers(first + inner + last) =~= without_markers(inner));
    assert(open_marker(kind, false) + plain_text + close_marker(kind, false) =~= plain_text);
}

/// The pieces of a tree stand for its markup in both modes: with the
/// markers written they are the hydratable markup, without them the
/// markup that is not hydratable, and the markers nest.
pub proof fn lemma_pieces_of(node: VNode, open: Seq<Collectable>)
    ensures
        stands_for(pieces_of(node), html_of(node, true), html_of(node, false), open),
    decreases node, 0nat,
{
    match node {
        VNode::VTag(tag) => {
            lemma_pieces_of_tag(*tag, open);
        },
        VNode::VText(text) => {
            lemma_one_piece(Piece::Markup(escape_text(text.text@)), true, open);
            lemma_one_piece(Piece::Markup(escape_text(text.text@)), false, open);
        },
        VNode::VComp(comp) => {
            lemma_pieces_of_mountable(comp.mountable, open);
        },
        VNode::VList(list) => {
            lemma_pieces_of_all(list.children@, 0, open);
        },
        VNode::VPortal(_) => {},
        VNode::VRef(_) => {},
        VNode::VSuspense(suspense) => {
            lemma_pieces_of_suspense(suspense, open);
        },
    }
}

/// The same for an element.
pub proof fn lemma_pieces_of_tag(tag: VTag, open: Seq<Collectable>)
    ensures
        stands_for(pieces_of_tag(tag), html_of_tag(tag, true), html_of_tag(tag, false), open),
    decreases tag, 1nat,
{
    match tag.inner {
        VTagInner::Other { tag: name, children } => {
            if !is_void_element(name@) {
                lemma_pieces_of_all(children.children@, 0, open);
                lemma_between_markup(
                    tag_open_text(tag),
                    pieces_of_all(children.children@, 0),
                    tag_close_text(tag),
                    html_of_all(children.children@, 0, true),
                    html_of_all(children.children@, 0, false),
                    open,
                );
            } else {
                lemma_between_markup(
                    tag_open_text(tag),
                    Seq::empty(),
                    tag_close_text(tag),
                    Seq::empty(),
                    Seq::empty(),
                    open,
                );
            }
        },
        _ => {
            lemma_between_markup(
                tag_open_text(tag),
                Seq::empty(),
                tag_close_text(tag),
                Seq::empty(),
                Seq::empty(),
                open,
            );
        },
    }
}

/// The same for a suspense boundary.
pub proof fn lemma_pieces_of_suspense(suspense: VSuspense, open: Seq<Collectable>)
    ensures
        stands_for(
            pieces_of_suspense(suspense),
            html_of_suspense(suspense, true),
            html_of_suspense(suspense, false),
            open,
        ),
    decreases suspense, 1nat,
{
    lemma_pieces_of(*suspense.children, open.push(Collectable::Suspense));
    lemma_between_markers(
        Collectable::Suspense,
        pieces_of(*suspense.children),
        html_of(*suspense.children, true),
        html_of(*suspense.children, false),
        open,
    );
}

/// The same for a component.
pub proof fn lemma_pieces_of_mountable(mountable: Mountable, open: Seq<Collectable>)
    ensures
        stands_for(
            pieces_of_mountable(mountable),
            html_of_mountable(mountable, true),
            html_of_mountable(mountable, false),
            open,
        ),
    decreases mountable, 1nat,
{
    let kind = Collectable::Component(mountable.name);
    lemma_pieces_of(mountable.tree(), open.push(kind));
    lemma_between_markers(
        kind,
        pieces_of(mountable.tree()),
        html_of(mountable.tree(), true),
        html_of(mountable.tree(), false),
        open,
    );
}

/// The same for a run of nodes.
pub proof fn lemma_pieces_of_all(nodes: Seq<VNode>, from: int, open: Seq<Collectable>)
    requires
        0 <= from,
    ensures
        stands_for(
            pieces_of_all(nodes, from),
            html_of_all(nodes, from, true),
            html_of_all(nodes, from, false),
            open,
        ),
    decreases nodes, nodes.len() - from,
{
    if from < nodes.len() {
        lemma_pieces_of(nodes[from], open);
        lemma_pieces_of_all(nodes, from + 1, open);
        let first = pieces_of(nodes[from]);
        let rest = pieces_of_all(nodes, from + 1);
        lemma_pieces_concat(first, rest, true, open);
        lemma_pieces_concat(first, rest, false, open);
        lemma_pieces_concat(without_markers(first), without_markers(rest), true, open);
    }
}

/// Hydratable output and output that is not hydratable differ in the
/// markers alone. The hydratable markup of a tree is its pieces with
/// every marker written as its comment; taking the markers out leaves the
/// markup that is not hydratable, which holds none; and the markers nest,
/// each closing marker matching the innermost open one in kind and name.
pub proof fn lemma_hydration_adds_markers_only(node: VNode)
    ensures
        html_of(node, true) == text_of_pieces(pieces_of(node), true),
        html_of(node, false) == text_of_pieces(without_markers(pieces_of(node)), true),
        html_of(node, false) == text_of_pieces(pieces_of(node), false),
        well_nested(pieces_of(node)),
{
    lemma_pieces_of(node, Seq::empty());
}

/// The same for the component at the root of a tree.
pub proof fn lemma_hydration_adds_markers_only_at_root(root: Mountable)
    ensures
        html_of_mountable(root, true) == text_of_pieces(pieces_of_mountable(root), true),
        html_of_mountable(root, false) == text_of_pieces(
            without_markers(pieces_of_mountable(root)),
            true,
        ),
        html_of_mountable(root, false) == text_of_pieces(pieces_of_mountable(root), false),
        well_nested(pieces_of_mountable(root)),
{
    lemma_pieces_of_mountable(root, Seq::empty());
}

} // verus!
