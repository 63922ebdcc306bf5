//! Output that is not hydratable holds no comment: nothing in it can be
//! mistaken for a marker.

use super::model::attr_text;
use super::model::attrs_text;
use super::model::html_of;
use super::model::html_of_all;
use super::model::html_of_mountable;
use super::model::html_of_suspense;
use super::model::html_of_tag;
use super::model::input_attrs_text;
use super::model::tag_close_text;
use super::model::tag_open_text;
use crate::escape::escape_attr;
use crate::escape::escape_attr_char;
use crate::escape::escape_text;
use crate::escape::escape_text_char;
use crate::virtual_dom::vcomp::Mountable;
use crate::virtual_dom::vnode::VNode;
use crate::virtual_dom::vsuspense::VSuspense;
use crate::virtual_dom::vtag::is_void_element;
use crate::virtual_dom::vtag::Attribute;
use crate::virtual_dom::vtag::VTag;
use crate::virtual_dom::vtag::VTagInner;
use vstd::prelude::*;

verus! {

/// Whether `text` holds the four characters that open a comment, and with
/// it every marker.
pub open spec fn holds_comment_opener(text: Seq<char>) -> bool {
    exists|i: int|
        0 <= i && i + 4 <= text.len() && #[trigger] text.subrange(i, i + 4) == "<!--"@
}

/// Whether `text` holds no `<`.
pub open spec fn lt_free(text: Seq<char>) -> bool {
    forall|i: int| 0 <= i < text.len() ==> #[trigger] text[i] != '<'
}

/// Whether no `<` in `text` is followed by `!`, and `text` does not end
/// with `<`.
pub open spec fn tidy(text: Seq<char>) -> bool {
    &&& forall|i: int| 0 <= i && i + 1 < text.len() && text[i] == '<' ==> #[trigger] text[i + 1] != '!'
    &&& text.len() > 0 ==> text.last() != '<'
}

/// Whether the name of an element can open no comment: it holds no `<`
/// and does not begin with `!`.
pub open spec fn plain_tag_name(name: Seq<char>) -> bool {
    lt_free(name) && (name.len() > 0 ==> name[0] != '!')
}

/// Whether no name of an attribute holds `<`.
pub open spec fn plain_attrs(entries: Seq<Attribute>) -> bool {
    forall|i: int| 0 <= i < entries.len() ==> lt_free((#[trigger] entries[i]).name@)
}

/// Whether the names that are written raw for a tree can open no comment:
/// the names of its elements and of their attributes, as far as the tree
/// is serialised.
pub open spec fn plain_names(node: VNode) -> bool
    decreases node, 0nat,
{
    match node {
        VNode::VTag(tag) => plain_names_of_tag(*tag),
        VNode::VText(_) => true,
        VNode::VComp(comp) => plain_names(*comp.mountable.html),
        VNode::VList(list) => all_plain_names(list.children@, 0),
        VNode::VPortal(_) => true,
        VNode::VRef(_) => true,
        VNode::VSuspense(suspense) => plain_names(*suspense.children),
    }
}

/// The same for an element.
pub open spec fn plain_names_of_tag(tag: VTag) -> bool
    decreases tag, 1nat,
{
    &&& plain_attrs(tag.attributes.entries@)
    &&& match tag.inner {
        VTagInner::Other { tag: name, children } => {
            &&& plain_tag_name(name@)
            &&& is_void_element(name@) || all_plain_names(children.children@, 0)
        },
        _ => true,
    }
}

/// The same for the nodes from position `from` on.
pub open spec fn all_plain_names(nodes: Seq<VNode>, from: int) -> bool
    decreases nodes, nodes.len() - from,
{
    if 0 <= from < nodes.len() {
        plain_names(nodes[from]) && all_plain_names(nodes, from + 1)
    } else {
        true
    }
}

/// What the fixed texts of the markup hold.
proof fn lemma_fixed_texts()
    ensures
        "<"@ == seq!['<'],
        "</"@ == seq!['<', '/'],
        ">"@ == seq!['>'],
        " "@ == seq![' '],
        lt_free("=\""@),
        lt_free("\""@),
        lt_free("value"@),
        lt_free("checked"@),
        plain_tag_name("input"@) && "input"@.len() > 0,
        plain_tag_name("textarea"@) && "textarea"@.len() > 0,
        tidy("</textarea>"@),
        "<!--"@ == seq!['<', '!', '-', '-'],
{
    reveal_strlit("<");
    reveal_strlit("</");
    reveal_strlit(">");
    reveal_strlit(" ");
    reveal_strlit("=\"");
    reveal_strlit("\"");
    reveal_strlit("value");
    reveal_strlit("checked");
    reveal_strlit("input");
    reveal_strlit("textarea");
    reveal_strlit("</textarea>");
    reveal_strlit("<!--");
    assert("<"@ =~= seq!['<']);
    assert("</"@ =~= seq!['<', '/']);
    assert(">"@ =~= seq!['>']);
    assert(" "@ =~= seq![' ']);
    assert("<!--"@ =~= seq!['<', '!', '-', '-']);
    assert("</textarea>"@.len() == 11);
}

/// Two texts without `<` make a text without `<`.
proof fn lemma_lt_free_concat(first: Seq<char>, second: Seq<char>)
    requires
        lt_free(first),
        lt_free(second),
    ensures
        lt_free(first + second),
{
}

/// A text without `<` is tidy.
proof fn lemma_lt_free_is_tidy(text: Seq<char>)
    requires
        lt_free(text),
    ensures
        tidy(text),
{
}

/// Two tidy texts make a tidy text.
proof fn lemma_tidy_concat(first: Seq<char>, second: Seq<char>)
    requires
        tidy(first),
        tidy(second),
    ensures
        tidy(first + second),
{
    let both = first + second;
    assert forall|i: int| 0 <= i && i + 1 < both.len() && both[i] == '<' implies #[trigger] both[i
        + 1] != '!' by {
        if i + 1 < first.len() {
            assert(both[i + 1] == first[i + 1]);
        } else if i >= first.len() {
            assert(both[i + 1] == second[i - first.len() + 1]);
        } else {
            assert(both[i] == first.last());
        }
    }
}

/// A `<` before a text that holds none and does not begin with `!` makes
/// a tidy text.
proof fn lemma_tidy_behind_lt(rest: Seq<char>)
    requires
        lt_free(rest),
        rest.len() > 0,
        rest[0] != '!',
    ensures
        tidy(seq!['<'] + rest),
{
    let text = seq!['<'] + rest;
    assert forall|i: int| 0 <= i && i + 1 < text.len() && text[i] == '<' implies #[trigger] text[i
        + 1] != '!' by {
        if i > 0 {
            assert(text[i] == rest[i - 1]);
        }
    }
    assert(text.last() == rest.last());
}

/// A tidy text holds no opener of a comment.
proof fn lemma_tidy_holds_no_comment(text: Seq<char>)
    requires
        tidy(text),
    ensures
        !holds_comment_opener(text),
{
    lemma_fixed_texts();
    assert forall|i: int| 0 <= i && i + 4 <= text.len() implies #[trigger] text.subrange(i, i + 4)
        != "<!--"@ by {
        if text.subrange(i, i + 4) == "<!--"@ {
            assert(text.subrange(i, i + 4)[0] == '<');
            assert(text.subrange(i, i + 4)[1] == '!');
            assert(text[i] == '<');
            assert(text[i + 1] == '!');
        }
    }
}

/// Escaped text holds no `<`.
proof fn lemma_escaped_is_lt_free(text: Seq<char>)
    ensures
        lt_free(escape_text(text)),
        lt_free(escape_attr(text)),
    decreases text.len(),
{
    if text.len() > 0 {
        lemma_escaped_is_lt_free(text.drop_first());
        lemma_lt_free_concat(
            escape_text_char(text[0]),
            escape_text(text.drop_first()),
        );
        lemma_lt_free_concat(
            escape_attr_char(text[0]),
            escape_attr(text.drop_first()),
        );
    }
}

/// The markup of an attribute with a plain name begins with a space and
/// holds no `<`.
proof fn lemma_attr_text(name: Seq<char>, value: Option<Seq<char>>)
    requires
        lt_free(name),
    ensures
        lt_free(attr_text(name, value)),
        attr_text(name, value).len() > 0,
        attr_text(name, value)[0] == ' ',
{
    lemma_fixed_texts();
    match value {
        Some(v) => {
            lemma_escaped_is_lt_free(v);
            lemma_lt_free_concat("=\""@, escape_attr(v));
            lemma_lt_free_concat("=\""@ + escape_attr(v), "\""@);
            lemma_lt_free_concat(" "@, name);
            lemma_lt_free_concat(" "@ + name, "=\""@ + escape_attr(v) + "\""@);
        },
        None => {
            lemma_lt_free_concat(" "@, name);
            lemma_lt_free_concat(" "@ + name, Seq::empty());
        },
    }
}

/// The markup of attributes with plain names holds no `<`, and begins with
/// a space where there is any.
proof fn lemma_attrs_text(entries: Seq<Attribute>, from: int)
    requires
        plain_attrs(entries),
        0 <= from,
    ensures
        lt_free(attrs_text(entries, from)),
        attrs_text(entries, from).len() > 0 ==> attrs_text(entries, from)[0] == ' ',
    decreases entries.len() - from,
{
    if from < entries.len() {
        lemma_attrs_text(entries, from + 1);
        lemma_attr_text(entries[from].name@, Some(entries[from].value@));
        lemma_lt_free_concat(
            attr_text(entries[from].name@, Some(entries[from].value@)),
            attrs_text(entries, from + 1),
        );
    }
}

/// The markup that an input adds for its value and its checked state
/// holds no `<`, and begins with a space where there is any.
proof fn lemma_input_attrs_text(tag: VTag)
    ensures
        lt_free(input_attrs_text(tag)),
        input_attrs_text(tag).len() > 0 ==> input_attrs_text(tag)[0] == ' ',
{
    lemma_fixed_texts();
    match tag.inner {
        VTagInner::Input { value, checked } => {
            let first: Seq<char> = match value {
                Some(v) => attr_text("value"@, Some(v@)),
                None => Seq::empty(),
            };
            let second: Seq<char> = if checked {
                attr_text("checked"@, None)
            } else {
                Seq::empty()
            };
            if value is Some {
                lemma_attr_text("value"@, Some(value->Some_0@));
            }
            if checked {
                lemma_attr_text("checked"@, None);
            }
            lemma_lt_free_concat(first, second);
            assert(input_attrs_text(tag) == first + second);
        },
        _ => {},
    }
}

/// The opening tag of an element with plain names is tidy.
proof fn lemma_tag_open_text(tag: VTag)
    requires
        plain_attrs(tag.attributes.entries@),
        plain_tag_name(tag.spec_tag()),
    ensures
        tidy(tag_open_text(tag)),
{
    lemma_fixed_texts();
    lemma_input_attrs_text(tag);
    lemma_attrs_text(tag.attributes.entries@, 0);
    let name = tag.spec_tag();
    let own = input_attrs_text(tag);
    let others = attrs_text(tag.attributes.entries@, 0);
    let rest = name + own + others + ">"@;
    lemma_lt_free_concat(name, own);
    lemma_lt_free_concat(name + own, others);
    lemma_lt_free_concat(name + own + others, ">"@);
    assert(rest[0] != '!') by {
        if name.len() > 0 {
            assert(rest[0] == name[0]);
        } else if own.len() > 0 {
            assert(rest[0] == own[0]);
        } else if others.len() > 0 {
            assert(rest[0] == others[0]);
        } else {
            assert(rest[0] == '>');
        }
    }
    lemma_tidy_behind_lt(rest);
    assert(tag_open_text(tag) =~= seq!['<'] + rest);
}

/// What closes an element with a plain name is tidy.
proof fn lemma_tag_close_text(tag: VTag)
    requires
        plain_tag_name(tag.spec_tag()),
    ensures
        tidy(tag_close_text(tag)),
{
    lemma_fixed_texts();
    match tag.inner {
        VTagInner::Input { .. } => {},
        VTagInner::Textarea { value } => {
            let content: Seq<char> = match value {
                Some(v) => escape_text(v@),
                None => Seq::empty(),
            };
            if value is Some {
                lemma_escaped_is_lt_free(value->Some_0@);
            }
            lemma_lt_free_is_tidy(content);
            lemma_tidy_concat(content, "</textarea>"@);
        },
        VTagInner::Other { tag: name, .. } => {
            if !is_void_element(name@) {
                let rest = seq!['/'] + name@ + ">"@;
                lemma_lt_free_concat(seq!['/'], name@);
                lemma_lt_free_concat(seq!['/'] + name@, ">"@);
                lemma_tidy_behind_lt(rest);
                assert(tag_close_text(tag) =~= seq!['<'] + rest);
            }
        },
    }
}

/// The markup of a tree with plain names that is not hydratable is tidy.
proof fn lemma_plain_markup_is_tidy(node: VNode)
    requires
        plain_names(node),
    ensures
        tidy(html_of(node, false)),
    decreases node, 0nat,
{
    match node {
        VNode::VTag(tag) => {
            lemma_plain_tag_is_tidy(*tag);
        },
        VNode::VText(text) => {
            lemma_escaped_is_lt_free(text.text@);
            lemma_lt_free_is_tidy(escape_text(text.text@));
        },
        VNode::VComp(comp) => {
            lemma_plain_mountable_is_tidy(comp.mountable);
        },
        VNode::VList(list) => {
            lemma_plain_run_is_tidy(list.children@, 0);
        },
        VNode::VPortal(_) => {},
        VNode::VRef(_) => {},
        VNode::VSuspense(suspense) => {
            lemma_plain_markup_is_tidy(*suspense.children);
            assert(html_of_suspense(suspense, false) =~= html_of(*suspense.children, false));
        },
    }
}

/// The same for an element.
proof fn lemma_plain_tag_is_tidy(tag: VTag)
    requires
        plain_names_of_tag(tag),
    ensures
        tidy(html_of_tag(tag, false)),
    decreases tag, 1nat,
{
    lemma_fixed_texts();
    assert(plain_tag_name(tag.spec_tag()));
    lemma_tag_open_text(tag);
    lemma_tag_close_text(tag);
    let inner: Seq<char> = match tag.inner {
        VTagInner::Other { tag: name, children } => if is_void_element(name@) {
            Seq::empty()
        } else {
            html_of_all(children.children@, 0, false)
        },
        _ => Seq::empty(),
    };
    match tag.inner {
        VTagInner::Other { tag: name, children } => {
            if !is_void_element(name@) {
                lemma_plain_run_is_tidy(children.children@, 0);
            }
        },
        _ => {},
    }
    lemma_tidy_concat(tag_open_text(tag), inner);
    lemma_tidy_concat(tag_open_text(tag) + inner, tag_close_text(tag));
}

/// The same for a component.
proof fn lemma_plain_mountable_is_tidy(mountable: Mountable)
    requires
        plain_names(*mountable.html),
    ensures
        tidy(html_of_mountable(mountable, false)),
    decreases mountable, 1nat,
{
    lemma_plain_markup_is_tidy(mountable.tree());
    assert(html_of_mountable(mountable, false) =~= html_of(mountable.tree(), false));
}

/// The same for a run of nodes.
proof fn lemma_plain_run_is_tidy(nodes: Seq<VNode>, from: int)
    requires
        all_plain_names(nodes, from),
        0 <= from,
    ensures
        tidy(html_of_all(nodes, from, false)),
    decreases nodes, nodes.len() - from,
{
    if from < nodes.len() {
        lemma_plain_markup_is_tidy(nodes[from]);
        lemma_plain_run_is_tidy(nodes, from + 1);
        lemma_tidy_concat(html_of(nodes[from], false), html_of_all(nodes, from + 1, false));
    }
}

/// Output that is not hydratable holds no marker and nothing that could
/// be taken for one: where the names of the elements and attributes of a
/// tree hold no `<` and no element name begins with `!`, the markup of the
/// tree holds no opener of a comment. Text and attribute values are
/// escaped and can open none; names are written as they are.
pub proof fn lemma_plain_output_holds_no_comment(node: VNode)
    requires
        plain_names(node),
    ensures
        !holds_comment_opener(html_of(node, false)),
{
    lemma_plain_markup_is_tidy(node);
    lemma_tidy_holds_no_comment(html_of(node, false));
}

/// The same for the component at the root of a tree.
pub proof fn lemma_plain_output_holds_no_comment_at_root(root: Mountable)
    requires
        plain_names(root.tree()),
    ensures
        !holds_comment_opener(html_of_mountable(root, false)),
{
    lemma_plain_mountable_is_tidy(root);
    lemma_tidy_holds_no_comment(html_of_mountable(root, false));
}

} // verus!
