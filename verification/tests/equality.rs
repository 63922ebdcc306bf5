use yew::virtual_dom::key::Key;
use yew::virtual_dom::vlist::VList;
use yew::virtual_dom::vnode::VNode;
use yew::virtual_dom::vportal::VPortal;
use yew::virtual_dom::vsuspense::VSuspense;
use yew::virtual_dom::vtag::Attributes;
use yew::virtual_dom::vtag::VTag;
use yew::virtual_dom::vtext::VText;
use yew::virtual_dom::NodeRef;

fn text(s: &str) -> VNode {
    VNode::VText(VText::new(s.to_string()))
}

fn link(first: (&str, &str), second: (&str, &str), child: &str) -> VNode {
    let mut node = VTag::new("a".to_string());
    node.add_attribute(first.0.to_string(), first.1.to_string());
    node.add_attribute(second.0.to_string(), second.1.to_string());
    node.add_child(text(child)).unwrap();
    VNode::VTag(Box::new(node))
}

#[test]
fn attribute_order_does_not_count() {
    let a = link(("href", "/"), ("class", "x"), "home");
    let b = link(("class", "x"), ("href", "/"), "home");
    assert!(a == b);
    assert!(a != link(("class", "y"), ("href", "/"), "home"));
    assert!(a != link(("class", "x"), ("id", "/"), "home"));
    assert!(a != link(("class", "x"), ("href", "/"), "away"));
}

#[test]
fn attribute_mappings_compare_by_content() {
    let mut a = Attributes::new();
    a.set("k".to_string(), "1".to_string());
    let mut b = Attributes::new();
    assert!(!a.same_as(&b));
    assert!(!b.same_as(&a));
    b.set("k".to_string(), "2".to_string());
    assert!(!a.same_as(&b));
    b.set("k".to_string(), "1".to_string());
    assert!(a.same_as(&b));
}

#[test]
fn kinds_and_parts_must_match() {
    assert!(text("a") == text("a"));
    assert!(text("a") != text("b"));
    assert!(text("a") != VNode::VRef(NodeRef { id: 1 }));
    assert!(VNode::VRef(NodeRef { id: 1 }) == VNode::VRef(NodeRef { id: 1 }));
    assert!(VNode::VRef(NodeRef { id: 1 }) != VNode::VRef(NodeRef { id: 2 }));

    let list = |items: Vec<&str>, key: Option<Key>| {
        VNode::VList(VList::with_children(items.into_iter().map(text).collect(), key))
    };
    assert!(list(vec!["a", "b"], None) == list(vec!["a", "b"], None));
    assert!(list(vec!["a", "b"], None) != list(vec!["a"], None));
    assert!(list(vec!["a", "b"], None) != list(vec!["a", "c"], None));
    assert!(list(vec!["a"], Some(Key::new(1))) != list(vec!["a"], Some(Key::new(2))));
    assert!(list(vec![], None) == list(vec![], None));

    let portal = |s: &str, host: u64| VNode::VPortal(VPortal::new(text(s), NodeRef { id: host }));
    assert!(portal("a", 1) == portal("a", 1));
    assert!(portal("a", 1) != portal("a", 2));
    assert!(portal("a", 1) != portal("b", 1));

    let boundary = |c: &str, f: &str, s: bool| VNode::VSuspense(VSuspense::new(text(c), text(f), s, None));
    assert!(boundary("a", "f", false) == boundary("a", "f", false));
    assert!(boundary("a", "f", false) != boundary("a", "f", true));
    assert!(boundary("a", "f", false) != boundary("a", "g", false));
    assert!(boundary("a", "f", false) != boundary("b", "f", false));
}

#[test]
fn inputs_compare_value_and_checked() {
    let input = |value: Option<&str>, checked: bool| {
        let mut node = VTag::new("input".to_string());
        node.set_value(value.map(|v| v.to_string()));
        node.set_checked(checked);
        VNode::VTag(Box::new(node))
    };
    assert!(input(Some("a"), true) == input(Some("a"), true));
    assert!(input(Some("a"), true) != input(Some("a"), false));
    assert!(input(Some("a"), true) != input(None, true));
    assert!(input(None, false) != VNode::VTag(Box::new(VTag::new("textarea".to_string()))));
    assert!(VNode::VTag(Box::new(VTag::new("br".to_string()))) != VNode::VTag(Box::new(VTag::new("hr".to_string()))));
}
