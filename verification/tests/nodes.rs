use yew::escape::escape_for_double_quoted_attribute;
use yew::escape::escape_for_text;
use yew::virtual_dom::vlist::VList;
use yew::virtual_dom::vnode::VNode;
use yew::virtual_dom::vtag::check_void_element;
use yew::virtual_dom::vtag::Attributes;
use yew::virtual_dom::vtag::NodeError;
use yew::virtual_dom::vtag::VTag;
use yew::virtual_dom::vtext::VText;

const VOID_ELEMENTS: [&str; 14] = [
    "area", "base", "br", "col", "embed", "hr", "img", "input", "link", "meta", "param", "source",
    "track", "wbr",
];

fn text(s: &str) -> VNode {
    VNode::VText(VText::new(s.to_string()))
}

#[test]
fn void_elements_reject_children() {
    for name in VOID_ELEMENTS {
        assert!(check_void_element(name));
        let made = VTag::with_children(name.to_string(), VList::with_children(vec![text("x")], None));
        assert!(matches!(made, Err(NodeError::VoidElementWithChildren)));
        let mut node = VTag::new(name.to_string());
        assert!(matches!(node.add_child(text("x")), Err(NodeError::VoidElementWithChildren)));
        let html = VNode::VTag(Box::new(node)).render(false).unwrap();
        assert_eq!(html, format!("<{}>", name));
    }
}

#[test]
fn void_elements_without_children_are_accepted() {
    for name in VOID_ELEMENTS {
        assert!(VTag::with_children(name.to_string(), VList::new()).is_ok());
    }
}

#[test]
fn other_elements_take_children() {
    assert!(!check_void_element("div"));
    assert!(!check_void_element("textarea"));
    assert!(!check_void_element("Br"));
    let mut node = VTag::new("div".to_string());
    assert!(node.add_child(text("a")).is_ok());
    assert!(node.add_child(text("b")).is_ok());
    assert_eq!(VNode::VTag(Box::new(node)).render(false).unwrap(), "<div>ab</div>");
}

#[test]
fn textarea_rejects_children_and_renders_its_value() {
    let made = VTag::with_children("textarea".to_string(), VList::with_children(vec![text("x")], None));
    assert!(matches!(made, Err(NodeError::TextareaWithChildren)));
    let mut node = VTag::new("textarea".to_string());
    assert!(matches!(node.add_child(text("x")), Err(NodeError::TextareaWithChildren)));
    assert_eq!(node.tag(), "textarea");
    node.set_value(Some("a < b".to_string()));
    node.add_attribute("rows".to_string(), "2".to_string());
    assert_eq!(
        VNode::VTag(Box::new(node)).render(false).unwrap(),
        "<textarea rows=\"2\">a &lt; b</textarea>"
    );
}

#[test]
fn input_renders_value_and_checked_first() {
    let mut node = VTag::new("input".to_string());
    node.add_attribute("type".to_string(), "checkbox".to_string());
    node.set_value(Some("say \"hi\"".to_string()));
    node.set_checked(true);
    assert!(node.checked());
    assert_eq!(node.value().map(|v| v.as_str()), Some("say \"hi\""));
    assert_eq!(
        VNode::VTag(Box::new(node)).render(false).unwrap(),
        "<input value=\"say &quot;hi&quot;\" checked type=\"checkbox\">"
    );
}

#[test]
fn attributes_keep_one_value_per_name() {
    let mut attrs = Attributes::new();
    attrs.set("class".to_string(), "a".to_string());
    attrs.set("id".to_string(), "x".to_string());
    attrs.set("class".to_string(), "b".to_string());
    assert_eq!(attrs.len(), 2);
    assert_eq!(attrs.get("class").map(|v| v.as_str()), Some("b"));
    assert_eq!(attrs.get("id").map(|v| v.as_str()), Some("x"));
    assert_eq!(attrs.get("href"), None);
    assert_eq!(attrs.find("id"), Some(1));

    let mut node = VTag::new("a".to_string());
    node.add_attribute("class".to_string(), "a".to_string());
    node.add_attribute("href".to_string(), "?a=1&b=2".to_string());
    node.add_attribute("class".to_string(), "b".to_string());
    assert_eq!(
        VNode::VTag(Box::new(node)).render(false).unwrap(),
        "<a class=\"b\" href=\"?a=1&amp;b=2\"></a>"
    );
}

#[test]
fn text_is_escaped_for_bodies() {
    assert_eq!(escape_for_text("a<b>&\"c\"'"), "a&lt;b&gt;&amp;\"c\"'");
    assert_eq!(escape_for_text(""), "");
    assert_eq!(escape_for_text("&amp;"), "&amp;amp;");
    assert_eq!(text("1 < 2 && 3 > 2").render(true).unwrap(), "1 &lt; 2 &amp;&amp; 3 &gt; 2");
}

#[test]
fn attribute_values_are_escaped_for_double_quotes() {
    assert_eq!(escape_for_double_quoted_attribute("a<b>&\"c\"'"), "a&lt;b&gt;&amp;&quot;c&quot;'");
    assert_eq!(escape_for_double_quoted_attribute("&quot;"), "&amp;quot;");
}

#[test]
fn escaping_round_trips_through_unescaping() {
    for input in ["<", ">", "&", "\"", "<a href=\"x?y&z\">t</a>", "&amp;&lt;&gt;&quot;", "plain", "é<ü>&\"ß\""] {
        let body = text(input).render(false).unwrap();
        assert_eq!(html_escape::decode_html_entities(&body), input);
        let attr = escape_for_double_quoted_attribute(input);
        assert_eq!(html_escape::decode_html_entities(&attr), input);
    }
}

#[test]
fn text_nodes_compare_by_text() {
    assert!(VText::new("a".to_string()) == VText::new("a".to_string()));
    assert!(VText::new("a".to_string()) != VText::new("b".to_string()));
}
