use std::rc::Rc;

use yew::html::BaseComponent;
use yew::html::HtmlResult;
use yew::server_bundle::RenderError;
use yew::server_renderer::ServerRenderer;
use yew::virtual_dom::vcomp::Mountable;
use yew::virtual_dom::vcomp::VComp;
use yew::virtual_dom::vlist::VList;
use yew::virtual_dom::vnode::VNode;
use yew::virtual_dom::vsuspense::VSuspense;
use yew::virtual_dom::vtag::VTag;
use yew::virtual_dom::vtext::VText;
use yew::virtual_dom::NodeRef;

fn text(s: &str) -> VNode {
    VNode::VText(VText::new(s.to_string()))
}

fn tag(name: &str, children: Vec<VNode>) -> VNode {
    let node = VTag::with_children(name.to_string(), VList::with_children(children, None)).unwrap();
    VNode::VTag(Box::new(node))
}

struct ChildProps {
    name: String,
}

struct Child;

impl BaseComponent for Child {
    type Message = ();
    type Properties = ChildProps;

    fn name() -> String {
        "Child".to_string()
    }

    fn create(_props: &ChildProps) -> Self {
        Child
    }

    fn view(&self, props: &ChildProps) -> HtmlResult {
        HtmlResult::Ready(tag("div", vec![text("Hello, "), text(&props.name), text("!")]))
    }

    fn update(&mut self, _props: &ChildProps, _msg: ()) -> bool {
        false
    }

    fn changed(&mut self, _props: &ChildProps) -> bool {
        true
    }

    fn rendered(&mut self, _props: &ChildProps, _first_render: bool) {}

    fn destroy(&mut self, _props: &ChildProps) {}
}

fn child(name: &str) -> VNode {
    VNode::VComp(VComp::new::<Child>(Rc::new(ChildProps { name: name.to_string() }), None, None))
}

struct Comp;

impl BaseComponent for Comp {
    type Message = ();
    type Properties = ();

    fn name() -> String {
        "Comp".to_string()
    }

    fn create(_props: &()) -> Self {
        Comp
    }

    fn view(&self, _props: &()) -> HtmlResult {
        HtmlResult::Ready(tag("div", vec![child("Jane"), child("John"), child("Josh")]))
    }

    fn update(&mut self, _props: &(), _msg: ()) -> bool {
        false
    }

    fn changed(&mut self, _props: &()) -> bool {
        true
    }

    fn rendered(&mut self, _props: &(), _first_render: bool) {}

    fn destroy(&mut self, _props: &()) {}
}

#[test]
fn test_props() {
    let renderer = ServerRenderer::<Comp>::new().hydratable(false);

    let s = renderer.render().unwrap();

    assert_eq!(
        s,
        "<div><div>Hello, Jane!</div><div>Hello, John!</div><div>Hello, Josh!</div></div>"
    );
}

#[test]
fn test_props_hydratable_by_default() {
    let s = ServerRenderer::<Comp>::new().render().unwrap();

    assert_eq!(
        s,
        "<!--<[Comp]>--><div>\
         <!--<[Child]>--><div>Hello, Jane!</div><!--</[Child]>-->\
         <!--<[Child]>--><div>Hello, John!</div><!--</[Child]>-->\
         <!--<[Child]>--><div>Hello, Josh!</div><!--</[Child]>-->\
         </div><!--</[Comp]>-->"
    );
}

struct Abc;

impl BaseComponent for Abc {
    type Message = ();
    type Properties = ();

    fn name() -> String {
        "Abc".to_string()
    }

    fn create(_props: &()) -> Self {
        Abc
    }

    fn view(&self, _props: &()) -> HtmlResult {
        HtmlResult::Ready(text("abc"))
    }

    fn update(&mut self, _props: &(), _msg: ()) -> bool {
        false
    }

    fn changed(&mut self, _props: &()) -> bool {
        true
    }

    fn rendered(&mut self, _props: &(), _first_render: bool) {}

    fn destroy(&mut self, _props: &()) {}
}

#[test]
fn test_simple_str() {
    let s = ServerRenderer::<Abc>::new().hydratable(false).render().unwrap();

    assert_eq!(s, r#"abc"#);
}

fn erased(name: &str, html: VNode, suspended: bool) -> VNode {
    let view = if suspended { HtmlResult::Suspended(html) } else { HtmlResult::Ready(html) };
    let any = VComp::new::<Abc>(Rc::new(()), None, None);
    VNode::VComp(VComp::from_mountable(
        any.type_id,
        Mountable::from_view(name.to_string(), view),
        None,
        None,
    ))
}

#[test]
fn nested_suspense_keeps_document_order() {
    let inner = erased("Two", text("two"), true);
    let outer = erased("One", VNode::VList(VList::with_children(vec![inner, text("one")], None)), true);
    let tree = tag("a", vec![text("A"), outer, text("C"), tag("b", vec![text("B")])]);

    assert_eq!(tree.render(false).unwrap(), "<a>AtwooneC<b>B</b></a>");
    assert_eq!(
        tree.render(true).unwrap(),
        "<a>A<!--<[One]>--><!--<[Two]>-->two<!--</[Two]>-->one<!--</[One]>-->C<b>B</b></a>"
    );
}

#[test]
fn siblings_suspend_in_turn() {
    let first = erased(
        "F",
        VNode::VList(VList::with_children(
            vec![text("f1"), erased("G", text("g"), true), text("f2"), erased("H", text("h"), true), text("f3")],
            None,
        )),
        true,
    );
    let second = erased("S", text("s"), true);
    let tree = VNode::VList(VList::with_children(
        vec![text("0"), first, text("1"), second, text("2")],
        None,
    ));

    assert_eq!(tree.render(false).unwrap(), "0f1gf2hf31s2");
}

#[test]
fn suspended_root_is_rendered() {
    let root = Mountable::from_view("Root".to_string(), HtmlResult::Suspended(text("late")));
    assert_eq!(root.render(false).unwrap(), "late");
    assert_eq!(root.render(true).unwrap(), "<!--<[Root]>-->late<!--</[Root]>-->");
}

#[test]
fn suspense_boundary_markers_only_when_hydratable() {
    let boundary = VNode::VSuspense(VSuspense::new(
        tag("p", vec![text("ready")]),
        text("loading"),
        false,
        None,
    ));

    assert_eq!(boundary.render(false).unwrap(), "<p>ready</p>");
    assert_eq!(boundary.render(true).unwrap(), "<!--<?>--><p>ready</p><!--</?>-->");
}

#[test]
fn live_reference_is_refused() {
    let tree = tag("div", vec![text("a"), VNode::VRef(NodeRef { id: 7 })]);
    assert!(!tree.is_renderable());
    assert_eq!(tree.render(false), Err(RenderError::Unrenderable));
}

#[test]
fn portal_is_not_serialised() {
    let portal = yew::virtual_dom::vportal::VPortal::new(text("elsewhere"), NodeRef { id: 1 });
    let tree = tag("div", vec![text("a"), VNode::VPortal(portal), text("b")]);
    assert_eq!(tree.render(true).unwrap(), "<div>ab</div>");
}

struct Broken;

impl BaseComponent for Broken {
    type Message = ();
    type Properties = ();

    fn name() -> String {
        "Broken".to_string()
    }

    fn create(_props: &()) -> Self {
        Broken
    }

    fn view(&self, _props: &()) -> HtmlResult {
        HtmlResult::Ready(VNode::VRef(NodeRef { id: 3 }))
    }

    fn update(&mut self, _props: &(), _msg: ()) -> bool {
        false
    }

    fn changed(&mut self, _props: &()) -> bool {
        true
    }

    fn rendered(&mut self, _props: &(), _first_render: bool) {}

    fn destroy(&mut self, _props: &()) {}
}

#[test]
fn render_to_string_writes_behind_what_is_there() {
    let mut out = String::from("<!doctype html>");
    assert_eq!(ServerRenderer::<Abc>::new().hydratable(false).render_to_string(&mut out), Ok(()));
    assert_eq!(out, "<!doctype html>abc");
    assert_eq!(
        ServerRenderer::<Abc>::with_props(()).render_to_string(&mut out),
        Ok(())
    );
    assert_eq!(out, "<!doctype html>abc<!--<[Abc]>-->abc<!--</[Abc]>-->");
}

#[test]
fn an_unrenderable_view_writes_nothing() {
    let mut out = String::from("kept");
    assert_eq!(
        ServerRenderer::<Broken>::new().render_to_string(&mut out),
        Err(RenderError::Unrenderable)
    );
    assert_eq!(out, "kept");
    assert_eq!(ServerRenderer::<Broken>::new().render(), Err(RenderError::Unrenderable));
}

fn without_comments(markup: &str) -> String {
    let mut out = String::new();
    let mut rest = markup;
    while let Some(start) = rest.find("<!--") {
        out.push_str(&rest[..start]);
        let end = rest[start..].find("-->").unwrap();
        rest = &rest[start + end + 3..];
    }
    out.push_str(rest);
    out
}

#[test]
fn hydratable_output_without_its_markers_is_the_plain_output() {
    let inner = erased("Two", tag("i", vec![text("a < b")]), true);
    let boundary = VNode::VSuspense(VSuspense::new(
        VNode::VList(VList::with_children(vec![inner, text("x")], None)),
        text("loading"),
        true,
        None,
    ));
    let outer = erased("One", tag("p", vec![boundary, text("y")]), false);
    let tree = tag("div", vec![text("0"), outer, child("Jane")]);

    let plain = tree.render(false).unwrap();
    let hydratable = tree.render(true).unwrap();
    assert_eq!(plain, "<div>0<p><i>a &lt; b</i>xy</p><div>Hello, Jane!</div></div>");
    assert!(!plain.contains("<!--"));
    assert_eq!(without_comments(&hydratable), plain);
    assert_eq!(
        hydratable,
        "<div>0<!--<[One]>--><p><!--<?>--><!--<[Two]>--><i>a &lt; b</i><!--</[Two]>-->x<!--</?>-->y</p>\
         <!--</[One]>--><!--<[Child]>--><div>Hello, Jane!</div><!--</[Child]>--></div>"
    );
}

#[test]
fn a_raw_element_name_can_open_a_comment() {
    let odd = VTag::with_children("!--x".to_string(), VList::new()).unwrap();
    let plain = VNode::VTag(Box::new(odd)).render(false).unwrap();
    assert_eq!(plain, "<!--x></!--x>");
    assert!(plain.contains("<!--"));
}
