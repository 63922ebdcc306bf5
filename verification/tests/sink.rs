use yew::html::HtmlResult;
use yew::html::SsrScope;
use yew::server_bundle::SsrSink;
use yew::virtual_dom::vcomp::Mountable;
use yew::virtual_dom::vlist::VList;
use yew::virtual_dom::vnode::VNode;
use yew::virtual_dom::vtext::VText;
use yew::virtual_dom::Collectable;

fn text(s: &str) -> VNode {
    VNode::VText(VText::new(s.to_string()))
}

fn suspended(name: &str, html: VNode) -> Mountable {
    Mountable::from_view(name.to_string(), HtmlResult::Suspended(html))
}

#[test]
fn ready_text_is_not_held_back() {
    let mut sink = SsrSink::new(false);
    sink.push_str("<a>");
    sink.push_text("1 < 2");
    sink.push_double_quoted_attr_value("\"q\"");
    assert!(sink.next_blocker().is_none());
    assert_eq!(sink.finish(), "<a>1 &lt; 2&quot;q&quot;");
}

#[test]
fn text_behind_a_blocker_waits_for_it() {
    let first = suspended("F", text("first"));
    let second = suspended("S", text("second"));
    let mut sink = SsrSink::new(false);
    sink.push_str("a");
    sink.push_suspended(SsrScope::new(&first));
    sink.push_str("b");
    sink.push_suspended(SsrScope::new(&second));
    sink.push_str("c");

    let blocker = sink.next_blocker().unwrap();
    assert_eq!(blocker.mountable.name, "F");
    assert!(!blocker.is_ready());
    let ready = blocker.unblock();
    assert!(ready.is_ready());
    sink.render_unblocked(ready);

    let blocker = sink.next_blocker().unwrap();
    assert_eq!(blocker.mountable.name, "S");
    sink.render_unblocked(blocker.unblock());

    assert!(sink.next_blocker().is_none());
    assert_eq!(sink.finish(), "afirstbsecondc");
}

#[test]
fn output_grows_only_up_to_the_first_blocker() {
    let work = suspended("W", text("w"));
    let mut sink = SsrSink::new(false);
    sink.push_str("a");
    assert_eq!(sink.output().as_str(), "a");
    sink.push_suspended(SsrScope::new(&work));
    sink.push_str("b");
    assert_eq!(sink.output().as_str(), "b");
    assert_eq!(sink.run_to_completion(), "awb");
}

#[test]
fn nested_blockers_drain_before_shelved_ones() {
    let inner = suspended("I", text("i"));
    let inner_tree = VNode::VList(VList::with_children(
        vec![
            text("x"),
            VNode::VComp(yew::virtual_dom::vcomp::VComp::from_mountable(
                probe_id(),
                inner.copy(),
                None,
                None,
            )),
            text("y"),
        ],
        None,
    ));
    let outer = suspended("O", inner_tree);
    let last = suspended("L", text("l"));
    let mut sink = SsrSink::new(false);
    sink.push_str("0");
    sink.push_suspended(SsrScope::new(&outer));
    sink.push_str("1");
    sink.push_suspended(SsrScope::new(&last));
    sink.push_str("2");

    let mut order = Vec::new();
    while let Some(blocker) = sink.next_blocker() {
        order.push(blocker.mountable.name.clone());
        sink.render_unblocked(blocker.unblock());
    }
    assert_eq!(order, vec!["O", "I", "L"]);
    assert_eq!(sink.finish(), "0xiy1l2");
}

fn probe_id() -> std::any::TypeId {
    std::any::TypeId::of::<u8>()
}

#[test]
fn markers_carry_the_kind_and_the_name() {
    let component = Collectable::Component("App".to_string());
    assert_eq!(component.open_start_mark(), "<[");
    assert_eq!(component.close_start_mark(), "</[");
    assert_eq!(component.end_mark(), "]>");
    assert_eq!(Collectable::Suspense.open_start_mark(), "<?");
    assert_eq!(Collectable::Suspense.close_start_mark(), "</?");
    assert_eq!(Collectable::Suspense.end_mark(), ">");

    let mut sink = SsrSink::new(true);
    component.write_open_tag(&mut sink);
    Collectable::Suspense.write_open_tag(&mut sink);
    Collectable::Suspense.write_close_tag(&mut sink);
    component.write_close_tag(&mut sink);
    assert!(sink.hydratable());
    assert_eq!(sink.finish(), "<!--<[App]>--><!--<?>--><!--</?>--><!--</[App]>-->");
}

#[test]
fn a_ready_scope_is_written_and_a_suspended_one_is_queued() {
    let ready = Mountable::from_view("R".to_string(), HtmlResult::Ready(text("r")));
    let waiting = suspended("W", text("w"));
    let mut sink = SsrSink::new(true);
    ready.pre_render().render_to_string(&mut sink);
    waiting.pre_render().render_to_string(&mut sink);
    sink.push_str("!");
    assert_eq!(sink.output().as_str(), "!");
    assert_eq!(sink.run_to_completion(), "<!--<[R]>-->r<!--</[R]>--><!--<[W]>-->w<!--</[W]>-->!");
}
