use std::rc::Rc;

use yew::html::scope::Lifecycle;
use yew::html::scope::Scope;
use yew::html::BaseComponent;
use yew::html::HtmlResult;
use yew::renderer::set_custom_panic_hook;
use yew::renderer::set_default_panic_hook;
use yew::renderer::AppHandle;
use yew::renderer::HookAction;
use yew::renderer::PanicHook;
use yew::renderer::Renderer;
use yew::virtual_dom::vcomp::PropsWrapper;
use yew::virtual_dom::vcomp::VChild;
use yew::virtual_dom::vcomp::VComp;
use yew::virtual_dom::key::Key;
use yew::virtual_dom::vnode::VNode;
use yew::virtual_dom::vtext::VText;
use yew::virtual_dom::NodeRef;

#[derive(Default, PartialEq, Debug)]
struct CounterProps {
    start: u32,
}

struct Counter {
    count: u32,
}

impl BaseComponent for Counter {
    type Message = u32;
    type Properties = CounterProps;

    fn name() -> String {
        "Counter".to_string()
    }

    fn create(props: &CounterProps) -> Self {
        Counter { count: props.start }
    }

    fn view(&self, _props: &CounterProps) -> HtmlResult {
        HtmlResult::Ready(VNode::VText(VText::new(format!("{}", self.count))))
    }

    fn update(&mut self, _props: &CounterProps, msg: u32) -> bool {
        self.count += msg;
        msg != 0
    }

    fn changed(&mut self, props: &CounterProps) -> bool {
        self.count = props.start;
        true
    }

    fn rendered(&mut self, _props: &CounterProps, _first_render: bool) {}

    fn destroy(&mut self, _props: &CounterProps) {}
}

struct Other;

impl BaseComponent for Other {
    type Message = ();
    type Properties = ();

    fn name() -> String {
        String::new()
    }

    fn create(_props: &()) -> Self {
        Other
    }

    fn view(&self, _props: &()) -> HtmlResult {
        HtmlResult::Suspended(VNode::VText(VText::new("later".to_string())))
    }

    fn update(&mut self, _props: &(), _msg: ()) -> bool {
        false
    }

    fn changed(&mut self, _props: &()) -> bool {
        false
    }

    fn rendered(&mut self, _props: &(), _first_render: bool) {}

    fn destroy(&mut self, _props: &()) {}
}

fn shown(html: HtmlResult) -> String {
    match html {
        HtmlResult::Ready(node) => node.render(false).unwrap(),
        HtmlResult::Suspended(node) => node.render(false).unwrap(),
    }
}

#[test]
fn scope_walks_through_its_lifecycle() {
    let mut scope: Scope<Counter> = Scope::new(None, Rc::new(CounterProps { start: 3 }));
    assert_eq!(scope.lifecycle(), Lifecycle::Created);
    assert!(!scope.is_borrowed());
    assert_eq!(scope.pending_messages(), 0);

    assert_eq!(shown(scope.view()), "3");
    assert_eq!(scope.lifecycle(), Lifecycle::Rendering);
    scope.rendered();
    assert_eq!(scope.lifecycle(), Lifecycle::Ready);

    assert_eq!(scope.update(), None);
    scope.send_message(2);
    scope.send_message(0);
    scope.send_message(5);
    assert_eq!(scope.pending_messages(), 3);
    assert_eq!(scope.update(), Some(true));
    assert_eq!(scope.update(), Some(false));
    assert_eq!(scope.pending_messages(), 1);
    assert_eq!(shown(scope.view()), "5");
    scope.rendered();

    assert!(scope.reuse(Rc::new(CounterProps { start: 10 })));
    assert_eq!(shown(scope.view()), "10");
    scope.rendered();

    assert!(scope.can_destroy());
    scope.destroy();
    assert_eq!(scope.lifecycle(), Lifecycle::Destroyed);
    assert_eq!(scope.pending_messages(), 0);
    assert!(!scope.can_destroy());
}

#[test]
fn borrowed_scope_cannot_be_destroyed() {
    let mut scope: Scope<Counter> = Scope::new(Some(NodeRef { id: 1 }), Rc::new(CounterProps::default()));
    scope.acquire();
    scope.acquire();
    assert_eq!(scope.borrow_count(), 2);
    assert!(scope.is_borrowed());
    assert!(!scope.can_destroy());
    scope.release();
    assert!(!scope.can_destroy());
    scope.release();
    assert!(!scope.is_borrowed());
    assert!(scope.can_destroy());
}

#[test]
fn mount_hands_the_properties_to_a_ready_scope() {
    let wrapper = PropsWrapper::<Counter>::new(Rc::new(CounterProps { start: 7 }));
    let second = wrapper.copy();
    assert!(Rc::ptr_eq(&wrapper.props, &second.props));
    let (mut scope, html) = wrapper.mount(Some(NodeRef { id: 4 }));
    assert_eq!(scope.lifecycle(), Lifecycle::Ready);
    assert_eq!(shown(html), "7");

    let update = PropsWrapper::<Counter>::new(Rc::new(CounterProps { start: 8 }));
    assert!(update.reuse(&mut scope));
    assert_eq!(shown(scope.view()), "8");
    assert_eq!(second.props.start, 7);
}

#[test]
fn default_panic_hook_is_installed_once() {
    let mut hook = PanicHook::new();
    assert!(!hook.installed());
    assert_eq!(set_default_panic_hook(&mut hook), HookAction::InstallDefault);
    assert!(hook.installed());
    assert_eq!(set_default_panic_hook(&mut hook), HookAction::Keep);
    assert!(hook.installed());
}

#[test]
fn custom_panic_hook_keeps_the_default_out() {
    let mut hook = PanicHook::new();
    set_custom_panic_hook(&mut hook);
    assert!(hook.installed());
    assert_eq!(set_default_panic_hook(&mut hook), HookAction::Keep);
    set_custom_panic_hook(&mut hook);
    assert!(hook.installed());
}

#[test]
fn renderer_mounts_the_root_and_installs_the_hook() {
    let mut hook = PanicHook::new();
    let renderer = Renderer::<Counter>::with_root_and_props(NodeRef { id: 0 }, CounterProps { start: 1 });
    let (app, html, action) = renderer.render(&mut hook);
    assert_eq!(action, HookAction::InstallDefault);
    assert_eq!(shown(html), "1");
    assert_eq!(app.scope.lifecycle(), Lifecycle::Ready);
    assert!(app.can_destroy());
    let scope = app.destroy();
    assert_eq!(scope.lifecycle(), Lifecycle::Destroyed);

    let (again, html, action) = Renderer::<Counter>::with_root(NodeRef { id: 0 }).render(&mut hook);
    assert_eq!(action, HookAction::Keep);
    assert_eq!(shown(html), "0");
    assert!(again.can_destroy());
}

#[test]
fn app_handle_mounts_with_shared_properties() {
    let props = Rc::new(CounterProps { start: 9 });
    let (app, html) = AppHandle::<Counter>::mount_with_props(NodeRef { id: 2 }, props.clone());
    assert_eq!(shown(html), "9");
    assert_eq!(app.scope.lifecycle(), Lifecycle::Ready);
    assert_eq!(Rc::strong_count(&props), 2);
}

#[test]
fn component_nodes_compare_by_component_type() {
    let a = VComp::new::<Counter>(Rc::new(CounterProps { start: 1 }), None, None);
    let b = VComp::new::<Counter>(Rc::new(CounterProps { start: 2 }), None, Some(Key::new(3)));
    let c = VComp::new::<Other>(Rc::new(()), None, None);
    assert!(a == b);
    assert!(a != c);
    let d = a.clone();
    assert!(d == a);
    assert!(Rc::ptr_eq(&d.mountable.html, &a.mountable.html));
    assert_eq!(d.mountable.name, "Counter");
    assert!(!d.mountable.suspended);
    assert!(c.mountable.suspended);
    assert_eq!(b.key, Some(Key::new(3)));
}

#[test]
fn child_becomes_a_component_node() {
    let child = VChild::<Counter>::new(CounterProps { start: 5 }, Some(NodeRef { id: 6 }), Some(Key::new(1)));
    let second = child.clone();
    assert!(second == child);
    assert!(second != VChild::<Counter>::new(CounterProps { start: 6 }, None, None));
    assert!(Rc::ptr_eq(&child.props, &second.props));
    let node = VComp::from_child(child);
    assert_eq!(node.scope_ref, Some(NodeRef { id: 6 }));
    assert_eq!(node.key, Some(Key::new(1)));
    assert_eq!(VNode::VComp(node).render(true).unwrap(), "<!--<[Counter]>-->5<!--</[Counter]>-->");
}

#[test]
fn a_node_fits_only_instances_of_its_component() {
    let node = VComp::new::<Counter>(Rc::new(CounterProps { start: 1 }), None, None);
    let counter: Scope<Counter> = Scope::new(None, Rc::new(CounterProps { start: 2 }));
    let other: Scope<Other> = Scope::new(None, Rc::new(()));
    assert!(node.can_reuse(&counter));
    assert!(!node.can_reuse(&other));
    assert_eq!(counter.component_type(), std::any::TypeId::of::<Counter>());
}
