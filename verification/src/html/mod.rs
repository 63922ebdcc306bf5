//! Components: what user code implements, and what a component yields when
//! it is asked for its view.

pub mod scope;

use crate::virtual_dom::vcomp::Mountable;
use crate::virtual_dom::vnode::VNode;
use vstd::prelude::*;

verus! {

/// What the view of a component yields. Declining to complete is an
/// expected outcome and no failure.
#[derive(Debug)]
pub enum HtmlResult {
    /// The view completed with this tree.
    Ready(VNode),
    /// The view did not complete synchronously; it yields this tree once
    /// the work it waits for is done.
    Suspended(VNode),
}

impl HtmlResult {
    /// The tree of the view, whether or not it is ready yet.
    pub open spec fn html(self) -> VNode {
        match self {
            HtmlResult::Ready(node) => node,
            HtmlResult::Suspended(node) => node,
        }
    }
}

/// A component: user code that turns properties into a tree.
pub trait BaseComponent: Sized + 'static {
    /// What the instance is told.
    type Message;

    /// What the component is configured with.
    type Properties;

    /// The name that the hydration markers of the component carry; empty
    /// where names are not recorded.
    fn name() -> String;

    /// Builds an instance from its properties.
    fn create(props: &Self::Properties) -> Self;

    /// The tree that the instance shows for its properties and its state.
    fn view(&self, props: &Self::Properties) -> HtmlResult;

    /// Takes a message; tells whether the instance must be rendered again.
    fn update(&mut self, props: &Self::Properties, msg: Self::Message) -> bool;

    /// Takes note of new properties; tells whether the instance must be
    /// rendered again.
    fn changed(&mut self, props: &Self::Properties) -> bool;

    /// Runs after the view of the instance has been put in place.
    fn rendered(&mut self, props: &Self::Properties, first_render: bool);

    /// Runs before the instance goes away.
    fn destroy(&mut self, props: &Self::Properties);
}

/// Whether `component` is an instance that the component type may create
/// from `props`.
pub open spec fn created_from<COMP: BaseComponent>(
    component: COMP,
    props: COMP::Properties,
) -> bool {
    call_ensures(COMP::create, (&props,), component)
}

/// Whether `html` is what `component` may answer when it is asked for its
/// view with `props`.
pub open spec fn view_of<COMP: BaseComponent>(
    component: COMP,
    props: COMP::Properties,
    html: HtmlResult,
) -> bool {
    call_ensures(COMP::view, (&component, &props), html)
}

/// Whether `html` is the view that mounting the component `COMP` with
/// `props` may hand out: the view of an instance that the component
/// creates from `props`, on which the hook that follows the first view
/// then runs.
pub open spec fn mounted_with<COMP: BaseComponent>(
    props: COMP::Properties,
    html: HtmlResult,
) -> bool {
    exists|component: COMP|
        {
            &&& created_from::<COMP>(component, props)
            &&& #[trigger] view_of::<COMP>(component, props, html)
            &&& rendered_by::<COMP>(component, props, true)
        }
}

/// Whether `render` is what the instance `before` may answer when it is
/// handed the message `msg` with `props`.
pub open spec fn updated_by<COMP: BaseComponent>(
    before: COMP,
    props: COMP::Properties,
    msg: COMP::Message,
    render: bool,
) -> bool {
    exists|instance: &mut COMP|
        *instance == before && #[trigger] call_ensures(
            COMP::update,
            (instance, &props, msg),
            render,
        )
}

/// Whether `render` is what the instance `before` may answer when it is
/// told of the new properties `props`.
pub open spec fn changed_by<COMP: BaseComponent>(
    before: COMP,
    props: COMP::Properties,
    render: bool,
) -> bool {
    exists|instance: &mut COMP|
        *instance == before && #[trigger] call_ensures(COMP::changed, (instance, &props), render)
}

/// Whether the hook that follows a view that has been put in place may
/// run on the instance `before` with `props` and `first_render`.
pub open spec fn rendered_by<COMP: BaseComponent>(
    before: COMP,
    props: COMP::Properties,
    first_render: bool,
) -> bool {
    exists|instance: &mut COMP|
        *instance == before && #[trigger] call_ensures(
            COMP::rendered,
            (instance, &props, first_render),
            (),
        )
}

/// Whether the teardown may run on the instance `before` with `props`.
pub open spec fn destroyed_by<COMP: BaseComponent>(before: COMP, props: COMP::Properties) -> bool {
    exists|instance: &mut COMP|
        *instance == before && #[trigger] call_ensures(COMP::destroy, (instance, &props), ())
}

/// A component instance on the server: created, asked for its view, and
/// waiting to be serialised.
#[derive(Clone, Copy)]
pub struct SsrScope<'a> {
    /// The component.
    pub mountable: &'a Mountable,
    /// Whether the work that the view waited for is done.
    pub unblocked: bool,
}

impl<'a> SsrScope<'a> {
    /// Whether the view of the instance can be serialised now.
    pub open spec fn ready(self) -> bool {
        self.unblocked || !self.mountable.suspended
    }

    /// The instance of `mountable`, before anything it waits for is done.
    pub fn new(mountable: &'a Mountable) -> (scope: SsrScope<'a>)
        ensures
            scope.mountable == mountable,
            !scope.unblocked,
    {
        SsrScope { mountable, unblocked: false }
    }

    /// The instance once the work that its view waited for is done.
    pub fn unblock(self) -> (scope: SsrScope<'a>)
        ensures
            scope.mountable == self.mountable,
            scope.unblocked,
            scope.ready(),
    {
        SsrScope { mountable: self.mountable, unblocked: true }
    }

    /// Whether the view of the instance can be serialised now.
    pub fn is_ready(&self) -> (ready: bool)
        ensures
            ready == self.ready(),
    {
        self.unblocked || !self.mountable.suspended
    }
}

} // verus!
