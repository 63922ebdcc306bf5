//! Starting an application on a live surface.

use crate::html::scope::Lifecycle;
use crate::html::scope::Scope;
use crate::html::mounted_with;
use crate::html::BaseComponent;
use crate::html::HtmlResult;
use crate::virtual_dom::vcomp::PropsWrapper;
use crate::virtual_dom::NodeRef;
use std::rc::Rc;
use vstd::prelude::*;

verus! {

/// Whether a panic hook has been installed for the process.
pub struct PanicHook {
    is_set: bool,
}

/// What to do about the panic hook of the process.
#[derive(Clone, Copy, Debug, PartialEq, Eq, Structural)]
pub enum HookAction {
    /// Install the default hook.
    InstallDefault,
    /// Leave the hook that is installed.
    Keep,
}

impl PanicHook {
    /// Whether a hook has been installed.
    pub closed spec fn is_set(&self) -> bool {
        self.is_set
    }

    /// The state of a process in which no hook has been installed.
    pub fn new() -> (hook: PanicHook)
        ensures
            !hook.is_set(),
    {
        PanicHook { is_set: false }
    }

    /// Whether a hook has been installed.
    pub fn installed(&self) -> (set: bool)
        ensures
            set == self.is_set(),
    {
        self.is_set
    }
}

/// Takes note that a custom hook has been installed: it replaces whatever
/// was installed before, and the default hook will not replace it.
pub fn set_custom_panic_hook(hook: &mut PanicHook)
    ensures
        final(hook).is_set(),
{
    hook.is_set = true;
}

/// Decides whether the default hook is to be installed: it is where no hook
/// has been installed before, and only then.
pub fn set_default_panic_hook(hook: &mut PanicHook) -> (action: HookAction)
    ensures
        final(hook).is_set(),
        action == (if old(hook).is_set() {
            HookAction::Keep
        } else {
            HookAction::InstallDefault
        }),
{
    let was_set = hook.is_set;
    hook.is_set = true;
    if was_set {
        HookAction::Keep
    } else {
        HookAction::InstallDefault
    }
}

/// A running application: the live instance of its root component.
pub struct AppHandle<ICOMP: BaseComponent> {
    /// The live instance of the root component.
    pub scope: Scope<ICOMP>,
}

impl<ICOMP: BaseComponent> AppHandle<ICOMP> {
    /// Creates the root component with `props` and mounts it. The view of
    /// the root is handed out to be put under the root of the surface.
    pub fn mount_with_props(root: NodeRef, props: Rc<ICOMP::Properties>) -> (mounted: (
        Self,
        HtmlResult,
    ))
        ensures
            mounted_with::<ICOMP>(*props, mounted.1),
            mounted.0.scope.state() == Lifecycle::Ready,
            mounted.0.scope.props() == props,
            mounted.0.scope.parent() == Some(root),
            mounted.0.scope.borrows() == 0,
            mounted.0.scope.queue().len() == 0,
    {
        let (scope, html) = PropsWrapper::<ICOMP>::new(props).mount(Some(root));
        (AppHandle { scope }, html)
    }

    /// Whether the application can be stopped: it still runs and nobody
    /// has the state of its root borrowed.
    pub fn can_destroy(&self) -> (ok: bool)
        ensures
            ok == (self.scope.state() != Lifecycle::Destroyed && self.scope.borrows() == 0),
    {
        self.scope.can_destroy()
    }

    /// Stops the application: the root instance is torn down.
    pub fn destroy(self) -> (scope: Scope<ICOMP>)
        requires
            self.scope.state() != Lifecycle::Destroyed,
            self.scope.borrows() == 0,
        ensures
            scope.state() == Lifecycle::Destroyed,
            scope.queue().len() == 0,
            scope.props() == self.scope.props(),
    {
        let mut scope = self.scope;
        scope.destroy();
        scope
    }
}

/// The entry point of an application on a live surface: the root of the
/// surface and the properties of the root component.
pub struct Renderer<ICOMP: BaseComponent> {
    root: NodeRef,
    props: ICOMP::Properties,
}

impl<ICOMP: BaseComponent> Renderer<ICOMP> {
    /// The node that the application is rendered under.
    pub closed spec fn root(&self) -> NodeRef {
        self.root
    }

    /// The properties of the root component.
    pub closed spec fn props(&self) -> ICOMP::Properties {
        self.props
    }

    /// A renderer that renders under `root` with `props`.
    pub fn with_root_and_props(root: NodeRef, props: ICOMP::Properties) -> (renderer: Self)
        ensures
            renderer.root() == root,
            renderer.props() == props,
    {
        Self { root, props }
    }

    /// Renders the application: the default panic hook is installed unless
    /// a hook has been installed before, and the root component is
    /// mounted. The view of the root is handed out to be put in place.
    pub fn render(self, hook: &mut PanicHook) -> (started: (AppHandle<ICOMP>, HtmlResult, HookAction))
        ensures
            final(hook).is_set(),
            started.2 == (if old(hook).is_set() {
                HookAction::Keep
            } else {
                HookAction::InstallDefault
            }),
            mounted_with::<ICOMP>(self.props(), started.1),
            started.0.scope.state() == Lifecycle::Ready,
            *started.0.scope.props() == self.props(),
            started.0.scope.parent() == Some(self.root()),
            started.0.scope.borrows() == 0,
            started.0.scope.queue().len() == 0,
    {
        let action = set_default_panic_hook(hook);
        let (handle, html) = AppHandle::<ICOMP>::mount_with_props(self.root, Rc::new(self.props));
        (handle, html, action)
    }
}

impl<ICOMP: BaseComponent> Renderer<ICOMP> where ICOMP::Properties: Default {
    /// A renderer that renders under `root` with default properties.
    pub fn with_root(root: NodeRef) -> (renderer: Self)
        ensures
            renderer.root() == root,
            call_ensures(<ICOMP::Properties as Default>::default, (), renderer.props()),
    {
        Self::with_root_and_props(root, ICOMP::Properties::default())
    }
}

} // verus!
