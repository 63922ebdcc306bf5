//! The virtual component node and the type-erased handle it holds.

use super::key::Key;
use super::vnode::VNode;
use super::NodeRef;
use crate::html::scope::Lifecycle;
use crate::html::scope::Scope;
use crate::html::changed_by;
use crate::html::mounted_with;
use crate::html::BaseComponent;
use crate::html::HtmlResult;
use std::any::TypeId;
use std::rc::Rc;
use vstd::prelude::*;
use vstd::std_specs::cmp::PartialEqSpec;
use vstd::std_specs::cmp::PartialEqSpecImpl;

verus! {

/// `std::any::TypeId`: the identifier of a type. Nothing of what it holds is
/// known here.
#[verifier::external_type_specification]
#[verifier::external_body]
pub struct ExTypeId(TypeId);

/// Calls `std::any::TypeId::of`, which gives the identifier of the type `T`.
/// Nothing is claimed of the identifier.
#[verifier::external_body]
pub(crate) fn type_id_of<T: 'static>() -> (id: TypeId) {
    TypeId::of::<T>()
}

/// Calls `==` of `std::any::TypeId`, which tells whether two identifiers are
/// the same value.
#[verifier::external_body]
pub(crate) fn same_type_id(a: &TypeId, b: &TypeId) -> (same: bool)
    ensures
        same == (*a == *b),
{
    a == b
}

/// A component whose concrete type has been erased: the name of the type,
/// the tree its view yields, and whether the view has completed. The tree
/// is shared by every copy of the handle and never changed.
#[derive(Debug)]
pub struct Mountable {
    /// The name that hydration markers carry.
    pub name: String,
    /// The tree of the view.
    pub html: Rc<VNode>,
    /// Whether the view declined to complete synchronously.
    pub suspended: bool,
}

impl Mountable {
    /// The tree of the view.
    pub open spec fn tree(&self) -> VNode {
        *self.html
    }

    /// Erases a component into the name of its type and the outcome of its
    /// view.
    pub fn from_view(name: String, view: HtmlResult) -> (mountable: Mountable)
        ensures
            mountable.name == name,
            *mountable.html == view.html(),
            mountable.suspended == (view is Suspended),
    {
        match view {
            HtmlResult::Ready(html) => Mountable { name, html: Rc::new(html), suspended: false },
            HtmlResult::Suspended(html) => Mountable { name, html: Rc::new(html), suspended: true },
        }
    }

    /// A second handle to the same component. The view is shared, not
    /// copied.
    pub fn copy(&self) -> (mountable: Mountable)
        ensures
            mountable == *self,
    {
        Mountable {
            name: self.name.clone(),
            html: Rc::clone(&self.html),
            suspended: self.suspended,
        }
    }
}

/// A component node.
#[derive(Debug)]
pub struct VComp {
    /// The identity of the component type: two nodes stand for the same
    /// component when their identities match.
    pub type_id: TypeId,
    /// The erased component.
    pub mountable: Mountable,
    /// The live instance that the node is bound to, if any.
    pub scope_ref: Option<NodeRef>,
    /// The key of the node among its siblings.
    pub key: Option<Key>,
}

/// The properties of a component behind a shared pointer, with the
/// component type still known.
pub struct PropsWrapper<COMP: BaseComponent> {
    /// The shared properties.
    pub props: Rc<COMP::Properties>,
}

impl<COMP: BaseComponent> PropsWrapper<COMP> {
    /// Wraps shared properties.
    pub fn new(props: Rc<COMP::Properties>) -> (wrapper: Self)
        ensures
            wrapper.props == props,
    {
        Self { props }
    }

    /// A second holder of the same properties.
    pub fn copy(&self) -> (wrapper: Self)
        ensures
            wrapper.props == self.props,
    {
        PropsWrapper { props: Rc::clone(&self.props) }
    }

    /// Creates a live instance under `parent` with the properties, asks it
    /// for its view and runs the hook that follows. The properties pass to
    /// the instance; the view is handed out to be put in place.
    pub fn mount(self, parent: Option<NodeRef>) -> (mounted: (Scope<COMP>, HtmlResult))
        ensures
            mounted_with::<COMP>(*self.props, mounted.1),
            mounted.0.state() == Lifecycle::Ready,
            mounted.0.props() == self.props,
            mounted.0.parent() == parent,
            mounted.0.borrows() == 0,
            mounted.0.queue().len() == 0,
            mounted.0.rendered_before(),
    {
        let mut scope: Scope<COMP> = Scope::new(parent, self.props);
        let html = scope.view();
        scope.rendered();
        (scope, html)
    }

    /// Pushes the properties into a live instance of the same component.
    /// Tells whether the instance must be rendered again.
    pub fn reuse(self, scope: &mut Scope<COMP>) -> (render: bool)
        requires
            old(scope).state() != Lifecycle::Destroyed,
        ensures
            changed_by::<COMP>(old(scope).component(), *self.props, render),
            final(scope).props() == self.props,
            final(scope).state() == old(scope).state(),
            final(scope).parent() == old(scope).parent(),
            final(scope).type_id() == old(scope).type_id(),
            final(scope).borrows() == old(scope).borrows(),
            final(scope).queue() == old(scope).queue(),
            final(scope).rendered_before() == old(scope).rendered_before(),
    {
        scope.reuse(self.props)
    }

    /// Creates the component from the properties and asks it for its view.
    /// What comes back is whatever the component yields, under the name it
    /// gives itself.
    pub fn erase(&self) -> (mountable: Mountable)
        ensures
            self.yields(mountable),
    {
        let component = COMP::create(&self.props);
        let view = component.view(&self.props);
        Mountable::from_view(COMP::name(), view)
    }

    /// Whether `mountable` is what erasing this wrapper may give: see
    /// [`component_yields`].
    pub open spec fn yields(&self, mountable: Mountable) -> bool {
        component_yields::<COMP>(*self.props, mountable)
    }
}

/// Whether `mountable` is what the component `COMP` may yield for `props`:
/// it carries a name that the component gives itself, and the outcome of
/// the view of an instance that the component creates from `props`. The
/// tree is the tree of that view, and the component counts as suspended
/// exactly when that view declined to complete.
pub open spec fn component_yields<COMP: BaseComponent>(
    props: COMP::Properties,
    mountable: Mountable,
) -> bool {
    exists|component: COMP, view: HtmlResult|
        #![trigger call_ensures(COMP::view, (&component, &props), view)]
        {
            &&& call_ensures(COMP::create, (&props,), component)
            &&& call_ensures(COMP::view, (&component, &props), view)
            &&& call_ensures(COMP::name, (), mountable.name)
            &&& mountable.tree() == view.html()
            &&& mountable.suspended == (view is Suspended)
        }
}

/// A component that its parent configures: the properties, the live
/// instance it is bound to and its key.
pub struct VChild<ICOMP: BaseComponent> {
    /// The properties of the component.
    pub props: Rc<ICOMP::Properties>,
    /// The live instance that the child is bound to, if any.
    pub scope_ref: Option<NodeRef>,
    /// The key of the child among its siblings.
    pub key: Option<Key>,
}

impl<ICOMP: BaseComponent> VChild<ICOMP> {
    /// Creates a child component that its parent can reach and change.
    pub fn new(props: ICOMP::Properties, scope_ref: Option<NodeRef>, key: Option<Key>) -> (child:
        Self)
        ensures
            *child.props == props,
            child.scope_ref == scope_ref,
            child.key == key,
    {
        Self { props: Rc::new(props), scope_ref, key }
    }
}

impl<ICOMP: BaseComponent> Clone for VChild<ICOMP> {
    /// A second holder of the same child: the properties are shared.
    fn clone(&self) -> (child: Self)
        ensures
            child.props == self.props,
            child.scope_ref == self.scope_ref,
            child.key == self.key,
    {
        VChild { props: Rc::clone(&self.props), scope_ref: self.scope_ref, key: self.key }
    }
}

impl<ICOMP: BaseComponent> PartialEq for VChild<ICOMP> where ICOMP::Properties: PartialEq {
    fn eq(&self, other: &VChild<ICOMP>) -> (same: bool) {
        *self.props == *other.props
    }
}

impl<ICOMP: BaseComponent> PartialEqSpecImpl for VChild<ICOMP> where ICOMP::Properties: PartialEq {
    open spec fn obeys_eq_spec() -> bool {
        <ICOMP::Properties as PartialEqSpec>::obeys_eq_spec()
    }

    /// Two children are equal when their properties are.
    open spec fn eq_spec(&self, other: &VChild<ICOMP>) -> bool {
        (*self.props).eq_spec(&*other.props)
    }
}

impl VComp {
    /// Puts an erased component into a node.
    pub fn from_mountable(
        type_id: TypeId,
        mountable: Mountable,
        scope_ref: Option<NodeRef>,
        key: Option<Key>,
    ) -> (node: VComp)
        ensures
            node.type_id == type_id,
            node.mountable == mountable,
            node.scope_ref == scope_ref,
            node.key == key,
    {
        VComp { type_id, mountable, scope_ref, key }
    }

    /// Creates a component node for the component type `ICOMP` with
    /// `props`. The node holds whatever the component yields for them.
    pub fn new<ICOMP: BaseComponent>(
        props: Rc<ICOMP::Properties>,
        scope_ref: Option<NodeRef>,
        key: Option<Key>,
    ) -> (node: VComp)
        ensures
            component_yields::<ICOMP>(*props, node.mountable),
            node.scope_ref == scope_ref,
            node.key == key,
    {
        let mountable = PropsWrapper::<ICOMP>::new(props).erase();
        VComp::from_mountable(type_id_of::<ICOMP>(), mountable, scope_ref, key)
    }

    /// Creates the component node of a child.
    pub fn from_child<ICOMP: BaseComponent>(vchild: VChild<ICOMP>) -> (node: VComp)
        ensures
            component_yields::<ICOMP>(*vchild.props, node.mountable),
            node.scope_ref == vchild.scope_ref,
            node.key == vchild.key,
    {
        VComp::new::<ICOMP>(vchild.props, vchild.scope_ref, vchild.key)
    }

}

impl VComp {
    /// Whether the node can be bound to a live instance: whether the
    /// instance is one of the component type that the node stands for.
    pub fn can_reuse<COMP: BaseComponent>(&self, scope: &Scope<COMP>) -> (fits: bool)
        ensures
            fits == (self.type_id == scope.type_id()),
    {
        let held = scope.component_type();
        same_type_id(&self.type_id, &held)
    }
}

impl Clone for VComp {
    /// A second node for the same component, with the view shared.
    fn clone(&self) -> (node: Self)
        ensures
            node == *self,
    {
        Self {
            type_id: self.type_id,
            mountable: self.mountable.copy(),
            scope_ref: self.scope_ref,
            key: self.key,
        }
    }
}

impl PartialEq for VComp {
    fn eq(&self, other: &VComp) -> (same: bool) {
        same_type_id(&self.type_id, &other.type_id)
    }
}

impl PartialEqSpecImpl for VComp {
    open spec fn obeys_eq_spec() -> bool {
        true
    }

    /// Two component nodes are equal when they stand for the same
    /// component type. The properties are not compared: that is for the
    /// component to do.
    open spec fn eq_spec(&self, other: &VComp) -> bool {
        self.type_id == other.type_id
    }
}

} // verus!
