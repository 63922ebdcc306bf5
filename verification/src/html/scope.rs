//! The scope of a live component instance: its lifecycle, its properties
//! and its mailbox.

use super::changed_by;
use super::created_from;
use super::destroyed_by;
use super::rendered_by;
use super::updated_by;
use super::view_of;
use super::BaseComponent;
use super::HtmlResult;
use crate::virtual_dom::vcomp::type_id_of;
use crate::virtual_dom::NodeRef;
use std::any::TypeId;
use std::collections::VecDeque;
use std::rc::Rc;
use vstd::prelude::*;

verus! {

/// Where an instance stands in its life.
#[derive(Clone, Copy, Debug, PartialEq, Eq, Structural)]
pub enum Lifecycle {
    /// The instance exists; its view has not been asked for since.
    Created,
    /// The view has been produced; the hook that follows has not run.
    Rendering,
    /// The view is in place.
    Ready,
    /// The instance is gone.
    Destroyed,
}

/// The identity and the mailbox of one live component instance.
pub struct Scope<COMP: BaseComponent> {
    type_id: TypeId,
    component: COMP,
    props: Rc<COMP::Properties>,
    parent: Option<NodeRef>,
    state: Lifecycle,
    rendered_before: bool,
    borrows: usize,
    queue: VecDeque<COMP::Message>,
}

impl<COMP: BaseComponent> Scope<COMP> {
    /// The identity of the component type of the instance.
    pub closed spec fn type_id(&self) -> TypeId {
        self.type_id
    }

    /// The instance itself.
    pub closed spec fn component(&self) -> COMP {
        self.component
    }

    /// Where the instance stands in its life.
    pub closed spec fn state(&self) -> Lifecycle {
        self.state
    }

    /// The properties that the instance holds.
    pub closed spec fn props(&self) -> Rc<COMP::Properties> {
        self.props
    }

    /// The instance that the scope belongs under, if any.
    pub closed spec fn parent(&self) -> Option<NodeRef> {
        self.parent
    }

    /// How many holders have the state of the instance borrowed.
    pub closed spec fn borrows(&self) -> nat {
        self.borrows as nat
    }

    /// The messages that wait, the oldest first.
    pub closed spec fn queue(&self) -> Seq<COMP::Message> {
        self.queue@
    }

    /// Whether the view has been put in place before.
    pub closed spec fn rendered_before(&self) -> bool {
        self.rendered_before
    }

    /// Builds the instance from `props`.
    pub fn new(parent: Option<NodeRef>, props: Rc<COMP::Properties>) -> (scope: Self)
        ensures
            created_from::<COMP>(scope.component(), *props),
            scope.state() == Lifecycle::Created,
            scope.props() == props,
            scope.parent() == parent,
            scope.borrows() == 0,
            scope.queue().len() == 0,
            !scope.rendered_before(),
    {
        let component = COMP::create(&props);
        Scope {
            type_id: type_id_of::<COMP>(),
            component,
            props,
            parent,
            state: Lifecycle::Created,
            rendered_before: false,
            borrows: 0,
            queue: VecDeque::new(),
        }
    }

    /// The identity of the component type of the instance.
    pub fn component_type(&self) -> (id: TypeId)
        ensures
            id == self.type_id(),
    {
        self.type_id
    }

    /// Where the instance stands in its life.
    pub fn lifecycle(&self) -> (state: Lifecycle)
        ensures
            state == self.state(),
    {
        self.state
    }

    /// Whether some holder has the state of the instance borrowed.
    pub fn is_borrowed(&self) -> (borrowed: bool)
        ensures
            borrowed == (self.borrows() > 0),
    {
        self.borrows > 0
    }

    /// How many holders have the state of the instance borrowed.
    pub fn borrow_count(&self) -> (n: usize)
        ensures
            n == self.borrows(),
    {
        self.borrows
    }

    /// How many messages wait.
    pub fn pending_messages(&self) -> (n: usize)
        ensures
            n == self.queue().len(),
    {
        self.queue.len()
    }

    /// Asks the instance for its view. The instance is then rendering
    /// until `rendered` runs.
    pub fn view(&mut self) -> (html: HtmlResult)
        requires
            old(self).state() != Lifecycle::Destroyed,
        ensures
            view_of::<COMP>(old(self).component(), *old(self).props(), html),
            final(self).component() == old(self).component(),
            final(self).state() == Lifecycle::Rendering,
            final(self).props() == old(self).props(),
            final(self).parent() == old(self).parent(),
            final(self).type_id() == old(self).type_id(),
            final(self).borrows() == old(self).borrows(),
            final(self).queue() == old(self).queue(),
            final(self).rendered_before() == old(self).rendered_before(),
    {
        let html = self.component.view(&self.props);
        self.state = Lifecycle::Rendering;
        html
    }

    /// Runs the hook that follows a view that has been put in place. The
    /// instance is then ready.
    pub fn rendered(&mut self)
        requires
            old(self).state() == Lifecycle::Rendering,
        ensures
            rendered_by::<COMP>(
                old(self).component(),
                *old(self).props(),
                !old(self).rendered_before(),
            ),
            final(self).state() == Lifecycle::Ready,
            final(self).rendered_before(),
            final(self).props() == old(self).props(),
            final(self).parent() == old(self).parent(),
            final(self).type_id() == old(self).type_id(),
            final(self).borrows() == old(self).borrows(),
            final(self).queue() == old(self).queue(),
    {
        let first_render = !self.rendered_before;
        self.component.rendered(&self.props, first_render);
        self.rendered_before = true;
        self.state = Lifecycle::Ready;
    }

    /// Puts a message into the mailbox, behind those that wait.
    pub fn send_message(&mut self, msg: COMP::Message)
        requires
            old(self).state() != Lifecycle::Destroyed,
        ensures
            final(self).queue() == old(self).queue().push(msg),
            final(self).component() == old(self).component(),
            final(self).state() == old(self).state(),
            final(self).props() == old(self).props(),
            final(self).parent() == old(self).parent(),
            final(self).type_id() == old(self).type_id(),
            final(self).borrows() == old(self).borrows(),
            final(self).rendered_before() == old(self).rendered_before(),
    {
        self.queue.push_back(msg);
    }

    /// Hands the oldest message to the instance. Tells whether there was
    /// one, and if so whether the instance must be rendered again.
    pub fn update(&mut self) -> (render: Option<bool>)
        requires
            old(self).state() != Lifecycle::Destroyed,
        ensures
            render is Some <==> old(self).queue().len() > 0,
            render matches Some(answer) ==> updated_by::<COMP>(
                old(self).component(),
                *old(self).props(),
                old(self).queue()[0],
                answer,
            ),
            render is Some ==> final(self).queue() == old(self).queue().drop_first(),
            render is None ==> final(self).queue() == old(self).queue(),
            render is None ==> final(self).component() == old(self).component(),
            final(self).state() == old(self).state(),
            final(self).props() == old(self).props(),
            final(self).parent() == old(self).parent(),
            final(self).type_id() == old(self).type_id(),
            final(self).borrows() == old(self).borrows(),
            final(self).rendered_before() == old(self).rendered_before(),
    {
        match self.queue.pop_front() {
            Some(msg) => {
                let render = self.component.update(&self.props, msg);
                assert(self.queue@ =~= old(self).queue@.drop_first());
                Some(render)
            },
            None => None,
        }
    }

    /// Replaces the properties of the instance. Tells whether the instance
    /// must be rendered again.
    pub fn reuse(&mut self, props: Rc<COMP::Properties>) -> (render: bool)
        requires
            old(self).state() != Lifecycle::Destroyed,
        ensures
            changed_by::<COMP>(old(self).component(), *props, render),
            final(self).props() == props,
            final(self).state() == old(self).state(),
            final(self).parent() == old(self).parent(),
            final(self).type_id() == old(self).type_id(),
            final(self).borrows() == old(self).borrows(),
            final(self).queue() == old(self).queue(),
            final(self).rendered_before() == old(self).rendered_before(),
    {
        self.props = props;
        self.component.changed(&self.props)
    }

    /// Counts one more holder of the state of the instance.
    pub fn acquire(&mut self)
        requires
            old(self).state() != Lifecycle::Destroyed,
            old(self).borrows() < usize::MAX,
        ensures
            final(self).borrows() == old(self).borrows() + 1,
            final(self).component() == old(self).component(),
            final(self).state() == old(self).state(),
            final(self).props() == old(self).props(),
            final(self).parent() == old(self).parent(),
            final(self).type_id() == old(self).type_id(),
            final(self).queue() == old(self).queue(),
            final(self).rendered_before() == old(self).rendered_before(),
    {
        self.borrows = self.borrows + 1;
    }

    /// Counts one holder less.
    pub fn release(&mut self)
        requires
            old(self).borrows() > 0,
        ensures
            final(self).borrows() == old(self).borrows() - 1,
            final(self).component() == old(self).component(),
            final(self).state() == old(self).state(),
            final(self).props() == old(self).props(),
            final(self).parent() == old(self).parent(),
            final(self).type_id() == old(self).type_id(),
            final(self).queue() == old(self).queue(),
            final(self).rendered_before() == old(self).rendered_before(),
    {
        self.borrows = self.borrows - 1;
    }

    /// Whether the instance can be torn down: it still lives and nobody
    /// has its state borrowed.
    pub fn can_destroy(&self) -> (ok: bool)
        ensures
            ok == (self.state() != Lifecycle::Destroyed && self.borrows() == 0),
    {
        !matches!(self.state, Lifecycle::Destroyed) && self.borrows == 0
    }

    /// Tears the instance down: its teardown runs, and the messages that
    /// wait are dropped. An instance whose state is borrowed cannot be
    /// torn down.
    pub fn destroy(&mut self)
        requires
            old(self).state() != Lifecycle::Destroyed,
            old(self).borrows() == 0,
        ensures
            destroyed_by::<COMP>(old(self).component(), *old(self).props()),
            final(self).state() == Lifecycle::Destroyed,
            final(self).queue().len() == 0,
            final(self).borrows() == 0,
            final(self).props() == old(self).props(),
            final(self).parent() == old(self).parent(),
            final(self).type_id() == old(self).type_id(),
            final(self).rendered_before() == old(self).rendered_before(),
    {
        self.component.destroy(&self.props);
        self.queue.clear();
        self.state = Lifecycle::Destroyed;
    }
}

} // verus!
