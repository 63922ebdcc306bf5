//! What holds of the sink: the document it stands for is the markup of the
//! tree in document order, whatever suspends.

use super::model::all_renderable;
use super::model::close_marker;
use super::model::html_of;
use super::model::html_of_all;
use super::model::html_of_mountable;
use super::model::html_of_suspense;
use super::model::html_of_tag;
use super::model::open_marker;
use super::model::renderable;
use super::model::renderable_suspense;
use super::model::renderable_tag;
use super::model::tag_close_text;
use super::model::tag_open_text;
use super::state::blockers_renderable;
use super::state::blockers_text;
use super::state::blockers_weight;
use super::state::events_of;
use super::state::events_of_all;
use super::state::events_of_comp;
use super::state::events_of_mountable;
use super::state::events_of_suspense;
use super::state::events_of_tag;
use super::state::shelved_text;
use super::state::shelved_weight;
use super::state::suspensions_in;
use super::state::suspensions_in_all;
use super::state::suspensions_in_mountable;
use super::state::suspensions_in_tag;
use super::state::text_of_events;
use super::state::works_renderable;
use super::state::weight_of_events;
use super::state::Event;
use super::state::Level;
use super::state::Pending;
use super::state::SinkView;
use crate::escape::escape_text;
use crate::escape::lemma_unescape_escape_text;
use crate::escape::starts_with;
use crate::escape::unescape;
use crate::virtual_dom::vcomp::Mountable;
use crate::virtual_dom::vnode::VNode;
use crate::virtual_dom::vsuspense::VSuspense;
use crate::virtual_dom::vtag::is_void_element;
use crate::virtual_dom::vtag::VTag;
use crate::virtual_dom::vtag::VTagInner;
use crate::virtual_dom::vtext::VText;
use crate::virtual_dom::Collectable;
use vstd::prelude::*;

verus! {

/// Every component that the events suspend on has a view that can be
/// serialised.
pub open spec fn events_renderable(events: Seq<Event>) -> bool {
    forall|i: int|
        0 <= i < events.len() ==> (#[trigger] events[i] matches Event::Suspend(work)
            ==> renderable(*work.html))
}

/// The markup of two runs of events is the markup of the first, then that
/// of the second; so with what the runs leave to be awaited.
pub proof fn lemma_events_concat(first: Seq<Event>, second: Seq<Event>, hydratable: bool)
    ensures
        text_of_events(first + second, hydratable) == text_of_events(first, hydratable)
            + text_of_events(second, hydratable),
        weight_of_events(first + second) == weight_of_events(first) + weight_of_events(second),
    decreases first.len(),
{
    if first.len() == 0 {
        assert(first + second =~= second);
        assert(text_of_events(first, hydratable) + text_of_events(second, hydratable)
            =~= text_of_events(second, hydratable));
    } else {
        assert((first + second).drop_first() =~= first.drop_first() + second);
        lemma_events_concat(first.drop_first(), second, hydratable);
        assert(text_of_events(first + second, hydratable) =~= text_of_events(first, hydratable)
            + text_of_events(second, hydratable));
    }
}

/// The markup and the weight of a single text event.
pub proof fn lemma_events_text(text: Seq<char>, hydratable: bool)
    ensures
        text_of_events(seq![Event::Text(text)], hydratable) == text,
        weight_of_events(seq![Event::Text(text)]) == 0,
        events_renderable(seq![Event::Text(text)]),
{
    let events = seq![Event::Text(text)];
    assert(events.drop_first().len() == 0);
    assert(text_of_events(events.drop_first(), hydratable) =~= Seq::empty());
    assert(weight_of_events(events.drop_first()) == 0);
    assert(text_of_events(events, hydratable) =~= text);
}

/// The markup and the weight of a single suspension.
pub proof fn lemma_events_suspend(work: Mountable, hydratable: bool)
    ensures
        text_of_events(seq![Event::Suspend(work)], hydratable) == html_of_mountable(
            work,
            hydratable,
        ),
        weight_of_events(seq![Event::Suspend(work)]) == 1 + suspensions_in(*work.html),
{
    let events = seq![Event::Suspend(work)];
    assert(events.drop_first().len() == 0);
    assert(text_of_events(events.drop_first(), hydratable) =~= Seq::empty());
    assert(weight_of_events(events.drop_first()) == 0);
    assert(text_of_events(events, hydratable) =~= html_of_mountable(work, hydratable));
}

/// The markup and the weight of a run between two texts.
pub proof fn lemma_events_wrapped(
    open: Seq<char>,
    inner: Seq<Event>,
    close: Seq<char>,
    hydratable: bool,
)
    ensures
        text_of_events(seq![Event::Text(open)] + inner + seq![Event::Text(close)], hydratable)
            == open + text_of_events(inner, hydratable) + close,
        weight_of_events(seq![Event::Text(open)] + inner + seq![Event::Text(close)])
            == weight_of_events(inner),
        events_renderable(inner) ==> events_renderable(
            seq![Event::Text(open)] + inner + seq![Event::Text(close)],
        ),
{
    lemma_events_text(open, hydratable);
    lemma_events_text(close, hydratable);
    lemma_events_concat(seq![Event::Text(open)], inner, hydratable);
    lemma_events_concat(seq![Event::Text(open)] + inner, seq![Event::Text(close)], hydratable);
}

/// The events of a tree that can be serialised stand for the markup of the
/// tree, leave its suspended components to be awaited, and suspend only on
/// components whose views can be serialised.
pub proof fn lemma_events_of(node: VNode, hydratable: bool)
    requires
        renderable(node),
    ensures
        text_of_events(events_of(node, hydratable), hydratable) == html_of(node, hydratable),
        weight_of_events(events_of(node, hydratable)) == suspensions_in(node),
        events_renderable(events_of(node, hydratable)),
    decreases node, 0nat,
{
    match node {
        VNode::VTag(tag) => {
            lemma_events_of_tag(*tag, hydratable);
        },
        VNode::VText(text) => {
            lemma_events_text(escape_text(text.text@), hydratable);
        },
        VNode::VComp(comp) => {
            assert(events_of(node, hydratable) == events_of_comp(comp, hydratable));
            assert(suspensions_in(node) == suspensions_in_mountable(comp.mountable));
            if comp.mountable.suspended {
                lemma_events_suspend(comp.mountable, hydratable);
            } else {
                lemma_events_of_mountable(comp.mountable, hydratable);
            }
        },
        VNode::VList(list) => {
            lemma_events_of_all(list.children@, 0, hydratable);
        },
        VNode::VPortal(_) => {},
        VNode::VRef(_) => {},
        VNode::VSuspense(suspense) => {
            lemma_events_of_suspense(suspense, hydratable);
        },
    }
}

/// The events of an element stand for its markup.
pub proof fn lemma_events_of_tag(tag: VTag, hydratable: bool)
    requires
        renderable_tag(tag),
    ensures
        text_of_events(events_of_tag(tag, hydratable), hydratable) == html_of_tag(tag, hydratable),
        weight_of_events(events_of_tag(tag, hydratable)) == suspensions_in_tag(tag),
        events_renderable(events_of_tag(tag, hydratable)),
    decreases tag, 1nat,
{
    let inner: Seq<Event> = match tag.inner {
        VTagInner::Other { tag: name, children } => if is_void_element(name@) {
            Seq::empty()
        } else {
            events_of_all(children.children@, 0, hydratable)
        },
        _ => Seq::empty(),
    };
    match tag.inner {
        VTagInner::Other { tag: name, children } => {
            if !is_void_element(name@) {
                lemma_events_of_all(children.children@, 0, hydratable);
            }
        },
        _ => {},
    }
    lemma_events_wrapped(tag_open_text(tag), inner, tag_close_text(tag), hydratable);
}

/// The events of a suspense boundary stand for its markup.
pub proof fn lemma_events_of_suspense(suspense: VSuspense, hydratable: bool)
    requires
        renderable_suspense(suspense),
    ensures
        text_of_events(events_of_suspense(suspense, hydratable), hydratable) == html_of_suspense(
            suspense,
            hydratable,
        ),
        weight_of_events(events_of_suspense(suspense, hydratable)) == suspensions_in(
            *suspense.children,
        ),
        events_renderable(events_of_suspense(suspense, hydratable)),
    decreases suspense, 1nat,
{
    lemma_events_of(*suspense.children, hydratable);
    lemma_events_wrapped(
        open_marker(Collectable::Suspense, hydratable),
        events_of(*suspense.children, hydratable),
        close_marker(Collectable::Suspense, hydratable),
        hydratable,
    );
}

/// The events of a component whose view is complete stand for its markup.
pub proof fn lemma_events_of_mountable(mountable: Mountable, hydratable: bool)
    requires
        renderable(*mountable.html),
    ensures
        text_of_events(events_of_mountable(mountable, hydratable), hydratable)
            == html_of_mountable(mountable, hydratable),
        weight_of_events(events_of_mountable(mountable, hydratable)) == suspensions_in(
            *mountable.html,
        ),
        events_renderable(events_of_mountable(mountable, hydratable)),
    decreases mountable, 1nat,
{
    lemma_events_of(mountable.tree(), hydratable);
    lemma_events_wrapped(
        open_marker(Collectable::Component(mountable.name), hydratable),
        events_of(mountable.tree(), hydratable),
        close_marker(Collectable::Component(mountable.name), hydratable),
        hydratable,
    );
}

/// The events of a run of nodes stand for the markup of the nodes.
pub proof fn lemma_events_of_all(nodes: Seq<VNode>, from: int, hydratable: bool)
    requires
        all_renderable(nodes, from),
        0 <= from,
    ensures
        text_of_events(events_of_all(nodes, from, hydratable), hydratable) == html_of_all(
            nodes,
            from,
            hydratable,
        ),
        weight_of_events(events_of_all(nodes, from, hydratable)) == suspensions_in_all(nodes, from),
        events_renderable(events_of_all(nodes, from, hydratable)),
    decreases nodes, nodes.len() - from,
{
    if from < nodes.len() {
        lemma_events_of(nodes[from], hydratable);
        lemma_events_of_all(nodes, from + 1, hydratable);
        lemma_events_concat(
            events_of(nodes[from], hydratable),
            events_of_all(nodes, from + 1, hydratable),
            hydratable,
        );
    }
}


/// A blocker that is queued last adds its prefix and the markup of its
/// component behind the others.
pub proof fn lemma_blockers_push(
    blockers: Seq<Pending>,
    from: int,
    last: Pending,
    hydratable: bool,
)
    requires
        0 <= from <= blockers.len(),
    ensures
        blockers_text(blockers.push(last), from, hydratable) == blockers_text(
            blockers,
            from,
            hydratable,
        ) + last.prefix + html_of_mountable(last.work, hydratable),
        blockers_weight(blockers.push(last), from) == blockers_weight(blockers, from) + 1
            + suspensions_in(*last.work.html),
    decreases blockers.len() - from,
{
    let pushed = blockers.push(last);
    if from < blockers.len() {
        lemma_blockers_push(blockers, from + 1, last, hydratable);
        assert(pushed[from] == blockers[from]);
        assert(blockers_text(pushed, from, hydratable) =~= blockers_text(
            blockers,
            from,
            hydratable,
        ) + last.prefix + html_of_mountable(last.work, hydratable));
    } else {
        assert(pushed[from] == last);
        assert(blockers_text(pushed, from + 1, hydratable) =~= Seq::empty());
        assert(blockers_weight(pushed, from + 1) == 0);
        assert(blockers_text(pushed, from, hydratable) =~= blockers_text(
            blockers,
            from,
            hydratable,
        ) + last.prefix + html_of_mountable(last.work, hydratable));
    }
}

/// The blockers behind the first stand for the same markup wherever they
/// are counted from.
pub proof fn lemma_blockers_shift(blockers: Seq<Pending>, from: int, hydratable: bool)
    requires
        0 <= from < blockers.len(),
    ensures
        blockers_text(blockers.drop_first(), from, hydratable) == blockers_text(
            blockers,
            from + 1,
            hydratable,
        ),
        blockers_weight(blockers.drop_first(), from) == blockers_weight(blockers, from + 1),
    decreases blockers.len() - from,
{
    let rest = blockers.drop_first();
    if from + 1 < blockers.len() {
        lemma_blockers_shift(blockers, from + 1, hydratable);
        assert(rest[from] == blockers[from + 1]);
    }
}

/// The levels below the one shelved last stand for the same markup whether
/// or not that one is still shelved.
pub proof fn lemma_shelved_below(shelved: Seq<Level>, upto: int, hydratable: bool)
    requires
        0 <= upto < shelved.len(),
    ensures
        shelved_text(shelved.drop_last(), upto, hydratable) == shelved_text(
            shelved,
            upto,
            hydratable,
        ),
        shelved_weight(shelved.drop_last(), upto) == shelved_weight(shelved, upto),
    decreases upto,
{
    if upto > 0 {
        lemma_shelved_below(shelved, upto - 1, hydratable);
        assert(shelved.drop_last()[upto - 1] == shelved[upto - 1]);
    }
}

/// A level that is shelved last resumes first.
pub proof fn lemma_shelved_push(shelved: Seq<Level>, level: Level, hydratable: bool)
    ensures
        shelved_text(shelved.push(level), shelved.len() as int + 1, hydratable) == level.text(hydratable)
            + shelved_text(shelved, shelved.len() as int, hydratable),
        shelved_weight(shelved.push(level), shelved.len() as int + 1) == level.weight() + shelved_weight(
            shelved,
            shelved.len() as int,
        ),
{
    let pushed = shelved.push(level);
    assert(pushed.drop_last() =~= shelved);
    if shelved.len() > 0 {
        lemma_shelved_below(pushed, shelved.len() as int, hydratable);
    } else {
        assert(shelved_text(pushed, 0, hydratable) =~= shelved_text(shelved, 0, hydratable));
        assert(shelved_weight(pushed, 0) == shelved_weight(shelved, 0));
    }
    assert(pushed[shelved.len() as int] == level);
    assert(shelved_weight(pushed, shelved.len() as int + 1) == pushed[shelved.len() as int].weight()
        + shelved_weight(pushed, shelved.len() as int));
}

impl SinkView {
    /// Writing text adds it at the end of the current level and changes
    /// nothing else.
    pub proof fn lemma_write_effect(self, text: Seq<char>)
        requires
            self.settled(),
        ensures
            self.write(text).settled(),
            self.write(text).front() == self.front() + text,
            self.write(text).current.weight() == self.current.weight(),
            self.write(text).shelved == self.shelved,
            self.write(text).hydratable == self.hydratable,
            self.write(text).current.blockers == self.current.blockers,
            self.well_formed() ==> self.write(text).well_formed(),
    {
        let written = self.write(text);
        if self.current.blockers.len() == 0 {
            assert(self.current.buffer =~= Seq::empty());
            assert(written.front() =~= self.front() + text);
        } else {
            assert(written.front() =~= self.front() + text);
        }
    }

    /// Suspending on a component adds the markup of the component at the
    /// end of the current level, and the component to what is awaited.
    pub proof fn lemma_suspend_effect(self, work: Mountable)
        ensures
            self.suspend(work).settled(),
            self.suspend(work).front() == self.front() + html_of_mountable(work, self.hydratable),
            self.suspend(work).current.weight() == self.current.weight() + 1 + suspensions_in(
                *work.html,
            ),
            self.suspend(work).shelved == self.shelved,
            self.suspend(work).hydratable == self.hydratable,
            self.suspend(work).current.blockers == self.current.blockers.push(
                Pending { prefix: self.current.buffer, work },
            ),
            self.well_formed() && renderable(work.tree()) ==> self.suspend(work).well_formed(),
    {
        let suspended = self.suspend(work);
        lemma_blockers_push(
            self.current.blockers,
            0,
            Pending { prefix: self.current.buffer, work },
            self.hydratable,
        );
        assert(suspended.front() =~= self.front() + html_of_mountable(work, self.hydratable));
    }

    /// A run of events adds the markup it stands for at the end of the
    /// current level, and what it suspends on to what is awaited. Nothing
    /// that has left the sink or is shelved changes.
    pub proof fn lemma_apply_effect(self, events: Seq<Event>)
        requires
            self.well_formed(),
            events_renderable(events),
        ensures
            self.apply_all(events).well_formed(),
            self.apply_all(events).front() == self.front() + text_of_events(
                events,
                self.hydratable,
            ),
            self.apply_all(events).current.weight() == self.current.weight() + weight_of_events(
                events,
            ),
            self.apply_all(events).shelved == self.shelved,
            self.apply_all(events).hydratable == self.hydratable,
        decreases events.len(),
    {
        if events.len() == 0 {
            assert(self.front() + text_of_events(events, self.hydratable) =~= self.front());
        } else {
            let next = self.apply(events[0]);
            match events[0] {
                Event::Text(text) => {
                    self.lemma_write_effect(text);
                },
                Event::Suspend(work) => {
                    self.lemma_suspend_effect(work);
                    assert(renderable(*work.html));
                },
            }
            assert(events_renderable(events.drop_first())) by {
                assert forall|i: int| 0 <= i < events.drop_first().len() implies (
                #[trigger] events.drop_first()[i] matches Event::Suspend(work) ==> renderable(
                    *work.html,
                )) by {
                    assert(events.drop_first()[i] == events[i + 1]);
                }
            }
            next.lemma_apply_effect(events.drop_first());
            assert(self.apply_all(events).front() =~= self.front() + text_of_events(
                events,
                self.hydratable,
            ));
        }
    }

    /// Taking the first blocker out leaves the document as it is but for
    /// the markup of the component, which is now to be written at the end
    /// of the output; the component is no longer counted as awaited.
    pub proof fn lemma_taken(self)
        requires
            self.current.blockers.len() > 0,
            works_renderable(self),
        ensures
            self.taken().well_formed(),
            self.taken().front() == self.taken().output,
            self.document() == self.taken().output + html_of_mountable(
                self.current.blockers[0].work,
                self.hydratable,
            ) + shelved_text(
                self.taken().shelved,
                self.taken().shelved.len() as int,
                self.hydratable,
            ),
            self.weight() == self.taken().weight() + 1 + suspensions_in(
                *self.current.blockers[0].work.html,
            ),
            self.taken().current.weight() == 0,
    {
        let taken = self.taken();
        let level = Level {
            blockers: self.current.blockers.drop_first(),
            buffer: self.current.buffer,
        };
        lemma_shelved_push(self.shelved, level, self.hydratable);
        lemma_blockers_shift(self.current.blockers, 0, self.hydratable);
        assert(taken.front() =~= taken.output);
        assert(self.document() =~= taken.output + html_of_mountable(
            self.current.blockers[0].work,
            self.hydratable,
        ) + shelved_text(taken.shelved, taken.shelved.len() as int, self.hydratable));
        assert(blockers_renderable(level.blockers)) by {
            assert forall|i: int| 0 <= i < level.blockers.len() implies renderable(
                *(#[trigger] level.blockers[i]).work.html,
            ) by {
                assert(level.blockers[i] == self.current.blockers[i + 1]);
            }
        }
    }

    /// Closing the levels that have nothing left to await changes neither
    /// the document nor what is awaited, and leaves the sink rested.
    pub proof fn lemma_restored(self)
        requires
            works_renderable(self),
        ensures
            self.restored().rested(),
            self.restored().well_formed(),
            self.restored().document() == self.document(),
            self.restored().weight() == self.weight(),
            self.restored().hydratable == self.hydratable,
        decreases self.shelved.len(),
    {
        if self.current.blockers.len() == 0 {
            let flushed = self.output + self.current.buffer;
            if self.shelved.len() == 0 {
                assert(self.restored().document() =~= self.document());
            } else {
                let next = SinkView {
                    output: flushed,
                    current: self.shelved.last(),
                    shelved: self.shelved.drop_last(),
                    ..self
                };
                lemma_shelved_below(self.shelved, self.shelved.len() - 1, self.hydratable);
                next.lemma_restored();
                assert(next.document() =~= self.document());
            }
        }
    }

    /// A rested sink that holds no blocker has written the whole document.
    pub proof fn lemma_drained(self)
        requires
            self.rested(),
            self.current.blockers.len() == 0,
        ensures
            self.document() == self.output,
            self.weight() == 0,
    {
        assert(self.current.buffer =~= Seq::empty());
        assert(self.document() =~= self.output);
    }
}

/// Blockers leave at least one component each to be awaited.
pub proof fn lemma_blockers_weight_bound(blockers: Seq<Pending>, from: int)
    requires
        0 <= from <= blockers.len(),
    ensures
        blockers_weight(blockers, from) >= blockers.len() - from,
    decreases blockers.len() - from,
{
    if from < blockers.len() {
        lemma_blockers_weight_bound(blockers, from + 1);
    }
}

/// A pass over a tree into a sink that has seen nothing leaves a sink that
/// stands for the markup of the tree. Where nothing in the tree suspends,
/// the whole markup has left the sink when the pass ends and nothing is
/// held back: the sink then does what a single synchronous pass does.
pub proof fn lemma_first_pass(node: VNode, hydratable: bool)
    requires
        renderable(node),
    ensures
        SinkView::fresh(hydratable).apply_all(events_of(node, hydratable)).rested(),
        SinkView::fresh(hydratable).apply_all(events_of(node, hydratable)).well_formed(),
        SinkView::fresh(hydratable).apply_all(events_of(node, hydratable)).document() == html_of(
            node,
            hydratable,
        ),
        SinkView::fresh(hydratable).apply_all(events_of(node, hydratable)).weight()
            == suspensions_in(node),
        suspensions_in(node) == 0 ==> SinkView::fresh(hydratable).apply_all(
            events_of(node, hydratable),
        ) == (SinkView { output: html_of(node, hydratable), ..SinkView::fresh(hydratable) }),
{
    let fresh = SinkView::fresh(hydratable);
    let events = events_of(node, hydratable);
    let after = fresh.apply_all(events);
    lemma_events_of(node, hydratable);
    fresh.lemma_apply_effect(events);
    assert(fresh.front() =~= Seq::empty());
    assert(after.document() =~= html_of(node, hydratable));
    lemma_blockers_weight_bound(after.current.blockers, 0);
    if suspensions_in(node) == 0 {
        assert(after.current.blockers =~= Seq::empty());
        assert(after.current.buffer =~= Seq::empty());
        assert(after.output =~= html_of(node, hydratable));
    }
}

/// The same for a component at the root of a tree.
pub proof fn lemma_first_pass_of_root(root: Mountable, hydratable: bool)
    requires
        renderable(*root.html),
    ensures
        ({
            let events = if root.suspended {
                seq![Event::Suspend(root)]
            } else {
                events_of_mountable(root, hydratable)
            };
            let after = SinkView::fresh(hydratable).apply_all(events);
            &&& after.rested()
            &&& after.well_formed()
            &&& after.document() == html_of_mountable(root, hydratable)
        }),
{
    let fresh = SinkView::fresh(hydratable);
    let events = if root.suspended {
        seq![Event::Suspend(root)]
    } else {
        events_of_mountable(root, hydratable)
    };
    let after = fresh.apply_all(events);
    if root.suspended {
        lemma_events_suspend(root, hydratable);
    } else {
        lemma_events_of_mountable(root, hydratable);
    }
    fresh.lemma_apply_effect(events);
    assert(fresh.front() =~= Seq::empty());
    assert(after.document() =~= html_of_mountable(root, hydratable));
}

/// Whether a tree holds neither a component nor a suspense boundary
/// among the nodes that are serialised.
pub open spec fn marker_free(node: VNode) -> bool
    decreases node, 0nat,
{
    match node {
        VNode::VTag(tag) => match tag.inner {
            VTagInner::Other { tag: name, children } => is_void_element(name@) || all_marker_free(
                children.children@,
                0,
            ),
            _ => true,
        },
        VNode::VText(_) => true,
        VNode::VComp(_) => false,
        VNode::VList(list) => all_marker_free(list.children@, 0),
        VNode::VPortal(_) => true,
        VNode::VRef(_) => true,
        VNode::VSuspense(_) => false,
    }
}

/// Whether the nodes from position `from` on are all free of markers.
pub open spec fn all_marker_free(nodes: Seq<VNode>, from: int) -> bool
    decreases nodes, nodes.len() - from,
{
    if 0 <= from < nodes.len() {
        marker_free(nodes[from]) && all_marker_free(nodes, from + 1)
    } else {
        true
    }
}

/// A tree without components and suspense boundaries has the same markup
/// whether or not the output is hydratable: the two modes differ in the
/// markers alone.
pub proof fn lemma_hydration_changes_markers_only(node: VNode)
    requires
        marker_free(node),
    ensures
        html_of(node, true) == html_of(node, false),
    decreases node, 0nat,
{
    match node {
        VNode::VTag(tag) => {
            match tag.inner {
                VTagInner::Other { tag: name, children } => {
                    if !is_void_element(name@) {
                        lemma_hydration_changes_markers_only_all(children.children@, 0);
                    }
                },
                _ => {},
            }
            assert(html_of_tag(*tag, true) == html_of_tag(*tag, false));
        },
        VNode::VList(list) => {
            lemma_hydration_changes_markers_only_all(list.children@, 0);
        },
        _ => {},
    }
}

/// The same for a run of nodes.
pub proof fn lemma_hydration_changes_markers_only_all(nodes: Seq<VNode>, from: int)
    requires
        all_marker_free(nodes, from),
        0 <= from,
    ensures
        html_of_all(nodes, from, true) == html_of_all(nodes, from, false),
    decreases nodes, nodes.len() - from,
{
    if from < nodes.len() {
        lemma_hydration_changes_markers_only(nodes[from]);
        lemma_hydration_changes_markers_only_all(nodes, from + 1);
    }
}

/// Hydratable output encloses the markup of a suspense boundary in a pair
/// of markers that match and fit nothing else; output that is not
/// hydratable holds the markup of the children and no marker.
pub proof fn lemma_suspense_markers(suspense: VSuspense)
    ensures
        html_of_suspense(suspense, true) == Collectable::Suspense.open_tag() + html_of(
            *suspense.children,
            true,
        ) + Collectable::Suspense.close_tag(),
        html_of_suspense(suspense, false) == html_of(*suspense.children, false),
        Collectable::Suspense.open_tag() == "<!--"@ + "<?"@ + ">"@ + "-->"@,
        Collectable::Suspense.close_tag() == "<!--"@ + "</?"@ + ">"@ + "-->"@,
        Collectable::Suspense.open_tag() != Collectable::Suspense.close_tag(),
{
    assert(html_of_suspense(suspense, false) =~= html_of(*suspense.children, false));
    let open = Collectable::Suspense.open_tag();
    let close = Collectable::Suspense.close_tag();
    assert(open =~= "<!--"@ + "<?"@ + ">"@ + "-->"@);
    assert(close =~= "<!--"@ + "</?"@ + ">"@ + "-->"@);
    reveal_strlit("<!--");
    reveal_strlit("<?");
    reveal_strlit("</?");
    reveal_strlit(">");
    reveal_strlit("-->");
    assert(open.len() == 10);
    assert(close.len() == 11);
}

/// Hydratable output encloses the markup of a component in a pair of
/// markers that carry the name of the component; output that is not
/// hydratable holds the markup of the view and no marker.
pub proof fn lemma_component_markers(mountable: Mountable)
    ensures
        html_of_mountable(mountable, true) == Collectable::Component(mountable.name).open_tag()
            + html_of(mountable.tree(), true) + Collectable::Component(
            mountable.name,
        ).close_tag(),
        html_of_mountable(mountable, false) == html_of(mountable.tree(), false),
        Collectable::Component(mountable.name).open_tag() == "<!--"@ + "<["@ + mountable.name@
            + "]>"@ + "-->"@,
        Collectable::Component(mountable.name).close_tag() == "<!--"@ + "</["@ + mountable.name@
            + "]>"@ + "-->"@,
{
    assert(html_of_mountable(mountable, false) =~= html_of(mountable.tree(), false));
}

/// Serialising a text node and reading the character references back
/// yields the text of the node, whatever it holds.
pub proof fn lemma_text_node_round_trip(text: VText, hydratable: bool)
    ensures
        unescape(html_of(VNode::VText(text), hydratable)) == text.text@,
{
    lemma_unescape_escape_text(text.text@);
}

impl SinkView {
    /// The sink after one step of draining: the first blocker is taken out
    /// and its component, now awaited, is serialised in its place.
    pub open spec fn drained_once(self) -> SinkView
        recommends
            self.current.blockers.len() > 0,
    {
        self.taken().apply_all(
            events_of_mountable(self.current.blockers[0].work, self.hydratable),
        ).restored()
    }

    /// One step of draining changes nothing in the document that the sink
    /// stands for. What had left the sink stays as it was and is followed
    /// by the prefix of the blocker; one component fewer is awaited, so no
    /// blocker is drained twice.
    pub proof fn lemma_drain_step(self)
        requires
            self.well_formed(),
            self.current.blockers.len() > 0,
        ensures
            self.drained_once().well_formed(),
            self.drained_once().rested(),
            self.drained_once().document() == self.document(),
            self.drained_once().weight() + 1 == self.weight(),
            self.drained_once().hydratable == self.hydratable,
            starts_with(
                self.drained_once().output,
                self.output + self.current.blockers[0].prefix,
            ),
    {
        let work = self.current.blockers[0].work;
        let events = events_of_mountable(work, self.hydratable);
        let taken = self.taken();
        let filled = taken.apply_all(events);
        self.lemma_taken();
        lemma_events_of_mountable(work, self.hydratable);
        taken.lemma_apply_effect(events);
        filled.lemma_restored();
        filled.lemma_restored_output();
        taken.lemma_apply_output(events);
        let wanted = self.output + self.current.blockers[0].prefix;
        assert(taken.output == wanted);
        assert(filled.restored().output.subrange(0, wanted.len() as int) =~= wanted) by {
            assert(filled.output.subrange(0, wanted.len() as int) == wanted);
            assert forall|i: int| 0 <= i < wanted.len() implies filled.restored().output[i]
                == wanted[i] by {
                assert(filled.restored().output.subrange(0, filled.output.len() as int)[i]
                    == filled.output[i]);
                assert(filled.output.subrange(0, wanted.len() as int)[i] == filled.output[i]);
            }
        }
    }

    /// Whatever has left the sink stays: writing and suspending only add
    /// to the output.
    pub proof fn lemma_apply_output(self, events: Seq<Event>)
        ensures
            starts_with(self.apply_all(events).output, self.output),
        decreases events.len(),
    {
        if events.len() == 0 {
            assert(self.output.subrange(0, self.output.len() as int) =~= self.output);
        } else {
            let next = self.apply(events[0]);
            next.lemma_apply_output(events.drop_first());
            let last = self.apply_all(events);
            assert(starts_with(next.output, self.output)) by {
                assert(next.output.subrange(0, self.output.len() as int) =~= self.output);
            }
            assert(last.output.subrange(0, self.output.len() as int) =~= self.output) by {
                assert forall|i: int| 0 <= i < self.output.len() implies last.output[i]
                    == self.output[i] by {
                    assert(last.output.subrange(0, next.output.len() as int)[i] == next.output[i]);
                    assert(next.output.subrange(0, self.output.len() as int)[i] == self.output[i]);
                }
            }
        }
    }

    /// Whatever has left the sink stays when levels are closed.
    pub proof fn lemma_restored_output(self)
        ensures
            starts_with(self.restored().output, self.output),
        decreases self.shelved.len(),
    {
        if self.current.blockers.len() == 0 {
            let flushed = self.output + self.current.buffer;
            if self.shelved.len() == 0 {
                assert(self.restored().output.subrange(0, self.output.len() as int)
                    =~= self.output);
            } else {
                let next = SinkView {
                    output: flushed,
                    current: self.shelved.last(),
                    shelved: self.shelved.drop_last(),
                    ..self
                };
                next.lemma_restored_output();
                assert(self.restored().output.subrange(0, self.output.len() as int)
                    =~= self.output) by {
                    assert forall|i: int| 0 <= i < self.output.len() implies self.restored().output[i]
                        == self.output[i] by {
                        assert(next.restored().output.subrange(0, flushed.len() as int)[i]
                            == flushed[i]);
                    }
                }
            }
        } else {
            assert(self.output.subrange(0, self.output.len() as int) =~= self.output);
        }
    }
}

/// A list is transparent: the markup of two runs of nodes, one after the
/// other, is the markup of the nodes in one run.
pub proof fn lemma_list_is_transparent(first: Seq<VNode>, second: Seq<VNode>, hydratable: bool)
    ensures
        html_of_all(first + second, 0, hydratable) == html_of_all(first, 0, hydratable)
            + html_of_all(second, 0, hydratable),
{
    lemma_html_of_all_concat(first, second, 0, hydratable);
}

proof fn lemma_html_of_all_concat(
    first: Seq<VNode>,
    second: Seq<VNode>,
    from: int,
    hydratable: bool,
)
    requires
        0 <= from <= first.len(),
    ensures
        html_of_all(first + second, from, hydratable) == html_of_all(first, from, hydratable)
            + html_of_all(second, 0, hydratable),
    decreases first.len() - from,
{
    let both = first + second;
    if from < first.len() {
        lemma_html_of_all_concat(first, second, from + 1, hydratable);
        assert(both[from] == first[from]);
        assert(html_of_all(both, from, hydratable) =~= html_of_all(first, from, hydratable)
            + html_of_all(second, 0, hydratable));
    } else {
        lemma_html_of_all_shift(both, second, from, 0, hydratable);
        assert(html_of_all(first, from, hydratable) =~= Seq::empty());
        assert(html_of_all(both, from, hydratable) =~= html_of_all(first, from, hydratable)
            + html_of_all(second, 0, hydratable));
    }
}

proof fn lemma_html_of_all_shift(
    long: Seq<VNode>,
    short: Seq<VNode>,
    offset: int,
    from: int,
    hydratable: bool,
)
    requires
        0 <= offset,
        0 <= from <= short.len(),
        long.len() == short.len() + offset,
        forall|i: int| 0 <= i < short.len() ==> long[offset + i] == short[i],
    ensures
        html_of_all(long, offset + from, hydratable) == html_of_all(short, from, hydratable),
    decreases short.len() - from,
{
    if from < short.len() {
        lemma_html_of_all_shift(long, short, offset, from + 1, hydratable);
    }
}

} // verus!
