//! The state of the sink as a mathematical value, and what a pass over a
//! tree does to it.

use super::model::close_marker;
use super::model::html_of_mountable;
use super::model::open_marker;
use super::model::renderable;
use super::model::tag_close_text;
use super::model::tag_open_text;
use crate::escape::escape_text;
use crate::virtual_dom::vcomp::Mountable;
use crate::virtual_dom::vcomp::VComp;
use crate::virtual_dom::vsuspense::VSuspense;
use crate::virtual_dom::vtag::VTag;
use crate::virtual_dom::vnode::VNode;
use crate::virtual_dom::vtag::is_void_element;
use crate::virtual_dom::vtag::VTagInner;
use crate::virtual_dom::Collectable;
use vstd::prelude::*;

verus! {

/// A suspended component together with the text that was written since the
/// suspension before it.
pub struct Pending {
    /// The text that precedes the component in the document.
    pub prefix: Seq<char>,
    /// The component whose view is awaited.
    pub work: Mountable,
}

/// One level of suspension: the components that wait, first come first,
/// and the text written after the last of them.
pub struct Level {
    /// The components that wait, with the text before each.
    pub blockers: Seq<Pending>,
    /// The text behind the last blocker.
    pub buffer: Seq<char>,
}

/// The sink as a value.
pub struct SinkView {
    /// What has left the sink: the part of the document that is final.
    pub output: Seq<char>,
    /// The level that is being filled.
    pub current: Level,
    /// The levels that wait for the current one to drain; the last one
    /// resumes first.
    pub shelved: Seq<Level>,
    /// Whether markers are written.
    pub hydratable: bool,
}

/// What a pass over a tree hands to the sink, in document order.
pub enum Event {
    /// Text to write.
    Text(Seq<char>),
    /// A component whose view is not complete.
    Suspend(Mountable),
}

/// The number of suspended components in a tree, those inside the views of
/// suspended components included.
pub open spec fn suspensions_in(node: VNode) -> nat
    decreases node, 0nat,
{
    match node {
        VNode::VTag(tag) => suspensions_in_tag(*tag),
        VNode::VText(_) => 0,
        VNode::VComp(comp) => suspensions_in_mountable(comp.mountable),
        VNode::VList(list) => suspensions_in_all(list.children@, 0),
        VNode::VPortal(_) => 0,
        VNode::VRef(_) => 0,
        VNode::VSuspense(suspense) => suspensions_in(*suspense.children),
    }
}

/// The number of suspended components under an element.
pub open spec fn suspensions_in_tag(tag: VTag) -> nat
    decreases tag, 1nat,
{
    match tag.inner {
        VTagInner::Other { tag: name, children } => if is_void_element(name@) {
            0
        } else {
            suspensions_in_all(children.children@, 0)
        },
        _ => 0,
    }
}

/// The number of suspended components that a component stands for: itself
/// where its view is not complete, and those in its view.
pub open spec fn suspensions_in_mountable(mountable: Mountable) -> nat
    decreases mountable, 1nat,
{
    (if mountable.suspended {
        1nat
    } else {
        0nat
    }) + suspensions_in(*mountable.html)
}

/// The number of suspended components in the nodes from position `from` on.
pub open spec fn suspensions_in_all(nodes: Seq<VNode>, from: int) -> nat
    decreases nodes, nodes.len() - from,
{
    if 0 <= from < nodes.len() {
        suspensions_in(nodes[from]) + suspensions_in_all(nodes, from + 1)
    } else {
        0
    }
}

/// What a pass over `node` hands to the sink: the text of everything that
/// is ready, and each component whose view is not complete in the place
/// where its markup belongs.
pub open spec fn events_of(node: VNode, hydratable: bool) -> Seq<Event>
    decreases node, 0nat,
{
    match node {
        VNode::VTag(tag) => events_of_tag(*tag, hydratable),
        VNode::VText(text) => seq![Event::Text(escape_text(text.text@))],
        VNode::VComp(comp) => events_of_comp(comp, hydratable),
        VNode::VList(list) => events_of_all(list.children@, 0, hydratable),
        VNode::VPortal(_) => Seq::empty(),
        VNode::VRef(_) => Seq::empty(),
        VNode::VSuspense(suspense) => events_of_suspense(suspense, hydratable),
    }
}

/// What a pass over an element hands to the sink.
pub open spec fn events_of_tag(tag: VTag, hydratable: bool) -> Seq<Event>
    decreases tag, 1nat,
{
    seq![Event::Text(tag_open_text(tag))] + (match tag.inner {
        VTagInner::Other { tag: name, children } => if is_void_element(name@) {
            Seq::empty()
        } else {
            events_of_all(children.children@, 0, hydratable)
        },
        _ => Seq::empty(),
    }) + seq![Event::Text(tag_close_text(tag))]
}

/// What a pass over a component node hands to the sink: the component
/// itself where its view is not complete, the events of its view
/// otherwise.
pub open spec fn events_of_comp(comp: VComp, hydratable: bool) -> Seq<Event>
    decreases comp, 2nat,
{
    if comp.mountable.suspended {
        seq![Event::Suspend(comp.mountable)]
    } else {
        events_of_mountable(comp.mountable, hydratable)
    }
}

/// What a pass over a suspense boundary hands to the sink.
pub open spec fn events_of_suspense(suspense: VSuspense, hydratable: bool) -> Seq<Event>
    decreases suspense, 1nat,
{
    seq![Event::Text(open_marker(Collectable::Suspense, hydratable))] + events_of(
        *suspense.children,
        hydratable,
    ) + seq![Event::Text(close_marker(Collectable::Suspense, hydratable))]
}

/// What a pass over the nodes from position `from` on hands to the sink.
pub open spec fn events_of_all(nodes: Seq<VNode>, from: int, hydratable: bool) -> Seq<Event>
    decreases nodes, nodes.len() - from,
{
    if 0 <= from < nodes.len() {
        events_of(nodes[from], hydratable) + events_of_all(nodes, from + 1, hydratable)
    } else {
        Seq::empty()
    }
}

/// What a pass over a component whose view is complete hands to the sink:
/// the events of the view between the markers of the component.
pub open spec fn events_of_mountable(mountable: Mountable, hydratable: bool) -> Seq<Event>
    decreases mountable, 1nat,
{
    seq![Event::Text(open_marker(Collectable::Component(mountable.name), hydratable))] + events_of(
        *mountable.html,
        hydratable,
    ) + seq![Event::Text(close_marker(Collectable::Component(mountable.name), hydratable))]
}

/// The markup that a run of events stands for, every suspended component
/// taken with the markup of its view.
pub open spec fn text_of_events(events: Seq<Event>, hydratable: bool) -> Seq<char>
    decreases events.len(),
{
    if events.len() == 0 {
        Seq::empty()
    } else {
        (match events[0] {
            Event::Text(text) => text,
            Event::Suspend(work) => html_of_mountable(work, hydratable),
        }) + text_of_events(events.drop_first(), hydratable)
    }
}

/// The number of components that a run of events leaves to be awaited,
/// those inside their views included.
pub open spec fn weight_of_events(events: Seq<Event>) -> nat
    decreases events.len(),
{
    if events.len() == 0 {
        0
    } else {
        (match events[0] {
            Event::Text(_) => 0nat,
            Event::Suspend(work) => 1 + suspensions_in(*work.html),
        }) + weight_of_events(events.drop_first())
    }
}

/// The markup of the blockers from position `from` on: each prefix and the
/// markup of the component that follows it.
pub open spec fn blockers_text(blockers: Seq<Pending>, from: int, hydratable: bool) -> Seq<char>
    decreases blockers.len() - from,
{
    if 0 <= from < blockers.len() {
        blockers[from].prefix + html_of_mountable(blockers[from].work, hydratable) + blockers_text(
            blockers,
            from + 1,
            hydratable,
        )
    } else {
        Seq::empty()
    }
}

/// The number of components that the blockers from position `from` on
/// leave to be awaited.
pub open spec fn blockers_weight(blockers: Seq<Pending>, from: int) -> nat
    decreases blockers.len() - from,
{
    if 0 <= from < blockers.len() {
        1 + suspensions_in(*blockers[from].work.html) + blockers_weight(blockers, from + 1)
    } else {
        0
    }
}

impl Level {
    /// A level that holds nothing.
    pub open spec fn empty() -> Level {
        Level { blockers: Seq::empty(), buffer: Seq::empty() }
    }

    /// The markup that the level stands for.
    pub open spec fn text(self, hydratable: bool) -> Seq<char> {
        blockers_text(self.blockers, 0, hydratable) + self.buffer
    }

    /// The number of components that the level leaves to be awaited.
    pub open spec fn weight(self) -> nat {
        blockers_weight(self.blockers, 0)
    }
}

/// Every blocker waits for a component whose view can be serialised.
pub open spec fn blockers_renderable(blockers: Seq<Pending>) -> bool {
    forall|i: int| 0 <= i < blockers.len() ==> renderable(*(#[trigger] blockers[i]).work.html)
}

/// Every level waits only for components whose views can be serialised.
pub open spec fn levels_renderable(levels: Seq<Level>) -> bool {
    forall|k: int| 0 <= k < levels.len() ==> blockers_renderable((#[trigger] levels[k]).blockers)
}

/// A sink in which every component that waits can be serialised.
pub open spec fn works_renderable(sink: SinkView) -> bool {
    &&& blockers_renderable(sink.current.blockers)
    &&& levels_renderable(sink.shelved)
}

/// The markup of the first `upto` shelved levels, in the order in which
/// they resume: the last one first.
pub open spec fn shelved_text(shelved: Seq<Level>, upto: int, hydratable: bool) -> Seq<char>
    decreases upto,
{
    if 0 < upto <= shelved.len() {
        shelved[upto - 1].text(hydratable) + shelved_text(shelved, upto - 1, hydratable)
    } else {
        Seq::empty()
    }
}

/// The number of components that the first `upto` shelved levels leave to
/// be awaited.
pub open spec fn shelved_weight(shelved: Seq<Level>, upto: int) -> nat
    decreases upto,
{
    if 0 < upto <= shelved.len() {
        shelved[upto - 1].weight() + shelved_weight(shelved, upto - 1)
    } else {
        0
    }
}

impl SinkView {
    /// A sink that has seen nothing.
    pub open spec fn fresh(hydratable: bool) -> SinkView {
        SinkView {
            output: Seq::empty(),
            current: Level::empty(),
            shelved: Seq::empty(),
            hydratable,
        }
    }

    /// Text waits in the buffer only behind a blocker.
    pub open spec fn settled(self) -> bool {
        self.current.blockers.len() == 0 ==> self.current.buffer.len() == 0
    }

    /// What holds of a sink between any two calls: text waits only behind
    /// a blocker, and every component that is waited for has a view that
    /// can be serialised.
    pub open spec fn well_formed(self) -> bool {
        self.settled() && works_renderable(self)
    }

    /// Between two steps of draining: a level is shelved only while the
    /// current one holds a blocker.
    pub open spec fn rested(self) -> bool {
        &&& self.settled()
        &&& self.current.blockers.len() == 0 ==> self.shelved.len() == 0
    }

    /// Writing `text`: it leaves the sink at once where no blocker stands
    /// before it, and waits in the buffer otherwise.
    pub open spec fn write(self, text: Seq<char>) -> SinkView {
        if self.current.blockers.len() == 0 {
            SinkView { output: self.output + text, ..self }
        } else {
            SinkView {
                current: Level { buffer: self.current.buffer + text, ..self.current },
                ..self
            }
        }
    }

    /// Suspending on `work`: the buffered text is detached and queued with
    /// the component as the last blocker.
    pub open spec fn suspend(self, work: Mountable) -> SinkView {
        SinkView {
            current: Level {
                blockers: self.current.blockers.push(
                    Pending { prefix: self.current.buffer, work },
                ),
                buffer: Seq::empty(),
            },
            ..self
        }
    }

    /// The sink after one event.
    pub open spec fn apply(self, event: Event) -> SinkView {
        match event {
            Event::Text(text) => self.write(text),
            Event::Suspend(work) => self.suspend(work),
        }
    }

    /// The sink after a run of events.
    pub open spec fn apply_all(self, events: Seq<Event>) -> SinkView
        decreases events.len(),
    {
        if events.len() == 0 {
            self
        } else {
            self.apply(events[0]).apply_all(events.drop_first())
        }
    }

    /// The sink after the first blocker was taken out to be awaited: its
    /// prefix has left the sink, and what stood behind it is shelved.
    pub open spec fn taken(self) -> SinkView
        recommends
            self.current.blockers.len() > 0,
    {
        SinkView {
            output: self.output + self.current.blockers[0].prefix,
            current: Level::empty(),
            shelved: self.shelved.push(
                Level { blockers: self.current.blockers.drop_first(), buffer: self.current.buffer },
            ),
            ..self
        }
    }

    /// The sink after the levels that have nothing left to await were
    /// closed: while no blocker stands in the current level, its buffer
    /// leaves the sink and the level shelved last resumes.
    pub open spec fn restored(self) -> SinkView
        decreases self.shelved.len(),
    {
        if self.current.blockers.len() == 0 {
            let flushed = self.output + self.current.buffer;
            if self.shelved.len() == 0 {
                SinkView { output: flushed, current: Level::empty(), ..self }
            } else {
                (SinkView {
                    output: flushed,
                    current: self.shelved.last(),
                    shelved: self.shelved.drop_last(),
                    ..self
                }).restored()
            }
        } else {
            self
        }
    }

    /// The part of the document up to the end of the current level.
    pub open spec fn front(self) -> Seq<char> {
        self.output + self.current.text(self.hydratable)
    }

    /// The whole document that the sink stands for: what has left it, then
    /// the current level, then the shelved levels as they resume.
    pub open spec fn document(self) -> Seq<char> {
        self.front() + shelved_text(self.shelved, self.shelved.len() as int, self.hydratable)
    }

    /// The number of components that are still to be awaited.
    pub open spec fn weight(self) -> nat {
        self.current.weight() + shelved_weight(self.shelved, self.shelved.len() as int)
    }
}


impl SinkView {
    /// Writing two texts in turn is writing the two as one.
    pub proof fn lemma_write_write(self, a: Seq<char>, b: Seq<char>)
        ensures
            self.write(a).write(b) == self.write(a + b),
    {
        let left = self.write(a).write(b);
        let right = self.write(a + b);
        assert(left.output =~= right.output);
        assert(left.current.buffer =~= right.current.buffer);
        assert(left.current == right.current);
    }

    /// Writing nothing changes nothing.
    pub proof fn lemma_write_nothing(self)
        ensures
            self.write(Seq::empty()) == self,
    {
        let written = self.write(Seq::empty());
        assert(written.output =~= self.output);
        assert(written.current.buffer =~= self.current.buffer);
        assert(written.current == self.current);
    }

    /// A run of one event is that event.
    pub proof fn lemma_apply_one(self, event: Event)
        ensures
            self.apply_all(seq![event]) == self.apply(event),
    {
        let events = seq![event];
        assert(events.drop_first().len() == 0);
        assert(self.apply(events[0]).apply_all(events.drop_first()) == self.apply(event));
    }

    /// A run of events leaves the shelved levels and the mode as they are.
    pub proof fn lemma_apply_keeps(self, events: Seq<Event>)
        ensures
            self.apply_all(events).hydratable == self.hydratable,
            self.apply_all(events).shelved == self.shelved,
        decreases events.len(),
    {
        if events.len() > 0 {
            self.apply(events[0]).lemma_apply_keeps(events.drop_first());
        }
    }

    /// A run of no event changes nothing.
    pub proof fn lemma_apply_none(self)
        ensures
            self.apply_all(Seq::empty()) == self,
    {
    }

    /// Two runs in turn are the two as one run.
    pub proof fn lemma_apply_concat(self, first: Seq<Event>, second: Seq<Event>)
        ensures
            self.apply_all(first + second) == self.apply_all(first).apply_all(second),
        decreases first.len(),
    {
        if first.len() == 0 {
            assert(first + second =~= second);
        } else {
            assert((first + second).drop_first() =~= first.drop_first() + second);
            self.apply(first[0]).lemma_apply_concat(first.drop_first(), second);
        }
    }

    /// A run that stands between two texts writes the first text, runs,
    /// and writes the second.
    pub proof fn lemma_apply_wrapped(self, open: Seq<char>, inner: Seq<Event>, close: Seq<char>)
        ensures
            self.apply_all(seq![Event::Text(open)] + inner + seq![Event::Text(close)])
                == self.write(open).apply_all(inner).write(close),
    {
        self.lemma_apply_concat(seq![Event::Text(open)] + inner, seq![Event::Text(close)]);
        self.lemma_apply_concat(seq![Event::Text(open)], inner);
        self.lemma_apply_one(Event::Text(open));
        self.write(open).apply_all(inner).lemma_apply_one(Event::Text(close));
    }
}

} // verus!
