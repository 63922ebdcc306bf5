//! Serialising a virtual tree on the server.
//!
//! The sink takes the markup of a tree in document order. Text that no
//! suspended component precedes leaves the sink at once; text behind one
//! waits, and leaves when the components before it have been awaited and
//! serialised in their turn.

pub mod comments;
pub mod laws;
pub mod markers;
pub mod model;
pub mod state;

use crate::escape::encode_double_quoted_attribute_onto;
use crate::escape::encode_text_onto;
use crate::escape::escape_attr;
use crate::escape::escape_text;
use crate::html::SsrScope;
use crate::virtual_dom::vcomp::Mountable;
use crate::virtual_dom::vcomp::VComp;
use crate::virtual_dom::vlist::VList;
use crate::virtual_dom::vnode::VNode;
use crate::virtual_dom::vsuspense::VSuspense;
use crate::virtual_dom::vtag::check_void_element;
use crate::virtual_dom::vtag::Attribute;
use crate::virtual_dom::vtag::VTag;
use crate::virtual_dom::vtag::VTagInner;
use crate::virtual_dom::vtext::VText;
use crate::virtual_dom::Collectable;
use laws::lemma_events_of_mountable;
use laws::lemma_first_pass;
use laws::lemma_first_pass_of_root;
use model::all_renderable;
use model::attr_text;
use model::attrs_text;
use model::close_marker;
use model::html_of;
use model::html_of_mountable;
use model::input_attrs_text;
use model::open_marker;
use model::renderable;
use model::renderable_comp;
use model::renderable_suspense;
use model::renderable_tag;
use model::tag_close_text;
use model::tag_open_text;
use state::events_of;
use state::events_of_all;
use state::events_of_comp;
use state::events_of_mountable;
use state::events_of_suspense;
use state::events_of_tag;
use state::Event;
use state::Level;
use state::Pending;
use state::SinkView;
use std::collections::VecDeque;
use vstd::prelude::*;
use vstd::string::StringExecFns;

verus! {

/// A suspended component and the text that was buffered before it.
pub struct Blocker<'a> {
    prefix: String,
    work: &'a Mountable,
}

impl<'a> View for Blocker<'a> {
    type V = Pending;

    closed spec fn view(&self) -> Pending {
        Pending { prefix: self.prefix@, work: *self.work }
    }
}

/// A level that waits for the levels above it to drain.
pub struct Shelf<'a> {
    blockers: VecDeque<Blocker<'a>>,
    buffer: String,
}

impl<'a> View for Shelf<'a> {
    type V = Level;

    closed spec fn view(&self) -> Level {
        Level { blockers: self.blockers@.map_values(|b: Blocker<'a>| b@), buffer: self.buffer@ }
    }
}

/// The streaming sink.
pub struct SsrSink<'a> {
    output: String,
    buffer: String,
    current_blockers: VecDeque<Blocker<'a>>,
    queued_blockers: Vec<Shelf<'a>>,
    hydratable: bool,
}

impl<'a> View for SsrSink<'a> {
    type V = SinkView;

    closed spec fn view(&self) -> SinkView {
        SinkView {
            output: self.output@,
            current: Level {
                blockers: self.current_blockers@.map_values(|b: Blocker<'a>| b@),
                buffer: self.buffer@,
            },
            shelved: self.queued_blockers@.map_values(|s: Shelf<'a>| s@),
            hydratable: self.hydratable,
        }
    }
}

impl<'a> SsrSink<'a> {
    /// A sink that has seen nothing.
    pub fn new(hydratable: bool) -> (sink: Self)
        ensures
            sink@ == SinkView::fresh(hydratable),
            sink@.well_formed(),
    {
        let sink = Self {
            output: String::new(),
            buffer: String::new(),
            current_blockers: VecDeque::new(),
            queued_blockers: Vec::new(),
            hydratable,
        };
        assert(sink@.current.blockers =~= Seq::empty());
        assert(sink@.current == Level::empty());
        assert(sink@.shelved =~= Seq::empty());
        sink
    }

    /// Whether markers are written.
    pub fn hydratable(&self) -> (hydratable: bool)
        ensures
            hydratable == self@.hydratable,
    {
        self.hydratable
    }

    /// Where text goes: out of the sink where no blocker waits, into the
    /// buffer otherwise.
    pub fn output(&mut self) -> (destination: &mut String)
        ensures
            destination@ == (if old(self)@.current.blockers.len() == 0 {
                old(self)@.output
            } else {
                old(self)@.current.buffer
            }),
            final(self)@ == (if old(self)@.current.blockers.len() == 0 {
                SinkView { output: final(destination)@, ..old(self)@ }
            } else {
                SinkView {
                    current: Level { buffer: final(destination)@, ..old(self)@.current },
                    ..old(self)@
                }
            }),
    {
        if self.current_blockers.len() == 0 {
            &mut self.output
        } else {
            &mut self.buffer
        }
    }

    /// Writes `text` as it is.
    pub fn push_str(&mut self, text: &str)
        ensures
            final(self)@ == old(self)@.write(text@),
    {
        self.output().append(text);
    }

    /// Writes `text` escaped for an element body.
    pub fn push_text(&mut self, text: &str)
        ensures
            final(self)@ == old(self)@.write(escape_text(text@)),
    {
        encode_text_onto(text, self.output());
    }

    /// Writes `attr` escaped for a double-quoted attribute value.
    pub fn push_double_quoted_attr_value(&mut self, attr: &str)
        ensures
            final(self)@ == old(self)@.write(escape_attr(attr@)),
    {
        encode_double_quoted_attribute_onto(attr, self.output());
    }

    /// Queues a component whose view is not complete: the buffered text is
    /// detached and goes with it.
    pub fn push_suspended(&mut self, scope: SsrScope<'a>)
        ensures
            final(self)@ == old(self)@.suspend(*scope.mountable),
    {
        let mut partial_buffer = String::new();
        std::mem::swap(&mut self.buffer, &mut partial_buffer);
        self.current_blockers.push_back(Blocker { prefix: partial_buffer, work: scope.mountable });
        assert(self@.current.blockers =~= old(self)@.suspend(*scope.mountable).current.blockers);
        assert(self@.current == old(self)@.suspend(*scope.mountable).current);
    }
}

impl<'a> SsrSink<'a> {
    /// Takes the first blocker out to be awaited: its prefix leaves the
    /// sink, and the blockers and the text behind it are shelved until the
    /// component has been serialised. Without a blocker nothing changes.
    pub fn next_blocker(&mut self) -> (next: Option<SsrScope<'a>>)
        ensures
            match next {
                Some(scope) => {
                    &&& old(self)@.current.blockers.len() > 0
                    &&& *scope.mountable == old(self)@.current.blockers[0].work
                    &&& !scope.unblocked
                    &&& final(self)@ == old(self)@.taken()
                },
                None => old(self)@.current.blockers.len() == 0 && final(self)@ == old(self)@,
            },
    {
        match self.current_blockers.pop_front() {
            Some(blocker) => {
                self.output.append(blocker.prefix.as_str());
                let mut shelved_blockers = VecDeque::new();
                std::mem::swap(&mut self.current_blockers, &mut shelved_blockers);
                let mut shelved_buffer = String::new();
                std::mem::swap(&mut self.buffer, &mut shelved_buffer);
                self.queued_blockers.push(
                    Shelf { blockers: shelved_blockers, buffer: shelved_buffer },
                );
                proof {
                    let taken = old(self)@.taken();
                    assert(self@.current.blockers =~= Seq::empty());
                    assert(self@.current == Level::empty());
                    assert(self@.shelved.last().blockers =~= old(
                        self,
                    )@.current.blockers.drop_first());
                    assert(self@.shelved =~= taken.shelved);
                }
                Some(SsrScope::new(blocker.work))
            },
            None => {
                assert(self@.current.blockers =~= old(self)@.current.blockers);
                None
            },
        }
    }

    /// Closes the levels that have nothing left to await: while no blocker
    /// stands in the current level, its buffer leaves the sink and the
    /// level shelved last resumes.
    pub fn restore(&mut self)
        ensures
            final(self)@ == old(self)@.restored(),
    {
        while self.current_blockers.len() == 0
            invariant
                self@.restored() == old(self)@.restored(),
            ensures
                self@ == old(self)@.restored(),
            decreases self@.shelved.len(),
        {
            let ghost before = self@;
            let mut rest = String::new();
            std::mem::swap(&mut self.buffer, &mut rest);
            self.output.append(rest.as_str());
            match self.queued_blockers.pop() {
                Some(unshelved) => {
                    self.current_blockers = unshelved.blockers;
                    self.buffer = unshelved.buffer;
                    proof {
                        assert(self@.shelved =~= before.shelved.drop_last());
                        assert(self@.current == before.shelved.last());
                    }
                },
                None => {
                    proof {
                        assert(self@.current.blockers =~= Seq::empty());
                        assert(self@.current == Level::empty());
                        assert(self@.shelved =~= before.shelved);
                        assert(self@ == before.restored());
                    }
                    break ;
                },
            }
        }
    }

    /// Serialises a component that has been awaited, in the place that
    /// its blocker held, and closes the levels that this leaves with
    /// nothing to await.
    pub fn render_unblocked(&mut self, scope: SsrScope<'a>)
        requires
            scope.ready(),
            renderable(*scope.mountable.html),
        ensures
            final(self)@ == old(self)@.apply_all(
                events_of_mountable(*scope.mountable, old(self)@.hydratable),
            ).restored(),
    {
        scope.render_to_string(self);
        self.restore();
    }

    /// What has left the sink.
    pub fn finish(self) -> (out: String)
        ensures
            out@ == self@.output,
    {
        self.output
    }

    /// Awaits and serialises every component that the sink waits for, the
    /// first first and those that its view suspends on before the next,
    /// and returns the whole document.
    pub fn run_to_completion(self) -> (out: String)
        requires
            self@.well_formed(),
        ensures
            out@ == self@.document(),
    {
        let ghost document = self@.document();
        let mut sink = self;
        proof {
            sink@.lemma_restored();
        }
        sink.restore();
        loop
            invariant
                sink@.rested(),
                sink@.well_formed(),
                sink@.document() == document,
            ensures
                sink@.current.blockers.len() == 0,
            decreases sink@.weight(),
        {
            let ghost before = sink@;
            match sink.next_blocker() {
                Some(blocker) => {
                    let ghost taken = sink@;
                    let ghost events = events_of_mountable(*blocker.mountable, before.hydratable);
                    proof {
                        before.lemma_taken();
                        lemma_events_of_mountable(*blocker.mountable, before.hydratable);
                        taken.lemma_apply_effect(events);
                        taken.apply_all(events).lemma_restored();
                    }
                    sink.render_unblocked(blocker.unblock());
                },
                None => {
                    break ;
                },
            }
        }
        proof {
            sink@.lemma_drained();
        }
        sink.finish()
    }
}

/// Why a tree was not serialised.
#[derive(Clone, Copy, Debug, PartialEq, Eq, Structural)]
pub enum RenderError {
    /// The tree holds a node of a live surface, or a void element with
    /// children.
    Unrenderable,
}

/// Tells whether `nodes` can all be serialised.
fn check_all_renderable(nodes: &Vec<VNode>) -> (ok: bool)
    ensures
        ok == all_renderable(nodes@, 0),
    decreases nodes, 0nat,
{
    let mut i: usize = 0;
    while i < nodes.len()
        invariant
            i <= nodes.len(),
            all_renderable(nodes@, 0) == all_renderable(nodes@, i as int),
        decreases nodes.len() - i,
    {
        if !nodes[i].is_renderable() {
            return false;
        }
        i += 1;
    }
    true
}

impl VTag {
    /// Tells whether the element can be serialised.
    pub fn is_renderable(&self) -> (ok: bool)
        ensures
            ok == renderable_tag(*self),
        decreases self, 1nat,
    {
        match &self.inner {
            VTagInner::Other { tag, children } => {
                if check_void_element(tag.as_str()) && children.children.len() > 0 {
                    false
                } else {
                    check_all_renderable(&children.children)
                }
            },
            _ => true,
        }
    }
}

impl VNode {
    /// Tells whether the tree can be serialised: whether it holds no node
    /// of a live surface and no void element with children.
    pub fn is_renderable(&self) -> (ok: bool)
        ensures
            ok == renderable(*self),
        decreases self, 0nat,
    {
        match self {
            VNode::VTag(vtag) => vtag.is_renderable(),
            VNode::VText(_) => true,
            VNode::VComp(vcomp) => vcomp.mountable.html.is_renderable(),
            VNode::VList(vlist) => check_all_renderable(&vlist.children),
            VNode::VRef(_) => false,
            VNode::VPortal(_) => true,
            VNode::VSuspense(vsuspense) => vsuspense.children.is_renderable(),
        }
    }

    /// The markup of the tree in document order, whatever in it suspends.
    /// A tree that cannot be serialised is refused.
    pub fn render(&self, hydratable: bool) -> (out: Result<String, RenderError>)
        ensures
            match out {
                Ok(text) => renderable(*self) && text@ == html_of(*self, hydratable),
                Err(e) => !renderable(*self) && e == RenderError::Unrenderable,
            },
    {
        if !self.is_renderable() {
            return Err(RenderError::Unrenderable);
        }
        let mut sink = SsrSink::new(hydratable);
        self.render_to_string(&mut sink);
        proof {
            lemma_first_pass(*self, hydratable);
        }
        Ok(sink.run_to_completion())
    }
}

impl Mountable {
    /// The markup of the component at the root of a tree, whatever in the
    /// tree suspends. A tree that cannot be serialised is refused.
    pub fn render(&self, hydratable: bool) -> (out: Result<String, RenderError>)
        ensures
            match out {
                Ok(text) => renderable(*self.html) && text@ == html_of_mountable(
                    *self,
                    hydratable,
                ),
                Err(e) => !renderable(*self.html) && e == RenderError::Unrenderable,
            },
    {
        if !self.html.is_renderable() {
            return Err(RenderError::Unrenderable);
        }
        let mut sink = SsrSink::new(hydratable);
        self.pre_render().render_to_string(&mut sink);
        proof {
            lemma_first_pass_of_root(*self, hydratable);
        }
        Ok(sink.run_to_completion())
    }
}

impl Collectable {
    /// Writes the marker that opens a region of this kind.
    pub fn write_open_tag(&self, w: &mut SsrSink<'_>)
        ensures
            final(w)@ == old(w)@.write(self.open_tag()),
    {
        let ghost start = w@;
        w.push_str("<!--");
        w.push_str(self.open_start_mark());
        proof {
            start.lemma_write_write("<!--"@, self.spec_open_start_mark());
        }
        match self {
            Collectable::Component(name) => {
                w.push_str(name.as_str());
            },
            Collectable::Suspense => {
                proof {
                    w@.lemma_write_nothing();
                }
            },
        }
        proof {
            start.lemma_write_write("<!--"@ + self.spec_open_start_mark(), self.name());
        }
        w.push_str(self.end_mark());
        proof {
            start.lemma_write_write(
                "<!--"@ + self.spec_open_start_mark() + self.name(),
                self.spec_end_mark(),
            );
        }
        w.push_str("-->");
        proof {
            start.lemma_write_write(
                "<!--"@ + self.spec_open_start_mark() + self.name() + self.spec_end_mark(),
                "-->"@,
            );
        }
    }

    /// Writes the marker that closes a region of this kind.
    pub fn write_close_tag(&self, w: &mut SsrSink<'_>)
        ensures
            final(w)@ == old(w)@.write(self.close_tag()),
    {
        let ghost start = w@;
        w.push_str("<!--");
        w.push_str(self.close_start_mark());
        proof {
            start.lemma_write_write("<!--"@, self.spec_close_start_mark());
        }
        match self {
            Collectable::Component(name) => {
                w.push_str(name.as_str());
            },
            Collectable::Suspense => {
                proof {
                    w@.lemma_write_nothing();
                }
            },
        }
        proof {
            start.lemma_write_write("<!--"@ + self.spec_close_start_mark(), self.name());
        }
        w.push_str(self.end_mark());
        proof {
            start.lemma_write_write(
                "<!--"@ + self.spec_close_start_mark() + self.name(),
                self.spec_end_mark(),
            );
        }
        w.push_str("-->");
        proof {
            start.lemma_write_write(
                "<!--"@ + self.spec_close_start_mark() + self.name() + self.spec_end_mark(),
                "-->"@,
            );
        }
    }
}

/// Writes the opening marker of `kind` where the sink is hydratable.
fn write_open_marker(kind: &Collectable, w: &mut SsrSink<'_>)
    ensures
        final(w)@ == old(w)@.write(open_marker(*kind, old(w)@.hydratable)),
{
    if w.hydratable() {
        kind.write_open_tag(w);
    } else {
        proof {
            w@.lemma_write_nothing();
        }
    }
}

/// Writes the closing marker of `kind` where the sink is hydratable.
fn write_close_marker(kind: &Collectable, w: &mut SsrSink<'_>)
    ensures
        final(w)@ == old(w)@.write(close_marker(*kind, old(w)@.hydratable)),
{
    if w.hydratable() {
        kind.write_close_tag(w);
    } else {
        proof {
            w@.lemma_write_nothing();
        }
    }
}

/// Writes one attribute: a space and the name, and for an attribute with a
/// value an equals sign and the escaped value in double quotes.
fn write_attr(w: &mut SsrSink<'_>, name: &str, val: Option<&str>)
    ensures
        final(w)@ == old(w)@.write(
            attr_text(
                name@,
                match val {
                    Some(m) => Some(m@),
                    None => None,
                },
            ),
        ),
{
    let ghost start = w@;
    w.push_str(" ");
    w.push_str(name);
    proof {
        start.lemma_write_write(" "@, name@);
    }
    match val {
        Some(m) => {
            w.push_str("=\"");
            w.push_double_quoted_attr_value(m);
            w.push_str("\"");
            proof {
                start.write(" "@ + name@).lemma_write_write("=\""@, escape_attr(m@));
                start.write(" "@ + name@).lemma_write_write("=\""@ + escape_attr(m@), "\""@);
                start.lemma_write_write(" "@ + name@, "=\""@ + escape_attr(m@) + "\""@);
            }
        },
        None => {
            assert(" "@ + name@ + Seq::<char>::empty() =~= " "@ + name@);
        },
    }
}

/// Writes the attributes in their order.
fn write_attrs(w: &mut SsrSink<'_>, entries: &Vec<Attribute>)
    ensures
        final(w)@ == old(w)@.write(attrs_text(entries@, 0)),
{
    let mut i: usize = 0;
    while i < entries.len()
        invariant
            i <= entries.len(),
            w@.write(attrs_text(entries@, i as int)) == old(w)@.write(attrs_text(entries@, 0)),
        decreases entries.len() - i,
    {
        proof {
            w@.lemma_write_write(
                attr_text(entries@[i as int].name@, Some(entries@[i as int].value@)),
                attrs_text(entries@, i + 1),
            );
        }
        write_attr(w, entries[i].name.as_str(), Some(entries[i].value.as_str()));
        i += 1;
    }
    proof {
        w@.lemma_write_nothing();
    }
}

impl VTag {
    /// Writes the opening tag: the name, for an input its value and its
    /// checked state, and the attributes.
    fn write_open(&self, w: &mut SsrSink<'_>)
        ensures
            final(w)@ == old(w)@.write(tag_open_text(*self)),
    {
        let ghost start = w@;
        w.push_str("<");
        w.push_str(self.tag());
        proof {
            start.lemma_write_write("<"@, self.spec_tag());
        }
        let ghost named = w@;
        match &self.inner {
            VTagInner::Input { value, checked } => {
                match value {
                    Some(m) => {
                        write_attr(w, "value", Some(m.as_str()));
                    },
                    None => {
                        proof {
                            w@.lemma_write_nothing();
                        }
                    },
                }
                if *checked {
                    write_attr(w, "checked", None);
                } else {
                    proof {
                        w@.lemma_write_nothing();
                    }
                }
                proof {
                    named.lemma_write_write(
                        match value {
                            Some(v) => attr_text("value"@, Some(v@)),
                            None => Seq::empty(),
                        },
                        if *checked {
                            attr_text("checked"@, None)
                        } else {
                            Seq::empty()
                        },
                    );
                }
            },
            _ => {
                proof {
                    w@.lemma_write_nothing();
                }
            },
        }
        write_attrs(w, &self.attributes.entries);
        w.push_str(">");
        proof {
            let head = "<"@ + self.spec_tag();
            let own = input_attrs_text(*self);
            let rest = attrs_text(self.attributes.entries@, 0);
            start.lemma_write_write(head, own);
            start.lemma_write_write(head + own, rest);
            start.lemma_write_write(head + own + rest, ">"@);
        }
    }

    /// Serialises the element: the opening tag, the children unless the
    /// element is void, and the closing tag; a textarea has its escaped
    /// value for content.
    pub fn render_to_string<'a>(&'a self, w: &mut SsrSink<'a>)
        requires
            renderable_tag(*self),
        ensures
            final(w)@ == old(w)@.apply_all(events_of_tag(*self, old(w)@.hydratable)),
        decreases self, 1nat,
    {
        let ghost start = w@;
        let ghost hydratable = w@.hydratable;
        self.write_open(w);
        let ghost opened = w@;
        match &self.inner {
            VTagInner::Input { .. } => {
                proof {
                    opened.lemma_apply_none();
                    opened.lemma_write_nothing();
                    start.lemma_apply_wrapped(
                        tag_open_text(*self),
                        Seq::empty(),
                        tag_close_text(*self),
                    );
                    assert(seq![Event::Text(tag_open_text(*self))] + Seq::<Event>::empty()
                        =~= seq![Event::Text(tag_open_text(*self))]);
                }
            },
            VTagInner::Textarea { value } => {
                match value {
                    Some(m) => {
                        w.push_text(m.as_str());
                    },
                    None => {
                        proof {
                            w@.lemma_write_nothing();
                        }
                    },
                }
                w.push_str("</textarea>");
                proof {
                    opened.lemma_write_write(
                        match value {
                            Some(v) => escape_text(v@),
                            None => Seq::empty(),
                        },
                        "</textarea>"@,
                    );
                    opened.lemma_apply_none();
                    start.lemma_apply_wrapped(
                        tag_open_text(*self),
                        Seq::empty(),
                        tag_close_text(*self),
                    );
                }
            },
            VTagInner::Other { tag, children } => {
                if !check_void_element(tag.as_str()) {
                    proof {
                        start.lemma_apply_keeps(seq![Event::Text(tag_open_text(*self))]);
                        start.lemma_apply_one(Event::Text(tag_open_text(*self)));
                    }
                    children.render_to_string(w);
                    let ghost filled = w@;
                    w.push_str("</");
                    w.push_str(tag.as_str());
                    w.push_str(">");
                    proof {
                        filled.lemma_write_write("</"@, tag@);
                        filled.lemma_write_write("</"@ + tag@, ">"@);
                        start.lemma_apply_wrapped(
                            tag_open_text(*self),
                            events_of_all(children.children@, 0, hydratable),
                            tag_close_text(*self),
                        );
                    }
                } else {
                    proof {
                        opened.lemma_apply_none();
                        opened.lemma_write_nothing();
                        start.lemma_apply_wrapped(
                            tag_open_text(*self),
                            Seq::empty(),
                            tag_close_text(*self),
                        );
                    }
                }
            },
        }
    }
}

impl VText {
    /// Writes the text, escaped for an element body.
    pub fn render_to_string(&self, w: &mut SsrSink<'_>)
        ensures
            final(w)@ == old(w)@.apply_all(
                events_of(VNode::VText(*self), old(w)@.hydratable),
            ),
    {
        proof {
            w@.lemma_apply_one(Event::Text(escape_text(self.text@)));
        }
        w.push_text(self.text.as_str());
    }
}

impl VNode {
    /// Serialises the node into the sink, in document order.
    pub fn render_to_string<'a>(&'a self, w: &mut SsrSink<'a>)
        requires
            renderable(*self),
        ensures
            final(w)@ == old(w)@.apply_all(events_of(*self, old(w)@.hydratable)),
        decreases self, 0nat,
    {
        match self {
            VNode::VTag(vtag) => vtag.render_to_string(w),
            VNode::VText(vtext) => vtext.render_to_string(w),
            VNode::VComp(vcomp) => vcomp.render_to_string(w),
            VNode::VList(vlist) => vlist.render_to_string(w),
            VNode::VRef(_) => {},
            VNode::VPortal(_) => {},
            VNode::VSuspense(vsuspense) => vsuspense.render_to_string(w),
        }
    }
}

impl VList {
    /// Serialises the children one after the other.
    pub fn render_to_string<'a>(&'a self, w: &mut SsrSink<'a>)
        requires
            all_renderable(self.children@, 0),
        ensures
            final(w)@ == old(w)@.apply_all(
                events_of_all(self.children@, 0, old(w)@.hydratable),
            ),
        decreases self, 1nat,
    {
        render_all(&self.children, w);
    }
}

/// Serialises `nodes` one after the other.
fn render_all<'a>(nodes: &'a Vec<VNode>, w: &mut SsrSink<'a>)
    requires
        all_renderable(nodes@, 0),
    ensures
        final(w)@ == old(w)@.apply_all(events_of_all(nodes@, 0, old(w)@.hydratable)),
    decreases nodes, 0nat,
{
    let ghost hydratable = w@.hydratable;
    let mut i: usize = 0;
    while i < nodes.len()
        invariant
            i <= nodes.len(),
            all_renderable(nodes@, i as int),
            w@.hydratable == hydratable,
            hydratable == old(w)@.hydratable,
            w@.apply_all(events_of_all(nodes@, i as int, hydratable)) == old(w)@.apply_all(
                events_of_all(nodes@, 0, hydratable),
            ),
        decreases nodes.len() - i,
    {
        proof {
            w@.lemma_apply_concat(
                events_of(nodes@[i as int], hydratable),
                events_of_all(nodes@, i + 1, hydratable),
            );
            w@.lemma_apply_keeps(events_of(nodes@[i as int], hydratable));
        }
        nodes[i].render_to_string(w);
        i += 1;
    }
}

impl VSuspense {
    /// Serialises the children of the boundary, between the markers of the
    /// boundary where the sink is hydratable.
    pub fn render_to_string<'a>(&'a self, w: &mut SsrSink<'a>)
        requires
            renderable_suspense(*self),
        ensures
            final(w)@ == old(w)@.apply_all(events_of_suspense(*self, old(w)@.hydratable)),
        decreases self, 1nat,
    {
        let ghost start = w@;
        let ghost hydratable = w@.hydratable;
        let ghost opening = seq![Event::Text(open_marker(Collectable::Suspense, hydratable))];
        let ghost inner = events_of(*self.children, hydratable);
        let ghost closing = seq![Event::Text(close_marker(Collectable::Suspense, hydratable))];
        let collectable = Collectable::Suspense;
        write_open_marker(&collectable, w);
        proof {
            start.lemma_apply_one(opening[0]);
            w@.lemma_apply_keeps(inner);
        }
        self.children.render_to_string(w);
        proof {
            w@.lemma_apply_one(closing[0]);
        }
        write_close_marker(&collectable, w);
        proof {
            start.lemma_apply_concat(opening, inner);
            start.lemma_apply_concat(opening + inner, closing);
        }
    }
}

impl<'a> SsrScope<'a> {
    /// Serialises the instance: one whose view is not complete is queued
    /// in the sink, any other is written between the markers of its
    /// component.
    pub fn render_to_string(self, w: &mut SsrSink<'a>)
        requires
            renderable(*self.mountable.html),
        ensures
            final(w)@ == old(w)@.apply_all(
                if self.ready() {
                    events_of_mountable(*self.mountable, old(w)@.hydratable)
                } else {
                    seq![Event::Suspend(*self.mountable)]
                },
            ),
        decreases self.mountable, 1nat,
    {
        if self.is_ready() {
            let ghost start = w@;
            let ghost hydratable = w@.hydratable;
            let ghost kind = Collectable::Component(self.mountable.name);
            let ghost opening = seq![Event::Text(open_marker(kind, hydratable))];
            let ghost inner = events_of(self.mountable.tree(), hydratable);
            let ghost closing = seq![Event::Text(close_marker(kind, hydratable))];
            let collectable = Collectable::Component(self.mountable.name.clone());
            write_open_marker(&collectable, w);
            proof {
                start.lemma_apply_one(opening[0]);
                w@.lemma_apply_keeps(inner);
            }
            self.mountable.html.render_to_string(w);
            proof {
                w@.lemma_apply_one(closing[0]);
            }
            write_close_marker(&collectable, w);
            proof {
                start.lemma_apply_concat(opening, inner);
                start.lemma_apply_concat(opening + inner, closing);
            }
        } else {
            proof {
                w@.lemma_apply_one(Event::Suspend(*self.mountable));
            }
            w.push_suspended(self);
        }
    }
}

impl Mountable {
    /// The instance of the component on the server, as it stands before
    /// anything it waits for is done.
    pub fn pre_render<'a>(&'a self) -> (scope: SsrScope<'a>)
        ensures
            scope.mountable == self,
            !scope.unblocked,
    {
        SsrScope::new(self)
    }
}

impl VComp {
    /// Serialises the component: its view between the markers of the
    /// component, or the component itself queued in the sink where its
    /// view is not complete.
    pub fn render_to_string<'a>(&'a self, w: &mut SsrSink<'a>)
        requires
            renderable_comp(*self),
        ensures
            final(w)@ == old(w)@.apply_all(events_of_comp(*self, old(w)@.hydratable)),
        decreases self, 2nat,
    {
        self.mountable.pre_render().render_to_string(w)
    }
}

} // verus!
