//! Rendering an application on the server.

use crate::html::BaseComponent;
use crate::server_bundle::model::{html_of_mountable, renderable};
use crate::server_bundle::RenderError;
use crate::virtual_dom::vcomp::{component_yields, Mountable, PropsWrapper};
use std::rc::Rc;
use vstd::prelude::*;
use vstd::string::StringExecFns;

verus! {

/// Renders the component `COMP` and everything under it into markup.
pub struct ServerRenderer<COMP: BaseComponent> {
    props: COMP::Properties,
    hydratable: bool,
}

impl<COMP: BaseComponent> ServerRenderer<COMP> {
    /// The properties of the root component.
    pub closed spec fn props(&self) -> COMP::Properties {
        self.props
    }

    /// Whether the markup will carry the markers that hydration needs.
    pub closed spec fn is_hydratable(&self) -> bool {
        self.hydratable
    }

    /// A renderer with the given properties for the root component. Its
    /// output is hydratable.
    pub fn with_props(props: COMP::Properties) -> (renderer: Self)
        ensures
            renderer.props() == props,
            renderer.is_hydratable(),
    {
        Self { props, hydratable: true }
    }

    /// Sets whether the markup carries the markers that hydration needs.
    pub fn hydratable(self, val: bool) -> (renderer: Self)
        ensures
            renderer.props() == self.props(),
            renderer.is_hydratable() == val,
    {
        let mut renderer = self;
        renderer.hydratable = val;
        renderer
    }

    /// Renders the application: the root component is created from the
    /// properties and asked for its view, and the markup of what it yields
    /// is returned, in document order whatever suspends. A view that
    /// cannot be serialised is refused.
    pub fn render(self) -> (out: Result<String, RenderError>)
        ensures
            self.renders(out),
    {
        let hydratable = self.hydratable;
        let root = PropsWrapper::<COMP>::new(Rc::new(self.props)).erase();
        let out = root.render(hydratable);
        assert(rendering_of(root, self.is_hydratable(), out));
        out
    }

    /// Renders the application and writes the markup behind what `w` holds.
    pub fn render_to_string(self, w: &mut String) -> (done: Result<(), RenderError>)
        ensures
            self.writes(old(w)@, final(w)@, done),
    {
        let ghost hydratable = self.is_hydratable();
        let ghost props = self.props();
        let out = self.render();
        let ghost root = choose|root: Mountable|
            component_yields::<COMP>(props, root) && #[trigger] rendering_of(root, hydratable, out);
        match out {
            Ok(markup) => {
                w.append(markup.as_str());
                assert(writing_of(root, hydratable, old(w)@, w@, Ok::<(), RenderError>(())));
                Ok(())
            },
            Err(e) => {
                assert(writing_of(root, hydratable, old(w)@, w@, Err::<(), RenderError>(e)));
                Err(e)
            },
        }
    }

    /// Whether `out` is what rendering may return: the rendering of a root
    /// that the component may yield for the properties of the renderer, in
    /// the mode of the renderer.
    pub open spec fn renders(&self, out: Result<String, RenderError>) -> bool {
        exists|root: Mountable|
            component_yields::<COMP>(self.props(), root) && #[trigger] rendering_of(
                root,
                self.is_hydratable(),
                out,
            )
    }

    /// Whether rendering behind `before` may leave `after` and return
    /// `done`: the writing of a root that the component may yield for the
    /// properties of the renderer, in the mode of the renderer.
    pub open spec fn writes(
        &self,
        before: Seq<char>,
        after: Seq<char>,
        done: Result<(), RenderError>,
    ) -> bool {
        exists|root: Mountable|
            component_yields::<COMP>(self.props(), root) && #[trigger] writing_of(
                root,
                self.is_hydratable(),
                before,
                after,
                done,
            )
    }
}

/// Whether `out` is the rendering of the tree under `root`: its markup in
/// document order, whatever in it suspends, where the view of the root can
/// be serialised, and the refusal where it cannot.
pub open spec fn rendering_of(
    root: Mountable,
    hydratable: bool,
    out: Result<String, RenderError>,
) -> bool {
    match out {
        Ok(text) => renderable(root.tree()) && text@ == html_of_mountable(root, hydratable),
        Err(e) => !renderable(root.tree()) && e == RenderError::Unrenderable,
    }
}

/// Whether `after` and `done` are what writing the tree under `root` behind
/// `before` gives: the whole markup is added where the view of the root
/// can be serialised, and nothing is written where it cannot.
pub open spec fn writing_of(
    root: Mountable,
    hydratable: bool,
    before: Seq<char>,
    after: Seq<char>,
    done: Result<(), RenderError>,
) -> bool {
    match done {
        Ok(_) => renderable(root.tree()) && after == before + html_of_mountable(root, hydratable),
        Err(e) => !renderable(root.tree()) && e == RenderError::Unrenderable && after == before,
    }
}

impl<COMP: BaseComponent> ServerRenderer<COMP> where COMP::Properties: Default {
    /// A renderer with default properties for the root component. Its
    /// output is hydratable.
    pub fn new() -> (renderer: Self)
        ensures
            call_ensures(<COMP::Properties as Default>::default, (), renderer.props()),
            renderer.is_hydratable(),
    {
        Self::with_props(COMP::Properties::default())
    }
}

} // verus!
