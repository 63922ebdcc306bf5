//! A virtual-document model with a suspense-aware streaming server renderer.
//!
//! The node model lives in [`virtual_dom`], the component abstraction in
//! [`html`], the streaming sink that serialises a tree in document order in
//! [`server_bundle`], and the two entry points in [`server_renderer`] and
//! [`renderer`].

pub mod escape;
pub mod html;
pub mod renderer;
pub mod server_bundle;
pub mod server_renderer;
pub mod virtual_dom;

pub use html::BaseComponent;
pub use html::HtmlResult;
pub use renderer::Renderer;
pub use server_renderer::ServerRenderer;
