//! A bridge between the script of a content view and the native side of an
//! application.
//!
//! A request of the page is routed to a static asset or to a named command;
//! a command is an ordinary typed function behind a codec that decodes the
//! request body and encodes what the function returns; every response carries
//! the headers by which the page tells bridge traffic from other traffic; and
//! the scripts that set up the page's half of the bridge are rendered from
//! templates, in a fixed order, before any script of the page runs.
//!
//! Nothing here reads a file or opens a window. The host resolves a path under
//! the static root and hands over what it found; it hands requests in and
//! takes responses and scripts out.

pub mod codec;
pub mod delivery;
pub mod message;
pub mod registry;
pub mod router;
pub mod scripts;
pub mod static_assets;
pub mod template;
pub mod text;

pub use codec::CommandOutcome;
pub use message::{Request, Response};
pub use registry::Registry;
pub use router::{Origin, Router};
pub use scripts::{InitializationScript, ScriptContext, ScriptTemplates};
pub use static_assets::Asset;
