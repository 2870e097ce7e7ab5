//! A small UI library: pages built from Bootstrap elements, served on
//! localhost, and driven through a websocket while they run.
pub mod channel;
pub mod elem;
pub mod events;
pub mod gui;
pub mod markup;
pub mod plot;
pub mod server;
pub mod templates;
pub mod text;

pub use elem::{ElType, Elem, UiCommand};
pub use events::{Callback, Callbacks, WsAction};
pub use gui::{ColSpans, GuiCfg};
pub use server::Route;
