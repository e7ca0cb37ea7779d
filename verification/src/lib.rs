//! Webviews as child windows of a game window: where each one sits, and how
//! messages travel between the page inside it and the host.
//!
//! The library decides and the host performs. Given the size of the window
//! and a scale factor, [`components::bounds`] resolves an anchor to a
//! rectangle; [`components::webview`] keeps the webviews of a window by name;
//! [`events`] and [`websocket`] say what is queued on a message bus, what is
//! handed out, and when a connection ends. Nothing here opens a window or a
//! socket.

pub mod communication;
pub mod components;
pub mod dpi;
pub mod error;
pub mod events;
pub mod systems;
pub mod types;
pub mod websocket;

pub use dpi::{Position as WryPosition, Size as WrySize};
