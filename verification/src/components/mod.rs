pub mod bounds;
pub mod name_index;
pub mod webview;

pub use bounds::Anchor;
