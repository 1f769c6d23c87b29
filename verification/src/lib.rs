//! clipd: an HTTP bridge to the macOS pasteboard.
pub mod auth;
pub mod body;
pub mod clipboard;
pub mod headers;
pub mod imaging;
pub mod reply;
pub mod text;
