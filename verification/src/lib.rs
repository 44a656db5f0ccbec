//! Native backend for a desktop image viewer: a small, stateless command
//! surface that a GUI host runtime invokes to load image files as text-safe
//! payloads and to adjust window presentation (opacity, always-on-top).
//!
//! The host runtime owns the actual window resource and the filesystem
//! access; this crate holds the logic of each command — clamping, encoding,
//! error mapping, and the window-property transitions — stated and proved
//! over a plain-value model.

pub mod commands;
pub mod error;
pub mod opacity;
pub mod payload;
pub mod window;
