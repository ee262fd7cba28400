//! A verified reference-card lookup library for i3 window manager
//! keybindings.
//!
//! The library holds a fixed, ordered collection of documentation
//! sections, answers case-insensitive section lookups, and renders the
//! section list, a single section, or the full reference as text.

pub mod data;
pub mod dispatch;
pub mod render;
pub mod store;
pub mod text;
