//! Overlay window controller of a quick-launch notes panel: where the panel
//! appears, how a toggle press is decided, which window directives are
//! applied, and how the global shortcut is validated, registered and kept.

pub mod geometry;
pub mod text;
pub mod shortcut;
pub mod manager;
pub mod toggle;
pub mod overlay;
