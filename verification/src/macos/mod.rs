//! What the menu-bar agent decides for itself.

pub mod menu;
pub mod sheets;
pub mod shown;
pub mod wrap;
