//! What the Windows agent decides for itself: which rows its windows show and
//! where they stand, what its buttons and menu items mean, and what its elevated
//! one-shots report. Drawing is the program's.

pub mod actions;
pub mod elevated;
pub mod flyout;
pub mod modal;
pub mod oneshot;
pub mod present;
pub mod settings;
pub mod sys;
pub mod theme;
pub mod tray;
pub mod ui;
pub mod wam;
