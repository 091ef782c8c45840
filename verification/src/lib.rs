//! Decision core of a tray-resident desktop shell.
//!
//! The shell owns one setting, whether closing the window only hides it, and
//! reacts to three kinds of input from its host: a selection in the tray
//! menu, a mouse event on the tray icon, and an event of a window. Every
//! reaction is computed here as plain data; the host glue looks up windows
//! and the tray, carries the reaction out, and reports back what it found.

pub mod close;
pub mod dispatch;
pub mod menu;
pub mod state;
pub mod text;
pub mod tooltip;
pub mod tray;
