//! The terminal interface's state and rules, without the drawing.

pub mod app;
pub mod events;
pub mod terminal;
pub mod ui;
