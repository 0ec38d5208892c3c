//! The terminal UI's state machine and the text it renders.
pub mod app;
pub mod help;
pub mod ui;
