//! Configuration and terminal-UI logic of Cursor-API, a local OpenAI-compatible
//! `/v1` service backed by the Cursor Agent CLI.
pub mod config;
pub mod text;
pub mod tui;
