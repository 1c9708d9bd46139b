//! An interactive shell inside a dashboard panel.
//!
//! The shell process, its pseudoterminal and the screen parser live outside
//! the library; what is decided here is which bytes a key or a paste sends,
//! when the panel holds the keyboard, and the one-shot rule for Ctrl+C that
//! keeps "Ctrl+C twice always quits" true.

pub mod encode;
pub mod panel;
