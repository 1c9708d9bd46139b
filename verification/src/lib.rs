//! A terminal dashboard's verified core: how space is shared between panels,
//! how the command line is read, how plugins and nested terminals are driven,
//! and what the watch log remembers.

pub mod count;
pub mod geometry;
pub mod config;
pub mod layout;
pub mod rebuild;
pub mod resize;
pub mod shell;
pub mod terminal;
pub mod text;
pub mod keys;
pub mod picker;
pub mod cli;
pub mod watch;
pub mod panel;
pub mod plugin;
