//! Out-of-process panels over a small, versioned JSON-lines protocol.
//!
//! Nothing here starts a process or reads a pipe: the shell does that and
//! hands over what it read. What is decided here is what every message means
//! for the panel's state, and which input the panel may take.

pub mod wire;
pub mod shared;
pub mod names;
pub mod state;
pub mod color;
