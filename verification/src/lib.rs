//! Verified core of the MouseMux multi-user input bridge: per-connection
//! device IDs for injected input, the MouseMux window-message protocol and
//! the decisions taken on each message that MouseMux sends.

pub mod input;
pub mod keycodes;
pub mod protocol;
pub mod session;
pub mod laws;
mod text;
pub mod enigo;
