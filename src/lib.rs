//! Turns multi-finger trackpad swipes into workspace navigation commands for a
//! compositor that speaks the i3-style IPC protocol.

pub mod direction;
pub mod gesture;
pub mod policy;
pub mod ipc;
pub mod discovery;
