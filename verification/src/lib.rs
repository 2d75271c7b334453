//! Device-session and receive-loop core of a CAN-adapter control tool.
//!
//! The vendor driver itself is reached through the `Driver` trait; the
//! session lifecycle, the per-poll frame handling, the board-info
//! decoding and the bounded presentation buffers are verified here.

pub mod baud;
pub mod board;
pub mod buffer;
pub mod channel;
pub mod config;
pub mod frame;
pub mod session;
