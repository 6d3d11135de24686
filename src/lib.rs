//! Host-side engine for the Android Debug Bridge wire protocols: the
//! length-prefixed host protocol spoken to an ADB server, its binary sync
//! sub-protocol, and the multiplexed message protocol spoken to a device.
//!
//! The library does no I/O. Each protocol step is a function from bytes
//! already read (or state already held) to bytes to write and a decision;
//! the caller owns the socket.

pub mod connection;
pub mod device;
pub mod error;
pub mod host;
pub mod list_command;
pub mod message;
pub mod session;
pub mod sync;
pub mod wire;
