//! Pushes a binary image to a device on a serial line when the device asks for it.
//!
//! - `header`: the 4-byte little-endian length that precedes an image.
//! - `detector`: counts the device's signal bytes and says when a transfer starts.
//! - `dispatch`: which source woke the idle loop, and what typed bytes are passed on.
//! - `session`: one transfer, from header through acknowledgment to payload.

pub mod detector;
pub mod dispatch;
pub mod errors;
pub mod header;
pub mod session;

pub use errors::PusherErrors;
