//! Errors reported by the transfer logic.
use vstd::prelude::*;

verus! {

/// Everything that can go wrong while pushing an image.
#[derive(Debug, PartialEq, Eq)]
pub enum PusherErrors {
    /// A byte source failed; the text says how.
    IOError(String),
    /// The image length does not fit strictly below `u32::MAX`.
    ImageTooLarge(u64),
    /// Every acknowledgment round passed without a single byte arriving.
    HandshakeTimeout,
    /// Bytes arrived while waiting for the acknowledgment, but they were not `OK`.
    UnexpectedAck(Vec<u8>),
    /// The image read for streaming does not have the length announced in the header.
    ImageLengthMismatch { expected: u64, found: u64 },
}

} // verus!
