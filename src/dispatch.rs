//! Decisions of the idle loop: which source woke it, and what the keyboard sends on.
use vstd::prelude::*;

verus! {

/// Readiness token of the serial line.
pub const SERIAL_TOKEN: usize = 0;

/// Readiness token of the interactive input.
pub const STDIN_TOKEN: usize = 1;

/// The byte typed at the interactive input that is never passed to the device.
pub const CONTROL_BYTE: u8 = 0x03;

/// The source a readiness event belongs to.
#[derive(Debug, Clone, Copy, PartialEq, Eq, Structural)]
pub enum EventSource {
    Serial,
    Interactive,
    Unknown,
}

/// Maps a readiness token to the source registered under it.
pub fn classify_token(token: usize) -> (r: EventSource)
    ensures
        token == SERIAL_TOKEN ==> r == EventSource::Serial,
        token == STDIN_TOKEN ==> r == EventSource::Interactive,
        token != SERIAL_TOKEN && token != STDIN_TOKEN ==> r == EventSource::Unknown,
{
    if token == SERIAL_TOKEN {
        EventSource::Serial
    } else if token == STDIN_TOKEN {
        EventSource::Interactive
    } else {
        EventSource::Unknown
    }
}

/// The byte to write to the serial line for one byte typed at the interactive input:
/// the same byte, unchanged, except for the control byte, which is dropped.
pub fn forward_byte(b: u8) -> (r: Option<u8>)
    ensures
        b != CONTROL_BYTE ==> r == Some(b),
        b == CONTROL_BYTE ==> r is None,
{
    if b == CONTROL_BYTE {
        None
    } else {
        Some(b)
    }
}

} // verus!
