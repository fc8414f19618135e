//! One image transfer: header, acknowledgment, payload.
//!
//! A `Session` makes every protocol decision; whoever owns the serial line performs
//! the writes, reads and waits it asks for and reports back what happened.
use vstd::prelude::*;

use crate::errors::PusherErrors;
use crate::header::{announceable, encode_header, header_bytes};

verus! {

/// How many bounded waits for the acknowledgment are made before giving up.
pub const ACK_ROUNDS: u8 = 2;

/// How long one wait for the acknowledgment may last, in milliseconds.
pub const ACK_ROUND_MILLIS: u64 = 2000;

/// The acknowledgment a device sends once it has taken the header: `OK`.
pub open spec fn ack_bytes() -> Seq<u8> {
    seq![0x4fu8, 0x4bu8]
}

/// Whether the bytes received so far are exactly the acknowledgment.
pub fn is_ack(buf: &[u8]) -> (r: bool)
    ensures
        r == (buf@ == ack_bytes()),
{
    let ok = buf.len() == 2 && buf[0] == 0x4f && buf[1] == 0x4b;
    assert(ok ==> buf@ =~= ack_bytes());
    ok
}

/// Where a transfer stands.
#[derive(Debug, Clone, Copy, PartialEq, Eq, Structural)]
pub enum Phase {
    /// Triggered; nothing written yet.
    Idle,
    /// The header has been handed out for writing.
    HeaderSent,
    /// The header is out; acknowledgment bytes are being collected.
    AwaitingAck,
    /// The acknowledgment matched; the payload is being handed out.
    Streaming,
    /// Every payload byte has been handed out.
    Done,
    /// The transfer was given up; nothing more is sent.
    Failed,
}

/// The state of one transfer.
pub struct Session {
    phase: Phase,
    len: u64,
    ack: Vec<u8>,
    rounds: u8,
    loaded: bool,
    image: Vec<u8>,
    sent: usize,
}

/// Whether `e` is the error that ends a handshake once every round has passed
/// without `OK`, the bytes collected being `ack`: a timeout when nothing came,
/// otherwise the unexpected bytes themselves.
pub open spec fn is_handshake_error(e: PusherErrors, ack: Seq<u8>) -> bool {
    if ack.len() == 0 {
        e == PusherErrors::HandshakeTimeout
    } else {
        match e {
            PusherErrors::UnexpectedAck(v) => v@ == ack,
            _ => false,
        }
    }
}

impl Session {
    /// Where the transfer stands.
    pub closed spec fn phase_of(&self) -> Phase {
        self.phase
    }

    /// The image length the transfer announces.
    pub closed spec fn image_len(&self) -> nat {
        self.len as nat
    }

    /// The bytes collected while waiting for the acknowledgment.
    pub closed spec fn ack_received(&self) -> Seq<u8> {
        self.ack@
    }

    /// How many acknowledgment rounds have ended without a match.
    pub closed spec fn rounds_done(&self) -> nat {
        self.rounds as nat
    }

    /// Whether the image to stream has been handed over.
    pub closed spec fn image_loaded(&self) -> bool {
        self.loaded
    }

    /// The image to stream, once handed over.
    pub closed spec fn payload(&self) -> Seq<u8> {
        self.image@
    }

    /// How many payload bytes have been handed out for writing.
    pub closed spec fn payload_sent(&self) -> nat {
        self.sent as nat
    }

    /// What holds of every session: payload goes out only after `OK`, and a
    /// transfer that was given up has sent none.
    pub closed spec fn wf(&self) -> bool {
        &&& self.rounds < ACK_ROUNDS || self.phase == Phase::Failed
        &&& self.rounds <= ACK_ROUNDS
        &&& self.sent <= self.image@.len()
        &&& self.loaded ==> self.image@.len() == self.len
        &&& !self.loaded ==> self.sent == 0
        &&& self.phase == Phase::Idle ==> self.ack@.len() == 0 && self.rounds == 0
        &&& (self.phase == Phase::HeaderSent || self.phase == Phase::AwaitingAck
            || self.phase == Phase::Streaming || self.phase == Phase::Done) ==> announceable(
            self.len as nat,
        )
        &&& self.phase == Phase::HeaderSent ==> self.ack@.len() == 0 && self.rounds == 0
        &&& (self.phase == Phase::Streaming || self.phase == Phase::Done) ==> self.ack@
            == ack_bytes()
        &&& (self.phase == Phase::Idle || self.phase == Phase::HeaderSent || self.phase
            == Phase::AwaitingAck || self.phase == Phase::Failed) ==> self.sent == 0
        &&& (self.phase == Phase::Idle || self.phase == Phase::HeaderSent || self.phase
            == Phase::AwaitingAck) ==> !self.loaded
        &&& self.phase == Phase::Done ==> self.loaded && self.sent == self.len
    }

    /// A transfer of an image of `image_len` bytes, not started yet.
    pub fn new(image_len: u64) -> (r: Session)
        ensures
            r.wf(),
            r.phase_of() == Phase::Idle,
            r.image_len() == image_len,
            r.ack_received() == Seq::<u8>::empty(),
            r.rounds_done() == 0,
            !r.image_loaded(),
            r.payload_sent() == 0,
    {
        Session {
            phase: Phase::Idle,
            len: image_len,
            ack: Vec::new(),
            rounds: 0,
            loaded: false,
            image: Vec::new(),
            sent: 0,
        }
    }

    /// Starts the transfer: hands out the header to write, or gives up before
    /// writing anything when the length cannot be announced.
    pub fn send_header(&mut self) -> (r: Result<Vec<u8>, PusherErrors>)
        requires
            old(self).wf(),
            old(self).phase_of() == Phase::Idle,
        ensures
            final(self).wf(),
            announceable(old(self).image_len()) <==> r is Ok,
            r is Ok ==> r->Ok_0@ == header_bytes(old(self).image_len())
                && final(self).phase_of() == Phase::HeaderSent,
            !announceable(old(self).image_len()) ==> r == Err::<Vec<u8>, PusherErrors>(
                PusherErrors::ImageTooLarge(old(self).image_len() as u64),
            ) && final(self).phase_of() == Phase::Failed,
            final(self).image_len() == old(self).image_len(),
            final(self).ack_received() == old(self).ack_received(),
            final(self).rounds_done() == old(self).rounds_done(),
            final(self).payload_sent() == 0,
    {
        let r = encode_header(self.len);
        if r.is_ok() {
            self.phase = Phase::HeaderSent;
        } else {
            self.phase = Phase::Failed;
        }
        r
    }

    /// The header has been written and flushed: collection of the acknowledgment begins.
    pub fn header_flushed(&mut self)
        requires
            old(self).wf(),
            old(self).phase_of() == Phase::HeaderSent,
        ensures
            final(self).wf(),
            final(self).phase_of() == Phase::AwaitingAck,
            final(self).image_len() == old(self).image_len(),
            final(self).ack_received() == old(self).ack_received(),
            final(self).rounds_done() == old(self).rounds_done(),
            final(self).payload_sent() == 0,
    {
        self.phase = Phase::AwaitingAck;
    }

    /// Records one byte read from the device while waiting for the acknowledgment.
    pub fn receive_ack_byte(&mut self, b: u8)
        requires
            old(self).wf(),
            old(self).phase_of() == Phase::AwaitingAck,
        ensures
            final(self).wf(),
            final(self).phase_of() == Phase::AwaitingAck,
            final(self).ack_received() == old(self).ack_received().push(b),
            final(self).image_len() == old(self).image_len(),
            final(self).rounds_done() == old(self).rounds_done(),
            final(self).payload_sent() == 0,
    {
        self.ack.push(b);
    }

    /// Ends one bounded wait. `Ok(true)`: the bytes collected are exactly `OK` and
    /// streaming may begin. `Ok(false)`: wait once more. An error: every round has
    /// passed without `OK`, and the transfer is given up without any payload.
    pub fn end_ack_round(&mut self) -> (r: Result<bool, PusherErrors>)
        requires
            old(self).wf(),
            old(self).phase_of() == Phase::AwaitingAck,
        ensures
            final(self).wf(),
            final(self).image_len() == old(self).image_len(),
            final(self).ack_received() == old(self).ack_received(),
            final(self).payload_sent() == 0,
            !final(self).image_loaded(),
            old(self).ack_received() == ack_bytes() ==> r == Ok::<bool, PusherErrors>(true)
                && final(self).phase_of() == Phase::Streaming,
            old(self).ack_received() != ack_bytes() && old(self).rounds_done() + 1
                < ACK_ROUNDS ==> r == Ok::<bool, PusherErrors>(false) && final(self).phase_of()
                == Phase::AwaitingAck && final(self).rounds_done() == old(self).rounds_done()
                + 1,
            old(self).ack_received() != ack_bytes() && old(self).rounds_done() + 1
                == ACK_ROUNDS ==> r is Err && is_handshake_error(r->Err_0, old(self).ack_received())
                && final(self).phase_of() == Phase::Failed,
    {
        if is_ack(self.ack.as_slice()) {
            self.phase = Phase::Streaming;
            return Ok(true);
        }
        self.rounds = self.rounds + 1;
        if self.rounds < ACK_ROUNDS {
            return Ok(false);
        }
        self.phase = Phase::Failed;
        if self.ack.len() == 0 {
            Err(PusherErrors::HandshakeTimeout)
        } else {
            Err(PusherErrors::UnexpectedAck(self.ack.clone()))
        }
    }

    /// Hands over the image to stream, read once the acknowledgment matched. It must
    /// have the length the header announced; otherwise the transfer is given up.
    pub fn load_image(&mut self, image: Vec<u8>) -> (r: Result<(), PusherErrors>)
        requires
            old(self).wf(),
            old(self).phase_of() == Phase::Streaming,
            !old(self).image_loaded(),
        ensures
            final(self).wf(),
            final(self).image_len() == old(self).image_len(),
            final(self).ack_received() == old(self).ack_received(),
            final(self).payload_sent() == 0,
            r is Ok <==> image@.len() == old(self).image_len(),
            r is Ok ==> final(self).phase_of() == Phase::Streaming && final(self).image_loaded()
                && final(self).payload() == image@,
            r is Err ==> final(self).phase_of() == Phase::Failed && r == Err::<(), PusherErrors>(
                PusherErrors::ImageLengthMismatch {
                    expected: old(self).image_len() as u64,
                    found: image@.len() as u64,
                },
            ),
    {
        if image.len() as u64 != self.len {
            self.phase = Phase::Failed;
            return Err(
                PusherErrors::ImageLengthMismatch { expected: self.len, found: image.len() as u64 },
            );
        }
        self.image = image;
        self.loaded = true;
        Ok(())
    }

    /// Hands out the next payload byte to write, in image order; `None` once the
    /// whole image is out, which completes the transfer.
    pub fn next_payload_byte(&mut self) -> (r: Option<u8>)
        requires
            old(self).wf(),
            old(self).phase_of() == Phase::Streaming,
            old(self).image_loaded(),
        ensures
            final(self).wf(),
            final(self).image_len() == old(self).image_len(),
            final(self).ack_received() == old(self).ack_received(),
            final(self).image_loaded(),
            final(self).payload() == old(self).payload(),
            old(self).payload_sent() < old(self).image_len() ==> r == Some(
                old(self).payload()[old(self).payload_sent() as int],
            ) && final(self).payload_sent() == old(self).payload_sent() + 1
                && final(self).phase_of() == Phase::Streaming,
            old(self).payload_sent() == old(self).image_len() ==> r is None
                && final(self).payload_sent() == old(self).payload_sent()
                && final(self).phase_of() == Phase::Done,
            old(self).payload_sent() <= old(self).image_len(),
    {
        if self.sent < self.image.len() {
            let b = self.image[self.sent];
            self.sent = self.sent + 1;
            Some(b)
        } else {
            self.phase = Phase::Done;
            None
        }
    }

    /// Where the transfer stands.
    pub fn phase(&self) -> (r: Phase)
        ensures
            r == self.phase_of(),
    {
        self.phase
    }

    /// How many payload bytes have been handed out for writing.
    pub fn bytes_sent(&self) -> (r: usize)
        ensures
            r as nat == self.payload_sent(),
    {
        self.sent
    }
}

/// No payload byte is handed out before the acknowledgment has matched exactly, and
/// a transfer that was given up has handed out none.
pub proof fn lemma_no_payload_without_ack(s: Session)
    requires
        s.wf(),
    ensures
        s.payload_sent() > 0 ==> s.ack_received() == ack_bytes(),
        s.phase_of() != Phase::Streaming && s.phase_of() != Phase::Done ==> s.payload_sent()
            == 0,
        s.phase_of() == Phase::Failed ==> s.payload_sent() == 0,
{
}

} // verus!
