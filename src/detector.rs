//! Recognizes the device's in-band request for an image among the bytes it sends.
use vstd::prelude::*;

verus! {

/// The byte a device sends to ask for an image.
pub const SIGNAL_BYTE: u8 = 0x03;

/// How many signal bytes make one request.
pub const SIGNALS_PER_REQUEST: u8 = 3;

/// What to do with a byte that arrived on the serial line.
#[derive(Debug, Clone, Copy, PartialEq, Eq)]
pub enum SerialAction {
    /// Show the byte on the local display.
    Echo(u8),
    /// The device asked for an image: start a transfer now.
    Trigger,
}

/// The counter after one serial byte, starting from `c`.
pub open spec fn next_count(c: nat, b: u8) -> nat {
    if b == SIGNAL_BYTE {
        if c + 1 == SIGNALS_PER_REQUEST {
            0
        } else {
            c + 1
        }
    } else {
        c
    }
}

/// Whether one serial byte, arriving with the counter at `c`, starts a transfer.
pub open spec fn fires(c: nat, b: u8) -> bool {
    b == SIGNAL_BYTE && c + 1 == SIGNALS_PER_REQUEST
}

/// The counter after a whole sequence of serial bytes.
pub open spec fn count_after(c: nat, s: Seq<u8>) -> nat
    decreases s.len(),
{
    if s.len() == 0 {
        c
    } else {
        next_count(count_after(c, s.drop_last()), s.last())
    }
}

/// How many transfers a sequence of serial bytes starts.
pub open spec fn triggers_in(c: nat, s: Seq<u8>) -> nat
    decreases s.len(),
{
    if s.len() == 0 {
        0
    } else {
        triggers_in(c, s.drop_last()) + if fires(count_after(c, s.drop_last()), s.last()) {
            1nat
        } else {
            0nat
        }
    }
}

/// How many signal bytes a sequence holds.
pub open spec fn signal_count(s: Seq<u8>) -> nat
    decreases s.len(),
{
    if s.len() == 0 {
        0
    } else {
        signal_count(s.drop_last()) + if s.last() == SIGNAL_BYTE {
            1nat
        } else {
            0nat
        }
    }
}

/// Counts signal bytes seen since the last transfer started.
pub struct BreakCounter {
    breaks: u8,
}

impl BreakCounter {
    /// Signal bytes seen since the last transfer started.
    pub closed spec fn count(&self) -> nat {
        self.breaks as nat
    }

    /// The counter never reaches a full request: it is reset when it would.
    pub closed spec fn wf(&self) -> bool {
        self.breaks < SIGNALS_PER_REQUEST
    }

    /// A counter that has seen no signal byte.
    pub fn new() -> (r: BreakCounter)
        ensures
            r.wf(),
            r.count() == 0,
    {
        BreakCounter { breaks: 0 }
    }

    /// Signal bytes seen since the last transfer started.
    pub fn breaks(&self) -> (r: u8)
        requires
            self.wf(),
        ensures
            r as nat == self.count(),
            r < SIGNALS_PER_REQUEST,
    {
        self.breaks
    }

    /// Accounts for one byte read from the serial line. Every signal byte is counted,
    /// whatever came between them; the one that completes a request resets the count
    /// and asks for a transfer instead of being shown.
    pub fn on_serial_byte(&mut self, b: u8) -> (r: SerialAction)
        requires
            old(self).wf(),
        ensures
            final(self).wf(),
            final(self).count() == next_count(old(self).count(), b),
            fires(old(self).count(), b) ==> r == SerialAction::Trigger && final(self).count() == 0,
            !fires(old(self).count(), b) ==> r == SerialAction::Echo(b),
            b != SIGNAL_BYTE ==> final(self).count() == old(self).count(),
    {
        if b == SIGNAL_BYTE {
            self.breaks = self.breaks + 1;
        }
        if self.breaks == SIGNALS_PER_REQUEST {
            self.breaks = 0;
            SerialAction::Trigger
        } else {
            SerialAction::Echo(b)
        }
    }
}

/// Fed any bytes, the counter holds the number of signal bytes seen modulo a full
/// request, and one transfer starts per full request; other bytes change nothing.
pub proof fn lemma_requests_count_signals(c: nat, s: Seq<u8>)
    requires
        c < SIGNALS_PER_REQUEST,
    ensures
        count_after(c, s) < SIGNALS_PER_REQUEST,
        count_after(c, s) == (c + signal_count(s)) % 3,
        triggers_in(c, s) == (c + signal_count(s)) / 3,
    decreases s.len(),
{
    if s.len() > 0 {
        lemma_requests_count_signals(c, s.drop_last());
        let n = c + signal_count(s.drop_last());
        assert(n % 3 + 1 == 3 ==> (n + 1) % 3 == 0 && (n + 1) / 3 == n / 3 + 1) by (nonlinear_arith);
        assert(n % 3 + 1 != 3 ==> (n + 1) % 3 == n % 3 + 1 && (n + 1) / 3 == n / 3) by (nonlinear_arith);
    }
}

} // verus!
