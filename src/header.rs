//! The length header that precedes an image on the wire.
use vstd::prelude::*;

use crate::errors::PusherErrors;

verus! {

/// Lengths must stay strictly below this value to be announced.
pub const LENGTH_LIMIT: u64 = 0xffff_ffff;

/// Number of bytes in a header.
pub const HEADER_LEN: usize = 4;

/// The four bytes announcing `len`, least significant first.
pub open spec fn header_bytes(len: nat) -> Seq<u8> {
    seq![
        (len % 0x100) as u8,
        ((len / 0x100) % 0x100) as u8,
        ((len / 0x1_0000) % 0x100) as u8,
        ((len / 0x100_0000) % 0x100) as u8,
    ]
}

/// The length that four header bytes announce.
pub open spec fn header_value(b: Seq<u8>) -> nat
    recommends
        b.len() == 4,
{
    (b[0] + 0x100 * b[1] + 0x1_0000 * b[2] + 0x100_0000 * b[3]) as nat
}

/// Whether an image of `len` bytes can be announced at all.
pub open spec fn announceable(len: nat) -> bool {
    len < LENGTH_LIMIT
}

/// Builds the header for an image of `len` bytes, refusing lengths that do not
/// fit strictly below the largest 32-bit value.
pub fn encode_header(len: u64) -> (r: Result<Vec<u8>, PusherErrors>)
    ensures
        announceable(len as nat) <==> r is Ok,
        r is Ok ==> r->Ok_0@ == header_bytes(len as nat),
        !announceable(len as nat) ==> r == Err::<Vec<u8>, PusherErrors>(
            PusherErrors::ImageTooLarge(len),
        ),
{
    if len >= LENGTH_LIMIT {
        return Err(PusherErrors::ImageTooLarge(len));
    }
    let l: u32 = len as u32;
    let b0: u8 = (l & 0xff) as u8;
    let b1: u8 = ((l >> 8u32) & 0xff) as u8;
    let b2: u8 = ((l >> 16u32) & 0xff) as u8;
    let b3: u8 = ((l >> 24u32) & 0xff) as u8;
    assert(l & 0xff == l % 0x100) by (bit_vector);
    assert((l >> 8u32) & 0xff == (l / 0x100) % 0x100) by (bit_vector);
    assert((l >> 16u32) & 0xff == (l / 0x1_0000) % 0x100) by (bit_vector);
    assert((l >> 24u32) & 0xff == (l / 0x100_0000) % 0x100) by (bit_vector);
    let mut v: Vec<u8> = Vec::new();
    v.push(b0);
    v.push(b1);
    v.push(b2);
    v.push(b3);
    assert(v@ =~= header_bytes(len as nat));
    Ok(v)
}

/// Reads the length announced by a header; `None` unless exactly four bytes are given.
pub fn decode_header(b: &[u8]) -> (r: Option<u32>)
    ensures
        r is Some <==> b@.len() == HEADER_LEN,
        r is Some ==> r->Some_0 as nat == header_value(b@),
{
    if b.len() != HEADER_LEN {
        return None;
    }
    let v: u32 = b[0] as u32 + 0x100 * (b[1] as u32) + 0x1_0000 * (b[2] as u32) + 0x100_0000 * (
    b[3] as u32);
    Some(v)
}

/// Decoding the header of an announceable length gives that length back.
pub proof fn lemma_header_round_trip(len: nat)
    requires
        announceable(len),
    ensures
        header_bytes(len).len() == HEADER_LEN,
        header_value(header_bytes(len)) == len,
{
    let x: u32 = len as u32;
    assert(x % 0x100 + 0x100 * ((x / 0x100) % 0x100) + 0x1_0000 * ((x / 0x1_0000) % 0x100)
        + 0x100_0000 * ((x / 0x100_0000) % 0x100) == x) by (bit_vector);
}

} // verus!
