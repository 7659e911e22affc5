//! The WebSocket frame codec: decoding and validating the frames a client
//! sends, and encoding the two frames the device sends.

use vstd::prelude::*;

verus! {

/// Largest payload a client frame may carry; no extended length is accepted.
pub const MAX_PAYLOAD_LEN: u8 = 125;

/// Length of the payload of a snapshot frame: the bitmap as eight bytes.
pub const SNAPSHOT_LEN: u8 = 8;

/// Opcode of a text frame.
pub const OPCODE_TEXT: u8 = 1;

/// Opcode of a ping frame.
pub const OPCODE_PING: u8 = 9;

/// Opcode of a pong frame.
pub const OPCODE_PONG: u8 = 10;

/// The FIN bit of the first header byte.
pub const FIN_BIT: u8 = 0x80;

/// The mask bit of the second header byte.
pub const MASK_BIT: u8 = 0x80;

/// What the two header bytes of an accepted client frame say.
#[derive(PartialEq, Eq, Structural, Clone, Copy, Debug)]
pub struct FrameHeader {
    /// `OPCODE_TEXT` or `OPCODE_PING`.
    pub opcode: u8,
    /// Payload length, at most `MAX_PAYLOAD_LEN`.
    pub len: u8,
}

/// Why a client frame was refused; each one ends the session.
#[derive(PartialEq, Eq, Structural, Clone, Copy, Debug)]
pub enum FrameError {
    /// Neither a text nor a ping frame.
    UnsupportedOpcode,
    /// The mask bit is clear.
    Unmasked,
    /// The payload is longer than `MAX_PAYLOAD_LEN`.
    TooLong,
}

/// Opcode field of the first header byte: its low four bits.
pub open spec fn opcode_of(b0: u8) -> u8 {
    (b0 % 16) as u8
}

/// Whether the second header byte has its mask bit set.
pub open spec fn masked(b1: u8) -> bool {
    b1 >= 128
}

/// Payload length field of the second header byte: its low seven bits.
pub open spec fn length_of(b1: u8) -> u8 {
    (b1 % 128) as u8
}

/// The verdict on a client frame's header bytes, checked in this order:
/// opcode, then mask bit, then length.
pub open spec fn header_verdict(b0: u8, b1: u8) -> Result<FrameHeader, FrameError> {
    if opcode_of(b0) != OPCODE_TEXT && opcode_of(b0) != OPCODE_PING {
        Err(FrameError::UnsupportedOpcode)
    } else if !masked(b1) {
        Err(FrameError::Unmasked)
    } else if length_of(b1) > MAX_PAYLOAD_LEN {
        Err(FrameError::TooLong)
    } else {
        Ok(FrameHeader { opcode: opcode_of(b0), len: length_of(b1) })
    }
}

/// Decodes and validates the two header bytes of a client frame.
pub fn decode_header(b0: u8, b1: u8) -> (r: Result<FrameHeader, FrameError>)
    ensures
        r == header_verdict(b0, b1),
{
    let opcode = b0 & 0x0f;
    assert(b0 & 0x0f == b0 % 16) by (bit_vector);
    if opcode != OPCODE_TEXT && opcode != OPCODE_PING {
        return Err(FrameError::UnsupportedOpcode);
    }
    assert(b1 >> 7 == 1 <==> b1 >= 128) by (bit_vector);
    if b1 >> 7 != 1 {
        return Err(FrameError::Unmasked);
    }
    let len = b1 & 0x7f;
    assert(b1 & 0x7f == b1 % 128) by (bit_vector);
    if len > MAX_PAYLOAD_LEN {
        return Err(FrameError::TooLong);
    }
    Ok(FrameHeader { opcode, len })
}

/// `payload` with byte `i` XOR-ed with `mask[i % 4]`.
pub open spec fn unmasked(payload: Seq<u8>, mask: Seq<u8>) -> Seq<u8>
    recommends
        mask.len() == 4,
{
    Seq::new(payload.len(), |i: int| payload[i] ^ mask[i % 4])
}

/// Removes the client's mask from the rest of a frame: four mask bytes,
/// then the masked payload.
pub fn unmask(body: &[u8]) -> (r: Vec<u8>)
    requires
        body@.len() >= 4,
    ensures
        r@ == unmasked(body@.subrange(4, body@.len() as int), body@.subrange(0, 4)),
{
    let ghost payload = body@.subrange(4, body@.len() as int);
    let ghost mask = body@.subrange(0, 4);
    let mut out: Vec<u8> = Vec::new();
    let mut i: usize = 4;
    while i < body.len()
        invariant
            4 <= i <= body@.len(),
            payload == body@.subrange(4, body@.len() as int),
            mask == body@.subrange(0, 4),
            out@ == unmasked(payload, mask).subrange(0, i - 4),
        decreases body@.len() - i,
    {
        out.push(body[i] ^ body[(i - 4) % 4]);
        i = i + 1;
    }
    assert(out@ == unmasked(payload, mask));
    out
}

/// The eight bytes of `bits`, most significant first.
pub open spec fn be_bytes(bits: u64) -> Seq<u8> {
    Seq::new(8, |i: int| ((bits >> (8 * (7 - i)) as u64) & 0xff) as u8)
}

/// A snapshot frame: FIN set, text opcode, no mask, length eight, then the
/// bitmap most significant byte first.
pub open spec fn snapshot_frame(bits: u64) -> Seq<u8> {
    seq![FIN_BIT | OPCODE_TEXT, SNAPSHOT_LEN] + be_bytes(bits)
}

/// Encodes the frame that carries a bitmap to the client.
pub fn encode_snapshot(bits: u64) -> (r: Vec<u8>)
    ensures
        r@ == snapshot_frame(bits),
{
    let mut out: Vec<u8> = Vec::with_capacity(10);
    out.push(FIN_BIT | OPCODE_TEXT);
    out.push(SNAPSHOT_LEN);
    let mut k: usize = 0;
    while k < 8
        invariant
            k <= 8,
            out@ == seq![FIN_BIT | OPCODE_TEXT, SNAPSHOT_LEN] + be_bytes(bits).subrange(0, k as int),
        decreases 8 - k,
    {
        let shift: u64 = (8 * (7 - k)) as u64;
        out.push(((bits >> shift) & 0xff) as u8);
        k = k + 1;
    }
    assert(be_bytes(bits).subrange(0, 8) == be_bytes(bits));
    out
}

/// A pong frame: FIN set, pong opcode, no mask, empty payload.
pub open spec fn pong_frame() -> Seq<u8> {
    seq![FIN_BIT | OPCODE_PONG, 0u8]
}

/// Encodes the empty pong frame that answers a ping.
pub fn encode_pong() -> (r: Vec<u8>)
    ensures
        r@ == pong_frame(),
{
    vec![FIN_BIT | OPCODE_PONG, 0u8]
}

} // verus!
