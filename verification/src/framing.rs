//! The arithmetic of message boundaries.
//!
//! A message on the wire is a fixed prefix of [`HEADER_LEN`] bytes, a 32-bit
//! length of the header fields, the header fields, padding up to a multiple
//! of eight, and the body. The prefix holds the length of the body, so after
//! the first [`PREAMBLE_LEN`] bytes the length of the whole message is known.
use vstd::prelude::*;
use crate::message::ByteOrder;

verus! {

/// The length of the fixed prefix of every message.
pub const HEADER_LEN: usize = 16;

/// The length of the prefix together with the length of the header fields
/// behind it: so many bytes say how long the message is.
pub const PREAMBLE_LEN: usize = 20;

/// The most bytes that one read takes from the socket.
pub const READ_CHUNK: usize = 512;

/// The number of file descriptors that one read has room for.
pub const FDS_PER_READ: usize = 10;

/// The number that four bytes stand for in the given order.
pub open spec fn u32_of_bytes(bytes: Seq<u8>, order: ByteOrder) -> int
    recommends
        bytes.len() == 4,
{
    match order {
        ByteOrder::LittleEndian => bytes[0] + bytes[1] * 0x100 + bytes[2] * 0x1_0000 + bytes[3]
            * 0x100_0000,
        ByteOrder::BigEndian => bytes[3] + bytes[2] * 0x100 + bytes[1] * 0x1_0000 + bytes[0]
            * 0x100_0000,
    }
}

/// Reads four bytes as an unsigned number in the given order.
pub fn parse_u32(bytes: &[u8; 4], order: ByteOrder) -> (value: u32)
    ensures
        value == u32_of_bytes(bytes@, order),
{
    let b0: u32 = bytes[0] as u32;
    let b1: u32 = bytes[1] as u32;
    let b2: u32 = bytes[2] as u32;
    let b3: u32 = bytes[3] as u32;
    match order {
        ByteOrder::LittleEndian => b0 + b1 * 0x100 + b2 * 0x1_0000 + b3 * 0x100_0000,
        ByteOrder::BigEndian => b3 + b2 * 0x100 + b1 * 0x1_0000 + b0 * 0x100_0000,
    }
}

/// The bytes between the end of the header fields and the body: as few as
/// bring the body to a multiple of eight.
pub open spec fn padding_spec(header_fields_len: int) -> int {
    (8 - (HEADER_LEN + header_fields_len + 4) % 8) % 8
}

/// The length of a whole message on the wire: prefix, length of the header
/// fields, header fields, padding and body.
pub open spec fn frame_len_spec(header_fields_len: int, body_len: int) -> int {
    HEADER_LEN + 4 + header_fields_len + padding_spec(header_fields_len) + body_len
}

/// The padding behind header fields of the given length.
pub fn padding(header_fields_len: u32) -> (pad: u64)
    ensures
        pad == padding_spec(header_fields_len as int),
{
    let complete_header: u64 = HEADER_LEN as u64 + header_fields_len as u64 + 4;
    (8 - complete_header % 8) % 8
}

/// The length of the message whose prefix announces a body of `body_len`
/// bytes and whose header fields take `header_fields_len` bytes.
pub fn frame_len(header_fields_len: u32, body_len: u32) -> (total: u64)
    ensures
        total == frame_len_spec(header_fields_len as int, body_len as int),
{
    HEADER_LEN as u64 + 4 + header_fields_len as u64 + padding(header_fields_len) + body_len as u64
}

/// The padding is the least that aligns the body, and a message is longer
/// than its prefix and the length behind it.
pub proof fn lemma_frame_is_aligned(header_fields_len: int, body_len: int)
    requires
        0 <= header_fields_len,
        0 <= body_len,
    ensures
        0 <= padding_spec(header_fields_len) < 8,
        (HEADER_LEN + 4 + header_fields_len + padding_spec(header_fields_len)) % 8 == 0,
        frame_len_spec(header_fields_len, body_len) >= HEADER_LEN + 4 + header_fields_len
            + body_len,
        frame_len_spec(header_fields_len, body_len) > HEADER_LEN + 4,
{
}

/// How many bytes one read may take when the buffer holds `have` bytes and
/// is to hold `target`: what is missing, and never more than
/// [`READ_CHUNK`].
pub open spec fn refill_len_spec(target: int, have: int) -> int {
    if have >= target {
        0
    } else if target - have > READ_CHUNK {
        READ_CHUNK as int
    } else {
        target - have
    }
}

/// The number of bytes to ask the socket for, to bring a buffer of `have`
/// bytes towards `target`.
pub fn refill_len(target: u64, have: usize) -> (want: usize)
    ensures
        want == refill_len_spec(target as int, have as int),
{
    if have as u64 >= target {
        0
    } else {
        let missing: u64 = target - have as u64;
        if missing > READ_CHUNK as u64 {
            READ_CHUNK
        } else {
            missing as usize
        }
    }
}

} // verus!
