//! Frame codec: the header of outgoing frames, and the removal of the
//! status byte in front of incoming ones.
//!
//! An outgoing frame starts with ten bytes:
//!
//! | byte | content                                   |
//! |------|-------------------------------------------|
//! | 0    | length field: the packet length plus one  |
//! | 1, 2 | frame control                             |
//! | 3    | sequence number                           |
//! | 4, 5 | PAN id, low byte first                    |
//! | 6, 7 | destination address, low byte first       |
//! | 8, 9 | source address, low byte first            |
//!
//! The length field counts the two CRC bytes that the chip appends and
//! leaves out the length byte itself.

use vstd::prelude::*;
use crate::driver::{BUFFER_SIZE, HEADER_SIZE};

verus! {

/// Frame control of a data frame with short addresses and no security.
pub const FRAME_CONTROL_0: u8 = 0x61;

pub const FRAME_CONTROL_1: u8 = 0xAA;

/// Longest packet whose length field fits in a byte.
pub const MAX_PACKET_LEN: u8 = 254;

pub open spec fn spec_low_byte(x: u16) -> u8 {
    (x % 256) as u8
}

#[verifier::when_used_as_spec(spec_low_byte)]
pub fn low_byte(x: u16) -> (b: u8)
    ensures
        b == spec_low_byte(x),
{
    (x % 256) as u8
}

pub open spec fn spec_high_byte(x: u16) -> u8 {
    (x / 256) as u8
}

#[verifier::when_used_as_spec(spec_high_byte)]
pub fn high_byte(x: u16) -> (b: u8)
    ensures
        b == spec_high_byte(x),
{
    (x / 256) as u8
}

/// The 16-bit value of two bytes.
pub open spec fn word(low: u8, high: u8) -> int {
    low + 256 * high
}

/// The sequence number after `seq`; it wraps at eight bits.
pub open spec fn spec_next_seq(seq: u8) -> u8 {
    if seq == 255 {
        0
    } else {
        (seq + 1) as u8
    }
}

#[verifier::when_used_as_spec(spec_next_seq)]
pub fn next_seq(seq: u8) -> (n: u8)
    ensures
        n == spec_next_seq(seq),
{
    if seq == 255 {
        0
    } else {
        seq + 1
    }
}

/// The ten header bytes of a packet of `len` bytes.
pub open spec fn header(len: u8, seq: u8, pan: u16, dest: u16, src: u16) -> Seq<u8> {
    seq![
        (len + 1) as u8,
        FRAME_CONTROL_0,
        FRAME_CONTROL_1,
        seq,
        spec_low_byte(pan),
        spec_high_byte(pan),
        spec_low_byte(dest),
        spec_high_byte(dest),
        spec_low_byte(src),
        spec_high_byte(src),
    ]
}

/// `buf` with its first ten bytes replaced by those of `head`.
pub open spec fn with_header(buf: Seq<u8>, head: Seq<u8>) -> Seq<u8> {
    Seq::new(
        buf.len(),
        |i: int|
            if i < HEADER_SIZE {
                head[i]
            } else {
                buf[i]
            },
    )
}

/// The length field of a frame.
pub open spec fn frame_length_field(frame: Seq<u8>) -> int {
    frame[0] as int
}

/// The sequence number of a frame.
pub open spec fn frame_seq(frame: Seq<u8>) -> int {
    frame[3] as int
}

/// The PAN id of a frame.
pub open spec fn frame_pan(frame: Seq<u8>) -> int {
    word(frame[4], frame[5])
}

/// The destination address of a frame.
pub open spec fn frame_dest(frame: Seq<u8>) -> int {
    word(frame[6], frame[7])
}

/// The source address of a frame.
pub open spec fn frame_src(frame: Seq<u8>) -> int {
    word(frame[8], frame[9])
}

/// Writes the header of a packet of `len` bytes over the first ten bytes of
/// `buf`. The bytes behind them stay.
pub fn write_header(buf: &mut Vec<u8>, len: u8, seq: u8, pan: u16, dest: u16, src: u16)
    requires
        old(buf)@.len() >= HEADER_SIZE,
        len <= MAX_PACKET_LEN,
    ensures
        final(buf)@ == with_header(old(buf)@, header(len, seq, pan, dest, src)),
{
    buf[0] = len + 1;
    buf[1] = FRAME_CONTROL_0;
    buf[2] = FRAME_CONTROL_1;
    buf[3] = seq;
    buf[4] = low_byte(pan);
    buf[5] = high_byte(pan);
    buf[6] = low_byte(dest);
    buf[7] = high_byte(dest);
    buf[8] = low_byte(src);
    buf[9] = high_byte(src);
    assert(buf@ =~= with_header(old(buf)@, header(len, seq, pan, dest, src)));
}

/// A header reads back as what it was built from: the length field is the
/// packet length plus one, and sequence number, PAN id, destination and
/// source are the ones given. The payload behind the header is untouched.
pub proof fn lemma_header_round_trip(
    buf: Seq<u8>,
    len: u8,
    seq: u8,
    pan: u16,
    dest: u16,
    src: u16,
)
    requires
        buf.len() >= HEADER_SIZE,
        len <= MAX_PACKET_LEN,
    ensures
        ({
            let frame = with_header(buf, header(len, seq, pan, dest, src));
            &&& frame.len() == buf.len()
            &&& frame_length_field(frame) == len + 1
            &&& frame[1] == FRAME_CONTROL_0
            &&& frame[2] == FRAME_CONTROL_1
            &&& frame_seq(frame) == seq
            &&& frame_pan(frame) == pan
            &&& frame_dest(frame) == dest
            &&& frame_src(frame) == src
            &&& forall|i: int| HEADER_SIZE <= i < buf.len() ==> frame[i] == buf[i]
        }),
{
}

/// The read buffer without the status byte in front of a frame. The frame
/// starts at position one with its length byte; that many bytes, as far as
/// the buffer goes, move one place to the front. The rest stays.
pub open spec fn strip_status(buf: Seq<u8>) -> Seq<u8> {
    Seq::new(
        BUFFER_SIZE as nat,
        |i: int|
            if i < buf[1] && i + 1 < BUFFER_SIZE {
                buf[i + 1]
            } else {
                buf[i]
            },
    )
}

/// Removes the status byte in front of a received frame, and returns the
/// length of the frame: the length byte as the chip sent it. Where the
/// frame is not empty, this is the first byte of the buffer as it then
/// stands.
pub fn strip_status_byte(buf: &mut [u8; 129]) -> (len: u8)
    ensures
        final(buf)@ == strip_status(old(buf)@),
        len == old(buf)@[1],
        len >= 1 ==> len == final(buf)@[0],
{
    let len: u8 = buf[1];
    let frame_len: usize = len as usize;
    let room: usize = BUFFER_SIZE - 1;
    let n: usize = if frame_len < room { frame_len } else { room };
    let mut i: usize = 0;
    while i < n
        invariant
            i <= n <= BUFFER_SIZE - 1,
            n <= frame_len,
            n == frame_len || n == BUFFER_SIZE - 1,
            frame_len == old(buf)@[1],
            forall|j: int|
                0 <= j < BUFFER_SIZE ==> buf@[j] == if j < i {
                    old(buf)@[j + 1]
                } else {
                    old(buf)@[j]
                },
        decreases n - i,
    {
        buf[i] = buf[i + 1];
        i += 1;
    }
    assert(buf@ =~= strip_status(old(buf)@));
    len
}

/// Where a frame of `len` bytes fits into the buffer behind the status
/// byte, exactly that one byte is removed: the `len` bytes that followed it
/// stand at the front, the length byte first.
pub proof fn lemma_strip_status_delivers_frame(buf: Seq<u8>, len: u8)
    requires
        buf.len() == BUFFER_SIZE,
        buf[1] == len,
        1 <= len < BUFFER_SIZE,
    ensures
        strip_status(buf).len() == BUFFER_SIZE,
        strip_status(buf)[0] == len,
        strip_status(buf).subrange(0, len as int) == buf.subrange(1, len + 1),
{
    assert(strip_status(buf).subrange(0, len as int) =~= buf.subrange(1, len + 1));
}

} // verus!
