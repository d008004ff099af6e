//! Checksums and frame encoding: RTU frames with CRC-16, ASCII frames with LRC.

use bytes::BytesMut;
use vstd::prelude::*;

use crate::buffer;
use crate::buffer::{put_u16_le, put_u8};

pub mod crc_table;
pub mod laws;

use crc_table::CRC_TABLE;

verus! {

// ── RTU: CRC-16 ─────────────────────────────────────────────────────────

/// The CRC register after one more byte.
pub open spec fn crc_update(crc: u16, byte: u8) -> u16 {
    crc_table::crc_of_byte(crc ^ byte as u16)
}

/// The CRC-16 of a byte sequence: the register starts with all bits set and
/// takes one byte after the other.
pub open spec fn crc16(data: Seq<u8>) -> u16
    decreases data.len(),
{
    if data.len() == 0 {
        0xFFFF
    } else {
        crc_update(crc16(data.drop_last()), data.last())
    }
}

/// A 16-bit word with the low byte first.
pub open spec fn le16(v: u16) -> Seq<u8> {
    seq![(v % 256) as u8, (v / 256) as u8]
}

/// The RTU frame for a slave address and PDU: the data, then the CRC.
pub open spec fn rtu_frame(data: Seq<u8>) -> Seq<u8> {
    data + le16(crc16(data))
}

/// The CRC-16 of a byte slice, computed with a table of 256 entries. On the
/// wire its low byte goes first.
#[inline]
pub fn calculate_crc(data: &[u8]) -> (crc: u16)
    ensures
        crc == crc16(data@),
{
    let mut crc: u16 = 0xFFFF;
    let mut i: usize = 0;
    while i < data.len()
        invariant
            i <= data@.len(),
            crc == crc16(data@.take(i as int)),
        decreases data@.len() - i,
    {
        let byte: u8 = data[i];
        let low: u8 = (crc & 0xFF) as u8;
        let idx: u8 = low ^ byte;
        proof {
            crc_table::lemma_crc_table(idx as int);
            assert((crc >> 8) ^ crc_table::crc_of_byte(idx as u16) == crc_table::crc_of_byte(
                crc ^ byte as u16,
            )) by (bit_vector)
                requires
                    low == (crc & 0xFF) as u8,
                    idx == low ^ byte,
            ;
            assert(data@.take(i + 1).drop_last() =~= data@.take(i as int));
        }
        crc = (crc >> 8) ^ CRC_TABLE[idx as usize];
        i = i + 1;
    }
    assert(data@.take(i as int) =~= data@);
    crc
}

/// Append the RTU frame for a slave address and PDU to a buffer.
#[inline]
pub fn encode_rtu_frame(data: &[u8], buf: &mut BytesMut)
    requires
        buffer::buffered(*old(buf)).len() + data@.len() + 2 <= isize::MAX,
    ensures
        buffer::buffered(*final(buf)) == buffer::buffered(*old(buf)) + rtu_frame(data@),
{
    let crc: u16 = calculate_crc(data);
    buf.extend_from_slice(data);
    put_u16_le(buf, crc);
    assert(buffer::buffered(*buf) =~= buffer::buffered(*old(buf)) + rtu_frame(data@));
}

// ── ASCII: LRC ──────────────────────────────────────────────────────────

/// The colon that starts an ASCII frame.
pub const ASCII_START: u8 = 0x3A;

/// Carriage return.
pub const CR: u8 = 0x0D;

/// Line feed.
pub const LF: u8 = 0x0A;

/// The sum of a byte sequence.
pub open spec fn byte_sum(data: Seq<u8>) -> nat
    decreases data.len(),
{
    if data.len() == 0 {
        0
    } else {
        byte_sum(data.drop_last()) + data.last() as nat
    }
}

/// The LRC of a byte sequence: what its sum lacks to a multiple of 256.
pub open spec fn lrc(data: Seq<u8>) -> u8 {
    ((256 - byte_sum(data) % 256) % 256) as u8
}

/// The bytes of a frame and its LRC add up to a multiple of 256.
pub proof fn law_lrc_complements_sum(data: Seq<u8>)
    ensures
        (byte_sum(data) + lrc(data)) % 256 == 0,
{
}

/// The ASCII code of a hexadecimal digit.
pub open spec fn hex_char(d: int) -> u8 {
    if d < 10 {
        (0x30 + d) as u8
    } else {
        (0x37 + d) as u8
    }
}

/// Bytes as pairs of hexadecimal digits.
pub open spec fn hex(data: Seq<u8>) -> Seq<u8> {
    Seq::new(
        2 * data.len(),
        |i: int|
            if i % 2 == 0 {
                hex_char(data[i / 2] as int / 16)
            } else {
                hex_char(data[i / 2] as int % 16)
            },
    )
}

/// The ASCII frame for a slave address and PDU: a colon, the data and its LRC
/// in hexadecimal, and the end of the line.
pub open spec fn ascii_frame(data: Seq<u8>) -> Seq<u8> {
    seq![ASCII_START] + hex(data.push(lrc(data))) + seq![CR, LF]
}

/// The LRC of a byte slice: the two's complement of the sum of its bytes.
#[inline]
pub fn calculate_lrc(data: &[u8]) -> (r: u8)
    ensures
        r == lrc(data@),
{
    let mut sum: u8 = 0;
    let mut i: usize = 0;
    while i < data.len()
        invariant
            i <= data@.len(),
            sum == byte_sum(data@.take(i as int)) % 256,
        decreases data@.len() - i,
    {
        assert(data@.take(i + 1).drop_last() =~= data@.take(i as int));
        sum = sum.wrapping_add(data[i]);
        i = i + 1;
    }
    assert(data@.take(i as int) =~= data@);
    0u8.wrapping_sub(sum)
}

/// The two hexadecimal digits of a byte.
#[inline]
fn hex_encode_byte(byte: u8) -> (r: [u8; 2])
    ensures
        r@ == seq![hex_char(byte as int / 16), hex_char(byte as int % 16)],
{
    let hi: u8 = byte / 16;
    let lo: u8 = byte % 16;
    let r = [
        if hi < 10 {
            0x30 + hi
        } else {
            0x37 + hi
        },
        if lo < 10 {
            0x30 + lo
        } else {
            0x37 + lo
        },
    ];
    assert(r@ =~= seq![hex_char(byte as int / 16), hex_char(byte as int % 16)]);
    r
}

proof fn lemma_hex_push(data: Seq<u8>, b: u8)
    ensures
        hex(data.push(b)) == hex(data).push(hex_char(b as int / 16)).push(hex_char(b as int % 16)),
{
    assert(hex(data.push(b)) =~= hex(data).push(hex_char(b as int / 16)).push(
        hex_char(b as int % 16),
    ));
}

/// Append the ASCII frame for a slave address and PDU to a buffer.
pub fn encode_ascii_frame_into(data: &[u8], buf: &mut BytesMut)
    requires
        buffer::buffered(*old(buf)).len() + 2 * data@.len() + 5 <= isize::MAX,
    ensures
        buffer::buffered(*final(buf)) == buffer::buffered(*old(buf)) + ascii_frame(data@),
{
    let ghost start = buffer::buffered(*buf).push(ASCII_START);
    let lrc_byte: u8 = calculate_lrc(data);
    put_u8(buf, ASCII_START);
    let mut i: usize = 0;
    while i < data.len()
        invariant
            i <= data@.len(),
            start.len() + 2 * data@.len() + 4 <= isize::MAX,
            buffer::buffered(*buf) == start + hex(data@.take(i as int)),
        decreases data@.len() - i,
    {
        let pair = hex_encode_byte(data[i]);
        buf.extend_from_slice(&pair);
        proof {
            lemma_hex_push(data@.take(i as int), data@[i as int]);
            assert(data@.take(i + 1) =~= data@.take(i as int).push(data@[i as int]));
            assert(buffer::buffered(*buf) =~= start + hex(data@.take(i + 1)));
        }
        i = i + 1;
    }
    let pair = hex_encode_byte(lrc_byte);
    buf.extend_from_slice(&pair);
    put_u8(buf, CR);
    put_u8(buf, LF);
    proof {
        assert(data@.take(i as int) =~= data@);
        lemma_hex_push(data@, lrc_byte);
        assert(buffer::buffered(*buf) =~= buffer::buffered(*old(buf)) + ascii_frame(data@));
    }
}

/// The ASCII frame for a slave address and PDU. To reuse a buffer, call
/// [`encode_ascii_frame_into`].
pub fn encode_ascii_frame(data: &[u8]) -> (out: Vec<u8>)
    ensures
        out@ == ascii_frame(data@),
{
    let lrc_byte: u8 = calculate_lrc(data);
    let mut out: Vec<u8> = Vec::new();
    out.push(ASCII_START);
    let mut i: usize = 0;
    while i < data.len()
        invariant
            i <= data@.len(),
            out@ == seq![ASCII_START] + hex(data@.take(i as int)),
        decreases data@.len() - i,
    {
        let pair = hex_encode_byte(data[i]);
        out.push(pair[0]);
        out.push(pair[1]);
        proof {
            lemma_hex_push(data@.take(i as int), data@[i as int]);
            assert(data@.take(i + 1) =~= data@.take(i as int).push(data@[i as int]));
            assert(out@ =~= seq![ASCII_START] + hex(data@.take(i + 1)));
        }
        i = i + 1;
    }
    let pair = hex_encode_byte(lrc_byte);
    out.push(pair[0]);
    out.push(pair[1]);
    out.push(CR);
    out.push(LF);
    proof {
        assert(data@.take(i as int) =~= data@);
        lemma_hex_push(data@, lrc_byte);
        assert(out@ =~= ascii_frame(data@));
    }
    out
}

} // verus!
