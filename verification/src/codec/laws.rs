//! What checksums and frames are, bit by bit and byte by byte.

use vstd::prelude::*;

verus! {

/// The checksum of no bytes has all bits set. Each further byte is taken into the low
/// byte, and then eight times a bit is shifted out at the low end: where it was one,
/// the polynomial is taken in.
pub proof fn law_crc_of_one_more_byte(data: Seq<u8>, b: u8)
    ensures
        super::crc16(Seq::empty()) == 0xFFFF,
        ({
            let shifted = |c: u16|
                if c % 2 == 1 {
                    (c / 2) ^ 0xA001u16
                } else {
                    c / 2
                };
            let taken_in = super::crc16(data) ^ (b as u16);
            super::crc16(data.push(b)) == shifted(
                shifted(shifted(shifted(shifted(shifted(shifted(shifted(taken_in))))))),
            )
        }),
{
    assert(data.push(b).drop_last() =~= data);
    lemma_shift();
}

/// One step of the checksum in terms of numbers.
proof fn lemma_shift()
    ensures
        forall|c: u16| #[trigger]
            super::crc_table::crc_step(c) == (if c % 2 == 1 {
                (c / 2) ^ 0xA001u16
            } else {
                c / 2
            }),
{
    assert forall|c: u16| #[trigger]
        super::crc_table::crc_step(c) == (if c % 2 == 1 {
            (c / 2) ^ 0xA001u16
        } else {
            c / 2
        }) by {
        assert(c >> 1 == c / 2 && c & 1 == c % 2 && (c >> 1) ^ 0u16 == c >> 1) by (bit_vector);
    }
}

/// A binary frame is its data and behind it the checksum of the data, the low byte
/// first.
pub proof fn law_binary_frame(data: Seq<u8>)
    ensures
        super::rtu_frame(data).len() == data.len() + 2,
        super::rtu_frame(data).take(data.len() as int) == data,
        super::rtu_frame(data)[data.len() as int] + 256 * super::rtu_frame(data)[data.len() as int + 1]
            == super::crc16(data),
{
    assert(super::rtu_frame(data).take(data.len() as int) =~= data);
}

/// The sum over the bytes starts at zero and grows by each byte.
pub proof fn law_byte_sum(data: Seq<u8>, b: u8)
    ensures
        super::byte_sum(Seq::empty()) == 0,
        super::byte_sum(data.push(b)) == super::byte_sum(data) + b,
{
    assert(data.push(b).drop_last() =~= data);
}

/// A text frame is a colon, two hexadecimal digits for each byte of the data, two for
/// the checksum that brings the sum to zero, and a line end.
pub proof fn law_text_frame(data: Seq<u8>, i: int)
    ensures
        ({
            let f = super::ascii_frame(data);
            let n = data.len() as int;
            let digits = "0123456789ABCDEF"@;
            &&& f.len() == 2 * n + 5
            &&& f[0] == 58
            &&& 0 <= i < n ==> f[1 + 2 * i] as char == digits[data[i] as int / 16]
            &&& 0 <= i < n ==> f[2 + 2 * i] as char == digits[data[i] as int % 16]
            &&& exists|sum: u8|
                {
                    &&& (#[trigger] (super::byte_sum(data) + sum)) % 256 == 0
                    &&& f[1 + 2 * n] as char == digits[sum as int / 16]
                    &&& f[2 + 2 * n] as char == digits[sum as int % 16]
                }
            &&& f[3 + 2 * n] == 13
            &&& f[4 + 2 * n] == 10
        }),
{
    reveal_strlit("0123456789ABCDEF");
    let f = super::ascii_frame(data);
    let n = data.len() as int;
    let all = data.push(super::lrc(data));
    let h = super::hex(all);
    assert(h.len() == 2 * n + 2);
    if 0 <= i < n {
        assert(f[1 + 2 * i] == h[2 * i]);
        assert(f[2 + 2 * i] == h[2 * i + 1]);
        assert(all[i] == data[i]);
    }
    let sum = super::lrc(data);
    super::law_lrc_complements_sum(data);
    assert(all[n] == sum);
    assert(f[1 + 2 * n] == h[2 * n]);
    assert(f[2 + 2 * n] == h[2 * n + 1]);
    assert((super::byte_sum(data) + sum) % 256 == 0);
}

} // verus!
