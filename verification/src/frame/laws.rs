//! What holds of encoding and decoding together.

use vstd::prelude::*;

use super::decode;
use super::encode;
use super::{Exception, PduError, RequestView, ResponseView, Span};

verus! {

impl RequestView {
    /// A request that a server accepts: every address and quantity pair is
    /// within its limits.
    pub open spec fn is_valid(self) -> bool {
        match self {
            RequestView::ReadCoils(a, q) => decode::span_ok(Span::ReadCoils, a, q),
            RequestView::ReadDiscreteInputs(a, q) => {
                decode::span_ok(Span::ReadDiscreteInputs, a, q)
            },
            RequestView::ReadHoldingRegisters(a, q) => {
                decode::span_ok(Span::ReadHoldingRegisters, a, q)
            },
            RequestView::ReadInputRegisters(a, q) => {
                decode::span_ok(Span::ReadInputRegisters, a, q)
            },
            RequestView::WriteMultipleCoils(a, v) => v.len() <= u16::MAX && decode::span_ok(
                Span::WriteMultipleCoils,
                a,
                v.len() as u16,
            ),
            RequestView::WriteMultipleRegisters(a, v) => v.len() <= u16::MAX && decode::span_ok(
                Span::WriteMultipleRegisters,
                a,
                v.len() as u16,
            ),
            RequestView::ReadWriteMultipleRegisters(ra, rq, wa, v) => v.len() <= u16::MAX
                && decode::span_ok(Span::ReadWriteRead, ra, rq) && decode::span_ok(
                Span::ReadWriteWrite,
                wa,
                v.len() as u16,
            ),
            RequestView::Disconnect => false,
            _ => true,
        }
    }
}

impl ResponseView {
    /// The response as it comes back from the wire: coils filled up to whole
    /// bytes, an exception code read by its number.
    pub open spec fn canonical(self) -> ResponseView {
        match self {
            ResponseView::ReadCoils(v) => ResponseView::ReadCoils(padded(v)),
            ResponseView::ReadDiscreteInputs(v) => ResponseView::ReadDiscreteInputs(padded(v)),
            ResponseView::Exception(fc, e) => ResponseView::Exception(
                super::base_code(fc),
                Exception::of_code(e.code()),
            ),
            other => other,
        }
    }
}

/// Coils filled up with zeros to whole bytes.
pub open spec fn padded(bits: Seq<bool>) -> Seq<bool> {
    Seq::new(8 * encode::coil_bytes(bits.len()), |i: int| encode::coil_or_off(bits, i))
}

/// The bits that a byte was put together from are the bits that it has.
proof fn lemma_octet_bits(
    b0: bool,
    b1: bool,
    b2: bool,
    b3: bool,
    b4: bool,
    b5: bool,
    b6: bool,
    b7: bool,
)
    ensures
        ({
            let b = encode::octet(b0, b1, b2, b3, b4, b5, b6, b7);
            &&& decode::bit(b, 0) == b0
            &&& decode::bit(b, 1) == b1
            &&& decode::bit(b, 2) == b2
            &&& decode::bit(b, 3) == b3
            &&& decode::bit(b, 4) == b4
            &&& decode::bit(b, 5) == b5
            &&& decode::bit(b, 6) == b6
            &&& decode::bit(b, 7) == b7
        }),
{
    let v0 = if b0 { 1u8 } else { 0 };
    let v1 = if b1 { 2u8 } else { 0 };
    let v2 = if b2 { 4u8 } else { 0 };
    let v3 = if b3 { 8u8 } else { 0 };
    let v4 = if b4 { 16u8 } else { 0 };
    let v5 = if b5 { 32u8 } else { 0 };
    let v6 = if b6 { 64u8 } else { 0 };
    let v7 = if b7 { 128u8 } else { 0 };
    let b = v0 | v1 | v2 | v3 | v4 | v5 | v6 | v7;
    assert({
        &&& (b >> 0) & 1 == (if b0 { 1u8 } else { 0 })
        &&& (b >> 1) & 1 == (if b1 { 1u8 } else { 0 })
        &&& (b >> 2) & 1 == (if b2 { 1u8 } else { 0 })
        &&& (b >> 3) & 1 == (if b3 { 1u8 } else { 0 })
        &&& (b >> 4) & 1 == (if b4 { 1u8 } else { 0 })
        &&& (b >> 5) & 1 == (if b5 { 1u8 } else { 0 })
        &&& (b >> 6) & 1 == (if b6 { 1u8 } else { 0 })
        &&& (b >> 7) & 1 == (if b7 { 1u8 } else { 0 })
    }) by (bit_vector)
        requires
            b == v0 | v1 | v2 | v3 | v4 | v5 | v6 | v7,
            v0 == (if b0 { 1u8 } else { 0 }),
            v1 == (if b1 { 2u8 } else { 0 }),
            v2 == (if b2 { 4u8 } else { 0 }),
            v3 == (if b3 { 8u8 } else { 0 }),
            v4 == (if b4 { 16u8 } else { 0 }),
            v5 == (if b5 { 32u8 } else { 0 }),
            v6 == (if b6 { 64u8 } else { 0 }),
            v7 == (if b7 { 128u8 } else { 0 }),
    ;
}

/// Bit `k` of a packed byte is the coil that stands `k` positions behind the
/// first one.
proof fn lemma_packed_bit(bits: Seq<bool>, start: int, k: int)
    requires
        0 <= k < 8,
    ensures
        decode::bit(encode::packed_byte(bits, start), k) == encode::coil_or_off(bits, start + k),
{
    reveal(encode::packed_byte);
    lemma_octet_bits(
        encode::coil_or_off(bits, start),
        encode::coil_or_off(bits, start + 1),
        encode::coil_or_off(bits, start + 2),
        encode::coil_or_off(bits, start + 3),
        encode::coil_or_off(bits, start + 4),
        encode::coil_or_off(bits, start + 5),
        encode::coil_or_off(bits, start + 6),
        encode::coil_or_off(bits, start + 7),
    );
    assert(k == 0 || k == 1 || k == 2 || k == 3 || k == 4 || k == 5 || k == 6 || k == 7);
}

/// Coils come back from the bytes that they were packed into, whatever stands
/// behind those bytes.
pub proof fn law_coils_round_trip(bits: Seq<bool>, rest: Seq<u8>)
    ensures
        decode::unpacked(encode::packed(bits) + rest, bits.len()) == bits,
        decode::unpacked(encode::packed(bits) + rest, 8 * encode::packed(bits).len()) == padded(
            bits,
        ),
{
    let d = encode::packed(bits) + rest;
    assert forall|i: int| 0 <= i < padded(bits).len() implies decode::unpacked(
        d,
        8 * encode::packed(bits).len(),
    )[i] == padded(bits)[i] by {
        assert(d[i / 8] == encode::packed(bits)[i / 8]);
        lemma_packed_bit(bits, 8 * (i / 8), i % 8);
    }
    assert forall|i: int| 0 <= i < bits.len() implies decode::unpacked(d, bits.len())[i]
        == bits[i] by {
        assert(d[i / 8] == encode::packed(bits)[i / 8]);
        lemma_packed_bit(bits, 8 * (i / 8), i % 8);
    }
    assert(decode::unpacked(d, 8 * encode::packed(bits).len()) =~= padded(bits));
    assert(decode::unpacked(d, bits.len()) =~= bits);
}

/// Registers come back from the bytes that they were written as, whatever
/// stands behind those bytes.
pub proof fn law_registers_round_trip(regs: Seq<u16>, rest: Seq<u8>)
    ensures
        decode::registers(encode::words(regs) + rest, regs.len()) == regs,
{
    let d = encode::words(regs) + rest;
    assert forall|i: int| 0 <= i < regs.len() implies decode::word(d, 2 * i) == regs[i] by {
        assert(d[2 * i] == (regs[i] / 256) as u8);
        assert(d[2 * i + 1] == (regs[i] % 256) as u8);
    }
    assert(decode::registers(d, regs.len()) =~= regs);
}

proof fn lemma_coil_write_round_trip(a: u16, v: Seq<bool>, rest: Seq<u8>)
    requires
        RequestView::WriteMultipleCoils(a, v).is_valid(),
    ensures
        RequestView::parse(RequestView::WriteMultipleCoils(a, v).pdu() + rest) == Ok::<
            RequestView,
            PduError,
        >(RequestView::WriteMultipleCoils(a, v)),
{
    let pdu = RequestView::WriteMultipleCoils(a, v).pdu() + rest;
    let d = pdu.skip(1);
    assert(pdu[0] == 15);
    assert(decode::word(d, 0) == a);
    assert(decode::word(d, 2) == v.len());
    assert(d.skip(4)[0] == encode::packed(v).len());
    assert(d.skip(5) =~= encode::packed(v) + rest);
    assert(decode::unpacked(d.skip(5), v.len()) == v) by {
        law_coils_round_trip(v, rest);
    }
    assert(decode::parse_span(Span::WriteMultipleCoils, d) == Ok::<(u16, u16), PduError>(
        (a, v.len() as u16),
    ));
    assert(decode::payload_error(
        Span::WriteMultipleCoils,
        d.skip(4),
        encode::coil_bytes(v.len()),
        PduError::TruncatedCoilData,
    ) is None);
}

proof fn lemma_register_write_round_trip(a: u16, v: Seq<u16>, rest: Seq<u8>)
    requires
        RequestView::WriteMultipleRegisters(a, v).is_valid(),
    ensures
        RequestView::parse(RequestView::WriteMultipleRegisters(a, v).pdu() + rest) == Ok::<
            RequestView,
            PduError,
        >(RequestView::WriteMultipleRegisters(a, v)),
{
    let pdu = RequestView::WriteMultipleRegisters(a, v).pdu() + rest;
    let d = pdu.skip(1);
    assert(pdu[0] == 16);
    assert(decode::word(d, 0) == a);
    assert(decode::word(d, 2) == v.len());
    assert(d.skip(4)[0] == encode::words(v).len());
    assert(d.skip(5) =~= encode::words(v) + rest);
    law_registers_round_trip(v, rest);
}

proof fn lemma_read_write_round_trip(ra: u16, rq: u16, wa: u16, v: Seq<u16>, rest: Seq<u8>)
    requires
        RequestView::ReadWriteMultipleRegisters(ra, rq, wa, v).is_valid(),
    ensures
        RequestView::parse(RequestView::ReadWriteMultipleRegisters(ra, rq, wa, v).pdu() + rest)
            == Ok::<RequestView, PduError>(
            RequestView::ReadWriteMultipleRegisters(ra, rq, wa, v),
        ),
{
    let pdu = RequestView::ReadWriteMultipleRegisters(ra, rq, wa, v).pdu() + rest;
    let d = pdu.skip(1);
    assert(pdu[0] == 23);
    assert(decode::word(d, 0) == ra);
    assert(decode::word(d, 2) == rq);
    assert(decode::word(d.skip(4), 0) == wa);
    assert(decode::word(d.skip(4), 2) == v.len());
    assert(d.skip(8)[0] == encode::words(v).len());
    assert(d.skip(9) =~= encode::words(v) + rest);
    law_registers_round_trip(v, rest);
}

/// A valid request comes back from its wire form, whatever stands behind it.
pub proof fn law_request_round_trip(req: RequestView, rest: Seq<u8>)
    requires
        req.is_valid(),
    ensures
        RequestView::parse(req.pdu() + rest) == Ok::<RequestView, PduError>(req),
{
    match req {
        RequestView::WriteMultipleCoils(a, v) => lemma_coil_write_round_trip(a, v, rest),
        RequestView::WriteMultipleRegisters(a, v) => lemma_register_write_round_trip(a, v, rest),
        RequestView::ReadWriteMultipleRegisters(ra, rq, wa, v) => lemma_read_write_round_trip(
            ra,
            rq,
            wa,
            v,
            rest,
        ),
        _ => {
            assert((req.pdu() + rest)[0] == req.function_code());
        },
    }
}

/// A request that is not valid is refused when its wire form is decoded, if it has
/// one at all.
pub proof fn law_invalid_request_is_refused(req: RequestView)
    requires
        req.encoding_error() is None,
        !req.is_valid(),
    ensures
        RequestView::parse(req.pdu()) is Err,
{
    let pdu = req.pdu();
    let d = pdu.skip(1);
    match req {
        RequestView::Disconnect => {},
        RequestView::WriteMultipleCoils(a, v) => {
            assert(encode::packed(v).len() <= 255);
            assert(pdu[0] == 15);
            assert(decode::word(d, 0) == a);
            assert(decode::word(d, 2) == v.len());
        },
        RequestView::WriteMultipleRegisters(a, v) => {
            assert(encode::words(v).len() <= 255);
            assert(pdu[0] == 16);
            assert(decode::word(d, 0) == a);
            assert(decode::word(d, 2) == v.len());
        },
        RequestView::ReadWriteMultipleRegisters(ra, rq, wa, v) => {
            assert(encode::words(v).len() <= 255);
            assert(pdu[0] == 23);
            assert(decode::word(d, 0) == ra);
            assert(decode::word(d, 2) == rq);
            assert(decode::word(d.skip(4), 0) == wa);
            assert(decode::word(d.skip(4), 2) == v.len());
        },
        _ => {
            assert(pdu[0] == req.function_code());
        },
    }
}

/// A valid request comes back from its wire form.
pub proof fn lemma_request_parses(req: RequestView)
    requires
        req.is_valid(),
    ensures
        RequestView::parse(req.pdu()) == Ok::<RequestView, PduError>(req),
{
    law_request_round_trip(req, Seq::empty());
    assert(req.pdu() + Seq::empty() =~= req.pdu());
}

/// A valid request is written as at least five bytes, and starts with its
/// function code.
pub proof fn lemma_request_pdu_shape(req: RequestView)
    requires
        req.is_valid(),
    ensures
        req.pdu().len() >= 5,
        req.pdu()[0] == req.function_code(),
        super::is_standard_code(req.function_code()),
        req.encoding_error() is None ==> req.pdu().len() <= super::MAX_PDU_SIZE,
{
}

/// Whatever decodes as a request is a valid request.
pub proof fn law_decoded_request_is_valid(pdu: Seq<u8>)
    ensures
        RequestView::parse(pdu) matches Ok(req) ==> req.is_valid(),
{
}

/// A request other than a coil list is written the way it was read: its wire
/// form is what the decoded bytes started with.
pub proof fn law_decoded_request_is_written_back(pdu: Seq<u8>)
    ensures
        RequestView::parse(pdu) matches Ok(req) ==> req is WriteMultipleCoils || (req.pdu().len()
            <= pdu.len() && pdu.take(req.pdu().len() as int) == req.pdu()),
{
    if let Ok(req) = RequestView::parse(pdu) {
        let d = pdu.skip(1);
        match req {
            RequestView::WriteMultipleCoils(..) => {},
            RequestView::WriteMultipleRegisters(a, v) => {
                assert(pdu[5] == d.skip(4)[0]);
                assert forall|i: int| 0 <= i < 2 * v.len() implies pdu[6 + i] == encode::words(
                    v,
                )[i] by {
                    assert(v[i / 2] == decode::word(d.skip(5), 2 * (i / 2)));
                    assert(d.skip(5)[2 * (i / 2)] == pdu[6 + 2 * (i / 2)]);
                    assert(d.skip(5)[2 * (i / 2) + 1] == pdu[6 + 2 * (i / 2) + 1]);
                }
                assert(pdu.take(req.pdu().len() as int) =~= req.pdu());
            },
            RequestView::ReadWriteMultipleRegisters(ra, rq, wa, v) => {
                assert(wa == decode::word(d.skip(4), 0));
                assert(v.len() == decode::word(d.skip(4), 2));
                assert(pdu[5] == d.skip(4)[0] && pdu[6] == d.skip(4)[1]);
                assert(pdu[7] == d.skip(4)[2] && pdu[8] == d.skip(4)[3]);
                assert(pdu[9] == d.skip(8)[0]);
                assert forall|i: int| 0 <= i < 2 * v.len() implies pdu[10 + i] == encode::words(
                    v,
                )[i] by {
                    assert(v[i / 2] == decode::word(d.skip(9), 2 * (i / 2)));
                    assert(d.skip(9)[2 * (i / 2)] == pdu[10 + 2 * (i / 2)]);
                    assert(d.skip(9)[2 * (i / 2) + 1] == pdu[10 + 2 * (i / 2) + 1]);
                }
                assert(pdu.take(req.pdu().len() as int) =~= req.pdu());
            },
            _ => {
                assert(pdu.take(req.pdu().len() as int) =~= req.pdu());
            },
        }
    }
}

/// A response with a wire form comes back from it in canonical form, whatever
/// stands behind it.
pub proof fn law_response_round_trip(rsp: ResponseView, rest: Seq<u8>)
    requires
        rsp.encoding_error() is None,
    ensures
        ResponseView::parse(rsp.pdu() + rest) == Ok::<ResponseView, PduError>(rsp.canonical()),
{
    let pdu = rsp.pdu() + rest;
    let d = pdu.skip(1);
    match rsp {
        ResponseView::ReadCoils(v) => {
            assert(pdu[0] == 1);
            assert(d.skip(1) =~= encode::packed(v) + rest);
            law_coils_round_trip(v, rest);
        },
        ResponseView::ReadDiscreteInputs(v) => {
            assert(pdu[0] == 2);
            assert(d.skip(1) =~= encode::packed(v) + rest);
            law_coils_round_trip(v, rest);
        },
        ResponseView::ReadHoldingRegisters(v) => {
            assert(pdu[0] == 3);
            assert(d.skip(1) =~= encode::words(v) + rest);
            law_registers_round_trip(v, rest);
        },
        ResponseView::ReadInputRegisters(v) => {
            assert(pdu[0] == 4);
            assert(d.skip(1) =~= encode::words(v) + rest);
            law_registers_round_trip(v, rest);
        },
        ResponseView::ReadWriteMultipleRegisters(v) => {
            assert(pdu[0] == 23);
            assert(d.skip(1) =~= encode::words(v) + rest);
            law_registers_round_trip(v, rest);
        },
        _ => {
            assert(pdu[0] == rsp.pdu()[0]);
        },
    }
}

/// A response with a wire form is written as 2 to 253 bytes.
pub proof fn lemma_response_pdu_shape(rsp: ResponseView)
    requires
        rsp.encoding_error() is None,
    ensures
        2 <= rsp.pdu().len() <= super::MAX_PDU_SIZE,
{
}

/// A response within the protocol's limits always has a wire form, of at most
/// 253 bytes.
pub proof fn law_response_within_limits_is_encodable(rsp: ResponseView)
    requires
        rsp.within_limits(),
    ensures
        rsp.encoding_error() is None,
        rsp.pdu().len() <= super::MAX_PDU_SIZE,
{
}

} // verus!
