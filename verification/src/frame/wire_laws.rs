//! What stands on the wire, byte by byte.
//!
//! The laws here speak of single bytes and numbers, so that they say what a PDU
//! looks like to a device at the other end.

use vstd::prelude::*;

use super::decode;
use super::encode;
use super::{ByteCountField, Exception, PduError, Request, RequestView, Response, ResponseView};
use super::{MAX_COILS, MAX_PDU_SIZE, MAX_REGISTERS};

verus! {

// ── Codes ───────────────────────────────────────────────────────────────

/// The limits of the protocol.
pub proof fn law_limits()
    ensures
        MAX_PDU_SIZE == 253,
        MAX_COILS == 2000,
        MAX_REGISTERS == 125,
        encode::MAX_ENCODED_SIZE == 265,
{
}

/// Each named exception has its own number on the wire, and is what that number
/// stands for. Every other number stands for itself.
pub proof fn law_exception_codes(n: u8)
    ensures
        Exception::IllegalFunction.code() == 1,
        Exception::IllegalDataAddress.code() == 2,
        Exception::IllegalDataValue.code() == 3,
        Exception::ServerDeviceFailure.code() == 4,
        Exception::Acknowledge.code() == 5,
        Exception::ServerDeviceBusy.code() == 6,
        Exception::NegativeAcknowledge.code() == 7,
        Exception::MemoryParityError.code() == 8,
        Exception::GatewayPathUnavailable.code() == 10,
        Exception::GatewayTargetDeviceFailedToRespond.code() == 11,
        Exception::Custom(n).code() == n,
        Exception::of_code(1) == Exception::IllegalFunction,
        Exception::of_code(2) == Exception::IllegalDataAddress,
        Exception::of_code(3) == Exception::IllegalDataValue,
        Exception::of_code(4) == Exception::ServerDeviceFailure,
        Exception::of_code(5) == Exception::Acknowledge,
        Exception::of_code(6) == Exception::ServerDeviceBusy,
        Exception::of_code(7) == Exception::NegativeAcknowledge,
        Exception::of_code(8) == Exception::MemoryParityError,
        Exception::of_code(10) == Exception::GatewayPathUnavailable,
        Exception::of_code(11) == Exception::GatewayTargetDeviceFailedToRespond,
        n == 0 || n == 9 || n > 11 ==> Exception::of_code(n) == Exception::Custom(n),
{
}

/// The conversions between exceptions and bytes go by these numbers.
pub proof fn law_exception_conversions(n: u8, e: Exception)
    ensures
        <Exception as vstd::std_specs::convert::FromSpec<u8>>::obeys_from_spec(),
        <Exception as vstd::std_specs::convert::FromSpec<u8>>::from_spec(n) == Exception::of_code(n),
        <u8 as vstd::std_specs::convert::FromSpec<Exception>>::obeys_from_spec(),
        <u8 as vstd::std_specs::convert::FromSpec<Exception>>::from_spec(e) == e.code(),
{
}

/// A function code is known if it is one of eleven, and the exception flag is the
/// highest bit.
pub proof fn law_function_code_bytes(b: u8)
    ensures
        super::is_standard_code(b) <==> b == 1 || b == 2 || b == 3 || b == 4 || b == 5 || b == 6
            || b == 8 || b == 15 || b == 16 || b == 22 || b == 23,
        b < 128 ==> super::base_code(b) == b && super::flagged_code(b) == b + 128,
        b >= 128 ==> super::base_code(b) == b - 128 && super::flagged_code(b) == b,
{
}

/// A request is valid when its quantities are within the limits of the protocol and its
/// addresses within the address space. A disconnect is no request on the wire.
pub proof fn law_valid_requests(req: RequestView)
    ensures
        req.is_valid() == match req {
            RequestView::ReadCoils(a, q) => 1 <= q <= 2000 && a + q <= 65536,
            RequestView::ReadDiscreteInputs(a, q) => 1 <= q <= 2000 && a + q <= 65536,
            RequestView::ReadHoldingRegisters(a, q) => 1 <= q <= 125 && a + q <= 65536,
            RequestView::ReadInputRegisters(a, q) => 1 <= q <= 125 && a + q <= 65536,
            RequestView::WriteMultipleCoils(a, v) => 1 <= v.len() <= 2000 && a + v.len() <= 65536,
            RequestView::WriteMultipleRegisters(a, v) => 1 <= v.len() <= 125 && a + v.len()
                <= 65536,
            RequestView::ReadWriteMultipleRegisters(ra, rq, wa, v) => 1 <= rq <= 125 && ra + rq
                <= 65536 && 1 <= v.len() <= 125 && wa + v.len() <= 65536,
            RequestView::Disconnect => false,
            _ => true,
        },
{
}

/// Every request and every response has the function code of the protocol.
pub proof fn law_function_codes(req: RequestView, rsp: ResponseView)
    ensures
        req is ReadCoils ==> req.function_code() == 1,
        req is ReadDiscreteInputs ==> req.function_code() == 2,
        req is ReadHoldingRegisters ==> req.function_code() == 3,
        req is ReadInputRegisters ==> req.function_code() == 4,
        req is WriteSingleCoil ==> req.function_code() == 5,
        req is WriteSingleRegister ==> req.function_code() == 6,
        req is Diagnostic ==> req.function_code() == 8,
        req is WriteMultipleCoils ==> req.function_code() == 15,
        req is WriteMultipleRegisters ==> req.function_code() == 16,
        req is MaskWriteRegister ==> req.function_code() == 22,
        req is ReadWriteMultipleRegisters ==> req.function_code() == 23,
        req is Disconnect ==> req.function_code() == 0,
        rsp is ReadCoils ==> rsp.function_code() == 1,
        rsp is ReadDiscreteInputs ==> rsp.function_code() == 2,
        rsp is ReadHoldingRegisters ==> rsp.function_code() == 3,
        rsp is ReadInputRegisters ==> rsp.function_code() == 4,
        rsp is WriteSingleCoil ==> rsp.function_code() == 5,
        rsp is WriteSingleRegister ==> rsp.function_code() == 6,
        rsp is Diagnostic ==> rsp.function_code() == 8,
        rsp is WriteMultipleCoils ==> rsp.function_code() == 15,
        rsp is WriteMultipleRegisters ==> rsp.function_code() == 16,
        rsp is MaskWriteRegister ==> rsp.function_code() == 22,
        rsp is ReadWriteMultipleRegisters ==> rsp.function_code() == 23,
        rsp matches ResponseView::Exception(fc, _) ==> rsp.function_code() == fc % 128 + 128,
{
}

// ── Values and their views ──────────────────────────────────────────────

/// The view of a request holds its fields, and the values to write in order.
pub proof fn law_request_view(req: Request<'_>)
    ensures
        match req {
            Request::ReadCoils(a, q) => req@ == RequestView::ReadCoils(a, q),
            Request::ReadDiscreteInputs(a, q) => req@ == RequestView::ReadDiscreteInputs(a, q),
            Request::ReadHoldingRegisters(a, q) => req@ == RequestView::ReadHoldingRegisters(a, q),
            Request::ReadInputRegisters(a, q) => req@ == RequestView::ReadInputRegisters(a, q),
            Request::WriteSingleCoil(a, v) => req@ == RequestView::WriteSingleCoil(a, v),
            Request::WriteSingleRegister(a, v) => req@ == RequestView::WriteSingleRegister(a, v),
            Request::WriteMultipleCoils(a, v) => req@ == RequestView::WriteMultipleCoils(a, v@),
            Request::WriteMultipleRegisters(a, v) => req@ == RequestView::WriteMultipleRegisters(
                a,
                v@,
            ),
            Request::ReadWriteMultipleRegisters(a, q, w, v) => req@
                == RequestView::ReadWriteMultipleRegisters(a, q, w, v@),
            Request::MaskWriteRegister(a, m, o) => req@ == RequestView::MaskWriteRegister(a, m, o),
            Request::Diagnostic(sf, d) => req@ == RequestView::Diagnostic(sf, d),
            Request::Disconnect => req@ == RequestView::Disconnect,
        },
{
}

/// The view of a response holds its fields, and the values read in order.
pub proof fn law_response_view(rsp: Response)
    ensures
        match rsp {
            Response::ReadCoils(v) => rsp@ == ResponseView::ReadCoils(v@),
            Response::ReadDiscreteInputs(v) => rsp@ == ResponseView::ReadDiscreteInputs(v@),
            Response::ReadHoldingRegisters(v) => rsp@ == ResponseView::ReadHoldingRegisters(v@),
            Response::ReadInputRegisters(v) => rsp@ == ResponseView::ReadInputRegisters(v@),
            Response::WriteSingleCoil(a, v) => rsp@ == ResponseView::WriteSingleCoil(a, v),
            Response::WriteSingleRegister(a, v) => rsp@ == ResponseView::WriteSingleRegister(a, v),
            Response::WriteMultipleCoils(a, q) => rsp@ == ResponseView::WriteMultipleCoils(a, q),
            Response::WriteMultipleRegisters(a, q) => rsp@ == ResponseView::WriteMultipleRegisters(
                a,
                q,
            ),
            Response::ReadWriteMultipleRegisters(v) => rsp@
                == ResponseView::ReadWriteMultipleRegisters(v@),
            Response::MaskWriteRegister(a, m, o) => rsp@ == ResponseView::MaskWriteRegister(
                a,
                m,
                o,
            ),
            Response::Diagnostic(sf, d) => rsp@ == ResponseView::Diagnostic(sf, d),
            Response::Exception(fc, e) => rsp@ == ResponseView::Exception(fc, e),
        },
{
}

// ── Lists on the wire ───────────────────────────────────────────────────

/// Of each register the high byte goes first, whatever the length of the list.
pub proof fn law_register_bytes(regs: Seq<u16>, i: int)
    requires
        0 <= i < regs.len(),
    ensures
        encode::words(regs).len() == 2 * regs.len(),
        encode::words(regs)[2 * i] == regs[i] / 256,
        encode::words(regs)[2 * i + 1] == regs[i] % 256,
{
}

/// A register is read from two bytes, the high byte first, whatever the length of
/// the list.
pub proof fn law_registers_from_bytes(d: Seq<u8>, n: nat, i: int)
    requires
        0 <= i < n,
    ensures
        decode::registers(d, n).len() == n,
        decode::registers(d, n)[i] == 256 * d[2 * i] + d[2 * i + 1],
{
}

/// Bit `k` of a byte is what is left at the low end after shifting by `k`.
proof fn lemma_bits_of(b: u8, k: u8)
    requires
        k < 8,
    ensures
        decode::bit(b, k as int) == ((b >> k) & 1 == 1),
{
}

/// Coil `i` goes into bit `i % 8` of byte `i / 8`, and what fills the last byte up
/// is zero.
pub proof fn law_coil_bits(bits: Seq<bool>, i: int)
    requires
        0 <= i < 8 * ((bits.len() + 7) / 8),
    ensures
        encode::packed(bits).len() == (bits.len() + 7) / 8,
        ((encode::packed(bits)[i / 8] >> ((i % 8) as u8)) & 1 == 1) == (i < bits.len() && bits[i]),
{
    super::laws::law_coils_round_trip(bits, Seq::empty());
    let d = encode::packed(bits) + Seq::empty();
    assert(d =~= encode::packed(bits));
    let all = decode::unpacked(d, 8 * encode::packed(bits).len());
    assert(all[i] == super::laws::padded(bits)[i]);
    lemma_bits_of(d[i / 8], (i % 8) as u8);
}

/// Coil `i` is read from bit `i % 8` of byte `i / 8`.
pub proof fn law_coils_from_bits(d: Seq<u8>, n: nat, i: int)
    requires
        0 <= i < n,
    ensures
        decode::unpacked(d, n).len() == n,
        decode::unpacked(d, n)[i] == ((d[i / 8] >> ((i % 8) as u8)) & 1 == 1),
{
}

// ── Requests on the wire ────────────────────────────────────────────────

/// The bytes of a request without a list: function code, then each field with its
/// high byte first.
pub proof fn law_request_bytes(req: RequestView)
    ensures
        ({
            let p = req.pdu();
            match req {
                RequestView::ReadCoils(a, q) => p.len() == 5 && p[0] == 1 && p[1] * 256 + p[2] == a
                    && p[3] * 256 + p[4] == q,
                RequestView::ReadDiscreteInputs(a, q) => p.len() == 5 && p[0] == 2 && p[1] * 256
                    + p[2] == a && p[3] * 256 + p[4] == q,
                RequestView::ReadHoldingRegisters(a, q) => p.len() == 5 && p[0] == 3 && p[1] * 256
                    + p[2] == a && p[3] * 256 + p[4] == q,
                RequestView::ReadInputRegisters(a, q) => p.len() == 5 && p[0] == 4 && p[1] * 256
                    + p[2] == a && p[3] * 256 + p[4] == q,
                RequestView::WriteSingleCoil(a, on) => p.len() == 5 && p[0] == 5 && p[1] * 256
                    + p[2] == a && p[3] == (if on {
                    0xFFu8
                } else {
                    0
                }) && p[4] == 0,
                RequestView::WriteSingleRegister(a, v) => p.len() == 5 && p[0] == 6 && p[1] * 256
                    + p[2] == a && p[3] * 256 + p[4] == v,
                RequestView::Diagnostic(sf, v) => p.len() == 5 && p[0] == 8 && p[1] * 256 + p[2]
                    == sf && p[3] * 256 + p[4] == v,
                RequestView::MaskWriteRegister(a, m, o) => p.len() == 7 && p[0] == 22 && p[1] * 256
                    + p[2] == a && p[3] * 256 + p[4] == m && p[5] * 256 + p[6] == o,
                RequestView::Disconnect => p.len() == 0,
                _ => true,
            }
        }),
{
}

/// The bytes of a request that writes coils: function code, address, quantity, byte
/// count, and the coils, eight to a byte, the first in the lowest bit.
pub proof fn law_coil_write_bytes(a: u16, v: Seq<bool>, i: int)
    requires
        v.len() <= 2040,
    ensures
        ({
            let p = RequestView::WriteMultipleCoils(a, v).pdu();
            &&& p.len() == 6 + (v.len() + 7) / 8
            &&& p[0] == 15
            &&& p[1] * 256 + p[2] == a
            &&& p[3] * 256 + p[4] == v.len()
            &&& p[5] == (v.len() + 7) / 8
            &&& 0 <= i < 8 * ((v.len() + 7) / 8) ==> ((p[6 + i / 8] >> ((i % 8) as u8)) & 1 == 1) == (
            i < v.len() && v[i])
        }),
{
    let p = RequestView::WriteMultipleCoils(a, v).pdu();
    if 0 <= i < 8 * ((v.len() + 7) / 8) {
        law_coil_bits(v, i);
        assert(p[6 + i / 8] == encode::packed(v)[i / 8]);
    }
}

/// The bytes of a request that writes registers: function code, address, quantity,
/// byte count, and the registers, the high byte of each first.
pub proof fn law_register_write_bytes(a: u16, v: Seq<u16>)
    requires
        v.len() <= 127,
    ensures
        ({
            let p = RequestView::WriteMultipleRegisters(a, v).pdu();
            &&& p.len() == 6 + 2 * v.len()
            &&& p[0] == 16
            &&& p[1] * 256 + p[2] == a
            &&& p[3] * 256 + p[4] == v.len()
            &&& p[5] == 2 * v.len()
            &&& forall|i: int|
                0 <= i < v.len() ==> p[6 + 2 * i] * 256 + p[7 + 2 * i] == #[trigger] v[i]
        }),
{
    let p = RequestView::WriteMultipleRegisters(a, v).pdu();
    assert forall|i: int| 0 <= i < v.len() implies p[6 + 2 * i] * 256 + p[7 + 2 * i]
        == #[trigger] v[i] by {
        assert(p[6 + 2 * i] == encode::words(v)[2 * i]);
        assert(p[7 + 2 * i] == encode::words(v)[2 * i + 1]);
    }
}

/// The bytes of a read-write request: function code, what to read, where to write,
/// quantity, byte count, and the registers, the high byte of each first.
pub proof fn law_read_write_bytes(ra: u16, rq: u16, wa: u16, v: Seq<u16>)
    requires
        v.len() <= 127,
    ensures
        ({
            let p = RequestView::ReadWriteMultipleRegisters(ra, rq, wa, v).pdu();
            &&& p.len() == 10 + 2 * v.len()
            &&& p[0] == 23
            &&& p[1] * 256 + p[2] == ra
            &&& p[3] * 256 + p[4] == rq
            &&& p[5] * 256 + p[6] == wa
            &&& p[7] * 256 + p[8] == v.len()
            &&& p[9] == 2 * v.len()
            &&& forall|i: int|
                0 <= i < v.len() ==> p[10 + 2 * i] * 256 + p[11 + 2 * i] == #[trigger] v[i]
        }),
{
    let p = RequestView::ReadWriteMultipleRegisters(ra, rq, wa, v).pdu();
    assert forall|i: int| 0 <= i < v.len() implies p[10 + 2 * i] * 256 + p[11 + 2 * i]
        == #[trigger] v[i] by {
        assert(p[10 + 2 * i] == encode::words(v)[2 * i]);
        assert(p[11 + 2 * i] == encode::words(v)[2 * i + 1]);
    }
}

/// What stands before the byte count: of a list whose byte count does not fit, this
/// is all that is written, with the length modulo 65536.
pub proof fn law_request_heads(a: u16, rq: u16, wa: u16, coils: Seq<bool>, regs: Seq<u16>)
    ensures
        ({
            let h = RequestView::WriteMultipleCoils(a, coils).head();
            h.len() == 5 && h[0] == 15 && h[1] * 256 + h[2] == a && h[3] * 256 + h[4] == coils.len()
                % 65536
        }),
        ({
            let h = RequestView::WriteMultipleRegisters(a, regs).head();
            h.len() == 5 && h[0] == 16 && h[1] * 256 + h[2] == a && h[3] * 256 + h[4] == regs.len()
                % 65536
        }),
        ({
            let h = RequestView::ReadWriteMultipleRegisters(a, rq, wa, regs).head();
            &&& h.len() == 9
            &&& h[0] == 23
            &&& h[1] * 256 + h[2] == a
            &&& h[3] * 256 + h[4] == rq
            &&& h[5] * 256 + h[6] == wa
            &&& h[7] * 256 + h[8] == regs.len() % 65536
        }),
{
}

/// Only a list can be too long for a PDU: its byte count must fit in a byte, and the
/// PDU in 253 bytes.
pub proof fn law_which_requests_have_a_wire_form(req: RequestView)
    ensures
        ({
            let e = req.encoding_error();
            match req {
                RequestView::WriteMultipleCoils(_, v) => {
                    let bytes = (v.len() + 7) / 8;
                    &&& bytes <= 247 ==> e is None
                    &&& 247 < bytes <= 255 ==> e == Some(PduError::PduTooLarge((6 + bytes) as usize))
                    &&& bytes > 255 ==> e == Some(
                        PduError::ByteCountOverflow(ByteCountField::Coils, bytes as u128),
                    )
                },
                RequestView::WriteMultipleRegisters(_, v) => {
                    let bytes = 2 * v.len();
                    &&& bytes <= 247 ==> e is None
                    &&& 247 < bytes <= 255 ==> e == Some(PduError::PduTooLarge((6 + bytes) as usize))
                    &&& bytes > 255 ==> e == Some(
                        PduError::ByteCountOverflow(ByteCountField::Registers, bytes as u128),
                    )
                },
                RequestView::ReadWriteMultipleRegisters(_, _, _, v) => {
                    let bytes = 2 * v.len();
                    &&& bytes <= 243 ==> e is None
                    &&& 243 < bytes <= 255 ==> e == Some(
                        PduError::PduTooLarge((10 + bytes) as usize),
                    )
                    &&& bytes > 255 ==> e == Some(
                        PduError::ByteCountOverflow(
                            ByteCountField::ReadWriteRegisters,
                            bytes as u128,
                        ),
                    )
                },
                _ => e is None,
            }
        }),
{
}

// ── Responses on the wire ───────────────────────────────────────────────

/// The bytes of a response without a list.
pub proof fn law_response_bytes(rsp: ResponseView)
    ensures
        ({
            let p = rsp.pdu();
            match rsp {
                ResponseView::WriteSingleCoil(a, on) => p.len() == 5 && p[0] == 5 && p[1] * 256
                    + p[2] == a && p[3] == (if on {
                    0xFFu8
                } else {
                    0
                }) && p[4] == 0,
                ResponseView::WriteSingleRegister(a, v) => p.len() == 5 && p[0] == 6 && p[1] * 256
                    + p[2] == a && p[3] * 256 + p[4] == v,
                ResponseView::Diagnostic(sf, v) => p.len() == 5 && p[0] == 8 && p[1] * 256 + p[2]
                    == sf && p[3] * 256 + p[4] == v,
                ResponseView::WriteMultipleCoils(a, q) => p.len() == 5 && p[0] == 15 && p[1] * 256
                    + p[2] == a && p[3] * 256 + p[4] == q,
                ResponseView::WriteMultipleRegisters(a, q) => p.len() == 5 && p[0] == 16 && p[1]
                    * 256 + p[2] == a && p[3] * 256 + p[4] == q,
                ResponseView::MaskWriteRegister(a, m, o) => p.len() == 7 && p[0] == 22 && p[1] * 256
                    + p[2] == a && p[3] * 256 + p[4] == m && p[5] * 256 + p[6] == o,
                ResponseView::Exception(fc, e) => p.len() == 2 && p[0] == fc % 128 + 128 && p[1]
                    == e.code(),
                _ => true,
            }
        }),
{
}

/// The bytes of a response with coils or discrete inputs: function code, byte count,
/// and the values, eight to a byte, the first in the lowest bit.
pub proof fn law_coil_response_bytes(v: Seq<bool>, i: int)
    requires
        v.len() <= 2040,
    ensures
        ({
            let p = ResponseView::ReadCoils(v).pdu();
            let q = ResponseView::ReadDiscreteInputs(v).pdu();
            &&& p.len() == 2 + (v.len() + 7) / 8 && q.len() == p.len()
            &&& p[0] == 1 && q[0] == 2
            &&& p[1] == (v.len() + 7) / 8 && q[1] == p[1]
            &&& 0 <= i < 8 * ((v.len() + 7) / 8) ==> ((p[2 + i / 8] >> ((i % 8) as u8)) & 1 == 1) == (
            i < v.len() && v[i])
            &&& forall|j: int| 2 <= j < p.len() ==> #[trigger] q[j] == p[j]
        }),
{
    let p = ResponseView::ReadCoils(v).pdu();
    if 0 <= i < 8 * ((v.len() + 7) / 8) {
        law_coil_bits(v, i);
        assert(p[2 + i / 8] == encode::packed(v)[i / 8]);
    }
}

/// The bytes of a response with registers: function code, byte count, and the
/// registers, the high byte of each first.
pub proof fn law_register_response_bytes(rsp: ResponseView, v: Seq<u16>)
    requires
        rsp == ResponseView::ReadHoldingRegisters(v) || rsp == ResponseView::ReadInputRegisters(v)
            || rsp == ResponseView::ReadWriteMultipleRegisters(v),
        v.len() <= 127,
    ensures
        ({
            let p = rsp.pdu();
            &&& p.len() == 2 + 2 * v.len()
            &&& rsp is ReadHoldingRegisters ==> p[0] == 3
            &&& rsp is ReadInputRegisters ==> p[0] == 4
            &&& rsp is ReadWriteMultipleRegisters ==> p[0] == 23
            &&& p[1] == 2 * v.len()
            &&& forall|i: int|
                0 <= i < v.len() ==> p[2 + 2 * i] * 256 + p[3 + 2 * i] == #[trigger] v[i]
        }),
{
    let p = rsp.pdu();
    assert forall|i: int| 0 <= i < v.len() implies p[2 + 2 * i] * 256 + p[3 + 2 * i]
        == #[trigger] v[i] by {
        assert(p[2 + 2 * i] == encode::words(v)[2 * i]);
        assert(p[3 + 2 * i] == encode::words(v)[2 * i + 1]);
    }
}

/// Only a list can be too long for a PDU.
pub proof fn law_which_responses_have_a_wire_form(rsp: ResponseView)
    ensures
        ({
            let e = rsp.encoding_error();
            match rsp {
                ResponseView::ReadCoils(v) => {
                    let bytes = (v.len() + 7) / 8;
                    &&& bytes <= 251 ==> e is None
                    &&& 251 < bytes <= 255 ==> e == Some(PduError::PduTooLarge((2 + bytes) as usize))
                    &&& bytes > 255 ==> e == Some(
                        PduError::ByteCountOverflow(ByteCountField::Response, bytes as u128),
                    )
                    &&& rsp.within_limits() == (v.len() <= 2000)
                },
                ResponseView::ReadDiscreteInputs(v) => {
                    let bytes = (v.len() + 7) / 8;
                    &&& bytes <= 251 ==> e is None
                    &&& 251 < bytes <= 255 ==> e == Some(PduError::PduTooLarge((2 + bytes) as usize))
                    &&& bytes > 255 ==> e == Some(
                        PduError::ByteCountOverflow(ByteCountField::Response, bytes as u128),
                    )
                    &&& rsp.within_limits() == (v.len() <= 2000)
                },
                ResponseView::ReadHoldingRegisters(v) => register_list_error(v.len(), e)
                    && rsp.within_limits() == (v.len() <= 125),
                ResponseView::ReadInputRegisters(v) => register_list_error(v.len(), e)
                    && rsp.within_limits() == (v.len() <= 125),
                ResponseView::ReadWriteMultipleRegisters(v) => register_list_error(v.len(), e)
                    && rsp.within_limits() == (v.len() <= 125),
                _ => e is None && rsp.within_limits(),
            }
        }),
{
}

/// The error for a response with so many registers.
pub open spec fn register_list_error(n: nat, e: Option<PduError>) -> bool {
    let bytes = 2 * n;
    &&& bytes <= 251 ==> e is None
    &&& 251 < bytes <= 255 ==> e == Some(PduError::PduTooLarge((2 + bytes) as usize))
    &&& 255 < bytes <= usize::MAX ==> e == Some(
        PduError::ByteCountOverflow(ByteCountField::Response, bytes as u128),
    )
    &&& bytes > usize::MAX ==> e == Some(PduError::ResponseTooLarge)
}

} // verus!
