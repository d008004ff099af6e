//! What received bytes are read as.
//!
//! The laws here go from the bytes of a PDU to what is read, so that together they
//! say for every sequence of bytes what becomes of it.

use vstd::prelude::*;

use super::decode;
use super::{Exception, PduError, Request, RequestView, Response, ResponseView, Span};

verus! {

// ── Requests ────────────────────────────────────────────────────────────

/// A request that reads is taken when the quantity is within the limits of its sort
/// and the last address within the address space. Bytes behind it are ignored.
pub proof fn law_read_requests(p: Seq<u8>)
    ensures
        ({
            let r = RequestView::parse(p);
            let addr = 256 * p[1] + p[2];
            let qty = 256 * p[3] + p[4];
            let bits = p[0] == 1 || p[0] == 2;
            let max = if bits {
                2000
            } else {
                125int
            };
            let span = if p[0] == 1 {
                Span::ReadCoils
            } else if p[0] == 2 {
                Span::ReadDiscreteInputs
            } else if p[0] == 3 {
                Span::ReadHoldingRegisters
            } else {
                Span::ReadInputRegisters
            };
            p.len() > 0 && 1 <= p[0] <= 4 ==> {
                &&& p.len() < 5 ==> r == Err::<RequestView, _>(PduError::Truncated)
                &&& p.len() >= 5 && !(1 <= qty <= max) ==> r == Err::<RequestView, _>(
                    PduError::QuantityOutOfRange(span, qty as u16, max as u16),
                )
                &&& p.len() >= 5 && 1 <= qty <= max && addr + qty > 65536 ==> r == Err::<
                    RequestView,
                    _,
                >(PduError::AddressOverflow(span, addr as u16, qty as u16))
                &&& p.len() >= 5 && 1 <= qty <= max && addr + qty <= 65536 ==> match r {
                    Ok(RequestView::ReadCoils(a, q)) => p[0] == 1 && a == addr && q == qty,
                    Ok(RequestView::ReadDiscreteInputs(a, q)) => p[0] == 2 && a == addr && q == qty,
                    Ok(RequestView::ReadHoldingRegisters(a, q)) => p[0] == 3 && a == addr && q
                        == qty,
                    Ok(RequestView::ReadInputRegisters(a, q)) => p[0] == 4 && a == addr && q == qty,
                    _ => false,
                }
            }
        }),
{
}

/// A request that writes one value, a diagnostic request and a masked write are taken
/// when all their bytes are there, except that a coil is either on or off.
pub proof fn law_single_requests(p: Seq<u8>)
    requires
        p.len() > 0,
        p[0] == 5 || p[0] == 6 || p[0] == 8 || p[0] == 22,
    ensures
        ({
            let r = RequestView::parse(p);
            let first = 256 * p[1] + p[2];
            let second = 256 * p[3] + p[4];
            let third = 256 * p[5] + p[6];
            let needed = if p[0] == 22 {
                7int
            } else {
                5
            };
            &&& p.len() < needed ==> r == Err::<RequestView, _>(PduError::Truncated)
            &&& p.len() >= needed ==> match r {
                Ok(RequestView::WriteSingleCoil(a, on)) => p[0] == 5 && a == first && second == (
                if on {
                    0xFF00int
                } else {
                    0
                }),
                Err(PduError::InvalidCoilValue(v)) => p[0] == 5 && second != 0xFF00 && second != 0
                    && v == second,
                Ok(RequestView::WriteSingleRegister(a, v)) => p[0] == 6 && a == first && v
                    == second,
                Ok(RequestView::Diagnostic(sf, v)) => p[0] == 8 && sf == first && v == second,
                Ok(RequestView::MaskWriteRegister(a, m, o)) => p[0] == 22 && a == first && m
                    == second && o == third,
                _ => false,
            }
        }),
{
}

/// A request that writes coils is taken when quantity and address are within their
/// limits, the byte count fits the quantity, and the bytes are there.
pub proof fn law_coil_write_requests(p: Seq<u8>, i: int)
    requires
        p.len() > 0,
        p[0] == 15,
    ensures
        ({
            let r = RequestView::parse(p);
            let addr = 256 * p[1] + p[2];
            let qty = 256 * p[3] + p[4];
            let bytes = (qty + 7) / 8;
            let span = Span::WriteMultipleCoils;
            &&& p.len() < 5 ==> r == Err::<RequestView, _>(PduError::Truncated)
            &&& p.len() >= 5 && !(1 <= qty <= 2000) ==> r == Err::<RequestView, _>(
                PduError::QuantityOutOfRange(span, qty as u16, 2000),
            )
            &&& p.len() >= 5 && 1 <= qty <= 2000 && addr + qty > 65536 ==> r == Err::<
                RequestView,
                _,
            >(PduError::AddressOverflow(span, addr as u16, qty as u16))
            &&& p.len() >= 5 && 1 <= qty <= 2000 && addr + qty <= 65536 ==> {
                &&& p.len() < 6 ==> r == Err::<RequestView, _>(PduError::Truncated)
                &&& p.len() >= 6 && p[5] != bytes ==> r == Err::<RequestView, _>(
                    PduError::ByteCountMismatch(span, p[5], bytes as u16),
                )
                &&& p.len() >= 6 && p[5] == bytes && p.len() < 6 + bytes ==> r == Err::<
                    RequestView,
                    _,
                >(PduError::TruncatedCoilData)
                &&& p[5] == bytes && p.len() >= 6 + bytes ==> {
                    &&& r matches Ok(RequestView::WriteMultipleCoils(a, v))
                    &&& a == addr
                    &&& v.len() == qty
                    &&& 0 <= i < qty ==> v[i] == ((p[6 + i / 8] >> ((i % 8) as u8)) & 1 == 1)
                }
            }
        }),
{
}

/// A request that writes registers is taken when quantity and address are within
/// their limits, the byte count fits the quantity, and the bytes are there.
pub proof fn law_register_write_requests(p: Seq<u8>, i: int)
    requires
        p.len() > 0,
        p[0] == 16,
    ensures
        ({
            let r = RequestView::parse(p);
            let addr = 256 * p[1] + p[2];
            let qty = 256 * p[3] + p[4];
            let bytes = 2 * qty;
            let span = Span::WriteMultipleRegisters;
            &&& p.len() < 5 ==> r == Err::<RequestView, _>(PduError::Truncated)
            &&& p.len() >= 5 && !(1 <= qty <= 125) ==> r == Err::<RequestView, _>(
                PduError::QuantityOutOfRange(span, qty as u16, 125),
            )
            &&& p.len() >= 5 && 1 <= qty <= 125 && addr + qty > 65536 ==> r == Err::<RequestView, _>(
                PduError::AddressOverflow(span, addr as u16, qty as u16),
            )
            &&& p.len() >= 5 && 1 <= qty <= 125 && addr + qty <= 65536 ==> {
                &&& p.len() < 6 ==> r == Err::<RequestView, _>(PduError::Truncated)
                &&& p.len() >= 6 && p[5] != bytes ==> r == Err::<RequestView, _>(
                    PduError::ByteCountMismatch(span, p[5], bytes as u16),
                )
                &&& p.len() >= 6 && p[5] == bytes && p.len() < 6 + bytes ==> r == Err::<
                    RequestView,
                    _,
                >(PduError::TruncatedRegisterData)
                &&& p[5] == bytes && p.len() >= 6 + bytes ==> {
                    &&& r matches Ok(RequestView::WriteMultipleRegisters(a, v))
                    &&& a == addr
                    &&& v.len() == qty
                    &&& 0 <= i < qty ==> v[i] == 256 * p[6 + 2 * i] + p[7 + 2 * i]
                }
            }
        }),
{
}

/// A read-write request is taken when both quantities and both addresses are within
/// their limits, the byte count fits the second quantity, and the bytes are there.
pub proof fn law_read_write_requests(p: Seq<u8>, i: int)
    requires
        p.len() > 0,
        p[0] == 23,
    ensures
        ({
            let r = RequestView::parse(p);
            let ra = 256 * p[1] + p[2];
            let rq = 256 * p[3] + p[4];
            let wa = 256 * p[5] + p[6];
            let wq = 256 * p[7] + p[8];
            let bytes = 2 * wq;
            &&& p.len() < 5 ==> r == Err::<RequestView, _>(PduError::Truncated)
            &&& p.len() >= 5 && !(1 <= rq <= 125) ==> r == Err::<RequestView, _>(
                PduError::QuantityOutOfRange(Span::ReadWriteRead, rq as u16, 125),
            )
            &&& p.len() >= 5 && 1 <= rq <= 125 && ra + rq > 65536 ==> r == Err::<RequestView, _>(
                PduError::AddressOverflow(Span::ReadWriteRead, ra as u16, rq as u16),
            )
            &&& p.len() >= 5 && 1 <= rq <= 125 && ra + rq <= 65536 ==> {
                &&& p.len() < 9 ==> r == Err::<RequestView, _>(PduError::Truncated)
                &&& p.len() >= 9 && !(1 <= wq <= 125) ==> r == Err::<RequestView, _>(
                    PduError::QuantityOutOfRange(Span::ReadWriteWrite, wq as u16, 125),
                )
                &&& p.len() >= 9 && 1 <= wq <= 125 && wa + wq > 65536 ==> r == Err::<
                    RequestView,
                    _,
                >(PduError::AddressOverflow(Span::ReadWriteWrite, wa as u16, wq as u16))
                &&& p.len() >= 9 && 1 <= wq <= 125 && wa + wq <= 65536 ==> {
                    &&& p.len() < 10 ==> r == Err::<RequestView, _>(PduError::Truncated)
                    &&& p.len() >= 10 && p[9] != bytes ==> r == Err::<RequestView, _>(
                        PduError::ByteCountMismatch(Span::ReadWriteWrite, p[9], bytes as u16),
                    )
                    &&& p.len() >= 10 && p[9] == bytes && p.len() < 10 + bytes ==> r == Err::<
                        RequestView,
                        _,
                    >(PduError::TruncatedReadWriteData)
                    &&& p[9] == bytes && p.len() >= 10 + bytes ==> {
                        &&& r matches Ok(RequestView::ReadWriteMultipleRegisters(a, q, w, v))
                        &&& a == ra && q == rq && w == wa
                        &&& v.len() == wq
                        &&& 0 <= i < wq ==> v[i] == 256 * p[10 + 2 * i] + p[11 + 2 * i]
                    }
                }
            }
        }),
{
}

/// No bytes are no request, and other function codes are unknown.
pub proof fn law_other_requests(p: Seq<u8>)
    ensures
        p.len() == 0 ==> RequestView::parse(p) == Err::<RequestView, _>(PduError::Empty),
        p.len() > 0 && (p[0] == 0 || p[0] == 7 || 8 < p[0] < 15 || 16 < p[0] < 22 || p[0] > 23)
            ==> RequestView::parse(p) == Err::<RequestView, _>(
            PduError::UnknownFunctionCode(p[0]),
        ),
{
}

/// Reading a PDU is reading its data by its function code.
pub proof fn law_data_behind_the_function_code(fc: u8, d: Seq<u8>)
    ensures
        RequestView::parse_data(fc, d) == RequestView::parse(seq![fc] + d),
        fc < 128 ==> ResponseView::parse_data(fc, d) == ResponseView::parse(seq![fc] + d),
{
    assert((seq![fc] + d).skip(1) =~= d);
}

/// A decoded request stands for what its bytes say.
pub proof fn law_request_outcome(r: Result<Request<'_>, PduError>)
    ensures
        match r {
            Ok(req) => decode::request_outcome(r) == Ok::<RequestView, PduError>(req@),
            Err(e) => decode::request_outcome(r) == Err::<RequestView, PduError>(e),
        },
{
}

// ── Responses ───────────────────────────────────────────────────────────

/// A response with the highest bit set in its function code is an exception.
pub proof fn law_exception_responses(p: Seq<u8>)
    ensures
        p.len() == 0 ==> ResponseView::parse(p) == Err::<ResponseView, _>(PduError::Empty),
        p.len() == 1 && p[0] >= 128 ==> ResponseView::parse(p) == Err::<ResponseView, _>(
            PduError::TruncatedException,
        ),
        p.len() >= 2 && p[0] >= 128 ==> {
            &&& ResponseView::parse(p) matches Ok(ResponseView::Exception(fc, e))
            &&& fc == p[0] - 128
            &&& e.code() == p[1]
            &&& e matches Exception::Custom(n) ==> n == 0 || n == 9 || n > 11
        },
{
}

/// A response with coils or discrete inputs holds eight for each byte that the byte
/// count names.
pub proof fn law_coil_responses(p: Seq<u8>, i: int)
    requires
        p.len() > 0,
        p[0] == 1 || p[0] == 2,
    ensures
        ({
            let r = ResponseView::parse(p);
            &&& p.len() < 2 ==> r == Err::<ResponseView, _>(PduError::TruncatedResponse)
            &&& p.len() >= 2 && p.len() < 2 + p[1] ==> r == Err::<ResponseView, _>(
                PduError::TruncatedCoilResponse,
            )
            &&& p.len() >= 2 && p.len() >= 2 + p[1] ==> match r {
                Ok(ResponseView::ReadCoils(v)) => p[0] == 1 && v.len() == 8 * p[1] && (0 <= i < 8
                    * p[1] ==> v[i] == ((p[2 + i / 8] >> ((i % 8) as u8)) & 1 == 1)),
                Ok(ResponseView::ReadDiscreteInputs(v)) => p[0] == 2 && v.len() == 8 * p[1] && (0
                    <= i < 8 * p[1] ==> v[i] == ((p[2 + i / 8] >> ((i % 8) as u8)) & 1 == 1)),
                _ => false,
            }
        }),
{
}

/// A response with registers holds one for every two bytes that the byte count names,
/// the high byte of each first.
pub proof fn law_register_responses(p: Seq<u8>, i: int)
    requires
        p.len() > 0,
        p[0] == 3 || p[0] == 4 || p[0] == 23,
    ensures
        ({
            let r = ResponseView::parse(p);
            let odd = if p[0] == 23 {
                PduError::OddReadWriteByteCount(p[1])
            } else {
                PduError::OddRegisterByteCount(p[1])
            };
            let short = if p[0] == 23 {
                PduError::TruncatedReadWriteResponse
            } else {
                PduError::TruncatedRegisterResponse
            };
            &&& p.len() < 2 ==> r == Err::<ResponseView, _>(PduError::TruncatedResponse)
            &&& p.len() >= 2 && p[1] % 2 == 1 ==> r == Err::<ResponseView, _>(odd)
            &&& p.len() >= 2 && p[1] % 2 == 0 && p.len() < 2 + p[1] ==> r == Err::<ResponseView, _>(
                short,
            )
            &&& p.len() >= 2 && p[1] % 2 == 0 && p.len() >= 2 + p[1] ==> {
                let v = match r {
                    Ok(ResponseView::ReadHoldingRegisters(v)) => v,
                    Ok(ResponseView::ReadInputRegisters(v)) => v,
                    Ok(ResponseView::ReadWriteMultipleRegisters(v)) => v,
                    _ => Seq::empty(),
                };
                &&& p[0] == 3 ==> (r is Ok && r->Ok_0 is ReadHoldingRegisters)
                &&& p[0] == 4 ==> (r is Ok && r->Ok_0 is ReadInputRegisters)
                &&& p[0] == 23 ==> (r is Ok && r->Ok_0 is ReadWriteMultipleRegisters)
                &&& 2 * v.len() == p[1]
                &&& 0 <= i < v.len() ==> v[i] == 256 * p[2 + 2 * i] + p[3 + 2 * i]
            }
        }),
{
}

/// A response that repeats what was written is taken when all its bytes are there.
/// A coil is on only when the value is exactly 0xFF00.
pub proof fn law_echo_responses(p: Seq<u8>)
    requires
        p.len() > 0,
        p[0] == 5 || p[0] == 6 || p[0] == 8 || p[0] == 15 || p[0] == 16 || p[0] == 22,
    ensures
        ({
            let r = ResponseView::parse(p);
            let first = 256 * p[1] + p[2];
            let second = 256 * p[3] + p[4];
            let third = 256 * p[5] + p[6];
            let needed = if p[0] == 22 {
                7int
            } else {
                5
            };
            &&& p.len() < needed ==> r == Err::<ResponseView, _>(PduError::TruncatedResponse)
            &&& p.len() >= needed ==> match r {
                Ok(ResponseView::WriteSingleCoil(a, on)) => p[0] == 5 && a == first && on == (second
                    == 0xFF00),
                Ok(ResponseView::WriteSingleRegister(a, v)) => p[0] == 6 && a == first && v
                    == second,
                Ok(ResponseView::Diagnostic(sf, v)) => p[0] == 8 && sf == first && v == second,
                Ok(ResponseView::WriteMultipleCoils(a, q)) => p[0] == 15 && a == first && q
                    == second,
                Ok(ResponseView::WriteMultipleRegisters(a, q)) => p[0] == 16 && a == first && q
                    == second,
                Ok(ResponseView::MaskWriteRegister(a, m, o)) => p[0] == 22 && a == first && m
                    == second && o == third,
                _ => false,
            }
        }),
{
}

/// Other function codes are unknown in a response.
pub proof fn law_other_responses(p: Seq<u8>)
    requires
        p.len() > 0,
        p[0] == 0 || p[0] == 7 || 8 < p[0] < 15 || 16 < p[0] < 22 || 23 < p[0] < 128,
    ensures
        ResponseView::parse(p) == Err::<ResponseView, _>(
            PduError::UnknownResponseFunctionCode(p[0]),
        ),
{
}

/// A decoded response stands for what its bytes say.
pub proof fn law_response_outcome(r: Result<Response, PduError>)
    ensures
        match r {
            Ok(rsp) => decode::response_outcome(r) == Ok::<ResponseView, PduError>(rsp@),
            Err(e) => decode::response_outcome(r) == Err::<ResponseView, PduError>(e),
        },
{
}

} // verus!
