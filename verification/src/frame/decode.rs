//! Reading PDUs.

use std::borrow::Cow;

use bytes::Bytes;
use vstd::prelude::*;

use super::{Exception, PduError, Request, RequestView, Response, ResponseView, Span};
use super::{MAX_COILS, MAX_REGISTERS};
use crate::buffer;
use crate::buffer::{advance, as_slice, get_u16, get_u8};

verus! {

// ── What a PDU means ────────────────────────────────────────────────────

/// The word at position `i`, its high byte first.
pub open spec fn word(d: Seq<u8>, i: int) -> u16 {
    (d[i] * 256 + d[i + 1]) as u16
}

/// Bit `k` of a byte, counted from the lowest.
pub open spec fn bit(b: u8, k: int) -> bool {
    (b >> (k as u8)) & 1 == 1
}

/// The first `n` coils of packed bytes.
pub open spec fn unpacked(d: Seq<u8>, n: nat) -> Seq<bool> {
    Seq::new(n, |i: int| bit(d[i / 8], i % 8))
}

/// The first `n` registers of a byte sequence.
pub open spec fn registers(d: Seq<u8>, n: nat) -> Seq<u16> {
    Seq::new(n, |i: int| word(d, 2 * i))
}

/// The most that a request may name in an address and quantity pair.
pub open spec fn span_limit(span: Span) -> u16 {
    match span {
        Span::ReadCoils => MAX_COILS,
        Span::ReadDiscreteInputs => MAX_COILS,
        Span::WriteMultipleCoils => MAX_COILS,
        _ => MAX_REGISTERS,
    }
}

/// An address and quantity pair that a request may hold: at least one item, no
/// more than the limit, none past the last address.
pub open spec fn span_ok(span: Span, addr: u16, qty: u16) -> bool {
    1 <= qty <= span_limit(span) && addr + qty <= 0x10000
}

/// The address and quantity pair at the start of `d`, or what is wrong with it.
pub open spec fn parse_span(span: Span, d: Seq<u8>) -> Result<(u16, u16), PduError> {
    if d.len() < 4 {
        Err(PduError::Truncated)
    } else if word(d, 2) == 0 || word(d, 2) > span_limit(span) {
        Err(PduError::QuantityOutOfRange(span, word(d, 2), span_limit(span)))
    } else if word(d, 0) + word(d, 2) > 0x10000 {
        Err(PduError::AddressOverflow(span, word(d, 0), word(d, 2)))
    } else {
        Ok((word(d, 0), word(d, 2)))
    }
}

/// The byte count at the start of `d` must be `expected`, and as many bytes
/// must follow it.
pub open spec fn payload_error(
    span: Span,
    d: Seq<u8>,
    expected: nat,
    truncated: PduError,
) -> Option<PduError> {
    if d.len() < 1 {
        Some(PduError::Truncated)
    } else if d[0] != expected {
        Some(PduError::ByteCountMismatch(span, d[0], expected as u16))
    } else if d.len() - 1 < expected {
        Some(truncated)
    } else {
        None
    }
}

impl RequestView {
    /// The request with function code `fc` and the bytes `d` behind it, or what
    /// is wrong with it. Bytes behind the last field are ignored.
    pub open spec fn parse_data(fc: u8, d: Seq<u8>) -> Result<RequestView, PduError> {
        if fc == 1 {
            match parse_span(Span::ReadCoils, d) {
                Ok((a, q)) => Ok(RequestView::ReadCoils(a, q)),
                Err(e) => Err(e),
            }
        } else if fc == 2 {
            match parse_span(Span::ReadDiscreteInputs, d) {
                Ok((a, q)) => Ok(RequestView::ReadDiscreteInputs(a, q)),
                Err(e) => Err(e),
            }
        } else if fc == 3 {
            match parse_span(Span::ReadHoldingRegisters, d) {
                Ok((a, q)) => Ok(RequestView::ReadHoldingRegisters(a, q)),
                Err(e) => Err(e),
            }
        } else if fc == 4 {
            match parse_span(Span::ReadInputRegisters, d) {
                Ok((a, q)) => Ok(RequestView::ReadInputRegisters(a, q)),
                Err(e) => Err(e),
            }
        } else if fc == 5 {
            if d.len() < 4 {
                Err(PduError::Truncated)
            } else if word(d, 2) == 0xFF00 {
                Ok(RequestView::WriteSingleCoil(word(d, 0), true))
            } else if word(d, 2) == 0 {
                Ok(RequestView::WriteSingleCoil(word(d, 0), false))
            } else {
                Err(PduError::InvalidCoilValue(word(d, 2)))
            }
        } else if fc == 6 {
            if d.len() < 4 {
                Err(PduError::Truncated)
            } else {
                Ok(RequestView::WriteSingleRegister(word(d, 0), word(d, 2)))
            }
        } else if fc == 8 {
            if d.len() < 4 {
                Err(PduError::Truncated)
            } else {
                Ok(RequestView::Diagnostic(word(d, 0), word(d, 2)))
            }
        } else if fc == 15 {
            match parse_span(Span::WriteMultipleCoils, d) {
                Err(e) => Err(e),
                Ok((a, q)) => match payload_error(
                    Span::WriteMultipleCoils,
                    d.skip(4),
                    super::encode::coil_bytes(q as nat),
                    PduError::TruncatedCoilData,
                ) {
                    Some(e) => Err(e),
                    None => Ok(RequestView::WriteMultipleCoils(a, unpacked(d.skip(5), q as nat))),
                },
            }
        } else if fc == 16 {
            match parse_span(Span::WriteMultipleRegisters, d) {
                Err(e) => Err(e),
                Ok((a, q)) => match payload_error(
                    Span::WriteMultipleRegisters,
                    d.skip(4),
                    2 * q as nat,
                    PduError::TruncatedRegisterData,
                ) {
                    Some(e) => Err(e),
                    None => Ok(
                        RequestView::WriteMultipleRegisters(a, registers(d.skip(5), q as nat)),
                    ),
                },
            }
        } else if fc == 22 {
            if d.len() < 6 {
                Err(PduError::Truncated)
            } else {
                Ok(RequestView::MaskWriteRegister(word(d, 0), word(d, 2), word(d, 4)))
            }
        } else if fc == 23 {
            match parse_span(Span::ReadWriteRead, d) {
                Err(e) => Err(e),
                Ok((ra, rq)) => match parse_span(Span::ReadWriteWrite, d.skip(4)) {
                    Err(e) => Err(e),
                    Ok((wa, wq)) => match payload_error(
                        Span::ReadWriteWrite,
                        d.skip(8),
                        2 * wq as nat,
                        PduError::TruncatedReadWriteData,
                    ) {
                        Some(e) => Err(e),
                        None => Ok(
                            RequestView::ReadWriteMultipleRegisters(
                                ra,
                                rq,
                                wa,
                                registers(d.skip(9), wq as nat),
                            ),
                        ),
                    },
                },
            }
        } else {
            Err(PduError::UnknownFunctionCode(fc))
        }
    }

    /// The request that a PDU stands for, or what is wrong with it.
    pub open spec fn parse(pdu: Seq<u8>) -> Result<RequestView, PduError> {
        if pdu.len() == 0 {
            Err(PduError::Empty)
        } else {
            RequestView::parse_data(pdu[0], pdu.skip(1))
        }
    }
}

impl ResponseView {
    /// The response with function code `fc` and the bytes `d` behind it, or what
    /// is wrong with it. Bytes behind the last field are ignored.
    pub open spec fn parse_data(fc: u8, d: Seq<u8>) -> Result<ResponseView, PduError> {
        if fc == 1 || fc == 2 {
            if d.len() < 1 {
                Err(PduError::TruncatedResponse)
            } else if d.len() - 1 < d[0] {
                Err(PduError::TruncatedCoilResponse)
            } else if fc == 1 {
                Ok(ResponseView::ReadCoils(unpacked(d.skip(1), 8 * d[0] as nat)))
            } else {
                Ok(ResponseView::ReadDiscreteInputs(unpacked(d.skip(1), 8 * d[0] as nat)))
            }
        } else if fc == 3 || fc == 4 {
            if d.len() < 1 {
                Err(PduError::TruncatedResponse)
            } else if d[0] % 2 != 0 {
                Err(PduError::OddRegisterByteCount(d[0]))
            } else if d.len() - 1 < d[0] {
                Err(PduError::TruncatedRegisterResponse)
            } else if fc == 3 {
                Ok(ResponseView::ReadHoldingRegisters(registers(d.skip(1), d[0] as nat / 2)))
            } else {
                Ok(ResponseView::ReadInputRegisters(registers(d.skip(1), d[0] as nat / 2)))
            }
        } else if fc == 23 {
            if d.len() < 1 {
                Err(PduError::TruncatedResponse)
            } else if d[0] % 2 != 0 {
                Err(PduError::OddReadWriteByteCount(d[0]))
            } else if d.len() - 1 < d[0] {
                Err(PduError::TruncatedReadWriteResponse)
            } else {
                Ok(ResponseView::ReadWriteMultipleRegisters(registers(d.skip(1), d[0] as nat / 2)))
            }
        } else if fc == 22 {
            if d.len() < 6 {
                Err(PduError::TruncatedResponse)
            } else {
                Ok(ResponseView::MaskWriteRegister(word(d, 0), word(d, 2), word(d, 4)))
            }
        } else if fc == 5 || fc == 6 || fc == 8 || fc == 15 || fc == 16 {
            if d.len() < 4 {
                Err(PduError::TruncatedResponse)
            } else if fc == 5 {
                Ok(ResponseView::WriteSingleCoil(word(d, 0), word(d, 2) == 0xFF00))
            } else if fc == 6 {
                Ok(ResponseView::WriteSingleRegister(word(d, 0), word(d, 2)))
            } else if fc == 8 {
                Ok(ResponseView::Diagnostic(word(d, 0), word(d, 2)))
            } else if fc == 15 {
                Ok(ResponseView::WriteMultipleCoils(word(d, 0), word(d, 2)))
            } else {
                Ok(ResponseView::WriteMultipleRegisters(word(d, 0), word(d, 2)))
            }
        } else {
            Err(PduError::UnknownResponseFunctionCode(fc))
        }
    }

    /// The response that a PDU stands for, or what is wrong with it.
    pub open spec fn parse(pdu: Seq<u8>) -> Result<ResponseView, PduError> {
        if pdu.len() == 0 {
            Err(PduError::Empty)
        } else if pdu[0] >= 128 {
            if pdu.len() < 2 {
                Err(PduError::TruncatedException)
            } else {
                Ok(ResponseView::Exception(super::base_code(pdu[0]), Exception::of_code(pdu[1])))
            }
        } else {
            ResponseView::parse_data(pdu[0], pdu.skip(1))
        }
    }
}

/// The outcome of decoding a request, with the request as its view.
pub open spec fn request_outcome(r: Result<Request<'_>, PduError>) -> Result<
    RequestView,
    PduError,
> {
    match r {
        Ok(req) => Ok(req@),
        Err(e) => Err(e),
    }
}

/// The outcome of decoding a response, with the response as its view.
pub open spec fn response_outcome(r: Result<Response, PduError>) -> Result<ResponseView, PduError> {
    match r {
        Ok(rsp) => Ok(rsp@),
        Err(e) => Err(e),
    }
}

// ── Decoders ────────────────────────────────────────────────────────────

/// Take a byte off the front, if there is one.
fn read_u8(data: &mut Bytes) -> (r: Option<u8>)
    ensures
        match r {
            Some(b) => {
                &&& buffer::octets(*old(data)).len() >= 1
                &&& b == buffer::octets(*old(data))[0]
                &&& buffer::octets(*final(data)) == buffer::octets(*old(data)).skip(1)
            },
            None => buffer::octets(*old(data)).len() < 1,
        },
{
    if data.len() < 1 {
        None
    } else {
        Some(get_u8(data))
    }
}

/// Take a word off the front, if there are two bytes.
fn read_u16(data: &mut Bytes) -> (r: Option<u16>)
    ensures
        match r {
            Some(w) => {
                &&& buffer::octets(*old(data)).len() >= 2
                &&& w == word(buffer::octets(*old(data)), 0)
                &&& buffer::octets(*final(data)) == buffer::octets(*old(data)).skip(2)
            },
            None => buffer::octets(*old(data)).len() < 2,
        },
{
    if data.len() < 2 {
        None
    } else {
        Some(get_u16(data))
    }
}

/// Take two words off the front.
fn read_pair(data: &mut Bytes) -> (r: Option<(u16, u16)>)
    ensures
        match r {
            Some((v, w)) => {
                &&& buffer::octets(*old(data)).len() >= 4
                &&& v == word(buffer::octets(*old(data)), 0)
                &&& w == word(buffer::octets(*old(data)), 2)
                &&& buffer::octets(*final(data)) == buffer::octets(*old(data)).skip(4)
            },
            None => buffer::octets(*old(data)).len() < 4,
        },
{
    match read_u16(data) {
        None => None,
        Some(v) => match read_u16(data) {
            None => None,
            Some(w) => {
                assert(buffer::octets(*data) =~= buffer::octets(*old(data)).skip(4));
                Some((v, w))
            },
        },
    }
}

/// Take an address and quantity pair off the front, and check it.
fn read_span(data: &mut Bytes, span: Span, max: u16) -> (r: Result<(u16, u16), PduError>)
    requires
        max == span_limit(span),
    ensures
        r == parse_span(span, buffer::octets(*old(data))),
        r is Ok ==> buffer::octets(*final(data)) == buffer::octets(*old(data)).skip(4),
{
    match read_pair(data) {
        None => Err(PduError::Truncated),
        Some((addr, qty)) => if qty == 0 || qty > max {
            Err(PduError::QuantityOutOfRange(span, qty, max))
        } else if addr as u32 + qty as u32 > 0x10000 {
            Err(PduError::AddressOverflow(span, addr, qty))
        } else {
            Ok((addr, qty))
        },
    }
}

/// Take a byte count off the front, and check it against what should follow.
fn read_byte_count(data: &mut Bytes, span: Span, expected: u16, truncated: PduError) -> (r: Result<
    (),
    PduError,
>)
    ensures
        match payload_error(span, buffer::octets(*old(data)), expected as nat, truncated) {
            Some(e) => r == Err::<(), PduError>(e),
            None => r is Ok && buffer::octets(*final(data)) == buffer::octets(*old(data)).skip(1),
        },
{
    match read_u8(data) {
        None => Err(PduError::Truncated),
        Some(byte_count) => if byte_count as u16 != expected {
            Err(PduError::ByteCountMismatch(span, byte_count, expected))
        } else if data.len() < byte_count as usize {
            Err(truncated)
        } else {
            Ok(())
        },
    }
}

/// The first `n` coils of a buffer.
fn coils_of(data: &Bytes, n: usize) -> (r: Vec<bool>)
    requires
        n <= 8 * buffer::octets(*data).len(),
    ensures
        r@ == unpacked(buffer::octets(*data), n as nat),
{
    let bytes = as_slice(data);
    let mut bits: Vec<bool> = Vec::new();
    let mut i: usize = 0;
    while i < n
        invariant
            i <= n,
            n <= 8 * bytes@.len(),
            bits@ == unpacked(bytes@, i as nat),
        decreases n - i,
    {
        let k: u8 = (i % 8) as u8;
        bits.push((bytes[i / 8] >> k) & 1 == 1);
        assert(bits@ =~= unpacked(bytes@, (i + 1) as nat));
        i = i + 1;
    }
    bits
}

/// Take `n` registers off the front.
fn take_registers(data: &mut Bytes, n: usize) -> (r: Vec<u16>)
    requires
        2 * n <= buffer::octets(*old(data)).len(),
    ensures
        r@ == registers(buffer::octets(*old(data)), n as nat),
        buffer::octets(*final(data)) == buffer::octets(*old(data)).skip(2 * n),
{
    let ghost all = buffer::octets(*data);
    let mut regs: Vec<u16> = Vec::new();
    let mut i: usize = 0;
    assert(all.skip(0) =~= all);
    while i < n
        invariant
            i <= n,
            2 * n <= all.len(),
            regs@ == registers(all, i as nat),
            buffer::octets(*data) == all.skip(2 * i),
        decreases n - i,
    {
        regs.push(get_u16(data));
        assert(all.skip(2 * i).skip(2) =~= all.skip(2 * (i + 1)));
        assert(regs@ =~= registers(all, (i + 1) as nat));
        i = i + 1;
    }
    regs
}

/// Decode the data of a request with function code `fc`.
fn decode_request(fc: u8, bytes: Bytes) -> (r: Result<Request<'static>, PduError>)
    ensures
        request_outcome(r) == RequestView::parse_data(fc, buffer::octets(bytes)),
{
    let mut data = bytes;
    let ghost d = buffer::octets(bytes);
    match fc {
        1 => match read_span(&mut data, Span::ReadCoils, MAX_COILS) {
            Ok((addr, qty)) => Ok(Request::ReadCoils(addr, qty)),
            Err(e) => Err(e),
        },
        2 => match read_span(&mut data, Span::ReadDiscreteInputs, MAX_COILS) {
            Ok((addr, qty)) => Ok(Request::ReadDiscreteInputs(addr, qty)),
            Err(e) => Err(e),
        },
        3 => match read_span(&mut data, Span::ReadHoldingRegisters, MAX_REGISTERS) {
            Ok((addr, qty)) => Ok(Request::ReadHoldingRegisters(addr, qty)),
            Err(e) => Err(e),
        },
        4 => match read_span(&mut data, Span::ReadInputRegisters, MAX_REGISTERS) {
            Ok((addr, qty)) => Ok(Request::ReadInputRegisters(addr, qty)),
            Err(e) => Err(e),
        },
        5 => match read_pair(&mut data) {
            None => Err(PduError::Truncated),
            Some((addr, raw)) => match raw {
                0xFF00 => Ok(Request::WriteSingleCoil(addr, true)),
                0x0000 => Ok(Request::WriteSingleCoil(addr, false)),
                other => Err(PduError::InvalidCoilValue(other)),
            },
        },
        6 => match read_pair(&mut data) {
            None => Err(PduError::Truncated),
            Some((addr, val)) => Ok(Request::WriteSingleRegister(addr, val)),
        },
        8 => match read_pair(&mut data) {
            None => Err(PduError::Truncated),
            Some((sf, val)) => Ok(Request::Diagnostic(sf, val)),
        },
        15 => match read_span(&mut data, Span::WriteMultipleCoils, MAX_COILS) {
            Err(e) => Err(e),
            Ok((addr, qty)) => match read_byte_count(
                &mut data,
                Span::WriteMultipleCoils,
                (qty + 7) / 8,
                PduError::TruncatedCoilData,
            ) {
                Err(e) => Err(e),
                Ok(()) => {
                    assert(d.skip(4).skip(1) =~= d.skip(5));
                    let values = coils_of(&data, qty as usize);
                    Ok(Request::WriteMultipleCoils(addr, Cow::Owned(values)))
                },
            },
        },
        16 => match read_span(&mut data, Span::WriteMultipleRegisters, MAX_REGISTERS) {
            Err(e) => Err(e),
            Ok((addr, qty)) => match read_byte_count(
                &mut data,
                Span::WriteMultipleRegisters,
                qty * 2,
                PduError::TruncatedRegisterData,
            ) {
                Err(e) => Err(e),
                Ok(()) => {
                    assert(d.skip(4).skip(1) =~= d.skip(5));
                    let values = take_registers(&mut data, qty as usize);
                    Ok(Request::WriteMultipleRegisters(addr, Cow::Owned(values)))
                },
            },
        },
        22 => match read_pair(&mut data) {
            None => Err(PduError::Truncated),
            Some((addr, and_mask)) => match read_u16(&mut data) {
                None => Err(PduError::Truncated),
                Some(or_mask) => Ok(Request::MaskWriteRegister(addr, and_mask, or_mask)),
            },
        },
        23 => match read_span(&mut data, Span::ReadWriteRead, MAX_REGISTERS) {
            Err(e) => Err(e),
            Ok((read_addr, read_qty)) => match read_span(
                &mut data,
                Span::ReadWriteWrite,
                MAX_REGISTERS,
            ) {
                Err(e) => Err(e),
                Ok((write_addr, write_qty)) => {
                    assert(d.skip(4).skip(4) =~= d.skip(8));
                    match read_byte_count(
                        &mut data,
                        Span::ReadWriteWrite,
                        write_qty * 2,
                        PduError::TruncatedReadWriteData,
                    ) {
                        Err(e) => Err(e),
                        Ok(()) => {
                            assert(d.skip(8).skip(1) =~= d.skip(9));
                            let values = take_registers(&mut data, write_qty as usize);
                            Ok(
                                Request::ReadWriteMultipleRegisters(
                                    read_addr,
                                    read_qty,
                                    write_addr,
                                    Cow::Owned(values),
                                ),
                            )
                        },
                    }
                },
            },
        },
        _ => Err(PduError::UnknownFunctionCode(fc)),
    }
}

/// Decode the data of a response with function code `fc`.
fn decode_response(fc: u8, bytes: Bytes) -> (r: Result<Response, PduError>)
    ensures
        response_outcome(r) == ResponseView::parse_data(fc, buffer::octets(bytes)),
{
    let mut data = bytes;
    match fc {
        1 | 2 => {
            let byte_count: usize = match read_u8(&mut data) {
                Some(n) => n as usize,
                None => return Err(PduError::TruncatedResponse),
            };
            if data.len() < byte_count {
                return Err(PduError::TruncatedCoilResponse);
            }
            let bits = coils_of(&data, byte_count * 8);
            if fc == 1 {
                Ok(Response::ReadCoils(bits))
            } else {
                Ok(Response::ReadDiscreteInputs(bits))
            }
        },
        3 | 4 => {
            let byte_count: u8 = match read_u8(&mut data) {
                Some(n) => n,
                None => return Err(PduError::TruncatedResponse),
            };
            if byte_count % 2 != 0 {
                return Err(PduError::OddRegisterByteCount(byte_count));
            }
            if data.len() < byte_count as usize {
                return Err(PduError::TruncatedRegisterResponse);
            }
            let regs = take_registers(&mut data, byte_count as usize / 2);
            if fc == 3 {
                Ok(Response::ReadHoldingRegisters(regs))
            } else {
                Ok(Response::ReadInputRegisters(regs))
            }
        },
        5 => match read_pair(&mut data) {
            None => Err(PduError::TruncatedResponse),
            Some((addr, raw)) => Ok(Response::WriteSingleCoil(addr, raw == 0xFF00)),
        },
        6 => match read_pair(&mut data) {
            None => Err(PduError::TruncatedResponse),
            Some((addr, val)) => Ok(Response::WriteSingleRegister(addr, val)),
        },
        8 => match read_pair(&mut data) {
            None => Err(PduError::TruncatedResponse),
            Some((sf, val)) => Ok(Response::Diagnostic(sf, val)),
        },
        15 => match read_pair(&mut data) {
            None => Err(PduError::TruncatedResponse),
            Some((addr, qty)) => Ok(Response::WriteMultipleCoils(addr, qty)),
        },
        16 => match read_pair(&mut data) {
            None => Err(PduError::TruncatedResponse),
            Some((addr, qty)) => Ok(Response::WriteMultipleRegisters(addr, qty)),
        },
        22 => match read_pair(&mut data) {
            None => Err(PduError::TruncatedResponse),
            Some((addr, and_mask)) => match read_u16(&mut data) {
                None => Err(PduError::TruncatedResponse),
                Some(or_mask) => Ok(Response::MaskWriteRegister(addr, and_mask, or_mask)),
            },
        },
        23 => {
            let byte_count: u8 = match read_u8(&mut data) {
                Some(n) => n,
                None => return Err(PduError::TruncatedResponse),
            };
            if byte_count % 2 != 0 {
                return Err(PduError::OddReadWriteByteCount(byte_count));
            }
            if data.len() < byte_count as usize {
                return Err(PduError::TruncatedReadWriteResponse);
            }
            Ok(
                Response::ReadWriteMultipleRegisters(
                    take_registers(&mut data, byte_count as usize / 2),
                ),
            )
        },
        _ => Err(PduError::UnknownResponseFunctionCode(fc)),
    }
}

impl TryFrom<Bytes> for Request<'static> {
    type Error = PduError;

    /// The request that a PDU stands for.
    fn try_from(bytes: Bytes) -> (r: Result<Request<'static>, PduError>)
        ensures
            request_outcome(r) == RequestView::parse(buffer::octets(bytes)),
    {
        let mut data = bytes;
        if data.is_empty() {
            return Err(PduError::Empty);
        }
        let fc: u8 = as_slice(&data)[0];
        advance(&mut data, 1);
        decode_request(fc, data)
    }
}

impl vstd::std_specs::convert::TryFromSpecImpl<Bytes> for Request<'static> {
    open spec fn obeys_try_from_spec() -> bool {
        false
    }

    open spec fn try_from_spec(bytes: Bytes) -> Result<Request<'static>, PduError> {
        arbitrary()
    }
}

impl TryFrom<Bytes> for Response {
    type Error = PduError;

    /// The response that a PDU stands for.
    fn try_from(bytes: Bytes) -> (r: Result<Response, PduError>)
        ensures
            response_outcome(r) == ResponseView::parse(buffer::octets(bytes)),
    {
        let mut data = bytes;
        if data.is_empty() {
            return Err(PduError::Empty);
        }
        let fc: u8 = as_slice(&data)[0];
        proof {
            super::lemma_exception_flag(fc);
        }
        if fc & 0x80 != 0 {
            if data.len() < 2 {
                return Err(PduError::TruncatedException);
            }
            let exception_code: u8 = as_slice(&data)[1];
            return Ok(Response::Exception(fc & 0x7F, Exception::from(exception_code)));
        }
        advance(&mut data, 1);
        decode_response(fc, data)
    }
}

impl vstd::std_specs::convert::TryFromSpecImpl<Bytes> for Response {
    open spec fn obeys_try_from_spec() -> bool {
        false
    }

    open spec fn try_from_spec(bytes: Bytes) -> Result<Response, PduError> {
        arbitrary()
    }
}

} // verus!
