//! Writing PDUs.

use bytes::{Bytes, BytesMut};
use vstd::prelude::*;

use super::{coil_slice, register_slice};
use super::{ByteCountField, PduError, Request, RequestView, Response, ResponseView};
use super::{MAX_COILS, MAX_PDU_SIZE, MAX_REGISTERS};
use crate::buffer;
use crate::buffer::{put_u16, put_u8};

verus! {

// ── Wire form ───────────────────────────────────────────────────────────

/// A 16-bit word on the wire: the high byte first.
pub open spec fn be16(v: u16) -> Seq<u8> {
    seq![(v / 256) as u8, (v % 256) as u8]
}

/// The word that a list length is written as.
pub open spec fn count16(n: nat) -> u16 {
    (n % 65536) as u16
}

/// The word that stands for a single coil.
pub open spec fn coil_word(on: bool) -> u16 {
    if on {
        0xFF00
    } else {
        0
    }
}

/// How many bytes `n` coils are packed into.
pub open spec fn coil_bytes(n: nat) -> nat {
    (n + 7) / 8
}

/// A byte from its eight bits, the lowest first.
pub open spec fn octet(
    b0: bool,
    b1: bool,
    b2: bool,
    b3: bool,
    b4: bool,
    b5: bool,
    b6: bool,
    b7: bool,
) -> u8 {
    (if b0 { 1u8 } else { 0 }) | (if b1 { 2u8 } else { 0 }) | (if b2 { 4u8 } else { 0 }) | (if b3 {
        8u8
    } else {
        0
    }) | (if b4 { 16u8 } else { 0 }) | (if b5 { 32u8 } else { 0 }) | (if b6 { 64u8 } else { 0 })
        | (if b7 { 128u8 } else { 0 })
}

/// The coil at position `i`, off beyond the end.
pub open spec fn coil_or_off(bits: Seq<bool>, i: int) -> bool {
    i < bits.len() && bits[i]
}

/// The byte that holds the coils from position `start` on.
#[verifier::opaque]
pub open spec fn packed_byte(bits: Seq<bool>, start: int) -> u8 {
    octet(
        coil_or_off(bits, start),
        coil_or_off(bits, start + 1),
        coil_or_off(bits, start + 2),
        coil_or_off(bits, start + 3),
        coil_or_off(bits, start + 4),
        coil_or_off(bits, start + 5),
        coil_or_off(bits, start + 6),
        coil_or_off(bits, start + 7),
    )
}

/// Coils on the wire: eight to a byte, the first in the lowest bit, the last
/// byte filled up with zeros.
pub open spec fn packed(bits: Seq<bool>) -> Seq<u8> {
    Seq::new(coil_bytes(bits.len()), |j: int| packed_byte(bits, 8 * j))
}

/// Registers on the wire.
pub open spec fn words(regs: Seq<u16>) -> Seq<u8> {
    Seq::new(
        2 * regs.len(),
        |i: int|
            if i % 2 == 0 {
                (regs[i / 2] / 256) as u8
            } else {
                (regs[i / 2] % 256) as u8
            },
    )
}

impl RequestView {
    /// The fields before the byte count, or the whole PDU of a request that has
    /// no byte count.
    pub open spec fn head(self) -> Seq<u8> {
        match self {
            RequestView::ReadCoils(a, q) => seq![1u8] + be16(a) + be16(q),
            RequestView::ReadDiscreteInputs(a, q) => seq![2u8] + be16(a) + be16(q),
            RequestView::ReadHoldingRegisters(a, q) => seq![3u8] + be16(a) + be16(q),
            RequestView::ReadInputRegisters(a, q) => seq![4u8] + be16(a) + be16(q),
            RequestView::WriteSingleCoil(a, v) => seq![5u8] + be16(a) + be16(coil_word(v)),
            RequestView::WriteSingleRegister(a, v) => seq![6u8] + be16(a) + be16(v),
            RequestView::WriteMultipleCoils(a, v) => seq![15u8] + be16(a) + be16(count16(v.len())),
            RequestView::WriteMultipleRegisters(a, v) => seq![16u8] + be16(a) + be16(
                count16(v.len()),
            ),
            RequestView::ReadWriteMultipleRegisters(ra, rq, wa, v) => seq![23u8] + be16(ra) + be16(
                rq,
            ) + be16(wa) + be16(count16(v.len())),
            RequestView::MaskWriteRegister(a, m, o) => seq![22u8] + be16(a) + be16(m) + be16(o),
            RequestView::Diagnostic(sf, d) => seq![8u8] + be16(sf) + be16(d),
            RequestView::Disconnect => Seq::empty(),
        }
    }

    /// The values to write, as they stand behind the byte count.
    pub open spec fn payload(self) -> Seq<u8> {
        match self {
            RequestView::WriteMultipleCoils(_, v) => packed(v),
            RequestView::WriteMultipleRegisters(_, v) => words(v),
            RequestView::ReadWriteMultipleRegisters(_, _, _, v) => words(v),
            _ => Seq::empty(),
        }
    }

    /// The byte-count field of the request, if it has one.
    pub open spec fn byte_count_field(self) -> Option<ByteCountField> {
        match self {
            RequestView::WriteMultipleCoils(..) => Some(ByteCountField::Coils),
            RequestView::WriteMultipleRegisters(..) => Some(ByteCountField::Registers),
            RequestView::ReadWriteMultipleRegisters(..) => Some(ByteCountField::ReadWriteRegisters),
            _ => None,
        }
    }

    /// The wire form of the request.
    pub open spec fn pdu(self) -> Seq<u8> {
        if self.byte_count_field() is Some {
            self.head() + seq![self.payload().len() as u8] + self.payload()
        } else {
            self.head()
        }
    }

    /// Why the request has no wire form, if it has none.
    pub open spec fn encoding_error(self) -> Option<PduError> {
        match self.byte_count_field() {
            Some(field) if self.payload().len() > 255 => {
                Some(PduError::ByteCountOverflow(field, self.payload().len() as u128))
            },
            _ => if self.pdu().len() > MAX_PDU_SIZE {
                Some(PduError::PduTooLarge(self.pdu().len() as usize))
            } else {
                None
            },
        }
    }
}

impl ResponseView {
    /// The values read, as they stand behind the byte count.
    pub open spec fn payload(self) -> Seq<u8> {
        match self {
            ResponseView::ReadCoils(v) => packed(v),
            ResponseView::ReadDiscreteInputs(v) => packed(v),
            ResponseView::ReadHoldingRegisters(v) => words(v),
            ResponseView::ReadInputRegisters(v) => words(v),
            ResponseView::ReadWriteMultipleRegisters(v) => words(v),
            _ => Seq::empty(),
        }
    }

    /// Whether the response carries registers behind a byte count.
    pub open spec fn has_registers(self) -> bool {
        self is ReadHoldingRegisters || self is ReadInputRegisters
            || self is ReadWriteMultipleRegisters
    }

    /// The wire form of the response.
    pub open spec fn pdu(self) -> Seq<u8> {
        match self {
            ResponseView::WriteSingleCoil(a, v) => seq![5u8] + be16(a) + be16(coil_word(v)),
            ResponseView::WriteSingleRegister(a, v) => seq![6u8] + be16(a) + be16(v),
            ResponseView::WriteMultipleCoils(a, q) => seq![15u8] + be16(a) + be16(q),
            ResponseView::WriteMultipleRegisters(a, q) => seq![16u8] + be16(a) + be16(q),
            ResponseView::MaskWriteRegister(a, m, o) => seq![22u8] + be16(a) + be16(m) + be16(o),
            ResponseView::Diagnostic(sf, d) => seq![8u8] + be16(sf) + be16(d),
            ResponseView::Exception(fc, e) => seq![super::flagged_code(fc), e.code()],
            _ => seq![self.function_code(), self.payload().len() as u8] + self.payload(),
        }
    }

    /// Why the response has no wire form, if it has none.
    pub open spec fn encoding_error(self) -> Option<PduError> {
        if self.has_registers() && self.payload().len() > usize::MAX {
            Some(PduError::ResponseTooLarge)
        } else if self.payload().len() > 255 {
            Some(PduError::ByteCountOverflow(ByteCountField::Response, self.payload().len() as u128))
        } else if self.pdu().len() > MAX_PDU_SIZE {
            Some(PduError::PduTooLarge(self.pdu().len() as usize))
        } else {
            None
        }
    }

    /// Whether the response names no more coils or registers than a request may
    /// ask for.
    pub open spec fn within_limits(self) -> bool {
        match self {
            ResponseView::ReadCoils(v) => v.len() <= MAX_COILS,
            ResponseView::ReadDiscreteInputs(v) => v.len() <= MAX_COILS,
            ResponseView::ReadHoldingRegisters(v) => v.len() <= MAX_REGISTERS,
            ResponseView::ReadInputRegisters(v) => v.len() <= MAX_REGISTERS,
            ResponseView::ReadWriteMultipleRegisters(v) => v.len() <= MAX_REGISTERS,
            _ => true,
        }
    }
}

/// The most bytes that encoding a PDU appends before it is found too long.
pub const MAX_ENCODED_SIZE: usize = 265;

// ── Encoders ────────────────────────────────────────────────────────────

/// Narrow a byte count to its field, or say why it does not fit.
#[inline]
fn safe_u8(val: u128, field: ByteCountField) -> (r: Result<u8, PduError>)
    ensures
        val <= 255 ==> r == Ok::<u8, PduError>(val as u8),
        val > 255 ==> r == Err::<u8, PduError>(PduError::ByteCountOverflow(field, val)),
{
    if val <= 255 {
        Ok(val as u8)
    } else {
        Err(PduError::ByteCountOverflow(field, val))
    }
}

fn coil_at(bits: &[bool], i: usize, k: usize) -> (r: bool)
    requires
        i < bits@.len(),
    ensures
        r == coil_or_off(bits@, i + k),
{
    k < bits.len() - i && bits[i + k]
}

/// The byte for the coils from `start` on.
fn pack_octet(bits: &[bool], start: usize) -> (r: u8)
    requires
        start < bits@.len(),
    ensures
        r == packed_byte(bits@, start as int),
{
    reveal(packed_byte);
    (if coil_at(bits, start, 0) { 1u8 } else { 0 }) | (if coil_at(bits, start, 1) {
        2u8
    } else {
        0
    }) | (if coil_at(bits, start, 2) { 4u8 } else { 0 }) | (if coil_at(bits, start, 3) {
        8u8
    } else {
        0
    }) | (if coil_at(bits, start, 4) { 16u8 } else { 0 }) | (if coil_at(bits, start, 5) {
        32u8
    } else {
        0
    }) | (if coil_at(bits, start, 6) { 64u8 } else { 0 }) | (if coil_at(bits, start, 7) {
        128u8
    } else {
        0
    })
}

/// The number of bytes for `n` coils.
fn coil_byte_count(n: usize) -> (r: usize)
    ensures
        r == coil_bytes(n as nat),
{
    n / 8 + (if n % 8 == 0 { 0usize } else { 1 })
}

/// Append coils, eight to a byte.
fn put_coils(buf: &mut BytesMut, bits: &[bool])
    requires
        buffer::buffered(*old(buf)).len() + coil_bytes(bits@.len()) <= isize::MAX,
    ensures
        buffer::buffered(*final(buf)) == buffer::buffered(*old(buf)) + packed(bits@),
{
    let ghost start = buffer::buffered(*buf);
    let len: usize = bits.len();
    let n: usize = coil_byte_count(len);
    let mut j: usize = 0;
    while j < n
        invariant
            j <= n,
            len == bits@.len(),
            n == coil_bytes(bits@.len()),
            start.len() + n <= isize::MAX,
            buffer::buffered(*buf) == start + packed(bits@).take(j as int),
        decreases n - j,
    {
        assert(8 * j < bits@.len());
        put_u8(buf, pack_octet(bits, 8 * j));
        assert(packed(bits@).take(j + 1) =~= packed(bits@).take(j as int).push(packed(bits@)[j as int]));
        assert(buffer::buffered(*buf) =~= start + packed(bits@).take(j + 1));
        j = j + 1;
    }
    assert(packed(bits@).take(n as int) =~= packed(bits@));
}

/// Append registers, the high byte of each first.
fn put_registers(buf: &mut BytesMut, regs: &[u16])
    requires
        buffer::buffered(*old(buf)).len() + 2 * regs@.len() <= isize::MAX,
    ensures
        buffer::buffered(*final(buf)) == buffer::buffered(*old(buf)) + words(regs@),
{
    let ghost start = buffer::buffered(*buf);
    let mut i: usize = 0;
    while i < regs.len()
        invariant
            i <= regs@.len(),
            start.len() + 2 * regs@.len() <= isize::MAX,
            buffer::buffered(*buf) == start + words(regs@).take(2 * i),
        decreases regs@.len() - i,
    {
        put_u16(buf, regs[i]);
        assert(words(regs@).take(2 * (i + 1)) =~= words(regs@).take(2 * i) + be16(regs@[i as int]))
            by {
            assert(words(regs@)[2 * i] == (regs@[i as int] / 256) as u8);
            assert(words(regs@)[2 * i + 1] == (regs@[i as int] % 256) as u8);
        }
        assert(buffer::buffered(*buf) =~= start + words(regs@).take(2 * (i + 1)));
        i = i + 1;
    }
    assert(words(regs@).take(2 * i) =~= words(regs@));
}

/// Append the request, without a limit on the length of the PDU. A byte count
/// that does not fit leaves the fields before it in the buffer.
fn encode_request(req: &Request<'_>, buf: &mut BytesMut) -> (r: Result<(), PduError>)
    requires
        buffer::buffered(*old(buf)).len() + MAX_ENCODED_SIZE <= isize::MAX,
    ensures
        match req@.byte_count_field() {
            Some(field) if req@.payload().len() > 255 => {
                &&& r == Err::<(), PduError>(
                    PduError::ByteCountOverflow(field, req@.payload().len() as u128),
                )
                &&& buffer::buffered(*final(buf)) == buffer::buffered(*old(buf)) + req@.head()
            },
            _ => {
                &&& r is Ok
                &&& buffer::buffered(*final(buf)) == buffer::buffered(*old(buf)) + req@.pdu()
            },
        },
{
    let ghost start = buffer::buffered(*buf);
    if let Request::Disconnect = req {
        assert(start + req@.pdu() =~= start);
        return Ok(());
    }
    put_u8(buf, req.function_code().value());
    match req {
        Request::ReadCoils(addr, qty) | Request::ReadDiscreteInputs(addr, qty)
        | Request::ReadHoldingRegisters(addr, qty) | Request::ReadInputRegisters(addr, qty) => {
            put_u16(buf, *addr);
            put_u16(buf, *qty);
        },
        Request::WriteSingleCoil(addr, value) => {
            put_u16(buf, *addr);
            put_u16(buf, if *value { 0xFF00 } else { 0x0000 });
        },
        Request::WriteSingleRegister(addr, value) => {
            put_u16(buf, *addr);
            put_u16(buf, *value);
        },
        Request::WriteMultipleCoils(addr, values) => {
            let values = coil_slice(values);
            put_u16(buf, *addr);
            put_u16(buf, (values.len() % 65536) as u16);
            assert(buffer::buffered(*buf) =~= start + req@.head());
            let byte_count: usize = coil_byte_count(values.len());
            put_u8(buf, match safe_u8(byte_count as u128, ByteCountField::Coils) {
                Ok(n) => n,
                Err(e) => return Err(e),
            });
            put_coils(buf, values);
        },
        Request::WriteMultipleRegisters(addr, values) => {
            let values = register_slice(values);
            put_u16(buf, *addr);
            put_u16(buf, (values.len() % 65536) as u16);
            assert(buffer::buffered(*buf) =~= start + req@.head());
            put_u8(buf, match safe_u8(values.len() as u128 * 2, ByteCountField::Registers) {
                Ok(n) => n,
                Err(e) => return Err(e),
            });
            put_registers(buf, values);
        },
        Request::ReadWriteMultipleRegisters(read_addr, read_qty, write_addr, data) => {
            let data = register_slice(data);
            put_u16(buf, *read_addr);
            put_u16(buf, *read_qty);
            put_u16(buf, *write_addr);
            put_u16(buf, (data.len() % 65536) as u16);
            assert(buffer::buffered(*buf) =~= start + req@.head());
            put_u8(buf, match safe_u8(data.len() as u128 * 2, ByteCountField::ReadWriteRegisters) {
                Ok(n) => n,
                Err(e) => return Err(e),
            });
            put_registers(buf, data);
        },
        Request::MaskWriteRegister(addr, and_mask, or_mask) => {
            put_u16(buf, *addr);
            put_u16(buf, *and_mask);
            put_u16(buf, *or_mask);
        },
        Request::Diagnostic(sf, data) => {
            put_u16(buf, *sf);
            put_u16(buf, *data);
        },
        Request::Disconnect => {},
    }
    assert(buffer::buffered(*buf) =~= start + req@.pdu());
    Ok(())
}

/// Append the wire form of a request to a buffer.
///
/// A request that is too long is refused. The buffer is then as it was, except
/// where the byte count does not fit its field: the fields before it stay.
pub fn encode_request_into(req: &Request<'_>, buf: &mut BytesMut) -> (r: Result<(), PduError>)
    requires
        buffer::buffered(*old(buf)).len() + MAX_ENCODED_SIZE <= isize::MAX,
    ensures
        match req@.encoding_error() {
            None => {
                &&& r is Ok
                &&& buffer::buffered(*final(buf)) == buffer::buffered(*old(buf)) + req@.pdu()
                &&& req@.pdu().len() <= MAX_PDU_SIZE
            },
            Some(e) => {
                &&& r == Err::<(), PduError>(e)
                &&& buffer::buffered(*final(buf)) == if e is ByteCountOverflow {
                    buffer::buffered(*old(buf)) + req@.head()
                } else {
                    buffer::buffered(*old(buf))
                }
            },
        },
{
    let start: usize = buf.len();
    match encode_request(req, buf) {
        Ok(()) => {},
        Err(e) => return Err(e),
    }
    let pdu_len: usize = buf.len() - start;
    if pdu_len > MAX_PDU_SIZE {
        buf.truncate(start);
        assert(buffer::buffered(*buf) =~= buffer::buffered(*old(buf)));
        return Err(PduError::PduTooLarge(pdu_len));
    }
    Ok(())
}

/// Refuse a response whose byte count does not fit in one byte.
fn validate_response_size(rsp: &Response) -> (r: Result<(), PduError>)
    ensures
        rsp@.has_registers() && rsp@.payload().len() > usize::MAX ==> r == Err::<(), PduError>(
            PduError::ResponseTooLarge,
        ),
        !(rsp@.has_registers() && rsp@.payload().len() > usize::MAX) && rsp@.payload().len() > 255
            ==> r == Err::<(), PduError>(
            PduError::ByteCountOverflow(ByteCountField::Response, rsp@.payload().len() as u128),
        ),
        rsp@.payload().len() <= 255 ==> r is Ok,
{
    let byte_count: usize = match rsp {
        Response::ReadCoils(bits) | Response::ReadDiscreteInputs(bits) => {
            coil_byte_count(bits.len())
        },
        Response::ReadHoldingRegisters(regs) | Response::ReadInputRegisters(regs)
        | Response::ReadWriteMultipleRegisters(regs) => match regs.len().checked_mul(2) {
            Some(n) => n,
            None => return Err(PduError::ResponseTooLarge),
        },
        _ => return Ok(()),
    };
    match safe_u8(byte_count as u128, ByteCountField::Response) {
        Ok(_) => Ok(()),
        Err(e) => Err(e),
    }
}

/// Append a response whose byte count fits, without a limit on the length of
/// the PDU.
fn encode_response(rsp: &Response, buf: &mut BytesMut)
    requires
        buffer::buffered(*old(buf)).len() + MAX_ENCODED_SIZE <= isize::MAX,
        rsp@.payload().len() <= 255,
    ensures
        buffer::buffered(*final(buf)) == buffer::buffered(*old(buf)) + rsp@.pdu(),
{
    let ghost start = buffer::buffered(*buf);
    put_u8(buf, rsp.function_code().value());
    match rsp {
        Response::ReadCoils(bits) | Response::ReadDiscreteInputs(bits) => {
            put_u8(buf, coil_byte_count(bits.len()) as u8);
            put_coils(buf, bits.as_slice());
        },
        Response::ReadHoldingRegisters(regs) | Response::ReadInputRegisters(regs)
        | Response::ReadWriteMultipleRegisters(regs) => {
            put_u8(buf, (regs.len() * 2) as u8);
            put_registers(buf, regs.as_slice());
        },
        Response::WriteSingleCoil(addr, val) => {
            put_u16(buf, *addr);
            put_u16(buf, if *val { 0xFF00 } else { 0x0000 });
        },
        Response::WriteSingleRegister(addr, val) => {
            put_u16(buf, *addr);
            put_u16(buf, *val);
        },
        Response::WriteMultipleCoils(addr, qty) => {
            put_u16(buf, *addr);
            put_u16(buf, *qty);
        },
        Response::WriteMultipleRegisters(addr, qty) => {
            put_u16(buf, *addr);
            put_u16(buf, *qty);
        },
        Response::MaskWriteRegister(addr, and_mask, or_mask) => {
            put_u16(buf, *addr);
            put_u16(buf, *and_mask);
            put_u16(buf, *or_mask);
        },
        Response::Diagnostic(sf, data) => {
            put_u16(buf, *sf);
            put_u16(buf, *data);
        },
        Response::Exception(_, exception) => {
            put_u8(buf, u8::from(*exception));
        },
    }
    assert(buffer::buffered(*buf) =~= start + rsp@.pdu());
}

/// Append the wire form of a response to a buffer.
///
/// A response that is too long is refused, and the buffer is then as it was.
pub fn encode_response_into(rsp: &Response, buf: &mut BytesMut) -> (r: Result<(), PduError>)
    requires
        buffer::buffered(*old(buf)).len() + MAX_ENCODED_SIZE <= isize::MAX,
    ensures
        match rsp@.encoding_error() {
            None => {
                &&& r is Ok
                &&& buffer::buffered(*final(buf)) == buffer::buffered(*old(buf)) + rsp@.pdu()
                &&& rsp@.pdu().len() <= MAX_PDU_SIZE
            },
            Some(e) => {
                &&& r == Err::<(), PduError>(e)
                &&& buffer::buffered(*final(buf)) == buffer::buffered(*old(buf))
            },
        },
{
    match validate_response_size(rsp) {
        Ok(()) => {},
        Err(e) => return Err(e),
    }
    let start: usize = buf.len();
    encode_response(rsp, buf);
    let pdu_len: usize = buf.len() - start;
    if pdu_len > MAX_PDU_SIZE {
        buf.truncate(start);
        assert(buffer::buffered(*buf) =~= buffer::buffered(*old(buf)));
        return Err(PduError::PduTooLarge(pdu_len));
    }
    Ok(())
}

impl<'a> TryFrom<Request<'a>> for Bytes {
    type Error = PduError;

    /// The wire form of a request.
    fn try_from(req: Request<'a>) -> (r: Result<Bytes, PduError>)
        ensures
            match req@.encoding_error() {
                None => r is Ok && buffer::octets(r->Ok_0) == req@.pdu(),
                Some(e) => r == Err::<Bytes, PduError>(e),
            },
    {
        let mut buf = BytesMut::new();
        match encode_request_into(&req, &mut buf) {
            Ok(()) => {
                let r = buf.freeze();
                assert(buffer::octets(r) =~= req@.pdu());
                Ok(r)
            },
            Err(e) => Err(e),
        }
    }
}

impl<'a> vstd::std_specs::convert::TryFromSpecImpl<Request<'a>> for Bytes {
    open spec fn obeys_try_from_spec() -> bool {
        false
    }

    open spec fn try_from_spec(req: Request<'a>) -> Result<Bytes, PduError> {
        arbitrary()
    }
}

/// Whether a response names no more coils or registers than a request may ask
/// for.
fn is_within_limits(rsp: &Response) -> (r: bool)
    ensures
        r == rsp@.within_limits(),
{
    match rsp {
        Response::ReadCoils(bits) | Response::ReadDiscreteInputs(bits) => {
            bits.len() <= MAX_COILS as usize
        },
        Response::ReadHoldingRegisters(regs) | Response::ReadInputRegisters(regs)
        | Response::ReadWriteMultipleRegisters(regs) => regs.len() <= MAX_REGISTERS as usize,
        _ => true,
    }
}

impl From<Response> for Bytes {
    /// The wire form of a response, or nothing at all where the response holds
    /// more coils or registers than the protocol allows. Call
    /// [`encode_response_into`] to learn why a response has no wire form.
    fn from(rsp: Response) -> (r: Bytes)
        ensures
            buffer::octets(r) == if rsp@.within_limits() {
                rsp@.pdu()
            } else {
                Seq::empty()
            },
    {
        let mut buf = BytesMut::new();
        if is_within_limits(&rsp) {
            let _ = encode_response_into(&rsp, &mut buf);
        }
        let r = buf.freeze();
        assert(buffer::octets(r) =~= if rsp@.within_limits() {
            rsp@.pdu()
        } else {
            Seq::empty()
        });
        r
    }
}

impl vstd::std_specs::convert::FromSpecImpl<Response> for Bytes {
    open spec fn obeys_from_spec() -> bool {
        false
    }

    open spec fn from_spec(rsp: Response) -> Bytes {
        arbitrary()
    }
}

} // verus!
