//! Modbus RTU: frames with a CRC, told apart by silence.

use std::sync::Arc;

use bytes::Bytes;
use vstd::prelude::*;

use super::send_recv::{ReadStep, ReadStepView, ReceiveStep, ReceiveStepView};
use super::{CRC_SIZE, MIN_RTU_FRAME};
use crate::buffer;
use crate::bus_timing::BusTiming;
use crate::client;
use crate::codec;
use crate::error::{ErrorView, ModbusError};
use crate::error::{PDU_DECODE_ERROR, RTU_RECV_TIMEOUT, SLAVE_ID_MISMATCH};
use crate::frame;
use crate::frame::encode;
use crate::frame::{is_known_function_code, PduError, Request, RequestView, Response, ResponseView};
use crate::text;
use crate::time::Micros;

verus! {

// ── Response length ─────────────────────────────────────────────────────

/// How long the PDU of the answer to a request is, if the server does what it
/// is asked.
pub open spec fn response_len(request: RequestView) -> Option<nat> {
    match request {
        RequestView::ReadCoils(_, n) => Some(2 + encode::coil_bytes(n as nat)),
        RequestView::ReadDiscreteInputs(_, n) => Some(2 + encode::coil_bytes(n as nat)),
        RequestView::ReadHoldingRegisters(_, n) => Some(2 + 2 * n as nat),
        RequestView::ReadInputRegisters(_, n) => Some(2 + 2 * n as nat),
        RequestView::ReadWriteMultipleRegisters(_, n, _, _) => Some(2 + 2 * n as nat),
        RequestView::MaskWriteRegister(..) => Some(7),
        RequestView::Disconnect => None,
        _ => Some(5),
    }
}

/// How long the PDU of the answer to a request should be. A client reads that
/// much before it looks at the frame.
pub fn expected_rtu_pdu_len(request: &Request<'_>) -> (r: Option<usize>)
    ensures
        match response_len(request@) {
            Some(n) => r == Some(n as usize),
            None => r is None,
        },
{
    match request {
        Request::ReadCoils(_, count) | Request::ReadDiscreteInputs(_, count) => {
            Some(2 + (*count as usize + 7) / 8)
        },
        Request::ReadHoldingRegisters(_, count) | Request::ReadInputRegisters(_, count) => {
            Some(2 + *count as usize * 2)
        },
        Request::WriteSingleCoil(_, _) | Request::WriteSingleRegister(_, _)
        | Request::WriteMultipleCoils(_, _) | Request::WriteMultipleRegisters(_, _) => Some(5),
        Request::ReadWriteMultipleRegisters(_, count, _, _) => Some(2 + *count as usize * 2),
        Request::MaskWriteRegister(_, _, _) => Some(7),
        Request::Diagnostic(_, _) => Some(5),
        Request::Disconnect => None,
    }
}

// ── Frames ──────────────────────────────────────────────────────────────

/// Whether a byte sequence ends with the CRC of what comes before.
pub open spec fn crc_ok(frame: Seq<u8>) -> bool {
    frame.len() >= CRC_SIZE && frame == codec::rtu_frame(frame.take(frame.len() - CRC_SIZE))
}

fn check_crc(buf: &[u8]) -> (r: bool)
    requires
        buf@.len() >= CRC_SIZE,
    ensures
        r == crc_ok(buf@),
{
    let n: usize = buf.len() - CRC_SIZE;
    let data = vstd::slice::slice_subrange(buf, 0, n);
    assert(data@ =~= buf@.take(buf@.len() - CRC_SIZE));
    let crc_received: u16 = buf[n] as u16 + 256 * buf[n + 1] as u16;
    let crc_calc: u16 = codec::calculate_crc(data);
    proof {
        let want = codec::rtu_frame(data@);
        assert(want.len() == buf@.len());
        assert(want.take(n as int) =~= buf@.take(n as int));
        if crc_received == crc_calc {
            assert(buf@ =~= want) by {
                assert forall|i: int| 0 <= i < want.len() implies buf@[i] == want[i] by {
                    if i < n {
                        assert(want[i] == want.take(n as int)[i]);
                        assert(buf@[i] == buf@.take(n as int)[i]);
                    }
                }
            }
        } else if buf@ == want {
            assert(buf@[n as int] == (crc_calc % 256) as u8);
            assert(buf@[n + 1] == (crc_calc / 256) as u8);
        }
    }
    crc_received == crc_calc
}

/// A request as it was found on the line: slave address, PDU, and how many
/// bytes it took.
pub type FrameView = (u8, Seq<u8>, int);

/// A parsed frame, with the PDU as its bytes.
pub open spec fn frame_view(r: Option<(u8, Bytes, usize)>) -> Option<FrameView> {
    match r {
        Some((slave, pdu, consumed)) => Some((slave, buffer::octets(pdu), consumed as int)),
        None => None,
    }
}

/// The frame that a buffer holds, if all of it is one: long enough, with the
/// right CRC and a known function code.
pub open spec fn parse_server_frame(buf: Seq<u8>) -> Option<FrameView> {
    if buf.len() >= MIN_RTU_FRAME && crc_ok(buf) && frame::is_standard_code(
        frame::base_code(buf[1]),
    ) {
        Some((buf[0], buf.subrange(1, buf.len() - CRC_SIZE), buf.len() as int))
    } else {
        None
    }
}

/// The frame that a buffer holds, if all of it is one.
///
/// A frame with an unknown function code is noise: random bytes pass the CRC
/// now and then, and must not be answered with an exception.
pub fn try_parse_server_rtu(buf: &[u8]) -> (r: Option<(u8, Bytes, usize)>)
    ensures
        frame_view(r) == parse_server_frame(buf@),
{
    if buf.len() < MIN_RTU_FRAME {
        return None;
    }
    if !check_crc(buf) {
        return None;
    }
    if !is_known_function_code(buf[1]) {
        return None;
    }
    let pdu = vstd::slice::slice_subrange(buf, 1, buf.len() - CRC_SIZE);
    Some((buf[0], Bytes::copy_from_slice(pdu), buf.len()))
}

// ── Responses ───────────────────────────────────────────────────────────

/// What a client makes of a response PDU.
pub open spec fn decoded(pdu: Seq<u8>) -> Result<ResponseView, ErrorView> {
    match ResponseView::parse(pdu) {
        Ok(rsp) => Ok(rsp),
        Err(e) => Err(ErrorView::Protocol(PDU_DECODE_ERROR@ + " "@ + e.message())),
    }
}

/// The error for a response from another slave.
pub open spec fn mismatch(wanted: u8, got: u8) -> ErrorView {
    ErrorView::Protocol(
        SLAVE_ID_MISMATCH@ + " "@ + text::decimal(wanted as nat) + ", got "@ + text::decimal(
            got as nat,
        ),
    )
}

/// What a client makes of the bytes that it received.
pub open spec fn parse_response(buf: Seq<u8>, slave_id: u8) -> Result<ResponseView, ErrorView> {
    if buf.len() == 0 {
        Err(ErrorView::Timeout(RTU_RECV_TIMEOUT@))
    } else if buf.len() < MIN_RTU_FRAME {
        Err(
            ErrorView::Timeout(
                "RTU short frame ("@ + text::decimal(buf.len()) + " bytes, need at least "@
                    + text::decimal(MIN_RTU_FRAME as nat) + ")"@,
            ),
        )
    } else if !crc_ok(buf) {
        Err(ErrorView::Protocol("RTU CRC mismatch"@))
    } else if buf[0] != slave_id {
        Err(mismatch(slave_id, buf[0]))
    } else {
        decoded(buf.subrange(1, buf.len() - CRC_SIZE))
    }
}

/// Decode a response PDU.
pub(crate) fn decode_response_pdu(pdu: Bytes) -> (r: Result<Response, ModbusError>)
    ensures
        client::reply_view(r) == decoded(buffer::octets(pdu)),
{
    match Response::try_from(pdu) {
        Ok(rsp) => Ok(rsp),
        Err(e) => Err(pdu_error(PDU_DECODE_ERROR, e)),
    }
}

/// A protocol error that says what was wrong with a PDU.
pub(crate) fn pdu_error(prefix: &str, e: PduError) -> (r: ModbusError)
    ensures
        r@ == ErrorView::Protocol(prefix@ + " "@ + e.message()),
{
    let mut s = prefix.to_owned();
    s.append(" ");
    s.append(e.to_string().as_str());
    ModbusError::Protocol(s)
}

/// The error for a response from another slave.
pub(crate) fn slave_mismatch(wanted: u8, got: u8) -> (r: ModbusError)
    ensures
        r@ == mismatch(wanted, got),
{
    let mut s = SLAVE_ID_MISMATCH.to_owned();
    s.append(" ");
    text::push_decimal(&mut s, wanted as u128);
    s.append(", got ");
    text::push_decimal(&mut s, got as u128);
    ModbusError::Protocol(s)
}

/// The response in the bytes that a client received from a slave.
pub fn parse_rtu_response(buf: &[u8], slave_id: u8) -> (r: Result<Response, ModbusError>)
    ensures
        client::reply_view(r) == parse_response(buf@, slave_id),
{
    let got: usize = buf.len();
    if got < MIN_RTU_FRAME {
        if got == 0 {
            return Err(ModbusError::Timeout(RTU_RECV_TIMEOUT.to_owned()));
        }
        let mut s = "RTU short frame (".to_owned();
        text::push_decimal(&mut s, got as u128);
        s.append(" bytes, need at least ");
        text::push_decimal(&mut s, MIN_RTU_FRAME as u128);
        s.append(")");
        return Err(ModbusError::Timeout(s));
    }
    if !check_crc(buf) {
        return Err(ModbusError::protocol("RTU CRC mismatch"));
    }
    let rsp_slave: u8 = buf[0];
    if rsp_slave != slave_id {
        return Err(slave_mismatch(slave_id, rsp_slave));
    }
    let pdu = vstd::slice::slice_subrange(buf, 1, got - CRC_SIZE);
    decode_response_pdu(Bytes::copy_from_slice(pdu))
}

// ── Receiving ───────────────────────────────────────────────────────────

/// How many bytes a client waits for: the frame of the expected response, or
/// the smallest frame where no response is expected.
pub open spec fn receive_target(request: RequestView) -> nat {
    match response_len(request) {
        Some(n) => n + 3,
        None => MIN_RTU_FRAME as nat,
    }
}

/// What follows when as many bytes are there as will come.
pub open spec fn receive_step(step: ReadStepView, buf: Seq<u8>, slave_id: u8) -> ReceiveStepView {
    match step {
        ReadStepView::Read { wait_us } => ReceiveStepView::Read { wait_us },
        ReadStepView::Ready => ReceiveStepView::Done(parse_response(buf, slave_id)),
        ReadStepView::Failed(e) => ReceiveStepView::Done(Err(e)),
    }
}

/// How many bytes a client waits for.
pub fn rtu_receive_target(request: &Request<'_>) -> (r: usize)
    ensures
        r == receive_target(request@),
{
    match expected_rtu_pdu_len(request) {
        Some(n) => n + 1 + CRC_SIZE,
        None => MIN_RTU_FRAME,
    }
}

/// Look at what was received, or wait for more of it.
pub fn rtu_receive(step: ReadStep, buf: &[u8], slave_id: u8) -> (r: ReceiveStep)
    ensures
        r@ == receive_step(step@, buf@, slave_id),
{
    match step {
        ReadStep::Read { wait_us } => ReceiveStep::Read { wait_us },
        ReadStep::Ready => ReceiveStep::Done(parse_rtu_response(buf, slave_id)),
        ReadStep::Failed(e) => ReceiveStep::Done(Err(e)),
    }
}

// ── Server ──────────────────────────────────────────────────────────────

/// The silence that ends a frame, where nothing else says so: a little over 3.5
/// characters at 9600 baud.
pub const DEFAULT_RTU_T35_US: u64 = 5_000;

/// An RTU server on a byte transport.
pub struct RtuServer<T> {
    transport: T,
    bus_timing: Option<Arc<BusTiming>>,
    read_timeout: Option<Micros>,
}

impl<T> RtuServer<T> {
    /// The byte transport.
    pub closed spec fn line(self) -> T {
        self.transport
    }

    /// The bus timing that the server keeps, if any.
    pub closed spec fn timing(self) -> Option<Arc<BusTiming>> {
        self.bus_timing
    }

    /// The read timeout that was asked for, if any.
    pub closed spec fn asked_timeout(self) -> Option<Micros> {
        self.read_timeout
    }

    /// The silence after which received bytes are taken for a whole frame, or
    /// dropped: what was asked for, or else the spacing of the bus timing, or
    /// else 5 ms.
    pub open spec fn frame_timeout(self) -> Micros {
        match (self.asked_timeout(), self.timing()) {
            (Some(t), _) => t,
            (None, Some(timing)) => Micros(timing.spacing_us()),
            (None, None) => Micros(DEFAULT_RTU_T35_US),
        }
    }

    /// A server on the given transport.
    pub fn new(transport: T) -> (r: Self)
        ensures
            r.line() == transport,
            r.timing() is None,
            r.asked_timeout() is None,
    {
        RtuServer { transport, bus_timing: None, read_timeout: None }
    }

    /// Keep a bus timing.
    pub fn with_bus_timing(self, timing: Arc<BusTiming>) -> (r: Self)
        ensures
            r.line() == self.line(),
            r.timing() == Some(timing),
            r.asked_timeout() == self.asked_timeout(),
    {
        RtuServer {
            transport: self.transport,
            bus_timing: Some(timing),
            read_timeout: self.read_timeout,
        }
    }

    /// Set the silence after which received bytes are taken for a whole frame.
    pub fn with_read_timeout(self, timeout: Micros) -> (r: Self)
        ensures
            r.line() == self.line(),
            r.timing() == self.timing(),
            r.asked_timeout() == Some(timeout),
    {
        RtuServer {
            transport: self.transport,
            bus_timing: self.bus_timing,
            read_timeout: Some(timeout),
        }
    }

    /// The silence after which received bytes are taken for a whole frame.
    pub fn read_timeout(&self) -> (r: Micros)
        ensures
            r == self.frame_timeout(),
    {
        match self.read_timeout {
            Some(t) => t,
            None => match &self.bus_timing {
                Some(timing) => timing.min_spacing(),
                None => Micros::from_micros(DEFAULT_RTU_T35_US),
            },
        }
    }

    /// Take the server apart: transport and bus timing.
    pub fn into_parts(self) -> (r: (T, Option<Arc<BusTiming>>))
        ensures
            r.0 == self.line(),
            r.1 == self.timing(),
    {
        (self.transport, self.bus_timing)
    }
}

} // verus!
