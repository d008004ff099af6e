//! Modbus TCP: frames with an MBAP header.

use bytes::{Bytes, BytesMut};
use vstd::prelude::*;

use super::rtu;
use super::rtu::decode_response_pdu;
use super::send_recv;
use super::send_recv::{read_at_least, read_start};
use super::send_recv::{ReadEvent, ReadStep, ReadStepView, ReceiveStep, ReceiveStepView};
use super::{MAX_TCP_ADU_SIZE, MBAP_HEADER_SIZE, MBAP_PREFIX_SIZE};
use crate::buffer;
use crate::buffer::{advance, put_u16, put_u8};
use crate::client;
use crate::error::{ErrorView, ModbusError};
use crate::error::{TCP_EMPTY_RESP, TCP_RECV_TIMEOUT};
use crate::frame;
use crate::frame::decode;
use crate::frame::encode;
use crate::frame::{is_known_function_code, Request, RequestView, Response, ResponseView};

verus! {

// ── Configuration ───────────────────────────────────────────────────────

/// How transaction identifiers are chosen.
#[derive(Debug, Clone, Copy, PartialEq, Eq, Structural)]
pub enum TidMode {
    /// Always the same value.
    Fixed(u16),
    /// One more for each request, from 1 on, wrapping around.
    Auto,
}

/// What the length field of the MBAP header counts.
#[derive(Debug, Clone, Copy, PartialEq, Eq, Structural)]
pub enum LengthMode {
    /// The unit identifier and the PDU.
    Standard,
    /// The PDU alone, as some devices have it.
    PduOnly,
}

/// How MBAP headers are built.
#[derive(Debug, Clone, Copy, PartialEq, Eq, Structural)]
pub struct TcpConfig {
    pub tid: TidMode,
    /// Whether the unit identifier is written a second time, before the PDU.
    /// Some gateways ask for it.
    pub unit_id_in_body: bool,
    pub length_mode: LengthMode,
}

impl Default for TcpConfig {
    fn default() -> (r: Self)
        ensures
            r == (TcpConfig {
                tid: TidMode::Fixed(0),
                unit_id_in_body: false,
                length_mode: LengthMode::Standard,
            }),
    {
        TcpConfig {
            tid: TidMode::Fixed(0),
            unit_id_in_body: false,
            length_mode: LengthMode::Standard,
        }
    }
}

impl TcpConfig {
    /// As most devices have it: identifier 0, unit identifier in the header only,
    /// standard length.
    pub fn standard() -> (r: Self)
        ensures
            r == (TcpConfig {
                tid: TidMode::Fixed(0),
                unit_id_in_body: false,
                length_mode: LengthMode::Standard,
            }),
    {
        TcpConfig::default()
    }

    /// For gateways: counting identifiers, unit identifier in the body too,
    /// standard length.
    pub fn gateway() -> (r: Self)
        ensures
            r == (TcpConfig {
                tid: TidMode::Auto,
                unit_id_in_body: true,
                length_mode: LengthMode::Standard,
            }),
    {
        TcpConfig { tid: TidMode::Auto, unit_id_in_body: true, length_mode: LengthMode::Standard }
    }
}

/// The transaction identifier for the next request.
pub fn next_tid(mode: &TidMode, counter: &mut u16) -> (r: u16)
    ensures
        match *mode {
            TidMode::Fixed(v) => r == v && *final(counter) == *old(counter),
            TidMode::Auto => {
                &&& r == *old(counter)
                &&& *final(counter) == (*old(counter) + 1) % 65536
            },
        },
{
    match mode {
        TidMode::Fixed(v) => *v,
        TidMode::Auto => {
            let tid: u16 = *counter;
            *counter = tid.wrapping_add(1);
            tid
        },
    }
}

// ── Frame encoding ──────────────────────────────────────────────────────

/// The unit identifier that a frame is sent with: the first byte of the data,
/// or 1 where there is none.
pub open spec fn unit_of(data: Seq<u8>) -> u8 {
    if data.len() == 0 {
        1
    } else {
        data[0]
    }
}

/// What follows the unit identifier.
pub open spec fn pdu_of(data: Seq<u8>) -> Seq<u8> {
    if data.len() == 0 {
        Seq::empty()
    } else {
        data.skip(1)
    }
}

/// What stands behind the header of the frame.
pub open spec fn body_of(data: Seq<u8>, config: TcpConfig) -> Seq<u8> {
    if config.unit_id_in_body {
        seq![unit_of(data)] + pdu_of(data)
    } else {
        pdu_of(data)
    }
}

/// The value of the length field.
pub open spec fn length_field(data: Seq<u8>, config: TcpConfig) -> int {
    encode::count16(pdu_of(data).len()) + (if config.unit_id_in_body {
        1int
    } else {
        0
    }) + (if config.length_mode is Standard {
        1int
    } else {
        0
    })
}

/// The TCP frame for a slave address and PDU.
pub open spec fn tcp_frame(data: Seq<u8>, config: TcpConfig, tid: u16) -> Seq<u8> {
    encode::be16(tid) + encode::be16(0) + encode::be16(length_field(data, config) as u16) + seq![
        unit_of(data),
    ] + body_of(data, config)
}

/// Append the TCP frame for a slave address and PDU to a buffer.
pub fn encode_tcp_frame(data: &[u8], buf: &mut BytesMut, config: &TcpConfig, tid: u16)
    requires
        length_field(data@, *config) <= u16::MAX,
        buffer::buffered(*old(buf)).len() + data@.len() + 8 <= isize::MAX,
    ensures
        buffer::buffered(*final(buf)) == buffer::buffered(*old(buf)) + tcp_frame(
            data@,
            *config,
            tid,
        ),
{
    let empty: [u8; 0] = [];
    let (unit_id, pdu): (u8, &[u8]) = if data.len() == 0 {
        (1u8, &empty)
    } else {
        (data[0], vstd::slice::slice_subrange(data, 1, data.len()))
    };
    assert(pdu@ =~= pdu_of(data@));
    let extra: u16 = if config.unit_id_in_body {
        1
    } else {
        0
    };
    let pdu_len: u16 = (pdu.len() % 65536) as u16;
    let len: u16 = match config.length_mode {
        LengthMode::Standard => pdu_len + 1 + extra,
        LengthMode::PduOnly => pdu_len + extra,
    };
    put_u16(buf, tid);
    put_u16(buf, 0);
    put_u16(buf, len);
    put_u8(buf, unit_id);
    if config.unit_id_in_body {
        put_u8(buf, unit_id);
    }
    buf.extend_from_slice(pdu);
    assert(buffer::buffered(*buf) =~= buffer::buffered(*old(buf)) + tcp_frame(
        data@,
        *config,
        tid,
    ));
}

// ── Frame decoding ──────────────────────────────────────────────────────

/// A request as it was found in a TCP stream: transaction identifier, slave
/// address, PDU, and how many bytes of the stream it took.
pub type TcpFrameView = (u16, u8, Seq<u8>, int);

/// A parsed frame, with the PDU as its bytes.
pub open spec fn tcp_frame_view(r: Option<(u16, u8, Bytes, usize)>) -> Option<TcpFrameView> {
    match r {
        Some((tid, slave, pdu, consumed)) => Some(
            (tid, slave, buffer::octets(pdu), consumed as int),
        ),
        None => None,
    }
}

/// The PDU in the body of a frame.
///
/// A body that starts with the unit identifier, followed by a valid request, is
/// read as such. Any other body must start with a known function code, and must
/// be a valid request where that code might also be the unit identifier.
pub open spec fn extract_pdu(tid: u16, unit_id: u8, body: Seq<u8>, consumed: int) -> Option<
    TcpFrameView,
> {
    if body.len() >= 2 && body[0] == unit_id && frame::is_standard_code(frame::base_code(body[1]))
        && RequestView::parse(body.skip(1)) is Ok {
        Some((tid, body[0], body.skip(1), consumed))
    } else if frame::is_standard_code(frame::base_code(body[0])) && !(body[0] == unit_id
        && RequestView::parse(body) is Err) {
        Some((tid, unit_id, body, consumed))
    } else {
        None
    }
}

/// The length field of a header.
pub open spec fn payload_len(buf: Seq<u8>) -> int {
    decode::word(buf, 4) as int
}

/// The first frame of a stream.
///
/// The length field is read as the length of the PDU where the stream is long
/// enough for that, and as the length of unit identifier and PDU otherwise.
pub open spec fn parse_frame(buf: Seq<u8>) -> Option<TcpFrameView> {
    if buf.len() < MBAP_HEADER_SIZE || decode::word(buf, 2) != 0 || payload_len(buf)
        > MAX_TCP_ADU_SIZE {
        None
    } else {
        let long = MBAP_HEADER_SIZE + payload_len(buf);
        let short = MBAP_PREFIX_SIZE + payload_len(buf);
        if long > MBAP_HEADER_SIZE && buf.len() >= long {
            extract_pdu(
                decode::word(buf, 0),
                buf[6],
                buf.subrange(MBAP_HEADER_SIZE as int, long),
                long,
            )
        } else if short > MBAP_HEADER_SIZE && buf.len() >= short {
            extract_pdu(
                decode::word(buf, 0),
                buf[6],
                buf.subrange(MBAP_HEADER_SIZE as int, short),
                short,
            )
        } else {
            None
        }
    }
}

/// A header that no frame can have: a wrong protocol identifier, or a length
/// that is out of range.
pub open spec fn header_corrupt(buf: Seq<u8>) -> bool {
    buf.len() >= MBAP_HEADER_SIZE && (decode::word(buf, 2) != 0 || payload_len(buf) < 1
        || payload_len(buf) > MAX_TCP_ADU_SIZE)
}

fn word_at(buf: &[u8], i: usize) -> (r: u16)
    requires
        i + 1 < buf@.len(),
    ensures
        r == decode::word(buf@, i as int),
{
    buf[i] as u16 * 256 + buf[i + 1] as u16
}

/// Whether the buffer starts with a whole header that no frame can have. Such a
/// buffer is to be discarded; with less than a header, more data may help.
pub fn is_tcp_header_corrupt(buf: &[u8]) -> (r: bool)
    ensures
        r == header_corrupt(buf@),
{
    if buf.len() < MBAP_HEADER_SIZE {
        return false;
    }
    let proto_id: u16 = word_at(buf, 2);
    let payload: usize = word_at(buf, 4) as usize;
    proto_id != 0 || payload < 1 || payload > MAX_TCP_ADU_SIZE
}

/// A stream that grows beyond four of the largest frames without a frame in it
/// is discarded.
pub const MAX_TCP_BUF_BYTES: usize = 1040;

/// The first frame of a stream: transaction identifier, slave address, PDU, and
/// how many bytes of the stream it takes.
///
/// Both readings of the length field and both placements of the unit identifier
/// are understood.
pub fn try_parse_tcp_frame(buf: &[u8]) -> (r: Option<(u16, u8, Bytes, usize)>)
    ensures
        tcp_frame_view(r) == parse_frame(buf@),
{
    if buf.len() < MBAP_HEADER_SIZE {
        return None;
    }
    let tid: u16 = word_at(buf, 0);
    let payload: usize = word_at(buf, 4) as usize;
    let proto_id: u16 = word_at(buf, 2);
    if proto_id != 0 || payload > MAX_TCP_ADU_SIZE {
        return None;
    }
    let unit_id: u8 = buf[6];
    let long: usize = MBAP_HEADER_SIZE + payload;
    if long > MBAP_HEADER_SIZE && buf.len() >= long {
        let body = vstd::slice::slice_subrange(buf, MBAP_HEADER_SIZE, long);
        return try_extract_tcp_pdu(tid, unit_id, body, long);
    }
    let short: usize = MBAP_PREFIX_SIZE + payload;
    if short > MBAP_HEADER_SIZE && buf.len() >= short {
        let body = vstd::slice::slice_subrange(buf, MBAP_HEADER_SIZE, short);
        return try_extract_tcp_pdu(tid, unit_id, body, short);
    }
    None
}

/// The PDU in the body of a frame.
///
/// Where a body starts with the unit identifier and a request follows, the
/// sender put the identifier there. The two readings can only be confused where
/// the unit identifier is itself a function code; the body must then decode.
fn try_extract_tcp_pdu(tid: u16, unit_id: u8, body: &[u8], consumed: usize) -> (r: Option<
    (u16, u8, Bytes, usize),
>)
    requires
        body@.len() >= 1,
    ensures
        tcp_frame_view(r) == extract_pdu(tid, unit_id, body@, consumed as int),
{
    if body.len() >= 2 && body[0] == unit_id && is_known_function_code(body[1]) {
        let pdu = Bytes::copy_from_slice(vstd::slice::slice_subrange(body, 1, body.len()));
        assert(buffer::octets(pdu) =~= body@.skip(1));
        if Request::try_from(pdu.clone()).is_ok() {
            return Some((tid, body[0], pdu, consumed));
        }
    }
    if is_known_function_code(body[0]) {
        let pdu = Bytes::copy_from_slice(body);
        if body[0] == unit_id && Request::try_from(pdu.clone()).is_err() {
            return None;
        }
        // A PDU that does not decode is handed on, for the caller to report.
        return Some((tid, unit_id, pdu, consumed));
    }
    None
}

// ── Receiving ───────────────────────────────────────────────────────────

/// How far a client has come with a response.
#[derive(Debug, Clone, Copy, PartialEq, Eq, Structural)]
pub enum TcpReceive {
    /// Waiting for the header.
    Header,
    /// Waiting for what the standard reading of the length field asks for.
    Body,
    /// Waiting for the one byte more that the other reading asks for.
    Extra,
}

/// The longest that the last byte is waited for.
pub const EXTRA_WAIT_US: u64 = 200_000;

/// What is wrong with the header of a response.
pub open spec fn response_header_error(buf: Seq<u8>) -> Option<ErrorView> {
    if decode::word(buf, 2) != 0 {
        Some(ErrorView::Protocol("TCP: invalid Protocol ID"@))
    } else if payload_len(buf) > MAX_TCP_ADU_SIZE {
        Some(ErrorView::Protocol("TCP: MBAP Length exceeds max ADU"@))
    } else {
        None
    }
}

/// The PDU of a response whose body may repeat the unit identifier.
pub open spec fn strip_unit_id(body: Seq<u8>, slave_id: u8, unit_id_in_body: bool) -> Seq<u8> {
    if unit_id_in_body && body.len() > 1 && body[0] == slave_id {
        body.skip(1)
    } else {
        body
    }
}

/// What a client makes of a body. The unit identifier of the header is not
/// looked at: there is one server at the other end.
pub open spec fn parse_body(body: Seq<u8>, slave_id: u8, unit_id_in_body: bool) -> Result<
    ResponseView,
    ErrorView,
> {
    if body.len() == 0 {
        Err(ErrorView::Protocol(TCP_EMPTY_RESP@))
    } else {
        rtu::decoded(strip_unit_id(body, slave_id, unit_id_in_body))
    }
}

/// What a client makes of the bytes that it received, once the header is
/// sound.
pub open spec fn parse_response(buf: Seq<u8>, slave_id: u8, unit_id_in_body: bool) -> Result<
    ResponseView,
    ErrorView,
> {
    let long = MBAP_HEADER_SIZE + payload_len(buf);
    let short = MBAP_PREFIX_SIZE + payload_len(buf);
    if buf.len() >= long {
        parse_body(buf.subrange(MBAP_HEADER_SIZE as int, long), slave_id, unit_id_in_body)
    } else if buf.len() >= short {
        parse_body(buf.subrange(MBAP_HEADER_SIZE as int, short), slave_id, unit_id_in_body)
    } else {
        Err(ErrorView::Timeout(TCP_RECV_TIMEOUT@))
    }
}

/// What follows when the body is there.
pub open spec fn after_body(
    buf: Seq<u8>,
    slave_id: u8,
    unit_id_in_body: bool,
    now_us: u64,
    deadline_us: u64,
) -> (TcpReceive, ReceiveStepView) {
    if buf.len() < MBAP_HEADER_SIZE + payload_len(buf) && now_us < deadline_us {
        let left = (deadline_us - now_us) as u64;
        (
            TcpReceive::Extra,
            ReceiveStepView::Read {
                wait_us: if left < EXTRA_WAIT_US {
                    left
                } else {
                    EXTRA_WAIT_US
                },
            },
        )
    } else {
        (
            TcpReceive::Extra,
            ReceiveStepView::Done(parse_response(buf, slave_id, unit_id_in_body)),
        )
    }
}

/// What follows when the header is there, or will not come.
pub open spec fn after_header(
    buf: Seq<u8>,
    slave_id: u8,
    unit_id_in_body: bool,
    now_us: u64,
    deadline_us: u64,
) -> (TcpReceive, ReceiveStepView) {
    if buf.len() < MBAP_HEADER_SIZE {
        (TcpReceive::Header, ReceiveStepView::Done(Err(ErrorView::Timeout(TCP_RECV_TIMEOUT@))))
    } else {
        match response_header_error(buf) {
            Some(e) => (TcpReceive::Header, ReceiveStepView::Done(Err(e))),
            None => match send_recv::read_goal(
                buf.len(),
                (MBAP_PREFIX_SIZE + payload_len(buf)) as nat,
                now_us,
                deadline_us,
            ) {
                ReadStepView::Read { wait_us } => (
                    TcpReceive::Body,
                    ReceiveStepView::Read { wait_us },
                ),
                _ => after_body(buf, slave_id, unit_id_in_body, now_us, deadline_us),
            },
        }
    }
}

/// What follows while the header is waited for.
pub open spec fn receive_goal(
    step: ReadStepView,
    buf: Seq<u8>,
    slave_id: u8,
    unit_id_in_body: bool,
    now_us: u64,
    deadline_us: u64,
) -> (TcpReceive, ReceiveStepView) {
    match step {
        ReadStepView::Read { wait_us } => (TcpReceive::Header, ReceiveStepView::Read { wait_us }),
        ReadStepView::Failed(e) => (TcpReceive::Header, ReceiveStepView::Done(Err(e))),
        ReadStepView::Ready => after_header(buf, slave_id, unit_id_in_body, now_us, deadline_us),
    }
}

/// What follows a read, with `buf` received so far: first the header is waited
/// for, then the body. How the wait for the last byte ended does not matter.
pub open spec fn receive_next(
    phase: TcpReceive,
    event: ReadEvent,
    buf: Seq<u8>,
    slave_id: u8,
    unit_id_in_body: bool,
    now_us: u64,
    deadline_us: u64,
) -> (TcpReceive, ReceiveStepView) {
    match phase {
        TcpReceive::Header => receive_goal(
            send_recv::read_next(event, buf.len(), MBAP_HEADER_SIZE as nat, now_us, deadline_us),
            buf,
            slave_id,
            unit_id_in_body,
            now_us,
            deadline_us,
        ),
        TcpReceive::Body => match send_recv::read_next(
            event,
            buf.len(),
            (MBAP_PREFIX_SIZE + payload_len(buf)) as nat,
            now_us,
            deadline_us,
        ) {
            ReadStepView::Read { wait_us } => (TcpReceive::Body, ReceiveStepView::Read { wait_us }),
            ReadStepView::Failed(e) => (TcpReceive::Body, ReceiveStepView::Done(Err(e))),
            ReadStepView::Ready => after_body(buf, slave_id, unit_id_in_body, now_us, deadline_us),
        },
        TcpReceive::Extra => (
            TcpReceive::Extra,
            ReceiveStepView::Done(parse_response(buf, slave_id, unit_id_in_body)),
        ),
    }
}

fn parse_tcp_body(body: &[u8], slave_id: u8, unit_id_in_body: bool) -> (r: Result<
    Response,
    ModbusError,
>)
    ensures
        client::reply_view(r) == parse_body(body@, slave_id, unit_id_in_body),
{
    if body.len() == 0 {
        return Err(ModbusError::protocol(TCP_EMPTY_RESP));
    }
    let mut pdu = Bytes::copy_from_slice(body);
    if unit_id_in_body && body.len() > 1 && body[0] == slave_id {
        advance(&mut pdu, 1);
    }
    decode_response_pdu(pdu)
}

/// The response in the bytes that a client received, once the header is sound.
pub fn parse_tcp_response(buf: &[u8], slave_id: u8, unit_id_in_body: bool) -> (r: Result<
    Response,
    ModbusError,
>)
    requires
        buf@.len() >= MBAP_HEADER_SIZE,
    ensures
        client::reply_view(r) == parse_response(buf@, slave_id, unit_id_in_body),
{
    let payload: usize = word_at(buf, 4) as usize;
    let long: usize = MBAP_HEADER_SIZE + payload;
    let short: usize = MBAP_PREFIX_SIZE + payload;
    if buf.len() >= long {
        let body = vstd::slice::slice_subrange(buf, MBAP_HEADER_SIZE, long);
        parse_tcp_body(body, slave_id, unit_id_in_body)
    } else if buf.len() >= short {
        let body = vstd::slice::slice_subrange(buf, MBAP_HEADER_SIZE, short);
        parse_tcp_body(body, slave_id, unit_id_in_body)
    } else {
        Err(ModbusError::timeout(TCP_RECV_TIMEOUT))
    }
}

fn tcp_after_body(
    buf: &[u8],
    slave_id: u8,
    unit_id_in_body: bool,
    now_us: u64,
    deadline_us: u64,
) -> (r: (TcpReceive, ReceiveStep))
    requires
        buf@.len() >= MBAP_HEADER_SIZE,
    ensures
        (r.0, r.1@) == after_body(buf@, slave_id, unit_id_in_body, now_us, deadline_us),
{
    let payload: usize = word_at(buf, 4) as usize;
    if buf.len() < MBAP_HEADER_SIZE + payload && now_us < deadline_us {
        let left: u64 = deadline_us - now_us;
        let wait_us: u64 = if left < EXTRA_WAIT_US {
            left
        } else {
            EXTRA_WAIT_US
        };
        (TcpReceive::Extra, ReceiveStep::Read { wait_us })
    } else {
        (
            TcpReceive::Extra,
            ReceiveStep::Done(parse_tcp_response(buf, slave_id, unit_id_in_body)),
        )
    }
}

fn tcp_after_header(
    buf: &[u8],
    slave_id: u8,
    unit_id_in_body: bool,
    now_us: u64,
    deadline_us: u64,
) -> (r: (TcpReceive, ReceiveStep))
    ensures
        (r.0, r.1@) == after_header(buf@, slave_id, unit_id_in_body, now_us, deadline_us),
{
    if buf.len() < MBAP_HEADER_SIZE {
        return (
            TcpReceive::Header,
            ReceiveStep::Done(Err(ModbusError::timeout(TCP_RECV_TIMEOUT))),
        );
    }
    if word_at(buf, 2) != 0 {
        return (
            TcpReceive::Header,
            ReceiveStep::Done(Err(ModbusError::protocol("TCP: invalid Protocol ID"))),
        );
    }
    let payload: usize = word_at(buf, 4) as usize;
    if payload > MAX_TCP_ADU_SIZE {
        return (
            TcpReceive::Header,
            ReceiveStep::Done(Err(ModbusError::protocol("TCP: MBAP Length exceeds max ADU"))),
        );
    }
    match read_start(buf.len(), MBAP_PREFIX_SIZE + payload, now_us, deadline_us) {
        ReadStep::Read { wait_us } => (TcpReceive::Body, ReceiveStep::Read { wait_us }),
        _ => tcp_after_body(buf, slave_id, unit_id_in_body, now_us, deadline_us),
    }
}

/// Start waiting for a response, or go on while its header is waited for.
pub fn tcp_receive_header(
    step: ReadStep,
    buf: &[u8],
    slave_id: u8,
    unit_id_in_body: bool,
    now_us: u64,
    deadline_us: u64,
) -> (r: (TcpReceive, ReceiveStep))
    ensures
        (r.0, r.1@) == receive_goal(
            step@,
            buf@,
            slave_id,
            unit_id_in_body,
            now_us,
            deadline_us,
        ),
{
    match step {
        ReadStep::Read { wait_us } => (TcpReceive::Header, ReceiveStep::Read { wait_us }),
        ReadStep::Failed(e) => (TcpReceive::Header, ReceiveStep::Done(Err(e))),
        ReadStep::Ready => tcp_after_header(buf, slave_id, unit_id_in_body, now_us, deadline_us),
    }
}

/// Go on waiting for a response, after a read that ended at `now_us`.
pub fn tcp_receive(
    phase: TcpReceive,
    event: ReadEvent,
    buf: &[u8],
    slave_id: u8,
    unit_id_in_body: bool,
    now_us: u64,
    deadline_us: u64,
) -> (r: (TcpReceive, ReceiveStep))
    requires
        phase is Header || buf@.len() >= MBAP_HEADER_SIZE,
    ensures
        (r.0, r.1@) == receive_next(
            phase,
            event,
            buf@,
            slave_id,
            unit_id_in_body,
            now_us,
            deadline_us,
        ),
{
    match phase {
        TcpReceive::Header => tcp_receive_header(
            read_at_least(event, buf.len(), MBAP_HEADER_SIZE, now_us, deadline_us),
            buf,
            slave_id,
            unit_id_in_body,
            now_us,
            deadline_us,
        ),
        TcpReceive::Body => {
            let payload: usize = word_at(buf, 4) as usize;
            match read_at_least(
                event,
                buf.len(),
                MBAP_PREFIX_SIZE + payload,
                now_us,
                deadline_us,
            ) {
                ReadStep::Read { wait_us } => (TcpReceive::Body, ReceiveStep::Read { wait_us }),
                ReadStep::Failed(e) => (TcpReceive::Body, ReceiveStep::Done(Err(e))),
                ReadStep::Ready => tcp_after_body(
                    buf,
                    slave_id,
                    unit_id_in_body,
                    now_us,
                    deadline_us,
                ),
            }
        },
        TcpReceive::Extra => (
            TcpReceive::Extra,
            ReceiveStep::Done(parse_tcp_response(buf, slave_id, unit_id_in_body)),
        ),
    }
}

} // verus!
