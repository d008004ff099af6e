//! What the frames of each transport hold, and what is read from received bytes.

use std::sync::Arc;

use bytes::Bytes;
use vstd::prelude::*;

use super::ascii;
use super::ascii::{AsciiServer, DEFAULT_ASCII_SERVER_TIMEOUT_US};
use super::rtu;
use super::rtu::{RtuServer, DEFAULT_RTU_T35_US};
use super::send_recv;
use super::send_recv::{ReadEvent, ReadStepView, ReceiveStepView};
use super::tcp;
use super::tcp::{LengthMode, TcpConfig, TcpReceive, EXTRA_WAIT_US, MAX_TCP_BUF_BYTES};
use crate::buffer;
use crate::bus_timing::BusTiming;
use crate::codec;
use crate::error::{ErrorView, ModbusError};
use crate::frame::{RequestView, ResponseView};
use crate::text;
use crate::time::Micros;

verus! {

/// The sizes and times that framing goes by.
pub proof fn law_sizes()
    ensures
        super::MAX_ADU_SIZE == 256,
        super::MAX_PDU_SIZE == 253,
        super::CRC_SIZE == 2,
        super::MIN_RTU_FRAME == 5,
        super::MBAP_HEADER_SIZE == 7,
        super::MBAP_PREFIX_SIZE == 6,
        super::MAX_TCP_ADU_SIZE == 260,
        MAX_TCP_BUF_BYTES == 1040,
        EXTRA_WAIT_US == 200_000,
        DEFAULT_RTU_T35_US == 5_000,
        DEFAULT_ASCII_SERVER_TIMEOUT_US == 100_000,
{
}

// ── TCP ─────────────────────────────────────────────────────────────────

/// A TCP frame is the transaction, a zero word, the length of what follows, the unit,
/// and the PDU. Where the configuration asks for it, the unit stands once more before
/// the PDU. Data are the unit and the PDU; without any, the unit is 1.
pub proof fn law_tcp_frame(data: Seq<u8>, config: TcpConfig, tid: u16)
    requires
        tcp::length_field(data, config) <= 65535,
    ensures
        ({
            let f = tcp::tcp_frame(data, config, tid);
            let unit = if data.len() == 0 {
                1
            } else {
                data[0]
            };
            let behind = if data.len() == 0 && config.unit_id_in_body {
                seq![1u8]
            } else if data.len() == 0 || config.unit_id_in_body {
                data
            } else {
                data.skip(1)
            };
            &&& f.len() == 7 + behind.len()
            &&& 256 * f[0] + f[1] == tid
            &&& f[2] == 0
            &&& f[3] == 0
            &&& 256 * f[4] + f[5] == tcp::length_field(data, config)
            &&& f[6] == unit
            &&& f.skip(7) == behind
        }),
{
    let f = tcp::tcp_frame(data, config, tid);
    if data.len() == 0 {
        if config.unit_id_in_body {
            assert(f.skip(7) =~= seq![1u8]);
        } else {
            assert(f.skip(7) =~= data);
        }
    } else if config.unit_id_in_body {
        assert(seq![data[0]] + data.skip(1) =~= data);
        assert(f.skip(7) =~= data);
    } else {
        assert(f.skip(7) =~= data.skip(1));
    }
}

/// The length field counts the PDU, modulo 65536, and the unit for each time that it
/// stands in what is counted: in the body where the configuration puts it there, and in
/// the header except where the configuration counts the PDU alone.
pub proof fn law_tcp_length_field(data: Seq<u8>, config: TcpConfig)
    ensures
        ({
            let pdu_len = if data.len() == 0 {
                0
            } else {
                (data.len() - 1) % 65536
            };
            let in_body = if config.unit_id_in_body {
                1int
            } else {
                0
            };
            let in_header = if config.length_mode == LengthMode::Standard {
                1int
            } else {
                0
            };
            tcp::length_field(data, config) == pdu_len + in_body + in_header
        }),
{
}

/// A header is corrupt when its protocol is not zero or its length is not that of a
/// frame.
pub proof fn law_corrupt_headers(buf: Seq<u8>)
    ensures
        tcp::header_corrupt(buf) == (buf.len() >= 7 && (buf[2] != 0 || buf[3] != 0 || 256 * buf[4]
            + buf[5] == 0 || 256 * buf[4] + buf[5] > 260)),
        buf.len() >= 7 && (buf[2] != 0 || buf[3] != 0) ==> tcp::response_header_error(buf) == Some(
            ErrorView::Protocol("TCP: invalid Protocol ID"@),
        ),
        buf.len() >= 7 && buf[2] == 0 && buf[3] == 0 && 256 * buf[4] + buf[5] > 260
            ==> tcp::response_header_error(buf) == Some(
            ErrorView::Protocol("TCP: MBAP Length exceeds max ADU"@),
        ),
        buf.len() >= 7 && buf[2] == 0 && buf[3] == 0 && 256 * buf[4] + buf[5] <= 260
            ==> tcp::response_header_error(buf) is None,
{
}

/// A TCP request is looked for in the bytes behind the header that its length names,
/// counted from behind the header, or, where those are not all there, from the unit on.
pub proof fn law_tcp_requests(buf: Seq<u8>)
    ensures
        ({
            let r = tcp::parse_frame(buf);
            let n = 256 * buf[4] + buf[5];
            let tid = (256 * buf[0] + buf[1]) as u16;
            &&& buf.len() < 7 || buf[2] != 0 || buf[3] != 0 || n > 260 ==> r is None
            &&& buf.len() >= 7 && buf[2] == 0 && buf[3] == 0 && n <= 260 ==> {
                &&& n >= 1 && buf.len() >= 7 + n ==> r == tcp::extract_pdu(
                    tid,
                    buf[6],
                    buf.subrange(7, 7 + n),
                    7 + n,
                )
                &&& n >= 2 && buf.len() == 6 + n ==> r == tcp::extract_pdu(
                    tid,
                    buf[6],
                    buf.subrange(7, 6 + n),
                    6 + n,
                )
                &&& n == 0 || buf.len() < 6 + n || (n == 1 && buf.len() < 8) ==> r is None
            }
        }),
{
}

/// The unit stands once more before the PDU when it is followed by a known function
/// code and a request can be read from there on. Otherwise the PDU starts at once, if
/// its function code is known, unless it starts with the unit and no request can be
/// read from it.
pub proof fn law_tcp_request_bodies(tid: u16, unit: u8, body: Seq<u8>, consumed: int)
    requires
        body.len() >= 1,
    ensures
        ({
            let r = tcp::extract_pdu(tid, unit, body, consumed);
            let known = |b: u8|
                {
                    let c = b % 128;
                    1 <= c <= 6 || c == 8 || c == 15 || c == 16 || c == 22 || c == 23
                };
            let repeated = body.len() >= 2 && body[0] == unit && known(body[1])
                && RequestView::parse(body.skip(1)) is Ok;
            let plain = known(body[0]) && (body[0] != unit || RequestView::parse(body) is Ok);
            &&& repeated ==> r == Some((tid, unit, body.skip(1), consumed))
            &&& !repeated && plain ==> r == Some((tid, unit, body, consumed))
            &&& !repeated && !plain ==> r is None
        }),
{
}

/// A response is taken from the bytes behind the header that its length names, counted
/// from behind the header, or from the unit on. Where they are not there, it has not
/// come in time.
pub proof fn law_tcp_responses(buf: Seq<u8>, slave_id: u8, unit_id_in_body: bool)
    requires
        buf.len() >= 7,
    ensures
        ({
            let r = tcp::parse_response(buf, slave_id, unit_id_in_body);
            let n = 256 * buf[4] + buf[5];
            &&& buf.len() >= 7 + n ==> r == tcp::parse_body(
                buf.subrange(7, 7 + n),
                slave_id,
                unit_id_in_body,
            )
            &&& buf.len() == 6 + n ==> r == tcp::parse_body(
                buf.subrange(7, 6 + n),
                slave_id,
                unit_id_in_body,
            )
            &&& buf.len() < 6 + n ==> r == Err::<ResponseView, _>(
                ErrorView::Timeout("TCP recv timed out"@),
            )
        }),
{
}

/// The body of a response is its PDU. The unit before it is left out where the
/// configuration says that it is repeated and it is the unit that was asked.
pub proof fn law_tcp_response_bodies(body: Seq<u8>, slave_id: u8, unit_id_in_body: bool)
    ensures
        ({
            let r = tcp::parse_body(body, slave_id, unit_id_in_body);
            let repeated = unit_id_in_body && body.len() > 1 && body[0] == slave_id;
            &&& body.len() == 0 ==> r == Err::<ResponseView, _>(
                ErrorView::Protocol("empty TCP response PDU"@),
            )
            &&& body.len() > 0 && repeated ==> r == rtu::decoded(body.skip(1))
            &&& body.len() > 0 && !repeated ==> r == rtu::decoded(body)
        }),
        tcp::strip_unit_id(body, slave_id, unit_id_in_body) == (if unit_id_in_body && body.len() > 1
            && body[0] == slave_id {
            body.skip(1)
        } else {
            body
        }),
{
}

/// Receiving a response goes on until the body is there or time is up. Once it is there
/// by the shorter count, a little more time is given for one byte more.
pub proof fn law_tcp_receiving(
    buf: Seq<u8>,
    slave_id: u8,
    unit_id_in_body: bool,
    now_us: u64,
    deadline_us: u64,
)
    requires
        buf.len() >= 7,
    ensures
        ({
            let n = 256 * buf[4] + buf[5];
            let done = (
                TcpReceive::Extra,
                ReceiveStepView::Done(tcp::parse_response(buf, slave_id, unit_id_in_body)),
            );
            let body = tcp::after_body(buf, slave_id, unit_id_in_body, now_us, deadline_us);
            let header = tcp::after_header(buf, slave_id, unit_id_in_body, now_us, deadline_us);
            &&& buf.len() >= 7 + n || now_us >= deadline_us ==> body == done
            &&& buf.len() < 7 + n && now_us < deadline_us ==> {
                &&& body.0 is Extra
                &&& body.1 matches ReceiveStepView::Read { wait_us }
                &&& wait_us <= 200_000
                &&& now_us + wait_us <= deadline_us
                &&& wait_us == 200_000 || now_us + wait_us == deadline_us
            }
            &&& match tcp::response_header_error(buf) {
                Some(e) => header == (TcpReceive::Header, ReceiveStepView::Done(Err(e))),
                None => if buf.len() < 6 + n && now_us < deadline_us {
                    header == (
                        TcpReceive::Body,
                        (ReceiveStepView::Read { wait_us: (deadline_us - now_us) as u64 }),
                    )
                } else {
                    header == body
                },
            }
        }),
{
}

/// A header that is not all there when reading ends has not come in time.
pub proof fn law_tcp_short_header(
    buf: Seq<u8>,
    slave_id: u8,
    unit_id_in_body: bool,
    now_us: u64,
    deadline_us: u64,
)
    requires
        buf.len() < 7,
    ensures
        tcp::after_header(buf, slave_id, unit_id_in_body, now_us, deadline_us) == (
            TcpReceive::Header,
            ReceiveStepView::Done(
                Err::<ResponseView, _>(ErrorView::Timeout("TCP recv timed out"@)),
            ),
        ),
{
}

/// Seven bytes of header are read first.
pub proof fn law_tcp_receiving_the_header(
    step: ReadStepView,
    event: ReadEvent,
    buf: Seq<u8>,
    slave_id: u8,
    unit_id_in_body: bool,
    now_us: u64,
    deadline_us: u64,
)
    ensures
        tcp::receive_goal(step, buf, slave_id, unit_id_in_body, now_us, deadline_us) == (
        match step {
            ReadStepView::Read { wait_us } => (
                TcpReceive::Header,
                ReceiveStepView::Read { wait_us },
            ),
            ReadStepView::Failed(e) => (TcpReceive::Header, ReceiveStepView::Done(Err(e))),
            ReadStepView::Ready => tcp::after_header(
                buf,
                slave_id,
                unit_id_in_body,
                now_us,
                deadline_us,
            ),
        }),
        tcp::receive_next(
            TcpReceive::Header,
            event,
            buf,
            slave_id,
            unit_id_in_body,
            now_us,
            deadline_us,
        ) == tcp::receive_goal(
            send_recv::read_next(event, buf.len(), 7, now_us, deadline_us),
            buf,
            slave_id,
            unit_id_in_body,
            now_us,
            deadline_us,
        ),
{
}

/// Then the body is read, by the shorter count of its length, and once the extra time
/// has been given the response is read from what is there, whatever came.
pub proof fn law_tcp_receiving_the_body(
    event: ReadEvent,
    buf: Seq<u8>,
    slave_id: u8,
    unit_id_in_body: bool,
    now_us: u64,
    deadline_us: u64,
)
    requires
        buf.len() >= 7,
    ensures
        ({
            let needed = (6 + 256 * buf[4] + buf[5]) as nat;
            let r = tcp::receive_next(
                TcpReceive::Body,
                event,
                buf,
                slave_id,
                unit_id_in_body,
                now_us,
                deadline_us,
            );
            match send_recv::read_next(event, buf.len(), needed, now_us, deadline_us) {
                ReadStepView::Read { wait_us } => r == (
                    TcpReceive::Body,
                    (ReceiveStepView::Read { wait_us }),
                ),
                ReadStepView::Failed(e) => r == (TcpReceive::Body, ReceiveStepView::Done(Err(e))),
                ReadStepView::Ready => r == tcp::after_body(
                    buf,
                    slave_id,
                    unit_id_in_body,
                    now_us,
                    deadline_us,
                ),
            }
        }),
        tcp::receive_next(
            TcpReceive::Extra,
            event,
            buf,
            slave_id,
            unit_id_in_body,
            now_us,
            deadline_us,
        ) == (
            TcpReceive::Extra,
            ReceiveStepView::Done(tcp::parse_response(buf, slave_id, unit_id_in_body)),
        ),
{
}

/// The view of a frame that was found holds its parts.
pub proof fn law_frame_views(
    t: Option<(u16, u8, Bytes, usize)>,
    r: Option<(u8, Bytes, usize)>,
)
    ensures
        match t {
            Some((tid, unit, pdu, n)) => tcp::tcp_frame_view(t) == Some(
                (tid, unit, buffer::octets(pdu), n as int),
            ),
            None => tcp::tcp_frame_view(t) is None,
        },
        match r {
            Some((unit, pdu, n)) => rtu::frame_view(r) == Some(
                (unit, buffer::octets(pdu), n as int),
            ),
            None => rtu::frame_view(r) is None,
        },
{
}

// ── RTU ─────────────────────────────────────────────────────────────────

/// A frame is whole when its last two bytes are the checksum of the rest, the low byte
/// first.
pub proof fn law_whole_frames(f: Seq<u8>)
    ensures
        rtu::crc_ok(f) == (f.len() >= 2 && f[f.len() - 2] + 256 * f[f.len() - 1] == codec::crc16(
            f.take(f.len() - 2),
        )),
{
    if f.len() >= 2 {
        let head = f.take(f.len() - 2);
        let whole = codec::rtu_frame(head);
        if f[f.len() - 2] + 256 * f[f.len() - 1] == codec::crc16(head) {
            assert(f =~= whole);
        } else if f == whole {
            codec::laws::law_binary_frame(head);
        }
    }
}

/// A server takes a whole frame of at least five bytes with a known function code: the
/// first byte is the unit, and what stands between it and the checksum the PDU.
pub proof fn law_rtu_requests(buf: Seq<u8>)
    ensures
        ({
            let c = buf[1] % 128;
            let known = 1 <= c <= 6 || c == 8 || c == 15 || c == 16 || c == 22 || c == 23;
            rtu::parse_server_frame(buf) == (if buf.len() >= 5 && rtu::crc_ok(buf) && known {
                Some((buf[0], buf.subrange(1, buf.len() - 2), buf.len() as int))
            } else {
                None
            })
        }),
{
}

/// A response frame is refused in this order: nothing came, too little came, the
/// checksum is wrong, another unit answered, the PDU cannot be read.
pub proof fn law_rtu_responses(buf: Seq<u8>, slave_id: u8)
    ensures
        ({
            let r = rtu::parse_response(buf, slave_id);
            &&& buf.len() == 0 ==> r == Err::<ResponseView, _>(
                ErrorView::Timeout("RTU recv timed out"@),
            )
            &&& 0 < buf.len() < 5 ==> r == Err::<ResponseView, _>(
                ErrorView::Timeout(
                    "RTU short frame ("@ + text::decimal(buf.len()) + " bytes, need at least "@
                        + text::decimal(5) + ")"@,
                ),
            )
            &&& buf.len() >= 5 && !rtu::crc_ok(buf) ==> r == Err::<ResponseView, _>(
                ErrorView::Protocol("RTU CRC mismatch"@),
            )
            &&& buf.len() >= 5 && rtu::crc_ok(buf) && buf[0] != slave_id ==> r == Err::<
                ResponseView,
                _,
            >(
                ErrorView::Protocol(
                    "slave ID mismatch: expected"@ + " "@ + text::decimal(slave_id as nat)
                        + ", got "@ + text::decimal(buf[0] as nat),
                ),
            )
            &&& buf.len() >= 5 && rtu::crc_ok(buf) && buf[0] == slave_id ==> match (
                r,
                ResponseView::parse(buf.subrange(1, buf.len() - 2)),
            ) {
                (Ok(rsp), Ok(read)) => rsp == read,
                (Err(e), Err(why)) => e == ErrorView::Protocol(
                    "PDU decode:"@ + " "@ + why.message(),
                ),
                _ => false,
            }
        }),
{
}

/// A PDU is read as a response, or the reason why it cannot be is told. An answer of
/// another unit is told with both units.
pub proof fn law_response_errors(pdu: Seq<u8>, wanted: u8, got: u8)
    ensures
        match ResponseView::parse(pdu) {
            Ok(rsp) => rtu::decoded(pdu) == Ok::<_, ErrorView>(rsp),
            Err(e) => rtu::decoded(pdu) == Err::<ResponseView, _>(
                ErrorView::Protocol("PDU decode:"@ + " "@ + e.message()),
            ),
        },
        rtu::mismatch(wanted, got) == ErrorView::Protocol(
            "slave ID mismatch: expected"@ + " "@ + text::decimal(wanted as nat) + ", got "@
                + text::decimal(got as nat),
        ),
{
}

/// How long the PDU of the response to a request is, and with it the whole frame: three
/// bytes more. Where the length is not known, the shortest frame is waited for.
pub proof fn law_response_lengths(request: RequestView)
    ensures
        rtu::response_len(request) == match request {
            RequestView::ReadCoils(_, n) => Some((2 + (n + 7) / 8) as nat),
            RequestView::ReadDiscreteInputs(_, n) => Some((2 + (n + 7) / 8) as nat),
            RequestView::ReadHoldingRegisters(_, n) => Some((2 + 2 * n) as nat),
            RequestView::ReadInputRegisters(_, n) => Some((2 + 2 * n) as nat),
            RequestView::ReadWriteMultipleRegisters(_, n, _, _) => Some((2 + 2 * n) as nat),
            RequestView::WriteSingleCoil(..) => Some(5nat),
            RequestView::WriteSingleRegister(..) => Some(5nat),
            RequestView::WriteMultipleCoils(..) => Some(5nat),
            RequestView::WriteMultipleRegisters(..) => Some(5nat),
            RequestView::Diagnostic(..) => Some(5nat),
            RequestView::MaskWriteRegister(..) => Some(7nat),
            RequestView::Disconnect => None,
        },
        rtu::receive_target(request) == match rtu::response_len(request) {
            Some(n) => n + 3,
            None => 5,
        },
{
}

/// Receiving goes by the reading below it: while that reads, so does it, and when that
/// is ready, the response is read from what is there.
pub proof fn law_rtu_receiving(wait_us: u64, e: ErrorView, buf: Seq<u8>, slave_id: u8)
    ensures
        rtu::receive_step(ReadStepView::Read { wait_us }, buf, slave_id) == (
        ReceiveStepView::Read { wait_us }),
        rtu::receive_step(ReadStepView::Ready, buf, slave_id) == ReceiveStepView::Done(
            rtu::parse_response(buf, slave_id),
        ),
        rtu::receive_step(ReadStepView::Failed(e), buf, slave_id) == ReceiveStepView::Done(Err(e)),
{
}

/// A server on a line waits as long as it was asked to, else as long as the spacing of
/// its bus, else for a time of its own.
pub proof fn law_server_timeouts<T>(
    rtu_server: RtuServer<T>,
    ascii_server: AsciiServer<T>,
    asked: Micros,
    timing: Arc<BusTiming>,
)
    ensures
        rtu_server.asked_timeout() == Some(asked) ==> rtu_server.frame_timeout() == asked,
        rtu_server.asked_timeout() is None && rtu_server.timing() == Some(timing)
            ==> rtu_server.frame_timeout().0 == timing.spacing_us(),
        rtu_server.asked_timeout() is None && rtu_server.timing() is None
            ==> rtu_server.frame_timeout().0 == 5_000,
        ascii_server.asked_timeout() == Some(asked) ==> ascii_server.frame_timeout() == asked,
        ascii_server.asked_timeout() is None && ascii_server.timing() == Some(timing)
            ==> ascii_server.frame_timeout().0 == timing.spacing_us(),
        ascii_server.asked_timeout() is None && ascii_server.timing() is None
            ==> ascii_server.frame_timeout().0 == 100_000,
{
}

// ── ASCII ───────────────────────────────────────────────────────────────

/// Two hexadecimal digits of either case are a byte, and nothing else is.
pub proof fn law_hex_digit_pairs(hi: u8, lo: u8)
    ensures
        ascii::nibble_value(hi) is Some <==> 48 <= hi <= 57 || 65 <= hi <= 70 || 97 <= hi <= 102,
        48 <= hi <= 57 ==> ascii::nibble_value(hi)->0 == hi - 48,
        65 <= hi <= 70 ==> ascii::nibble_value(hi)->0 == hi - 65 + 10,
        97 <= hi <= 102 ==> ascii::nibble_value(hi)->0 == hi - 97 + 10,
        match ascii::hex_value(hi, lo) {
            Some(b) => ascii::nibble_value(hi) is Some && ascii::nibble_value(lo) is Some && b == 16
                * ascii::nibble_value(hi)->0 + ascii::nibble_value(lo)->0,
            None => ascii::nibble_value(hi) is None || ascii::nibble_value(lo) is None,
        },
{
}

/// A line holds `data` exactly when it is a colon, a pair of hexadecimal digits for
/// each byte, and a pair for the checksum that brings the sum to zero, and the data are
/// at least two bytes.
pub proof fn law_lines(line: Seq<u8>, data: Seq<u8>)
    ensures
        (ascii::line_data(line) == Some(data)) <==> {
            let n = data.len() as int;
            &&& n >= 2
            &&& line.len() == 2 * n + 3
            &&& line[0] == 58
            &&& forall|i: int|
                0 <= i < n ==> ascii::hex_value(line[1 + 2 * i], line[2 + 2 * i]) == Some(
                    #[trigger] data[i],
                )
            &&& ascii::hex_value(line[1 + 2 * n], line[2 + 2 * n]) is Some
            &&& (codec::byte_sum(data) + ascii::hex_value(line[1 + 2 * n], line[2 + 2 * n])->0)
                % 256 == 0
        },
{
    if ascii::line_data(line) == Some(data) {
        lemma_line_holds(line, data);
    }
    let n = data.len() as int;
    let sum = ascii::hex_value(line[1 + 2 * n], line[2 + 2 * n]);
    if n >= 2 && line.len() == 2 * n + 3 && line[0] == 58 && sum is Some && (codec::byte_sum(data)
        + sum->0) % 256 == 0 && (forall|i: int|
        0 <= i < n ==> ascii::hex_value(line[1 + 2 * i], line[2 + 2 * i]) == Some(
            #[trigger] data[i],
        )) {
        lemma_line_is_read(line, data, sum->0);
    }
}

/// What a line holds when data were read from it.
proof fn lemma_line_holds(line: Seq<u8>, data: Seq<u8>)
    requires
        ascii::line_data(line) == Some(data),
    ensures
        data.len() >= 2,
        line.len() == 2 * data.len() + 3,
        line[0] == 58,
        forall|i: int|
            0 <= i < data.len() ==> ascii::hex_value(line[1 + 2 * i], line[2 + 2 * i]) == Some(
                #[trigger] data[i],
            ),
        ({
            let n = data.len() as int;
            let sum = ascii::hex_value(line[1 + 2 * n], line[2 + 2 * n]);
            sum is Some && (codec::byte_sum(data) + sum->0) % 256 == 0
        }),
{
    reveal(ascii::line_data);
    let n = data.len() as int;
    let tail = line.skip(1);
    let bytes = ascii::unhex(tail);
    assert(bytes.len() == n + 1);
    assert forall|i: int| 0 <= i < n + 1 implies ascii::hex_value(line[1 + 2 * i], line[2 + 2 * i])
        == Some(#[trigger] bytes[i]) by {
        assert(tail[2 * i] == line[1 + 2 * i]);
        assert(tail[2 * i + 1] == line[2 + 2 * i]);
        assert(ascii::hex_value(tail[2 * i], tail[2 * i + 1]) is Some);
    }
    assert(forall|i: int| 0 <= i < n ==> #[trigger] data[i] == bytes[i]);
    assert(bytes[n] == codec::lrc(data));
    codec::law_lrc_complements_sum(data);
}

/// A line with data in hexadecimal digits and the right checksum is read.
proof fn lemma_line_is_read(line: Seq<u8>, data: Seq<u8>, sum: u8)
    requires
        data.len() >= 2,
        line.len() == 2 * data.len() + 3,
        line[0] == 58,
        forall|i: int|
            0 <= i < data.len() ==> ascii::hex_value(line[1 + 2 * i], line[2 + 2 * i]) == Some(
                #[trigger] data[i],
            ),
        ascii::hex_value(line[1 + 2 * data.len() as int], line[2 + 2 * data.len() as int]) == Some(sum),
        (codec::byte_sum(data) + sum) % 256 == 0,
    ensures
        ascii::line_data(line) == Some(data),
{
    let n = data.len() as int;
    let tail = line.skip(1);
    let all = data.push(sum);
    assert forall|i: int| 0 <= i < all.len() implies ascii::hex_value(tail[2 * i], tail[2 * i + 1])
        == Some(#[trigger] all[i]) by {
        assert(tail[2 * i] == line[1 + 2 * i]);
        assert(tail[2 * i + 1] == line[2 + 2 * i]);
        if i < n {
            assert(all[i] == data[i]);
        }
    }
    lemma_digits_are_read(tail, all);
    assert(all.drop_last() =~= data);
    codec::law_lrc_complements_sum(data);
    assert(codec::lrc(data) == sum);
    reveal(ascii::line_data);
}

/// Pairs of hexadecimal digits are read one by one.
proof fn lemma_digits_are_read(chars: Seq<u8>, bytes: Seq<u8>)
    requires
        chars.len() == 2 * bytes.len(),
        forall|i: int|
            0 <= i < bytes.len() ==> ascii::hex_value(chars[2 * i], chars[2 * i + 1]) == Some(
                #[trigger] bytes[i],
            ),
    ensures
        ascii::all_hex(chars),
        ascii::unhex(chars) == bytes,
{
    assert forall|i: int| 0 <= i < chars.len() / 2 implies (#[trigger] ascii::hex_value(
        chars[2 * i],
        chars[2 * i + 1],
    )) is Some by {
        let b = bytes[i];
        assert(ascii::hex_value(chars[2 * i], chars[2 * i + 1]) == Some(b));
    }
    assert(ascii::unhex(chars) =~= bytes);
}

/// A line ends at the first carriage return that a line feed follows.
pub proof fn law_line_ends(buf: Seq<u8>, from: int)
    requires
        0 <= from,
    ensures
        match ascii::line_end(buf, from) {
            Some(end) => {
                &&& from <= end
                &&& end + 1 < buf.len()
                &&& buf[end] == 13
                &&& buf[end + 1] == 10
                &&& forall|j: int| from <= j < end ==> !(#[trigger] buf[j] == 13 && buf[j + 1] == 10)
            },
            None => forall|j: int|
                from <= j < buf.len() - 1 ==> !(#[trigger] buf[j] == 13 && buf[j + 1] == 10),
        },
    decreases buf.len() - from,
{
    if from + 1 < buf.len() && !(buf[from] == 13 && buf[from + 1] == 10) {
        law_line_ends(buf, from + 1);
    }
}

/// Lines that hold nothing are passed over, and the first that holds data is the frame:
/// the unit, the PDU, and all bytes up to the end of the line.
pub proof fn law_first_line_with_data(buf: Seq<u8>, from: int)
    requires
        0 <= from,
    ensures
        match ascii::line_end(buf, from) {
            None => ascii::scan(buf, from) is None,
            Some(end) => match ascii::line_data(buf.subrange(from, end)) {
                Some(data) => ascii::scan(buf, from) == Some((data[0], data.skip(1), end + 2)),
                None => ascii::scan(buf, from) == ascii::scan(buf, end + 2),
            },
        },
{
    law_line_ends(buf, from);
}

/// A response in a line is taken from the unit that was asked. Without a line there is
/// none yet.
pub proof fn law_ascii_responses(buf: Seq<u8>, slave_id: u8)
    ensures
        match ascii::scan(buf, 0) {
            None => ascii::parse_response(buf, slave_id) is None,
            Some((unit, pdu, _)) => ascii::parse_response(buf, slave_id) == Some(
                if unit == slave_id {
                    rtu::decoded(pdu)
                } else {
                    Err(rtu::mismatch(slave_id, unit))
                },
            ),
        },
{
}

/// Receiving ends with the first response, when the deadline is there, and when the
/// connection fails. Before that it waits until the deadline.
pub proof fn law_ascii_receiving(
    buf: Seq<u8>,
    slave_id: u8,
    now_us: u64,
    deadline_us: u64,
    e: ModbusError,
)
    ensures
        ({
            let found = ascii::parse_response(buf, slave_id);
            let last = match found {
                Some(r) => r,
                None => Err(ErrorView::Timeout("ASCII_RECV_TIMEOUT"@)),
            };
            let goal = ascii::receive_goal(buf, slave_id, now_us, deadline_us);
            &&& ascii::receive_last(buf, slave_id) == last
            &&& now_us >= deadline_us ==> goal == ReceiveStepView::Done(last)
            &&& now_us < deadline_us ==> {
                &&& goal matches ReceiveStepView::Read { wait_us }
                &&& now_us + wait_us == deadline_us
            }
            &&& ascii::receive_next(ReadEvent::Data, buf, slave_id, now_us, deadline_us) == (
            match found {
                Some(r) => ReceiveStepView::Done(r),
                None => goal,
            })
            &&& ascii::receive_next(ReadEvent::Elapsed, buf, slave_id, now_us, deadline_us)
                == ReceiveStepView::Done(last)
            &&& ascii::receive_next(ReadEvent::Closed, buf, slave_id, now_us, deadline_us)
                == ReceiveStepView::Done(Err(ErrorView::Connection("connection closed"@)))
            &&& ascii::receive_next(ReadEvent::Failed(e), buf, slave_id, now_us, deadline_us)
                == ReceiveStepView::Done(Err(e@))
        }),
{
}

} // verus!
