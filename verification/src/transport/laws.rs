//! What holds of framing and parsing together.

use vstd::prelude::*;

use super::ascii;
use super::exchange::{ActionView, ExchangeView, Phase, Protocol};
use super::rtu;
use super::send_recv;
use super::send_recv::ReadEvent;
use super::serving;
use super::serving::{Front, ServeActionView, ServingView};
use super::session;
use super::tcp;
use super::tcp::TcpConfig;
use super::CRC_SIZE;
use crate::codec;
use crate::codec::crc_table;
use crate::codec::{ASCII_START, CR, LF};
use crate::error::ErrorView;
use crate::frame;
use crate::frame::decode;
use crate::frame::{PduError, RequestView, ResponseView};
use crate::slave_store::StoreState;

verus! {

// ── Checksums ───────────────────────────────────────────────────────────

/// Distinct register values stay distinct.
proof fn lemma_crc_of_byte_injective(a: u16, b: u16)
    requires
        crc_table::crc_of_byte(a) == crc_table::crc_of_byte(b),
    ensures
        a == b,
{
    assert(crc_table::crc_of_byte(a) == crc_table::crc_of_byte(b) ==> a == b) by (bit_vector);
}

/// The CRC tells two sequences apart that differ in one byte.
pub proof fn law_crc_detects_a_changed_byte(data: Seq<u8>, k: int, b: u8)
    requires
        0 <= k < data.len(),
        b != data[k],
    ensures
        codec::crc16(data.update(k, b)) != codec::crc16(data),
    decreases data.len(),
{
    let other = data.update(k, b);
    let c1 = codec::crc16(data.drop_last());
    let c2 = codec::crc16(other.drop_last());
    let b1 = data.last();
    let b2 = other.last();
    if k == data.len() - 1 {
        assert(other.drop_last() =~= data.drop_last());
    } else {
        assert(other.drop_last() =~= data.drop_last().update(k, b));
        law_crc_detects_a_changed_byte(data.drop_last(), k, b);
    }
    if codec::crc16(other) == codec::crc16(data) {
        lemma_crc_of_byte_injective(c1 ^ b1 as u16, c2 ^ b2 as u16);
        assert(c1 ^ b1 as u16 == c2 ^ b2 as u16 ==> (c1 == c2 <==> b1 == b2)) by (bit_vector);
    }
}

/// A sequence with its CRC is an RTU frame; with any one byte changed, it is
/// not.
pub proof fn law_rtu_frame_is_checked(data: Seq<u8>, k: int, b: u8)
    requires
        0 <= k < codec::rtu_frame(data).len(),
        b != codec::rtu_frame(data)[k],
    ensures
        rtu::crc_ok(codec::rtu_frame(data)),
        !rtu::crc_ok(codec::rtu_frame(data).update(k, b)),
{
    let good = codec::rtu_frame(data);
    let bad = good.update(k, b);
    assert(good.take(good.len() - CRC_SIZE) =~= data);
    if k < data.len() {
        assert(bad.take(bad.len() - CRC_SIZE) =~= data.update(k, b));
        law_crc_detects_a_changed_byte(data, k, b);
        let c1 = codec::crc16(data);
        let c2 = codec::crc16(data.update(k, b));
        if bad == codec::rtu_frame(data.update(k, b)) {
            assert(bad[data.len() as int] == (c1 % 256) as u8);
            assert(bad[data.len() as int] == (c2 % 256) as u8);
            assert(bad[data.len() as int + 1] == (c1 / 256) as u8);
            assert(bad[data.len() as int + 1] == (c2 / 256) as u8);
        }
    } else {
        assert(bad.take(bad.len() - CRC_SIZE) =~= data);
        assert(bad[k] != good[k]);
    }
}

/// The sum changes by what a byte is changed by.
proof fn lemma_sum_update(data: Seq<u8>, k: int, b: u8)
    requires
        0 <= k < data.len(),
    ensures
        codec::byte_sum(data.update(k, b)) == codec::byte_sum(data) - data[k] + b,
    decreases data.len(),
{
    let other = data.update(k, b);
    if k == data.len() - 1 {
        assert(other.drop_last() =~= data.drop_last());
    } else {
        assert(other.drop_last() =~= data.drop_last().update(k, b));
        lemma_sum_update(data.drop_last(), k, b);
    }
}

/// The LRC tells two sequences apart that differ in one byte.
pub proof fn law_lrc_detects_a_changed_byte(data: Seq<u8>, k: int, b: u8)
    requires
        0 <= k < data.len(),
        b != data[k],
    ensures
        codec::lrc(data.update(k, b)) != codec::lrc(data),
{
    lemma_sum_update(data, k, b);
}

// ── RTU ─────────────────────────────────────────────────────────────────

/// A server finds in an RTU frame what was framed.
pub proof fn law_rtu_request_round_trip(data: Seq<u8>)
    requires
        data.len() >= 3,
        frame::is_standard_code(frame::base_code(data[1])),
    ensures
        rtu::parse_server_frame(codec::rtu_frame(data)) == Some(
            (data[0], data.skip(1), codec::rtu_frame(data).len() as int),
        ),
{
    let buf = codec::rtu_frame(data);
    assert(buf.take(buf.len() - CRC_SIZE) =~= data);
    assert(buf.subrange(1, buf.len() - CRC_SIZE) =~= data.skip(1));
}

/// A client finds in an RTU frame the response that the slave sent.
pub proof fn law_rtu_response_round_trip(slave: u8, rsp: ResponseView)
    requires
        rsp.encoding_error() is None,
    ensures
        rtu::parse_response(codec::rtu_frame(seq![slave] + rsp.pdu()), slave) == Ok::<
            ResponseView,
            ErrorView,
        >(rsp.canonical()),
{
    let data = seq![slave] + rsp.pdu();
    let buf = codec::rtu_frame(data);
    assert(rsp.pdu().len() >= 2);
    assert(buf.take(buf.len() - CRC_SIZE) =~= data);
    assert(buf[0] == slave);
    assert(buf.subrange(1, buf.len() - CRC_SIZE) =~= rsp.pdu() + Seq::empty());
    frame::laws::law_response_round_trip(rsp, Seq::empty());
}

/// A client takes no response from another slave.
pub proof fn law_rtu_response_is_from_the_slave(buf: Seq<u8>, slave: u8)
    ensures
        rtu::parse_response(buf, slave) is Ok ==> buf.len() >= 5 && buf[0] == slave && rtu::crc_ok(
            buf,
        ),
{
}

/// A store answers a valid request with a PDU of the length that a client
/// expects.
pub proof fn law_expected_length_is_right(s: StoreState, request: RequestView)
    requires
        request.is_valid(),
    ensures
        match s.reply(request) {
            Ok(rsp) => rtu::response_len(request) == Some(rsp.pdu().len()),
            Err(_) => true,
        },
{
}

// ── ASCII ───────────────────────────────────────────────────────────────

proof fn lemma_hex_round_trip(data: Seq<u8>)
    ensures
        ascii::all_hex(codec::hex(data)),
        ascii::unhex(codec::hex(data)) == data,
        forall|i: int|
            0 <= i < codec::hex(data).len() ==> #[trigger] codec::hex(data)[i] != CR
                && codec::hex(data)[i] != LF,
{
    let chars = codec::hex(data);
    assert forall|i: int| 0 <= i < data.len() implies #[trigger] ascii::hex_value(
        chars[2 * i],
        chars[2 * i + 1],
    ) == Some(data[i]) by {
        assert(chars[2 * i] == codec::hex_char(data[i] as int / 16));
        assert(chars[2 * i + 1] == codec::hex_char(data[i] as int % 16));
    }
    assert forall|i: int| 0 <= i < chars.len() / 2 implies (#[trigger] ascii::hex_value(
        chars[2 * i],
        chars[2 * i + 1],
    )) is Some by {}
    assert forall|i: int| 0 <= i < data.len() implies ascii::unhex(chars)[i] == data[i] by {
        assert(ascii::hex_value(chars[2 * i], chars[2 * i + 1]) == Some(data[i]));
    }
    assert(ascii::unhex(chars) =~= data);
}

/// The first line end is the one that nothing precedes.
proof fn lemma_first_line_end(buf: Seq<u8>, from: int, end: int)
    requires
        0 <= from <= end < buf.len() - 1,
        buf[end] == CR,
        buf[end + 1] == LF,
        forall|i: int| from <= i < end ==> !(#[trigger] buf[i] == CR && buf[i + 1] == LF),
    ensures
        ascii::line_end(buf, from) == Some(end),
    decreases end - from,
{
    if from < end {
        assert(!(buf[from] == CR && buf[from + 1] == LF));
        lemma_first_line_end(buf, from + 1, end);
    }
}

/// The line of an ASCII frame holds what was framed.
proof fn lemma_line_of_frame(data: Seq<u8>)
    requires
        data.len() >= 2,
    ensures
        ascii::line_data(seq![ASCII_START] + codec::hex(data.push(codec::lrc(data)))) == Some(data),
{
    reveal(ascii::line_data);
    let full = data.push(codec::lrc(data));
    let line = seq![ASCII_START] + codec::hex(full);
    lemma_hex_round_trip(full);
    assert(line.skip(1) =~= codec::hex(full));
    assert(full.drop_last() =~= data);
}

/// The first line of an ASCII frame ends where the frame does.
proof fn lemma_frame_line_end(data: Seq<u8>, rest: Seq<u8>)
    ensures
        ascii::line_end(codec::ascii_frame(data) + rest, 0) == Some(
            codec::ascii_frame(data).len() - 2,
        ),
{
    let chars = codec::hex(data.push(codec::lrc(data)));
    let buf = codec::ascii_frame(data) + rest;
    let end = 1 + chars.len() as int;
    assert forall|i: int| 0 <= i < end implies #[trigger] buf[i] != CR by {
        if i > 0 {
            lemma_hex_round_trip(data.push(codec::lrc(data)));
            assert(buf[i] == chars[i - 1]);
        }
    }
    assert(buf[end] == CR);
    assert(buf[end + 1] == LF);
    lemma_first_line_end(buf, 0, end);
}

/// Whoever reads an ASCII frame finds what was framed, whatever follows it.
pub proof fn law_ascii_frame_round_trip(data: Seq<u8>, rest: Seq<u8>)
    requires
        data.len() >= 2,
    ensures
        ascii::scan(codec::ascii_frame(data) + rest, 0) == Some(
            (data[0], data.skip(1), codec::ascii_frame(data).len() as int),
        ),
{
    let buf = codec::ascii_frame(data) + rest;
    let end = codec::ascii_frame(data).len() - 2;
    lemma_frame_line_end(data, rest);
    lemma_line_of_frame(data);
    assert(buf.subrange(0, end) =~= seq![ASCII_START] + codec::hex(data.push(codec::lrc(data))));
}

proof fn lemma_line_end_shift(pre: Seq<u8>, rest: Seq<u8>, from: int)
    requires
        0 <= from,
    ensures
        ascii::line_end(pre + rest, pre.len() + from) == match ascii::line_end(rest, from) {
            Some(end) => Some(pre.len() + end),
            None => None::<int>,
        },
    decreases rest.len() - from,
{
    let buf = pre + rest;
    if from + 1 < rest.len() {
        assert(buf[pre.len() + from] == rest[from]);
        assert(buf[pre.len() + from + 1] == rest[from + 1]);
        lemma_line_end_shift(pre, rest, from + 1);
        assert(pre.len() + from + 1 == pre.len() + (from + 1));
    }
}

proof fn lemma_scan_shift(pre: Seq<u8>, rest: Seq<u8>, from: int)
    requires
        0 <= from,
    ensures
        ascii::scan(pre + rest, pre.len() + from) == match ascii::scan(rest, from) {
            Some((slave, pdu, consumed)) => Some((slave, pdu, pre.len() + consumed)),
            None => None::<rtu::FrameView>,
        },
    decreases rest.len() - from,
{
    let buf = pre + rest;
    lemma_line_end_shift(pre, rest, from);
    ascii::lemma_line_end(rest, from);
    if let Some(end) = ascii::line_end(rest, from) {
        assert(buf.subrange(pre.len() + from, pre.len() + end) =~= rest.subrange(from, end));
        lemma_scan_shift(pre, rest, end + 2);
        assert(pre.len() + end + 2 == pre.len() + (end + 2));
    }
}

/// A line that is no frame is skipped: what is found is what stands behind it,
/// and the line counts as done with.
pub proof fn law_ascii_garbage_is_skipped(line: Seq<u8>, rest: Seq<u8>)
    requires
        ascii::line_data(line) is None,
        forall|i: int|
            0 <= i < line.len() - 1 ==> !(#[trigger] line[i] == CR && line[i + 1] == LF),
    ensures
        ascii::scan(line + seq![CR, LF] + rest, 0) == match ascii::scan(rest, 0) {
            Some((slave, pdu, consumed)) => Some((slave, pdu, line.len() + 2 + consumed)),
            None => None::<rtu::FrameView>,
        },
{
    let pre = line + seq![CR, LF];
    let buf = pre + rest;
    let end = line.len() as int;
    assert forall|i: int| 0 <= i < end implies !(#[trigger] buf[i] == CR && buf[i + 1] == LF) by {
        assert(buf[i] == line[i]);
        if i + 1 < end {
            assert(buf[i + 1] == line[i + 1]);
        } else {
            assert(buf[i + 1] == CR);
        }
    }
    assert(buf[end] == CR && buf[end + 1] == LF);
    lemma_first_line_end(buf, 0, end);
    assert(buf.subrange(0, end) =~= line);
    lemma_scan_shift(pre, rest, 0);
}

/// A client finds in an ASCII frame the response that the slave sent.
pub proof fn law_ascii_response_round_trip(slave: u8, rsp: ResponseView, rest: Seq<u8>)
    requires
        rsp.encoding_error() is None,
    ensures
        ascii::parse_response(codec::ascii_frame(seq![slave] + rsp.pdu()) + rest, slave) == Some(
            Ok::<ResponseView, ErrorView>(rsp.canonical()),
        ),
{
    let data = seq![slave] + rsp.pdu();
    assert(rsp.pdu().len() >= 2);
    law_ascii_frame_round_trip(data, rest);
    assert(data.skip(1) =~= rsp.pdu() + Seq::empty());
    frame::laws::law_response_round_trip(rsp, Seq::empty());
}

// ── TCP ─────────────────────────────────────────────────────────────────

/// Whether a PDU is the wire form of a request.
#[verifier::opaque]
spec fn stands_for(pdu: Seq<u8>, request: RequestView) -> bool {
    RequestView::parse(pdu) == Ok::<RequestView, PduError>(request)
}

/// A PDU that might be mistaken for a unit identifier with a request behind it.
#[verifier::opaque]
pub open spec fn is_ambiguous(unit_id: u8, pdu: Seq<u8>) -> bool {
    pdu[0] == unit_id && frame::is_standard_code(frame::base_code(pdu[1])) && RequestView::parse(
        pdu.skip(1),
    ) is Ok
}

/// Where the parts of a TCP frame stand.
proof fn lemma_tcp_layout(slave: u8, pdu: Seq<u8>, config: TcpConfig, tid: u16)
    requires
        1 <= pdu.len() <= 253,
    ensures
        ({
            let data = seq![slave] + pdu;
            let buf = tcp::tcp_frame(data, config, tid);
            let body = tcp::body_of(data, config);
            &&& buf.len() == 7 + body.len()
            &&& decode::word(buf, 0) == tid
            &&& decode::word(buf, 2) == 0
            &&& tcp::payload_len(buf) == body.len() + (if config.length_mode is Standard {
                1int
            } else {
                0
            })
            &&& buf[6] == slave
            &&& buf.subrange(7, buf.len() as int) == body
            &&& body == if config.unit_id_in_body {
                seq![slave] + pdu
            } else {
                pdu
            }
        }),
{
    let data = seq![slave] + pdu;
    let buf = tcp::tcp_frame(data, config, tid);
    let body = tcp::body_of(data, config);
    assert(data.skip(1) =~= pdu);
    assert(buf.subrange(7, buf.len() as int) =~= body);
}

proof fn lemma_tcp_round_trip(slave: u8, pdu: Seq<u8>, config: TcpConfig, tid: u16)
    requires
        2 <= pdu.len() <= 253,
        frame::is_standard_code(frame::base_code(pdu[0])),
        exists|request: RequestView| stands_for(pdu, request),
        config.unit_id_in_body || !is_ambiguous(slave, pdu),
    ensures
        ({
            let buf = tcp::tcp_frame(seq![slave] + pdu, config, tid);
            tcp::parse_frame(buf) == Some((tid, slave, pdu, buf.len() as int))
        }),
{
    reveal(stands_for);
    reveal(is_ambiguous);
    let buf = tcp::tcp_frame(seq![slave] + pdu, config, tid);
    let body = tcp::body_of(seq![slave] + pdu, config);
    lemma_tcp_layout(slave, pdu, config, tid);
    assert(tcp::parse_frame(buf) == tcp::extract_pdu(tid, slave, body, buf.len() as int));
    if config.unit_id_in_body {
        assert(body.skip(1) =~= pdu);
        assert(body[1] == pdu[0]);
    }
}

/// A server finds in a stream that holds one TCP frame the request that was
/// framed, with either length field and either place of the unit identifier.
///
/// With the unit identifier in the header alone, the function code and the unit
/// identifier must not be such that the request reads as another one behind a
/// unit identifier.
#[verifier::rlimit(40)]
#[verifier::spinoff_prover]
pub proof fn law_tcp_request_round_trip(
    slave: u8,
    request: RequestView,
    config: TcpConfig,
    tid: u16,
)
    requires
        request.is_valid(),
        request.encoding_error() is None,
        config.unit_id_in_body || !is_ambiguous(slave, request.pdu()),
    ensures
        ({
            let buf = tcp::tcp_frame(seq![slave] + request.pdu(), config, tid);
            tcp::parse_frame(buf) == Some((tid, slave, request.pdu(), buf.len() as int))
        }),
{
    frame::laws::lemma_request_pdu_shape(request);
    assert(stands_for(request.pdu(), request)) by {
        reveal(stands_for);
        frame::laws::lemma_request_parses(request);
    }
    lemma_tcp_round_trip(slave, request.pdu(), config, tid);
}

/// The header of a TCP frame that was framed from a PDU is never corrupt.
pub proof fn law_tcp_header_is_sound(data: Seq<u8>, config: TcpConfig, tid: u16)
    requires
        2 <= data.len() <= 254,
    ensures
        !tcp::header_corrupt(tcp::tcp_frame(data, config, tid)),
{
    let buf = tcp::tcp_frame(data, config, tid);
    assert(decode::word(buf, 2) == 0);
    assert(tcp::payload_len(buf) == tcp::length_field(data, config));
}

/// A client finds in a TCP frame the response that the server sent, if both
/// place the unit identifier alike.
pub proof fn law_tcp_response_round_trip(
    slave: u8,
    rsp: ResponseView,
    config: TcpConfig,
    tid: u16,
)
    requires
        rsp.encoding_error() is None,
    ensures
        ({
            let buf = tcp::tcp_frame(seq![slave] + rsp.pdu(), config, tid);
            &&& tcp::response_header_error(buf) is None
            &&& tcp::parse_response(buf, slave, config.unit_id_in_body) == Ok::<
                ResponseView,
                ErrorView,
            >(rsp.canonical())
        }),
{
    frame::laws::lemma_response_pdu_shape(rsp);
    assert(ResponseView::parse(rsp.pdu()) == Ok::<ResponseView, PduError>(rsp.canonical())) by {
        frame::laws::law_response_round_trip(rsp, Seq::empty());
        assert(rsp.pdu() + Seq::empty() =~= rsp.pdu());
    }
    lemma_tcp_response(slave, rsp.pdu(), config, tid);
}

proof fn lemma_tcp_response(slave: u8, pdu: Seq<u8>, config: TcpConfig, tid: u16)
    requires
        2 <= pdu.len() <= 253,
    ensures
        ({
            let buf = tcp::tcp_frame(seq![slave] + pdu, config, tid);
            &&& tcp::response_header_error(buf) is None
            &&& tcp::parse_response(buf, slave, config.unit_id_in_body) == rtu::decoded(pdu)
        }),
{
    let buf = tcp::tcp_frame(seq![slave] + pdu, config, tid);
    let body = tcp::body_of(seq![slave] + pdu, config);
    lemma_tcp_layout(slave, pdu, config, tid);
    assert(tcp::parse_response(buf, slave, config.unit_id_in_body) == tcp::parse_body(
        body,
        slave,
        config.unit_id_in_body,
    ));
    if config.unit_id_in_body {
        assert(body.skip(1) =~= pdu);
    }
}

// ── Client and server together ──────────────────────────────────────────

/// What a client makes of a frame that arrived as a whole.
pub open spec fn client_reads(protocol: Protocol, buf: Seq<u8>, slave: u8) -> Option<
    Result<ResponseView, ErrorView>,
> {
    match protocol {
        Protocol::Rtu => Some(rtu::parse_response(buf, slave)),
        Protocol::Ascii => ascii::parse_response(buf, slave),
        Protocol::Tcp(config) => Some(tcp::parse_response(buf, slave, config.unit_id_in_body)),
    }
}

/// Whether a server finds in what has arrived a request to the slave, and
/// nothing behind it.
pub open spec fn server_finds(
    protocol: Protocol,
    arrived: Seq<u8>,
    slave: u8,
    request: RequestView,
) -> bool {
    match session::first_frame(protocol, arrived) {
        Some((_, to, pdu, consumed)) => {
            &&& to == slave
            &&& consumed == arrived.len()
            &&& send_recv::server_request(pdu, to) == Some(request)
        },
        None => false,
    }
}

/// The response that a store gives to a request, an exception where it refuses.
pub open spec fn store_response(s: StoreState, request: RequestView) -> ResponseView {
    match s.reply(request) {
        Ok(rsp) => rsp,
        Err(e) => ResponseView::Exception(request.function_code(), e),
    }
}

/// A request that a client sends to a store behind a server is understood and
/// answered, and the client reads what the store answered, over every protocol.
///
/// Over TCP with the unit identifier in the header alone, the request must not
/// be one that reads as another request behind a unit identifier.
pub proof fn law_transaction(
    protocol: Protocol,
    slave: u8,
    request: RequestView,
    s: StoreState,
    tid: u16,
)
    requires
        slave != 0,
        request.is_valid(),
        request.encoding_error() is None,
        match protocol {
            Protocol::Tcp(config) => config.unit_id_in_body || !is_ambiguous(slave, request.pdu()),
            _ => true,
        },
    ensures
        ({
            let framing = protocol.framing_spec(tid);
            let sent = framing.frame(seq![slave] + request.pdu());
            let answer = send_recv::server_reply(slave, request.function_code(), s.reply(request));
            // The server finds the request, and nothing else.
            &&& server_finds(protocol, sent, slave, request)
            // It answers with what the store says.
            &&& answer == Some(seq![slave] + store_response(s, request).pdu())
            // The client reads that.
            &&& client_reads(protocol, framing.frame(answer->0), slave) == Some(
                Ok::<ResponseView, ErrorView>(store_response(s, request).canonical()),
            )
        }),
{
    lemma_request_is_found(protocol, slave, request, tid);
    lemma_store_is_read(protocol, slave, request, s, tid);
}

proof fn lemma_request_is_found(protocol: Protocol, slave: u8, request: RequestView, tid: u16)
    requires
        slave != 0,
        request.is_valid(),
        request.encoding_error() is None,
        match protocol {
            Protocol::Tcp(config) => config.unit_id_in_body || !is_ambiguous(slave, request.pdu()),
            _ => true,
        },
    ensures
        server_finds(
            protocol,
            protocol.framing_spec(tid).frame(seq![slave] + request.pdu()),
            slave,
            request,
        ),
{
    frame::laws::lemma_request_pdu_shape(request);
    assert(stands_for(request.pdu(), request)) by {
        reveal(stands_for);
        frame::laws::lemma_request_parses(request);
    }
    lemma_server_finds(protocol, slave, request.pdu(), request, tid);
}

proof fn lemma_store_is_read(
    protocol: Protocol,
    slave: u8,
    request: RequestView,
    s: StoreState,
    tid: u16,
)
    requires
        request.is_valid(),
    ensures
        store_response(s, request).encoding_error() is None,
        client_reads(
            protocol,
            protocol.framing_spec(tid).frame(seq![slave] + store_response(s, request).pdu()),
            slave,
        ) == Some(Ok::<ResponseView, ErrorView>(store_response(s, request).canonical())),
{
    let rsp = store_response(s, request);
    assert(rsp.encoding_error() is None) by {
        crate::slave_store::laws::law_valid_request_is_answered(s, request);
        frame::laws::law_response_within_limits_is_encodable(rsp);
    }
    lemma_client_finds(protocol, slave, rsp, tid);
}

/// A server finds the PDU in a frame of any protocol.
proof fn lemma_server_finds(
    protocol: Protocol,
    slave: u8,
    pdu: Seq<u8>,
    request: RequestView,
    tid: u16,
)
    requires
        slave != 0,
        2 <= pdu.len() <= 253,
        frame::is_standard_code(frame::base_code(pdu[0])),
        stands_for(pdu, request),
        match protocol {
            Protocol::Tcp(config) => config.unit_id_in_body || !is_ambiguous(slave, pdu),
            _ => true,
        },
    ensures
        server_finds(
            protocol,
            protocol.framing_spec(tid).frame(seq![slave] + pdu),
            slave,
            request,
        ),
{
    reveal(stands_for);
    let data = seq![slave] + pdu;
    assert(data.skip(1) =~= pdu);
    match protocol {
        Protocol::Rtu => {
            law_rtu_request_round_trip(data);
        },
        Protocol::Ascii => {
            law_ascii_frame_round_trip(data, Seq::empty());
            assert(codec::ascii_frame(data) + Seq::empty() =~= codec::ascii_frame(data));
        },
        Protocol::Tcp(config) => {
            lemma_tcp_round_trip(slave, pdu, config, tid);
        },
    }
}

/// A client finds the response in a frame of any protocol.
proof fn lemma_client_finds(protocol: Protocol, slave: u8, rsp: ResponseView, tid: u16)
    requires
        rsp.encoding_error() is None,
    ensures
        client_reads(
            protocol,
            protocol.framing_spec(tid).frame(seq![slave] + rsp.pdu()),
            slave,
        ) == Some(Ok::<ResponseView, ErrorView>(rsp.canonical())),
{
    match protocol {
        Protocol::Rtu => {
            law_rtu_response_round_trip(slave, rsp);
        },
        Protocol::Ascii => {
            law_ascii_response_round_trip(slave, rsp, Seq::empty());
            let back = codec::ascii_frame(seq![slave] + rsp.pdu());
            assert(back + Seq::empty() =~= back);
        },
        Protocol::Tcp(config) => {
            law_tcp_response_round_trip(slave, rsp, config, tid);
        },
    }
}

/// A client that sends a request over a serial line and receives the answer of
/// a store at once returns it: right away where the store does what it is
/// asked, and once the line falls silent where it refuses.
pub proof fn law_rtu_exchange(
    exchange: ExchangeView,
    s: StoreState,
    now_us: u64,
    later_us: u64,
)
    requires
        exchange.protocol is Rtu,
        exchange.request.is_valid(),
        exchange.phase is Receiving,
        exchange.received == Seq::<u8>::empty(),
        now_us < exchange.phase->deadline_us,
    ensures
        ({
            let rsp = store_response(s, exchange.request);
            let frame = codec::rtu_frame(seq![exchange.slave_id] + rsp.pdu());
            let (next, action) = exchange.after_read(ReadEvent::Data, frame, now_us);
            let done = ActionView::Done(Ok::<ResponseView, ErrorView>(rsp.canonical()));
            if s.reply(exchange.request) is Ok {
                action == done
            } else {
                action == done || next.after_read(ReadEvent::Elapsed, Seq::empty(), later_us).1
                    == done
            }
        }),
{
    let rsp = store_response(s, exchange.request);
    let frame = codec::rtu_frame(seq![exchange.slave_id] + rsp.pdu());
    assert(rsp.encoding_error() is None) by {
        crate::slave_store::laws::law_valid_request_is_answered(s, exchange.request);
        frame::laws::law_response_within_limits_is_encodable(rsp);
    }
    law_expected_length_is_right(s, exchange.request);
    law_rtu_response_round_trip(exchange.slave_id, rsp);
    assert(Seq::<u8>::empty() + frame =~= frame);
}

/// A client that waits for a response and receives the answer of a store as a
/// whole returns it, over every protocol: at once, or when nothing follows.
pub proof fn law_exchange(
    exchange: ExchangeView,
    s: StoreState,
    tid: u16,
    now_us: u64,
    later_us: u64,
)
    requires
        exchange.request.is_valid(),
        exchange.phase matches Phase::Receiving { deadline_us, tcp } && tcp is Header && now_us
            < deadline_us,
        exchange.received == Seq::<u8>::empty(),
    ensures
        ({
            let rsp = store_response(s, exchange.request);
            let frame = exchange.protocol.framing_spec(tid).frame(
                seq![exchange.slave_id] + rsp.pdu(),
            );
            let (next, action) = exchange.after_read(ReadEvent::Data, frame, now_us);
            let done = ActionView::Done(Ok::<ResponseView, ErrorView>(rsp.canonical()));
            action == done || next.after_read(ReadEvent::Elapsed, Seq::empty(), later_us).1 == done
        }),
{
    let rsp = store_response(s, exchange.request);
    assert(rsp.encoding_error() is None) by {
        crate::slave_store::laws::law_valid_request_is_answered(s, exchange.request);
        frame::laws::law_response_within_limits_is_encodable(rsp);
    }
    match exchange.protocol {
        Protocol::Rtu => {
            law_rtu_exchange(exchange, s, now_us, later_us);
        },
        Protocol::Ascii => {
            let frame = codec::ascii_frame(seq![exchange.slave_id] + rsp.pdu());
            law_ascii_response_round_trip(exchange.slave_id, rsp, Seq::empty());
            assert(frame + Seq::empty() =~= frame);
            assert(Seq::<u8>::empty() + frame =~= frame);
        },
        Protocol::Tcp(config) => {
            let frame = tcp::tcp_frame(seq![exchange.slave_id] + rsp.pdu(), config, tid);
            frame::laws::lemma_response_pdu_shape(rsp);
            lemma_tcp_layout(exchange.slave_id, rsp.pdu(), config, tid);
            law_tcp_response_round_trip(exchange.slave_id, rsp, config, tid);
            assert(Seq::<u8>::empty() + frame =~= frame);
            let after = tcp::after_header(
                frame,
                exchange.slave_id,
                config.unit_id_in_body,
                now_us,
                exchange.phase->deadline_us,
            );
            assert(exchange.after_read(ReadEvent::Data, frame, now_us)
                == exchange.after_receive(frame, exchange.phase->deadline_us, after));
        },
    }
}

/// Nothing is found in nothing.
proof fn lemma_nothing_pending(protocol: Protocol)
    ensures
        serving::front(protocol, Seq::empty()) == Front::Nothing(Seq::<u8>::empty()),
{
    reveal(serving::front);
}

/// Where a server finds a request and nothing behind it, the request is to be
/// answered, and nothing is left.
proof fn lemma_found_is_called(
    protocol: Protocol,
    arrived: Seq<u8>,
    slave: u8,
    request: RequestView,
)
    requires
        server_finds(protocol, arrived, slave, request),
    ensures
        serving::front(protocol, arrived) matches Front::Call((_, to, found), rest) && to == slave
            && found == request && rest == Seq::<u8>::empty(),
{
    reveal(serving::front);
    assert(arrived.skip(arrived.len() as int) =~= Seq::empty());
}

/// A server that a request reaches calls its service with it, writes what the
/// service answers as a frame that the client understands, and goes on reading
/// with nothing pending.
///
/// Over TCP with the unit identifier in the header alone, the request must not
/// be one that reads as another request behind a unit identifier.
pub proof fn law_serving(
    server: ServingView,
    slave: u8,
    request: RequestView,
    s: StoreState,
    tid: u16,
)
    requires
        server.phase is Reading,
        server.pending == Seq::<u8>::empty(),
        slave != 0,
        request.is_valid(),
        request.encoding_error() is None,
        match server.protocol {
            Protocol::Tcp(config) => config.unit_id_in_body || !is_ambiguous(slave, request.pdu()),
            _ => true,
        },
    ensures
        ({
            let sent = server.protocol.framing_spec(tid).frame(seq![slave] + request.pdu());
            let (calling, call) = server.after_read(ReadEvent::Data, sent);
            let (writing, write) = calling.after_answer(s.reply(request));
            let (reading, read) = writing.after_write(true);
            &&& call == ServeActionView::Call { slave_id: slave, request }
            &&& write matches ServeActionView::Write { frame, .. } && client_reads(
                server.protocol,
                frame,
                slave,
            ) == Some(Ok::<ResponseView, ErrorView>(store_response(s, request).canonical()))
            &&& reading == server
            &&& read == ServeActionView::Read { wait: None }
        }),
{
    let protocol = server.protocol;
    let sent = protocol.framing_spec(tid).frame(seq![slave] + request.pdu());
    assert(server.pending + sent =~= sent);
    lemma_request_is_found(protocol, slave, request, tid);
    lemma_found_is_called(protocol, sent, slave, request);
    lemma_nothing_pending(protocol);
    let (calling, call) = server.after_read(ReadEvent::Data, sent);
    lemma_store_is_read(protocol, slave, request, s, calling.phase->tid);
}

} // verus!
