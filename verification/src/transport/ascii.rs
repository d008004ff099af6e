//! Modbus ASCII: frames as lines of hexadecimal digits, with an LRC.

use std::sync::Arc;

use bytes::Bytes;
use vstd::prelude::*;

use super::rtu;
use super::rtu::{decode_response_pdu, slave_mismatch};
use super::send_recv::{ReadEvent, ReceiveStep, ReceiveStepView};
use crate::bus_timing::BusTiming;
use crate::client;
use crate::codec;
use crate::codec::{ASCII_START, CR, LF};
use crate::error::{ErrorView, ModbusError};
use crate::frame::{Response, ResponseView};
use crate::time::Micros;

verus! {

// ── Hexadecimal ─────────────────────────────────────────────────────────

/// A character that is no hexadecimal digit.
#[derive(Debug, Clone, Copy, PartialEq, Eq, Structural)]
pub struct InvalidHex;

/// The value of a hexadecimal digit, in upper or lower case.
pub open spec fn nibble_value(c: u8) -> Option<u8> {
    if 0x30 <= c <= 0x39 {
        Some((c - 0x30) as u8)
    } else if 0x41 <= c <= 0x46 {
        Some((c - 0x37) as u8)
    } else if 0x61 <= c <= 0x66 {
        Some((c - 0x57) as u8)
    } else {
        None
    }
}

/// The byte that two hexadecimal digits stand for.
pub open spec fn hex_value(hi: u8, lo: u8) -> Option<u8> {
    match (nibble_value(hi), nibble_value(lo)) {
        (Some(h), Some(l)) => Some((h * 16 + l) as u8),
        _ => None,
    }
}

fn nibble(c: u8) -> (r: Option<u8>)
    ensures
        r == nibble_value(c),
        r matches Some(v) ==> v < 16,
{
    if c >= 0x30 && c <= 0x39 {
        Some(c - 0x30)
    } else if c >= 0x41 && c <= 0x46 {
        Some(c - 0x37)
    } else if c >= 0x61 && c <= 0x66 {
        Some(c - 0x57)
    } else {
        None
    }
}

/// The byte that two hexadecimal digits stand for.
pub fn hex_decode_byte(hi: u8, lo: u8) -> (r: Result<u8, InvalidHex>)
    ensures
        match hex_value(hi, lo) {
            Some(b) => r == Ok::<u8, InvalidHex>(b),
            None => r == Err::<u8, InvalidHex>(InvalidHex),
        },
{
    match (nibble(hi), nibble(lo)) {
        (Some(h), Some(l)) => Ok(h * 16 + l),
        _ => Err(InvalidHex),
    }
}

// ── Lines ───────────────────────────────────────────────────────────────

/// Whether every pair of characters is a pair of hexadecimal digits.
pub open spec fn all_hex(chars: Seq<u8>) -> bool {
    chars.len() % 2 == 0 && forall|i: int|
        0 <= i < chars.len() / 2 ==> (#[trigger] hex_value(chars[2 * i], chars[2 * i + 1])) is Some
}

/// The bytes that hexadecimal digits stand for.
pub open spec fn unhex(chars: Seq<u8>) -> Seq<u8> {
    Seq::new(chars.len() / 2, |i: int| hex_value(chars[2 * i], chars[2 * i + 1])->0)
}

/// The data of a line without its end, if the line is a frame: a colon, then in
/// hexadecimal at least a slave address and a function code, and their LRC.
#[verifier::opaque]
pub open spec fn line_data(line: Seq<u8>) -> Option<Seq<u8>> {
    if line.len() >= 1 && line[0] == ASCII_START && all_hex(line.skip(1)) {
        let bytes = unhex(line.skip(1));
        if bytes.len() >= 3 && bytes.last() == codec::lrc(bytes.drop_last()) {
            Some(bytes.drop_last())
        } else {
            None
        }
    } else {
        None
    }
}

/// Where the first line end at or behind `from` stands.
pub open spec fn line_end(buf: Seq<u8>, from: int) -> Option<int>
    decreases buf.len() - from,
{
    if from < 0 || from + 1 >= buf.len() {
        None
    } else if buf[from] == CR && buf[from + 1] == LF {
        Some(from)
    } else {
        line_end(buf, from + 1)
    }
}

/// A line end stands where it was looked for, or behind that.
pub proof fn lemma_line_end(buf: Seq<u8>, from: int)
    requires
        0 <= from,
    ensures
        line_end(buf, from) matches Some(end) ==> {
            &&& from <= end < buf.len() - 1
            &&& buf[end] == CR
            &&& buf[end + 1] == LF
            &&& forall|i: int| from <= i < end ==> !(#[trigger] buf[i] == CR && buf[i + 1] == LF)
        },
    decreases buf.len() - from,
{
    if from + 1 < buf.len() && !(buf[from] == CR && buf[from + 1] == LF) {
        lemma_line_end(buf, from + 1);
    }
}

/// The first frame at or behind `from`: slave address, PDU, and where the next
/// line starts. Lines that are no frames are skipped.
pub open spec fn scan(buf: Seq<u8>, from: int) -> Option<rtu::FrameView>
    decreases buf.len() - from,
    when 0 <= from
    via scan_decreases
{
    match line_end(buf, from) {
        None => None,
        Some(end) => match line_data(buf.subrange(from, end)) {
            Some(data) => Some((data[0], data.skip(1), end + 2)),
            None => scan(buf, end + 2),
        },
    }
}

#[via_fn]
proof fn scan_decreases(buf: Seq<u8>, from: int) {
    lemma_line_end(buf, from);
}

/// Find the first line end at or behind `from`.
fn find_line_end(buf: &[u8], from: usize) -> (r: Option<usize>)
    ensures
        match line_end(buf@, from as int) {
            Some(end) => r is Some && r->0 == end && from <= end < buf@.len() - 1,
            None => r is None,
        },
{
    proof {
        lemma_line_end(buf@, from as int);
    }
    let mut i: usize = from;
    while i < buf.len() && buf.len() - i >= 2
        invariant
            from <= i,
            line_end(buf@, from as int) == line_end(buf@, i as int),
            line_end(buf@, from as int) matches Some(end) ==> from <= end < buf@.len() - 1,
        decreases buf@.len() - i,
    {
        if buf[i] == CR && buf[i + 1] == LF {
            return Some(i);
        }
        i = i + 1;
    }
    None
}

/// Decode the characters behind the colon of a line.
fn decode_hex(chars: &[u8]) -> (r: Option<Vec<u8>>)
    ensures
        match r {
            Some(bytes) => all_hex(chars@) && bytes@ == unhex(chars@),
            None => !all_hex(chars@),
        },
{
    if chars.len() % 2 != 0 {
        return None;
    }
    let n: usize = chars.len() / 2;
    let mut bytes: Vec<u8> = Vec::new();
    let mut i: usize = 0;
    while i < n
        invariant
            i <= n,
            n == chars@.len() / 2,
            chars@.len() % 2 == 0,
            2 * n <= usize::MAX,
            bytes@.len() == i,
            forall|k: int|
                0 <= k < i ==> (#[trigger] hex_value(chars@[2 * k], chars@[2 * k + 1])) is Some,
            forall|k: int|
                0 <= k < i ==> #[trigger] bytes@[k] == hex_value(
                    chars@[2 * k],
                    chars@[2 * k + 1],
                )->0,
        decreases n - i,
    {
        match hex_decode_byte(chars[2 * i], chars[2 * i + 1]) {
            Ok(b) => bytes.push(b),
            Err(_) => {
                assert(hex_value(chars@[2 * (i as int)], chars@[2 * (i as int) + 1]) is None);
                return None;
            },
        }
        i = i + 1;
    }
    assert(bytes@ =~= unhex(chars@));
    Some(bytes)
}

/// The data of a line without its end, if the line is a frame.
fn decode_line(line: &[u8]) -> (r: Option<Vec<u8>>)
    ensures
        match line_data(line@) {
            Some(data) => r is Some && r->0@ == data,
            None => r is None,
        },
        r matches Some(data) ==> data@.len() >= 2,
{
    reveal(line_data);
    if line.len() == 0 || line[0] != ASCII_START {
        return None;
    }
    let chars = vstd::slice::slice_subrange(line, 1, line.len());
    assert(chars@ =~= line@.skip(1));
    match decode_hex(chars) {
        None => None,
        Some(bytes) => {
            let mut data = bytes;
            if data.len() < 3 {
                return None;
            }
            match data.pop() {
                None => None,
                Some(lrc_byte) => {
                    assert(data@ =~= unhex(chars@).drop_last());
                    if lrc_byte == codec::calculate_lrc(data.as_slice()) {
                        Some(data)
                    } else {
                        None
                    }
                },
            }
        },
    }
}

/// The first frame of a buffer: slave address, PDU, and how many bytes of the
/// buffer are done with then. Lines that are no frames are skipped, and count
/// as done with.
pub fn try_parse_ascii(buf: &[u8]) -> (r: Option<(u8, Bytes, usize)>)
    ensures
        rtu::frame_view(r) == scan(buf@, 0),
{
    let len: usize = buf.len();
    let mut offset: usize = 0;
    loop
        invariant
            len == buf@.len(),
            offset <= len,
            scan(buf@, 0) == scan(buf@, offset as int),
        decreases buf@.len() - offset,
    {
        match find_line_end(buf, offset) {
            None => return None,
            Some(end) => {
                let line = vstd::slice::slice_subrange(buf, offset, end);
                match decode_line(line) {
                    Some(data) => {
                        let pdu = vstd::slice::slice_subrange(data.as_slice(), 1, data.len());
                        assert(pdu@ =~= data@.skip(1));
                        return Some((data[0], Bytes::copy_from_slice(pdu), end + 2));
                    },
                    None => {},
                }
                offset = end + 2;
            },
        }
    }
}

// ── Responses ───────────────────────────────────────────────────────────

/// What a client makes of the bytes that it received, if a frame is among them.
pub open spec fn parse_response(buf: Seq<u8>, slave_id: u8) -> Option<
    Result<ResponseView, ErrorView>,
> {
    match scan(buf, 0) {
        None => None,
        Some((slave, pdu, _)) => Some(
            if slave != slave_id {
                Err(rtu::mismatch(slave_id, slave))
            } else {
                rtu::decoded(pdu)
            },
        ),
    }
}

/// The response in the bytes that a client received, if a frame is among them:
/// the response, or an error where another slave answered or the PDU does not
/// decode.
pub fn try_parse_ascii_response(buf: &[u8], slave_id: u8) -> (r: Option<
    Result<Response, ModbusError>,
>)
    ensures
        match parse_response(buf@, slave_id) {
            Some(v) => r is Some && client::reply_view(r->0) == v,
            None => r is None,
        },
{
    match try_parse_ascii(buf) {
        None => None,
        Some((rsp_slave, pdu, _)) => {
            if rsp_slave != slave_id {
                return Some(Err(slave_mismatch(slave_id, rsp_slave)));
            }
            Some(decode_response_pdu(pdu))
        },
    }
}

// ── Receiving ───────────────────────────────────────────────────────────

/// What is made of the bytes at the deadline.
pub open spec fn receive_last(buf: Seq<u8>, slave_id: u8) -> Result<ResponseView, ErrorView> {
    match parse_response(buf, slave_id) {
        Some(r) => r,
        None => Err(ErrorView::Timeout("ASCII_RECV_TIMEOUT"@)),
    }
}

/// Whether to wait for more.
pub open spec fn receive_goal(
    buf: Seq<u8>,
    slave_id: u8,
    now_us: u64,
    deadline_us: u64,
) -> ReceiveStepView {
    if now_us >= deadline_us {
        ReceiveStepView::Done(receive_last(buf, slave_id))
    } else {
        ReceiveStepView::Read { wait_us: (deadline_us - now_us) as u64 }
    }
}

/// What follows a read, with `buf` received so far. The first frame that is
/// complete ends the transaction.
pub open spec fn receive_next(
    event: ReadEvent,
    buf: Seq<u8>,
    slave_id: u8,
    now_us: u64,
    deadline_us: u64,
) -> ReceiveStepView {
    match event {
        ReadEvent::Closed => ReceiveStepView::Done(
            Err(ErrorView::Connection("connection closed"@)),
        ),
        ReadEvent::Failed(e) => ReceiveStepView::Done(Err(e@)),
        ReadEvent::Elapsed => ReceiveStepView::Done(receive_last(buf, slave_id)),
        ReadEvent::Data => match parse_response(buf, slave_id) {
            Some(r) => ReceiveStepView::Done(r),
            None => receive_goal(buf, slave_id, now_us, deadline_us),
        },
    }
}

fn last_response(buf: &[u8], slave_id: u8) -> (r: Result<Response, ModbusError>)
    ensures
        client::reply_view(r) == receive_last(buf@, slave_id),
{
    match try_parse_ascii_response(buf, slave_id) {
        Some(r) => r,
        None => Err(ModbusError::timeout("ASCII_RECV_TIMEOUT")),
    }
}

/// Start waiting for a response.
pub fn ascii_receive_start(buf: &[u8], slave_id: u8, now_us: u64, deadline_us: u64) -> (r:
    ReceiveStep)
    ensures
        r@ == receive_goal(buf@, slave_id, now_us, deadline_us),
{
    if now_us >= deadline_us {
        ReceiveStep::Done(last_response(buf, slave_id))
    } else {
        ReceiveStep::Read { wait_us: deadline_us - now_us }
    }
}

/// Go on waiting for a response, after a read that ended at `now_us`.
pub fn ascii_receive(
    event: ReadEvent,
    buf: &[u8],
    slave_id: u8,
    now_us: u64,
    deadline_us: u64,
) -> (r: ReceiveStep)
    ensures
        r@ == receive_next(event, buf@, slave_id, now_us, deadline_us),
{
    match event {
        ReadEvent::Closed => ReceiveStep::Done(Err(ModbusError::connection("connection closed"))),
        ReadEvent::Failed(e) => ReceiveStep::Done(Err(e)),
        ReadEvent::Elapsed => ReceiveStep::Done(last_response(buf, slave_id)),
        ReadEvent::Data => match try_parse_ascii_response(buf, slave_id) {
            Some(r) => ReceiveStep::Done(r),
            None => ascii_receive_start(buf, slave_id, now_us, deadline_us),
        },
    }
}

// ── Server ──────────────────────────────────────────────────────────────

/// The silence after which an unfinished line is dropped, where nothing else says
/// so.
pub const DEFAULT_ASCII_SERVER_TIMEOUT_US: u64 = 100_000;

/// An ASCII server on a byte transport.
pub struct AsciiServer<T> {
    transport: T,
    bus_timing: Option<Arc<BusTiming>>,
    read_timeout: Option<Micros>,
}

impl<T> AsciiServer<T> {
    /// The byte transport.
    pub closed spec fn line(self) -> T {
        self.transport
    }

    /// The bus timing that the server keeps, if any.
    pub closed spec fn timing(self) -> Option<Arc<BusTiming>> {
        self.bus_timing
    }

    /// The read timeout that was asked for, if any.
    pub closed spec fn asked_timeout(self) -> Option<Micros> {
        self.read_timeout
    }

    /// The silence after which an unfinished line is dropped: what was asked for,
    /// or else the spacing of the bus timing, or else 100 ms.
    pub open spec fn frame_timeout(self) -> Micros {
        match (self.asked_timeout(), self.timing()) {
            (Some(t), _) => t,
            (None, Some(timing)) => Micros(timing.spacing_us()),
            (None, None) => Micros(DEFAULT_ASCII_SERVER_TIMEOUT_US),
        }
    }

    /// A server on the given transport.
    pub fn new(transport: T) -> (r: Self)
        ensures
            r.line() == transport,
            r.timing() is None,
            r.asked_timeout() is None,
    {
        AsciiServer { transport, bus_timing: None, read_timeout: None }
    }

    /// Keep a bus timing.
    pub fn with_bus_timing(self, timing: Arc<BusTiming>) -> (r: Self)
        ensures
            r.line() == self.line(),
            r.timing() == Some(timing),
            r.asked_timeout() == self.asked_timeout(),
    {
        AsciiServer {
            transport: self.transport,
            bus_timing: Some(timing),
            read_timeout: self.read_timeout,
        }
    }

    /// Set the silence after which an unfinished line is dropped.
    pub fn with_read_timeout(self, timeout: Micros) -> (r: Self)
        ensures
            r.line() == self.line(),
            r.timing() == self.timing(),
            r.asked_timeout() == Some(timeout),
    {
        AsciiServer {
            transport: self.transport,
            bus_timing: self.bus_timing,
            read_timeout: Some(timeout),
        }
    }

    /// The silence after which an unfinished line is dropped.
    pub fn read_timeout(&self) -> (r: Micros)
        ensures
            r == self.frame_timeout(),
    {
        match self.read_timeout {
            Some(t) => t,
            None => match &self.bus_timing {
                Some(timing) => timing.min_spacing(),
                None => Micros::from_micros(DEFAULT_ASCII_SERVER_TIMEOUT_US),
            },
        }
    }

    /// Take the server apart: transport and bus timing.
    pub fn into_parts(self) -> (r: (T, Option<Arc<BusTiming>>))
        ensures
            r.0 == self.line(),
            r.1 == self.timing(),
    {
        (self.transport, self.bus_timing)
    }
}

} // verus!
