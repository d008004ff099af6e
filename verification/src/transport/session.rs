//! The receiving side of a server: bytes go in, requests come out.
//!
//! A [`Session`] keeps what has arrived and is not yet answered. Whoever drives
//! it reads from the transport, hands over what arrived, and answers each
//! request that comes out.

use bytes::{Bytes, BytesMut};
use vstd::prelude::*;

use super::ascii;
use super::ascii::try_parse_ascii;
use super::exchange::Protocol;
use super::rtu;
use super::rtu::try_parse_server_rtu;
use super::send_recv::Framing;
use super::tcp;
use super::tcp::{is_tcp_header_corrupt, try_parse_tcp_frame, MAX_TCP_BUF_BYTES};
use crate::buffer;
use crate::buffer::{advance_held, as_slice, held_slice};
use crate::time::Micros;

verus! {

/// A request that came out of a session. The transaction identifier is 0 where
/// the protocol has none.
pub struct Incoming {
    pub tid: u16,
    pub slave_id: u8,
    pub pdu: Bytes,
}

/// The first request in what has arrived: transaction identifier, slave
/// address, PDU, and how many bytes are done with then.
pub open spec fn first_frame(protocol: Protocol, buf: Seq<u8>) -> Option<tcp::TcpFrameView> {
    match protocol {
        Protocol::Rtu => match rtu::parse_server_frame(buf) {
            Some((slave, pdu, consumed)) => Some((0u16, slave, pdu, consumed)),
            None => None,
        },
        Protocol::Ascii => match ascii::scan(buf, 0) {
            Some((slave, pdu, consumed)) => Some((0u16, slave, pdu, consumed)),
            None => None,
        },
        Protocol::Tcp(_) => tcp::parse_frame(buf),
    }
}

/// A frame takes no more bytes than there are.
pub proof fn lemma_frame_is_within(protocol: Protocol, buf: Seq<u8>)
    ensures
        match first_frame(protocol, buf) {
            Some((_, _, _, consumed)) => 0 < consumed <= buf.len(),
            None => true,
        },
{
    if protocol is Ascii {
        lemma_scan_is_within(buf, 0);
    }
}

proof fn lemma_scan_is_within(buf: Seq<u8>, from: int)
    requires
        0 <= from,
    ensures
        match ascii::scan(buf, from) {
            Some((_, _, consumed)) => from < consumed <= buf.len(),
            None => true,
        },
    decreases buf.len() - from,
{
    ascii::lemma_line_end(buf, from);
    if let Some(end) = ascii::line_end(buf, from) {
        if ascii::line_data(buf.subrange(from, end)) is None {
            lemma_scan_is_within(buf, end + 2);
        }
    }
}

/// What is kept when no request is left in what has arrived and the transport
/// is read again. A TCP stream that cannot become a frame is dropped.
pub open spec fn kept_after_data(protocol: Protocol, buf: Seq<u8>) -> Seq<u8> {
    if protocol is Tcp && (tcp::header_corrupt(buf) || buf.len() > MAX_TCP_BUF_BYTES) {
        Seq::empty()
    } else {
        buf
    }
}

/// What is kept after silence. On a serial line silence ends a frame: what is
/// no frame by then is dropped.
pub open spec fn kept_after_silence(protocol: Protocol, buf: Seq<u8>) -> Seq<u8> {
    match protocol {
        Protocol::Rtu => if rtu::parse_server_frame(buf) is None {
            Seq::empty()
        } else {
            buf
        },
        Protocol::Ascii => Seq::empty(),
        Protocol::Tcp(_) => buf,
    }
}

/// The receiving side of a server.
pub struct Session {
    protocol: Protocol,
    buf: BytesMut,
}

impl Session {
    /// The protocol that is spoken.
    pub closed spec fn speaks(self) -> Protocol {
        self.protocol
    }

    /// What has arrived and is not yet answered.
    pub closed spec fn pending(self) -> Seq<u8> {
        buffer::buffered(self.buf)
    }

    /// A session in which nothing has arrived.
    pub fn new(protocol: Protocol) -> (r: Self)
        ensures
            r.speaks() == protocol,
            r.pending() == Seq::<u8>::empty(),
    {
        Session { protocol, buf: BytesMut::new() }
    }

    /// How long to wait for more: without end where nothing is pending, and
    /// always without end over TCP; for the frame timeout otherwise.
    pub fn read_wait(&self, frame_timeout: Micros) -> (r: Option<Micros>)
        ensures
            r == if self.speaks() is Tcp || self.pending().len() == 0 {
                None::<Micros>
            } else {
                Some(frame_timeout)
            },
    {
        match self.protocol {
            Protocol::Tcp(_) => None,
            _ => if self.buf.len() == 0 {
                None
            } else {
                Some(frame_timeout)
            },
        }
    }

    /// Whether `n` more bytes can be kept.
    pub fn has_room(&self, n: usize) -> (r: bool)
        ensures
            r == (self.pending().len() + n <= isize::MAX),
    {
        let max: usize = isize::MAX as usize;
        self.buf.len() <= max && n <= max - self.buf.len()
    }

    /// Bytes arrived.
    pub fn on_data(&mut self, data: &[u8])
        requires
            old(self).pending().len() + data@.len() <= isize::MAX,
        ensures
            final(self).speaks() == old(self).speaks(),
            final(self).pending() == old(self).pending() + data@,
    {
        self.buf.extend_from_slice(data);
    }

    /// Take the next request, if one is there. Where none is, bytes that cannot
    /// become one are dropped.
    pub fn next_request(&mut self) -> (r: Option<Incoming>)
        ensures
            final(self).speaks() == old(self).speaks(),
            match first_frame(old(self).speaks(), old(self).pending()) {
                Some((tid, slave, pdu, consumed)) => {
                    &&& r is Some
                    &&& r->0.tid == tid
                    &&& r->0.slave_id == slave
                    &&& buffer::octets(r->0.pdu) == pdu
                    &&& final(self).pending() == old(self).pending().skip(consumed)
                },
                None => {
                    &&& r is None
                    &&& final(self).pending() == kept_after_data(
                        old(self).speaks(),
                        old(self).pending(),
                    )
                },
            },
    {
        proof {
            lemma_frame_is_within(self.protocol, buffer::buffered(self.buf));
        }
        let found: Option<(u16, u8, Bytes, usize)> = match self.protocol {
            Protocol::Rtu => match try_parse_server_rtu(held_slice(&self.buf)) {
                Some((slave_id, pdu, consumed)) => Some((0, slave_id, pdu, consumed)),
                None => None,
            },
            Protocol::Ascii => match try_parse_ascii(held_slice(&self.buf)) {
                Some((slave_id, pdu, consumed)) => Some((0, slave_id, pdu, consumed)),
                None => None,
            },
            Protocol::Tcp(_) => try_parse_tcp_frame(held_slice(&self.buf)),
        };
        match found {
            Some((tid, slave_id, pdu, consumed)) => {
                advance_held(&mut self.buf, consumed);
                Some(Incoming { tid, slave_id, pdu })
            },
            None => {
                if let Protocol::Tcp(_) = self.protocol {
                    if is_tcp_header_corrupt(held_slice(&self.buf)) || self.buf.len()
                        > MAX_TCP_BUF_BYTES {
                        self.buf.clear();
                    }
                }
                None
            },
        }
    }

    /// Nothing arrived for the frame timeout.
    pub fn on_silence(&mut self)
        ensures
            final(self).speaks() == old(self).speaks(),
            final(self).pending() == kept_after_silence(old(self).speaks(), old(self).pending()),
    {
        match self.protocol {
            Protocol::Rtu => {
                if try_parse_server_rtu(held_slice(&self.buf)).is_none() {
                    self.buf.clear();
                }
            },
            Protocol::Ascii => self.buf.clear(),
            Protocol::Tcp(_) => {},
        }
    }

    /// The frame for an answer: slave address and PDU go in, and over TCP the
    /// transaction identifier of the request.
    pub fn reply_frame(&self, answer: &Bytes, tid: u16) -> (r: Bytes)
        requires
            1 <= buffer::octets(*answer).len() <= 254,
        ensures
            buffer::octets(r) == self.speaks().framing_spec(tid).frame(buffer::octets(*answer)),
    {
        let mut frame_buf = BytesMut::new();
        let framing: Framing = self.protocol.framing(tid);
        framing.encode(as_slice(answer), &mut frame_buf);
        let r = frame_buf.freeze();
        assert(buffer::octets(r) =~= self.speaks().framing_spec(tid).frame(
            buffer::octets(*answer),
        ));
        r
    }
}

} // verus!
