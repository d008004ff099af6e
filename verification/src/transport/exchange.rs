//! One transaction of a client: find the bus quiet, send a request, and wait
//! for its response.
//!
//! An [`Exchange`] decides; reading, writing and waiting are done elsewhere.
//! Whoever drives it does what each [`Action`] says, and reports how it went.

use bytes::{Bytes, BytesMut};
use vstd::prelude::*;

use super::ascii;
use super::rtu;
use super::send_recv;
use super::send_recv::{drain_stale_data, drain_start, read_at_least, read_start, send_frame};
use super::send_recv::{Drain, DrainStep, DrainStepView, Framing, ReadEvent};
use super::send_recv::{ReceiveStep, ReceiveStepView};
use super::tcp;
use super::tcp::{TcpConfig, TcpReceive};
use super::MBAP_HEADER_SIZE;
use crate::buffer;
use crate::buffer::held_slice;
use crate::client;
use crate::error::{ErrorView, ModbusError};
use crate::error::{PDU_ENCODE_ERROR, SEND_TIMEOUT};
use crate::frame::{Request, RequestView, Response, ResponseView};
use crate::time::Micros;

verus! {

/// The protocol of a transaction.
#[derive(Debug, Clone, Copy, PartialEq, Eq, Structural)]
pub enum Protocol {
    Rtu,
    Ascii,
    Tcp(TcpConfig),
}

impl Protocol {
    /// How frames of this protocol are built. A transaction identifier is used
    /// over TCP alone.
    pub open spec fn framing_spec(self, tid: u16) -> Framing {
        match self {
            Protocol::Rtu => Framing::Rtu,
            Protocol::Ascii => Framing::Ascii,
            Protocol::Tcp(config) => Framing::Tcp(config, tid),
        }
    }

    /// Whether frames of this protocol keep the silence of a serial line between
    /// them. Over TCP they need none.
    pub open spec fn is_spaced(self) -> bool {
        !(self is Tcp)
    }

    /// Whether frames of this protocol keep the silence of a serial line between
    /// them.
    pub fn needs_spacing(self) -> (r: bool)
        ensures
            r == self.is_spaced(),
    {
        match self {
            Protocol::Tcp(_) => false,
            _ => true,
        }
    }

    /// How frames of this protocol are built.
    pub fn framing(self, tid: u16) -> (r: Framing)
        ensures
            r == self.framing_spec(tid),
    {
        match self {
            Protocol::Rtu => Framing::Rtu,
            Protocol::Ascii => Framing::Ascii,
            Protocol::Tcp(config) => Framing::Tcp(config, tid),
        }
    }
}

/// How far a transaction has come.
#[derive(Debug, Clone, Copy, PartialEq, Eq, Structural)]
pub enum Phase {
    /// Looking whether the bus is quiet.
    Draining(Drain),
    /// About to send.
    Preparing,
    /// The request is being sent.
    Sending,
    /// The response is waited for.
    Receiving { deadline_us: u64, tcp: TcpReceive },
    /// The transaction is over.
    Over,
}

/// What to do next.
pub enum Action {
    /// Read, waiting at most `wait_us`, and report to
    /// [`on_read`](Exchange::on_read).
    Read { wait_us: u64 },
    /// Wait until the bus timing allows sending where `spaced` is set, take a
    /// transaction identifier over TCP, and report to
    /// [`on_prepared`](Exchange::on_prepared).
    Prepare { spaced: bool },
    /// Send the frame, taking at most `wait_us`, and report to
    /// [`on_sent`](Exchange::on_sent).
    Send { frame: Bytes, wait_us: u64 },
    /// The transaction is over.
    Done(Result<Response, ModbusError>),
}

/// An [`Action`], with frame and outcome as their views.
#[verifier::ext_equal]
pub enum ActionView {
    Read { wait_us: u64 },
    Prepare { spaced: bool },
    Send { frame: Seq<u8>, wait_us: u64 },
    Done(Result<ResponseView, ErrorView>),
}

impl View for Action {
    type V = ActionView;

    open spec fn view(&self) -> ActionView {
        match *self {
            Action::Read { wait_us } => ActionView::Read { wait_us },
            Action::Prepare { spaced } => ActionView::Prepare { spaced },
            Action::Send { frame, wait_us } => ActionView::Send {
                frame: buffer::octets(frame),
                wait_us,
            },
            Action::Done(r) => ActionView::Done(client::reply_view(r)),
        }
    }
}

/// How sending ended.
pub enum SendEvent {
    /// The whole frame was sent.
    Sent,
    /// It was not sent in time.
    Elapsed,
    /// The transport failed.
    Failed(ModbusError),
}

/// The data of an [`Exchange`].
#[verifier::ext_equal]
pub struct ExchangeView {
    pub protocol: Protocol,
    pub slave_id: u8,
    pub request: RequestView,
    pub timeout_us: u64,
    pub phase: Phase,
    /// What has been received of the response.
    pub received: Seq<u8>,
}

impl ExchangeView {
    /// The transaction, having come to `phase` with what was received so far.
    pub open spec fn at(self, phase: Phase, received: Seq<u8>) -> ExchangeView {
        ExchangeView { phase, received, ..self }
    }

    /// Whether what has been received fits how far the transaction has come: a
    /// TCP client past the header holds the header.
    pub open spec fn is_consistent(self) -> bool {
        match self.phase {
            Phase::Receiving { tcp, .. } => tcp is Header || self.received.len()
                >= MBAP_HEADER_SIZE,
            _ => true,
        }
    }

    /// What to do first. Over ASCII a request to disconnect is refused.
    pub open spec fn first(self) -> (ExchangeView, ActionView) {
        if self.protocol is Ascii && self.request is Disconnect {
            (
                self.at(Phase::Over, self.received),
                ActionView::Done(Err(ErrorView::Other("Disconnected"@))),
            )
        } else {
            (
                self.at(Phase::Draining(Drain::Probing), self.received),
                ActionView::Read { wait_us: send_recv::QUICK_POLL_US },
            )
        }
    }

    /// What follows a step of draining.
    pub open spec fn after_drain(self, step: DrainStepView) -> (ExchangeView, ActionView) {
        match step {
            DrainStepView::Read { state, wait_us } => (
                self.at(Phase::Draining(state), self.received),
                ActionView::Read { wait_us },
            ),
            DrainStepView::Quiet => (
                self.at(Phase::Preparing, self.received),
                ActionView::Prepare { spaced: self.protocol.is_spaced() },
            ),
            DrainStepView::Failed(e) => (
                self.at(Phase::Over, self.received),
                ActionView::Done(Err(e)),
            ),
        }
    }

    /// What follows when sending is allowed: the frame of the request goes out.
    pub open spec fn after_prepare(self, tid: u16) -> (ExchangeView, ActionView) {
        match self.request.encoding_error() {
            None => (
                self.at(Phase::Sending, self.received),
                ActionView::Send {
                    frame: self.protocol.framing_spec(tid).frame(
                        seq![self.slave_id] + self.request.pdu(),
                    ),
                    wait_us: self.timeout_us,
                },
            ),
            Some(e) => (
                self.at(Phase::Over, self.received),
                ActionView::Done(
                    Err(ErrorView::Protocol(PDU_ENCODE_ERROR@ + " "@ + e.message())),
                ),
            ),
        }
    }

    /// What follows a decision about the response.
    pub open spec fn after_receive(
        self,
        buf: Seq<u8>,
        deadline_us: u64,
        next: (TcpReceive, ReceiveStepView),
    ) -> (ExchangeView, ActionView) {
        match next.1 {
            ReceiveStepView::Read { wait_us } => (
                self.at(Phase::Receiving { deadline_us, tcp: next.0 }, buf),
                ActionView::Read { wait_us },
            ),
            ReceiveStepView::Done(r) => (self.at(Phase::Over, buf), ActionView::Done(r)),
        }
    }

    /// What to do about the response when nothing of it has been received.
    pub open spec fn receive_first(self, now_us: u64, deadline_us: u64) -> (
        TcpReceive,
        ReceiveStepView,
    ) {
        match self.protocol {
            Protocol::Rtu => (
                TcpReceive::Header,
                rtu::receive_step(
                    send_recv::read_goal(
                        0,
                        rtu::receive_target(self.request),
                        now_us,
                        deadline_us,
                    ),
                    Seq::empty(),
                    self.slave_id,
                ),
            ),
            Protocol::Ascii => (
                TcpReceive::Header,
                ascii::receive_goal(Seq::empty(), self.slave_id, now_us, deadline_us),
            ),
            Protocol::Tcp(config) => tcp::receive_goal(
                send_recv::read_goal(0, MBAP_HEADER_SIZE as nat, now_us, deadline_us),
                Seq::empty(),
                self.slave_id,
                config.unit_id_in_body,
                now_us,
                deadline_us,
            ),
        }
    }

    /// What to do about the response after a read, with `buf` received so far.
    pub open spec fn receive_more(
        self,
        tcp: TcpReceive,
        event: ReadEvent,
        buf: Seq<u8>,
        now_us: u64,
        deadline_us: u64,
    ) -> (TcpReceive, ReceiveStepView) {
        match self.protocol {
            Protocol::Rtu => (
                TcpReceive::Header,
                rtu::receive_step(
                    send_recv::read_next(
                        event,
                        buf.len(),
                        rtu::receive_target(self.request),
                        now_us,
                        deadline_us,
                    ),
                    buf,
                    self.slave_id,
                ),
            ),
            Protocol::Ascii => (
                TcpReceive::Header,
                ascii::receive_next(event, buf, self.slave_id, now_us, deadline_us),
            ),
            Protocol::Tcp(config) => tcp::receive_next(
                tcp,
                event,
                buf,
                self.slave_id,
                config.unit_id_in_body,
                now_us,
                deadline_us,
            ),
        }
    }

    /// What follows when sending ended: the response is waited for, until the
    /// timeout after the request was sent.
    pub open spec fn after_send(self, event: SendEvent, now_us: u64) -> (ExchangeView, ActionView) {
        match event {
            SendEvent::Elapsed => (
                self.at(Phase::Over, self.received),
                ActionView::Done(Err(ErrorView::Timeout(SEND_TIMEOUT@))),
            ),
            SendEvent::Failed(e) => (
                self.at(Phase::Over, self.received),
                ActionView::Done(Err(e@)),
            ),
            SendEvent::Sent => {
                let deadline_us = send_recv::deadline(now_us, self.timeout_us as int);
                self.after_receive(
                    Seq::empty(),
                    deadline_us,
                    self.receive_first(now_us, deadline_us),
                )
            },
        }
    }

    /// What follows a read. What arrives while draining is dropped.
    pub open spec fn after_read(self, event: ReadEvent, data: Seq<u8>, now_us: u64) -> (
        ExchangeView,
        ActionView,
    ) {
        match self.phase {
            Phase::Draining(state) => self.after_drain(
                send_recv::drain_next(state, event, now_us),
            ),
            Phase::Receiving { deadline_us, tcp } => {
                let buf = if event is Data {
                    self.received + data
                } else {
                    self.received
                };
                self.after_receive(
                    buf,
                    deadline_us,
                    self.receive_more(tcp, event, buf, now_us, deadline_us),
                )
            },
            _ => (self, ActionView::Prepare { spaced: self.protocol.is_spaced() }),
        }
    }
}

/// One transaction of a client.
pub struct Exchange {
    protocol: Protocol,
    slave_id: u8,
    request: Request<'static>,
    timeout_us: u64,
    phase: Phase,
    read_buf: BytesMut,
    write_buf: BytesMut,
}

impl View for Exchange {
    type V = ExchangeView;

    closed spec fn view(&self) -> ExchangeView {
        ExchangeView {
            protocol: self.protocol,
            slave_id: self.slave_id,
            request: self.request@,
            timeout_us: self.timeout_us,
            phase: self.phase,
            received: buffer::buffered(self.read_buf),
        }
    }
}

impl Exchange {
    /// Begin a transaction: the request goes to the slave, sending and waiting
    /// take at most the timeout each.
    pub fn start(
        protocol: Protocol,
        slave_id: u8,
        request: Request<'_>,
        timeout: Micros,
    ) -> (r: (Exchange, Action))
        ensures
            (r.0@, r.1@) == (ExchangeView {
                protocol,
                slave_id,
                request: request@,
                timeout_us: timeout.0,
                phase: Phase::Preparing,
                received: Seq::empty(),
            }).first(),
            r.0@.is_consistent(),
    {
        let mut exchange = Exchange {
            protocol,
            slave_id,
            request: request.into_owned(),
            timeout_us: timeout.as_micros(),
            phase: Phase::Over,
            read_buf: BytesMut::new(),
            write_buf: BytesMut::new(),
        };
        if let Protocol::Ascii = exchange.protocol {
            if let Request::Disconnect = exchange.request {
                return (exchange, Action::Done(Err(ModbusError::Other("Disconnected".to_owned()))));
            }
        }
        let step = drain_start();
        let action = exchange.apply_drain(step);
        (exchange, action)
    }

    fn apply_drain(&mut self, step: DrainStep) -> (r: Action)
        ensures
            (final(self)@, r@) == old(self)@.after_drain(step@),
            final(self)@.is_consistent(),
    {
        match step {
            DrainStep::Read { state, wait_us } => {
                self.phase = Phase::Draining(state);
                Action::Read { wait_us }
            },
            DrainStep::Quiet => {
                self.phase = Phase::Preparing;
                Action::Prepare { spaced: self.protocol.needs_spacing() }
            },
            DrainStep::Failed(e) => {
                self.phase = Phase::Over;
                Action::Done(Err(e))
            },
        }
    }

    /// Sending is allowed now. Over TCP the frame carries the transaction
    /// identifier.
    pub fn on_prepared(&mut self, tid: u16) -> (r: Action)
        requires
            old(self)@.phase is Preparing,
        ensures
            (final(self)@, r@) == old(self)@.after_prepare(tid),
            final(self)@.is_consistent(),
    {
        let framing = self.protocol.framing(tid);
        match send_frame(&mut self.write_buf, self.slave_id, &self.request, &framing) {
            Ok(frame) => {
                self.phase = Phase::Sending;
                Action::Send { frame, wait_us: self.timeout_us }
            },
            Err(e) => {
                self.phase = Phase::Over;
                Action::Done(Err(e))
            },
        }
    }

    /// Sending ended at `now_us`.
    pub fn on_sent(&mut self, event: SendEvent, now_us: u64) -> (r: Action)
        requires
            old(self)@.phase is Sending,
        ensures
            (final(self)@, r@) == old(self)@.after_send(event, now_us),
            final(self)@.is_consistent(),
    {
        match event {
            SendEvent::Elapsed => {
                self.phase = Phase::Over;
                Action::Done(Err(ModbusError::timeout(SEND_TIMEOUT)))
            },
            SendEvent::Failed(e) => {
                self.phase = Phase::Over;
                Action::Done(Err(e))
            },
            SendEvent::Sent => {
                let deadline_us: u64 = now_us.saturating_add(self.timeout_us);
                self.read_buf.clear();
                let next = self.first_receive_step(now_us, deadline_us);
                self.apply_receive(deadline_us, next)
            },
        }
    }

    fn first_receive_step(&self, now_us: u64, deadline_us: u64) -> (r: (TcpReceive, ReceiveStep))
        requires
            self@.received == Seq::<u8>::empty(),
        ensures
            (r.0, r.1@) == self@.receive_first(now_us, deadline_us),
            r.0 is Header,
    {
        let buf = held_slice(&self.read_buf);
        match self.protocol {
            Protocol::Rtu => {
                let step = read_start(
                    0,
                    rtu::rtu_receive_target(&self.request),
                    now_us,
                    deadline_us,
                );
                (TcpReceive::Header, rtu::rtu_receive(step, buf, self.slave_id))
            },
            Protocol::Ascii => (
                TcpReceive::Header,
                ascii::ascii_receive_start(buf, self.slave_id, now_us, deadline_us),
            ),
            Protocol::Tcp(config) => {
                let step = read_start(0, MBAP_HEADER_SIZE, now_us, deadline_us);
                tcp::tcp_receive_header(
                    step,
                    buf,
                    self.slave_id,
                    config.unit_id_in_body,
                    now_us,
                    deadline_us,
                )
            },
        }
    }

    fn next_receive_step(
        &self,
        tcp: TcpReceive,
        event: ReadEvent,
        now_us: u64,
        deadline_us: u64,
    ) -> (r: (TcpReceive, ReceiveStep))
        requires
            tcp is Header || self@.received.len() >= MBAP_HEADER_SIZE,
        ensures
            (r.0, r.1@) == self@.receive_more(tcp, event, self@.received, now_us, deadline_us),
            r.0 is Header || self@.received.len() >= MBAP_HEADER_SIZE,
    {
        let buf = held_slice(&self.read_buf);
        match self.protocol {
            Protocol::Rtu => {
                let target: usize = rtu::rtu_receive_target(&self.request);
                let step = read_at_least(event, buf.len(), target, now_us, deadline_us);
                (TcpReceive::Header, rtu::rtu_receive(step, buf, self.slave_id))
            },
            Protocol::Ascii => (
                TcpReceive::Header,
                ascii::ascii_receive(event, buf, self.slave_id, now_us, deadline_us),
            ),
            Protocol::Tcp(config) => tcp::tcp_receive(
                tcp,
                event,
                buf,
                self.slave_id,
                config.unit_id_in_body,
                now_us,
                deadline_us,
            ),
        }
    }

    fn apply_receive(&mut self, deadline_us: u64, next: (TcpReceive, ReceiveStep)) -> (r: Action)
        requires
            next.0 is Header || old(self)@.received.len() >= MBAP_HEADER_SIZE,
        ensures
            (final(self)@, r@) == old(self)@.after_receive(
                old(self)@.received,
                deadline_us,
                (next.0, next.1@),
            ),
            final(self)@.is_consistent(),
    {
        match next.1 {
            ReceiveStep::Read { wait_us } => {
                self.phase = Phase::Receiving { deadline_us, tcp: next.0 };
                Action::Read { wait_us }
            },
            ReceiveStep::Done(r) => {
                self.phase = Phase::Over;
                Action::Done(r)
            },
        }
    }

    /// Whether `n` more bytes can be received.
    pub fn has_room(&self, n: usize) -> (r: bool)
        ensures
            r == (self@.received.len() + n <= isize::MAX),
    {
        let max: usize = isize::MAX as usize;
        self.read_buf.len() <= max && n <= max - self.read_buf.len()
    }

    /// A read ended at `now_us`, with `data` where bytes arrived.
    pub fn on_read(&mut self, event: ReadEvent, data: &[u8], now_us: u64) -> (r: Action)
        requires
            old(self)@.phase is Draining || old(self)@.phase is Receiving,
            old(self)@.is_consistent(),
            old(self)@.received.len() + data@.len() <= isize::MAX,
        ensures
            (final(self)@, r@) == old(self)@.after_read(event, data@, now_us),
            final(self)@.is_consistent(),
    {
        match self.phase {
            Phase::Draining(state) => {
                let step = drain_stale_data(state, event, now_us);
                self.apply_drain(step)
            },
            Phase::Receiving { deadline_us, tcp } => {
                if let ReadEvent::Data = event {
                    self.read_buf.extend_from_slice(data);
                }
                let next = self.next_receive_step(tcp, event, now_us, deadline_us);
                self.apply_receive(deadline_us, next)
            },
            _ => Action::Prepare { spaced: self.protocol.needs_spacing() },
        }
    }
}

} // verus!
