//! The course of a server: read, find requests, call the service, write the
//! answers.
//!
//! A [`Serving`] decides; reading, calling, writing and waiting are done
//! elsewhere. Whoever drives it does what each [`ServeAction`] says, and reports
//! how it went.

use bytes::{Bytes, BytesMut};
use vstd::prelude::*;

use super::exchange::Protocol;
use super::send_recv;
use super::send_recv::{decode_server_request, encode_server_response, server_request_error};
use super::send_recv::ReadEvent;
use super::session;
use super::session::Session;
use crate::buffer;
use crate::frame::{Exception, PduError, Request, RequestView, Response, ResponseView};
use crate::server;
use crate::time::Micros;

verus! {

/// How far a server has come.
#[derive(Debug, Clone, Copy, PartialEq, Eq, Structural)]
pub enum ServePhase {
    /// Bytes are waited for.
    Reading,
    /// A frame that gets no answer was found.
    Passing,
    /// The service is answering a request.
    Calling { tid: u16, slave_id: u8, function_code: u8 },
    /// An answer is being written.
    Writing,
    /// The transport is closed.
    Over,
}

/// What to do next.
pub enum ServeAction {
    /// Read, waiting at most `wait`, or without end, and report to
    /// [`on_read`](Serving::on_read).
    Read { wait: Option<Micros> },
    /// Take note of a frame that gets no answer, and report to
    /// [`on_passed`](Serving::on_passed). A broadcast, and a frame without a PDU,
    /// come without an error.
    Pass { slave_id: u8, error: Option<PduError> },
    /// Call the service, and report to [`on_answer`](Serving::on_answer).
    Call { slave_id: u8, request: Request<'static> },
    /// Wait until the bus timing allows sending where `spaced` is set, write the
    /// frame, and report to [`on_written`](Serving::on_written).
    Write { frame: Bytes, spaced: bool },
    /// Stop serving.
    Stop,
}

/// A [`ServeAction`], with request and frame as their views.
#[verifier::ext_equal]
pub enum ServeActionView {
    Read { wait: Option<Micros> },
    Pass { slave_id: u8, error: Option<PduError> },
    Call { slave_id: u8, request: RequestView },
    Write { frame: Seq<u8>, spaced: bool },
    Stop,
}

impl View for ServeAction {
    type V = ServeActionView;

    open spec fn view(&self) -> ServeActionView {
        match *self {
            ServeAction::Read { wait } => ServeActionView::Read { wait },
            ServeAction::Pass { slave_id, error } => ServeActionView::Pass { slave_id, error },
            ServeAction::Call { slave_id, request } => ServeActionView::Call {
                slave_id,
                request: request@,
            },
            ServeAction::Write { frame, spaced } => ServeActionView::Write {
                frame: buffer::octets(frame),
                spaced,
            },
            ServeAction::Stop => ServeActionView::Stop,
        }
    }
}

/// A request to be answered: transaction identifier, slave address, request.
pub type CallView = (u16, u8, RequestView);

/// What the front of what has arrived is, and what is left behind it.
#[verifier::ext_equal]
pub enum Front {
    /// No frame.
    Nothing(Seq<u8>),
    /// A request that is to be answered.
    Call(CallView, Seq<u8>),
    /// A frame that gets no answer: its slave address, and what is wrong with it.
    Passed(u8, Option<PduError>, Seq<u8>),
}

/// What the front of what has arrived is.
#[verifier::opaque]
pub open spec fn front(protocol: Protocol, pending: Seq<u8>) -> Front {
    match session::first_frame(protocol, pending) {
        None => Front::Nothing(session::kept_after_data(protocol, pending)),
        Some((tid, slave_id, pdu, consumed)) => match send_recv::server_request(pdu, slave_id) {
            Some(request) => Front::Call((tid, slave_id, request), pending.skip(consumed)),
            None => Front::Passed(
                slave_id,
                send_recv::request_error(pdu, slave_id),
                pending.skip(consumed),
            ),
        },
    }
}

/// A frame that was taken leaves less than there was, so that a server comes to an
/// end with what has arrived.
pub proof fn law_frames_shorten_what_is_pending(protocol: Protocol, pending: Seq<u8>)
    ensures
        match front(protocol, pending) {
            Front::Nothing(rest) => rest.len() <= pending.len(),
            Front::Call(_, rest) => rest.len() < pending.len(),
            Front::Passed(_, _, rest) => rest.len() < pending.len(),
        },
{
    reveal(front);
    session::lemma_frame_is_within(protocol, pending);
}

/// The data of a [`Serving`].
#[verifier::ext_equal]
pub struct ServingView {
    pub protocol: Protocol,
    pub frame_timeout: Micros,
    pub phase: ServePhase,
    /// What has arrived and is not yet looked at.
    pub pending: Seq<u8>,
}

impl ServingView {
    /// How long to wait for more bytes: without end where nothing is pending, and
    /// always without end over TCP.
    pub open spec fn read_wait(self) -> Option<Micros> {
        if self.protocol is Tcp || self.pending.len() == 0 {
            None
        } else {
            Some(self.frame_timeout)
        }
    }

    /// Go on reading.
    pub open spec fn reading(self) -> (ServingView, ServeActionView) {
        let next = ServingView { phase: ServePhase::Reading, ..self };
        (next, ServeActionView::Read { wait: next.read_wait() })
    }

    /// Stop.
    pub open spec fn stopped(self) -> (ServingView, ServeActionView) {
        (ServingView { phase: ServePhase::Over, ..self }, ServeActionView::Stop)
    }

    /// Go on with the front of what has arrived: answer a request, pass over a frame
    /// that gets no answer, or read where there is no frame.
    pub open spec fn advanced(self) -> (ServingView, ServeActionView) {
        match front(self.protocol, self.pending) {
            Front::Nothing(rest) => (ServingView { pending: rest, ..self }).reading(),
            Front::Call((tid, slave_id, request), rest) => (
                ServingView {
                    phase: ServePhase::Calling {
                        tid,
                        slave_id,
                        function_code: request.function_code(),
                    },
                    pending: rest,
                    ..self
                },
                ServeActionView::Call { slave_id, request },
            ),
            Front::Passed(slave_id, error, rest) => (
                ServingView { phase: ServePhase::Passing, pending: rest, ..self },
                ServeActionView::Pass { slave_id, error },
            ),
        }
    }

    /// What follows a read.
    pub open spec fn after_read(self, event: ReadEvent, data: Seq<u8>) -> (
        ServingView,
        ServeActionView,
    ) {
        match event {
            ReadEvent::Data => (ServingView { pending: self.pending + data, ..self }).advanced(),
            ReadEvent::Elapsed => (ServingView {
                pending: session::kept_after_silence(self.protocol, self.pending),
                ..self
            }).reading(),
            ReadEvent::Closed => self.stopped(),
            ReadEvent::Failed(_) => self.stopped(),
        }
    }

    /// What follows an answer of the service. An answer without a wire form is
    /// not sent.
    pub open spec fn after_answer(self, result: Result<ResponseView, Exception>) -> (
        ServingView,
        ServeActionView,
    ) {
        match self.phase {
            ServePhase::Calling { tid, slave_id, function_code } => match send_recv::server_reply(
                slave_id,
                function_code,
                result,
            ) {
                Some(bytes) => (
                    ServingView { phase: ServePhase::Writing, ..self },
                    ServeActionView::Write {
                        frame: self.protocol.framing_spec(tid).frame(bytes),
                        spaced: self.protocol.is_spaced(),
                    },
                ),
                None => self.advanced(),
            },
            _ => self.stopped(),
        }
    }

    /// What follows a write. A server that cannot write stops.
    pub open spec fn after_write(self, written: bool) -> (ServingView, ServeActionView) {
        if written {
            self.advanced()
        } else {
            self.stopped()
        }
    }
}

/// A server on one transport.
pub struct Serving {
    protocol: Protocol,
    frame_timeout: Micros,
    phase: ServePhase,
    session: Session,
    rsp_buf: BytesMut,
}

impl View for Serving {
    type V = ServingView;

    closed spec fn view(&self) -> ServingView {
        ServingView {
            protocol: self.protocol,
            frame_timeout: self.frame_timeout,
            phase: self.phase,
            pending: self.session.pending(),
        }
    }
}

impl Serving {
    /// Whether the protocol is the one of the session.
    pub closed spec fn wf(self) -> bool {
        self.session.speaks() == self.protocol
    }

    /// Start to serve. On a serial line, what is no frame after the frame timeout
    /// is dropped.
    pub fn start(protocol: Protocol, frame_timeout: Micros) -> (r: (Serving, ServeAction))
        ensures
            r.0.wf(),
            (r.0@, r.1@) == (ServingView {
                protocol,
                frame_timeout,
                phase: ServePhase::Reading,
                pending: Seq::empty(),
            }).reading(),
    {
        let serving = Serving {
            protocol,
            frame_timeout,
            phase: ServePhase::Reading,
            session: Session::new(protocol),
            rsp_buf: BytesMut::new(),
        };
        let wait = serving.session.read_wait(frame_timeout);
        (serving, ServeAction::Read { wait })
    }

    /// Whether `n` more bytes can be kept.
    pub fn has_room(&self, n: usize) -> (r: bool)
        ensures
            r == (self@.pending.len() + n <= isize::MAX),
    {
        self.session.has_room(n)
    }

    fn read_on(&mut self) -> (r: ServeAction)
        requires
            old(self).wf(),
        ensures
            final(self).wf(),
            (final(self)@, r@) == old(self)@.reading(),
    {
        self.phase = ServePhase::Reading;
        ServeAction::Read { wait: self.session.read_wait(self.frame_timeout) }
    }

    fn stop(&mut self) -> (r: ServeAction)
        requires
            old(self).wf(),
        ensures
            final(self).wf(),
            (final(self)@, r@) == old(self)@.stopped(),
    {
        self.phase = ServePhase::Over;
        ServeAction::Stop
    }

    fn advance(&mut self) -> (r: ServeAction)
        requires
            old(self).wf(),
        ensures
            final(self).wf(),
            (final(self)@, r@) == old(self)@.advanced(),
    {
        reveal(front);
        let incoming = match self.session.next_request() {
            None => return self.read_on(),
            Some(incoming) => incoming,
        };
        let slave_id: u8 = incoming.slave_id;
        match decode_server_request(&incoming.pdu, slave_id) {
            Some(request) => {
                let function_code: u8 = request.function_code().value();
                self.phase = ServePhase::Calling { tid: incoming.tid, slave_id, function_code };
                ServeAction::Call { slave_id, request }
            },
            None => {
                self.phase = ServePhase::Passing;
                ServeAction::Pass {
                    slave_id,
                    error: server_request_error(&incoming.pdu, slave_id),
                }
            },
        }
    }

    /// A read ended, with `data` where bytes arrived.
    pub fn on_read(&mut self, event: ReadEvent, data: &[u8]) -> (r: ServeAction)
        requires
            old(self).wf(),
            old(self)@.pending.len() + data@.len() <= isize::MAX,
        ensures
            final(self).wf(),
            (final(self)@, r@) == old(self)@.after_read(event, data@),
    {
        match event {
            ReadEvent::Data => {
                self.session.on_data(data);
                self.advance()
            },
            ReadEvent::Elapsed => {
                self.session.on_silence();
                self.read_on()
            },
            ReadEvent::Closed => self.stop(),
            ReadEvent::Failed(_) => self.stop(),
        }
    }

    /// A frame that gets no answer was taken note of.
    pub fn on_passed(&mut self) -> (r: ServeAction)
        requires
            old(self).wf(),
        ensures
            final(self).wf(),
            (final(self)@, r@) == old(self)@.advanced(),
    {
        self.advance()
    }

    /// The service answered.
    pub fn on_answer(&mut self, result: Result<Response, Exception>) -> (r: ServeAction)
        requires
            old(self).wf(),
            old(self)@.phase is Calling,
        ensures
            final(self).wf(),
            (final(self)@, r@) == old(self)@.after_answer(server::outcome(result)),
    {
        let (tid, slave_id, function_code) = match self.phase {
            ServePhase::Calling { tid, slave_id, function_code } => (tid, slave_id, function_code),
            _ => return self.stop(),
        };
        match encode_server_response(slave_id, function_code, result, &mut self.rsp_buf) {
            Some(answer) => {
                proof {
                    lemma_reply_len(slave_id, function_code, server::outcome(result));
                }
                let frame = self.session.reply_frame(&answer, tid);
                self.phase = ServePhase::Writing;
                ServeAction::Write { frame, spaced: self.protocol.needs_spacing() }
            },
            None => self.advance(),
        }
    }

    /// Writing ended.
    pub fn on_written(&mut self, written: bool) -> (r: ServeAction)
        requires
            old(self).wf(),
        ensures
            final(self).wf(),
            (final(self)@, r@) == old(self)@.after_write(written),
    {
        if written {
            self.advance()
        } else {
            self.stop()
        }
    }
}

/// An answer holds a slave address and a PDU.
proof fn lemma_reply_len(
    slave_id: u8,
    function_code: u8,
    result: Result<ResponseView, Exception>,
)
    ensures
        match send_recv::server_reply(slave_id, function_code, result) {
            Some(bytes) => 3 <= bytes.len() <= 254,
            None => true,
        },
{
    let rsp = match result {
        Ok(rsp) => rsp,
        Err(e) => ResponseView::Exception(function_code, e),
    };
    if rsp.encoding_error() is None {
        crate::frame::laws::lemma_response_pdu_shape(rsp);
    }
}

} // verus!
