//! What each step of an exchange and of a server comes to.

use vstd::prelude::*;

use super::ascii;
use super::exchange::{Action, ActionView, ExchangeView, Phase, Protocol, SendEvent};
use super::rtu;
use super::send_recv;
use super::send_recv::{Drain, DrainStepView, Framing, ReadEvent, ReceiveStepView};
use super::serving;
use super::serving::{Front, ServeAction, ServeActionView, ServePhase, ServingView};
use super::session;
use super::tcp;
use super::tcp::{TcpConfig, TcpReceive};
use crate::buffer;
use crate::error::{ErrorView, ModbusError};
use crate::frame::{Exception, ResponseView};

verus! {

// ── Protocols and views ─────────────────────────────────────────────────

/// Each protocol has its own framing, and the two on a line keep a distance between
/// frames.
pub proof fn law_protocols(config: TcpConfig, tid: u16)
    ensures
        Protocol::Rtu.framing_spec(tid) == Framing::Rtu,
        Protocol::Ascii.framing_spec(tid) == Framing::Ascii,
        Protocol::Tcp(config).framing_spec(tid) == Framing::Tcp(config, tid),
        Protocol::Rtu.is_spaced(),
        Protocol::Ascii.is_spaced(),
        !Protocol::Tcp(config).is_spaced(),
{
}

/// The view of an action is of its sort and holds what the action holds.
pub proof fn law_action_views(action: Action, serve: ServeAction)
    ensures
        match action {
            Action::Read { wait_us: w } => action@ matches ActionView::Read { wait_us } && wait_us
                == w,
            Action::Prepare { spaced: s } => action@ matches ActionView::Prepare { spaced }
                && spaced == s,
            Action::Send { frame: f, wait_us: w } => action@ matches ActionView::Send {
                frame,
                wait_us,
            } && frame == buffer::octets(f) && wait_us == w,
            Action::Done(Ok(rsp)) => action@ == ActionView::Done(Ok(rsp@)),
            Action::Done(Err(e)) => action@ == ActionView::Done(Err(e@)),
        },
        match serve {
            ServeAction::Read { wait: w } => serve@ matches ServeActionView::Read { wait } && wait
                == w,
            ServeAction::Pass { slave_id: s, error: e } => serve@ matches ServeActionView::Pass {
                slave_id,
                error,
            } && slave_id == s && error == e,
            ServeAction::Call { slave_id: s, request: r } => serve@ matches ServeActionView::Call {
                slave_id,
                request,
            } && slave_id == s && request == r@,
            ServeAction::Write { frame: f, spaced: s } => serve@ matches ServeActionView::Write {
                frame,
                spaced,
            } && frame == buffer::octets(f) && spaced == s,
            ServeAction::Stop => serve@ is Stop,
        },
{
}

// ── Exchanges ───────────────────────────────────────────────────────────

/// An exchange keeps its protocol, unit, request and timeout to the end.
pub proof fn law_exchange_keeps_its_terms(
    s: ExchangeView,
    event: ReadEvent,
    sent: SendEvent,
    data: Seq<u8>,
    tid: u16,
    now_us: u64,
)
    ensures
        ({
            let kept = |t: ExchangeView|
                {
                    &&& t.protocol == s.protocol
                    &&& t.slave_id == s.slave_id
                    &&& t.request == s.request
                    &&& t.timeout_us == s.timeout_us
                };
            &&& kept(s.first().0)
            &&& kept(s.after_prepare(tid).0)
            &&& kept(s.after_send(sent, now_us).0)
            &&& kept(s.after_read(event, data, now_us).0)
        }),
{
}

/// An exchange starts by polling for stale bytes. Only a disconnect over the text
/// protocol ends at once.
pub proof fn law_exchange_starts(s: ExchangeView)
    ensures
        s.protocol is Ascii && s.request is Disconnect ==> {
            &&& s.first().0.phase is Over
            &&& s.first().1 == ActionView::Done(Err(ErrorView::Other("Disconnected"@)))
        },
        !(s.protocol is Ascii && s.request is Disconnect) ==> {
            &&& s.first().0.phase == Phase::Draining(Drain::Probing)
            &&& s.first().1 == (ActionView::Read { wait_us: 1000 })
        },
        s.first().0.received == s.received,
{
}

/// While it drains, an exchange reads on as draining says. Once the line is quiet it
/// prepares to send, with a distance on a line. What fails ends it.
pub proof fn law_exchange_drains(
    s: ExchangeView,
    drain: Drain,
    event: ReadEvent,
    data: Seq<u8>,
    now_us: u64,
)
    requires
        s.phase == Phase::Draining(drain),
    ensures
        ({
            let (t, action) = s.after_read(event, data, now_us);
            &&& t.received == s.received
            &&& match send_recv::drain_next(drain, event, now_us) {
                DrainStepView::Read { state, wait_us } => t.phase == Phase::Draining(state)
                    && action == (ActionView::Read { wait_us }),
                DrainStepView::Quiet => t.phase is Preparing && action == (ActionView::Prepare {
                    spaced: !(s.protocol is Tcp),
                }),
                DrainStepView::Failed(e) => t.phase is Over && action == ActionView::Done(Err(e)),
            }
        }),
{
}

/// What is sent is one frame with the unit and the PDU of the request, within the
/// timeout. A request without a wire form ends the exchange unsent.
pub proof fn law_exchange_sends(s: ExchangeView, tid: u16)
    ensures
        ({
            let (t, action) = s.after_prepare(tid);
            &&& t.received == s.received
            &&& match s.request.encoding_error() {
                None => {
                    &&& t.phase is Sending
                    &&& action matches ActionView::Send { frame, wait_us }
                    &&& wait_us == s.timeout_us
                    &&& frame == s.protocol.framing_spec(tid).frame(
                        seq![s.slave_id] + s.request.pdu(),
                    )
                },
                Some(e) => {
                    &&& t.phase is Over
                    &&& action == ActionView::Done(
                        Err(ErrorView::Protocol("PDU encode:"@ + " "@ + e.message())),
                    )
                },
            }
        }),
{
}

/// After the frame was sent, receiving starts with nothing held and the whole timeout
/// ahead. Where it was not sent, the exchange ends.
pub proof fn law_exchange_waits_for_the_reply(s: ExchangeView, now_us: u64, e: ModbusError)
    ensures
        ({
            let (t, action) = s.after_send(SendEvent::Sent, now_us);
            let end = if now_us + s.timeout_us <= u64::MAX {
                (now_us + s.timeout_us) as u64
            } else {
                u64::MAX
            };
            let (state, step) = s.receive_first(now_us, end);
            &&& t.received == Seq::<u8>::empty()
            &&& match step {
                ReceiveStepView::Read { wait_us } => t.phase == (Phase::Receiving {
                    deadline_us: end,
                    tcp: state,
                }) && action == (ActionView::Read { wait_us }),
                ReceiveStepView::Done(r) => t.phase is Over && action == ActionView::Done(r),
            }
        }),
        s.after_send(SendEvent::Elapsed, now_us).0.phase is Over,
        s.after_send(SendEvent::Elapsed, now_us).1 == ActionView::Done(
            Err(ErrorView::Timeout("send timed out"@)),
        ),
        s.after_send(SendEvent::Failed(e), now_us).0.phase is Over,
        s.after_send(SendEvent::Failed(e), now_us).1 == ActionView::Done(Err(e@)),
{
}

/// While it receives, an exchange holds all bytes that have come, in order, and reads
/// on against the same deadline until there is a result.
pub proof fn law_exchange_receives(
    s: ExchangeView,
    deadline_us: u64,
    state: TcpReceive,
    event: ReadEvent,
    data: Seq<u8>,
    now_us: u64,
)
    requires
        s.phase == (Phase::Receiving { deadline_us, tcp: state }),
    ensures
        ({
            let (t, action) = s.after_read(event, data, now_us);
            let (next, step) = s.receive_more(state, event, t.received, now_us, deadline_us);
            &&& t.received == (if event is Data {
                s.received + data
            } else {
                s.received
            })
            &&& match step {
                ReceiveStepView::Read { wait_us } => t.phase == (Phase::Receiving {
                    deadline_us,
                    tcp: next,
                }) && action == (ActionView::Read { wait_us }),
                ReceiveStepView::Done(r) => t.phase is Over && action == ActionView::Done(r),
            }
        }),
{
}

/// How receiving starts and goes on in each protocol: by the length that the request
/// calls for, by lines, or by the header.
pub proof fn law_receiving_by_protocol(
    s: ExchangeView,
    state: TcpReceive,
    event: ReadEvent,
    buf: Seq<u8>,
    now_us: u64,
    end: u64,
)
    ensures
        s.protocol is Rtu ==> {
            let target = rtu::receive_target(s.request);
            &&& s.receive_first(now_us, end).1 == rtu::receive_step(
                send_recv::read_goal(0, target, now_us, end),
                Seq::empty(),
                s.slave_id,
            )
            &&& s.receive_more(state, event, buf, now_us, end).1 == rtu::receive_step(
                send_recv::read_next(event, buf.len(), target, now_us, end),
                buf,
                s.slave_id,
            )
        },
        s.protocol is Ascii ==> {
            &&& s.receive_first(now_us, end).1 == ascii::receive_goal(
                Seq::empty(),
                s.slave_id,
                now_us,
                end,
            )
            &&& s.receive_more(state, event, buf, now_us, end).1 == ascii::receive_next(
                event,
                buf,
                s.slave_id,
                now_us,
                end,
            )
        },
        s.protocol is Rtu || s.protocol is Ascii ==> {
            &&& s.receive_first(now_us, end).0 is Header
            &&& s.receive_more(state, event, buf, now_us, end).0 is Header
        },
        s.protocol matches Protocol::Tcp(config) ==> {
            &&& s.receive_first(now_us, end) == tcp::receive_goal(
                send_recv::read_goal(0, 7, now_us, end),
                Seq::empty(),
                s.slave_id,
                config.unit_id_in_body,
                now_us,
                end,
            )
            &&& s.receive_more(state, event, buf, now_us, end) == tcp::receive_next(
                state,
                event,
                buf,
                s.slave_id,
                config.unit_id_in_body,
                now_us,
                end,
            )
        },
{
}

/// An exchange is consistent unless it reads a body without a header.
pub proof fn law_consistent_exchanges(s: ExchangeView)
    ensures
        s.is_consistent() == match s.phase {
            Phase::Receiving { deadline_us: _, tcp } => tcp is Header || s.received.len() >= 7,
            _ => true,
        },
{
}

// ── Serving ─────────────────────────────────────────────────────────────

/// The first frame in what is pending is found by the protocol's own rules. Only TCP
/// has a transaction.
pub proof fn law_first_frames(config: TcpConfig, buf: Seq<u8>)
    ensures
        session::first_frame(Protocol::Rtu, buf) == match rtu::parse_server_frame(buf) {
            Some((unit, pdu, n)) => Some((0u16, unit, pdu, n)),
            None => None,
        },
        session::first_frame(Protocol::Ascii, buf) == match ascii::scan(buf, 0) {
            Some((unit, pdu, n)) => Some((0u16, unit, pdu, n)),
            None => None,
        },
        session::first_frame(Protocol::Tcp(config), buf) == tcp::parse_frame(buf),
{
}

/// Pending bytes without a frame are kept for more to come, except over TCP when the
/// header is corrupt or there are too many. Silence ends a text line and a broken
/// binary frame.
pub proof fn law_what_stays_pending(config: TcpConfig, buf: Seq<u8>)
    ensures
        session::kept_after_data(Protocol::Rtu, buf) == buf,
        session::kept_after_data(Protocol::Ascii, buf) == buf,
        session::kept_after_data(Protocol::Tcp(config), buf) == (if tcp::header_corrupt(buf)
            || buf.len() > 1040 {
            Seq::empty()
        } else {
            buf
        }),
        session::kept_after_silence(Protocol::Rtu, buf) == (if rtu::parse_server_frame(buf) is Some {
            buf
        } else {
            Seq::empty()
        }),
        session::kept_after_silence(Protocol::Ascii, buf) == Seq::<u8>::empty(),
        session::kept_after_silence(Protocol::Tcp(config), buf) == buf,
{
}

/// A frame in front is taken off. If it holds a request for a unit, the request is
/// served; otherwise the frame is passed over, with the reason where there is one.
pub proof fn law_what_is_in_front(protocol: Protocol, pending: Seq<u8>)
    ensures
        match session::first_frame(protocol, pending) {
            None => serving::front(protocol, pending) == Front::Nothing(
                session::kept_after_data(protocol, pending),
            ),
            Some((tid, unit, pdu, n)) => match send_recv::server_request(pdu, unit) {
                Some(request) => serving::front(protocol, pending) == Front::Call(
                    (tid, unit, request),
                    pending.skip(n),
                ),
                None => serving::front(protocol, pending) == Front::Passed(
                    unit,
                    send_recv::request_error(pdu, unit),
                    pending.skip(n),
                ),
            },
        },
{
    reveal(serving::front);
}

/// A server keeps its protocol and frame timeout.
pub proof fn law_server_keeps_its_terms(
    s: ServingView,
    event: ReadEvent,
    data: Seq<u8>,
    result: Result<ResponseView, Exception>,
    written: bool,
)
    ensures
        ({
            let kept = |t: ServingView|
                t.protocol == s.protocol && t.frame_timeout == s.frame_timeout;
            &&& kept(s.after_read(event, data).0)
            &&& kept(s.after_answer(result).0)
            &&& kept(s.after_write(written).0)
            &&& kept(s.advanced().0)
        }),
{
}

/// A server waits without limit while nothing is pending, and over TCP always. On a
/// line it waits for the frame timeout while a frame is pending.
pub proof fn law_server_reads(s: ServingView)
    ensures
        s.protocol is Tcp || s.pending.len() == 0 ==> s.read_wait() is None,
        !(s.protocol is Tcp) && s.pending.len() > 0 ==> s.read_wait() == Some(s.frame_timeout),
        s.reading().0.phase is Reading,
        s.reading().0.pending == s.pending,
        s.reading().0.protocol == s.protocol,
        s.reading().0.frame_timeout == s.frame_timeout,
        s.reading().1 == (ServeActionView::Read { wait: s.read_wait() }),
        s.stopped().0.phase is Over,
        s.stopped().0.pending == s.pending,
        s.stopped().0.protocol == s.protocol,
        s.stopped().0.frame_timeout == s.frame_timeout,
        s.stopped().1 is Stop,
{
}

/// A server goes on with what is in front: it calls its service with the request,
/// passes over what is no request, and reads on when there is no frame.
pub proof fn law_server_goes_on(s: ServingView)
    ensures
        ({
            let (t, action) = s.advanced();
            match serving::front(s.protocol, s.pending) {
                Front::Nothing(rest) => {
                    &&& t.phase is Reading
                    &&& t.pending == rest
                    &&& action == (ServeActionView::Read {
                        wait: if s.protocol is Tcp || rest.len() == 0 {
                            None
                        } else {
                            Some(s.frame_timeout)
                        },
                    })
                },
                Front::Call((tid, slave_id, request), rest) => {
                    &&& t.phase == (ServePhase::Calling {
                        tid,
                        slave_id,
                        function_code: request.function_code(),
                    })
                    &&& t.pending == rest
                    &&& action == (ServeActionView::Call { slave_id, request })
                },
                Front::Passed(slave_id, error, rest) => {
                    &&& t.phase is Passing
                    &&& t.pending == rest
                    &&& action == (ServeActionView::Pass { slave_id, error })
                },
            }
        }),
{
}

/// Bytes that come are pending behind those that are there. Silence keeps what the
/// protocol keeps and reads on. A closed or failed connection stops the server.
pub proof fn law_server_takes_bytes(s: ServingView, data: Seq<u8>, e: ModbusError)
    ensures
        s.after_read(ReadEvent::Data, data) == (ServingView {
            protocol: s.protocol,
            frame_timeout: s.frame_timeout,
            phase: s.phase,
            pending: s.pending + data,
        }).advanced(),
        s.after_read(ReadEvent::Elapsed, data) == (ServingView {
            protocol: s.protocol,
            frame_timeout: s.frame_timeout,
            phase: s.phase,
            pending: session::kept_after_silence(s.protocol, s.pending),
        }).reading(),
        s.after_read(ReadEvent::Closed, data) == s.stopped(),
        s.after_read(ReadEvent::Failed(e), data) == s.stopped(),
{
}

/// An answer is written in one frame with the transaction of its request, with a
/// distance on a line. What has no wire form is not answered.
pub proof fn law_server_answers(
    s: ServingView,
    tid: u16,
    slave_id: u8,
    function_code: u8,
    result: Result<ResponseView, Exception>,
)
    requires
        s.phase == (ServePhase::Calling { tid, slave_id, function_code }),
    ensures
        match send_recv::server_reply(slave_id, function_code, result) {
            Some(bytes) => {
                let (t, action) = s.after_answer(result);
                &&& t.phase is Writing
                &&& t.pending == s.pending
                &&& action matches ServeActionView::Write { frame, spaced }
                &&& frame == s.protocol.framing_spec(tid).frame(bytes)
                &&& spaced == !(s.protocol is Tcp)
            },
            None => s.after_answer(result) == s.advanced(),
        },
{
}

/// After an answer was written the server goes on, and stops where it could not be.
pub proof fn law_server_writes(s: ServingView)
    ensures
        s.after_write(true) == s.advanced(),
        s.after_write(false) == s.stopped(),
{
}

} // verus!
