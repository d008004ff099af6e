//! What the transports share: finding the bus quiet, building frames, waiting
//! for bytes, answering requests, and trying again.
//!
//! Reading, writing and waiting are done elsewhere. The functions here decide
//! what is to be done next, from what has happened so far. Times are in
//! microseconds of one clock that never runs backwards.

use bytes::{Bytes, BytesMut};
use vstd::prelude::*;

use super::rtu::pdu_error;
use super::tcp;
use super::tcp::TcpConfig;
use crate::buffer;
use crate::buffer::{held_slice, put_u8};
use crate::client;
use crate::codec;
use crate::error::{ErrorView, ModbusError};
use crate::error::{CONN_CLOSED, PDU_ENCODE_ERROR, RECV_TIMEOUT};
use crate::frame::{encode_request_into, encode_response_into};
use crate::frame::{Exception, PduError, Request, RequestView, Response, ResponseView};
use crate::reconnect::{is_retryable, ReconnectConfig};
use crate::server;
use crate::server::Service;
use crate::text;
use crate::time::Micros;

verus! {

/// How an attempt to read ended.
pub enum ReadEvent {
    /// Bytes arrived.
    Data,
    /// The other end closed the connection.
    Closed,
    /// Nothing arrived in time.
    Elapsed,
    /// The transport failed.
    Failed(ModbusError),
}

/// A deadline `span` after `now_us`, at most the last time there is.
pub open spec fn deadline(now_us: u64, span: int) -> u64 {
    if now_us + span <= u64::MAX {
        (now_us + span) as u64
    } else {
        u64::MAX
    }
}

// ── Finding the bus quiet ───────────────────────────────────────────────

/// How long the first look at the bus takes.
pub const QUICK_POLL_US: u64 = 1_000;

/// The silence that ends draining.
pub const DRAIN_QUIET_US: u64 = 10_000;

/// The longest that draining goes on.
pub const DRAIN_MAX_US: u64 = 200_000;

/// How far draining has come.
#[derive(Debug, Clone, Copy, PartialEq, Eq, Structural)]
pub enum Drain {
    /// Nothing has been read yet.
    Probing,
    /// Stale bytes have been read, and more may follow until the deadline.
    Draining { deadline_us: u64 },
}

/// What to do next while draining.
pub enum DrainStep {
    /// Read again, waiting at most `wait_us`, and drop what arrives.
    Read { state: Drain, wait_us: u64 },
    /// The bus is quiet.
    Quiet,
    /// The bus is busy, or the transport failed.
    Failed(ModbusError),
}

/// A [`DrainStep`], with the error as its view.
#[verifier::ext_equal]
pub enum DrainStepView {
    Read { state: Drain, wait_us: u64 },
    Quiet,
    Failed(ErrorView),
}

impl View for DrainStep {
    type V = DrainStepView;

    open spec fn view(&self) -> DrainStepView {
        match *self {
            DrainStep::Read { state, wait_us } => DrainStepView::Read { state, wait_us },
            DrainStep::Quiet => DrainStepView::Quiet,
            DrainStep::Failed(e) => DrainStepView::Failed(e@),
        }
    }
}

/// When draining has to end, once a byte was read at `now_us`.
pub open spec fn drain_deadline(state: Drain, now_us: u64) -> u64 {
    match state {
        Drain::Probing => deadline(now_us, DRAIN_MAX_US as int),
        Drain::Draining { deadline_us } => deadline_us,
    }
}

/// What follows a read while draining.
///
/// Silence means that the bus is quiet. While bytes keep arriving draining goes
/// on, each time waiting for a short silence, until the deadline is reached:
/// then the bus is busy.
pub open spec fn drain_next(state: Drain, event: ReadEvent, now_us: u64) -> DrainStepView {
    match event {
        ReadEvent::Closed => DrainStepView::Failed(ErrorView::Connection("connection closed"@)),
        ReadEvent::Failed(e) => DrainStepView::Failed(e@),
        ReadEvent::Elapsed => DrainStepView::Quiet,
        ReadEvent::Data => {
            let end = drain_deadline(state, now_us);
            if now_us >= end {
                DrainStepView::Failed(
                    ErrorView::Connection("bus busy: data received during quiet period"@),
                )
            } else {
                DrainStepView::Read {
                    state: Drain::Draining { deadline_us: end },
                    wait_us: if end - now_us < DRAIN_QUIET_US {
                        (end - now_us) as u64
                    } else {
                        DRAIN_QUIET_US
                    },
                }
            }
        },
    }
}

/// Start draining: a quick look whether anything is there.
pub fn drain_start() -> (r: DrainStep)
    ensures
        r@ == (DrainStepView::Read { state: Drain::Probing, wait_us: QUICK_POLL_US }),
{
    DrainStep::Read { state: Drain::Probing, wait_us: QUICK_POLL_US }
}

/// Go on draining, after a read that ended at `now_us`.
pub fn drain_stale_data(state: Drain, event: ReadEvent, now_us: u64) -> (r: DrainStep)
    ensures
        r@ == drain_next(state, event, now_us),
{
    match event {
        ReadEvent::Closed => DrainStep::Failed(ModbusError::connection("connection closed")),
        ReadEvent::Failed(e) => DrainStep::Failed(e),
        ReadEvent::Elapsed => DrainStep::Quiet,
        ReadEvent::Data => {
            let deadline_us: u64 = match state {
                Drain::Probing => now_us.saturating_add(DRAIN_MAX_US),
                Drain::Draining { deadline_us } => deadline_us,
            };
            if now_us >= deadline_us {
                return DrainStep::Failed(
                    ModbusError::connection("bus busy: data received during quiet period"),
                );
            }
            let remaining: u64 = deadline_us - now_us;
            let wait_us: u64 = if remaining < DRAIN_QUIET_US {
                remaining
            } else {
                DRAIN_QUIET_US
            };
            DrainStep::Read { state: Drain::Draining { deadline_us }, wait_us }
        },
    }
}

/// Draining never waits past its deadline, never moves the deadline, and ends
/// with an error once bytes arrive at or after it.
pub proof fn law_draining_ends(deadline_us: u64, event: ReadEvent, now_us: u64)
    ensures
        match drain_next(Drain::Draining { deadline_us }, event, now_us) {
            DrainStepView::Read { state, wait_us } => {
                &&& event is Data
                &&& state == (Drain::Draining { deadline_us })
                &&& 0 < wait_us <= DRAIN_QUIET_US
                &&& now_us + wait_us <= deadline_us
            },
            DrainStepView::Quiet => event is Elapsed,
            DrainStepView::Failed(e) => event is Data ==> now_us >= deadline_us && e is Connection,
        },
{
}

/// From the first stale byte on, draining goes on for at most 200 ms.
pub proof fn law_draining_starts_with_a_deadline(now_us: u64)
    requires
        now_us + DRAIN_MAX_US <= u64::MAX,
    ensures
        drain_next(Drain::Probing, ReadEvent::Data, now_us) == (DrainStepView::Read {
            state: Drain::Draining { deadline_us: (now_us + DRAIN_MAX_US) as u64 },
            wait_us: DRAIN_QUIET_US,
        }),
{
}

// ── Building frames ─────────────────────────────────────────────────────

/// How a slave address and PDU become a frame.
#[derive(Debug, Clone, Copy, PartialEq, Eq, Structural)]
pub enum Framing {
    Rtu,
    Ascii,
    /// With the transaction identifier for the frame.
    Tcp(TcpConfig, u16),
}

impl Framing {
    /// The frame for a slave address and PDU.
    pub open spec fn frame(self, data: Seq<u8>) -> Seq<u8> {
        match self {
            Framing::Rtu => codec::rtu_frame(data),
            Framing::Ascii => codec::ascii_frame(data),
            Framing::Tcp(config, tid) => tcp::tcp_frame(data, config, tid),
        }
    }

    /// Append the frame for a slave address and PDU to a buffer.
    pub fn encode(&self, data: &[u8], buf: &mut BytesMut)
        requires
            1 <= data@.len() <= 254,
            buffer::buffered(*old(buf)).len() + 600 <= isize::MAX,
        ensures
            buffer::buffered(*final(buf)) == buffer::buffered(*old(buf)) + self.frame(data@),
    {
        match self {
            Framing::Rtu => codec::encode_rtu_frame(data, buf),
            Framing::Ascii => codec::encode_ascii_frame_into(data, buf),
            Framing::Tcp(config, tid) => {
                assert(tcp::pdu_of(data@).len() == data@.len() - 1);
                tcp::encode_tcp_frame(data, buf, config, *tid)
            },
        }
    }
}

/// Build the frame of a request. The buffer is working space, and is empty
/// again where a frame was built.
pub fn send_frame(
    write_buf: &mut BytesMut,
    slave_id: u8,
    request: &Request<'_>,
    framing: &Framing,
) -> (r: Result<Bytes, ModbusError>)
    ensures
        match request@.encoding_error() {
            None => {
                &&& r is Ok
                &&& buffer::octets(r->Ok_0) == framing.frame(seq![slave_id] + request@.pdu())
                &&& buffer::buffered(*final(write_buf)) == Seq::<u8>::empty()
            },
            Some(e) => {
                &&& r is Err
                &&& r->Err_0@ == ErrorView::Protocol(PDU_ENCODE_ERROR@ + " "@ + e.message())
                &&& buffer::buffered(*final(write_buf)) == seq![slave_id] + (
                if e is ByteCountOverflow {
                    request@.head()
                } else {
                    Seq::empty()
                })
            },
        },
{
    write_buf.clear();
    put_u8(write_buf, slave_id);
    assert(buffer::buffered(*write_buf) =~= seq![slave_id]);
    match encode_request_into(request, write_buf) {
        Ok(()) => {},
        Err(e) => {
            assert(buffer::buffered(*write_buf) =~= seq![slave_id] + (if e is ByteCountOverflow {
                request@.head()
            } else {
                Seq::empty()
            }));
            return Err(pdu_error(PDU_ENCODE_ERROR, e));
        },
    }
    let send_buf = write_buf.split();
    framing.encode(held_slice(&send_buf), write_buf);
    let framed = write_buf.split();
    assert(buffer::buffered(framed) =~= framing.frame(seq![slave_id] + request@.pdu()));
    Ok(framed.freeze())
}

// ── Waiting for bytes ───────────────────────────────────────────────────

/// What to do next while waiting for bytes.
pub enum ReadStep {
    /// Read again, waiting at most `wait_us`.
    Read { wait_us: u64 },
    /// As many bytes are there as will come.
    Ready,
    /// Nothing came, or the transport failed.
    Failed(ModbusError),
}

/// A [`ReadStep`], with the error as its view.
#[verifier::ext_equal]
pub enum ReadStepView {
    Read { wait_us: u64 },
    Ready,
    Failed(ErrorView),
}

impl View for ReadStep {
    type V = ReadStepView;

    open spec fn view(&self) -> ReadStepView {
        match *self {
            ReadStep::Read { wait_us } => ReadStepView::Read { wait_us },
            ReadStep::Ready => ReadStepView::Ready,
            ReadStep::Failed(e) => ReadStepView::Failed(e@),
        }
    }
}

/// Whether to wait for more, with `held` bytes there and `min` wanted.
pub open spec fn read_goal(held: nat, min: nat, now_us: u64, deadline_us: u64) -> ReadStepView {
    if held >= min || now_us >= deadline_us {
        ReadStepView::Ready
    } else {
        ReadStepView::Read { wait_us: (deadline_us - now_us) as u64 }
    }
}

/// What follows a read, with `held` bytes there after it. Bytes that came
/// before silence or the end of the connection are used: a short frame may
/// still be a whole exception reply.
pub open spec fn read_next(
    event: ReadEvent,
    held: nat,
    min: nat,
    now_us: u64,
    deadline_us: u64,
) -> ReadStepView {
    match event {
        ReadEvent::Data => read_goal(held, min, now_us, deadline_us),
        ReadEvent::Closed => if held == 0 {
            ReadStepView::Failed(ErrorView::Connection(CONN_CLOSED@))
        } else {
            ReadStepView::Ready
        },
        ReadEvent::Elapsed => if held == 0 {
            ReadStepView::Failed(ErrorView::Timeout(RECV_TIMEOUT@))
        } else {
            ReadStepView::Ready
        },
        ReadEvent::Failed(e) => ReadStepView::Failed(e@),
    }
}

/// Start waiting until `min` bytes are there, or the deadline is reached.
pub fn read_start(held: usize, min: usize, now_us: u64, deadline_us: u64) -> (r: ReadStep)
    ensures
        r@ == read_goal(held as nat, min as nat, now_us, deadline_us),
{
    if held >= min || now_us >= deadline_us {
        ReadStep::Ready
    } else {
        ReadStep::Read { wait_us: deadline_us - now_us }
    }
}

/// Go on waiting until `min` bytes are there, after a read that ended at
/// `now_us` with `held` bytes there.
pub fn read_at_least(
    event: ReadEvent,
    held: usize,
    min: usize,
    now_us: u64,
    deadline_us: u64,
) -> (r: ReadStep)
    ensures
        r@ == read_next(event, held as nat, min as nat, now_us, deadline_us),
{
    match event {
        ReadEvent::Data => read_start(held, min, now_us, deadline_us),
        ReadEvent::Closed => if held == 0 {
            ReadStep::Failed(ModbusError::connection(CONN_CLOSED))
        } else {
            ReadStep::Ready
        },
        ReadEvent::Elapsed => if held == 0 {
            ReadStep::Failed(ModbusError::timeout(RECV_TIMEOUT))
        } else {
            ReadStep::Ready
        },
        ReadEvent::Failed(e) => ReadStep::Failed(e),
    }
}

/// What to do next while waiting for a response.
pub enum ReceiveStep {
    /// Read again, waiting at most `wait_us`.
    Read { wait_us: u64 },
    /// The transaction is over.
    Done(Result<Response, ModbusError>),
}

/// A [`ReceiveStep`], with the outcome as its view.
#[verifier::ext_equal]
pub enum ReceiveStepView {
    Read { wait_us: u64 },
    Done(Result<ResponseView, ErrorView>),
}

impl View for ReceiveStep {
    type V = ReceiveStepView;

    open spec fn view(&self) -> ReceiveStepView {
        match *self {
            ReceiveStep::Read { wait_us } => ReceiveStepView::Read { wait_us },
            ReceiveStep::Done(r) => ReceiveStepView::Done(client::reply_view(r)),
        }
    }
}

// ── Trying again ────────────────────────────────────────────────────────

/// What sort of error a client gives up with.
#[derive(Debug, Clone, Copy, PartialEq, Eq, Structural)]
pub enum LinkKind {
    /// A network connection.
    Connection,
    /// A serial line.
    Serial,
}

impl LinkKind {
    /// The error of this sort with the given message.
    pub open spec fn error(self, message: Seq<char>) -> ErrorView {
        match self {
            LinkKind::Connection => ErrorView::Connection(message),
            LinkKind::Serial => ErrorView::Serial(message),
        }
    }

    fn make_error(self, message: String) -> (r: ModbusError)
        ensures
            r@ == self.error(message@),
    {
        match self {
            LinkKind::Connection => ModbusError::Connection(message),
            LinkKind::Serial => ModbusError::Serial(message),
        }
    }
}

/// How many times in a row a transport may fail to be rebuilt.
pub const MAX_REBUILD_FAILURES: u32 = 3;

/// A call that is tried again while its transport fails.
pub struct Retry {
    config: Option<ReconnectConfig>,
    link: LinkKind,
    failures: u32,
    rebuild_failures: u32,
}

/// The data of a [`Retry`].
pub struct RetryView {
    pub config: Option<ReconnectConfig>,
    pub link: LinkKind,
    /// How many attempts have failed.
    pub failures: u32,
    /// How many rebuilds have failed in a row.
    pub rebuild_failures: u32,
}

impl View for Retry {
    type V = RetryView;

    closed spec fn view(&self) -> RetryView {
        RetryView {
            config: self.config,
            link: self.link,
            failures: self.failures,
            rebuild_failures: self.rebuild_failures,
        }
    }
}

/// What to do next with a call.
pub enum RetryStep {
    /// Try the call.
    Send,
    /// Wait for the interval, then rebuild the transport.
    Rebuild { interval: Micros },
    /// The call is over.
    Finish(Result<Response, ModbusError>),
}

/// A [`RetryStep`], with the outcome as its view.
#[verifier::ext_equal]
pub enum RetryStepView {
    Send,
    Rebuild { interval: Micros },
    Finish(Result<ResponseView, ErrorView>),
}

impl View for RetryStep {
    type V = RetryStepView;

    open spec fn view(&self) -> RetryStepView {
        match *self {
            RetryStep::Send => RetryStepView::Send,
            RetryStep::Rebuild { interval } => RetryStepView::Rebuild { interval },
            RetryStep::Finish(r) => RetryStepView::Finish(client::reply_view(r)),
        }
    }
}

impl RetryView {
    /// The state after an attempt, and what to do then. Only a failure of the
    /// transport is worth another attempt.
    pub open spec fn after_send(self, outcome: Result<ResponseView, ErrorView>) -> (
        RetryView,
        RetryStepView,
    ) {
        match (self.config, outcome) {
            (Some(config), Err(e)) if e.is_retryable() => {
                let failures = if self.failures < u32::MAX {
                    (self.failures + 1) as u32
                } else {
                    u32::MAX
                };
                let next = RetryView { failures, ..self };
                if config.retries() > 0 && failures > config.retries() {
                    (
                        next,
                        RetryStepView::Finish(
                            Err(
                                self.link.error(
                                    "reconnect max_retries("@ + text::decimal(
                                        config.retries() as nat,
                                    ) + ") exceeded: "@ + e.detail(),
                                ),
                            ),
                        ),
                    )
                } else {
                    (next, RetryStepView::Rebuild { interval: config.delay() })
                }
            },
            _ => (self, RetryStepView::Finish(outcome)),
        }
    }

    /// The state after a rebuild, and what to do then. The call is tried again
    /// even if the rebuild failed, but not after three failures in a row.
    pub open spec fn after_rebuild(self, rebuilt: bool) -> (RetryView, RetryStepView) {
        if rebuilt {
            (RetryView { rebuild_failures: 0, ..self }, RetryStepView::Send)
        } else {
            let next = RetryView { rebuild_failures: (self.rebuild_failures + 1) as u32, ..self };
            if next.rebuild_failures >= MAX_REBUILD_FAILURES {
                (
                    next,
                    RetryStepView::Finish(
                        Err(
                            self.link.error(
                                "reconnect: transport rebuild failed 3 consecutive times"@,
                            ),
                        ),
                    ),
                )
            } else {
                (next, RetryStepView::Send)
            }
        }
    }

    /// Whether rebuilds may still fail.
    pub open spec fn is_open(self) -> bool {
        self.rebuild_failures < MAX_REBUILD_FAILURES
    }
}

impl Retry {
    /// A call that is tried again as the configuration says, or only once
    /// without one.
    pub fn new(config: Option<ReconnectConfig>, link: LinkKind) -> (r: Self)
        ensures
            r@ == (RetryView { config, link, failures: 0, rebuild_failures: 0 }),
            r@.is_open(),
    {
        Retry { config, link, failures: 0, rebuild_failures: 0 }
    }

    /// Take the outcome of an attempt.
    pub fn on_sent(&mut self, outcome: Result<Response, ModbusError>) -> (r: RetryStep)
        ensures
            (final(self)@, r@) == old(self)@.after_send(client::reply_view(outcome)),
    {
        let config = match self.config {
            Some(config) => config,
            None => return RetryStep::Finish(outcome),
        };
        let e = match outcome {
            Ok(rsp) => return RetryStep::Finish(Ok(rsp)),
            Err(e) => e,
        };
        if !is_retryable(&e) {
            return RetryStep::Finish(Err(e));
        }
        self.failures = self.failures.saturating_add(1);
        if config.max_retries() > 0 && self.failures > config.max_retries() {
            let mut s = "reconnect max_retries(".to_owned();
            text::push_decimal(&mut s, config.max_retries() as u128);
            s.append(") exceeded: ");
            s.append(e.detail().as_str());
            return RetryStep::Finish(Err(self.link.make_error(s)));
        }
        RetryStep::Rebuild { interval: config.interval() }
    }

    /// Take the outcome of a rebuild.
    pub fn on_rebuilt(&mut self, rebuilt: bool) -> (r: RetryStep)
        requires
            old(self)@.is_open(),
        ensures
            (final(self)@, r@) == old(self)@.after_rebuild(rebuilt),
            r@ is Send ==> final(self)@.is_open(),
    {
        if rebuilt {
            self.rebuild_failures = 0;
            return RetryStep::Send;
        }
        self.rebuild_failures = self.rebuild_failures + 1;
        if self.rebuild_failures >= MAX_REBUILD_FAILURES {
            return RetryStep::Finish(
                Err(
                    self.link.make_error(
                        "reconnect: transport rebuild failed 3 consecutive times".to_owned(),
                    ),
                ),
            );
        }
        RetryStep::Send
    }
}

/// What happens to a call that is tried again: how each attempt ended, and
/// whether the rebuild after it worked.
pub struct Attempt {
    pub outcome: Result<ResponseView, ErrorView>,
    pub rebuilt: bool,
}

/// Whether a call is still going on after some attempts.
pub open spec fn still_trying(start: RetryView, attempts: Seq<Attempt>) -> Option<RetryView>
    decreases attempts.len(),
{
    if attempts.len() == 0 {
        Some(start)
    } else {
        match still_trying(start, attempts.drop_last()) {
            None => None,
            Some(state) => {
                let (sent, step) = state.after_send(attempts.last().outcome);
                if step is Rebuild {
                    let (next, step) = sent.after_rebuild(attempts.last().rebuilt);
                    if step is Send {
                        Some(next)
                    } else {
                        None
                    }
                } else {
                    None
                }
            },
        }
    }
}

/// A call with a limit on retries ends after at most one attempt more than
/// that.
pub proof fn law_retries_are_limited(
    config: ReconnectConfig,
    link: LinkKind,
    attempts: Seq<Attempt>,
)
    requires
        0 < config.retries() < u32::MAX,
        attempts.len() > config.retries(),
    ensures
        still_trying(
            RetryView { config: Some(config), link, failures: 0, rebuild_failures: 0 },
            attempts,
        ) is None,
{
    lemma_failures_count(config, link, attempts);
}

proof fn lemma_failures_count(config: ReconnectConfig, link: LinkKind, attempts: Seq<Attempt>)
    requires
        0 < config.retries() < u32::MAX,
    ensures
        match still_trying(
            RetryView { config: Some(config), link, failures: 0, rebuild_failures: 0 },
            attempts,
        ) {
            Some(state) => {
                &&& state.config == Some(config)
                &&& state.failures == attempts.len()
                &&& state.failures <= config.retries()
            },
            None => true,
        },
    decreases attempts.len(),
{
    if attempts.len() > 0 {
        lemma_failures_count(config, link, attempts.drop_last());
    }
}

/// A response, a timeout, a broken frame and an exception are never tried
/// again.
pub proof fn law_only_transport_failures_are_retried(
    state: RetryView,
    outcome: Result<ResponseView, ErrorView>,
)
    ensures
        state.after_send(outcome).1 is Rebuild ==> outcome is Err && (outcome->Err_0 is Connection
            || outcome->Err_0 is Serial),
        !(state.after_send(outcome).1 is Rebuild) && !(outcome matches Err(e) && e.is_retryable())
            ==> state.after_send(outcome).1 == RetryStepView::Finish(outcome),
{
}

/// Without a limit on retries, every failure of the transport leads to another
/// attempt.
pub proof fn law_zero_retries_is_no_limit(
    state: RetryView,
    config: ReconnectConfig,
    e: ErrorView,
)
    requires
        state.config == Some(config),
        config.retries() == 0,
        e.is_retryable(),
    ensures
        state.after_send(Err(e)).1 == (RetryStepView::Rebuild { interval: config.delay() }),
{
}

/// The interval between attempts is always the same.
pub proof fn law_interval_is_fixed(state: RetryView, outcome: Result<ResponseView, ErrorView>)
    ensures
        state.after_send(outcome).0.config == state.config,
        state.after_send(outcome).1 matches RetryStepView::Rebuild { interval }
            ==> state.config matches Some(config) && interval == config.delay(),
{
}

/// A transport that cannot be rebuilt three times in a row ends the call, and a
/// rebuild that works starts the count anew.
pub proof fn law_three_failed_rebuilds_end_a_call(state: RetryView)
    requires
        state.rebuild_failures == 0,
    ensures
        ({
            let (one, first) = state.after_rebuild(false);
            let (two, second) = one.after_rebuild(false);
            let (three, third) = two.after_rebuild(false);
            &&& first is Send
            &&& second is Send
            &&& third matches RetryStepView::Finish(r) && r is Err
            &&& two.after_rebuild(true) == (state, RetryStepView::Send)
        }),
{
}

// ── Answering requests ──────────────────────────────────────────────────

/// What a server sends back: the slave address and the response, or nothing
/// where the response has no wire form. An exception names the function that
/// failed.
pub open spec fn server_reply(
    slave_id: u8,
    function_code: u8,
    result: Result<ResponseView, Exception>,
) -> Option<Seq<u8>> {
    let rsp = match result {
        Ok(rsp) => rsp,
        Err(e) => ResponseView::Exception(function_code, e),
    };
    if rsp.encoding_error() is None {
        Some(seq![slave_id] + rsp.pdu())
    } else {
        None
    }
}

/// The request that a server acts on. Broadcasts and PDUs that do not decode
/// get no answer.
pub open spec fn server_request(raw: Seq<u8>, slave_id: u8) -> Option<RequestView> {
    if slave_id == 0 {
        None
    } else {
        match RequestView::parse(raw) {
            Ok(request) => Some(request),
            Err(_) => None,
        }
    }
}

/// The request in a PDU that was addressed to a slave, if it is to be answered.
pub fn decode_server_request(raw: &Bytes, slave_id: u8) -> (r: Option<Request<'static>>)
    ensures
        match server_request(buffer::octets(*raw), slave_id) {
            Some(request) => r is Some && r->0@ == request && request.fits_memory(),
            None => r is None,
        },
{
    // A broadcast is answered by no one.
    if slave_id == 0 {
        return None;
    }
    if raw.is_empty() {
        return None;
    }
    match Request::try_from(raw.clone()) {
        Ok(req) => {
            proof {
                crate::frame::laws::law_decoded_request_is_valid(buffer::octets(*raw));
            }
            Some(req)
        },
        Err(_) => None,
    }
}

/// What is wrong with a PDU that a server does not answer. Nothing is wrong with a
/// broadcast, and of a frame without a PDU nothing is said.
pub open spec fn request_error(raw: Seq<u8>, slave_id: u8) -> Option<PduError> {
    if slave_id == 0 || raw.len() == 0 {
        None
    } else {
        match RequestView::parse(raw) {
            Ok(_) => None,
            Err(e) => Some(e),
        }
    }
}

/// What is wrong with a PDU that a server does not answer, for a log.
pub fn server_request_error(raw: &Bytes, slave_id: u8) -> (r: Option<PduError>)
    ensures
        r == request_error(buffer::octets(*raw), slave_id),
{
    if slave_id == 0 || raw.is_empty() {
        return None;
    }
    match Request::try_from(raw.clone()) {
        Ok(_) => None,
        Err(e) => Some(e),
    }
}

/// The answer to a request: slave address and PDU. The buffer is working space.
pub fn encode_server_response(
    slave_id: u8,
    function_code: u8,
    result: Result<Response, Exception>,
    rsp_buf: &mut BytesMut,
) -> (r: Option<Bytes>)
    ensures
        match server_reply(slave_id, function_code, server::outcome(result)) {
            Some(bytes) => {
                &&& r is Some
                &&& buffer::octets(r->0) == bytes
                &&& buffer::buffered(*final(rsp_buf)) == Seq::<u8>::empty()
            },
            None => r is None && buffer::buffered(*final(rsp_buf)) == seq![slave_id],
        },
{
    let response = match result {
        Ok(rsp) => rsp,
        Err(ex) => Response::Exception(function_code, ex),
    };
    rsp_buf.clear();
    put_u8(rsp_buf, slave_id);
    assert(buffer::buffered(*rsp_buf) =~= seq![slave_id]);
    if encode_response_into(&response, rsp_buf).is_err() {
        return None;
    }
    Some(rsp_buf.split().freeze())
}

/// Answer the request in a PDU: decode it, call the service, and encode what it
/// returns. Nothing is returned, and the service is not called, for a broadcast
/// or a PDU that does not decode.
pub fn process_server_request<S: Service>(
    raw: &Bytes,
    slave_id: u8,
    service: &mut S,
    rsp_buf: &mut BytesMut,
) -> (r: Option<Bytes>)
    ensures
        match server_request(buffer::octets(*raw), slave_id) {
            None => {
                &&& r is None
                &&& *final(service) == *old(service)
                &&& *final(rsp_buf) == *old(rsp_buf)
            },
            Some(request) => exists|result: Result<ResponseView, Exception>|
                {
                    &&& #[trigger] S::serves(
                        *old(service),
                        slave_id,
                        request,
                        *final(service),
                        result,
                    )
                    &&& match server_reply(slave_id, request.function_code(), result) {
                        Some(bytes) => {
                            &&& r is Some
                            &&& buffer::octets(r->0) == bytes
                            &&& buffer::buffered(*final(rsp_buf)) == Seq::<u8>::empty()
                        },
                        None => r is None && buffer::buffered(*final(rsp_buf)) == seq![slave_id],
                    }
                },
        },
{
    let request = match decode_server_request(raw, slave_id) {
        Some(request) => request,
        None => return None,
    };
    let function_code: u8 = request.function_code().value();
    let result = service.call(slave_id, request);
    encode_server_response(slave_id, function_code, result, rsp_buf)
}

/// An exception is sent as the function code with its highest bit set, and the
/// exception code.
pub proof fn law_exception_reply(slave_id: u8, function_code: u8, e: Exception)
    requires
        function_code < 128,
    ensures
        server_reply(slave_id, function_code, Err(e)) == Some(
            seq![slave_id, (function_code + 128) as u8, e.code()],
        ),
{
    assert(server_reply(slave_id, function_code, Err(e))->0 =~= seq![
        slave_id,
        (function_code + 128) as u8,
        e.code(),
    ]);
}

/// No broadcast is answered.
pub proof fn law_broadcast_is_not_answered(raw: Seq<u8>)
    ensures
        server_request(raw, 0) is None,
{
}

} // verus!
