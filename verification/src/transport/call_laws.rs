//! What a call, its retries and a server's reply come to.

use vstd::prelude::*;

use super::send_recv;
use super::send_recv::{
    Drain, DrainStep, DrainStepView, Framing, LinkKind, ReadEvent, ReadStep, ReadStepView,
    ReceiveStep, ReceiveStepView, RetryStep, RetryStepView, RetryView,
};
use super::send_recv::{DRAIN_MAX_US, DRAIN_QUIET_US, MAX_REBUILD_FAILURES, QUICK_POLL_US};
use super::tcp;
use crate::codec;
use crate::error::{ErrorView, ModbusError};
use crate::frame::{Exception, RequestView, ResponseView};
use crate::reconnect::ReconnectConfig;
use crate::text;

verus! {

// ── Retries ─────────────────────────────────────────────────────────────

/// Exactly a lost connection and a failed port are worth another try.
pub proof fn law_what_is_worth_a_retry(e: ModbusError)
    ensures
        e@.is_retryable() <==> match e {
            ModbusError::Connection(_) => true,
            ModbusError::Serial(_) => true,
            _ => false,
        },
{
}

/// As long as fewer calls have failed than retries are allowed, a lost transport is
/// built anew after the configured delay, and the failure is counted. So the limit is
/// reached and not only kept.
pub proof fn law_retries_are_used_up(state: RetryView, config: ReconnectConfig, e: ErrorView)
    requires
        state.config == Some(config),
        state.failures < config.retries(),
        e is Connection || e is Serial,
    ensures
        state.after_send(Err(e)).1 == (RetryStepView::Rebuild { interval: config.delay() }),
        state.after_send(Err(e)).0.failures == state.failures + 1,
        state.after_send(Err(e)).0.rebuild_failures == state.rebuild_failures,
        state.after_send(Err(e)).0.config == state.config,
        state.after_send(Err(e)).0.link == state.link,
{
}

/// With the retries used up the call ends, and the error names the limit and the last
/// failure.
pub proof fn law_used_up_retries_end_the_call(
    state: RetryView,
    config: ReconnectConfig,
    e: ErrorView,
)
    requires
        state.config == Some(config),
        config.retries() > 0,
        state.failures >= config.retries(),
        state.failures < u32::MAX || config.retries() < u32::MAX,
        e is Connection || e is Serial,
    ensures
        ({
            let told = "reconnect max_retries("@ + text::decimal(config.retries() as nat)
                + ") exceeded: "@ + e.detail();
            state.after_send(Err(e)).1 == RetryStepView::Finish(
                Err(
                    match state.link {
                        LinkKind::Connection => ErrorView::Connection(told),
                        LinkKind::Serial => ErrorView::Serial(told),
                    },
                ),
            )
        }),
        state.after_send(Err(e)).0.failures == (if state.failures < u32::MAX {
            state.failures + 1
        } else {
            state.failures as int
        }),
        state.after_send(Err(e)).0.rebuild_failures == state.rebuild_failures,
        state.after_send(Err(e)).0.config == state.config,
        state.after_send(Err(e)).0.link == state.link,
{
}

/// Where the limit is the largest number that can be counted, the count stays at it
/// and the transport is built anew every time.
pub proof fn law_largest_limit_is_never_passed(
    state: RetryView,
    config: ReconnectConfig,
    e: ErrorView,
)
    requires
        state.config == Some(config),
        config.retries() == u32::MAX,
        e is Connection || e is Serial,
    ensures
        state.after_send(Err(e)).1 == (RetryStepView::Rebuild { interval: config.delay() }),
{
}

/// As many lost transports as there are retries are all built anew when building them
/// succeeds: with `m` retries, a call is sent `m` times again.
pub proof fn law_every_retry_is_made(
    config: ReconnectConfig,
    link: LinkKind,
    attempts: Seq<send_recv::Attempt>,
)
    requires
        attempts.len() <= config.retries(),
        forall|i: int|
            0 <= i < attempts.len() ==> (#[trigger] attempts[i]).rebuilt && attempts[i].outcome is Err
                && (attempts[i].outcome->Err_0 is Connection || attempts[i].outcome->Err_0 is Serial),
    ensures
        send_recv::still_trying(
            RetryView { config: Some(config), link, failures: 0, rebuild_failures: 0 },
            attempts,
        ) == Some(
            RetryView {
                config: Some(config),
                link,
                failures: attempts.len() as u32,
                rebuild_failures: 0,
            },
        ),
    decreases attempts.len(),
{
    if attempts.len() > 0 {
        let head = attempts.drop_last();
        assert(forall|i: int| 0 <= i < head.len() ==> head[i] == #[trigger] attempts[i]);
        law_every_retry_is_made(config, link, head);
        let last = attempts[attempts.len() - 1];
        assert(last == attempts.last());
        assert(last.outcome == Err::<ResponseView, ErrorView>(last.outcome->Err_0));
        let state = RetryView {
            config: Some(config),
            link,
            failures: head.len() as u32,
            rebuild_failures: 0,
        };
        law_retries_are_used_up(state, config, last.outcome->Err_0);
    }
}

/// Without a configuration, with a response, and after any other error the call ends
/// with what it got, and nothing is counted.
pub proof fn law_what_is_not_retried(state: RetryView, outcome: Result<ResponseView, ErrorView>)
    requires
        state.config is None || outcome is Ok || !(outcome->Err_0 is Connection
            || outcome->Err_0 is Serial),
    ensures
        state.after_send(outcome) == (state, RetryStepView::Finish(outcome)),
{
}

/// Without a limit the call never ends for a lost transport.
pub proof fn law_unlimited_retries(state: RetryView, config: ReconnectConfig, e: ErrorView)
    requires
        state.config == Some(config),
        config.retries() == 0,
        e is Connection || e is Serial,
    ensures
        state.after_send(Err(e)).1 == (RetryStepView::Rebuild { interval: config.delay() }),
        state.after_send(Err(e)).0.failures == (if state.failures < u32::MAX {
            state.failures + 1
        } else {
            state.failures as int
        }),
        state.after_send(Err(e)).0.rebuild_failures == state.rebuild_failures,
        state.after_send(Err(e)).0.config == state.config,
        state.after_send(Err(e)).0.link == state.link,
{
}

/// A call is open as long as fewer than three transports in a row failed to be built.
pub proof fn law_open_calls(state: RetryView)
    ensures
        state.is_open() == (state.rebuild_failures < 3),
{
}

/// A transport that was built anew is used, and the count of failures to build one
/// starts again. The third failure in a row ends the call.
pub proof fn law_rebuilding(state: RetryView)
    requires
        state.rebuild_failures < 3,
    ensures
        MAX_REBUILD_FAILURES == 3,
        state.is_open(),
        state.after_rebuild(true) == (
            (RetryView {
                config: state.config,
                link: state.link,
                failures: state.failures,
                rebuild_failures: 0,
            }),
            RetryStepView::Send,
        ),
        ({
            let (next, step) = state.after_rebuild(false);
            let told = "reconnect: transport rebuild failed 3 consecutive times"@;
            &&& next.rebuild_failures == state.rebuild_failures + 1
            &&& next.failures == state.failures
            &&& next.config == state.config
            &&& next.link == state.link
            &&& state.rebuild_failures < 2 ==> step == RetryStepView::Send
            &&& state.rebuild_failures == 2 ==> step == RetryStepView::Finish(
                Err(
                    match state.link {
                        LinkKind::Connection => ErrorView::Connection(told),
                        LinkKind::Serial => ErrorView::Serial(told),
                    },
                ),
            )
        }),
{
}

// ── Steps and their views ───────────────────────────────────────────────

/// The view of a step is of its sort and holds what the step holds.
pub proof fn law_step_views(
    drain: DrainStep,
    read: ReadStep,
    receive: ReceiveStep,
    retry: RetryStep,
)
    ensures
        match drain {
            DrainStep::Read { state: s, wait_us: w } => drain@ matches DrainStepView::Read {
                state,
                wait_us,
            } && state == s && wait_us == w,
            DrainStep::Quiet => drain@ is Quiet,
            DrainStep::Failed(e) => drain@ == DrainStepView::Failed(e@),
        },
        match read {
            ReadStep::Read { wait_us: w } => read@ matches ReadStepView::Read { wait_us } && wait_us
                == w,
            ReadStep::Ready => read@ is Ready,
            ReadStep::Failed(e) => read@ == ReadStepView::Failed(e@),
        },
        match receive {
            ReceiveStep::Read { wait_us: w } => receive@ matches ReceiveStepView::Read { wait_us }
                && wait_us == w,
            ReceiveStep::Done(Ok(rsp)) => receive@ == ReceiveStepView::Done(Ok(rsp@)),
            ReceiveStep::Done(Err(e)) => receive@ == ReceiveStepView::Done(Err(e@)),
        },
        match retry {
            RetryStep::Send => retry@ is Send,
            RetryStep::Rebuild { interval: d } => retry@ matches RetryStepView::Rebuild { interval }
                && interval == d,
            RetryStep::Finish(Ok(rsp)) => retry@ == RetryStepView::Finish(Ok(rsp@)),
            RetryStep::Finish(Err(e)) => retry@ == RetryStepView::Finish(Err(e@)),
        },
{
}

// ── Reading ─────────────────────────────────────────────────────────────

/// A deadline lies the whole span ahead, or at the end of time.
pub proof fn law_deadline(now_us: u64, span: u64)
    ensures
        now_us + span <= u64::MAX ==> send_recv::deadline(now_us, span as int) == now_us + span,
        now_us + span > u64::MAX ==> send_recv::deadline(now_us, span as int) == u64::MAX,
{
}

/// Draining polls for a millisecond, then waits for ten milliseconds of silence, and
/// gives up after two hundred.
pub proof fn law_draining(deadline_us: u64, now_us: u64, e: ModbusError)
    ensures
        QUICK_POLL_US == 1000,
        DRAIN_QUIET_US == 10_000,
        DRAIN_MAX_US == 200_000,
        ({
            let step = send_recv::drain_next(Drain::Probing, ReadEvent::Data, now_us);
            now_us + 200_000 <= u64::MAX ==> step == (DrainStepView::Read {
                state: Drain::Draining { deadline_us: (now_us + 200_000) as u64 },
                wait_us: 10_000,
            })
        }),
        ({
            let step = send_recv::drain_next(
                Drain::Draining { deadline_us },
                ReadEvent::Data,
                now_us,
            );
            &&& now_us >= deadline_us ==> step == DrainStepView::Failed(
                ErrorView::Connection("bus busy: data received during quiet period"@),
            )
            &&& now_us < deadline_us ==> {
                &&& step matches DrainStepView::Read { state, wait_us }
                &&& state == (Drain::Draining { deadline_us })
                &&& wait_us <= 10_000
                &&& now_us + wait_us <= deadline_us
                &&& wait_us == 10_000 || now_us + wait_us == deadline_us
            }
        }),
{
}

/// The first stale byte sets the deadline, and draining then goes by it.
pub proof fn law_draining_goes_by_its_deadline(now_us: u64)
    ensures
        send_recv::drain_next(Drain::Probing, ReadEvent::Data, now_us) == send_recv::drain_next(
            Drain::Draining { deadline_us: send_recv::deadline(now_us, 200_000) },
            ReadEvent::Data,
            now_us,
        ),
{
}

/// Silence ends draining, whatever its state. A closed connection and a failure are
/// reported.
pub proof fn law_draining_ends_on_silence(state: Drain, now_us: u64, e: ModbusError)
    ensures
        send_recv::drain_next(state, ReadEvent::Elapsed, now_us) is Quiet,
        send_recv::drain_next(state, ReadEvent::Closed, now_us) == DrainStepView::Failed(
            ErrorView::Connection("connection closed"@),
        ),
        send_recv::drain_next(state, ReadEvent::Failed(e), now_us) == DrainStepView::Failed(e@),
{
}

/// Reading goes on while too little is held and time is left, and waits no longer than
/// the deadline.
pub proof fn law_reading(held: nat, min: nat, now_us: u64, deadline_us: u64, e: ModbusError)
    ensures
        ({
            let goal = send_recv::read_goal(held, min, now_us, deadline_us);
            &&& held >= min || now_us >= deadline_us ==> goal is Ready
            &&& held < min && now_us < deadline_us ==> {
                &&& goal matches ReadStepView::Read { wait_us }
                &&& now_us + wait_us == deadline_us
            }
            &&& send_recv::read_next(ReadEvent::Data, held, min, now_us, deadline_us) == goal
        }),
        send_recv::read_next(ReadEvent::Closed, held, min, now_us, deadline_us) == (if held == 0 {
            ReadStepView::Failed(ErrorView::Connection("connection closed"@))
        } else {
            ReadStepView::Ready
        }),
        send_recv::read_next(ReadEvent::Elapsed, held, min, now_us, deadline_us) == (if held == 0 {
            ReadStepView::Failed(ErrorView::Timeout("recv timed out"@))
        } else {
            ReadStepView::Ready
        }),
        send_recv::read_next(ReadEvent::Failed(e), held, min, now_us, deadline_us)
            == ReadStepView::Failed(e@),
{
}

// ── Framing and serving ─────────────────────────────────────────────────

/// Each sort of framing makes its own sort of frame.
pub proof fn law_framing(data: Seq<u8>, config: tcp::TcpConfig, tid: u16)
    ensures
        Framing::Rtu.frame(data) == codec::rtu_frame(data),
        Framing::Ascii.frame(data) == codec::ascii_frame(data),
        Framing::Tcp(config, tid).frame(data) == tcp::tcp_frame(data, config, tid),
{
}

/// A server's reply is the unit that was asked, and the PDU of the response. An
/// exception answers the function that was asked for. What has no wire form is not
/// sent.
pub proof fn law_server_replies(slave_id: u8, function_code: u8, rsp: ResponseView, e: Exception)
    ensures
        match send_recv::server_reply(slave_id, function_code, Ok(rsp)) {
            Some(out) => rsp.encoding_error() is None && out.len() == 1 + rsp.pdu().len() && out[0]
                == slave_id && out.skip(1) == rsp.pdu(),
            None => rsp.encoding_error() is Some,
        },
        ({
            let r = send_recv::server_reply(slave_id, function_code, Err(e));
            &&& r matches Some(out)
            &&& out.len() == 3
            &&& out[0] == slave_id
            &&& out[1] == function_code % 128 + 128
            &&& out[2] == e.code()
        }),
{
    if rsp.encoding_error() is None {
        assert((seq![slave_id] + rsp.pdu()).skip(1) =~= rsp.pdu());
    }
}

/// A server takes a request that is addressed to a unit and can be read. What cannot
/// be read is an error, unless there is nothing to read. A broadcast is neither.
pub proof fn law_server_requests(raw: Seq<u8>, slave_id: u8)
    ensures
        send_recv::server_request(raw, 0) is None,
        send_recv::request_error(raw, 0) is None,
        raw.len() == 0 ==> send_recv::server_request(raw, slave_id) is None
            && send_recv::request_error(raw, slave_id) is None,
        slave_id != 0 && raw.len() > 0 ==> match RequestView::parse(raw) {
            Ok(request) => send_recv::server_request(raw, slave_id) == Some(request)
                && send_recv::request_error(raw, slave_id) is None,
            Err(e) => send_recv::server_request(raw, slave_id) is None && send_recv::request_error(
                raw,
                slave_id,
            ) == Some(e),
        },
{
}

} // verus!
