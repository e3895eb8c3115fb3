use vstd::prelude::*;

use crate::codec::{decode, decode_spec, ParseFailure, ParseFailureView};
use crate::event::{Event, EventView};
use crate::frame::{Frame, FrameView, NORMAL_CLOSE_CODE};

verus! {

/// The four ways a socket session can fail; every one of them is retryable.
#[derive(Clone, Copy, Debug, PartialEq, Eq, Structural)]
pub enum FailureKind {
    ConnectionFailure,
    ReadFailure,
    ReadTimeout,
    AbnormalClose,
}

/// The error value a failed session hands to the supervisor.
#[derive(Clone, Copy, Debug, PartialEq, Eq, Structural)]
pub struct InnerError {
    pub kind: FailureKind,
}

impl InnerError {
    pub fn new(kind: FailureKind) -> (r: Self)
        ensures
            r.kind == kind,
    {
        Self { kind }
    }
}

/// How a session ended: the peer closed it on purpose, or it failed in a
/// way worth another attempt.
#[derive(Clone, Copy, Debug, PartialEq, Eq, Structural)]
pub enum Outcome {
    CleanStop,
    Retryable(FailureKind),
}

/// Where a session stands: performing the handshake, reading frames, or
/// finished with its outcome.
#[derive(Clone, Copy, Debug, PartialEq, Eq, Structural)]
pub enum SessionState {
    Connecting,
    Open,
    Done(Outcome),
}

/// One thing the transport reports to the session: the handshake finished
/// or failed, a read timed out, returned nothing, failed, or got a frame.
#[derive(Debug, Clone, PartialEq, Eq)]
pub enum SessionEvent {
    Connected,
    ConnectFailed,
    TimedOut,
    EmptyRead,
    ReadError,
    FrameArrived(Frame),
}

/// The mathematical value of a session event.
pub enum SessionEventView {
    Connected,
    ConnectFailed,
    TimedOut,
    EmptyRead,
    ReadError,
    FrameArrived(FrameView),
}

impl View for SessionEvent {
    type V = SessionEventView;

    open spec fn view(&self) -> SessionEventView {
        match self {
            SessionEvent::Connected => SessionEventView::Connected,
            SessionEvent::ConnectFailed => SessionEventView::ConnectFailed,
            SessionEvent::TimedOut => SessionEventView::TimedOut,
            SessionEvent::EmptyRead => SessionEventView::EmptyRead,
            SessionEvent::ReadError => SessionEventView::ReadError,
            SessionEvent::FrameArrived(f) => SessionEventView::FrameArrived(f@),
        }
    }
}

/// What one step asks the transport to do besides reading on: reply to a
/// ping, acknowledge a close, hand an event to the sink, or log a decode
/// failure. Sends are best effort and their failures never escalate.
#[derive(Debug, Clone, PartialEq, Eq)]
pub struct StepEffects {
    pub send_pong: bool,
    pub acknowledge_close: bool,
    pub deliver: Option<Event>,
    pub log_failure: Option<ParseFailure>,
}

/// The mathematical value of a step's effects.
pub struct StepEffectsView {
    pub send_pong: bool,
    pub acknowledge_close: bool,
    pub deliver: Option<EventView>,
    pub log_failure: Option<ParseFailureView>,
}

impl View for StepEffects {
    type V = StepEffectsView;

    open spec fn view(&self) -> StepEffectsView {
        StepEffectsView {
            send_pong: self.send_pong,
            acknowledge_close: self.acknowledge_close,
            deliver: match &self.deliver {
                Some(e) => Some(e@),
                None => None,
            },
            log_failure: match &self.log_failure {
                Some(p) => Some(p@),
                None => None,
            },
        }
    }
}

/// A step that asks nothing of the transport.
pub open spec fn no_effects() -> StepEffectsView {
    StepEffectsView { send_pong: false, acknowledge_close: false, deliver: None, log_failure: None }
}

/// Which events a state can receive: handshake reports while connecting,
/// read reports while open, nothing once done.
pub open spec fn state_accepts(state: SessionState, event: SessionEventView) -> bool {
    match state {
        SessionState::Connecting => event is Connected || event is ConnectFailed,
        SessionState::Open => !(event is Connected) && !(event is ConnectFailed),
        SessionState::Done(_) => false,
    }
}

/// The outcome a close frame dictates: the normal code, or no code at all,
/// is an intentional stop; any other code is a retryable abnormal close.
pub open spec fn close_outcome_spec(code: Option<u16>) -> Outcome {
    match code {
        Some(c) => if c == NORMAL_CLOSE_CODE {
            Outcome::CleanStop
        } else {
            Outcome::Retryable(FailureKind::AbnormalClose)
        },
        None => Outcome::CleanStop,
    }
}

/// What a frame does to an open session: a close acknowledges and ends the
/// session by its code; any other frame is decoded — a ping also asks for a
/// pong — and the session stays open, delivering the event or logging the
/// failure.
pub open spec fn frame_step_spec(f: FrameView) -> (SessionState, StepEffectsView) {
    match f {
        FrameView::Close(code) => (
            SessionState::Done(close_outcome_spec(code)),
            StepEffectsView {
                send_pong: false,
                acknowledge_close: true,
                deliver: None,
                log_failure: None,
            },
        ),
        _ => match decode_spec(f) {
            Ok(e) => (
                SessionState::Open,
                StepEffectsView {
                    send_pong: f is Ping,
                    acknowledge_close: false,
                    deliver: Some(e),
                    log_failure: None,
                },
            ),
            Err(p) => (
                SessionState::Open,
                StepEffectsView {
                    send_pong: f is Ping,
                    acknowledge_close: false,
                    deliver: None,
                    log_failure: Some(p),
                },
            ),
        },
    }
}

/// The whole session state machine, one event at a time: a failed
/// handshake, a read timeout and a read error each end the session with
/// their failure kind; an empty read is ignored; a frame acts as
/// `frame_step_spec` says.
pub open spec fn step_spec(state: SessionState, event: SessionEventView) -> (
    SessionState,
    StepEffectsView,
) {
    match (state, event) {
        (SessionState::Connecting, SessionEventView::Connected) => (
            SessionState::Open,
            no_effects(),
        ),
        (SessionState::Connecting, SessionEventView::ConnectFailed) => (
            SessionState::Done(Outcome::Retryable(FailureKind::ConnectionFailure)),
            no_effects(),
        ),
        (SessionState::Open, SessionEventView::TimedOut) => (
            SessionState::Done(Outcome::Retryable(FailureKind::ReadTimeout)),
            no_effects(),
        ),
        (SessionState::Open, SessionEventView::EmptyRead) => (SessionState::Open, no_effects()),
        (SessionState::Open, SessionEventView::ReadError) => (
            SessionState::Done(Outcome::Retryable(FailureKind::ReadFailure)),
            no_effects(),
        ),
        (SessionState::Open, SessionEventView::FrameArrived(f)) => frame_step_spec(f),
        _ => (state, no_effects()),
    }
}

/// Classify a close frame's optional status code.
pub fn classify_close(code: Option<u16>) -> (r: Outcome)
    ensures
        r == close_outcome_spec(code),
{
    match code {
        Some(c) => if c == NORMAL_CLOSE_CODE {
            Outcome::CleanStop
        } else {
            Outcome::Retryable(FailureKind::AbnormalClose)
        },
        None => Outcome::CleanStop,
    }
}

/// Advance the session by one transport event, returning the next state
/// and what the transport must do before the next read.
pub fn session_step(state: SessionState, event: SessionEvent) -> (r: (SessionState, StepEffects))
    requires
        state_accepts(state, event@),
    ensures
        r.0 == step_spec(state, event@).0,
        r.1@ == step_spec(state, event@).1,
{
    let none_effects = StepEffects {
        send_pong: false,
        acknowledge_close: false,
        deliver: None,
        log_failure: None,
    };
    match (state, event) {
        (SessionState::Connecting, SessionEvent::Connected) => (SessionState::Open, none_effects),
        (SessionState::Connecting, SessionEvent::ConnectFailed) => (
            SessionState::Done(Outcome::Retryable(FailureKind::ConnectionFailure)),
            none_effects,
        ),
        (SessionState::Open, SessionEvent::TimedOut) => (
            SessionState::Done(Outcome::Retryable(FailureKind::ReadTimeout)),
            none_effects,
        ),
        (SessionState::Open, SessionEvent::EmptyRead) => (SessionState::Open, none_effects),
        (SessionState::Open, SessionEvent::ReadError) => (
            SessionState::Done(Outcome::Retryable(FailureKind::ReadFailure)),
            none_effects,
        ),
        (SessionState::Open, SessionEvent::FrameArrived(f)) => frame_step(f),
        (s, _) => (s, none_effects),
    }
}

/// Handle one frame arriving on an open session.
fn frame_step(f: Frame) -> (r: (SessionState, StepEffects))
    ensures
        r.0 == frame_step_spec(f@).0,
        r.1@ == frame_step_spec(f@).1,
{
    match f {
        Frame::Close(code) => (
            SessionState::Done(classify_close(code)),
            StepEffects {
                send_pong: false,
                acknowledge_close: true,
                deliver: None,
                log_failure: None,
            },
        ),
        other => {
            let send_pong = match &other {
                Frame::Ping(_) => true,
                _ => false,
            };
            match decode(other) {
                Ok(e) => (
                    SessionState::Open,
                    StepEffects {
                        send_pong,
                        acknowledge_close: false,
                        deliver: Some(e),
                        log_failure: None,
                    },
                ),
                Err(p) => (
                    SessionState::Open,
                    StepEffects {
                        send_pong,
                        acknowledge_close: false,
                        deliver: None,
                        log_failure: Some(p),
                    },
                ),
            }
        },
    }
}

/// A frame that fails to decode is only logged: the session stays open,
/// nothing reaches the sink, and the raw failure is kept for the log.
pub proof fn lemma_parse_failure_never_fatal(f: FrameView)
    requires
        !(f is Close),
        decode_spec(f) is Err,
    ensures
        step_spec(SessionState::Open, SessionEventView::FrameArrived(f)).0 == SessionState::Open,
        step_spec(SessionState::Open, SessionEventView::FrameArrived(f)).1 == (StepEffectsView {
            send_pong: f is Ping,
            acknowledge_close: false,
            deliver: None,
            log_failure: Some(decode_spec(f)->Err_0),
        }),
{
}

/// A frame that decodes is delivered to the sink and the session reads on:
/// one decoded event per frame, in arrival order.
pub proof fn lemma_decoded_event_reaches_sink(f: FrameView)
    requires
        !(f is Close),
        decode_spec(f) is Ok,
    ensures
        step_spec(SessionState::Open, SessionEventView::FrameArrived(f)).0 == SessionState::Open,
        step_spec(SessionState::Open, SessionEventView::FrameArrived(f)).1 == (StepEffectsView {
            send_pong: f is Ping,
            acknowledge_close: false,
            deliver: Some(decode_spec(f)->Ok_0),
            log_failure: None,
        }),
{
}

/// A ping is answered with a pong and still delivers a heartbeat.
pub proof fn lemma_ping_answered_and_delivered(payload: Seq<u8>)
    ensures
        step_spec(
            SessionState::Open,
            SessionEventView::FrameArrived(FrameView::Ping(payload)),
        ) == (
            SessionState::Open,
            StepEffectsView {
                send_pong: true,
                acknowledge_close: false,
                deliver: Some(EventView::Heartbeat),
                log_failure: None,
            },
        ),
{
}

/// Each transport mishap has its own ending: a failed handshake, a read
/// error and a read timeout each end the session with their retryable
/// kind, while an empty read changes nothing and the loop reads on.
pub proof fn lemma_transport_failures_are_retryable()
    ensures
        step_spec(SessionState::Connecting, SessionEventView::ConnectFailed).0
            == SessionState::Done(Outcome::Retryable(FailureKind::ConnectionFailure)),
        step_spec(SessionState::Open, SessionEventView::ReadError).0 == SessionState::Done(
            Outcome::Retryable(FailureKind::ReadFailure),
        ),
        step_spec(SessionState::Open, SessionEventView::TimedOut).0 == SessionState::Done(
            Outcome::Retryable(FailureKind::ReadTimeout),
        ),
        step_spec(SessionState::Open, SessionEventView::EmptyRead) == (
            SessionState::Open,
            no_effects(),
        ),
{
}

/// A close frame ends the session: the normal code, or none, stops it
/// cleanly; any other code ends it with a retryable abnormal close.
pub proof fn lemma_close_ends_session(code: Option<u16>)
    ensures
        step_spec(
            SessionState::Open,
            SessionEventView::FrameArrived(FrameView::Close(code)),
        ).0 == SessionState::Done(close_outcome_spec(code)),
        code == Some(NORMAL_CLOSE_CODE) || code is None ==> close_outcome_spec(code)
            == Outcome::CleanStop,
        code matches Some(c) && c != NORMAL_CLOSE_CODE ==> close_outcome_spec(code)
            == Outcome::Retryable(FailureKind::AbnormalClose),
{
}

} // verus!
