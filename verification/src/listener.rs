//! The queue listener's connection lifecycle, as an explicit state machine:
//! connect, poll with a timeout, and reconnect with a delay after sustained
//! errors; a cooperative stop flag ends the listener from any state.
//!
//! The blocking transport calls run outside; the loop around them feeds every
//! observation into `listener_step` and performs the effect it returns, so
//! the error-ceiling and stop-flag interactions are all decided here.

use vstd::prelude::*;

verus! {

/// Consecutive transport errors that force a full socket teardown, a delay,
/// and a reconnect.
pub const MAX_CONSECUTIVE_ERRORS: u8 = 10;

/// Readiness-poll timeout, in milliseconds, so the polling loop periodically
/// rechecks the stop flag even with no traffic.
pub const POLL_TIMEOUT_MS: i64 = 5000;

/// Delay before retrying a failed connection setup, and before reconnecting
/// after the error ceiling, in seconds.
pub const RECONNECT_DELAY_SECS: u64 = 5;

/// Lower bound of the transport's own internal reconnect interval, in
/// milliseconds (distinct from this component's outer backoff).
pub const TRANSPORT_RECONNECT_IVL_MS: i32 = 1000;

/// Upper bound of the transport's own internal reconnect interval, in
/// milliseconds.
pub const TRANSPORT_RECONNECT_IVL_MAX_MS: i32 = 30000;

/// The listener's position in its reconnect cycle.
#[derive(Debug, Clone, Copy, PartialEq, Eq, Structural)]
pub enum ListenerState {
    /// Opening a fresh socket and connecting it to the endpoint.
    Connecting,
    /// Polling the connected socket, counting consecutive errors.
    Polling { consecutive_errors: u8 },
    /// The error ceiling was reached: tear down, wait, reconnect.
    Backoff,
    /// Terminal: the stop flag was observed, or the event channel closed.
    Stopped,
}

/// One observation the loop around the transport feeds to the state machine.
#[derive(Debug, Clone, Copy, PartialEq, Eq, Structural)]
pub enum ListenerEvent {
    /// The cooperative stop flag was observed set.
    StopRequested,
    /// Socket creation, identity assignment, or connect failed.
    SetupFailed,
    /// The socket is connected and configured.
    SetupSucceeded,
    /// The poll returned with no ready socket: a healthy no-op.
    PollTimedOut,
    /// One full multi-frame message was received and published.
    MessagePublished,
    /// Receiving a ready message failed.
    ReceiveFailed,
    /// The poll itself failed.
    PollFailed,
    /// Publishing to the event channel failed: the consumer side is closed,
    /// an unambiguous shutdown signal.
    ChannelClosed,
    /// The reconnect delay has elapsed.
    BackoffElapsed,
}

/// What the loop must do after a transition.
#[derive(Debug, Clone, Copy, PartialEq, Eq, Structural)]
pub enum ListenerEffect {
    /// Carry on in the new state.
    Proceed,
    /// Sleep `RECONNECT_DELAY_SECS`, then carry on in the new state.
    SleepBeforeRetry,
    /// Disconnect and drop the socket and its context, sleep
    /// `RECONNECT_DELAY_SECS`, then carry on in the new state.
    TearDownAndSleep,
    /// Leave the listener loop; the state is terminal.
    Exit,
}

/// The events each state can observe.
pub open spec fn event_fits(s: ListenerState, e: ListenerEvent) -> bool {
    match e {
        ListenerEvent::StopRequested => !(s is Stopped),
        ListenerEvent::SetupFailed => s is Connecting,
        ListenerEvent::SetupSucceeded => s is Connecting,
        ListenerEvent::PollTimedOut => s is Polling,
        ListenerEvent::MessagePublished => s is Polling,
        ListenerEvent::ReceiveFailed => s is Polling,
        ListenerEvent::PollFailed => s is Polling,
        ListenerEvent::ChannelClosed => s is Polling,
        ListenerEvent::BackoffElapsed => s is Backoff,
    }
}

/// A state the machine can actually be in: the error count stays below the
/// ceiling, since reaching it leaves the polling state at once.
pub open spec fn listener_state_wf(s: ListenerState) -> bool {
    s matches ListenerState::Polling { consecutive_errors } ==> consecutive_errors
        < MAX_CONSECUTIVE_ERRORS
}

/// A consecutive transport error: stay polling with the count raised, or
/// reach the ceiling and go to backoff.
pub open spec fn spec_count_error(s: ListenerState) -> (ListenerState, ListenerEffect)
    recommends
        s is Polling,
{
    match s {
        ListenerState::Polling { consecutive_errors } => {
            if consecutive_errors + 1 >= MAX_CONSECUTIVE_ERRORS {
                (ListenerState::Backoff, ListenerEffect::TearDownAndSleep)
            } else {
                (
                    ListenerState::Polling { consecutive_errors: (consecutive_errors + 1) as u8 },
                    ListenerEffect::Proceed,
                )
            }
        },
        _ => (s, ListenerEffect::Proceed),
    }
}

/// The full transition table of the listener.
pub open spec fn spec_listener_step(s: ListenerState, e: ListenerEvent) -> (
    ListenerState,
    ListenerEffect,
)
    recommends
        event_fits(s, e),
        listener_state_wf(s),
{
    match e {
        ListenerEvent::StopRequested => (ListenerState::Stopped, ListenerEffect::Exit),
        ListenerEvent::ChannelClosed => (ListenerState::Stopped, ListenerEffect::Exit),
        ListenerEvent::SetupFailed => (ListenerState::Connecting, ListenerEffect::SleepBeforeRetry),
        ListenerEvent::SetupSucceeded => (
            ListenerState::Polling { consecutive_errors: 0 },
            ListenerEffect::Proceed,
        ),
        ListenerEvent::PollTimedOut => (
            ListenerState::Polling { consecutive_errors: 0 },
            ListenerEffect::Proceed,
        ),
        ListenerEvent::MessagePublished => (
            ListenerState::Polling { consecutive_errors: 0 },
            ListenerEffect::Proceed,
        ),
        ListenerEvent::ReceiveFailed => spec_count_error(s),
        ListenerEvent::PollFailed => spec_count_error(s),
        ListenerEvent::BackoffElapsed => (ListenerState::Connecting, ListenerEffect::Proceed),
    }
}

/// The state the listener starts each run in.
pub fn initial_listener_state() -> (r: ListenerState)
    ensures
        r == ListenerState::Connecting,
        listener_state_wf(r),
{
    ListenerState::Connecting
}

/// Take one step of the listener state machine. Well-formedness is preserved,
/// every success or clean timeout resets the error count, and only the stop
/// flag or a closed channel reaches the terminal state.
pub fn listener_step(s: ListenerState, e: ListenerEvent) -> (r: (ListenerState, ListenerEffect))
    requires
        event_fits(s, e),
        listener_state_wf(s),
    ensures
        r == spec_listener_step(s, e),
        listener_state_wf(r.0),
        r.0 is Stopped <==> (e is StopRequested || e is ChannelClosed),
{
    match e {
        ListenerEvent::StopRequested => (ListenerState::Stopped, ListenerEffect::Exit),
        ListenerEvent::ChannelClosed => (ListenerState::Stopped, ListenerEffect::Exit),
        ListenerEvent::SetupFailed => (ListenerState::Connecting, ListenerEffect::SleepBeforeRetry),
        ListenerEvent::SetupSucceeded => (
            ListenerState::Polling { consecutive_errors: 0 },
            ListenerEffect::Proceed,
        ),
        ListenerEvent::PollTimedOut => (
            ListenerState::Polling { consecutive_errors: 0 },
            ListenerEffect::Proceed,
        ),
        ListenerEvent::MessagePublished => (
            ListenerState::Polling { consecutive_errors: 0 },
            ListenerEffect::Proceed,
        ),
        ListenerEvent::ReceiveFailed => count_error(s),
        ListenerEvent::PollFailed => count_error(s),
        ListenerEvent::BackoffElapsed => (ListenerState::Connecting, ListenerEffect::Proceed),
    }
}

/// Count one consecutive transport error.
fn count_error(s: ListenerState) -> (r: (ListenerState, ListenerEffect))
    requires
        s is Polling,
        listener_state_wf(s),
    ensures
        r == spec_count_error(s),
        listener_state_wf(r.0),
{
    match s {
        ListenerState::Polling { consecutive_errors } => {
            if consecutive_errors + 1 >= MAX_CONSECUTIVE_ERRORS {
                (ListenerState::Backoff, ListenerEffect::TearDownAndSleep)
            } else {
                (
                    ListenerState::Polling { consecutive_errors: consecutive_errors + 1 },
                    ListenerEffect::Proceed,
                )
            }
        },
        _ => (s, ListenerEffect::Proceed),
    }
}

/// The stop flag always terminates the listener, from any live state, with
/// no further reconnect attempt.
pub proof fn lemma_stop_always_terminates(s: ListenerState)
    requires
        !(s is Stopped),
    ensures
        spec_listener_step(s, ListenerEvent::StopRequested) == (
            ListenerState::Stopped,
            ListenerEffect::Exit,
        ),
{
}

/// Reaching the consecutive-error ceiling forces a teardown and a delayed
/// reconnect; below the ceiling, an error only raises the count.
pub proof fn lemma_error_ceiling_forces_backoff(count: u8, e: ListenerEvent)
    requires
        count < MAX_CONSECUTIVE_ERRORS,
        e is ReceiveFailed || e is PollFailed,
    ensures
        count + 1 == MAX_CONSECUTIVE_ERRORS ==> spec_listener_step(
            ListenerState::Polling { consecutive_errors: count },
            e,
        ) == (ListenerState::Backoff, ListenerEffect::TearDownAndSleep),
        count + 1 < MAX_CONSECUTIVE_ERRORS ==> spec_listener_step(
            ListenerState::Polling { consecutive_errors: count },
            e,
        ) == (
            ListenerState::Polling { consecutive_errors: (count + 1) as u8 },
            ListenerEffect::Proceed,
        ),
{
}

} // verus!
