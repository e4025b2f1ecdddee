//! The decisions of the per-camera supervisor: reconnect backoff, the
//! keepalive miss budget, the end of a session, and the retry policy of a
//! task run against whatever session is live. Timers, sockets and channels
//! stay with the caller, which performs each action and reports each event.
use vstd::prelude::*;

use crate::error::{Error, IoKind};

verus! {

pub const MIN_BACKOFF_MS: u64 = 50;
pub const MAX_BACKOFF_MS: u64 = 5000;
/// A session that lasted this long before failing counts as a success.
pub const LONG_SESSION_MS: u64 = 60000;
/// Warm-up pause after login, and again after setting the clock.
pub const WARM_UP_MS: u64 = 2000;
pub const PING_INTERVAL_MS: u64 = 5000;
pub const PING_TIMEOUT_MS: u64 = 5000;
/// Ping timeouts tolerated in a row; the next one ends the session.
pub const MAX_MISSED_PINGS: u32 = 5;
/// Attempts of a task that the camera answers with code 400.
pub const MAX_TASK_ATTEMPTS: u32 = 5;
pub const TASK_RETRY_MS: u64 = 1000;

/// The delay before the next reconnect.
pub struct Backoff {
    pub delay_ms: u64,
}

impl Backoff {
    pub open spec fn wf(&self) -> bool {
        MIN_BACKOFF_MS <= self.delay_ms <= MAX_BACKOFF_MS
    }

    pub fn new() -> (r: Backoff)
        ensures
            r.wf(),
            r.delay_ms == MIN_BACKOFF_MS,
    {
        Backoff { delay_ms: MIN_BACKOFF_MS }
    }

    /// After a failed session: how long to sleep before reconnecting. A session
    /// that lasted at least a minute starts the delays over at 50 ms; each
    /// failure doubles the next delay, up to 5 s.
    pub fn after_failure(&mut self, session_ms: u64) -> (sleep_ms: u64)
        requires
            old(self).wf(),
        ensures
            final(self).wf(),
            sleep_ms == if session_ms >= LONG_SESSION_MS {
                MIN_BACKOFF_MS
            } else {
                old(self).delay_ms
            },
            final(self).delay_ms == if 2 * sleep_ms <= MAX_BACKOFF_MS {
                2 * sleep_ms
            } else {
                MAX_BACKOFF_MS as int
            },
    {
        if session_ms >= LONG_SESSION_MS {
            self.delay_ms = MIN_BACKOFF_MS;
        }
        let sleep_ms = self.delay_ms;
        self.delay_ms = if 2 * sleep_ms <= MAX_BACKOFF_MS {
            2 * sleep_ms
        } else {
            MAX_BACKOFF_MS
        };
        sleep_ms
    }
}

/// Errors that a new session may cure: the transport dropped, timed out or
/// could not be written.
pub open spec fn spec_is_retryable(e: Error) -> bool {
    match e {
        Error::DroppedConnection | Error::TimeoutDisconnected | Error::TokioBcSendError => true,
        Error::Io(k) => k == IoKind::ConnectionReset || k == IoKind::ConnectionAborted || k
            == IoKind::BrokenPipe || k == IoKind::TimedOut,
        _ => false,
    }
}

pub fn is_retryable(e: &Error) -> (r: bool)
    ensures
        r == spec_is_retryable(*e),
{
    match e {
        Error::DroppedConnection | Error::TimeoutDisconnected | Error::TokioBcSendError => true,
        Error::Io(k) => match k {
            IoKind::ConnectionReset | IoKind::ConnectionAborted | IoKind::BrokenPipe
            | IoKind::TimedOut => true,
            IoKind::Other => false,
        },
        _ => false,
    }
}

/// Only a refused login ends the supervisor.
pub open spec fn spec_is_fatal(e: Error) -> bool {
    e == Error::CameraLoginFail
}

pub fn is_fatal(e: &Error) -> (r: bool)
    ensures
        r == spec_is_fatal(*e),
{
    matches!(e, Error::CameraLoginFail)
}

/// How a session ended.
pub enum SessionEnd {
    /// The camera closed it, or the supervisor was cancelled.
    Finished,
    /// The configuration changed.
    ConfigChanged,
    /// A disconnect was requested.
    DisconnectRequested,
    /// It failed.
    Failed(Error),
}

/// What the supervisor does next.
#[derive(Debug, PartialEq, Eq)]
pub enum SupervisorAction {
    /// Reconnect at once, with the configuration as it now is.
    Reconnect,
    /// Stop: the session ended normally.
    Shutdown,
    /// Stop with this error; nothing will cure it.
    Fatal(Error),
    /// Sleep this many milliseconds, then reconnect.
    RetryAfter(u64),
}

/// Decides what follows the end of a session that lasted `session_ms`.
pub fn on_session_end(backoff: &mut Backoff, end: SessionEnd, session_ms: u64) -> (r:
    SupervisorAction)
    requires
        old(backoff).wf(),
    ensures
        final(backoff).wf(),
        match end {
            SessionEnd::ConfigChanged | SessionEnd::DisconnectRequested => r
                == SupervisorAction::Reconnect && *final(backoff) == *old(backoff),
            SessionEnd::Finished => r == SupervisorAction::Shutdown && *final(backoff) == *old(
                backoff,
            ),
            SessionEnd::Failed(e) => if spec_is_fatal(e) {
                r == SupervisorAction::Fatal(e) && *final(backoff) == *old(backoff)
            } else {
                let sleep = if session_ms >= LONG_SESSION_MS {
                    MIN_BACKOFF_MS
                } else {
                    old(backoff).delay_ms
                };
                &&& r == SupervisorAction::RetryAfter(sleep)
                &&& final(backoff).delay_ms == if 2 * sleep <= MAX_BACKOFF_MS {
                    2 * sleep
                } else {
                    MAX_BACKOFF_MS as int
                }
            },
        },
{
    match end {
        SessionEnd::ConfigChanged | SessionEnd::DisconnectRequested => SupervisorAction::Reconnect,
        SessionEnd::Finished => SupervisorAction::Shutdown,
        SessionEnd::Failed(e) => {
            if is_fatal(&e) {
                SupervisorAction::Fatal(e)
            } else {
                SupervisorAction::RetryAfter(backoff.after_failure(session_ms))
            }
        },
    }
}

/// The states of a camera's connection.
#[derive(Clone, Copy, Debug, PartialEq, Eq, Structural)]
pub enum CamState {
    Disconnected,
    Connecting,
    Connected,
    Disconnecting,
}

/// What happens to a camera's connection.
#[derive(Clone, Copy, Debug, PartialEq, Eq, Structural)]
pub enum CamEvent {
    /// A user of the camera asked for it to be connected.
    ConnectRequested,
    /// Dial and login succeeded.
    LoggedIn,
    /// A user of the camera asked for it to be disconnected.
    DisconnectRequested,
    /// The session failed or the configuration changed.
    SessionLost,
    /// Logout and shutdown are done.
    Closed,
}

/// The connection's next state: `Disconnected`, `Connecting`, `Connected`,
/// `Disconnecting`, then `Disconnected` again. A failed attempt to connect
/// goes back to `Disconnected`; a lost session is closed through
/// `Disconnecting`; other events leave the state as it is.
pub open spec fn spec_cam_transition(s: CamState, e: CamEvent) -> CamState {
    match (s, e) {
        (CamState::Disconnected, CamEvent::ConnectRequested) => CamState::Connecting,
        (CamState::Connecting, CamEvent::LoggedIn) => CamState::Connected,
        (CamState::Connecting, CamEvent::SessionLost) => CamState::Disconnected,
        (CamState::Connecting, CamEvent::DisconnectRequested) => CamState::Disconnected,
        (CamState::Connected, CamEvent::DisconnectRequested) => CamState::Disconnecting,
        (CamState::Connected, CamEvent::SessionLost) => CamState::Disconnecting,
        (CamState::Disconnecting, CamEvent::Closed) => CamState::Disconnected,
        _ => s,
    }
}

pub fn cam_transition(s: CamState, e: CamEvent) -> (r: CamState)
    ensures
        r == spec_cam_transition(s, e),
{
    match (s, e) {
        (CamState::Disconnected, CamEvent::ConnectRequested) => CamState::Connecting,
        (CamState::Connecting, CamEvent::LoggedIn) => CamState::Connected,
        (CamState::Connecting, CamEvent::SessionLost) => CamState::Disconnected,
        (CamState::Connecting, CamEvent::DisconnectRequested) => CamState::Disconnected,
        (CamState::Connected, CamEvent::DisconnectRequested) => CamState::Disconnecting,
        (CamState::Connected, CamEvent::SessionLost) => CamState::Disconnecting,
        (CamState::Disconnecting, CamEvent::Closed) => CamState::Disconnected,
        _ => s,
    }
}

/// Whether to set the camera's clock after login: when the camera has no time
/// (`camera_has_time` false), or when the configuration asks for it.
pub fn should_update_time(camera_has_time: bool, update_time: bool) -> (r: bool)
    ensures
        r == (!camera_has_time || update_time),
{
    !camera_has_time || update_time
}

/// The keepalive of one session.
pub struct Keepalive {
    /// Timeouts in a row.
    pub missed: u32,
    /// Cleared for firmwares that do not understand the ping.
    pub enabled: bool,
}

/// What the keepalive does after a ping.
#[derive(Debug, PartialEq, Eq)]
pub enum PingAction {
    /// Ping again after the interval.
    Continue,
    /// Stop pinging for the rest of the session.
    StopPinging,
    /// The link is dead: end the session with this error.
    LinkDead(Error),
}

impl Keepalive {
    pub fn new() -> (r: Keepalive)
        ensures
            r.missed == 0,
            r.enabled,
    {
        Keepalive { missed: 0, enabled: true }
    }

    /// Takes the outcome of a ping: `None` for a timeout, else the reply.
    /// A reply resets the count of misses; a reply the camera does not
    /// understand turns pings off; any other error ends the session; a timeout
    /// is tolerated five times in a row and ends the session the sixth time.
    pub fn on_ping(&mut self, outcome: Option<Result<(), Error>>) -> (r: PingAction)
        requires
            old(self).missed <= MAX_MISSED_PINGS,
        ensures
            final(self).missed <= MAX_MISSED_PINGS,
            match outcome {
                Some(Ok(())) => r == PingAction::Continue && final(self).missed == 0
                    && final(self).enabled == old(self).enabled,
                Some(Err(e)) => if e is UnintelligibleReply {
                    r == PingAction::StopPinging && !final(self).enabled && final(self).missed
                        == old(self).missed
                } else {
                    r == PingAction::LinkDead(e) && *final(self) == *old(self)
                },
                None => if old(self).missed < MAX_MISSED_PINGS {
                    r == PingAction::Continue && final(self).missed == old(self).missed + 1
                        && final(self).enabled == old(self).enabled
                } else {
                    r == PingAction::LinkDead(Error::TimeoutDisconnected) && *final(self) == *old(
                        self,
                    )
                },
            },
    {
        match outcome {
            Some(Ok(())) => {
                self.missed = 0;
                PingAction::Continue
            },
            Some(Err(e)) => {
                if matches!(e, Error::UnintelligibleReply { .. }) {
                    self.enabled = false;
                    PingAction::StopPinging
                } else {
                    PingAction::LinkDead(e)
                }
            },
            None => {
                if self.missed < MAX_MISSED_PINGS {
                    self.missed = self.missed + 1;
                    PingAction::Continue
                } else {
                    PingAction::LinkDead(Error::TimeoutDisconnected)
                }
            },
        }
    }
}

/// What to do after an attempt of a task.
#[derive(Debug, PartialEq, Eq)]
pub enum TaskAction {
    /// The task is done; hand its result back.
    Done,
    /// Sleep a second and run it again on the same session.
    RetrySameSession,
    /// Wait for a new session, then run it again.
    AwaitNewSession,
    /// Give up and hand the error back.
    Fail,
}

/// A task run against the live session, rerun when the session changes.
pub struct TaskRun {
    /// The session that the current iteration runs on.
    pub session: Option<u64>,
    /// Attempts on this session that the camera answered with code 400.
    pub attempts: u32,
}

impl TaskRun {
    pub fn new() -> (r: TaskRun)
        ensures
            r.session is None,
            r.attempts == 0,
    {
        TaskRun { session: None, attempts: 0 }
    }

    pub open spec fn spec_session_changed(&self, published: Option<u64>) -> bool {
        published != self.session
    }

    /// The run as a new iteration on `published` leaves it.
    pub open spec fn spec_begin(&self, published: Option<u64>) -> TaskRun {
        TaskRun { session: published, attempts: 0 }
    }

    /// Whether the published session differs from the one this run uses;
    /// when it does, the current iteration is abandoned.
    pub fn session_changed(&self, published: Option<u64>) -> (r: bool)
        ensures
            r == self.spec_session_changed(published),
    {
        match (published, self.session) {
            (Some(a), Some(b)) => a != b,
            (None, None) => false,
            _ => true,
        }
    }

    /// Starts an iteration on the published session; says whether there is
    /// a live one to run on.
    pub fn begin_iteration(&mut self, published: Option<u64>) -> (r: bool)
        ensures
            *final(self) == old(self).spec_begin(published),
            r == published is Some,
    {
        self.session = published;
        self.attempts = 0;
        published.is_some()
    }

    /// Decides what follows an attempt that ended with `error` (`None` on
    /// success). Code 400 is retried on the same session up to five attempts
    /// in all; an error that a new session may cure waits for one; anything
    /// else is handed back.
    pub fn after_attempt(&mut self, error: Option<&Error>) -> (r: TaskAction)
        requires
            old(self).attempts < MAX_TASK_ATTEMPTS,
        ensures
            final(self).session == old(self).session,
            final(self).attempts < MAX_TASK_ATTEMPTS,
            match error {
                None => r == TaskAction::Done,
                Some(e) => if (e matches Error::CameraServiceUnavailable { code, .. } && code == 400)
                    && old(self).attempts + 1 < MAX_TASK_ATTEMPTS {
                    r == TaskAction::RetrySameSession && final(self).attempts == old(self).attempts
                        + 1
                } else if spec_is_retryable(*e) {
                    r == TaskAction::AwaitNewSession
                } else {
                    r == TaskAction::Fail
                },
            },
    {
        match error {
            None => TaskAction::Done,
            Some(e) => {
                let busy = match e {
                    Error::CameraServiceUnavailable { code, .. } => *code == 400,
                    _ => false,
                };
                if busy && self.attempts + 1 < MAX_TASK_ATTEMPTS {
                    self.attempts = self.attempts + 1;
                    TaskAction::RetrySameSession
                } else if is_retryable(e) {
                    TaskAction::AwaitNewSession
                } else {
                    TaskAction::Fail
                }
            },
        }
    }
}

/// After a reconnect publishes a new session, a task in flight sees that the
/// session changed, and its next iteration runs on the new one.
pub proof fn lemma_session_swap(run: TaskRun, published: Option<u64>)
    requires
        published != run.session,
    ensures
        run.spec_session_changed(published),
        run.spec_begin(published).session == published,
        !run.spec_begin(published).spec_session_changed(published),
{
}

} // verus!
