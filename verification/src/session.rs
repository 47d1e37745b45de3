//! The typing session: the states one simulated-typing run goes through,
//! what its worker is asked to do, and what the worker reports back.

use vstd::prelude::*;

verus! {

/// How long a session waits before it reads the captured text, so that the
/// keys of the hotkey are released: milliseconds.
pub const SETTLE_MS: u64 = 250;

/// The longest single sleep of the worker, which bounds how long a pause
/// request can go unnoticed: milliseconds.
pub const SLICE_MS: u64 = 50;

/// Why a session failed.
#[derive(Debug, Clone, Copy, PartialEq, Eq, Structural)]
pub enum FailReason {
    /// There was no captured text to type.
    EmptySource,
    /// The synthetic keyboard could not be opened.
    InputDeviceInit,
    /// The synthetic keyboard refused a character.
    InputDeviceError,
}

/// Where a session stands, as its worker sees it.
#[derive(Debug, Clone, Copy, PartialEq, Eq, Structural)]
pub enum Phase {
    /// No session has run yet.
    Idle,
    /// Waiting out the settle delay.
    Settling,
    /// The text is taken; the synthetic keyboard is being opened.
    Opening,
    /// Characters are being sent.
    Typing,
    /// Every character was sent.
    Completed,
    /// The session ended early.
    Failed(FailReason),
}

/// Where a session stands, as everyone else sees it.
#[derive(Debug, Clone, Copy, PartialEq, Eq, Structural)]
pub enum SessionState {
    Idle,
    Starting,
    Running,
    Paused,
    Completed,
    Failed(FailReason),
}

/// What the worker does next.
#[derive(Debug, Clone, Copy, PartialEq, Eq, Structural)]
pub enum WorkerAction {
    /// Sleep this many milliseconds, then report `Settled`.
    Settle(u64),
    /// Open the synthetic keyboard, then report `DeviceReady` or `DeviceFailed`.
    OpenDevice,
    /// The session is paused: sleep this many milliseconds, then report `Polled`.
    WaitWhilePaused(u64),
    /// Send this character, then report `Sent` or `SendFailed`.
    Send(char),
    /// Sleep this many milliseconds of the delay after a character, then
    /// report `Delayed` with them.
    Delay(u64),
    /// The session is over: leave.
    Stop,
}

/// What the worker reports.
#[derive(Debug, Clone, PartialEq, Eq)]
pub enum WorkerEvent {
    Settled,
    DeviceReady,
    /// The synthetic keyboard could not be opened; the platform's message.
    DeviceFailed(String),
    Polled,
    Sent,
    /// The synthetic keyboard refused the character; the platform's message.
    SendFailed(String),
    /// So many milliseconds of the current delay have been slept.
    Delayed(u64),
}

/// What a request to start a session led to.
#[derive(Debug, Clone, Copy, PartialEq, Eq, Structural)]
pub enum StartOutcome {
    /// A session was started: a worker is to be run for it.
    Started,
    /// Monitoring is switched off; nothing changed.
    IgnoredDisabled,
    /// A session is already under way; nothing changed.
    IgnoredBusy,
    /// There is no captured text: the session failed at once, and no worker
    /// is to be run.
    EmptySource,
}

/// What a fired hotkey led to.
#[derive(Debug, Clone, Copy, PartialEq, Eq, Structural)]
pub enum HotkeyOutcome {
    /// The event is not of the registered hotkey.
    NotRegistered,
    /// The event came too soon after the one before it.
    Debounced,
    /// The session under way was paused.
    Paused,
    /// The paused session was resumed.
    Resumed,
    /// No session was under way: one was requested.
    Start(StartOutcome),
}

/// One simulated-typing run.
#[derive(Debug, Clone)]
pub struct TypingSession {
    pub phase: Phase,
    /// Whether a pause was requested.
    pub paused: bool,
    /// The text being typed, taken once when the session starts.
    pub payload: Vec<char>,
    /// How many characters of the payload were sent.
    pub cursor: usize,
    /// Milliseconds of the delay after the last character still to be slept.
    pub remaining: u64,
    /// Base delay after each character, in milliseconds.
    pub delay: u64,
    /// Upper bound of the random extra delay, in milliseconds.
    pub jitter: u64,
    pub jitter_enabled: bool,
    /// The platform's message, where the synthetic keyboard failed.
    pub failure_message: String,
}

/// A typing session as plain values.
pub struct SessionView {
    pub phase: Phase,
    pub paused: bool,
    pub payload: Seq<char>,
    pub cursor: nat,
    pub remaining: u64,
    pub delay: u64,
    pub jitter: u64,
    pub jitter_enabled: bool,
    pub failure_message: Seq<char>,
}

impl View for TypingSession {
    type V = SessionView;

    open spec fn view(&self) -> SessionView {
        SessionView {
            phase: self.phase,
            paused: self.paused,
            payload: self.payload@,
            cursor: self.cursor as nat,
            remaining: self.remaining,
            delay: self.delay,
            jitter: self.jitter,
            jitter_enabled: self.jitter_enabled,
            failure_message: self.failure_message@,
        }
    }
}

/// The delay after one character: the base delay, plus the drawn extra
/// where jitter is switched on and its bound is not zero. The sum stops at
/// the largest number of milliseconds that can be held.
pub open spec fn char_delay(delay: u64, jitter_enabled: bool, jitter: u64, drawn: u64) -> u64 {
    if jitter_enabled && jitter > 0 {
        if delay + drawn > u64::MAX {
            u64::MAX
        } else {
            (delay + drawn) as u64
        }
    } else {
        delay
    }
}

pub open spec fn min_u64(a: u64, b: u64) -> u64 {
    if a <= b {
        a
    } else {
        b
    }
}

impl SessionView {
    /// A session that has not run.
    pub open spec fn idle() -> SessionView {
        SessionView {
            phase: Phase::Idle,
            paused: false,
            payload: Seq::empty(),
            cursor: 0,
            remaining: 0,
            delay: 0,
            jitter: 0,
            jitter_enabled: false,
            failure_message: Seq::empty(),
        }
    }

    /// Whether a session is under way: started and not yet over.
    pub open spec fn is_active(self) -> bool {
        self.phase == Phase::Settling || self.phase == Phase::Opening || self.phase
            == Phase::Typing
    }

    pub open spec fn state(self) -> SessionState {
        match self.phase {
            Phase::Idle => SessionState::Idle,
            Phase::Settling => SessionState::Starting,
            Phase::Opening => SessionState::Starting,
            Phase::Typing => if self.paused {
                SessionState::Paused
            } else {
                SessionState::Running
            },
            Phase::Completed => SessionState::Completed,
            Phase::Failed(reason) => SessionState::Failed(reason),
        }
    }

    /// What the worker is to do next. While characters are being sent, a
    /// pause comes first, then what is left of the delay after the last
    /// character in slices, then the next character.
    pub open spec fn next_action(self) -> WorkerAction {
        match self.phase {
            Phase::Settling => WorkerAction::Settle(SETTLE_MS),
            Phase::Opening => WorkerAction::OpenDevice,
            Phase::Typing => if self.paused {
                WorkerAction::WaitWhilePaused(SLICE_MS)
            } else if self.remaining > 0 {
                WorkerAction::Delay(min_u64(self.remaining, SLICE_MS))
            } else if self.cursor < self.payload.len() {
                WorkerAction::Send(self.payload[self.cursor as int])
            } else {
                WorkerAction::Stop
            },
            _ => WorkerAction::Stop,
        }
    }

    /// A fresh session that waits out the settle delay, with the pacing
    /// given.
    pub open spec fn starting(delay: u64, jitter: u64, jitter_enabled: bool) -> SessionView {
        SessionView {
            phase: Phase::Settling,
            delay,
            jitter,
            jitter_enabled,
            ..SessionView::idle()
        }
    }

    /// This session, ended by a failure.
    pub open spec fn failed(self, reason: FailReason, message: Seq<char>) -> SessionView {
        SessionView {
            phase: Phase::Failed(reason),
            paused: false,
            failure_message: message,
            ..self
        }
    }

    /// What holds of every session that was started and driven through the
    /// shared state: its place lies within its text; while it is under way
    /// its text is not empty; while characters are being sent there is
    /// always a character left or a delay to wait out; and a completed
    /// session has sent all of its text.
    pub open spec fn wf(self) -> bool {
        &&& self.cursor <= self.payload.len()
        &&& (self.phase == Phase::Opening ==> self.payload.len() > 0 && self.cursor == 0
            && self.remaining == 0)
        &&& (self.phase == Phase::Typing ==> self.payload.len() > 0 && (self.cursor
            < self.payload.len() || self.remaining > 0))
        &&& (self.phase == Phase::Completed ==> self.payload.len() > 0 && self.cursor
            == self.payload.len() && self.remaining == 0)
    }

    /// Whether the last character was sent and its delay has run out.
    pub open spec fn is_done(self) -> bool {
        self.phase == Phase::Typing && self.cursor >= self.payload.len() && self.remaining == 0
    }
}

impl TypingSession {
    /// A session that has not run.
    pub fn new() -> (r: TypingSession)
        ensures
            r@ == SessionView::idle(),
    {
        TypingSession {
            phase: Phase::Idle,
            paused: false,
            payload: Vec::new(),
            cursor: 0,
            remaining: 0,
            delay: 0,
            jitter: 0,
            jitter_enabled: false,
            failure_message: String::new(),
        }
    }

    /// Whether a session is under way.
    pub fn is_active(&self) -> (r: bool)
        ensures
            r == self@.is_active(),
    {
        match self.phase {
            Phase::Settling => true,
            Phase::Opening => true,
            Phase::Typing => true,
            _ => false,
        }
    }

    pub fn state(&self) -> (r: SessionState)
        ensures
            r == self@.state(),
    {
        match self.phase {
            Phase::Idle => SessionState::Idle,
            Phase::Settling => SessionState::Starting,
            Phase::Opening => SessionState::Starting,
            Phase::Typing => if self.paused {
                SessionState::Paused
            } else {
                SessionState::Running
            },
            Phase::Completed => SessionState::Completed,
            Phase::Failed(reason) => SessionState::Failed(reason),
        }
    }

    /// What the worker is to do next.
    pub fn next_action(&self) -> (r: WorkerAction)
        ensures
            r == self@.next_action(),
    {
        match self.phase {
            Phase::Settling => WorkerAction::Settle(SETTLE_MS),
            Phase::Opening => WorkerAction::OpenDevice,
            Phase::Typing => if self.paused {
                WorkerAction::WaitWhilePaused(SLICE_MS)
            } else if self.remaining > 0 {
                if self.remaining <= SLICE_MS {
                    WorkerAction::Delay(self.remaining)
                } else {
                    WorkerAction::Delay(SLICE_MS)
                }
            } else if self.cursor < self.payload.len() {
                WorkerAction::Send(self.payload[self.cursor])
            } else {
                WorkerAction::Stop
            },
            _ => WorkerAction::Stop,
        }
    }
}

/// The delay to sleep after a character, for the extra that was drawn.
pub fn delay_after_char(delay: u64, jitter_enabled: bool, jitter: u64, drawn: u64) -> (r: u64)
    ensures
        r == char_delay(delay, jitter_enabled, jitter, drawn),
{
    if jitter_enabled && jitter > 0 {
        delay.saturating_add(drawn)
    } else {
        delay
    }
}

/// Draws the extra delay with `rand::Rng::gen_range` on the thread's
/// generator, over the closed range from zero to `bound`. Trusted: the
/// number drawn is at most `bound`. Each call may give another number.
#[verifier::external_body]
pub(crate) fn draw_jitter(bound: u64) -> (r: u64)
    ensures
        r <= bound,
{
    rand::Rng::gen_range(&mut rand::thread_rng(), 0..=bound)
}

} // verus!
