//! The state that the clipboard watcher, the hotkey listener, the typing
//! worker and the window share, with every decision they take on it.

use crate::i18n::{I18n, Store};
use crate::session::{
    char_delay, delay_after_char, draw_jitter, FailReason, HotkeyOutcome, Phase, SessionView,
    StartOutcome, TypingSession, WorkerAction, WorkerEvent,
};
use crate::app_config::AppConfig;
use crate::text::{chars_of, line_views};
use vstd::prelude::*;

verus! {

/// A hotkey event that follows an accepted one by less than this many
/// milliseconds is dropped.
pub const DEBOUNCE_MS: u64 = 200;

/// The clipboard is read once every so many milliseconds.
pub const CLIPBOARD_POLL_MS: u64 = 500;

/// The last `bound` items of a list, or all of it where it has no more.
pub open spec fn newest<T>(items: Seq<T>, bound: nat) -> Seq<T> {
    if items.len() > bound {
        items.subrange(items.len() - bound, items.len() as int)
    } else {
        items
    }
}

/// Whether a hotkey event at `now` is taken, the last taken one having come
/// at `last`: the first event is, and so is one that comes at least
/// `DEBOUNCE_MS` after the last. A clock that went backwards counts as no
/// time passed.
pub open spec fn debounce_accepts(last: Option<u64>, now: u64) -> bool {
    match last {
        Some(previous) => now >= previous && now - previous >= DEBOUNCE_MS,
        None => true,
    }
}

/// The shared state.
#[derive(Debug, Clone)]
pub struct SharedState {
    /// The captured text: what the next session will type.
    pub clipboard_text: String,
    /// The clipboard text seen last, to tell a change.
    pub last_clipboard_text: String,
    /// Earlier captured texts, oldest first.
    pub clipboard_history: Vec<String>,
    pub history_enabled: bool,
    pub history_max_items: u32,
    /// Whether monitoring and typing are switched on.
    pub enabled: bool,
    pub status_message: String,
    /// Base delay after each typed character, in milliseconds.
    pub typing_delay: u64,
    /// Upper bound of the random extra delay, in milliseconds.
    pub typing_variance: u64,
    pub typing_variance_enabled: bool,
    /// When the last hotkey event was taken: milliseconds on a clock that
    /// does not go backwards.
    pub last_hotkey_trigger: Option<u64>,
    /// The id of the registered hotkey.
    pub hotkey_id: Option<u32>,
    pub session: TypingSession,
    pub i18n: I18n,
}

/// The shared state as plain values.
pub struct StateView {
    pub clipboard_text: Seq<char>,
    pub last_clipboard_text: Seq<char>,
    pub history: Seq<Seq<char>>,
    pub history_enabled: bool,
    pub history_max_items: u32,
    pub enabled: bool,
    pub status: Seq<char>,
    pub typing_delay: u64,
    pub typing_variance: u64,
    pub typing_variance_enabled: bool,
    pub last_hotkey_trigger: Option<u64>,
    pub hotkey_id: Option<u32>,
    pub session: SessionView,
    pub language: Seq<char>,
    pub catalogs: Store,
}

impl View for SharedState {
    type V = StateView;

    open spec fn view(&self) -> StateView {
        StateView {
            clipboard_text: self.clipboard_text@,
            last_clipboard_text: self.last_clipboard_text@,
            history: line_views(self.clipboard_history@),
            history_enabled: self.history_enabled,
            history_max_items: self.history_max_items,
            enabled: self.enabled,
            status: self.status_message@,
            typing_delay: self.typing_delay,
            typing_variance: self.typing_variance,
            typing_variance_enabled: self.typing_variance_enabled,
            last_hotkey_trigger: self.last_hotkey_trigger,
            hotkey_id: self.hotkey_id,
            session: self.session@,
            language: self.i18n.language(),
            catalogs: self.i18n.catalogs(),
        }
    }
}

impl StateView {
    /// The state of a program that has just started.
    pub open spec fn initial(language: Seq<char>, catalogs: Store) -> StateView {
        StateView {
            clipboard_text: Seq::empty(),
            last_clipboard_text: Seq::empty(),
            history: Seq::empty(),
            history_enabled: false,
            history_max_items: 0,
            enabled: true,
            status: catalogs.resolved(language, "status.ready"@),
            typing_delay: 0,
            typing_variance: 0,
            typing_variance_enabled: false,
            last_hotkey_trigger: None,
            hotkey_id: None,
            session: SessionView::idle(),
            language,
            catalogs,
        }
    }

    /// The message of `key` in the current language.
    pub open spec fn message(self, key: Seq<char>) -> Seq<char> {
        self.catalogs.resolved(self.language, key)
    }

    /// The message of `key` in the current language, with one argument.
    pub open spec fn message_with(self, key: Seq<char>, name: Seq<char>, value: Seq<char>) -> Seq<
        char,
    > {
        self.catalogs.resolved_with(self.language, key, name, value)
    }

    /// The history after `text` was captured: with history switched on and
    /// a bound that is not zero, `text` is added and the newest items up
    /// to the bound stay; else nothing changes.
    pub open spec fn history_after_record(self, text: Seq<char>) -> Seq<Seq<char>> {
        if self.history_enabled && self.history_max_items > 0 {
            newest(self.history.push(text), self.history_max_items as nat)
        } else {
            self.history
        }
    }

    /// Whether what was read from the clipboard is taken as the captured
    /// text: monitoring is switched on, and a text could be read that is not
    /// empty and differs from the one seen last.
    pub open spec fn clipboard_changes(self, read: Option<Seq<char>>) -> bool {
        self.enabled && read is Some && read->0.len() > 0 && read->0 != self.last_clipboard_text
    }

    /// The state after the clipboard was read: a text that is taken becomes
    /// the captured text and the text seen last, and goes into the history.
    pub open spec fn after_clipboard_poll(self, read: Option<Seq<char>>) -> StateView {
        if self.clipboard_changes(read) {
            StateView {
                clipboard_text: read->0,
                last_clipboard_text: read->0,
                history: self.history_after_record(read->0),
                ..self
            }
        } else {
            self
        }
    }

    /// What a request to start a session leads to.
    pub open spec fn start_outcome(self) -> StartOutcome {
        if !self.enabled {
            StartOutcome::IgnoredDisabled
        } else if self.session.is_active() {
            StartOutcome::IgnoredBusy
        } else if self.clipboard_text.len() == 0 {
            StartOutcome::EmptySource
        } else {
            StartOutcome::Started
        }
    }

    /// The state after a request to start a session.
    pub open spec fn after_start(self) -> StateView {
        match self.start_outcome() {
            StartOutcome::Started => StateView {
                session: SessionView::starting(
                    self.typing_delay,
                    self.typing_variance,
                    self.typing_variance_enabled,
                ),
                status: self.message("status.typing"@),
                ..self
            },
            StartOutcome::EmptySource => StateView {
                session: SessionView::idle().failed(FailReason::EmptySource, Seq::empty()),
                status: self.message("status.clipboard_empty"@),
                ..self
            },
            _ => self,
        }
    }

    /// This state with the session ended by a failure and the status that
    /// reports it.
    pub open spec fn with_failure(
        self,
        reason: FailReason,
        message: Seq<char>,
        status: Seq<char>,
    ) -> StateView {
        StateView { session: self.session.failed(reason, message), status, ..self }
    }

    /// This state, with the session completed if its last character was
    /// sent and its delay has run out.
    pub open spec fn completed_if_done(self) -> StateView {
        if self.session.is_done() {
            StateView {
                session: SessionView { phase: Phase::Completed, paused: false, ..self.session },
                status: self.message("status.input_complete"@),
                ..self
            }
        } else {
            self
        }
    }

    /// The state after the worker reported `event`, `drawn` being the extra
    /// delay drawn for the character just sent. A report that does not fit
    /// the session's phase changes nothing.
    pub open spec fn after_event(self, event: WorkerEvent, drawn: u64) -> StateView {
        match event {
            WorkerEvent::Settled => if self.session.phase == Phase::Settling {
                if self.clipboard_text.len() == 0 {
                    self.with_failure(
                        FailReason::EmptySource,
                        Seq::empty(),
                        self.message("status.clipboard_empty"@),
                    )
                } else {
                    StateView {
                        session: SessionView {
                            phase: Phase::Opening,
                            payload: self.clipboard_text,
                            cursor: 0,
                            remaining: 0,
                            ..self.session
                        },
                        ..self
                    }
                }
            } else {
                self
            },
            WorkerEvent::DeviceReady => if self.session.phase == Phase::Opening {
                StateView { session: SessionView { phase: Phase::Typing, ..self.session }, ..self }
            } else {
                self
            },
            WorkerEvent::DeviceFailed(message) => if self.session.phase == Phase::Opening {
                self.with_failure(
                    FailReason::InputDeviceInit,
                    message@,
                    self.message_with("status.input_init_error"@, "err"@, message@),
                )
            } else {
                self
            },
            WorkerEvent::Polled => self,
            WorkerEvent::Sent => if self.session.phase == Phase::Typing && self.session.cursor
                < self.session.payload.len() {
                (StateView {
                    session: SessionView {
                        cursor: self.session.cursor + 1,
                        remaining: char_delay(
                            self.session.delay,
                            self.session.jitter_enabled,
                            self.session.jitter,
                            drawn,
                        ),
                        ..self.session
                    },
                    ..self
                }).completed_if_done()
            } else {
                self
            },
            WorkerEvent::SendFailed(message) => if self.session.phase == Phase::Typing {
                self.with_failure(
                    FailReason::InputDeviceError,
                    message@,
                    self.message_with("status.input_error"@, "err"@, message@),
                )
            } else {
                self
            },
            WorkerEvent::Delayed(slept) => if self.session.phase == Phase::Typing {
                (StateView {
                    session: SessionView {
                        remaining: if slept >= self.session.remaining {
                            0
                        } else {
                            (self.session.remaining - slept) as u64
                        },
                        ..self.session
                    },
                    ..self
                }).completed_if_done()
            } else {
                self
            },
        }
    }

    /// The state after the settings of `config` were put into effect: the
    /// pacing and the history settings are taken over, the history is cut to
    /// the new bound, or emptied where history is switched off, and the
    /// language changes if the new one is on offer.
    pub open spec fn after_settings(self, config: AppConfig) -> StateView {
        StateView {
            typing_delay: config.typing_delay,
            typing_variance: config.typing_variance,
            typing_variance_enabled: config.typing_variance_enabled,
            history_enabled: config.history_enabled,
            history_max_items: config.history_max_items,
            history: if config.history_enabled {
                newest(self.history, config.history_max_items as nat)
            } else {
                Seq::empty()
            },
            language: if Store::has(config.language@) {
                config.language@
            } else {
                self.language
            },
            ..self
        }
    }

    /// This state with monitoring switched on or off, and the status that
    /// reports it.
    pub open spec fn after_switch(self, enabled: bool) -> StateView {
        StateView {
            enabled,
            status: if enabled {
                self.message("status.enabled"@)
            } else {
                self.message("status.disabled"@)
            },
            ..self
        }
    }

    /// This state with the pause request flipped.
    pub open spec fn after_toggle_pause(self) -> StateView {
        StateView { session: SessionView { paused: !self.session.paused, ..self.session }, ..self }
    }

    /// What a hotkey event with the id `event_id`, arriving at `now`, leads
    /// to.
    pub open spec fn hotkey_outcome(self, event_id: u32, now: u64) -> HotkeyOutcome {
        if self.hotkey_id != Some(event_id) {
            HotkeyOutcome::NotRegistered
        } else if !debounce_accepts(self.last_hotkey_trigger, now) {
            HotkeyOutcome::Debounced
        } else if self.session.is_active() {
            if self.session.paused {
                HotkeyOutcome::Resumed
            } else {
                HotkeyOutcome::Paused
            }
        } else {
            HotkeyOutcome::Start(self.start_outcome())
        }
    }

    /// The state after a hotkey event with the id `event_id`, arriving at
    /// `now`.
    pub open spec fn after_hotkey(self, event_id: u32, now: u64) -> StateView {
        let taken = StateView { last_hotkey_trigger: Some(now), ..self };
        match self.hotkey_outcome(event_id, now) {
            HotkeyOutcome::NotRegistered => self,
            HotkeyOutcome::Debounced => self,
            HotkeyOutcome::Paused => StateView {
                status: self.message("status.typing_paused"@),
                ..taken.after_toggle_pause()
            },
            HotkeyOutcome::Resumed => StateView {
                status: self.message("status.typing"@),
                ..taken.after_toggle_pause()
            },
            HotkeyOutcome::Start(_) => taken.after_start(),
        }
    }
}

impl SharedState {
    /// The state of a program that has just started, with its messages in
    /// the language of `i18n`.
    pub fn new(i18n: I18n) -> (r: SharedState)
        ensures
            r@ == StateView::initial(i18n.language(), i18n.catalogs()),
    {
        let ready = i18n.t("status.ready");
        let r = SharedState {
            clipboard_text: String::new(),
            last_clipboard_text: String::new(),
            clipboard_history: Vec::new(),
            history_enabled: false,
            history_max_items: 0,
            enabled: true,
            status_message: ready,
            typing_delay: 0,
            typing_variance: 0,
            typing_variance_enabled: false,
            last_hotkey_trigger: None,
            hotkey_id: None,
            session: TypingSession::new(),
            i18n,
        };
        assert(r@.history =~= Seq::<Seq<char>>::empty());
        r
    }

    pub fn set_status(&mut self, msg: &str)
        ensures
            final(self)@ == (StateView { status: msg@, ..old(self)@ }),
    {
        self.status_message = msg.to_owned();
    }

    pub fn get_status(&self) -> (r: String)
        ensures
            r@ == self@.status,
    {
        self.status_message.clone()
    }

    pub fn is_enabled(&self) -> (r: bool)
        ensures
            r == self@.enabled,
    {
        self.enabled
    }

    pub fn set_enabled(&mut self, enabled: bool)
        ensures
            final(self)@ == (StateView { enabled, ..old(self)@ }),
    {
        self.enabled = enabled;
    }

    pub fn get_clipboard_text(&self) -> (r: String)
        ensures
            r@ == self@.clipboard_text,
    {
        self.clipboard_text.clone()
    }

    /// Whether a session is under way.
    pub fn is_typing(&self) -> (r: bool)
        ensures
            r == self@.session.is_active(),
    {
        self.session.is_active()
    }

    /// Flips the pause request and gives its new value.
    pub fn toggle_typing_pause(&mut self) -> (r: bool)
        ensures
            final(self)@ == old(self)@.after_toggle_pause(),
            r == !old(self)@.session.paused,
    {
        self.session.paused = !self.session.paused;
        self.session.paused
    }

    /// Whether the worker must wait before its next step because a pause
    /// was requested.
    pub fn wait_if_paused(&self) -> (r: bool)
        ensures
            r == self@.session.paused,
    {
        self.session.paused
    }

    /// Whether a hotkey event that arrives at `now_ms` is taken; one that is
    /// taken becomes the event that the next is measured against.
    pub fn should_handle_hotkey(&mut self, now_ms: u64) -> (r: bool)
        ensures
            r == debounce_accepts(old(self)@.last_hotkey_trigger, now_ms),
            r ==> final(self)@ == (StateView { last_hotkey_trigger: Some(now_ms), ..old(self)@ }),
            !r ==> final(self)@ == old(self)@,
    {
        match self.last_hotkey_trigger {
            Some(previous) => {
                if now_ms < previous || now_ms - previous < DEBOUNCE_MS {
                    return false;
                }
            },
            None => {},
        }
        self.last_hotkey_trigger = Some(now_ms);
        true
    }

    pub fn t(&self, key: &str) -> (r: String)
        ensures
            r@ == self@.message(key@),
    {
        self.i18n.t(key)
    }

    pub fn tr(&self, key: &str, args: &[(&str, &str)]) -> (r: String)
        ensures
            r@ == crate::i18n::filled(
                self@.message(key@),
                crate::i18n::argument_views(args@),
                args@.len() as int,
            ),
    {
        self.i18n.tr(key, args)
    }

    /// Adds a captured text to the history and drops the oldest items
    /// beyond the bound. Does nothing while history is switched off or the
    /// bound is zero.
    pub fn record_history(&mut self, text: String)
        ensures
            final(self)@ == (StateView {
                history: old(self)@.history_after_record(text@),
                ..old(self)@
            }),
    {
        if !self.history_enabled {
            return ;
        }
        if self.history_max_items == 0 {
            return ;
        }
        self.clipboard_history.push(text);
        assert(line_views(self.clipboard_history@) =~= old(self)@.history.push(text@));
        self.drop_oldest();
    }

    pub fn clear_history(&mut self)
        ensures
            final(self)@ == (StateView { history: Seq::empty(), ..old(self)@ }),
    {
        self.clipboard_history.clear();
        assert(line_views(self.clipboard_history@) =~= Seq::<Seq<char>>::empty());
    }

    /// Cuts the history down to its bound, the newest items staying. A
    /// bound of zero empties it.
    pub fn trim_history(&mut self)
        ensures
            final(self)@ == (StateView {
                history: newest(old(self)@.history, old(self)@.history_max_items as nat),
                ..old(self)@
            }),
    {
        if self.history_max_items == 0 {
            self.clear_history();
            assert(newest(old(self)@.history, 0) =~= Seq::<Seq<char>>::empty());
            return ;
        }
        self.drop_oldest();
    }

    /// Removes the oldest items until the history is within its bound.
    fn drop_oldest(&mut self)
        ensures
            final(self)@ == (StateView {
                history: newest(old(self)@.history, old(self)@.history_max_items as nat),
                ..old(self)@
            }),
    {
        let bound = self.history_max_items as usize;
        let ghost before = line_views(self.clipboard_history@);
        while self.clipboard_history.len() > bound
            invariant
                bound == old(self).history_max_items,
                self.clipboard_history@.len() <= before.len(),
                before.len() > bound ==> self.clipboard_history@.len() >= bound,
                before.len() <= bound ==> self.clipboard_history@.len() == before.len(),
                line_views(self.clipboard_history@) == before.subrange(
                    before.len() - self.clipboard_history@.len(),
                    before.len() as int,
                ),
                *self == (SharedState { clipboard_history: self.clipboard_history, ..*old(self) }),
            decreases self.clipboard_history@.len(),
        {
            let ghost held = self.clipboard_history@;
            self.clipboard_history.remove(0);
            assert(line_views(self.clipboard_history@) =~= before.subrange(
                before.len() - self.clipboard_history@.len(),
                before.len() as int,
            )) by {
                assert forall|i: int| 0 <= i < self.clipboard_history@.len() implies line_views(
                    self.clipboard_history@,
                )[i] == before[before.len() - self.clipboard_history@.len() + i] by {
                    assert(self.clipboard_history@[i] == held[i + 1]);
                    assert(line_views(held)[i + 1] == held[i + 1]@);
                }
            }
        }
        assert(line_views(self.clipboard_history@) =~= newest(before, bound as nat));
    }

    /// Takes in what the clipboard watcher read: `None` where the clipboard
    /// could not be read or held no text. Gives whether the captured text
    /// changed.
    pub fn on_clipboard_poll(&mut self, read: Option<String>) -> (r: bool)
        ensures
            r == old(self)@.clipboard_changes(
                match read {
                    Some(text) => Some(text@),
                    None => None,
                },
            ),
            final(self)@ == old(self)@.after_clipboard_poll(
                match read {
                    Some(text) => Some(text@),
                    None => None,
                },
            ),
    {
        if !self.enabled {
            return false;
        }
        match read {
            Some(text) => {
                if text.as_str().is_empty() || text == self.last_clipboard_text {
                    return false;
                }
                self.clipboard_text = text.clone();
                self.last_clipboard_text = text.clone();
                self.record_history(text);
                true
            },
            None => false,
        }
    }

    /// Empties the captured text and reports it in the status.
    pub fn clear_clipboard_text(&mut self)
        ensures
            final(self)@ == (StateView {
                clipboard_text: Seq::empty(),
                status: old(self)@.message("status.cleared"@),
                ..old(self)@
            }),
    {
        self.clipboard_text = String::new();
        self.status_message = self.i18n.t("status.cleared");
    }

    /// Switches monitoring on or off and reports it in the status.
    pub fn switch_enabled(&mut self, enabled: bool)
        ensures
            final(self)@ == old(self)@.after_switch(enabled),
    {
        self.enabled = enabled;
        if enabled {
            self.status_message = self.i18n.t("status.enabled");
        } else {
            self.status_message = self.i18n.t("status.disabled");
        }
    }

    /// Switches monitoring to the opposite of what it was, reports it in
    /// the status and gives the new setting.
    pub fn toggle_enabled(&mut self) -> (r: bool)
        ensures
            r == !old(self)@.enabled,
            final(self)@ == old(self)@.after_switch(r),
    {
        let enabled = !self.enabled;
        self.switch_enabled(enabled);
        enabled
    }

    /// Whether the user may ask for a session by hand: monitoring is on, no
    /// session is under way and there is captured text.
    pub fn can_start_manually(&self) -> (r: bool)
        ensures
            r == (self@.start_outcome() == StartOutcome::Started),
    {
        self.enabled && !self.session.is_active() && !self.clipboard_text.as_str().is_empty()
    }

    /// Asks for a typing session. One is started only while monitoring is
    /// switched on, no session is under way and there is captured text; a
    /// request without captured text fails at once. The pacing is taken from
    /// the settings as they are now.
    pub fn execute_typing(&mut self) -> (r: StartOutcome)
        ensures
            r == old(self)@.start_outcome(),
            final(self)@ == old(self)@.after_start(),
    {
        if !self.enabled {
            return StartOutcome::IgnoredDisabled;
        }
        if self.session.is_active() {
            return StartOutcome::IgnoredBusy;
        }
        if self.clipboard_text.as_str().is_empty() {
            self.session = TypingSession::new();
            self.session.phase = Phase::Failed(FailReason::EmptySource);
            self.status_message = self.i18n.t("status.clipboard_empty");
            return StartOutcome::EmptySource;
        }
        self.session = TypingSession::new();
        self.session.phase = Phase::Settling;
        self.session.delay = self.typing_delay;
        self.session.jitter = self.typing_variance;
        self.session.jitter_enabled = self.typing_variance_enabled;
        self.status_message = self.i18n.t("status.typing");
        StartOutcome::Started
    }

    /// What the worker is to do next.
    pub fn next_action(&self) -> (r: WorkerAction)
        ensures
            r == self@.session.next_action(),
    {
        self.session.next_action()
    }

    /// Ends the session with a failure.
    fn fail(&mut self, reason: FailReason, message: String, status: String)
        ensures
            final(self)@ == old(self)@.with_failure(reason, message@, status@),
    {
        self.session.phase = Phase::Failed(reason);
        self.session.paused = false;
        self.session.failure_message = message;
        self.status_message = status;
    }

    /// Completes the session if its last character was sent and its delay
    /// has run out.
    fn complete_if_done(&mut self)
        ensures
            final(self)@ == old(self)@.completed_if_done(),
    {
        let done = match self.session.phase {
            Phase::Typing => self.session.cursor >= self.session.payload.len()
                && self.session.remaining == 0,
            _ => false,
        };
        if done {
            self.session.phase = Phase::Completed;
            self.session.paused = false;
            self.status_message = self.i18n.t("status.input_complete");
        }
    }

    /// Takes in a report of the worker, `drawn` being the extra delay for
    /// the character just sent.
    pub fn apply(&mut self, event: WorkerEvent, drawn: u64)
        ensures
            final(self)@ == old(self)@.after_event(event, drawn),
    {
        match event {
            WorkerEvent::Settled => {
                if self.session.phase == Phase::Settling {
                    if self.clipboard_text.as_str().is_empty() {
                        let status = self.i18n.t("status.clipboard_empty");
                        self.fail(FailReason::EmptySource, String::new(), status);
                    } else {
                        self.session.payload = chars_of(self.clipboard_text.as_str());
                        self.session.cursor = 0;
                        self.session.remaining = 0;
                        self.session.phase = Phase::Opening;
                    }
                }
            },
            WorkerEvent::DeviceReady => {
                if self.session.phase == Phase::Opening {
                    self.session.phase = Phase::Typing;
                }
            },
            WorkerEvent::DeviceFailed(message) => {
                if self.session.phase == Phase::Opening {
                    let status = self.i18n.tr_one("status.input_init_error", "err", message.as_str());
                    self.fail(FailReason::InputDeviceInit, message, status);
                }
            },
            WorkerEvent::Polled => {},
            WorkerEvent::Sent => {
                if self.session.phase == Phase::Typing && self.session.cursor
                    < self.session.payload.len() {
                    self.session.cursor = self.session.cursor + 1;
                    self.session.remaining = delay_after_char(
                        self.session.delay,
                        self.session.jitter_enabled,
                        self.session.jitter,
                        drawn,
                    );
                    self.complete_if_done();
                }
            },
            WorkerEvent::SendFailed(message) => {
                if self.session.phase == Phase::Typing {
                    let status = self.i18n.tr_one("status.input_error", "err", message.as_str());
                    self.fail(FailReason::InputDeviceError, message, status);
                }
            },
            WorkerEvent::Delayed(slept) => {
                if self.session.phase == Phase::Typing {
                    if slept >= self.session.remaining {
                        self.session.remaining = 0;
                    } else {
                        self.session.remaining = self.session.remaining - slept;
                    }
                    self.complete_if_done();
                }
            },
        }
    }

    /// Takes in a report of the worker. Where a character was sent and
    /// jitter is switched on, the extra delay is drawn at random, from zero
    /// to the jitter bound.
    pub fn handle(&mut self, event: WorkerEvent)
        ensures
            exists|drawn: u64|
                drawn <= old(self)@.session.jitter && final(self)@ == old(self)@.after_event(
                    event,
                    drawn,
                ),
    {
        let draws = match event {
            WorkerEvent::Sent => self.session.jitter_enabled && self.session.jitter > 0,
            _ => false,
        };
        let drawn = if draws {
            draw_jitter(self.session.jitter)
        } else {
            0
        };
        self.apply(event, drawn);
    }

    /// Puts the settings of `config` into effect.
    pub fn apply_settings(&mut self, config: &AppConfig)
        ensures
            final(self)@ == old(self)@.after_settings(*config),
    {
        self.typing_delay = config.typing_delay;
        self.typing_variance = config.typing_variance;
        self.typing_variance_enabled = config.typing_variance_enabled;
        self.history_enabled = config.history_enabled;
        self.history_max_items = config.history_max_items;
        if self.history_enabled {
            self.trim_history();
        } else {
            self.clear_history();
        }
        self.i18n.set_language(config.language.as_str());
    }

    /// Notes that the hotkey was registered under `id`, and reports it in
    /// the status with the binding as shown to the user; `rebound` tells a
    /// changed binding from the first one.
    pub fn hotkey_registered(&mut self, id: u32, shown: &str, rebound: bool)
        ensures
            final(self)@ == (StateView {
                hotkey_id: Some(id),
                status: old(self)@.message_with(
                    if rebound {
                        "status.hotkey_updated"@
                    } else {
                        "status.hotkey_registered"@
                    },
                    "hotkey"@,
                    shown@,
                ),
                ..old(self)@
            }),
    {
        self.hotkey_id = Some(id);
        if rebound {
            self.status_message = self.i18n.tr_one("status.hotkey_updated", "hotkey", shown);
        } else {
            self.status_message = self.i18n.tr_one("status.hotkey_registered", "hotkey", shown);
        }
    }

    /// Notes that the hotkey was given up: until another is registered, no
    /// hotkey event is taken.
    pub fn hotkey_unregistered(&mut self)
        ensures
            final(self)@ == (StateView { hotkey_id: None, ..old(self)@ }),
    {
        self.hotkey_id = None;
    }

    /// Reports in the status that the hotkey could not be registered,
    /// `error` being the platform's message. The hotkey that was given up
    /// before is not taken back.
    pub fn hotkey_register_failed(&mut self, error: &str)
        ensures
            final(self)@ == (StateView {
                status: old(self)@.message_with("status.hotkey_register_fail"@, "err"@, error@),
                ..old(self)@
            }),
    {
        self.status_message = self.i18n.tr_one("status.hotkey_register_fail", "err", error);
    }

    /// Reports in the status that hotkeys are not to be had at all.
    pub fn hotkey_manager_failed(&mut self, error: &str)
        ensures
            final(self)@ == (StateView {
                status: old(self)@.message_with("status.hotkey_manager_fail"@, "err"@, error@),
                ..old(self)@
            }),
    {
        self.status_message = self.i18n.tr_one("status.hotkey_manager_fail", "err", error);
    }

    /// Reports in the status that the clipboard could not be opened.
    pub fn clipboard_init_failed(&mut self, error: &str)
        ensures
            final(self)@ == (StateView {
                status: old(self)@.message_with("status.clipboard_init_fail"@, "err"@, error@),
                ..old(self)@
            }),
    {
        self.status_message = self.i18n.tr_one("status.clipboard_init_fail", "err", error);
    }

    /// Takes in a hotkey event with the id `event_id` that arrived at
    /// `now_ms`. An event of another hotkey, or one that comes too soon
    /// after the last, changes nothing. Else a session under way is paused
    /// or resumed, and where none is, one is asked for.
    pub fn on_hotkey(&mut self, event_id: u32, now_ms: u64) -> (r: HotkeyOutcome)
        ensures
            r == old(self)@.hotkey_outcome(event_id, now_ms),
            final(self)@ == old(self)@.after_hotkey(event_id, now_ms),
    {
        match self.hotkey_id {
            Some(id) => {
                if id != event_id {
                    return HotkeyOutcome::NotRegistered;
                }
            },
            None => {
                return HotkeyOutcome::NotRegistered;
            },
        }
        if !self.should_handle_hotkey(now_ms) {
            return HotkeyOutcome::Debounced;
        }
        if self.is_typing() {
            let paused = self.toggle_typing_pause();
            if paused {
                self.status_message = self.i18n.t("status.typing_paused");
                HotkeyOutcome::Paused
            } else {
                self.status_message = self.i18n.t("status.typing");
                HotkeyOutcome::Resumed
            }
        } else {
            HotkeyOutcome::Start(self.execute_typing())
        }
    }
}

impl StateView {
    /// The state after the texts of `inserted` were recorded in the history
    /// one after the other.
    pub open spec fn after_records(self, inserted: Seq<Seq<char>>) -> StateView
        decreases inserted.len(),
    {
        if inserted.len() == 0 {
            self
        } else {
            let earlier = self.after_records(inserted.drop_last());
            StateView { history: earlier.history_after_record(inserted.last()), ..earlier }
        }
    }
}

/// Adding an item to the newest `bound` of a list and keeping the newest
/// `bound` gives the same as adding it to the whole list first.
pub proof fn lemma_newest_of_push<T>(items: Seq<T>, bound: nat, item: T)
    requires
        bound >= 1,
    ensures
        newest(newest(items, bound).push(item), bound) == newest(items.push(item), bound),
{
    assert(newest(newest(items, bound).push(item), bound) =~= newest(items.push(item), bound));
}

/// With history switched on and a bound of at least one, recording any
/// number of texts, at least one, leaves the newest `bound` of everything
/// that was ever held.
pub proof fn lemma_records_keep_newest(state: StateView, inserted: Seq<Seq<char>>)
    requires
        state.history_enabled,
        state.history_max_items >= 1,
        inserted.len() >= 1,
    ensures
        state.after_records(inserted).history == newest(
            state.history + inserted,
            state.history_max_items as nat,
        ),
        state.after_records(inserted).history_enabled,
        state.after_records(inserted).history_max_items == state.history_max_items,
    decreases inserted.len(),
{
    let bound = state.history_max_items as nat;
    let earlier_items = inserted.drop_last();
    let earlier = state.after_records(earlier_items);
    if inserted.len() == 1 {
        assert(earlier == state);
        assert(state.history.push(inserted.last()) =~= state.history + inserted);
    } else {
        lemma_records_keep_newest(state, earlier_items);
        lemma_newest_of_push(state.history + earlier_items, bound, inserted.last());
        assert((state.history + earlier_items).push(inserted.last()) =~= state.history + inserted);
    }
}

/// After more texts were recorded than the bound allows, the history holds
/// exactly as many as the bound, and they are the ones recorded last, in the
/// order in which they were recorded.
pub proof fn lemma_history_holds_most_recent(state: StateView, inserted: Seq<Seq<char>>)
    requires
        state.history_enabled,
        1 <= state.history_max_items <= 100,
        inserted.len() > state.history_max_items,
    ensures
        state.after_records(inserted).history.len() == state.history_max_items,
        state.after_records(inserted).history == inserted.subrange(
            inserted.len() - state.history_max_items,
            inserted.len() as int,
        ),
{
    lemma_records_keep_newest(state, inserted);
    assert(newest(state.history + inserted, state.history_max_items as nat) =~= inserted.subrange(
        inserted.len() - state.history_max_items,
        inserted.len() as int,
    ));
}

/// The first hotkey event ever is taken, and an event that follows a taken
/// one by less than the debounce time is dropped: of two events that close
/// together, the first of them taken, exactly one is taken.
pub proof fn lemma_debounce_takes_one_of_two(last: Option<u64>, first: u64, second: u64)
    requires
        first <= second,
        second - first < DEBOUNCE_MS,
        debounce_accepts(last, first),
    ensures
        debounce_accepts(None, first),
        !debounce_accepts(Some(first), second),
{
}

/// Of two events of the registered hotkey that arrive less than the
/// debounce time apart, the first of them taken, the second is dropped and
/// changes nothing: exactly one of the two is dispatched.
pub proof fn lemma_close_hotkey_events_dispatch_once(
    state: StateView,
    event_id: u32,
    first: u64,
    second: u64,
)
    requires
        first <= second,
        second - first < DEBOUNCE_MS,
        state.hotkey_id == Some(event_id),
        debounce_accepts(state.last_hotkey_trigger, first),
    ensures
        state.hotkey_outcome(event_id, first) != HotkeyOutcome::Debounced,
        state.hotkey_outcome(event_id, first) != HotkeyOutcome::NotRegistered,
        state.after_hotkey(event_id, first).hotkey_outcome(event_id, second)
            == HotkeyOutcome::Debounced,
        state.after_hotkey(event_id, first).after_hotkey(event_id, second) == state.after_hotkey(
            event_id,
            first,
        ),
{
}

/// A request to start a session without captured text fails at once with
/// `EmptySource`, and so does a session that finds the captured text empty
/// when its settle delay is over. In both cases the worker is told to stop:
/// no character is ever sent.
pub proof fn lemma_empty_source_sends_nothing(state: StateView, drawn: u64)
    requires
        state.clipboard_text.len() == 0,
    ensures
        state.enabled && !state.session.is_active() ==> {
            &&& state.start_outcome() == StartOutcome::EmptySource
            &&& state.after_start().session.phase == Phase::Failed(FailReason::EmptySource)
            &&& state.after_start().session.next_action() == WorkerAction::Stop
        },
        state.session.phase == Phase::Settling ==> {
            &&& state.after_event(WorkerEvent::Settled, drawn).session.phase == Phase::Failed(
                FailReason::EmptySource,
            )
            &&& state.after_event(WorkerEvent::Settled, drawn).session.next_action()
                == WorkerAction::Stop
        },
{
}

/// While a session is paused the worker is told to wait, never to send. No
/// report of the worker lifts the pause of a session that goes on. When the
/// pause is lifted the session runs again with its text and its place in it
/// unchanged, so that the next character sent is the first unsent one.
pub proof fn lemma_pause_holds_place(state: StateView, event: WorkerEvent, drawn: u64)
    requires
        state.session.phase == Phase::Typing,
        state.session.paused,
    ensures
        state.session.state() == crate::session::SessionState::Paused,
        state.session.next_action() == WorkerAction::WaitWhilePaused(crate::session::SLICE_MS),
        state.after_event(WorkerEvent::Polled, drawn) == state,
        state.after_event(event, drawn).session.phase == Phase::Typing ==> state.after_event(
            event,
            drawn,
        ).session.paused,
        state.after_toggle_pause().session.state() == crate::session::SessionState::Running,
        state.after_toggle_pause().session.payload == state.session.payload,
        state.after_toggle_pause().session.cursor == state.session.cursor,
        state.session.remaining == 0 && state.session.cursor < state.session.payload.len()
            ==> state.after_toggle_pause().session.next_action() == WorkerAction::Send(
            state.session.payload[state.session.cursor as int],
        ),
{
}

/// A hotkey event that is taken while a session is running pauses that
/// session and starts no other; the next taken event makes it run again,
/// with nothing of the session changed in between.
pub proof fn lemma_hotkey_toggles_running_session(
    state: StateView,
    event_id: u32,
    second: u64,
    third: u64,
)
    requires
        state.hotkey_id == Some(event_id),
        state.session.phase == Phase::Typing,
        !state.session.paused,
        debounce_accepts(state.last_hotkey_trigger, second),
        debounce_accepts(Some(second), third),
    ensures
        state.hotkey_outcome(event_id, second) == HotkeyOutcome::Paused,
        state.after_hotkey(event_id, second).session == (SessionView {
            paused: true,
            ..state.session
        }),
        state.after_hotkey(event_id, second).session.state()
            == crate::session::SessionState::Paused,
        state.after_hotkey(event_id, second).hotkey_outcome(event_id, third)
            == HotkeyOutcome::Resumed,
        state.after_hotkey(event_id, second).after_hotkey(event_id, third).session
            == state.session,
        state.after_hotkey(event_id, second).after_hotkey(event_id, third).session.state()
            == crate::session::SessionState::Running,
{
}

/// After a binding was given up and the next one could not be registered,
/// no hotkey is registered: every hotkey event is passed over, whatever its
/// id, and changes nothing.
pub proof fn lemma_failed_rebind_leaves_no_hotkey(
    state: StateView,
    status: Seq<char>,
    event_id: u32,
    now: u64,
)
    ensures
        (StateView { status, hotkey_id: None, ..state }).hotkey_outcome(event_id, now)
            == HotkeyOutcome::NotRegistered,
        (StateView { status, hotkey_id: None, ..state }).after_hotkey(event_id, now) == (StateView {
            status,
            hotkey_id: None,
            ..state
        }),
{
}

/// Whatever happens to the shared state, a session that was well formed
/// stays so: at the start of the program, when a session is asked for, on
/// every report of the worker, on a pause request and on every hotkey event.
pub proof fn lemma_session_stays_well_formed(
    state: StateView,
    event: WorkerEvent,
    drawn: u64,
    event_id: u32,
    now: u64,
)
    requires
        state.session.wf(),
    ensures
        SessionView::idle().wf(),
        state.after_start().session.wf(),
        state.after_event(event, drawn).session.wf(),
        state.after_toggle_pause().session.wf(),
        state.after_hotkey(event_id, now).session.wf(),
{
}

/// While a well-formed session sends characters and is not paused, the
/// worker is never told to stop: it is told either to send the first unsent
/// character, after which one more character counts as sent, or to sleep a
/// slice of the delay, at least one millisecond and at most `SLICE_MS`,
/// after which that much less of the delay is left. A session is completed
/// only with all of its text sent and no delay left.
pub proof fn lemma_worker_makes_progress(state: StateView, drawn: u64)
    requires
        state.session.wf(),
        state.session.phase == Phase::Typing,
        !state.session.paused,
    ensures
        match state.session.next_action() {
            WorkerAction::Send(c) => {
                &&& state.session.remaining == 0
                &&& c == state.session.payload[state.session.cursor as int]
                &&& state.after_event(WorkerEvent::Sent, drawn).session.cursor
                    == state.session.cursor + 1
                &&& state.after_event(WorkerEvent::Sent, drawn).session.payload
                    == state.session.payload
            },
            WorkerAction::Delay(slice) => {
                &&& 0 < slice <= crate::session::SLICE_MS
                &&& slice <= state.session.remaining
                &&& state.after_event(WorkerEvent::Delayed(slice), drawn).session.remaining
                    == state.session.remaining - slice
                &&& state.after_event(WorkerEvent::Delayed(slice), drawn).session.cursor
                    == state.session.cursor
            },
            _ => false,
        },
        forall|event: WorkerEvent| #[trigger]
            state.after_event(event, drawn).session.phase == Phase::Completed ==> {
                &&& state.after_event(event, drawn).session.cursor == state.session.payload.len()
                &&& state.after_event(event, drawn).session.remaining == 0
            },
{
}

} // verus!
