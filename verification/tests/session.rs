use copy_type::app_config::AppConfig;
use copy_type::i18n::I18n;
use copy_type::session::{
    delay_after_char, FailReason, HotkeyOutcome, Phase, SessionState, StartOutcome, TypingSession,
    WorkerAction, WorkerEvent,
};
use copy_type::shared_state::SharedState;

fn state_with_text(text: &str) -> SharedState {
    let mut state = SharedState::new(I18n::new("en"));
    if !text.is_empty() {
        assert!(state.on_clipboard_poll(Some(text.to_string())));
    }
    state
}

/// Runs the worker of a started session to its end, doing what each action
/// asks for without sleeping. Gives the characters sent and the sleeps.
fn run_worker(state: &mut SharedState) -> (Vec<char>, Vec<WorkerAction>) {
    let mut sent = Vec::new();
    let mut actions = Vec::new();
    for _ in 0..10_000 {
        let action = state.next_action();
        actions.push(action);
        match action {
            WorkerAction::Settle(_) => state.handle(WorkerEvent::Settled),
            WorkerAction::OpenDevice => state.handle(WorkerEvent::DeviceReady),
            WorkerAction::WaitWhilePaused(_) => panic!("paused with nobody to resume"),
            WorkerAction::Send(c) => {
                sent.push(c);
                state.handle(WorkerEvent::Sent);
            }
            WorkerAction::Delay(ms) => state.handle(WorkerEvent::Delayed(ms)),
            WorkerAction::Stop => return (sent, actions),
        }
    }
    panic!("the worker did not stop");
}

#[test]
fn fresh_state() {
    let state = SharedState::new(I18n::new("en"));
    assert_eq!(state.get_status(), "Ready");
    assert!(state.is_enabled());
    assert_eq!(state.get_clipboard_text(), "");
    assert!(!state.is_typing());
    assert!(!state.wait_if_paused());
    assert_eq!(state.session.state(), SessionState::Idle);
    assert_eq!(state.next_action(), WorkerAction::Stop);
    assert_eq!(state.hotkey_id, None);
    assert_eq!(state.last_hotkey_trigger, None);
    assert!(state.clipboard_history.is_empty());
    assert_eq!(SharedState::new(I18n::new("zh-CN")).get_status(), "就绪");
}

#[test]
fn status_and_enabled_accessors() {
    let mut state = SharedState::new(I18n::new("en"));
    state.set_status("busy");
    assert_eq!(state.get_status(), "busy");
    state.set_enabled(false);
    assert!(!state.is_enabled());
    state.set_enabled(true);
    assert!(state.is_enabled());
    assert_eq!(state.t("status.cleared"), "Cleared");
    assert_eq!(state.tr("ui.label_status", &[("status", "ok")]), "Status: ok");
}

#[test]
fn typing_hi_with_fixed_delay() {
    let mut state = state_with_text("hi");
    state.typing_delay = 50;
    state.typing_variance_enabled = false;
    assert_eq!(state.execute_typing(), StartOutcome::Started);
    assert_eq!(state.get_status(), "Typing...");
    assert_eq!(state.session.state(), SessionState::Starting);
    assert!(state.is_typing());
    let (sent, actions) = run_worker(&mut state);
    assert_eq!(sent, vec!['h', 'i']);
    assert_eq!(
        actions,
        vec![
            WorkerAction::Settle(250),
            WorkerAction::OpenDevice,
            WorkerAction::Send('h'),
            WorkerAction::Delay(50),
            WorkerAction::Send('i'),
            WorkerAction::Delay(50),
            WorkerAction::Stop,
        ]
    );
    assert_eq!(state.session.state(), SessionState::Completed);
    assert_eq!(state.get_status(), "Typing complete");
    assert!(!state.is_typing());
}

#[test]
fn typing_without_delay() {
    let mut state = state_with_text("abc");
    state.typing_delay = 0;
    assert_eq!(state.execute_typing(), StartOutcome::Started);
    let (sent, actions) = run_worker(&mut state);
    assert_eq!(sent, vec!['a', 'b', 'c']);
    assert_eq!(actions.len(), 6);
    assert_eq!(state.session.state(), SessionState::Completed);
}

#[test]
fn long_delay_is_slept_in_slices() {
    let mut state = state_with_text("x");
    state.typing_delay = 120;
    assert_eq!(state.execute_typing(), StartOutcome::Started);
    let (sent, actions) = run_worker(&mut state);
    assert_eq!(sent, vec!['x']);
    assert_eq!(
        actions,
        vec![
            WorkerAction::Settle(250),
            WorkerAction::OpenDevice,
            WorkerAction::Send('x'),
            WorkerAction::Delay(50),
            WorkerAction::Delay(50),
            WorkerAction::Delay(20),
            WorkerAction::Stop,
        ]
    );
}

#[test]
fn unicode_text_is_sent_by_character() {
    let mut state = state_with_text("你a😀");
    state.typing_delay = 0;
    assert_eq!(state.execute_typing(), StartOutcome::Started);
    let (sent, _) = run_worker(&mut state);
    assert_eq!(sent, vec!['你', 'a', '😀']);
}

#[test]
fn empty_text_fails_without_worker() {
    let mut state = state_with_text("");
    assert_eq!(state.execute_typing(), StartOutcome::EmptySource);
    assert_eq!(state.session.state(), SessionState::Failed(FailReason::EmptySource));
    assert_eq!(state.get_status(), "Clipboard is empty");
    assert!(!state.is_typing());
    assert_eq!(state.next_action(), WorkerAction::Stop);
    let (sent, actions) = run_worker(&mut state);
    assert!(sent.is_empty());
    assert_eq!(actions, vec![WorkerAction::Stop]);
}

#[test]
fn text_cleared_while_settling_fails() {
    let mut state = state_with_text("hi");
    assert_eq!(state.execute_typing(), StartOutcome::Started);
    state.clear_clipboard_text();
    assert_eq!(state.get_status(), "Cleared");
    let (sent, actions) = run_worker(&mut state);
    assert!(sent.is_empty());
    assert_eq!(actions, vec![WorkerAction::Settle(250), WorkerAction::Stop]);
    assert_eq!(state.session.state(), SessionState::Failed(FailReason::EmptySource));
    assert_eq!(state.get_status(), "Clipboard is empty");
}

#[test]
fn disabled_state_ignores_request() {
    let mut state = state_with_text("hi");
    state.set_enabled(false);
    assert_eq!(state.execute_typing(), StartOutcome::IgnoredDisabled);
    assert_eq!(state.session.state(), SessionState::Idle);
    assert_eq!(state.get_status(), "Ready");
}

#[test]
fn second_request_while_active_is_ignored() {
    let mut state = state_with_text("hi");
    assert_eq!(state.execute_typing(), StartOutcome::Started);
    assert_eq!(state.execute_typing(), StartOutcome::IgnoredBusy);
    state.handle(WorkerEvent::Settled);
    assert_eq!(state.execute_typing(), StartOutcome::IgnoredBusy);
    state.handle(WorkerEvent::DeviceReady);
    state.handle(WorkerEvent::Sent);
    assert_eq!(state.execute_typing(), StartOutcome::IgnoredBusy);
    assert_eq!(state.session.cursor, 1);
}

#[test]
fn session_types_the_text_it_took() {
    let mut state = state_with_text("old");
    state.typing_delay = 0;
    assert_eq!(state.execute_typing(), StartOutcome::Started);
    state.handle(WorkerEvent::Settled);
    assert!(state.on_clipboard_poll(Some("new text".to_string())));
    let (sent, _) = run_worker(&mut state);
    assert_eq!(sent, vec!['o', 'l', 'd']);
    assert_eq!(state.get_clipboard_text(), "new text");
}

#[test]
fn new_session_after_a_finished_one() {
    let mut state = state_with_text("a");
    state.typing_delay = 0;
    assert_eq!(state.execute_typing(), StartOutcome::Started);
    run_worker(&mut state);
    assert_eq!(state.session.state(), SessionState::Completed);
    assert_eq!(state.execute_typing(), StartOutcome::Started);
    assert_eq!(state.session.state(), SessionState::Starting);
    let (sent, _) = run_worker(&mut state);
    assert_eq!(sent, vec!['a']);
}

#[test]
fn send_failure_ends_the_session() {
    let mut state = state_with_text("hello");
    state.typing_delay = 0;
    assert_eq!(state.execute_typing(), StartOutcome::Started);
    state.handle(WorkerEvent::Settled);
    state.handle(WorkerEvent::DeviceReady);
    assert_eq!(state.next_action(), WorkerAction::Send('h'));
    state.handle(WorkerEvent::Sent);
    assert_eq!(state.next_action(), WorkerAction::Send('e'));
    state.handle(WorkerEvent::SendFailed("device gone".to_string()));
    assert_eq!(state.session.state(), SessionState::Failed(FailReason::InputDeviceError));
    assert_eq!(state.session.failure_message, "device gone");
    assert_eq!(state.get_status(), "Input error: device gone");
    assert_eq!(state.next_action(), WorkerAction::Stop);
    assert!(!state.is_typing());
    assert_eq!(state.session.cursor, 1);
}

#[test]
fn device_failure_ends_the_session() {
    let mut state = state_with_text("hello");
    assert_eq!(state.execute_typing(), StartOutcome::Started);
    state.handle(WorkerEvent::Settled);
    assert_eq!(state.next_action(), WorkerAction::OpenDevice);
    state.handle(WorkerEvent::DeviceFailed("no display".to_string()));
    assert_eq!(state.session.state(), SessionState::Failed(FailReason::InputDeviceInit));
    assert_eq!(state.session.failure_message, "no display");
    assert_eq!(state.get_status(), "Input device failed to start: no display");
    assert_eq!(state.next_action(), WorkerAction::Stop);
}

#[test]
fn reports_that_do_not_fit_change_nothing() {
    let mut state = state_with_text("hi");
    state.handle(WorkerEvent::Sent);
    state.handle(WorkerEvent::Settled);
    state.handle(WorkerEvent::DeviceReady);
    state.handle(WorkerEvent::SendFailed("x".to_string()));
    state.handle(WorkerEvent::DeviceFailed("x".to_string()));
    state.handle(WorkerEvent::Delayed(10));
    state.handle(WorkerEvent::Polled);
    assert_eq!(state.session.state(), SessionState::Idle);
    assert_eq!(state.get_status(), "Ready");
    assert_eq!(state.execute_typing(), StartOutcome::Started);
    state.handle(WorkerEvent::Sent);
    state.handle(WorkerEvent::DeviceReady);
    assert_eq!(state.session.phase, Phase::Settling);
    assert_eq!(state.session.cursor, 0);
}

#[test]
fn pause_stops_sending_and_resume_goes_on() {
    let mut state = state_with_text("abc");
    state.typing_delay = 0;
    assert_eq!(state.execute_typing(), StartOutcome::Started);
    state.handle(WorkerEvent::Settled);
    state.handle(WorkerEvent::DeviceReady);
    state.handle(WorkerEvent::Sent);
    assert_eq!(state.session.state(), SessionState::Running);
    assert!(state.toggle_typing_pause());
    assert_eq!(state.session.state(), SessionState::Paused);
    assert!(state.wait_if_paused());
    for _ in 0..20 {
        assert_eq!(state.next_action(), WorkerAction::WaitWhilePaused(50));
        state.handle(WorkerEvent::Polled);
    }
    assert_eq!(state.session.cursor, 1);
    assert!(!state.toggle_typing_pause());
    assert_eq!(state.session.state(), SessionState::Running);
    assert_eq!(state.next_action(), WorkerAction::Send('b'));
    let (sent, _) = run_worker(&mut state);
    assert_eq!(sent, vec!['b', 'c']);
    assert_eq!(state.session.state(), SessionState::Completed);
}

#[test]
fn pause_during_delay_keeps_what_is_left() {
    let mut state = state_with_text("ab");
    state.typing_delay = 120;
    assert_eq!(state.execute_typing(), StartOutcome::Started);
    state.handle(WorkerEvent::Settled);
    state.handle(WorkerEvent::DeviceReady);
    state.handle(WorkerEvent::Sent);
    assert_eq!(state.next_action(), WorkerAction::Delay(50));
    state.handle(WorkerEvent::Delayed(50));
    state.toggle_typing_pause();
    assert_eq!(state.next_action(), WorkerAction::WaitWhilePaused(50));
    state.handle(WorkerEvent::Polled);
    assert_eq!(state.session.remaining, 70);
    state.toggle_typing_pause();
    assert_eq!(state.next_action(), WorkerAction::Delay(50));
    state.handle(WorkerEvent::Delayed(50));
    assert_eq!(state.next_action(), WorkerAction::Delay(20));
    state.handle(WorkerEvent::Delayed(20));
    assert_eq!(state.next_action(), WorkerAction::Send('b'));
}

#[test]
fn pause_requested_while_starting_holds_the_first_character() {
    let mut state = state_with_text("ab");
    assert_eq!(state.execute_typing(), StartOutcome::Started);
    assert!(state.toggle_typing_pause());
    assert_eq!(state.session.state(), SessionState::Starting);
    state.handle(WorkerEvent::Settled);
    state.handle(WorkerEvent::DeviceReady);
    assert_eq!(state.session.state(), SessionState::Paused);
    assert_eq!(state.next_action(), WorkerAction::WaitWhilePaused(50));
}

#[test]
fn finished_session_is_not_paused() {
    let mut state = state_with_text("a");
    state.typing_delay = 0;
    assert_eq!(state.execute_typing(), StartOutcome::Started);
    state.handle(WorkerEvent::Settled);
    state.handle(WorkerEvent::DeviceReady);
    state.toggle_typing_pause();
    state.handle(WorkerEvent::Sent);
    assert_eq!(state.session.state(), SessionState::Completed);
    assert!(!state.wait_if_paused());
}

#[test]
fn delay_formula() {
    assert_eq!(delay_after_char(50, false, 30, 7), 50);
    assert_eq!(delay_after_char(50, true, 0, 7), 50);
    assert_eq!(delay_after_char(50, true, 30, 0), 50);
    assert_eq!(delay_after_char(50, true, 30, 7), 57);
    assert_eq!(delay_after_char(50, true, 30, 30), 80);
    assert_eq!(delay_after_char(0, true, 5, 5), 5);
    assert_eq!(delay_after_char(u64::MAX, true, 5, 5), u64::MAX);
    assert_eq!(delay_after_char(u64::MAX - 3, true, 5, 3), u64::MAX);
    assert_eq!(delay_after_char(u64::MAX - 3, true, 5, 2), u64::MAX - 1);
}

#[test]
fn apply_uses_the_drawn_extra() {
    let mut state = state_with_text("ab");
    state.typing_delay = 10;
    state.typing_variance = 5;
    state.typing_variance_enabled = true;
    assert_eq!(state.execute_typing(), StartOutcome::Started);
    state.apply(WorkerEvent::Settled, 0);
    state.apply(WorkerEvent::DeviceReady, 0);
    state.apply(WorkerEvent::Sent, 3);
    assert_eq!(state.session.remaining, 13);
    assert_eq!(state.next_action(), WorkerAction::Delay(13));
    state.apply(WorkerEvent::Delayed(13), 0);
    assert_eq!(state.next_action(), WorkerAction::Send('b'));
}

#[test]
fn jitter_stays_within_its_bound() {
    let mut seen_below_bound = false;
    for _ in 0..64 {
        let mut state = state_with_text("ab");
        state.typing_delay = 10;
        state.typing_variance = 1_000_000;
        state.typing_variance_enabled = true;
        assert_eq!(state.execute_typing(), StartOutcome::Started);
        state.handle(WorkerEvent::Settled);
        state.handle(WorkerEvent::DeviceReady);
        state.handle(WorkerEvent::Sent);
        assert!(state.session.remaining >= 10);
        assert!(state.session.remaining <= 1_000_010);
        if state.session.remaining < 1_000_010 {
            seen_below_bound = true;
        }
    }
    assert!(seen_below_bound);
}

#[test]
fn jitter_switched_off_adds_nothing() {
    let mut state = state_with_text("ab");
    state.typing_delay = 10;
    state.typing_variance = 1_000;
    state.typing_variance_enabled = false;
    assert_eq!(state.execute_typing(), StartOutcome::Started);
    state.handle(WorkerEvent::Settled);
    state.handle(WorkerEvent::DeviceReady);
    state.handle(WorkerEvent::Sent);
    assert_eq!(state.session.remaining, 10);
}

#[test]
fn pacing_is_taken_when_the_session_starts() {
    let mut state = state_with_text("ab");
    state.typing_delay = 10;
    assert_eq!(state.execute_typing(), StartOutcome::Started);
    state.typing_delay = 999;
    state.handle(WorkerEvent::Settled);
    state.handle(WorkerEvent::DeviceReady);
    state.handle(WorkerEvent::Sent);
    assert_eq!(state.session.remaining, 10);
}

#[test]
fn idle_session() {
    let session = TypingSession::new();
    assert_eq!(session.state(), SessionState::Idle);
    assert!(!session.is_active());
    assert_eq!(session.next_action(), WorkerAction::Stop);
}

#[test]
fn debounce_window() {
    let mut state = SharedState::new(I18n::new("en"));
    assert!(state.should_handle_hotkey(1_000));
    assert!(!state.should_handle_hotkey(1_000));
    assert!(!state.should_handle_hotkey(1_100));
    assert!(!state.should_handle_hotkey(1_199));
    assert_eq!(state.last_hotkey_trigger, Some(1_000));
    assert!(state.should_handle_hotkey(1_200));
    assert_eq!(state.last_hotkey_trigger, Some(1_200));
    assert!(!state.should_handle_hotkey(1_399));
    assert!(state.should_handle_hotkey(5_000));
}

#[test]
fn two_events_close_together_give_one_dispatch() {
    let mut state = SharedState::new(I18n::new("en"));
    let accepted = [state.should_handle_hotkey(10), state.should_handle_hotkey(150)];
    assert_eq!(accepted, [true, false]);
    let mut state = SharedState::new(I18n::new("en"));
    let accepted = [state.should_handle_hotkey(0), state.should_handle_hotkey(199)];
    assert_eq!(accepted, [true, false]);
}

#[test]
fn debounce_with_clock_going_backwards() {
    let mut state = SharedState::new(I18n::new("en"));
    assert!(state.should_handle_hotkey(1_000));
    assert!(!state.should_handle_hotkey(500));
    assert_eq!(state.last_hotkey_trigger, Some(1_000));
}

#[test]
fn hotkey_starts_then_pauses_then_resumes() {
    let mut state = state_with_text("abc");
    state.typing_delay = 0;
    state.hotkey_registered(7, "Ctrl + Shift + V", false);
    assert_eq!(state.get_status(), "Hotkey registered: Ctrl + Shift + V");
    assert_eq!(state.on_hotkey(7, 1_000), HotkeyOutcome::Start(StartOutcome::Started));
    state.handle(WorkerEvent::Settled);
    state.handle(WorkerEvent::DeviceReady);
    state.handle(WorkerEvent::Sent);
    assert_eq!(state.session.state(), SessionState::Running);
    assert_eq!(state.on_hotkey(7, 2_000), HotkeyOutcome::Paused);
    assert_eq!(state.session.state(), SessionState::Paused);
    assert_eq!(state.get_status(), "Typing paused");
    assert_eq!(state.session.cursor, 1);
    assert_eq!(state.on_hotkey(7, 3_000), HotkeyOutcome::Resumed);
    assert_eq!(state.session.state(), SessionState::Running);
    assert_eq!(state.get_status(), "Typing...");
    assert_eq!(state.session.cursor, 1);
    assert_eq!(state.next_action(), WorkerAction::Send('b'));
}

#[test]
fn hotkey_of_another_id_is_passed_over() {
    let mut state = state_with_text("abc");
    assert_eq!(state.on_hotkey(7, 1_000), HotkeyOutcome::NotRegistered);
    state.hotkey_registered(7, "Ctrl + V", false);
    assert_eq!(state.on_hotkey(8, 1_000), HotkeyOutcome::NotRegistered);
    assert_eq!(state.last_hotkey_trigger, None);
    assert_eq!(state.session.state(), SessionState::Idle);
}

#[test]
fn hotkey_repeated_too_soon_is_dropped() {
    let mut state = state_with_text("abc");
    state.hotkey_registered(7, "Ctrl + V", false);
    assert_eq!(state.on_hotkey(7, 1_000), HotkeyOutcome::Start(StartOutcome::Started));
    assert_eq!(state.on_hotkey(7, 1_050), HotkeyOutcome::Debounced);
    assert_eq!(state.session.state(), SessionState::Starting);
    assert!(!state.session.paused);
    assert_eq!(state.on_hotkey(7, 1_200), HotkeyOutcome::Paused);
}

#[test]
fn hotkey_with_empty_clipboard() {
    let mut state = state_with_text("");
    state.hotkey_registered(7, "Ctrl + V", false);
    assert_eq!(state.on_hotkey(7, 1_000), HotkeyOutcome::Start(StartOutcome::EmptySource));
    assert_eq!(state.session.state(), SessionState::Failed(FailReason::EmptySource));
    assert_eq!(state.on_hotkey(7, 2_000), HotkeyOutcome::Start(StartOutcome::EmptySource));
}

#[test]
fn hotkey_while_disabled() {
    let mut state = state_with_text("abc");
    state.hotkey_registered(7, "Ctrl + V", false);
    state.set_enabled(false);
    assert_eq!(state.on_hotkey(7, 1_000), HotkeyOutcome::Start(StartOutcome::IgnoredDisabled));
    assert_eq!(state.last_hotkey_trigger, Some(1_000));
    assert_eq!(state.session.state(), SessionState::Idle);
}

#[test]
fn failed_rebind_leaves_no_hotkey() {
    let mut state = state_with_text("abc");
    state.hotkey_registered(7, "Ctrl + V", false);
    state.hotkey_unregistered();
    state.hotkey_register_failed("taken");
    assert_eq!(state.get_status(), "Hotkey registration failed: taken");
    assert_eq!(state.hotkey_id, None);
    assert_eq!(state.on_hotkey(7, 1_000), HotkeyOutcome::NotRegistered);
    state.hotkey_registered(9, "Alt + X", true);
    assert_eq!(state.get_status(), "Hotkey updated: Alt + X");
    assert_eq!(state.on_hotkey(9, 1_000), HotkeyOutcome::Start(StartOutcome::Started));
}

#[test]
fn failure_reports() {
    let mut state = SharedState::new(I18n::new("en"));
    state.hotkey_manager_failed("no x11");
    assert_eq!(state.get_status(), "Hotkey manager failed to start: no x11");
    state.clipboard_init_failed("busy");
    assert_eq!(state.get_status(), "Clipboard failed to start: busy");
}

#[test]
fn toggle_enabled_reports_in_status() {
    let mut state = SharedState::new(I18n::new("en"));
    assert!(!state.toggle_enabled());
    assert!(!state.is_enabled());
    assert_eq!(state.get_status(), "Monitoring disabled");
    assert!(state.toggle_enabled());
    assert!(state.is_enabled());
    assert_eq!(state.get_status(), "Monitoring enabled");
}

#[test]
fn settings_are_put_into_effect() {
    let mut state = SharedState::new(I18n::new("zh-CN"));
    let mut config = AppConfig::default();
    config.typing_delay = 150;
    config.typing_variance = 50;
    config.typing_variance_enabled = true;
    config.history_enabled = true;
    config.history_max_items = 2;
    config.language = "en".to_string();
    state.apply_settings(&config);
    assert_eq!(state.typing_delay, 150);
    assert_eq!(state.typing_variance, 50);
    assert!(state.typing_variance_enabled);
    assert!(state.history_enabled);
    assert_eq!(state.history_max_items, 2);
    assert_eq!(state.i18n.current_language(), "en");
    assert_eq!(state.t("status.ready"), "Ready");
    config.language = "xx".to_string();
    state.apply_settings(&config);
    assert_eq!(state.i18n.current_language(), "en");
}

#[test]
fn switch_enabled_reports_in_status() {
    let mut state = SharedState::new(I18n::new("en"));
    state.switch_enabled(true);
    assert!(state.is_enabled());
    assert_eq!(state.get_status(), "Monitoring enabled");
    state.switch_enabled(false);
    assert!(!state.is_enabled());
    assert_eq!(state.get_status(), "Monitoring disabled");
}

#[test]
fn manual_start_needs_text_and_no_session() {
    let mut state = SharedState::new(I18n::new("en"));
    assert!(!state.can_start_manually());
    assert!(state.on_clipboard_poll(Some("hi".to_string())));
    assert!(state.can_start_manually());
    state.set_enabled(false);
    assert!(!state.can_start_manually());
    state.set_enabled(true);
    assert_eq!(state.execute_typing(), StartOutcome::Started);
    assert!(!state.can_start_manually());
    state.handle(WorkerEvent::Settled);
    state.handle(WorkerEvent::DeviceFailed("x".to_string()));
    assert!(state.can_start_manually());
}

#[test]
fn timing_constants() {
    assert_eq!(copy_type::shared_state::DEBOUNCE_MS, 200);
    assert_eq!(copy_type::shared_state::CLIPBOARD_POLL_MS, 500);
    assert_eq!(copy_type::session::SETTLE_MS, 250);
    assert_eq!(copy_type::session::SLICE_MS, 50);
}
