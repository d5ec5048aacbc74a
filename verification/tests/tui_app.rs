use agent_of_empires::clock::Instant;
use agent_of_empires::session::TerminalMode;
use agent_of_empires::tui::app::{
    check_version_change, Action, App, Config, DialogCommand, HomeFacts, KeyOutcome,
    StartupDialog, WarningDialog,
};
use agent_of_empires::tui::keys::{Burst, BurstEnd, KeyCode, KeyEvent, KeyModifiers, Next};
use agent_of_empires::tui::update::{
    gate_update, needs_install_probe, poll_update_receiver, InstallMethod, TryRecv, UpdateCheck,
    UpdateInfo, UpdateMode, UpdateStatus,
};

fn secs(n: u64) -> Instant {
    Instant { nanos: n * 1_000_000_000 }
}

fn config() -> Config {
    Config {
        theme_name: String::new(),
        palette: false,
        has_seen_welcome: true,
        last_seen_version: Some("1.0.0".to_string()),
        has_seen_custom_instruction_warning: false,
    }
}

fn app() -> App {
    App::new("", true, false, config(), "1.0.0").app
}

fn info(available: bool, current: &str, latest: &str) -> UpdateInfo {
    UpdateInfo {
        available,
        current_version: current.to_string(),
        latest_version: latest.to_string(),
    }
}

#[test]
fn test_action_enum() {
    let quit = Action::Quit;
    let attach = Action::AttachSession("test-id".to_string());
    let attach_terminal = Action::AttachTerminal("test-id".to_string(), TerminalMode::Container);

    assert_eq!(quit, Action::Quit);
    assert_eq!(attach, Action::AttachSession("test-id".to_string()));
    assert_eq!(
        attach_terminal,
        Action::AttachTerminal("test-id".to_string(), TerminalMode::Container)
    );
}

#[test]
fn test_action_clone() {
    let original = Action::AttachSession("session-123".to_string());
    let cloned = original.clone();
    assert_eq!(original, cloned);

    let terminal_action = Action::AttachTerminal("session-123".to_string(), TerminalMode::Host);
    let terminal_cloned = terminal_action.clone();
    assert_eq!(terminal_action, terminal_cloned);
}

#[test]
fn test_poll_update_check_returns_true_when_update_available() {
    // Create a oneshot channel and send an update notification
    let (tx, rx) = tokio::sync::oneshot::channel();
    tx.send(Ok(info(true, "0.4.0", "0.5.0"))).ok().unwrap();

    // poll_update_receiver should return true when an update is available
    let (info, rx_out, received) = poll_update_receiver(Some(rx), None);
    assert!(received);
    assert!(info.is_some());
    assert_eq!(info.as_ref().unwrap().latest_version, "0.5.0");
    assert!(rx_out.is_none()); // Channel consumed
}

#[test]
fn test_poll_update_check_returns_false_when_no_update() {
    let (tx, rx) = tokio::sync::oneshot::channel();
    tx.send(Ok(info(false, "0.5.0", "0.5.0"))).ok().unwrap();

    // poll_update_receiver should return false when no update available
    let (info, rx_out, received) = poll_update_receiver(Some(rx), None);
    assert!(!received);
    assert!(info.is_none());
    assert!(rx_out.is_none()); // Channel consumed even though no update
}

#[test]
fn test_poll_update_check_returns_false_when_channel_empty() {
    let (_tx, rx) = tokio::sync::oneshot::channel::<UpdateCheck>();

    // poll_update_receiver should return false when channel is empty
    let (info, rx_out, received) = poll_update_receiver(Some(rx), None);
    assert!(!received);
    assert!(info.is_none());
    // Receiver should be put back for next poll
    assert!(rx_out.is_some());
}

#[test]
fn test_poll_update_check_preserves_existing_info() {
    // If we already have update info and the channel is closed, preserve the existing info
    let existing_info = info(true, "0.4.0", "0.5.0");

    // No receiver, just existing info
    let (info, rx_out, received) = poll_update_receiver(None, Some(existing_info));
    assert!(!received); // No new update received
    assert!(info.is_some()); // But existing info is preserved
    assert_eq!(info.as_ref().unwrap().latest_version, "0.5.0");
    assert!(rx_out.is_none());
}

fn key(code: KeyCode, mods: KeyModifiers) -> KeyEvent {
    KeyEvent::new(code, mods)
}

#[test]
fn burst_candidate_accepts_printable_chars_and_enter() {
    assert!(App::is_burst_candidate(&key(KeyCode::Char('a'), KeyModifiers::none())));
    assert!(App::is_burst_candidate(&key(KeyCode::Char(' '), KeyModifiers::none())));
    assert!(App::is_burst_candidate(&key(KeyCode::Char('A'), KeyModifiers::shift())));
    assert!(App::is_burst_candidate(&key(KeyCode::Enter, KeyModifiers::none())));
}

#[test]
fn burst_candidate_rejects_modified_chords_and_nav_keys() {
    // Ctrl/Alt chords are intentional shortcuts, never paste burst chars.
    assert!(!App::is_burst_candidate(&key(KeyCode::Char('c'), KeyModifiers::control())));
    assert!(!App::is_burst_candidate(&key(KeyCode::Char('b'), KeyModifiers::alt())));
    // Navigation/control keys are not burst candidates.
    assert!(!App::is_burst_candidate(&key(KeyCode::Esc, KeyModifiers::none())));
    assert!(!App::is_burst_candidate(&key(KeyCode::Tab, KeyModifiers::none())));
    assert!(!App::is_burst_candidate(&key(KeyCode::Up, KeyModifiers::none())));
    assert!(!App::is_burst_candidate(&key(KeyCode::Backspace, KeyModifiers::none())));
}

#[test]
fn burst_char_for_matches_is_burst_candidate_domain() {
    // Contract: any key that passes is_burst_candidate must also yield
    // Some from burst_char_for.
    let candidates = [
        key(KeyCode::Char('a'), KeyModifiers::none()),
        key(KeyCode::Char(' '), KeyModifiers::none()),
        key(KeyCode::Char('A'), KeyModifiers::shift()),
        key(KeyCode::Char('~'), KeyModifiers::none()),
        key(KeyCode::Enter, KeyModifiers::none()),
    ];
    for k in &candidates {
        assert!(App::is_burst_candidate(k));
        assert!(
            App::burst_char_for(k).is_some(),
            "burst_char_for must agree with is_burst_candidate for {:?}",
            k
        );
    }
    assert_eq!(
        App::burst_char_for(&key(KeyCode::Enter, KeyModifiers::none())),
        Some('\n'),
        "Enter must map to \\n so embedded sentence-breaks land in the burst"
    );
}

#[test]
fn unprintable_and_foreign_characters_start_no_burst() {
    for c in ['\u{1f}', '\u{7f}', 'é', '\n'] {
        assert!(!App::is_burst_candidate(&key(KeyCode::Char(c), KeyModifiers::none())));
    }
    assert_eq!(App::burst_char_for(&key(KeyCode::Char('é'), KeyModifiers::none())), Some('é'));
    assert_eq!(App::burst_char_for(&key(KeyCode::Esc, KeyModifiers::none())), None);
}

fn plain(c: char) -> KeyEvent {
    key(KeyCode::Char(c), KeyModifiers::none())
}

#[test]
fn a_long_burst_is_a_paste() {
    let mut burst = Burst::start(&plain('h'), 0);
    assert!(burst.offer(Next::Key(plain('i'), 1)));
    assert!(burst.offer(Next::Key(key(KeyCode::Enter, KeyModifiers::none()), 2)));
    assert!(!burst.offer(Next::Event(3)));
    match burst.finish() {
        (BurstEnd::Paste(text), deferred) => {
            assert_eq!(text, "hi\n");
            assert_eq!(deferred, Some(3));
        }
        _ => panic!("three keys are a paste"),
    }
}

#[test]
fn a_short_burst_is_replayed() {
    let mut burst = Burst::start(&plain('q'), 10);
    assert!(burst.offer(Next::Key(plain('w'), 11)));
    assert!(!burst.offer(Next::Nothing));
    match burst.finish() {
        (BurstEnd::Replay(keys), deferred) => {
            assert_eq!(keys, vec![10, 11]);
            assert_eq!(deferred, None);
        }
        _ => panic!("two keys are typing"),
    }
}

#[test]
fn a_key_that_cannot_join_ends_the_burst() {
    let mut burst = Burst::start(&plain('q'), 1);
    assert!(!burst.offer(Next::Key(key(KeyCode::Esc, KeyModifiers::none()), 2)));
    assert_eq!(burst.deferred, Some(2));
}

#[test]
fn version_changes_show_the_changelog() {
    let mut c = config();
    assert_eq!(check_version_change(&c, "1.0.0"), None);
    assert_eq!(check_version_change(&c, "1.1.0"), Some("1.0.0".to_string()));
    c.has_seen_welcome = false;
    assert_eq!(check_version_change(&c, "1.1.0"), None);
    c.has_seen_welcome = true;
    c.last_seen_version = None;
    assert_eq!(check_version_change(&c, "1.1.0"), None);
}

#[test]
fn startup_greets_as_the_settings_say() {
    let s = App::new("work", false, false, config(), "1.0.0");
    assert!(matches!(s.dialog, StartupDialog::NoAgents));
    assert_eq!(s.active_profile, Some("work".to_string()));
    assert!(s.save.is_none());
    assert_eq!(s.app.theme.name, "empire");
    assert!(s.app.needs_redraw && s.app.mouse_captured && !s.app.should_quit);

    let mut new_user = config();
    new_user.has_seen_welcome = false;
    new_user.last_seen_version = None;
    new_user.theme_name = "dracula".to_string();
    let s = App::new("", true, false, new_user, "1.1.0");
    assert!(matches!(s.dialog, StartupDialog::Welcome));
    assert_eq!(s.active_profile, None);
    assert_eq!(s.app.theme.name, "dracula");
    let saved = s.save.unwrap();
    assert!(saved.has_seen_welcome);
    assert_eq!(saved.last_seen_version, Some("1.1.0".to_string()));

    let s = App::new("", true, false, config(), "1.1.0");
    match s.dialog {
        StartupDialog::Changelog(from) => assert_eq!(from, Some("1.0.0".to_string())),
        _ => panic!("the changelog is shown"),
    }
    assert_eq!(s.save.unwrap().last_seen_version, Some("1.1.0".to_string()));

    let s = App::new("", true, true, config(), "1.1.0");
    assert!(matches!(s.dialog, StartupDialog::Nothing));
    assert!(s.save.is_none());
}

fn warning(message: &str) -> WarningDialog {
    let mut commands = App::show_startup_warning(message);
    assert_eq!(commands.len(), 3);
    assert!(matches!(commands[0], DialogCommand::CloseWelcome));
    assert!(matches!(commands[1], DialogCommand::CloseChangelog));
    match commands.pop() {
        Some(DialogCommand::ShowWarning(dialog)) => dialog,
        _ => panic!("the warning is shown last"),
    }
}

#[test]
fn warnings_are_sized_to_fit() {
    let dialog = warning("short");
    assert_eq!((dialog.width, dialog.height), (96, 9));
    assert_eq!(dialog.title, "Warning");
    assert_eq!(dialog.message, "short");
    // Ninety-three bytes take two rows of ninety-two.
    let long = "x".repeat(93);
    assert_eq!(warning(&long).height, 9);
    let text = format!("{}\n\n{}", long, long);
    assert_eq!(warning(&text).height, 12);
    // The newline at the end starts no line; characters count by their bytes.
    assert_eq!(warning(&format!("{}\n", text)).height, 12);
    assert_eq!(warning(&"é".repeat(92 * 2)).height, 11);
    assert_eq!(warning(&"a\n".repeat(100)).height, 35);
    assert_eq!(warning("").height, 9);
    assert_eq!(warning("a\r\nb\r\nc\r\n").height, 10);
}

#[test]
fn long_warnings_get_the_highest_dialog() {
    for n in [28, 29, 65_535, 65_536, 65_539] {
        assert_eq!(warning(&"\n".repeat(n)).height, 35);
    }
    assert_eq!(warning(&"\n".repeat(27)).height, 34);
}

#[test]
fn what_a_search_found_is_taken_in() {
    let mut a = app();
    assert!(a.take_check(TryRecv::Value(Ok(info(true, "1", "2")))));
    assert_eq!(a.update_info.as_ref().unwrap().latest_version, "2");
    assert!(!a.take_check(TryRecv::Value(Ok(info(false, "1", "3")))));
    assert!(!a.take_check(TryRecv::Value(Err("offline".to_string()))));
    assert!(!a.take_check(TryRecv::Empty));
    assert!(!a.take_check(TryRecv::Closed));
    assert_eq!(a.update_info.as_ref().unwrap().latest_version, "2");
    a.update_bar_dismissed = true;
    assert!(!a.take_check(TryRecv::Value(Ok(info(true, "1", "4")))));
    assert!(a.update_info.is_none());
}

#[test]
fn themes_are_chosen_with_the_palette_setting() {
    let mut a = app();
    a.needs_redraw = false;
    a.set_theme("nord", Some(true));
    assert_eq!(a.theme.name, "nord");
    assert!(a.theme.palette && a.needs_redraw);
    a.set_theme("nord", None);
    assert!(!a.theme.palette);
}

#[test]
fn the_mouse_is_captured_unless_text_is_selected() {
    let mut a = app();
    assert_eq!(a.mouse_change(false), None);
    assert_eq!(a.mouse_change(true), Some(false));
    a.sync_mouse_capture(true);
    assert!(!a.mouse_captured);
    assert_eq!(a.mouse_change(false), Some(true));
    a.leave_terminal();
    assert!(!a.reading_events && !a.mouse_captured);
    a.retake_terminal();
    a.sync_mouse_capture(false);
    assert!(a.reading_events && a.mouse_captured);
}

#[test]
fn frames_clear_once() {
    let mut a = app();
    assert!(a.begin_frame());
    assert!(!a.begin_frame());
}

#[test]
fn transient_status_lasts_ten_seconds() {
    let mut a = app();
    a.show_transient("hello".to_string(), secs(5));
    assert_eq!(a.render(secs(14)).cloned(), Some("hello".to_string()));
    assert_eq!(a.render(secs(15)).cloned(), None);
    assert!(a.update_status.is_none());
    let lasting = UpdateStatus::persistent("x".to_string());
    assert!(!lasting.is_expired(Instant { nanos: u64::MAX }));
    let late = UpdateStatus::transient("x".to_string(), Instant { nanos: u64::MAX });
    assert!(!late.is_expired(Instant { nanos: u64::MAX }));
}

#[test]
fn an_update_found_is_shown_unless_dismissed() {
    let mut a = app();
    let (tx, rx) = tokio::sync::oneshot::channel();
    a.update_rx = Some(rx);
    assert!(!a.poll_update_check());
    assert!(a.update_rx.is_some());
    tx.send(Ok(info(true, "1", "2"))).ok().unwrap();
    assert!(a.poll_update_check());
    assert_eq!(a.update_info.as_ref().unwrap().latest_version, "2");
    assert!(a.update_rx.is_none());

    let mut a = app();
    a.update_bar_dismissed = true;
    let (tx, rx) = tokio::sync::oneshot::channel();
    tx.send(Ok(info(true, "1", "2"))).ok().unwrap();
    a.update_rx = Some(rx);
    assert!(!a.poll_update_check());
    assert!(a.update_info.is_none());
}

#[test]
fn a_failed_or_dropped_search_changes_nothing() {
    let (tx, rx) = tokio::sync::oneshot::channel();
    tx.send(Err("offline".to_string())).ok().unwrap();
    let (found, rx_out, received) = poll_update_receiver(Some(rx), Some(info(true, "1", "2")));
    assert!(found.is_some() && rx_out.is_none() && !received);
    let (tx, rx) = tokio::sync::oneshot::channel::<UpdateCheck>();
    drop(tx);
    let (found, rx_out, received) = poll_update_receiver(Some(rx), None);
    assert!(found.is_none() && rx_out.is_none() && !received);
}

#[test]
fn the_end_of_an_update_is_shown() {
    let mut a = app();
    assert!(!a.poll_update_status(secs(0)));
    let (tx, rx) = tokio::sync::oneshot::channel();
    a.watch_update(rx);
    assert!(!a.poll_update_status(secs(0)));
    assert!(a.update_status_rx.is_some());
    tx.send(Ok(())).ok().unwrap();
    assert!(a.poll_update_status(secs(0)));
    let status = a.update_status.take().unwrap();
    assert_eq!(status.text, "update complete. Restart aoe to use the new version.");
    assert_eq!(status.expires_at, None);

    let (tx, rx) = tokio::sync::oneshot::channel();
    a.watch_update(rx);
    tx.send(Err("no network".to_string())).ok().unwrap();
    assert!(a.poll_update_status(secs(1)));
    let status = a.update_status.take().unwrap();
    assert_eq!(status.text, "update failed: no network");
    assert_eq!(status.expires_at, Some(11_000_000_000));

    let (tx, rx) = tokio::sync::oneshot::channel::<Result<(), String>>();
    a.watch_update(rx);
    drop(tx);
    assert!(a.poll_update_status(secs(1)));
    assert_eq!(a.update_status.take().unwrap().text, "update task ended unexpectedly");
    assert!(a.update_status_rx.is_none());
    a.finish_update(Err("denied".to_string()), secs(2));
    assert_eq!(a.update_status.take().unwrap().text, "update failed: denied");
}

#[test]
fn updates_that_may_ask_for_a_password_run_in_front() {
    let mut a = app();
    let tarball = InstallMethod::Tarball { binary_path: "/usr/bin/aoe".to_string() };
    assert_eq!(a.spawn_update(&tarball, "2.0", true, secs(0)), UpdateMode::Background);
    assert_eq!(a.update_status.as_ref().unwrap().text, "updating to v2.0…");
    assert_eq!(a.spawn_update(&tarball, "2.0", false, secs(0)), UpdateMode::Suspend);
    assert_eq!(a.spawn_update(&InstallMethod::Homebrew, "2", true, secs(0)), UpdateMode::Suspend);
    let other = InstallMethod::Other("cargo".to_string());
    assert_eq!(a.spawn_update(&other, "2", false, secs(0)), UpdateMode::Background);
}

#[test]
fn an_update_the_installer_lacks_is_not_offered() {
    assert!(needs_install_probe(&Ok(info(true, "1", "2"))));
    assert!(!needs_install_probe(&Ok(info(false, "1", "2"))));
    assert!(!needs_install_probe(&Err("x".to_string())));
    assert!(!gate_update(Ok(info(true, "1", "2")), Some(false)).ok().unwrap().available);
    assert!(gate_update(Ok(info(true, "1", "2")), Some(true)).ok().unwrap().available);
    assert!(gate_update(Ok(info(true, "1", "2")), None).ok().unwrap().available);
    assert!(gate_update(Err("x".to_string()), Some(true)).is_err());
}

fn facts(stub: bool, pending: bool, dialog: bool) -> HomeFacts {
    HomeFacts { creating_stub_selected: stub, creation_pending: pending, has_dialog: dialog }
}

#[test]
fn quitting_keys() {
    let ctrl_c = key(KeyCode::Char('c'), KeyModifiers::control());
    let mut a = app();
    assert_eq!(a.handle_key(&ctrl_c, facts(true, true, false)), KeyOutcome::CancelCreation);
    assert_eq!(a.handle_key(&ctrl_c, facts(false, true, false)), KeyOutcome::ConfirmQuit);
    assert_eq!(a.handle_key(&plain('q'), facts(false, true, false)), KeyOutcome::ConfirmQuit);
    assert_eq!(a.handle_key(&plain('q'), facts(false, false, true)), KeyOutcome::PassOn);
    assert_eq!(a.handle_key(&plain('c'), facts(false, false, false)), KeyOutcome::PassOn);
    assert!(!a.should_quit);
    assert_eq!(a.handle_key(&ctrl_c, facts(false, true, true)), KeyOutcome::Quit);
    assert!(a.should_quit);
    let mut a = app();
    assert_eq!(a.handle_key(&plain('q'), facts(false, false, false)), KeyOutcome::Quit);
    assert!(a.should_quit);
}

#[test]
fn dismissing_the_update_bar() {
    let ctrl_x = key(KeyCode::Char('x'), KeyModifiers::control());
    let mut a = app();
    a.needs_redraw = false;
    assert_eq!(a.handle_key(&ctrl_x, facts(false, false, false)), KeyOutcome::PassOn);
    a.update_info = Some(info(true, "1", "2"));
    assert_eq!(a.handle_key(&ctrl_x, facts(false, false, true)), KeyOutcome::PassOn);
    assert_eq!(a.handle_key(&plain('x'), facts(false, false, false)), KeyOutcome::PassOn);
    assert_eq!(a.handle_key(&ctrl_x, facts(false, false, false)), KeyOutcome::Dismissed);
    assert!(a.update_info.is_none() && a.update_bar_dismissed && a.needs_redraw);
}

#[test]
fn the_cockpit_borrows_the_events() {
    let mut a = app();
    a.pending_cockpit_open = Some("s1".to_string());
    assert_eq!(a.take_cockpit(), Some("s1".to_string()));
    assert_eq!(a.take_cockpit(), None);
    assert!(a.open_cockpit_view());
    assert!(!a.open_cockpit_view());
    a.run_cockpit_view(Err("gone".to_string()), secs(0));
    assert!(a.reading_events && a.needs_redraw);
    assert_eq!(a.update_status.as_ref().unwrap().text, "cockpit closed: gone");
    a.update_status = None;
    a.run_cockpit_view(Ok(()), secs(0));
    assert!(a.update_status.is_none());
}
