use std::path::PathBuf;

use agent_of_empires::clock::Instant;
use agent_of_empires::session::{Instance, SandboxInfo, Status, TerminalMode};
use agent_of_empires::tui::actions::{
    auto_hibernated, begin_rest, choose_editor, end_rest, next_question, reread_hibernated,
    restamp_hibernated,
    AttachPlan, AttachStart, EditorStep, HomeCommand, PaneFacts, PaneQuestion, Rest,
    TerminalStart, TerminalTarget, Work,
};
use agent_of_empires::tui::app::{Action, App, Config};
use agent_of_empires::tui::event_loop::{
    mouse_scroll, DeferredAction, LoopAction, LoopEvent, MouseKind, Pass, PassStep, Scroll,
    ScrollFacts, Timers,
};
use agent_of_empires::tui::keys::{KeyCode, KeyEvent, KeyModifiers};
use agent_of_empires::tui::update::InstallMethod;

fn ms(n: u64) -> Instant {
    Instant { nanos: n * 1_000_000 }
}

fn app() -> App {
    let config = Config {
        theme_name: String::new(),
        palette: false,
        has_seen_welcome: true,
        last_seen_version: Some("1".to_string()),
        has_seen_custom_instruction_warning: false,
    };
    App::new("", true, false, config, "1").app
}

fn session(id: &str) -> Instance {
    let mut s = Instance::new(id.to_string(), "t".to_string(), "/tmp".to_string());
    s.tool = "aider".to_string();
    s
}

fn sandboxed(id: &str, instruction: Option<&str>) -> Instance {
    let mut s = session(id);
    s.sandbox_info = Some(SandboxInfo {
        enabled: true,
        container_name: "box".to_string(),
        custom_instruction: instruction.map(|t| t.to_string()),
    });
    s
}

fn show(commands: &[HomeCommand]) -> Vec<String> {
    commands
        .iter()
        .map(|c| match c {
            HomeCommand::SetStatus(id, status) => format!("status {id} {}", status.label()),
            HomeCommand::SetError(id, error) => format!("error {id} {error:?}"),
            HomeCommand::Stop(id) => format!("stop {id}"),
            HomeCommand::Hibernate(id) => format!("hibernate {id}"),
            HomeCommand::Restart(id) => format!("restart {id}"),
            HomeCommand::RefreshSessionCache => "refresh".to_string(),
            HomeCommand::Reload => "reload".to_string(),
            HomeCommand::Save => "save".to_string(),
            HomeCommand::StampLastAccessed(id) => format!("stamp {id}"),
            HomeCommand::Select(id) => format!("select {id}"),
            HomeCommand::Draw => "draw".to_string(),
            HomeCommand::SendMessage(id, text) => format!("send {id} {text}"),
        })
        .collect()
}

fn s(text: &str) -> String {
    text.to_string()
}

#[test]
fn stopping_a_session() {
    assert!(begin_rest(Rest::Stop, &s("a"), false).is_empty());
    assert_eq!(show(&begin_rest(Rest::Stop, &s("a"), true)), ["status a Stopped", "stop a"]);
    assert_eq!(
        show(&end_rest(Rest::Stop, &s("a"), Ok(()))),
        ["refresh", "reload", "status a Stopped", "save"]
    );
    assert_eq!(
        show(&end_rest(Rest::Stop, &s("a"), Err(s("busy")))),
        ["error a Some(\"busy\")", "status a Error", "save"]
    );
}

#[test]
fn hibernating_a_session() {
    assert_eq!(
        show(&begin_rest(Rest::Hibernate, &s("a"), true)),
        ["status a Hibernated", "hibernate a"]
    );
    assert_eq!(
        show(&end_rest(Rest::Hibernate, &s("a"), Ok(()))),
        ["refresh", "reload", "status a Hibernated", "save"]
    );
}

#[test]
fn hibernating_on_its_own() {
    assert!(auto_hibernated(&s("a"), false).is_empty());
    assert_eq!(show(&auto_hibernated(&s("a"), true)), ["status a Error"]);
    let ids = vec![s("a"), s("b"), s("c")];
    assert_eq!(show(&reread_hibernated(&ids)), ["refresh", "reload"]);
    assert!(reread_hibernated(&Vec::new()).is_empty());
    let statuses = vec![Some(Status::Running), Some(Status::Error), None];
    assert_eq!(show(&restamp_hibernated(&ids, &statuses)), ["status a Hibernated", "save"]);
}

#[test]
fn actions_ask_for_work() {
    let mut a = app();
    assert!(matches!(a.execute_action(Action::Quit, ms(0)), Work::Nothing));
    assert!(a.should_quit);
    let mut a = app();
    match a.execute_action(Action::AttachSession(s("x")), ms(0)) {
        Work::AttachSession(id) => assert_eq!(id, "x"),
        _ => panic!("attach"),
    }
    assert!(matches!(
        a.execute_action(Action::AttachTerminal(s("x"), TerminalMode::Host), ms(0)),
        Work::AttachTerminal(_, TerminalMode::Host)
    ));
    assert!(matches!(a.execute_action(Action::EditFile(PathBuf::from("f")), ms(0)), Work::EditFile(_)));
    assert!(matches!(
        a.execute_action(Action::StopSession(s("x")), ms(0)),
        Work::Rest(Rest::Stop, _)
    ));
    assert!(matches!(
        a.execute_action(Action::HibernateSession(s("x")), ms(0)),
        Work::Rest(Rest::Hibernate, _)
    ));
    assert!(matches!(a.execute_action(Action::SetTheme(s("n")), ms(0)), Work::SetTheme(_)));
    assert!(a.update_status.is_none());
    assert!(matches!(
        a.execute_action(Action::SetTransientStatus(s("hi")), ms(0)),
        Work::Nothing
    ));
    assert_eq!(a.update_status.as_ref().unwrap().text, "hi");
    assert!(matches!(a.execute_action(Action::OpenCockpit(s("x")), ms(0)), Work::Nothing));
    assert_eq!(a.pending_cockpit_open, Some(s("x")));
}

#[test]
fn sending_a_message_revives_the_session() {
    let mut a = app();
    match a.execute_action(Action::SendMessage(s("x"), s("go on")), ms(0)) {
        Work::Send(commands) => {
            assert_eq!(show(&commands), ["status x Starting", "draw", "send x go on"])
        }
        _ => panic!("send"),
    }
    assert_eq!(a.update_status.as_ref().unwrap().text, "Reviving session...");
    a.message_sent();
    assert!(a.update_status.is_none());
}

#[test]
fn only_one_update_at_a_time() {
    let mut a = app();
    let update = Action::SpawnUpdate(InstallMethod::Homebrew, s("2"));
    assert!(matches!(a.execute_action(update.clone(), ms(0)), Work::SpawnUpdate(_, _)));
    let (_tx, rx) = tokio::sync::oneshot::channel();
    a.watch_update(rx);
    assert!(matches!(a.execute_action(update, ms(0)), Work::Nothing));
    assert_eq!(a.update_status.as_ref().unwrap().text, "update already in progress");
}

#[test]
fn attaching_starts_with_a_look_at_the_pane() {
    assert_eq!(App::attach_session(None), AttachStart::Done);
    assert_eq!(App::attach_session(Some(&session("a"))), AttachStart::LookAtPane);
    let mut cockpit = session("a");
    cockpit.cockpit_mode = true;
    assert_eq!(App::attach_session(Some(&cockpit)), AttachStart::Done);
}

const UNKNOWN: PaneFacts =
    PaneFacts { present: None, dead: None, hook_reports: None, runs_shell: None };

#[test]
fn panes_are_asked_no_more_than_needed() {
    let i = session("a");
    assert_eq!(next_question(&i, &UNKNOWN), PaneQuestion::Present);
    let mut f = UNKNOWN;
    f.present = Some(false);
    assert_eq!(next_question(&i, &f), PaneQuestion::Restart(true));
    f.present = Some(true);
    assert_eq!(next_question(&i, &f), PaneQuestion::Dead);
    f.dead = Some(true);
    assert_eq!(next_question(&i, &f), PaneQuestion::Restart(true));
    f.dead = Some(false);
    assert_eq!(next_question(&i, &f), PaneQuestion::HookReports);
    f.hook_reports = Some(true);
    assert_eq!(next_question(&i, &f), PaneQuestion::Restart(false));
    f.hook_reports = Some(false);
    assert_eq!(next_question(&i, &f), PaneQuestion::RunsShell);
    f.runs_shell = Some(true);
    assert_eq!(next_question(&i, &f), PaneQuestion::Restart(true));
    f.runs_shell = Some(false);
    assert_eq!(next_question(&i, &f), PaneQuestion::Restart(false));
    f.runs_shell = None;
    let mut own = session("a");
    own.command_override = true;
    assert_eq!(next_question(&own, &f), PaneQuestion::Restart(false));
    let mut shell = session("a");
    shell.expects_shell = true;
    assert_eq!(next_question(&shell, &f), PaneQuestion::Restart(false));
}

#[test]
fn attaching_restarts_or_warns_or_goes_ahead() {
    let i = session("a");
    let id = s("a");
    assert!(matches!(App::plan_attach(&i, &id, false, true, false), AttachPlan::Attach));
    match App::plan_attach(&i, &id, true, false, false) {
        AttachPlan::Restart(commands) => {
            assert_eq!(show(&commands), ["status a Starting", "restart a"])
        }
        _ => panic!("restart"),
    }
    let instructed = sandboxed("a", Some("be brief"));
    assert!(App::may_warn(&instructed, true));
    assert!(!App::may_warn(&instructed, false));
    assert!(!App::may_warn(&sandboxed("a", Some("")), true));
    match App::plan_attach(&instructed, &id, true, false, false) {
        AttachPlan::Warn(w) => {
            assert_eq!(w.title, "Custom Instruction Not Supported");
            assert_eq!(
                w.message,
                "'aider' does not support custom instruction injection. The session will launch without the custom instruction."
            );
            assert_eq!(w.then_attach, "a");
        }
        _ => panic!("warn"),
    }
    for (instance, takes, seen) in [
        (sandboxed("a", Some("be brief")), true, false),
        (sandboxed("a", Some("be brief")), false, true),
        (sandboxed("a", Some("")), false, false),
        (sandboxed("a", None), false, false),
    ] {
        assert!(matches!(
            App::plan_attach(&instance, &id, true, takes, seen),
            AttachPlan::Restart(_)
        ));
    }
    let mut off = sandboxed("a", Some("be brief"));
    off.sandbox_info.as_mut().unwrap().enabled = false;
    assert!(matches!(App::plan_attach(&off, &id, true, false, false), AttachPlan::Restart(_)));
}

#[test]
fn restarting_reports() {
    let mut a = app();
    let (commands, goes_on) = a.session_restarted(&s("a"), Ok(()), ms(0));
    assert_eq!(show(&commands), ["error a None"]);
    assert!(goes_on && a.update_status.is_none());
    let (commands, goes_on) = a.session_restarted(&s("a"), Err(s("no docker")), ms(0));
    assert_eq!(show(&commands), ["error a Some(\"no docker\")", "status a Error"]);
    assert!(!goes_on);
    assert_eq!(a.update_status.as_ref().unwrap().text, "restart failed: no docker");
}

#[test]
fn coming_back_redraws() {
    let mut a = app();
    a.needs_redraw = false;
    assert_eq!(show(&a.session_detached(&s("a"))), ["refresh", "reload", "stamp a", "select a"]);
    assert!(a.needs_redraw);
    a.needs_redraw = false;
    assert_eq!(show(&a.terminal_detached(&s("a"))), ["refresh", "reload", "select a"]);
    assert!(a.needs_redraw);
    a.needs_redraw = false;
    assert!(a.edit_file(true));
    assert!(a.needs_redraw);
    assert!(!a.edit_file(false));
}

#[test]
fn terminals_are_found_and_prepared() {
    let plain = session("a");
    let boxed = sandboxed("a", None);
    assert_eq!(App::attach_terminal(&boxed, TerminalMode::Container), TerminalTarget::Container);
    assert_eq!(App::attach_terminal(&boxed, TerminalMode::Host), TerminalTarget::Host);
    assert_eq!(App::attach_terminal(&plain, TerminalMode::Container), TerminalTarget::Host);
    assert_eq!(App::prepare_terminal(true, false), TerminalStart::Nothing);
    assert_eq!(App::prepare_terminal(true, true), TerminalStart::KillThenStart);
    assert_eq!(App::prepare_terminal(false, false), TerminalStart::Start);
    let (commands, goes_on) = App::terminal_started(&s("a"), Ok(()));
    assert!(commands.is_empty() && goes_on);
    let (commands, goes_on) = App::terminal_started(&s("a"), Err(s("x")));
    assert_eq!(show(&commands), ["error a Some(\"x\")"]);
    assert!(!goes_on);
}

fn editor(own: Option<&str>, vim: Option<bool>, nano: Option<bool>) -> String {
    match choose_editor(own.map(|t| t.to_string()), vim, nano) {
        EditorStep::AskVim => s("?vim"),
        EditorStep::AskNano => s("?nano"),
        EditorStep::Use(name) => name,
    }
}

#[test]
fn editors_in_order() {
    assert_eq!(editor(Some("emacs"), None, None), "emacs");
    assert_eq!(editor(None, None, None), "?vim");
    assert_eq!(editor(None, Some(true), None), "vim");
    assert_eq!(editor(None, Some(false), None), "?nano");
    assert_eq!(editor(None, Some(false), Some(true)), "nano");
    assert_eq!(editor(None, Some(false), Some(false)), "vim");
}

fn over(diff_open: bool, over_diff: bool, session_selected: bool, over_preview: bool) -> ScrollFacts {
    ScrollFacts { diff_open, over_diff, session_selected, over_preview }
}

#[test]
fn the_wheel_scrolls_what_is_under_it() {
    assert_eq!(mouse_scroll(MouseKind::ScrollUp, over(true, true, false, false)), Some(Scroll::Up));
    assert_eq!(mouse_scroll(MouseKind::ScrollUp, over(true, false, true, true)), None);
    assert_eq!(
        mouse_scroll(MouseKind::ScrollDown, over(false, false, true, true)),
        Some(Scroll::Down)
    );
    assert_eq!(mouse_scroll(MouseKind::ScrollDown, over(false, true, false, true)), None);
    assert_eq!(mouse_scroll(MouseKind::Other, over(true, true, true, true)), None);
}

#[test]
fn events_lead_where_they_should() {
    let mut a = app();
    let q = KeyEvent::new(KeyCode::Char('q'), KeyModifiers::none());
    let esc = KeyEvent::new(KeyCode::Esc, KeyModifiers::none());
    let nowhere = over(false, false, false, false);
    assert_eq!(a.run(LoopEvent::Key(q), true), LoopAction::GatherBurst);
    assert_eq!(a.run(LoopEvent::Key(q), false), LoopAction::HandleKey);
    assert_eq!(a.run(LoopEvent::Key(esc), true), LoopAction::HandleKey);
    assert_eq!(
        a.run(LoopEvent::Mouse(MouseKind::ScrollUp, over(true, true, false, false)), true),
        LoopAction::Scroll(Scroll::Up)
    );
    assert_eq!(a.run(LoopEvent::Mouse(MouseKind::Other, nowhere), true), LoopAction::Wait);
    assert_eq!(a.run(LoopEvent::Paste, true), LoopAction::Paste);
    assert_eq!(a.run(LoopEvent::Resize, true), LoopAction::Draw);
    assert_eq!(a.run(LoopEvent::Other, true), LoopAction::Housekeeping);
    assert_eq!(a.run(LoopEvent::Tick, true), LoopAction::Housekeeping);
    assert!(!a.should_quit);
    for end in [
        LoopEvent::ReadError,
        LoopEvent::EndOfInput,
        LoopEvent::HangUp,
        LoopEvent::Terminate,
    ] {
        let mut a = app();
        assert_eq!(a.run(end, true), LoopAction::Exit);
        assert!(a.should_quit);
    }
}

#[test]
fn the_event_after_a_burst_is_not_lost() {
    let mut a = app();
    a.needs_redraw = false;
    let esc = KeyEvent::new(KeyCode::Esc, KeyModifiers::none());
    assert_eq!(a.after_burst(LoopEvent::Key(esc)), DeferredAction::HandleKey);
    assert_eq!(a.after_burst(LoopEvent::Paste), DeferredAction::Paste);
    assert_eq!(
        a.after_burst(LoopEvent::Mouse(MouseKind::ScrollDown, over(true, true, false, false))),
        DeferredAction::Scroll(Scroll::Down)
    );
    assert_eq!(a.after_burst(LoopEvent::Other), DeferredAction::Nothing);
    assert!(!a.needs_redraw);
    assert_eq!(a.after_burst(LoopEvent::Resize), DeferredAction::FitScreen);
    assert!(a.needs_redraw);
    let after = a.after_key();
    assert!(!after.draw && !after.exit);
    assert!(a.replay_goes_on());
    a.should_quit = true;
    assert!(!a.replay_goes_on());
    assert_eq!(a.after_burst(LoopEvent::Paste), DeferredAction::Nothing);
    a.needs_redraw = false;
    a.updates_polled(false, false);
    assert!(!a.needs_redraw);
    a.updates_polled(false, true);
    assert!(a.needs_redraw);
}

fn steps(timers: &mut Timers, now: Instant, yes: &[PassStep]) -> Vec<PassStep> {
    let mut pass = Pass::new();
    let mut taken = Vec::new();
    let mut answer = false;
    loop {
        let step = pass.advance(timers, answer, now);
        if step == PassStep::End {
            return taken;
        }
        answer = yes.contains(&step);
        taken.push(step);
    }
}

#[test]
fn a_quiet_pass_only_looks() {
    let mut timers = Timers::new(ms(0));
    assert_eq!(
        steps(&mut timers, ms(10), &[]),
        vec![
            PassStep::ApplyStatus,
            PassStep::ApplyDeletions,
            PassStep::ApplySessionIds,
            PassStep::ApplyCreation,
            PassStep::TickDialog
        ]
    );
    assert_eq!(steps(&mut timers, ms(10), &[PassStep::TickDialog]).last(), Some(&PassStep::Draw));
}

#[test]
fn what_is_due_is_done_and_waits_again() {
    let mut timers = Timers::new(ms(0));
    let all = steps(&mut timers, ms(60_000), &[]);
    assert_eq!(
        all,
        vec![
            PassStep::RequestStatus,
            PassStep::ApplyStatus,
            PassStep::ApplyDeletions,
            PassStep::ApplySessionIds,
            PassStep::ApplyCreation,
            PassStep::TickDialog,
            PassStep::Reload,
            PassStep::Heartbeat,
            PassStep::Hibernate,
            PassStep::AskAnimated,
            PassStep::Draw
        ]
    );
    let next = steps(&mut timers, ms(60_100), &[PassStep::AskAnimated]);
    assert!(!next.contains(&PassStep::RequestStatus));
    assert!(!next.contains(&PassStep::Reload));
    assert!(!next.contains(&PassStep::Hibernate));
    // Nothing was animated before, so that is asked again; now something is.
    assert!(next.contains(&PassStep::AskAnimated) && next.contains(&PassStep::Draw));
    assert!(!steps(&mut timers, ms(60_219), &[]).contains(&PassStep::AskAnimated));
    assert!(steps(&mut timers, ms(60_220), &[]).contains(&PassStep::AskAnimated));
    assert!(steps(&mut timers, ms(60_500), &[]).contains(&PassStep::RequestStatus));
    assert!(!steps(&mut timers, ms(64_999), &[]).contains(&PassStep::Reload));
    assert!(steps(&mut timers, ms(65_000), &[]).contains(&PassStep::Reload));
    assert!(!steps(&mut timers, ms(69_999), &[]).contains(&PassStep::Heartbeat));
    assert!(steps(&mut timers, ms(70_000), &[]).contains(&PassStep::Heartbeat));
    assert!(!steps(&mut timers, ms(119_999), &[]).contains(&PassStep::Hibernate));
    assert!(steps(&mut timers, ms(120_000), &[]).contains(&PassStep::Hibernate));
}
