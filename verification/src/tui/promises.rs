//! What the operations of the terminal interface do, told over what goes in and
//! what comes out.
use tokio::sync::oneshot::Receiver;
use vstd::prelude::*;

use crate::clock::{elapsed_ms, law_elapsed_counts_milliseconds, Instant};
use crate::session::{Instance, Status, TerminalMode};
use crate::text::{decimal, lines_of};
use crate::tui::actions::{
    auto_hibernated, begin_rest, choose_editor, end_rest, known_status, next_question,
    reread_hibernated, restamp_hibernated, AttachPlan, AttachStart, EditorStep, HomeCommand,
    PaneFacts, PaneQuestion, Rest, TerminalStart, TerminalTarget, Work,
};
use crate::tui::app::{
    check_version_change, visual_rows, Action, App, Config, DialogCommand, HomeFacts, KeyOutcome,
    Startup,
};
use crate::tui::deletion_poller::{
    DeletionPoller, DeletionRequest, DeletionResult, WorkerStep,
};
use crate::tui::event_loop::{
    mouse_scroll, AfterKey, DeferredAction, LoopAction, LoopEvent, MouseKind, Pass, PassStep,
    Scroll, ScrollFacts, Timer, Timers,
};
use crate::tui::help::{
    content_line_count, help_sections, law_every_section_is_shown, law_help_fits_in_height,
    section_view, section_views, shortcut_line, shortcut_views, shortcuts, sort_words,
    HelpOverlay, HelpPlan, Section,
};
use crate::tui::keys::{burst_candidate, Burst, BurstEnd, KeyCode, KeyEvent, KeyModifiers, Next};
use crate::tui::line::{
    law_parts_fill_the_area, line_views, under_border, Area, Line,
};
use crate::tui::preview::{
    ansi_lines, ansi_views, compute_scroll, format_scroll_indicator, is_first_line, law_info_fits,
    main_path, output_lines, session_info_height, shorten_path, shortened, value_of, Content,
    HomeDir, OutputFrame, Preview, PreviewPlan,
};
use crate::tui::update::{
    apply_check, apply_progress, gate_update, needs_install_probe, poll_progress,
    poll_update_receiver, update_mode,
    InstallMethod, TryRecv, UpdateCheck, UpdateInfo, UpdateMode, UpdateStatus,
};

verus! {

/// `handle_key` always acts on Ctrl+C: it cancels, asks or quits.
pub proof fn law_handle_key_acts_on_control_c(
    app: &mut App,
    key: &KeyEvent,
    home: HomeFacts,
    res: KeyOutcome,
)
    requires
        call_ensures(App::handle_key, (app, key, home), res),
        key.code == KeyCode::Char('c'),
        key.modifiers.control && !key.modifiers.shift && !key.modifiers.alt && !key.modifiers.other,
    ensures
        res == KeyOutcome::CancelCreation <==> home.creating_stub_selected,
        res == KeyOutcome::ConfirmQuit <==> !home.creating_stub_selected && home.creation_pending
            && !home.has_dialog,
        res == KeyOutcome::Quit <==> !home.creating_stub_selected && (!home.creation_pending
            || home.has_dialog),
        res == KeyOutcome::Quit ==> final(app).should_quit,
        res != KeyOutcome::Quit ==> *final(app) == *old(app),
{
}

/// `handle_key` quits on `q` without a dialog, asking first while a session is
/// being created, and dismisses what is shown of an update on Ctrl+X; every other
/// key it passes on and changes nothing.
pub proof fn law_handle_key_leaves_the_rest(
    app: &mut App,
    key: &KeyEvent,
    home: HomeFacts,
    res: KeyOutcome,
)
    requires
        call_ensures(App::handle_key, (app, key, home), res),
        !(key.code == KeyCode::Char('c') && key.modifiers.control && !key.modifiers.shift
            && !key.modifiers.alt && !key.modifiers.other),
    ensures
        res == KeyOutcome::Quit <==> key.code == KeyCode::Char('q') && !home.has_dialog
            && !home.creation_pending,
        res == KeyOutcome::ConfirmQuit <==> key.code == KeyCode::Char('q') && !home.has_dialog
            && home.creation_pending,
        res == KeyOutcome::Dismissed <==> key.code == KeyCode::Char('x') && key.modifiers.control
            && !key.modifiers.shift && !key.modifiers.alt && !key.modifiers.other
            && !home.has_dialog && (old(app).update_info is Some || old(app).update_status is Some),
        res != KeyOutcome::CancelCreation,
        res == KeyOutcome::Quit ==> final(app).should_quit,
        res == KeyOutcome::Dismissed ==> final(app).update_info is None
            && final(app).update_status is None && final(app).update_bar_dismissed
            && final(app).needs_redraw && final(app).should_quit == old(app).should_quit,
        res == KeyOutcome::PassOn || res == KeyOutcome::ConfirmQuit ==> *final(app) == *old(app),
{
}

/// `restamp_hibernated` marks every session that is still there and not in error,
/// marks no other, and writes them down last.
pub proof fn law_restamp_marks_the_live(
    ids: &Vec<String>,
    statuses: &Vec<Option<Status>>,
    res: Vec<HomeCommand>,
    i: int,
)
    requires
        call_ensures(restamp_hibernated, (ids, statuses), res),
        statuses@.len() == ids@.len(),
        0 <= i < ids@.len(),
    ensures
        res@.last() is Save,
        statuses@[i] is Some && statuses@[i]->0 != Status::Error ==> {
            &&& exists|k: int|
                0 <= k < res@.len() - 1 && #[trigger] res@[k] == HomeCommand::SetStatus(
                    ids@[i],
                    Status::Hibernated,
                )
            &&& known_status(res@, ids@[i]) == Some(Status::Hibernated)
        },
        forall|k: int|
            0 <= k < res@.len() - 1 ==> {
                &&& (#[trigger] res@[k]) is SetStatus
                &&& res@[k]->SetStatus_1 == Status::Hibernated
                &&& exists|j: int|
                    0 <= j < ids@.len() && #[trigger] ids@[j] == res@[k]->SetStatus_0
                        && statuses@[j] is Some && statuses@[j]->0 != Status::Error
            },
{
    if statuses@[i] is Some && statuses@[i]->0 != Status::Error {
        let mark = HomeCommand::SetStatus(ids@[i], Status::Hibernated);
        let marks = res@.drop_last();
        assert(marks.contains(mark));
        let k = marks.index_of(mark);
        assert(res@[k] == mark);
    }
    assert forall|k: int| 0 <= k < res@.len() - 1 implies {
        &&& (#[trigger] res@[k]) is SetStatus
        &&& res@[k]->SetStatus_1 == Status::Hibernated
        &&& exists|j: int|
            0 <= j < ids@.len() && #[trigger] ids@[j] == res@[k]->SetStatus_0
                && statuses@[j] is Some
                && statuses@[j]->0 != Status::Error
    } by {
        let j = choose|j: int|
            0 <= j < ids@.len() && res@[k] == HomeCommand::SetStatus(
                #[trigger] ids@[j],
                Status::Hibernated,
            ) && statuses@[j] is Some && statuses@[j]->0 != Status::Error;
        assert(ids@[j] == res@[k]->SetStatus_0);
    }
}

/// Putting a session to rest shows it at once, does it, and in the end writes down
/// that it rests, or that it failed and why.
pub proof fn law_rest_from_begin_to_end(
    rest: Rest,
    id: &String,
    present: bool,
    first: Vec<HomeCommand>,
    result: Result<(), String>,
    last: Vec<HomeCommand>,
)
    requires
        call_ensures(begin_rest, (rest, id, present), first),
        call_ensures(end_rest, (rest, id, result), last),
    ensures
        !present ==> first@.len() == 0,
        present && rest == Rest::Stop ==> first@.len() == 2 && first@[0] == HomeCommand::SetStatus(
            *id,
            Status::Stopped,
        ) && first@[1] == HomeCommand::Stop(*id),
        present && rest == Rest::Hibernate ==> first@.len() == 2 && first@[0]
            == HomeCommand::SetStatus(*id, Status::Hibernated) && first@[1]
            == HomeCommand::Hibernate(*id),
        last@.last() is Save,
        result is Ok && rest == Rest::Stop ==> known_status(last@, *id) == Some(Status::Stopped),
        result is Ok && rest == Rest::Hibernate ==> known_status(last@, *id) == Some(
            Status::Hibernated,
        ),
        result matches Err(why) ==> known_status(last@, *id) == Some(Status::Error) && last@[0]
            == HomeCommand::SetError(*id, Some(why)),
        result is Ok ==> last@[0] is RefreshSessionCache && last@[1] is Reload,
{
    crate::tui::actions::law_rest_is_written_down(rest, *id, result);
}

/// A session that could not be hibernated on its own is in error; and the sessions
/// are read again exactly if any were hibernated.
pub proof fn law_auto_hibernation(
    id: &String,
    failed: bool,
    marks: Vec<HomeCommand>,
    ids: &Vec<String>,
    reads: Vec<HomeCommand>,
)
    requires
        call_ensures(auto_hibernated, (id, failed), marks),
        call_ensures(reread_hibernated, (ids,), reads),
    ensures
        !failed ==> marks@.len() == 0,
        failed ==> marks@.len() == 1 && marks@[0] == HomeCommand::SetStatus(*id, Status::Error),
        ids@.len() == 0 ==> reads@.len() == 0,
        ids@.len() > 0 ==> reads@.len() == 2 && reads@[0] is RefreshSessionCache
            && reads@[1] is Reload,
{
}

/// `next_question` decides to start a session again exactly as its pane calls for,
/// and asks only what is not known.
pub proof fn law_next_question_decides_by_the_pane(
    instance: &Instance,
    facts: &PaneFacts,
    res: PaneQuestion,
)
    requires
        call_ensures(next_question, (instance, facts), res),
    ensures
        res is Present <==> facts.present is None,
        res is Dead ==> facts.present == Some(true) && facts.dead is None,
        res is HookReports ==> facts.dead == Some(false) && facts.hook_reports is None,
        res is RunsShell ==> facts.hook_reports == Some(false) && facts.runs_shell is None
            && !instance.command_override && !instance.expects_shell,
        facts.present == Some(false) ==> res == PaneQuestion::Restart(true),
        facts.present == Some(true) && facts.dead == Some(true) ==> res == PaneQuestion::Restart(
            true,
        ),
        facts.present == Some(true) && facts.dead == Some(false) && facts.hook_reports is Some
            && facts.runs_shell is Some ==> res == PaneQuestion::Restart(
            !facts.hook_reports->0 && !instance.command_override && !instance.expects_shell
                && facts.runs_shell->0,
        ),
        facts.present is Some && facts.dead is Some && facts.hook_reports is Some
            && facts.runs_shell is Some ==> res is Restart,
{
}

/// `choose_editor` takes the user's own editor, else the first of vim and nano that
/// can be run, else vim.
pub proof fn law_choose_editor_in_order(
    own: Option<String>,
    vim: Option<bool>,
    nano: Option<bool>,
    res: EditorStep,
)
    requires
        call_ensures(choose_editor, (own, vim, nano), res),
    ensures
        own matches Some(name) ==> res == EditorStep::Use(name),
        own is None && vim is None ==> res is AskVim,
        own is None && vim == Some(true) ==> res is Use && res->Use_0@ == "vim"@,
        own is None && vim == Some(false) && nano is None ==> res is AskNano,
        own is None && vim == Some(false) && nano == Some(true) ==> res is Use && res->Use_0@
            == "nano"@,
        own is None && vim == Some(false) && nano == Some(false) ==> res is Use && res->Use_0@
            == "vim"@,
{
}

/// `execute_action` asks for the work that the action names, on what it names, and
/// changes only what the action is about.
pub proof fn law_execute_action_does_what_it_says(
    app: &mut App,
    action: Action,
    now: Instant,
    work: Work,
)
    requires
        call_ensures(App::execute_action, (app, action, now), work),
    ensures
        final(app).should_quit <==> old(app).should_quit || action is Quit,
        action matches Action::AttachSession(id) ==> work == Work::AttachSession(id),
        action matches Action::AttachTerminal(id, mode) ==> work == Work::AttachTerminal(id, mode),
        action matches Action::EditFile(path) ==> work == Work::EditFile(path),
        action matches Action::StopSession(id) ==> work == Work::Rest(Rest::Stop, id),
        action matches Action::HibernateSession(id) ==> work == Work::Rest(Rest::Hibernate, id),
        action matches Action::SetTheme(name) ==> work == Work::SetTheme(name),
        action matches Action::SpawnUpdate(method, version)
            ==> if old(app).update_status_rx is Some {
            work is Nothing
        } else {
            work == Work::SpawnUpdate(method, version)
        },
        action matches Action::OpenCockpit(id) ==> work is Nothing
            && final(app).pending_cockpit_open == Some(id),
        action matches Action::SendMessage(id, message) ==> {
            &&& work is Send
            &&& work->Send_0@.len() == 3
            &&& work->Send_0@[0] == HomeCommand::SetStatus(id, Status::Starting)
            &&& work->Send_0@[1] is Draw
            &&& work->Send_0@[2] == HomeCommand::SendMessage(id, message)
        },
        action matches Action::SetTransientStatus(text) ==> {
            &&& work is Nothing
            &&& final(app).update_status is Some
            &&& final(app).update_status->0.text@ == text@
            &&& final(app).update_status->0.expires_at is Some
            &&& final(app).update_status->0.expires_at->0 == now.nanos + 10_000_000_000
        },
        action is Quit ==> work is Nothing,
        !(action is SetTransientStatus) && !(action is SendMessage) && !(action is SpawnUpdate)
            ==> final(app).update_status == old(app).update_status,
        final(app).theme == old(app).theme,
        final(app).update_info == old(app).update_info,
        final(app).update_rx == old(app).update_rx,
        final(app).update_status_rx == old(app).update_status_rx,
        final(app).reading_events == old(app).reading_events,
        final(app).mouse_captured == old(app).mouse_captured,
{
}

/// Attaching looks at the pane of every session that is there and not driven
/// through the cockpit; a terminal is the container's exactly where that is wanted
/// and there is one that is switched on.
pub proof fn law_attaching_finds_its_place(
    instance: &Instance,
    mode: TerminalMode,
    none: AttachStart,
    start: AttachStart,
    target: TerminalTarget,
)
    requires
        call_ensures(App::attach_session, (None,), none),
        call_ensures(App::attach_session, (Some(instance),), start),
        call_ensures(App::attach_terminal, (instance, mode), target),
    ensures
        none == AttachStart::Done,
        start == AttachStart::LookAtPane <==> !instance.cockpit_mode,
        target == TerminalTarget::Container <==> mode == TerminalMode::Container
            && instance.sandbox_info is Some && instance.sandbox_info->0.enabled,
{
}

/// A session that need not be started again is attached to; one that must be is
/// warned about exactly if it has an instruction that its tool does not take and
/// the warning was not seen, and is started otherwise.
pub proof fn law_plan_attach_warns_once(
    instance: &Instance,
    id: &String,
    restart: bool,
    takes: bool,
    seen: bool,
    plan: AttachPlan,
    may: bool,
)
    requires
        call_ensures(App::plan_attach, (instance, id, restart, takes, seen), plan),
        call_ensures(App::may_warn, (instance, restart), may),
    ensures
        may <==> restart && instance.sandbox_info is Some && instance.sandbox_info->0.enabled
            && instance.sandbox_info->0.custom_instruction is Some
            && instance.sandbox_info->0.custom_instruction->0@.len() > 0,
        plan is Attach <==> !restart,
        plan is Warn <==> may && !takes && !seen,
        plan is Warn ==> plan->Warn_0.then_attach == *id,
        plan is Restart ==> plan->Restart_0@.len() == 2 && plan->Restart_0@[0]
            == HomeCommand::SetStatus(*id, Status::Starting) && plan->Restart_0@[1]
            == HomeCommand::Restart(*id),
{
}

/// A session that was started again is attached to and has no error; one that could
/// not be is in error, and why is kept and shown.
pub proof fn law_restart_is_told(
    app: &mut App,
    id: &String,
    result: Result<(), String>,
    now: Instant,
    res: (Vec<HomeCommand>, bool),
)
    requires
        call_ensures(App::session_restarted, (app, id, result, now), res),
    ensures
        res.1 <==> result is Ok,
        result is Ok ==> res.0@.len() == 1 && res.0@[0] == HomeCommand::SetError(*id, None)
            && *final(app) == *old(app),
        result matches Err(why) ==> {
            &&& res.0@.len() == 2
            &&& res.0@[0] == HomeCommand::SetError(*id, Some(why))
            &&& res.0@[1] == HomeCommand::SetStatus(*id, Status::Error)
            &&& final(app).update_status is Some
            &&& final(app).update_status->0.text@ == "restart failed: "@ + why@
            &&& final(app).should_quit == old(app).should_quit
        },
{
}

/// A terminal that runs is left alone, what is left of a dead one goes first, and
/// one that could not be started is not attached to.
pub proof fn law_terminal_is_made_ready(
    id: &String,
    present: bool,
    dead: bool,
    start: TerminalStart,
    result: Result<(), String>,
    res: (Vec<HomeCommand>, bool),
)
    requires
        call_ensures(App::prepare_terminal, (present, dead), start),
        call_ensures(App::terminal_started, (id, result), res),
    ensures
        start == TerminalStart::Nothing <==> present && !dead,
        start == TerminalStart::KillThenStart <==> present && dead,
        start == TerminalStart::Start <==> !present,
        res.1 <==> result is Ok,
        result is Ok ==> res.0@.len() == 0,
        result matches Err(why) ==> res.0@.len() == 1 && res.0@[0] == HomeCommand::SetError(
            *id,
            Some(why),
        ),
{
}

/// Coming back from a session or a terminal reads the sessions anew, goes on with
/// the one that it was, and clears the screen; only a session is stamped.
pub proof fn law_coming_back_goes_on_where_it_was(
    app: &mut App,
    id: &String,
    res: Vec<HomeCommand>,
)
    ensures
        call_ensures(App::session_detached, (app, id), res) ==> {
            &&& res@.len() == 4
            &&& res@[0] is RefreshSessionCache
            &&& res@[1] is Reload
            &&& res@[2] == HomeCommand::StampLastAccessed(*id)
            &&& res@[3] == HomeCommand::Select(*id)
            &&& final(app).needs_redraw
            &&& final(app).should_quit == old(app).should_quit
        },
        call_ensures(App::terminal_detached, (app, id), res) ==> {
            &&& res@.len() == 3
            &&& res@[0] is RefreshSessionCache
            &&& res@[1] is Reload
            &&& res@[2] == HomeCommand::Select(*id)
            &&& final(app).needs_redraw
            &&& final(app).should_quit == old(app).should_quit
        },
{
}

/// Coming back from an editor clears the screen and reads the diff again if it is
/// open; a message that was sent clears the status line.
pub proof fn law_small_steps_of_the_application(app: &mut App, diff_open: bool, refresh: bool)
    ensures
        call_ensures(App::edit_file, (app, diff_open), refresh) ==> refresh == diff_open
            && final(app).needs_redraw && final(app).should_quit == old(app).should_quit,
        call_ensures(App::message_sent, (app,), ()) ==> final(app).update_status is None
            && final(app).needs_redraw == old(app).needs_redraw
                && final(app).should_quit == old(app).should_quit,
        call_ensures(App::begin_frame, (app,), refresh) ==> refresh == old(app).needs_redraw
            && !final(app).needs_redraw && final(app).should_quit == old(app).should_quit,
        call_ensures(App::leave_terminal, (app,), ()) ==> !final(app).mouse_captured
            && !final(app).reading_events,
        call_ensures(App::retake_terminal, (app,), ()) ==> final(app).reading_events
            && final(app).mouse_captured == old(app).mouse_captured,
        call_ensures(App::sync_mouse_capture, (app, diff_open), ()) ==> final(app).mouse_captured
            == !diff_open && final(app).reading_events == old(app).reading_events,
        call_ensures(App::open_cockpit_view, (app,), refresh)
            ==> refresh == old(app).reading_events && !final(app).reading_events,
{
}

/// The terminal is told of the mouse exactly when what it does differs from what it
/// should: report the mouse while no text can be selected.
pub proof fn law_mouse_is_told_of_changes(app: &App, selecting: bool, res: Option<bool>)
    requires
        call_ensures(App::mouse_change, (app, selecting), res),
    ensures
        res is Some <==> app.mouse_captured == selecting,
        res is Some ==> res->0 == !selecting,
{
}

/// A theme that is chosen is shown, with the terminal's palette only if the
/// settings say so, and the screen is cleared.
pub proof fn law_set_theme_shows_it(app: &mut App, name: &str, palette: Option<bool>)
    requires
        call_ensures(App::set_theme, (app, name, palette), ()),
    ensures
        final(app).theme.name@ == name@,
        final(app).theme.palette <==> palette == Some(true),
        final(app).needs_redraw,
        final(app).should_quit == old(app).should_quit,
        final(app).update_status == old(app).update_status,
        final(app).update_info == old(app).update_info,
{
}

/// The changelog is shown, since the version that was seen last, exactly to a user
/// who is not new and saw another version.
pub proof fn law_version_change_is_noticed(config: &Config, current: &str, res: Option<String>)
    requires
        call_ensures(check_version_change, (config, current), res),
    ensures
        !config.has_seen_welcome ==> res is None,
        config.has_seen_welcome && config.last_seen_version is None ==> res is None,
        config.last_seen_version matches Some(last) ==> config.has_seen_welcome ==> (res
            == if last@ == current@ {
            None
        } else {
            Some(last)
        }),
{
}

/// The application starts with the profile and theme that were asked for, greets
/// the user as fits, and notes the version just where it greeted.
pub proof fn law_start_greets_the_user(
    profile: &str,
    any_agent: bool,
    suppress: bool,
    config: Config,
    current: &str,
    res: Startup,
)
    requires
        call_ensures(App::new, (profile, any_agent, suppress, config, current), res),
    ensures
        res.active_profile is Some <==> profile@.len() > 0,
        res.active_profile matches Some(name) ==> name@ == profile@,
        res.app.theme.name@ == if config.theme_name@.len() == 0 {
            "empire"@
        } else {
            config.theme_name@
        },
        res.app.theme.palette == config.palette,
        res.dialog is NoAgents <==> !any_agent,
        res.dialog is Welcome <==> any_agent && !suppress && !config.has_seen_welcome,
        res.dialog is Changelog <==> any_agent && !suppress && config.has_seen_welcome && (
        config.last_seen_version is None || config.last_seen_version->0@ != current@),
        res.dialog is Changelog ==> res.dialog->Changelog_0 == config.last_seen_version,
        res.save is Some <==> res.dialog is Welcome || res.dialog is Changelog,
        res.save matches Some(saved) ==> saved.has_seen_welcome && saved.last_seen_version is Some
            && saved.last_seen_version->0@ == current@ && saved.theme_name == config.theme_name
            && saved.palette == config.palette,
        !res.app.should_quit,
        res.app.needs_redraw,
        res.app.update_info is None,
        res.app.update_status is None,
        !res.app.update_bar_dismissed,
        res.app.reading_events,
        res.app.mouse_captured,
{
}

/// The status line is shown until its time has come, and is then taken away.
pub proof fn law_status_line_is_shown_in_its_time(
    app: &mut App,
    now: Instant,
    text: Option<&String>,
)
    requires
        call_ensures(App::render, (app, now), text),
    ensures
        old(app).update_status is None ==> text is None,
        old(app).update_status matches Some(status) ==> {
            let over = status.expires_at is Some && now.nanos >= status.expires_at->0;
            &&& over ==> text is None && final(app).update_status is None
            &&& !over ==> text == Some(&status.text) && final(app).update_status == Some(status)
        },
        final(app).should_quit == old(app).should_quit,
        final(app).update_info == old(app).update_info,
{
}

/// What is shown for a while, what a running update says, and what a closed cockpit
/// says, each goes away after ten seconds.
pub proof fn law_status_lines_say_what_happened(
    app: &mut App,
    text: String,
    method: &InstallMethod,
    version: &str,
    writable: bool,
    mode: UpdateMode,
    result: Result<(), String>,
    now: Instant,
)
    ensures
        call_ensures(App::show_transient, (app, text, now), ()) ==> {
            &&& final(app).update_status is Some
            &&& final(app).update_status->0.text@ == text@
            &&& final(app).update_status->0.expires_at is Some
            &&& final(app).update_status->0.expires_at->0 == now.nanos + 10_000_000_000
        },
        call_ensures(App::spawn_update, (app, method, version, writable, now), mode) ==> {
            &&& final(app).update_status is Some
            &&& final(app).update_status->0.text@ == "updating to v"@ + version@ + "…"@
            &&& mode == UpdateMode::Suspend <==> *method is Homebrew || (*method is Tarball
                && !writable)
        },
        call_ensures(App::finish_update, (app, result, now), ()) ==> {
            &&& final(app).update_status is Some
            &&& result is Ok ==> final(app).update_status->0.text@
                == "update complete. Restart aoe to use the new version."@
                    && final(app).update_status->0.expires_at is None
            &&& result matches Err(why) ==> final(app).update_status->0.text@ == "update failed: "@
                + why@ && final(app).update_status->0.expires_at is Some
        },
        call_ensures(App::run_cockpit_view, (app, result, now), ()) ==> {
            &&& final(app).reading_events
            &&& final(app).needs_redraw
            &&& result matches Err(why) ==> final(app).update_status is Some
                && final(app).update_status->0.text@ == "cockpit closed: "@ + why@
            &&& result is Ok
                ==> (final(app).update_status is Some <==> old(app).update_status is Some)
        },
{
}

/// A search that found a version which can be had is shown, as news, unless the bar
/// was dismissed; anything else leaves what is known and is no news.
pub proof fn law_take_check_shows_the_find(
    app: &mut App,
    found: TryRecv<UpdateCheck>,
    news: bool,
)
    requires
        call_ensures(App::take_check, (app, found), news),
    ensures
        ({
            let finds = found is Value && found->Value_0 is Ok && found->Value_0->Ok_0.available;
            &&& news <==> finds && !old(app).update_bar_dismissed
            &&& news ==> final(app).update_info == Some(found->Value_0->Ok_0)
            &&& finds && old(app).update_bar_dismissed ==> final(app).update_info is None
            &&& !finds ==> final(app).update_info == old(app).update_info
        }),
        final(app).update_status == old(app).update_status,
        final(app).should_quit == old(app).should_quit,
{
}

/// The session whose cockpit is to be opened is handed out once.
pub proof fn law_cockpit_is_opened_once(app: &mut App, res: Option<String>)
    requires
        call_ensures(App::take_cockpit, (app,), res),
    ensures
        res == old(app).pending_cockpit_open,
        final(app).pending_cockpit_open is None,
        final(app).should_quit == old(app).should_quit,
{
}

/// What comes of a search counts only if it found a version that can be had.
pub proof fn law_search_is_weighed(
    check: UpdateCheck,
    asks: bool,
    actionable: Option<bool>,
    gated: UpdateCheck,
    found: TryRecv<UpdateCheck>,
    known: Option<UpdateInfo>,
    res: (Option<UpdateInfo>, bool),
)
    requires
        call_ensures(needs_install_probe, (&check,), asks),
        call_ensures(gate_update, (check, actionable), gated),
        call_ensures(apply_check, (found, known), res),
    ensures
        asks <==> check is Ok && check->Ok_0.available,
        gated is Ok <==> check is Ok,
        check is Ok ==> (gated->Ok_0.available <==> check->Ok_0.available && actionable != Some(
            false,
        )),
        check is Ok ==> gated->Ok_0 == (UpdateInfo {
            available: gated->Ok_0.available,
            ..check->Ok_0
        }),
        check is Err ==> gated->Err_0 == check->Err_0,
        res.1 <==> found is Value && found->Value_0 is Ok && found->Value_0->Ok_0.available,
        res.1 ==> res.0 == Some(found->Value_0->Ok_0),
        !res.1 ==> res.0 == known,
{
}

/// An update that has ended is told, for good if it is complete; while it runs
/// nothing changes, and one that was lost is told too.
pub proof fn law_progress_is_told(
    found: TryRecv<Result<(), String>>,
    status: Option<UpdateStatus>,
    now: Instant,
    res: (Option<UpdateStatus>, bool),
)
    requires
        call_ensures(apply_progress, (found, status, now), res),
    ensures
        found is Empty <==> !res.1,
        found is Empty ==> res.0 == status,
        !(found is Empty) ==> res.0 is Some,
        found matches TryRecv::Value(result) ==> {
            &&& result is Ok ==> res.0->0.text@
                == "update complete. Restart aoe to use the new version."@
                && res.0->0.expires_at is None
            &&& result matches Err(why) ==> res.0->0.text@ == "update failed: "@ + why@
                && res.0->0.expires_at is Some && res.0->0.expires_at->0 == now.nanos
                + 10_000_000_000
        },
        found is Closed ==> res.0->0.text@ == "update task ended unexpectedly"@
            && res.0->0.expires_at is Some,
{
}

/// A passing line goes away after ten seconds and a lasting one never.
pub proof fn law_lines_go_away_in_time(
    text: String,
    shown: Instant,
    now: Instant,
    passing: UpdateStatus,
    lasting: UpdateStatus,
    gone: bool,
    gone_too: bool,
)
    requires
        call_ensures(UpdateStatus::transient, (text, shown), passing),
        call_ensures(UpdateStatus::persistent, (text,), lasting),
        call_ensures(UpdateStatus::is_expired, (&passing, now), gone),
        call_ensures(UpdateStatus::is_expired, (&lasting, now), gone_too),
    ensures
        passing.text@ == text@,
        lasting.text@ == text@,
        gone <==> now.nanos >= shown.nanos + 10_000_000_000,
        !gone_too,
{
}

/// Where an update runs: in the foreground where it may ask for a password.
pub proof fn law_update_mode_by_method(method: &InstallMethod, writable: bool, res: UpdateMode)
    requires
        call_ensures(update_mode, (method, writable), res),
    ensures
        res == UpdateMode::Suspend <==> *method is Homebrew || (*method is Tarball && !writable),
{
}

/// Only Enter and what is printable joins a burst; each adds its character.
pub proof fn law_burst_keys(key: &KeyEvent, joins: bool, adds: Option<char>)
    requires
        call_ensures(App::is_burst_candidate, (key,), joins),
        call_ensures(App::burst_char_for, (key,), adds),
    ensures
        key.modifiers.control || key.modifiers.alt || key.modifiers.other ==> !joins,
        !key.modifiers.control && !key.modifiers.alt && !key.modifiers.other ==> (joins
            <==> key.code is Enter || (key.code is Char && 32 <= key.code->Char_0 as u32 <= 126)),
        key.code is Enter ==> adds == Some('\n'),
        key.code matches KeyCode::Char(c) ==> adds == Some(c),
        joins ==> adds is Some,
{
}

/// A burst takes every key that may be part of it, and ends at anything else, which
/// it keeps for later; from three keys on it is a paste of just what was typed.
pub proof fn law_burst_gathers_what_is_typed<E>(
    burst: &mut Burst<E>,
    key: KeyEvent,
    event: E,
    more: bool,
    whole: Burst<E>,
    end: (BurstEnd<E>, Option<E>),
)
    ensures
        call_ensures(Burst::<E>::offer, (burst, Next::Key(key, event)), more) ==> {
            &&& more <==> burst_candidate(key)
            &&& more ==> final(burst).keys@ == old(burst).keys@.push(event)
            &&& more ==> final(burst).text@.len() == old(burst).text@.len() + 1
            &&& more && key.code is Char ==> final(burst).text@.last() == key.code->Char_0
            &&& more && key.code is Enter ==> final(burst).text@.last() == '\n'
            &&& !more ==> final(burst).deferred == Some(event)
                && final(burst).keys@ == old(burst).keys@
                && final(burst).text@ == old(burst).text@
        },
        call_ensures(Burst::<E>::offer, (burst, Next::Event(event)), more) ==> !more
            && final(burst).deferred == Some(event) && final(burst).keys@ == old(burst).keys@,
        call_ensures(Burst::<E>::offer, (burst, Next::Nothing), more) ==> !more && *final(burst)
            == *old(burst),
        call_ensures(Burst::<E>::finish, (whole,), end) ==> {
            &&& end.1 == whole.deferred
            &&& whole.keys@.len() >= 3 ==> end.0 == BurstEnd::<E>::Paste(whole.text)
            &&& whole.keys@.len() < 3 ==> end.0 == BurstEnd::<E>::Replay(whole.keys)
        },
{
}

/// The wheel scrolls the way it turns, over the open diff or else over the preview
/// of a selected session, and nowhere else.
pub proof fn law_mouse_scrolls(kind: MouseKind, facts: ScrollFacts, res: Option<Scroll>)
    requires
        call_ensures(mouse_scroll, (kind, facts), res),
    ensures
        res is Some <==> kind != MouseKind::Other && if facts.diff_open {
            facts.over_diff
        } else {
            facts.session_selected && facts.over_preview
        },
        res is Some ==> (res->0 == Scroll::Up <==> kind == MouseKind::ScrollUp),
{
}

/// Each event leads where it should, and only the loss of the terminal or a signal
/// ends the program.
pub proof fn law_run_sees_to_every_event(
    app: &mut App,
    event: LoopEvent,
    wants_burst: bool,
    res: LoopAction,
)
    requires
        call_ensures(App::run, (app, event, wants_burst), res),
    ensures
        res == LoopAction::Exit <==> event is ReadError || event is EndOfInput || event is HangUp
            || event is Terminate,
        final(app).should_quit <==> old(app).should_quit || res == LoopAction::Exit,
        event matches LoopEvent::Key(key) ==> res == if wants_burst && burst_candidate(key) {
            LoopAction::GatherBurst
        } else {
            LoopAction::HandleKey
        },
        event is Paste ==> res == LoopAction::Paste,
        event is Resize ==> res == LoopAction::Draw,
        event is Tick || event is Other ==> res == LoopAction::Housekeeping,
        event matches LoopEvent::Mouse(kind, facts) ==> (res is Scroll <==> kind != MouseKind::Other
            && if facts.diff_open {
            facts.over_diff
        } else {
            facts.session_selected && facts.over_preview
        }),
        event is Mouse && !(res is Scroll) ==> res == LoopAction::Wait,
        res matches LoopAction::Scroll(way) ==> event is Mouse && (way == Scroll::Up
            <==> event->Mouse_0 == MouseKind::ScrollUp),
        final(app).needs_redraw == old(app).needs_redraw,
{
}

/// What ended a burst is acted on, unless the program is about to quit.
pub proof fn law_after_burst_acts(app: &mut App, event: LoopEvent, res: DeferredAction)
    requires
        call_ensures(App::after_burst, (app, event), res),
    ensures
        old(app).should_quit ==> res == DeferredAction::Nothing,
        !old(app).should_quit ==> {
            &&& event is Key <==> res == DeferredAction::HandleKey
            &&& event is Paste <==> res == DeferredAction::Paste
            &&& event is Resize <==> res == DeferredAction::FitScreen
            &&& event is Resize ==> final(app).needs_redraw
        },
        !(event is Resize) ==> *final(app) == *old(app),
        final(app).should_quit == old(app).should_quit,
{
}

/// After a key the screen is drawn, or will be cleared and drawn anyway, and the loop
/// ends once the program is about to quit; news of updates clears the screen.
pub proof fn law_after_a_key(
    app: &App,
    res: AfterKey,
    goes_on: bool,
    other: &mut App,
    found: bool,
    changed: bool,
)
    requires
        call_ensures(App::after_key, (app,), res),
        call_ensures(App::replay_goes_on, (app,), goes_on),
        call_ensures(App::updates_polled, (other, found, changed), ()),
    ensures
        res.draw || app.needs_redraw,
        res.draw ==> !app.needs_redraw,
        res.exit <==> app.should_quit,
        goes_on <==> !app.should_quit,
        final(other).needs_redraw <==> old(other).needs_redraw || found || changed,
        final(other).should_quit == old(other).should_quit,
{
}

/// A step of housekeeping is taken next only if its time has come, or, to draw, if
/// something changed; and a step that was done starts its own timer anew.
pub proof fn law_advance_takes_what_is_due(
    pass: &mut Pass,
    timers: &mut Timers,
    answer: bool,
    now: Instant,
    step: PassStep,
)
    requires
        call_ensures(Pass::advance, (pass, timers, answer, now), step),
    ensures
        final(pass).step == step,
        old(pass).changed ==> final(pass).changed,
        old(pass).step == PassStep::Reload ==> final(pass).changed,
        answer && (old(pass).step == PassStep::ApplyStatus || old(pass).step
            == PassStep::ApplyDeletions || old(pass).step == PassStep::ApplySessionIds
                || old(pass).step == PassStep::ApplyCreation
                || old(pass).step == PassStep::TickDialog || old(pass).step == PassStep::Hibernate
                || old(pass).step == PassStep::AskAnimated)
            ==> final(pass).changed,
        !answer && old(pass).step != PassStep::Reload ==> final(pass).changed == old(pass).changed,
        step == PassStep::Draw ==> final(pass).changed,
        step == PassStep::RequestStatus ==> elapsed_ms(old(timers).status.last, now)
            >= old(timers).status.every_ms,
        step == PassStep::Reload ==> elapsed_ms(old(timers).disk.last, now)
            >= old(timers).disk.every_ms,
        step == PassStep::Hibernate ==> elapsed_ms(old(timers).hibernate.last, now)
            >= old(timers).hibernate.every_ms && final(timers).hibernate.last == now,
        old(pass).step == PassStep::Begin ==> step == if elapsed_ms(old(timers).status.last, now)
            >= old(timers).status.every_ms {
            PassStep::RequestStatus
        } else {
            PassStep::ApplyStatus
        },
        old(pass).step == PassStep::RequestStatus ==> step == PassStep::ApplyStatus
            && final(timers).status.last == now,
        old(pass).step == PassStep::ApplyStatus ==> step == PassStep::ApplyDeletions,
        old(pass).step == PassStep::ApplyDeletions ==> step == PassStep::ApplySessionIds,
        old(pass).step == PassStep::ApplySessionIds ==> step == PassStep::ApplyCreation,
        old(pass).step == PassStep::ApplyCreation ==> step == PassStep::TickDialog,
        old(pass).step == PassStep::TickDialog && elapsed_ms(old(timers).disk.last, now)
            >= old(timers).disk.every_ms ==> step == PassStep::Reload,
        old(pass).step == PassStep::Reload ==> final(timers).disk.last == now,
        old(pass).step == PassStep::Heartbeat ==> final(timers).heartbeat.last == now,
        old(pass).step == PassStep::AskAnimated && answer ==> final(timers).spinner.last == now
            && step == PassStep::Draw,
        old(pass).step == PassStep::AskAnimated && !final(pass).changed ==> step == PassStep::End,
        old(pass).step == PassStep::Draw ==> step == PassStep::End,
{
    let after = crate::tui::event_loop::timers_after(*old(timers), old(pass).step, answer, now);
    crate::tui::event_loop::law_pass_does_what_is_due(after, final(pass).changed, now);
    crate::tui::event_loop::law_pass_leaves_nothing_out(after, final(pass).changed, now);
    crate::tui::event_loop::law_pass_ends(old(pass).step, after, final(pass).changed, now);
}

/// A session's output is shown whenever it has no error and there is any, from the
/// line that the user scrolled to; the hint comes only where there is none.
pub proof fn law_render_output_shows_the_output(
    area: Area,
    instance: &Instance,
    cached_output: &str,
    scroll_offset: u16,
    compact: bool,
    res: (Option<OutputFrame>, Area, Content),
)
    requires
        call_ensures(
            Preview::render_output_cached,
            (area, instance, cached_output, scroll_offset, compact),
            res,
        ),
    ensures
        instance.last_error is None && cached_output@.len() > 0 ==> {
            &&& res.2 is Output
            &&& ansi_views(res.2->Output_0@) == ansi_lines(cached_output@)
            &&& is_first_line(
                res.2->Output_1 as int,
                output_lines(cached_output@) as int,
                area.height as int,
                scroll_offset as int,
            )
        },
        res.2 is Hint <==> instance.last_error is None && cached_output@.len() == 0,
        res.2 is Failure <==> instance.last_error is Some,
        res.0 is None <==> compact,
        compact ==> res.1 == area,
        res.0 matches Some(frame) ==> frame.area == area && frame.title@ == " Output "@,
{
}

/// The preview of a session shows its output likewise, and what is known of the
/// session above it unless space is short.
pub proof fn law_render_with_cache_shows_the_output(
    area: Area,
    instance: &Instance,
    cached_output: &str,
    scroll_offset: u16,
    home: Option<&HomeDir>,
    main_home: Option<&HomeDir>,
    compact: bool,
    plan: PreviewPlan,
)
    requires
        call_ensures(
            Preview::render_with_cache,
            (area, instance, cached_output, scroll_offset, home, main_home, compact),
            plan,
        ),
    ensures
        instance.last_error is None && cached_output@.len() > 0 ==> {
            &&& plan.content is Output
            &&& ansi_views(plan.content->Output_0@) == ansi_lines(cached_output@)
            &&& compact ==> is_first_line(
                plan.content->Output_1 as int,
                output_lines(cached_output@) as int,
                area.height as int,
                scroll_offset as int,
            )
        },
        plan.content is Hint <==> instance.last_error is None && cached_output@.len() == 0,
        plan.content is Failure <==> instance.last_error is Some,
        plan.info is None <==> compact,
        plan.frame is None <==> compact,
        plan.frame matches Some(frame) ==> {
            &&& plan.info->0.area.y + plan.info->0.area.height == frame.area.y
            &&& plan.info->0.area.x == frame.area.x
            &&& plan.info->0.area.width == frame.area.width
            &&& instance.last_error is None && cached_output@.len() > 0 ==> is_first_line(
                plan.content->Output_1 as int,
                output_lines(cached_output@) as int,
                frame.area.height as int,
                scroll_offset as int,
            )
        },
{
}

/// The preview of a terminal shows its output while it runs, and otherwise how to
/// start it.
pub proof fn law_render_terminal_shows_the_output(
    area: Area,
    instance: &Instance,
    running: bool,
    cached_output: &str,
    scroll_offset: u16,
    home: Option<&HomeDir>,
    compact: bool,
    plan: PreviewPlan,
)
    requires
        call_ensures(
            Preview::render_terminal_preview,
            (area, instance, running, cached_output, scroll_offset, home, compact),
            plan,
        ),
    ensures
        running && cached_output@.len() > 0 ==> plan.content is Output && ansi_views(
            plan.content->Output_0@,
        ) == ansi_lines(cached_output@),
        running && cached_output@.len() == 0 ==> plan.content is Hint && plan.content->Hint_0@
            == "No output available"@,
        !running ==> plan.content is Hint && plan.content->Hint_0@
            == "Press Enter to start terminal"@,
        plan.info is None <==> compact,
        plan.frame is None <==> compact,
        plan.frame matches Some(frame) ==> {
            &&& frame.title@ == " Terminal Output "@
            &&& plan.info->0.area.y + plan.info->0.area.height == frame.area.y
            &&& running && cached_output@.len() > 0 ==> is_first_line(
                plan.content->Output_1 as int,
                output_lines(cached_output@) as int,
                frame.area.height as int,
                scroll_offset as int,
            )
        },
        compact && running && cached_output@.len() > 0 ==> is_first_line(
            plan.content->Output_1 as int,
            output_lines(cached_output@) as int,
            area.height as int,
            scroll_offset as int,
        ),
        !compact ==> {
            let lines = plan.info->0.lines@;
            &&& lines.len() == if instance.sandbox_info is Some
                && instance.sandbox_info->0.enabled {
                4int
            } else {
                3int
            }
            &&& lines[0].spans@[1].text@ == instance.title@
            &&& lines[2].spans@[1].text@ == if running {
                "Running"@
            } else {
                "Not started"@
            }
        },
{
    if !compact {
        let lines = plan.info->0.lines@;
        let views = line_views(lines);
        assert(views.len() == lines.len());
        assert(views[0] == lines[0]@);
        assert(views[2] == lines[2]@);
        assert(views[0].len() == 2 && views[2].len() == 2);
        assert(lines[0].spans@.len() == lines[0]@.len());
        assert(lines[2].spans@.len() == lines[2]@.len());
        assert(lines[0]@[1] == lines[0].spans@[1]@);
        assert(lines[2]@[1] == lines[2].spans@[1]@);
    }
}

/// What is known of a session names its tool, path and status, in that order.
pub proof fn law_render_info_names_the_session(
    instance: &Instance,
    home: Option<&HomeDir>,
    main_home: Option<&HomeDir>,
    lines: Vec<Line>,
)
    requires
        call_ensures(Preview::render_info, (instance, home, main_home), lines),
    ensures
        lines@.len() >= 3,
        lines@[0].spans@.last().text@ == instance.tool@,
        lines@[1].spans@[0].text@ == "Path:    "@,
        home is None ==> lines@[1].spans@[1].text@ == instance.project_path@,
        lines@[2].spans@[1].text@ == instance.status.name(),
        instance.sandbox_info is Some && instance.sandbox_info->0.enabled ==> lines@.len() >= 4
            && lines@[3].spans@[1].text@ == instance.sandbox_info->0.container_name@,
        instance.worktree_info is None && (instance.sandbox_info is None
            || !instance.sandbox_info->0.enabled) ==> lines@.len() == 3,
{
    let views = line_views(lines@);
    assert(views.len() == lines@.len());
    assert(views[0] == lines@[0]@);
    assert(views[1] == lines@[1]@);
    assert(views[2] == lines@[2]@);
    assert(views[3] == lines@[3]@ || lines@.len() <= 3);
    let n = lines@[0].spans@.len();
    assert(lines@[0]@[n - 1] == lines@[0].spans@[n - 1]@);
    assert(lines@[1]@[0] == lines@[1].spans@[0]@);
    assert(lines@[1]@[1] == lines@[1].spans@[1]@);
    assert(lines@[2]@[1] == lines@[2].spans@[1]@);
    if instance.sandbox_info is Some && instance.sandbox_info->0.enabled {
        assert(lines@[3]@[1] == lines@[3].spans@[1]@);
    }
}

/// The last lines are shown, or as many lines further up as the user has scrolled.
pub proof fn law_scroll_position(
    lines: usize,
    rows: usize,
    offset: u16,
    res: u16,
    label: Option<String>,
)
    requires
        call_ensures(compute_scroll, (lines, rows, offset), res),
        call_ensures(format_scroll_indicator, (lines, rows, offset), label),
    ensures
        lines <= rows ==> res == 0 && label is None,
        offset == 0 ==> label is None,
        lines > rows && offset > 0 ==> label is Some,
        lines > rows && lines - rows <= 65_535 && offset <= lines - rows ==> res + offset + rows
            == lines,
        lines > rows && offset >= lines - rows ==> res == 0,
        lines > rows && lines - rows > 65_535 ==> res + offset == 65_535,
        label is Some && lines - rows <= 65_535 && offset <= lines - rows ==> label->0@ == " ["@
            + decimal(offset as nat) + "/"@ + decimal((lines - rows) as nat) + "] "@,
{
}

/// A path under the home directory is shown from `~` on, and any other as it is.
pub proof fn law_shorten_path(path: &str, home: &HomeDir, base: String, res: String, plain: String)
    requires
        call_ensures(shorten_path, (path, Some(home)), res),
        call_ensures(shorten_path, (path, None), plain),
        home.canonical is None,
        home.text == Some(base),
    ensures
        plain@ == path@,
        base@.is_prefix_of(path@) ==> res@ == "~"@ + path@.skip(base@.len() as int),
        !base@.is_prefix_of(path@) ==> res@ == path@,
{
}

/// The help overlay lies in the middle of its area, is fifty columns by forty-five
/// rows or as large as the area, and has a line for every command.
pub proof fn law_help_overlay_tells_every_command(
    area: Area,
    sort_order: &str,
    strict: bool,
    locked: bool,
    version: &str,
    plan: HelpPlan,
    i: int,
    j: int,
)
    requires
        call_ensures(HelpOverlay::render, (area, sort_order, strict, locked, version), plan),
        area.x + area.width <= u16::MAX,
        area.y + area.height <= u16::MAX,
        0 <= i < 4,
        0 <= j < help_sections(strict)[i].1.len(),
    ensures
        plan.area.width == if area.width < 50 {
            area.width as int
        } else {
            50
        },
        plan.area.height == if area.height < 45 {
            area.height as int
        } else {
            45
        },
        ({
            let left = plan.area.x - area.x;
            let right = area.x + area.width - plan.area.x - plan.area.width;
            0 <= left <= right <= left + 1
        }),
        ({
            let above = plan.area.y - area.y;
            let below = area.y + area.height - plan.area.y - plan.area.height;
            0 <= above <= below <= above + 1
        }),
        plan.title@ == " Keyboard Shortcuts "@,
        plan.version@ == " Agent of Empires v"@ + version@ + " "@,
        line_views(plan.lines@).contains(
            shortcut_line(help_sections(strict)[i].1[j].0, help_sections(strict)[i].1[j].1),
        ),
        line_views(plan.lines@).contains(
            shortcut_line(
                Seq::empty(),
                "(current sort: "@ + sort_order@ + if locked {
                    " [locked])"@
                } else {
                    ")"@
                },
            ),
        ),
{
    let all = help_sections(strict);
    let label = sort_words(sort_order@, locked);
    law_every_section_is_shown(all, all.len(), label, i, j);
    law_every_section_is_shown(all, all.len(), label, 2, 0);
}

/// The count of lines is that of the overlay.
pub proof fn law_help_is_counted(
    area: Area,
    sort_order: &str,
    strict: bool,
    locked: bool,
    version: &str,
    plan: HelpPlan,
    count: usize,
)
    requires
        call_ensures(HelpOverlay::render, (area, sort_order, strict, locked, version), plan),
        call_ensures(content_line_count, (strict,), count),
    ensures
        plan.lines@.len() == count,
        count <= 43,
{
    law_help_fits_in_height(strict, sort_words(sort_order@, locked));
    assert(line_views(plan.lines@).len() == plan.lines@.len());
}

/// Requests are taken in the order in which they were filed, and none is lost; where
/// there is none the worker waits, and stops once nobody will ask again.
pub proof fn law_requests_are_taken_in_order(
    poller: &mut DeletionPoller,
    request: DeletionRequest,
    step: WorkerStep,
)
    ensures
        call_ensures(DeletionPoller::request_deletion, (poller, request), ()) ==> {
            &&& final(poller).waiting() == old(poller).waiting().push(request)
            &&& final(poller).ready() == old(poller).ready()
        },
        call_ensures(DeletionPoller::next_request, (poller,), step) ==> {
            &&& old(poller).waiting().len() > 0 ==> step is Perform && seq![step->Perform_0]
                + final(poller).waiting() == old(poller).waiting()
            &&& old(poller).waiting().len() == 0 ==> final(poller).waiting().len() == 0
            &&& old(poller).waiting().len() == 0 ==> (step is Stop <==> old(poller).is_closed())
            &&& old(poller).waiting().len() == 0 ==> (step is Wait <==> !old(poller).is_closed())
            &&& final(poller).ready() == old(poller).ready()
        },
{
    if old(poller).waiting().len() > 0 {
        let w = old(poller).waiting();
        assert(seq![w[0]] + w.skip(1) =~= w);
    }
}

/// Results come out in the order in which they were filed, once each, and none is
/// lost while anybody may pick it up.
pub proof fn law_results_come_out_in_order(
    poller: &mut DeletionPoller,
    result: DeletionResult,
    goes_on: bool,
    came: Option<DeletionResult>,
)
    ensures
        call_ensures(DeletionPoller::deletion_loop, (poller, result), goes_on) ==> {
            &&& goes_on <==> !old(poller).is_closed()
            &&& goes_on ==> final(poller).ready() == old(poller).ready().push(result)
            &&& final(poller).waiting() == old(poller).waiting()
        },
        call_ensures(DeletionPoller::try_recv_result, (poller,), came) ==> {
            &&& came is None <==> old(poller).ready().len() == 0
            &&& came is Some ==> seq![came->0] + final(poller).ready() == old(poller).ready()
            &&& came is None ==> final(poller).ready().len() == 0
            &&& final(poller).waiting() == old(poller).waiting()
        },
        call_ensures(DeletionPoller::close, (poller,), ()) ==> {
            &&& final(poller).is_closed()
            &&& final(poller).waiting() == old(poller).waiting()
            &&& final(poller).ready() == old(poller).ready()
        },
{
    if old(poller).ready().len() > 0 {
        let r = old(poller).ready();
        assert(seq![r[0]] + r.skip(1) =~= r);
    }
}

/// Looking for news of an update keeps the receiver until something has come. Only
/// a version that can be had is news, it is then what is known, and a bar that was
/// dismissed stays away.
pub proof fn law_polling_for_updates(app: &mut App, news: bool)
    requires
        call_ensures(App::poll_update_check, (app,), news),
    ensures
        old(app).update_rx is None ==> !news && *final(app) == *old(app),
        news ==> final(app).update_info is Some && final(app).update_info->0.available
            && !old(app).update_bar_dismissed && final(app).update_rx is None,
        !news && !old(app).update_bar_dismissed ==> final(app).update_info == old(app).update_info,
        final(app).update_rx is Some ==> !news && final(app).update_rx == old(app).update_rx
            && final(app).update_info == old(app).update_info,
        final(app).update_status == old(app).update_status,
        final(app).should_quit == old(app).should_quit,
{
}

/// Looking whether an update has ended keeps the receiver and the line until it has;
/// and then says so.
pub proof fn law_polling_for_the_end(app: &mut App, now: Instant, changed: bool)
    requires
        call_ensures(App::poll_update_status, (app, now), changed),
    ensures
        old(app).update_status_rx is None ==> !changed,
        !changed ==> *final(app) == *old(app),
        changed ==> final(app).update_status is Some && final(app).update_status_rx is None,
        final(app).update_info == old(app).update_info,
        final(app).should_quit == old(app).should_quit,
{
}

/// The receivers are looked at likewise outside the application.
pub proof fn law_receivers_are_kept_until_something_comes(
    rx: Option<Receiver<UpdateCheck>>,
    known: Option<UpdateInfo>,
    found: (Option<UpdateInfo>, Option<Receiver<UpdateCheck>>, bool),
    progress: Option<Receiver<Result<(), String>>>,
    status: Option<UpdateStatus>,
    now: Instant,
    ended: (Option<UpdateStatus>, Option<Receiver<Result<(), String>>>, bool),
)
    requires
        call_ensures(poll_update_receiver, (rx, known), found),
        call_ensures(poll_progress, (progress, status, now), ended),
    ensures
        rx is None ==> found.0 == known && found.1 is None && !found.2,
        found.2 ==> found.0 is Some && found.0->0.available && found.1 is None,
        !found.2 ==> found.0 == known,
        found.1 is Some ==> found.1 == rx && !found.2,
        progress is None ==> ended.0 == status && !ended.2,
        ended.2 ==> ended.0 is Some && ended.1 is None,
        !ended.2 ==> ended.0 == status && ended.1 == progress,
{
}

/// A warning at the start closes the other dialogs and is shown whole, in a dialog
/// that has room for it up to a limit.
pub proof fn law_startup_warning_is_shown(message: &str, res: Vec<DialogCommand>)
    requires
        call_ensures(App::show_startup_warning, (message,), res),
    ensures
        res@.len() == 3,
        res@[0] is CloseWelcome,
        res@[1] is CloseChangelog,
        res@[2] is ShowWarning,
        ({
            let dialog = res@[2]->ShowWarning_0;
            let rows = visual_rows(lines_of(message@), 92);
            &&& dialog.title@ == "Warning"@
            &&& dialog.message@ == message@
            &&& dialog.width == 96
            &&& 2 <= rows <= 28 ==> dialog.height == rows + 7
            &&& rows < 2 ==> dialog.height == 9
            &&& rows > 28 ==> dialog.height == 35
        }),
{
}

/// The timers start together, each with its own time, and are due when that has
/// passed.
pub proof fn law_timers_start_together(
    start: Instant,
    timers: Timers,
    timer: &mut Timer,
    now: Instant,
    due: bool,
)
    ensures
        call_ensures(Timers::new, (start,), timers) ==> {
            &&& timers.status == (Timer { every_ms: 500, last: start })
            &&& timers.disk == (Timer { every_ms: 5_000, last: start })
            &&& timers.spinner == (Timer { every_ms: 120, last: start })
            &&& timers.heartbeat == (Timer { every_ms: 10_000, last: start })
            &&& timers.hibernate == (Timer { every_ms: 60_000, last: start })
        },
        call_ensures(Timer::restart, (timer, now), ()) ==> final(timer).last == now
            && final(timer).every_ms == old(timer).every_ms,
        call_ensures(Timer::is_due, (&timers.status, now), due) ==> timers.status.last.nanos
            <= now.nanos ==> (due <==> now.nanos - timers.status.last.nanos
            >= timers.status.every_ms * 1_000_000),
{
    law_elapsed_counts_milliseconds(timers.status.last, now);
}

/// A burst begins with its first key, and a pass before its first step.
pub proof fn law_beginnings<E>(key: &KeyEvent, event: E, burst: Burst<E>, pass: Pass)
    requires
        call_ensures(Burst::<E>::start, (key, event), burst),
        call_ensures(Pass::new, (), pass),
        burst_candidate(*key),
    ensures
        burst.keys@ == seq![event],
        burst.text@.len() == 1,
        key.code is Char ==> burst.text@[0] == key.code->Char_0,
        key.code is Enter ==> burst.text@[0] == '\n',
        burst.deferred is None,
        pass.step == PassStep::Begin,
        !pass.changed,
{
}

/// The modifiers are what they are called.
pub proof fn law_modifiers(
    none: KeyModifiers,
    shift: KeyModifiers,
    control: KeyModifiers,
    alt: KeyModifiers,
    some: KeyModifiers,
    alone: bool,
)
    requires
        call_ensures(KeyModifiers::none, (), none),
        call_ensures(KeyModifiers::shift, (), shift),
        call_ensures(KeyModifiers::control, (), control),
        call_ensures(KeyModifiers::alt, (), alt),
        call_ensures(KeyModifiers::is_control, (some,), alone),
    ensures
        !none.shift && !none.control && !none.alt && !none.other,
        shift.shift && !shift.control && !shift.alt && !shift.other,
        !control.shift && control.control && !control.alt && !control.other,
        !alt.shift && !alt.control && alt.alt && !alt.other,
        alone <==> some.control && !some.shift && !some.alt && !some.other,
{
}

/// The shortcuts are told of by their texts, section by section.
pub proof fn law_shortcuts_are_the_sections(strict: bool, res: Vec<Section>, i: int, j: int)
    requires
        call_ensures(shortcuts, (strict,), res),
        0 <= i < 4,
        0 <= j < help_sections(strict)[i].1.len(),
    ensures
        res@.len() == 4,
        res@[i].0@ == help_sections(strict)[i].0,
        res@[i].1@.len() == help_sections(strict)[i].1.len(),
        res@[i].1@[j].0@ == help_sections(strict)[i].1[j].0,
        res@[i].1@[j].1@ == help_sections(strict)[i].1[j].1,
{
    let views = section_views(res@);
    assert(views.len() == res@.len());
    assert(views[i] == section_view(res@[i]));
    assert(views[i].1 == shortcut_views(res@[i].1@));
    assert(shortcut_views(res@[i].1@)[j] == (res@[i].1@[j].0@, res@[i].1@[j].1@));
}

/// Below a border there is one row less, down to the same lower edge.
pub proof fn law_under_border(area: Area, res: Area)
    requires
        call_ensures(under_border, (area,), res),
        area.y + area.height <= u16::MAX,
    ensures
        res.x == area.x,
        res.width == area.width,
        res.y + res.height == area.y + area.height,
        area.height > 0 ==> res.height + 1 == area.height,
        area.height == 0 ==> res == area,
{
}

/// In an area with room to spare, what is known of a session gets a row for each of
/// its lines, the border the next one, and the output the rest.
pub proof fn law_preview_fills_its_area(
    area: Area,
    instance: &Instance,
    cached_output: &str,
    scroll_offset: u16,
    home: Option<&HomeDir>,
    main_home: Option<&HomeDir>,
    plan: PreviewPlan,
)
    requires
        call_ensures(
            Preview::render_with_cache,
            (area, instance, cached_output, scroll_offset, home, main_home, false),
            plan,
        ),
        area.x + area.width <= u16::MAX,
        area.y + area.height <= u16::MAX,
        area.height > plan.info->0.lines@.len(),
    ensures
        plan.info->0.area == (Area { height: plan.info->0.area.height, ..area }),
        plan.info->0.area.height == plan.info->0.lines@.len(),
        plan.info->0.area.height + plan.frame->0.area.height == area.height,
        plan.frame->0.area.y == area.y + plan.info->0.area.height,
        plan.inner.y == plan.frame->0.area.y + 1,
        plan.inner.height + 1 == plan.frame->0.area.height,
        plan.inner.x == area.x && plan.inner.width == area.width,
        plan.frame->0.indicator is Some <==> scroll_offset > 0 && instance.last_error is None
            && cached_output@.len() > 0 && output_lines(cached_output@) > plan.inner.height,
{
    let lines = plan.info->0.lines@;
    assert(line_views(lines).len() == lines.len());
    law_info_fits(
        *instance,
        shortened(instance.project_path@, value_of(home)),
        main_path(*instance, value_of(main_home)),
        true,
    );
    law_parts_fill_the_area(area, session_info_height(*instance));
}

} // verus!
