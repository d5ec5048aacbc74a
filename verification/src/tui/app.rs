//! The application: its state, how it starts, and what its keys do.
use std::path::PathBuf;
use tokio::sync::oneshot::Receiver;
use vstd::prelude::*;

use crate::clock::Instant;
use crate::session::TerminalMode;
use crate::text::{join, join3, lines, lines_of, same_text, string_text, texts};
use crate::tui::keys::{KeyCode, KeyEvent};
use crate::tui::update::{
    apply_check, brings_update, ended_status, info_after, mode_of, passing, poll_progress,
    status_after, status_view, try_recv, update_ended, update_mode, InstallMethod, TryRecv,
    UpdateCheck, UpdateInfo, UpdateMode, UpdateStatus,
};

verus! {

/// Which theme is shown.
pub struct ThemeChoice {
    pub name: String,
    /// Colours are taken from the terminal's palette.
    pub palette: bool,
}

/// The settings that the application itself reads and writes.
pub struct Config {
    /// The theme's name; empty if none was chosen.
    pub theme_name: String,
    pub palette: bool,
    pub has_seen_welcome: bool,
    pub last_seen_version: Option<String>,
    pub has_seen_custom_instruction_warning: bool,
}

/// The application.
pub struct App {
    pub should_quit: bool,
    pub theme: ThemeChoice,
    /// The screen has to be cleared before it is drawn again.
    pub needs_redraw: bool,
    pub update_info: Option<UpdateInfo>,
    pub update_rx: Option<Receiver<UpdateCheck>>,
    pub update_status: Option<UpdateStatus>,
    pub update_status_rx: Option<Receiver<Result<(), String>>>,
    /// The update bar was dismissed and stays away until the next start.
    pub update_bar_dismissed: bool,
    /// The terminal's events are being read.
    pub reading_events: bool,
    /// The terminal reports the mouse.
    pub mouse_captured: bool,
    /// The session whose cockpit is to be opened.
    pub pending_cockpit_open: Option<String>,
}

/// A path of the file system, whatever bytes it is made of.
#[verifier::external_type_specification]
#[verifier::external_body]
pub struct ExPathBuf(std::path::PathBuf);

/// `clone` of `std::path::PathBuf` gives the same path.
pub assume_specification[ <std::path::PathBuf as std::clone::Clone>::clone ](
    path: &std::path::PathBuf,
) -> (res: std::path::PathBuf)
    ensures
        res == *path,
;

/// What the home view wants done.
#[derive(Debug, PartialEq)]
pub enum Action {
    Quit,
    AttachSession(String),
    AttachTerminal(String, TerminalMode),
    /// Edit the file at this path.
    EditFile(PathBuf),
    StopSession(String),
    HibernateSession(String),
    SetTheme(String),
    SpawnUpdate(InstallMethod, String),
    SetTransientStatus(String),
    SendMessage(String, String),
    OpenCockpit(String),
}

impl Clone for Action {
    fn clone(&self) -> (res: Self)
        ensures
            res == *self,
    {
        match self {
            Action::Quit => Action::Quit,
            Action::AttachSession(id) => Action::AttachSession(id.clone()),
            Action::AttachTerminal(id, mode) => Action::AttachTerminal(id.clone(), *mode),
            Action::EditFile(path) => Action::EditFile(path.clone()),
            Action::StopSession(id) => Action::StopSession(id.clone()),
            Action::HibernateSession(id) => Action::HibernateSession(id.clone()),
            Action::SetTheme(name) => Action::SetTheme(name.clone()),
            Action::SpawnUpdate(method, version) => Action::SpawnUpdate(
                method.clone(),
                version.clone(),
            ),
            Action::SetTransientStatus(text) => Action::SetTransientStatus(text.clone()),
            Action::SendMessage(id, message) => Action::SendMessage(id.clone(), message.clone()),
            Action::OpenCockpit(id) => Action::OpenCockpit(id.clone()),
        }
    }
}

/// The dialog that greets the user.
pub enum StartupDialog {
    Nothing,
    NoAgents,
    Welcome,
    /// What is new since this version.
    Changelog(Option<String>),
}

/// The application at its start, and what is to be done for it.
pub struct Startup {
    pub app: App,
    /// The profile that is shown; all of them if there is none.
    pub active_profile: Option<String>,
    pub dialog: StartupDialog,
    /// The settings that are to be saved, if any.
    pub save: Option<Config>,
}

/// The last start was under another version than this.
pub open spec fn version_changed(last: Option<String>, current: Seq<char>) -> bool {
    string_text(last) != Some(current)
}

fn is_version(last: &Option<String>, current: &str) -> (res: bool)
    ensures
        res == !version_changed(*last, current@),
{
    match last {
        Some(last) => same_text(last.as_str(), current),
        None => false,
    }
}

fn copy_version(last: &Option<String>) -> (res: Option<String>)
    ensures
        res == *last,
{
    match last {
        Some(last) => Some(last.clone()),
        None => None,
    }
}

/// The version that was seen last, if it is another one than `current` and the
/// user is not new: the changelog is then shown.
pub fn check_version_change(config: &Config, current: &str) -> (res: Option<String>)
    ensures
        res == if config.has_seen_welcome && version_changed(config.last_seen_version, current@) {
            config.last_seen_version
        } else {
            None
        },
{
    if config.has_seen_welcome && !is_version(&config.last_seen_version, current) {
        copy_version(&config.last_seen_version)
    } else {
        None
    }
}

/// The theme that is shown where `name` is chosen.
pub open spec fn theme_or_default(name: Seq<char>) -> Seq<char> {
    if name.len() == 0 {
        "empire"@
    } else {
        name
    }
}

/// The dialog that greets the user. Where there are no agents, that goes before
/// all else; where a warning is about to be shown, nothing else is.
pub open spec fn greeting(
    any_agent: bool,
    suppress: bool,
    config: Config,
    current: Seq<char>,
) -> StartupDialog {
    if !any_agent {
        StartupDialog::NoAgents
    } else if suppress {
        StartupDialog::Nothing
    } else if !config.has_seen_welcome {
        StartupDialog::Welcome
    } else if version_changed(config.last_seen_version, current) {
        StartupDialog::Changelog(config.last_seen_version)
    } else {
        StartupDialog::Nothing
    }
}

/// `saved` is `config` with this version noted as seen.
pub open spec fn notes_version(saved: Config, config: Config, current: Seq<char>) -> bool {
    &&& saved.theme_name == config.theme_name
    &&& saved.palette == config.palette
    &&& saved.has_seen_welcome
    &&& string_text(saved.last_seen_version) == Some(current)
    &&& saved.has_seen_custom_instruction_warning == config.has_seen_custom_instruction_warning
}

/// A message of the given lines takes this many rows of `width` columns, by the
/// bytes of each line; an empty line takes one.
pub open spec fn visual_rows(lines: Seq<Seq<char>>, width: nat) -> nat
    decreases lines.len(),
{
    if lines.len() == 0 {
        0
    } else {
        visual_rows(lines.drop_last(), width) + line_rows(lines.last(), width)
    }
}

/// The rows that one line takes.
pub open spec fn line_rows(line: Seq<char>, width: nat) -> nat {
    let bytes = vstd::utf8::encode_utf8(line).len();
    if bytes == 0 {
        1
    } else {
        (bytes + width - 1) as nat / width
    }
}

/// How wide the warning dialog is.
pub const WARNING_WIDTH: u16 = 96;

/// How many columns of the warning dialog its text has.
pub const WARNING_TEXT_WIDTH: u16 = 92;

/// How high the warning dialog is: the rows of the message and seven more, but at
/// least 9 and at most 35.
pub open spec fn warning_height(message: Seq<char>) -> u16 {
    let rows = visual_rows(lines_of(message), WARNING_TEXT_WIDTH as nat);
    if rows + 7 < 9 {
        9
    } else if rows + 7 > 35 {
        35
    } else {
        (rows + 7) as u16
    }
}

/// The warning dialog has room for every row of a message that is not too long
/// for the screen, beside the seven rows of its border, margin and button.
pub proof fn law_warning_fits(message: Seq<char>)
    ensures
        9 <= warning_height(message) <= 35,
        visual_rows(lines_of(message), WARNING_TEXT_WIDTH as nat) <= 28 ==> visual_rows(
            lines_of(message),
            WARNING_TEXT_WIDTH as nat,
        ) + 7 <= warning_height(message),
        visual_rows(lines_of(message), WARNING_TEXT_WIDTH as nat) > 28 ==> warning_height(message)
            == 35,
{
}

/// The dialog that shows a warning.
pub struct WarningDialog {
    pub title: String,
    pub message: String,
    pub width: u16,
    pub height: u16,
}

/// One thing to be done to the dialogs of the home view.
pub enum DialogCommand {
    CloseWelcome,
    CloseChangelog,
    ShowWarning(WarningDialog),
}

fn rows_of_line(line: &str) -> (rows: u64)
    ensures
        rows == line_rows(line@, WARNING_TEXT_WIDTH as nat),
{
    let bytes = line.as_bytes().len() as u64;
    if bytes == 0 {
        1
    } else {
        (bytes - 1) / 92 + 1
    }
}

fn count_rows(message: &str) -> (rows: u128)
    ensures
        rows == visual_rows(lines_of(message@), WARNING_TEXT_WIDTH as nat),
{
    let all = lines(message);
    let ghost view = texts(all@);
    let mut rows: u128 = 0;
    let mut i: usize = 0;
    assert(view.take(0) =~= Seq::<Seq<char>>::empty());
    while i < all.len()
        invariant
            i <= all@.len(),
            view == texts(all@),
            rows == visual_rows(view.take(i as int), WARNING_TEXT_WIDTH as nat),
            rows <= i * 0x1_0000_0000_0000_0000,
        decreases all@.len() - i,
    {
        proof {
            assert(view.take(i + 1).drop_last() =~= view.take(i as int));
            assert(view.take(i + 1).last() == all@[i as int]@);
            assert(i * 0x1_0000_0000_0000_0000 + 0x1_0000_0000_0000_0000 <= u128::MAX) by (
            nonlinear_arith)
                requires
                    i < 0xffff_ffff_ffff_ffff,
            ;
        }
        rows = rows + rows_of_line(all[i].as_str()) as u128;
        i = i + 1;
    }
    assert(view.take(view.len() as int) =~= view);
    rows
}

impl App {
    /// The application at its start.
    pub fn new(
        profile: &str,
        any_agent: bool,
        suppress_first_run_dialogs: bool,
        config: Config,
        current_version: &str,
    ) -> (res: Startup)
        ensures
            string_text(res.active_profile) == if profile@.len() == 0 {
                None
            } else {
                Some(profile@)
            },
            res.dialog == greeting(
                any_agent,
                suppress_first_run_dialogs,
                config,
                current_version@,
            ),
            res.save is Some <==> res.dialog is Welcome || res.dialog is Changelog,
            res.save matches Some(saved) ==> notes_version(saved, config, current_version@),
            res.app.theme.name@ == theme_or_default(config.theme_name@),
            res.app.theme.palette == config.palette,
            !res.app.should_quit,
            res.app.needs_redraw,
            res.app.update_info is None,
            res.app.update_rx is None,
            res.app.update_status is None,
            res.app.update_status_rx is None,
            !res.app.update_bar_dismissed,
            res.app.reading_events,
            res.app.mouse_captured,
            res.app.pending_cockpit_open is None,
    {
        let active_profile = if profile.unicode_len() == 0 {
            None
        } else {
            Some(profile.to_owned())
        };
        let name = if config.theme_name.as_str().unicode_len() == 0 {
            "empire".to_owned()
        } else {
            config.theme_name.clone()
        };
        let theme = ThemeChoice { name, palette: config.palette };
        let app = App {
            should_quit: false,
            theme,
            needs_redraw: true,
            update_info: None,
            update_rx: None,
            update_status: None,
            update_status_rx: None,
            update_bar_dismissed: false,
            reading_events: true,
            mouse_captured: true,
            pending_cockpit_open: None,
        };
        let dialog = if !any_agent {
            StartupDialog::NoAgents
        } else if suppress_first_run_dialogs {
            StartupDialog::Nothing
        } else if !config.has_seen_welcome {
            StartupDialog::Welcome
        } else if !is_version(&config.last_seen_version, current_version) {
            StartupDialog::Changelog(copy_version(&config.last_seen_version))
        } else {
            StartupDialog::Nothing
        };
        let greets = match &dialog {
            StartupDialog::Welcome => true,
            StartupDialog::Changelog(_) => true,
            _ => false,
        };
        let save = if greets {
            let mut saved = config;
            saved.has_seen_welcome = true;
            saved.last_seen_version = Some(current_version.to_owned());
            Some(saved)
        } else {
            None
        };
        Startup { app, active_profile, dialog, save }
    }

    /// Shows a warning at the start, in a dialog sized to fit it. The welcome and
    /// the changelog make way for it.
    pub fn show_startup_warning(message: &str) -> (res: Vec<DialogCommand>)
        ensures
            res@.len() == 3,
            res@[0] is CloseWelcome,
            res@[1] is CloseChangelog,
            res@[2] is ShowWarning,
            ({
                let dialog = res@[2]->ShowWarning_0;
                &&& dialog.title@ == "Warning"@
                &&& dialog.message@ == message@
                &&& dialog.width == WARNING_WIDTH
                &&& dialog.width == 96
                &&& 9 <= dialog.height <= 35
                &&& ({
                    let rows = visual_rows(lines_of(message@), 92);
                    &&& 2 <= rows <= 28 ==> dialog.height == rows + 7
                    &&& rows < 2 ==> dialog.height == 9
                    &&& rows > 28 ==> dialog.height == 35
                })
                &&& dialog.height == warning_height(message@)
            }),
    {
        let rows = count_rows(message);
        let height: u16 = if rows < 2 {
            9
        } else if rows > 28 {
            35
        } else {
            rows as u16 + 7
        };
        let dialog = WarningDialog {
            title: "Warning".to_owned(),
            message: message.to_owned(),
            width: WARNING_WIDTH,
            height,
        };
        let mut res: Vec<DialogCommand> = Vec::new();
        res.push(DialogCommand::CloseWelcome);
        res.push(DialogCommand::CloseChangelog);
        res.push(DialogCommand::ShowWarning(dialog));
        res
    }

    /// Chooses a theme; `palette` is what the settings say of colours, if they
    /// could be read.
    pub fn set_theme(&mut self, name: &str, palette: Option<bool>)
        ensures
            final(self).theme.name@ == name@,
            final(self).theme.palette == (palette == Some(true)),
            *final(self) == (App {
                theme: final(self).theme,
                needs_redraw: true,
                ..*old(self)
            }),
    {
        let palette = match palette {
            Some(palette) => palette,
            None => false,
        };
        self.theme = ThemeChoice { name: name.to_owned(), palette };
        self.needs_redraw = true;
    }

    /// Whether the terminal has to be told to report the mouse or to stop, and
    /// which: while text can be selected it does not report it.
    pub fn mouse_change(&self, wants_text_selection: bool) -> (res: Option<bool>)
        ensures
            res == if self.mouse_captured == !wants_text_selection {
                None
            } else {
                Some(!wants_text_selection)
            },
    {
        let desired = !wants_text_selection;
        if desired == self.mouse_captured {
            None
        } else {
            Some(desired)
        }
    }

    /// Takes note that the terminal was told as `mouse_change` says.
    pub fn sync_mouse_capture(&mut self, wants_text_selection: bool)
        ensures
            *final(self) == (App { mouse_captured: !wants_text_selection, ..*old(self) }),
    {
        self.mouse_captured = !wants_text_selection;
    }

    /// Takes note that the terminal was handed to another program: it reports no
    /// mouse, and its events are not read here.
    pub fn leave_terminal(&mut self)
        ensures
            *final(self) == (App { mouse_captured: false, reading_events: false, ..*old(self) }),
    {
        self.mouse_captured = false;
        self.reading_events = false;
    }

    /// Takes note that the terminal is ours again.
    pub fn retake_terminal(&mut self)
        ensures
            *final(self) == (App { reading_events: true, ..*old(self) }),
    {
        self.reading_events = true;
    }

    /// Whether the screen has to be cleared before it is drawn; it is then taken
    /// as cleared.
    pub fn begin_frame(&mut self) -> (clear: bool)
        ensures
            clear == old(self).needs_redraw,
            *final(self) == (App { needs_redraw: false, ..*old(self) }),
    {
        let clear = self.needs_redraw;
        self.needs_redraw = false;
        clear
    }

    /// The status line to show, once one that has had its time was taken away.
    pub fn render(&mut self, now: Instant) -> (text: Option<&String>)
        ensures
            final(self).update_status == match old(self).update_status {
                Some(status) => if status@.expired(now) {
                    None
                } else {
                    Some(status)
                },
                None => None,
            },
            text == match final(self).update_status {
                Some(status) => Some(&status.text),
                None => None,
            },
            *final(self) == (App { update_status: final(self).update_status, ..*old(self) }),
    {
        let expired = match &self.update_status {
            Some(status) => status.is_expired(now),
            None => false,
        };
        if expired {
            self.update_status = None;
        }
        match &self.update_status {
            Some(status) => Some(&status.text),
            None => None,
        }
    }

    /// Shows `text` for a while.
    pub fn show_transient(&mut self, text: String, now: Instant)
        ensures
            status_view(final(self).update_status) == Some(passing(text@, now)),
            *final(self) == (App { update_status: final(self).update_status, ..*old(self) }),
    {
        self.update_status = Some(UpdateStatus::transient(text, now));
    }

    /// What is known of an update after `found` came: if the bar was dismissed,
    /// an update that was just found is not shown.
    pub open spec fn info_shown(self, found: TryRecv<UpdateCheck>) -> Option<UpdateInfo> {
        if brings_update(found) && self.update_bar_dismissed {
            None
        } else {
            info_after(found, self.update_info)
        }
    }

    /// Takes in what came of the search for an update, and says whether it is to
    /// be shown and was not before.
    pub fn take_check(&mut self, found: TryRecv<UpdateCheck>) -> (news: bool)
        ensures
            final(self).update_info == old(self).info_shown(found),
            news == (brings_update(found) && !old(self).update_bar_dismissed),
            *final(self) == (App { update_info: final(self).update_info, ..*old(self) }),
    {
        let (info, received) = apply_check(found, self.update_info.take());
        self.update_info = info;
        if received && self.update_bar_dismissed {
            self.update_info = None;
            false
        } else {
            received
        }
    }

    /// Looks whether the search for an update has ended, and says whether an
    /// update is to be shown that was not before.
    ///
    /// What has come rests with the search; what is made of it, `take_check`
    /// says. While nothing has come, the receiver is kept.
    pub fn poll_update_check(&mut self) -> (news: bool)
        ensures
            old(self).update_rx is None ==> !news && *final(self) == *old(self),
            old(self).update_rx is Some ==> exists|found: TryRecv<UpdateCheck>|
                {
                    &&& final(self).update_info == #[trigger] old(self).info_shown(found)
                    &&& news == (brings_update(found) && !old(self).update_bar_dismissed)
                    &&& final(self).update_rx == if found is Empty {
                        old(self).update_rx
                    } else {
                        None
                    }
                },
            *final(self) == (App {
                update_info: final(self).update_info,
                update_rx: final(self).update_rx,
                ..*old(self)
            }),
    {
        match self.update_rx.take() {
            Some(rx) => {
                let mut rx = rx;
                let found = try_recv(&mut rx);
                let open = match &found {
                    TryRecv::Empty => true,
                    _ => false,
                };
                let ghost came = found;
                let news = self.take_check(found);
                if open {
                    self.update_rx = Some(rx);
                }
                assert(self.update_info == old(self).info_shown(came));
                news
            },
            None => false,
        }
    }

    /// Looks whether an update that runs in the background has ended, and says
    /// whether the status line changed.
    ///
    /// What has come rests with the update; what is made of it, `apply_progress`
    /// says. While nothing has come, all stays as it is.
    pub fn poll_update_status(&mut self, now: Instant) -> (changed: bool)
        ensures
            old(self).update_status_rx is None ==> !changed && *final(self) == *old(self),
            old(self).update_status_rx is Some ==> exists|found: TryRecv<Result<(), String>>|
                {
                    &&& status_view(final(self).update_status) == #[trigger] status_after(
                        found,
                        status_view(old(self).update_status),
                        now,
                    )
                    &&& changed == !(found is Empty)
                    &&& found is Empty ==> *final(self) == *old(self)
                    &&& !(found is Empty) ==> final(self).update_status_rx is None
                },
            *final(self) == (App {
                update_status: final(self).update_status,
                update_status_rx: final(self).update_status_rx,
                ..*old(self)
            }),
    {
        let (status, rx, changed) = poll_progress(
            self.update_status_rx.take(),
            self.update_status.take(),
            now,
        );
        self.update_status = status;
        self.update_status_rx = rx;
        changed
    }

    /// Starts an update: says where it runs, and shows that it does.
    pub fn spawn_update(
        &mut self,
        method: &InstallMethod,
        version: &str,
        parent_writable: bool,
        now: Instant,
    ) -> (mode: UpdateMode)
        ensures
            mode == mode_of(*method, parent_writable),
            status_view(final(self).update_status) == Some(
                passing("updating to v"@ + version@ + "…"@, now),
            ),
            *final(self) == (App { update_status: final(self).update_status, ..*old(self) }),
    {
        self.update_status = Some(
            UpdateStatus::transient(join3("updating to v", version, "…"), now),
        );
        update_mode(method, parent_writable)
    }

    /// Keeps the receiver of an update that runs in the background.
    pub fn watch_update(&mut self, rx: Receiver<Result<(), String>>)
        ensures
            *final(self) == (App { update_status_rx: Some(rx), ..*old(self) }),
    {
        self.update_status_rx = Some(rx);
    }

    /// Shows how an update that ran in the foreground has ended.
    pub fn finish_update(&mut self, result: Result<(), String>, now: Instant)
        ensures
            status_view(final(self).update_status) == Some(update_ended(result, now)),
            *final(self) == (App { update_status: final(self).update_status, ..*old(self) }),
    {
        self.update_status = Some(ended_status(result, now));
    }

    /// Something of an update is on the screen.
    pub open spec fn shows_update(self) -> bool {
        self.update_info is Some || self.update_status is Some
    }

    /// Handles the keys that work everywhere, and says what is left to do.
    pub fn handle_key(&mut self, key: &KeyEvent, home: HomeFacts) -> (res: KeyOutcome)
        ensures
            res == key_outcome(*key, home, old(self).shows_update()),
            *final(self) == match res {
                KeyOutcome::Quit => (App { should_quit: true, ..*old(self) }),
                KeyOutcome::Dismissed => (App {
                    update_info: None,
                    update_status: None,
                    update_bar_dismissed: true,
                    needs_redraw: true,
                    ..*old(self)
                }),
                _ => *old(self),
            },
            key.code == KeyCode::Char('c') && key.modifiers.control && !key.modifiers.shift
                && !key.modifiers.alt && !key.modifiers.other ==> {
                &&& home.creating_stub_selected ==> res == KeyOutcome::CancelCreation
                &&& !home.creating_stub_selected && home.creation_pending && !home.has_dialog
                    ==> res == KeyOutcome::ConfirmQuit
                &&& !home.creating_stub_selected && (!home.creation_pending || home.has_dialog)
                    ==> res == KeyOutcome::Quit && final(self).should_quit
            },
    {
        match key.code {
            KeyCode::Char('c') => {
                if key.modifiers.is_control() {
                    if home.creating_stub_selected {
                        return KeyOutcome::CancelCreation;
                    }
                    if home.creation_pending && !home.has_dialog {
                        return KeyOutcome::ConfirmQuit;
                    }
                    self.should_quit = true;
                    return KeyOutcome::Quit;
                }
            },
            KeyCode::Char('q') => {
                if !home.has_dialog {
                    if home.creation_pending {
                        return KeyOutcome::ConfirmQuit;
                    }
                    self.should_quit = true;
                    return KeyOutcome::Quit;
                }
            },
            KeyCode::Char('x') => {
                if key.modifiers.is_control() && (self.update_info.is_some()
                    || self.update_status.is_some()) && !home.has_dialog {
                    self.update_info = None;
                    self.update_status = None;
                    self.update_bar_dismissed = true;
                    self.needs_redraw = true;
                    return KeyOutcome::Dismissed;
                }
            },
            _ => {},
        }
        KeyOutcome::PassOn
    }

    /// The session whose cockpit is to be opened now, if any; it is then taken
    /// as opened.
    pub fn take_cockpit(&mut self) -> (res: Option<String>)
        ensures
            res == old(self).pending_cockpit_open,
            *final(self) == (App { pending_cockpit_open: None, ..*old(self) }),
    {
        self.pending_cockpit_open.take()
    }

    /// Lends the terminal's events to the cockpit, and says whether there were
    /// any to lend: without them it does not open.
    pub fn open_cockpit_view(&mut self) -> (opens: bool)
        ensures
            opens == old(self).reading_events,
            *final(self) == (App { reading_events: false, ..*old(self) }),
    {
        let opens = self.reading_events;
        self.reading_events = false;
        opens
    }

    /// Takes the terminal's events back from the cockpit, and shows why it
    /// closed if it failed.
    pub fn run_cockpit_view(&mut self, result: Result<(), String>, now: Instant)
        ensures
            status_view(final(self).update_status) == match result {
                Ok(_) => status_view(old(self).update_status),
                Err(e) => Some(passing("cockpit closed: "@ + e@, now)),
            },
            *final(self) == (App {
                reading_events: true,
                needs_redraw: true,
                update_status: final(self).update_status,
                ..*old(self)
            }),
    {
        self.reading_events = true;
        self.needs_redraw = true;
        if let Err(e) = result {
            self.update_status = Some(
                UpdateStatus::transient(join("cockpit closed: ", e.as_str()), now),
            );
        }
    }
}

/// What the home view says of itself before a key is handled.
#[derive(Clone, Copy, Debug, PartialEq, Eq, Structural)]
pub struct HomeFacts {
    /// The session being created is selected.
    pub creating_stub_selected: bool,
    /// A session is being created.
    pub creation_pending: bool,
    pub has_dialog: bool,
}

/// What is left to do after a key.
#[derive(Clone, Copy, Debug, PartialEq, Eq, Structural)]
pub enum KeyOutcome {
    /// Cancel the session being created.
    CancelCreation,
    /// Ask whether to quit while a session is being created.
    ConfirmQuit,
    Quit,
    /// The update bar was dismissed.
    Dismissed,
    /// The home view handles the key.
    PassOn,
}

/// What a key does: Ctrl+C and `q` quit, unless a session is being created;
/// Ctrl+X dismisses what is shown of an update.
pub open spec fn key_outcome(key: KeyEvent, home: HomeFacts, shows_update: bool) -> KeyOutcome {
    let control = key.modifiers.only_control();
    if key.code == KeyCode::Char('c') && control {
        if home.creating_stub_selected {
            KeyOutcome::CancelCreation
        } else if home.creation_pending && !home.has_dialog {
            KeyOutcome::ConfirmQuit
        } else {
            KeyOutcome::Quit
        }
    } else if key.code == KeyCode::Char('q') && !home.has_dialog {
        if home.creation_pending {
            KeyOutcome::ConfirmQuit
        } else {
            KeyOutcome::Quit
        }
    } else if key.code == KeyCode::Char('x') && control && shows_update && !home.has_dialog {
        KeyOutcome::Dismissed
    } else {
        KeyOutcome::PassOn
    }
}

/// While a session is being created and no dialog is open, no key quits without
/// asking.
pub proof fn law_no_quit_during_creation(key: KeyEvent, home: HomeFacts, shows_update: bool)
    requires
        home.creation_pending,
        !home.has_dialog,
    ensures
        key_outcome(key, home, shows_update) != KeyOutcome::Quit,
{
}

/// With a dialog open, no key but Ctrl+C does anything here: the rest is input
/// for the dialog.
pub proof fn law_dialog_gets_its_keys(key: KeyEvent, home: HomeFacts, shows_update: bool)
    requires
        home.has_dialog,
        !(key.code == KeyCode::Char('c') && key.modifiers.only_control()),
    ensures
        key_outcome(key, home, shows_update) == KeyOutcome::PassOn,
{
}

/// Once the update bar was dismissed and nothing is known of an update, no
/// search brings it back.
pub proof fn law_dismissed_bar_stays_away(app: App, found: TryRecv<UpdateCheck>)
    requires
        app.update_bar_dismissed,
        app.update_info is None,
    ensures
        app.info_shown(found) is None,
{
}

/// Coming back to the terminal leaves the mouse reported exactly when no text
/// can be selected, and the events read.
pub proof fn law_terminal_is_restored(
    before: App,
    left: App,
    back: App,
    synced: App,
    wants_text_selection: bool,
)
    requires
        left == (App { mouse_captured: false, reading_events: false, ..before }),
        back == (App { reading_events: true, ..left }),
        synced == (App { mouse_captured: !wants_text_selection, ..back }),
    ensures
        synced.reading_events,
        synced.mouse_captured == !wants_text_selection,
        synced.should_quit == before.should_quit,
        synced.update_status == before.update_status,
{
}

/// Ctrl+C is never passed on. It cancels the session being created where that is
/// selected, asks before it quits where one is being created and no dialog is
/// open, and quits everywhere else.
pub proof fn law_control_c_always_acts(key: KeyEvent, home: HomeFacts, shows_update: bool)
    requires
        key.code == KeyCode::Char('c'),
        key.modifiers.control && !key.modifiers.shift && !key.modifiers.alt && !key.modifiers.other,
    ensures
        key_outcome(key, home, shows_update) != KeyOutcome::PassOn,
        home.creating_stub_selected ==> key_outcome(key, home, shows_update)
            == KeyOutcome::CancelCreation,
        !home.creating_stub_selected && home.creation_pending && !home.has_dialog ==> key_outcome(
            key,
            home,
            shows_update,
        ) == KeyOutcome::ConfirmQuit,
        !home.creating_stub_selected && !(home.creation_pending && !home.has_dialog)
            ==> key_outcome(key, home, shows_update) == KeyOutcome::Quit,
{
}

/// `q` without a dialog quits, or asks first while a session is being created;
/// with a dialog open it is passed on. Modifiers make no difference.
pub proof fn law_q_quits_outside_dialogs(key: KeyEvent, home: HomeFacts, shows_update: bool)
    requires
        key.code == KeyCode::Char('q'),
    ensures
        home.has_dialog ==> key_outcome(key, home, shows_update) == KeyOutcome::PassOn,
        !home.has_dialog && home.creation_pending ==> key_outcome(key, home, shows_update)
            == KeyOutcome::ConfirmQuit,
        !home.has_dialog && !home.creation_pending ==> key_outcome(key, home, shows_update)
            == KeyOutcome::Quit,
{
}

/// Ctrl+X dismisses the update bar exactly where something of an update is shown
/// and no dialog is open; without control, or with more than control, it is
/// passed on.
pub proof fn law_control_x_dismisses_the_bar(key: KeyEvent, home: HomeFacts, shows_update: bool)
    requires
        key.code == KeyCode::Char('x'),
    ensures
        key_outcome(key, home, shows_update) == KeyOutcome::Dismissed || key_outcome(
            key,
            home,
            shows_update,
        ) == KeyOutcome::PassOn,
        key_outcome(key, home, shows_update) == KeyOutcome::Dismissed <==> key.modifiers.control
            && !key.modifiers.shift && !key.modifiers.alt && !key.modifiers.other && shows_update
            && !home.has_dialog,
{
}

/// Every other key is left to the home view: all that are not `c`, `q` or `x`,
/// and `c` unless control alone is held down with it.
pub proof fn law_other_keys_are_passed_on(key: KeyEvent, home: HomeFacts, shows_update: bool)
    ensures
        key.code != KeyCode::Char('c') && key.code != KeyCode::Char('q') && key.code
            != KeyCode::Char('x') ==> key_outcome(key, home, shows_update) == KeyOutcome::PassOn,
        key.code == KeyCode::Char('c') && (!key.modifiers.control || key.modifiers.shift
            || key.modifiers.alt || key.modifiers.other) ==> key_outcome(key, home, shows_update)
            == KeyOutcome::PassOn,
{
}

/// Something of an update is shown exactly if one is known or the status line
/// says something.
pub proof fn law_update_is_shown(app: App)
    ensures
        app.update_info is Some ==> app.shows_update(),
        app.update_status is Some ==> app.shows_update(),
        app.update_info is None && app.update_status is None ==> !app.shows_update(),
{
}

/// Whoever has no agent is told so. Otherwise a warning lets nothing else be
/// shown, a new user is welcomed, and a user who saw another version last, or
/// none, is shown the changelog since then; all others are shown nothing.
pub proof fn law_greeting_fits_the_user(
    any_agent: bool,
    suppress: bool,
    config: Config,
    current: Seq<char>,
)
    ensures
        greeting(any_agent, suppress, config, current) is NoAgents <==> !any_agent,
        any_agent && suppress ==> greeting(any_agent, suppress, config, current) is Nothing,
        greeting(any_agent, suppress, config, current) is Welcome <==> any_agent && !suppress
            && !config.has_seen_welcome,
        any_agent && !suppress && config.has_seen_welcome && config.last_seen_version is None
            ==> greeting(any_agent, suppress, config, current) == StartupDialog::Changelog(None),
        any_agent && !suppress && config.has_seen_welcome && config.last_seen_version is Some
            && config.last_seen_version->0@ != current ==> greeting(
            any_agent,
            suppress,
            config,
            current,
        ) == StartupDialog::Changelog(config.last_seen_version),
        any_agent && !suppress && config.has_seen_welcome && config.last_seen_version is Some
            && config.last_seen_version->0@ == current ==> greeting(
            any_agent,
            suppress,
            config,
            current,
        ) is Nothing,
{
}

/// The version counts as changed exactly if another one was seen last, or none.
pub proof fn law_version_is_compared_by_its_text(last: Option<String>, current: Seq<char>)
    ensures
        last is None ==> version_changed(last, current),
        last matches Some(seen) ==> (version_changed(last, current) <==> seen@ != current),
{
}

/// Whoever was greeted is not greeted again under the same version, and nothing
/// else of the settings changes.
pub proof fn law_greeted_once(config: Config, saved: Config, current: Seq<char>)
    requires
        notes_version(saved, config, current),
    ensures
        greeting(true, false, saved, current) is Nothing,
        saved.has_seen_welcome,
        saved.last_seen_version is Some && saved.last_seen_version->0@ == current,
        saved.theme_name == config.theme_name,
        saved.palette == config.palette,
        saved.has_seen_custom_instruction_warning == config.has_seen_custom_instruction_warning,
{
}

/// The theme is the one chosen, and where none was chosen the usual one.
pub proof fn law_chosen_theme_is_shown(name: Seq<char>)
    ensures
        name.len() > 0 ==> theme_or_default(name) == name,
        name.len() == 0 ==> theme_or_default(name) == "empire"@,
{
}

/// What is shown of an update is what the search found, unless the bar was
/// dismissed; a search that found none leaves what was shown.
pub proof fn law_found_update_is_shown(
    app: App,
    info: UpdateInfo,
    why: String,
    found: TryRecv<UpdateCheck>,
)
    ensures
        info.available && !app.update_bar_dismissed ==> app.info_shown(TryRecv::Value(Ok(info)))
            == Some(info),
        info.available && app.update_bar_dismissed ==> app.info_shown(TryRecv::Value(Ok(info))) is None,
        !info.available ==> app.info_shown(TryRecv::Value(Ok(info))) == app.update_info,
        app.info_shown(TryRecv::Value(Err(why))) == app.update_info,
        found is Empty || found is Closed ==> app.info_shown(found) == app.update_info,
{
}

/// A line takes just as many rows as its bytes need, and an empty one takes one.
pub proof fn law_line_takes_the_rows_it_needs(line: Seq<char>, width: nat)
    requires
        width > 0,
    ensures
        ({
            let bytes = vstd::utf8::encode_utf8(line).len();
            let rows = line_rows(line, width);
            &&& rows >= 1
            &&& bytes <= rows * width
            &&& bytes > 0 ==> (rows - 1) * width < bytes
            &&& bytes == 0 ==> rows == 1
        }),
{
    let bytes = vstd::utf8::encode_utf8(line).len();
    if bytes > 0 {
        let rows = line_rows(line, width);
        let sum = (bytes + width - 1) as nat;
        vstd::arithmetic::div_mod::lemma_fundamental_div_mod(sum as int, width as int);
        vstd::arithmetic::div_mod::lemma_mod_bound(sum as int, width as int);
        assert(width * rows == rows * width) by (nonlinear_arith);
        assert((rows - 1) * width == rows * width - width) by (nonlinear_arith);
        assert(rows >= 1) by (nonlinear_arith)
            requires
                bytes <= rows * width,
                bytes > 0,
        ;
    }
}

/// Lines take their rows one after another: a message takes the rows of its
/// parts together, and a single line its own.
pub proof fn law_rows_add_up(
    first: Seq<Seq<char>>,
    second: Seq<Seq<char>>,
    line: Seq<char>,
    width: nat,
)
    ensures
        visual_rows(first + second, width) == visual_rows(first, width) + visual_rows(second, width),
        visual_rows(seq![line], width) == line_rows(line, width),
    decreases second.len(),
{
    reveal_with_fuel(visual_rows, 2);
    assert(seq![line].drop_last() =~= Seq::<Seq<char>>::empty());
    if second.len() > 0 {
        law_rows_add_up(first, second.drop_last(), line, width);
        assert((first + second).drop_last() =~= first + second.drop_last());
    } else {
        assert(first + second =~= first);
    }
}

} // verus!
