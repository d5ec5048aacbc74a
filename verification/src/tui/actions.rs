//! What the application does to sessions.
//!
//! Work on a session goes back and forth: the application says what is to be
//! done, the caller does it and reports what came of it, and the application
//! says what follows.
use std::path::PathBuf;
use vstd::prelude::*;

use crate::clock::Instant;
use crate::session::{Instance, Status, TerminalMode};
use crate::text::{join, join3};
use crate::tui::app::{Action, App};
use crate::tui::update::{passing, status_view, InstallMethod, UpdateStatus};

verus! {

/// One thing to be done to the list of sessions. Each names the session by its
/// id.
pub enum HomeCommand {
    SetStatus(String, Status),
    SetError(String, Option<String>),
    /// Stop the session's processes, and report what came of it.
    Stop(String),
    /// Hibernate the session, and report what came of it.
    Hibernate(String),
    /// Start the session again, and report what came of it.
    Restart(String),
    /// Look anew which sessions the multiplexer has.
    RefreshSessionCache,
    /// Read the sessions from disk.
    Reload,
    /// Write the sessions to disk.
    Save,
    StampLastAccessed(String),
    Select(String),
    /// Draw the screen.
    Draw,
    SendMessage(String, String),
}

/// How a session is put to rest.
#[derive(Clone, Copy, Debug, PartialEq, Eq, Structural)]
pub enum Rest {
    Stop,
    Hibernate,
}

impl Rest {
    /// The status of a session at rest.
    pub open spec fn status(self) -> Status {
        match self {
            Rest::Stop => Status::Stopped,
            Rest::Hibernate => Status::Hibernated,
        }
    }

    /// The command that puts a session to rest.
    pub open spec fn command(self, id: String) -> HomeCommand {
        match self {
            Rest::Stop => HomeCommand::Stop(id),
            Rest::Hibernate => HomeCommand::Hibernate(id),
        }
    }

    fn rest_status(self) -> (res: Status)
        ensures
            res == self.status(),
    {
        match self {
            Rest::Stop => Status::Stopped,
            Rest::Hibernate => Status::Hibernated,
        }
    }
}

/// Puts a session to rest: its status shows it at once, since the processes may
/// take a while. A session that does not exist is left alone.
pub fn begin_rest(rest: Rest, id: &String, present: bool) -> (res: Vec<HomeCommand>)
    ensures
        res@ == if present {
            seq![HomeCommand::SetStatus(*id, rest.status()), rest.command(*id)]
        } else {
            Seq::empty()
        },
{
    let mut res: Vec<HomeCommand> = Vec::new();
    if present {
        res.push(HomeCommand::SetStatus(id.clone(), rest.rest_status()));
        match rest {
            Rest::Stop => {
                res.push(HomeCommand::Stop(id.clone()));
            },
            Rest::Hibernate => {
                res.push(HomeCommand::Hibernate(id.clone()));
            },
        }
    }
    assert(res@ =~= if present {
        seq![HomeCommand::SetStatus(*id, rest.status()), rest.command(*id)]
    } else {
        Seq::empty()
    });
    res
}

/// What follows putting a session to rest.
pub open spec fn rest_outcome(rest: Rest, id: String, result: Result<(), String>) -> Seq<
    HomeCommand,
> {
    match result {
        Ok(_) => seq![
            HomeCommand::RefreshSessionCache,
            HomeCommand::Reload,
            HomeCommand::SetStatus(id, rest.status()),
            HomeCommand::Save,
        ],
        Err(e) => seq![
            HomeCommand::SetError(id, Some(e)),
            HomeCommand::SetStatus(id, Status::Error),
            HomeCommand::Save,
        ],
    }
}

/// What follows putting a session to rest: its new status is written down, or
/// why it failed.
pub fn end_rest(rest: Rest, id: &String, result: Result<(), String>) -> (res: Vec<HomeCommand>)
    ensures
        res@ == rest_outcome(rest, *id, result),
{
    let mut res: Vec<HomeCommand> = Vec::new();
    let ghost r = result;
    match result {
        Ok(_) => {
            res.push(HomeCommand::RefreshSessionCache);
            res.push(HomeCommand::Reload);
            res.push(HomeCommand::SetStatus(id.clone(), rest.rest_status()));
            res.push(HomeCommand::Save);
        },
        Err(e) => {
            res.push(HomeCommand::SetError(id.clone(), Some(e)));
            res.push(HomeCommand::SetStatus(id.clone(), Status::Error));
            res.push(HomeCommand::Save);
        },
    }
    assert(res@ =~= rest_outcome(rest, *id, r));
    res
}

/// The status that a session is known to have after these commands: the one set
/// last, unless the sessions were read from disk since.
pub open spec fn known_status(commands: Seq<HomeCommand>, id: String) -> Option<Status>
    decreases commands.len(),
{
    if commands.len() == 0 {
        None
    } else {
        match commands.last() {
            HomeCommand::SetStatus(other, status) => if other == id {
                Some(status)
            } else {
                known_status(commands.drop_last(), id)
            },
            HomeCommand::Reload => None,
            _ => known_status(commands.drop_last(), id),
        }
    }
}

/// What is written down of a session put to rest is that it rests, though the
/// sessions were read from disk in between; where it failed, that it is in
/// error.
pub proof fn law_rest_is_written_down(rest: Rest, id: String, result: Result<(), String>)
    ensures
        rest_outcome(rest, id, result).last() is Save,
        known_status(rest_outcome(rest, id, result), id) == Some(
            if result is Ok {
                rest.status()
            } else {
                Status::Error
            },
        ),
{
    let commands = rest_outcome(rest, id, result);
    reveal_with_fuel(known_status, 3);
    assert(commands.drop_last().last() is SetStatus);
}

/// What follows hibernating a number of sessions on their own: those that are
/// still there and not in error are marked again.
pub open spec fn restamped(ids: Seq<String>, statuses: Seq<Option<Status>>) -> Seq<HomeCommand>
    decreases ids.len(),
{
    if ids.len() == 0 {
        Seq::empty()
    } else {
        let before = restamped(ids.drop_last(), statuses);
        let found = statuses[ids.len() - 1];
        if found is Some && found->0 != Status::Error {
            before.push(HomeCommand::SetStatus(ids.last(), Status::Hibernated))
        } else {
            before
        }
    }
}

/// What follows an attempt to hibernate a session on its own: where it failed,
/// the session is in error.
pub fn auto_hibernated(id: &String, failed: bool) -> (res: Vec<HomeCommand>)
    ensures
        res@ == if failed {
            seq![HomeCommand::SetStatus(*id, Status::Error)]
        } else {
            Seq::empty()
        },
{
    let mut res: Vec<HomeCommand> = Vec::new();
    if failed {
        res.push(HomeCommand::SetStatus(id.clone(), Status::Error));
    }
    assert(res@ =~= if failed {
        seq![HomeCommand::SetStatus(*id, Status::Error)]
    } else {
        Seq::empty()
    });
    res
}

/// What follows hibernating sessions on their own, before they are marked again:
/// they are read from disk, if there were any.
pub fn reread_hibernated(ids: &Vec<String>) -> (res: Vec<HomeCommand>)
    ensures
        res@ == if ids@.len() > 0 {
            seq![HomeCommand::RefreshSessionCache, HomeCommand::Reload]
        } else {
            Seq::empty()
        },
{
    let mut res: Vec<HomeCommand> = Vec::new();
    if ids.len() > 0 {
        res.push(HomeCommand::RefreshSessionCache);
        res.push(HomeCommand::Reload);
    }
    assert(res@ =~= if ids@.len() > 0 {
        seq![HomeCommand::RefreshSessionCache, HomeCommand::Reload]
    } else {
        Seq::empty()
    });
    res
}

/// Marks the sessions that were hibernated on their own again, after the
/// sessions were read from disk; `statuses` says what was read of each, if it is
/// still there. Then they are written down.
pub fn restamp_hibernated(ids: &Vec<String>, statuses: &Vec<Option<Status>>) -> (res: Vec<
    HomeCommand,
>)
    requires
        statuses@.len() == ids@.len(),
    ensures
        res@ == restamped(ids@, statuses@).push(HomeCommand::Save),
        res@.last() is Save,
        forall|i: int|
            0 <= i < ids@.len() && (#[trigger] statuses@[i]) is Some && statuses@[i]->0
                != Status::Error ==> {
                &&& res@.drop_last().contains(HomeCommand::SetStatus(ids@[i], Status::Hibernated))
                &&& known_status(res@, ids@[i]) == Some(Status::Hibernated)
            },
        forall|k: int|
            0 <= k < res@.len() - 1 ==> marks_a_live_session(#[trigger] res@[k], ids@, statuses@),
{
    let mut res: Vec<HomeCommand> = Vec::new();
    let mut i: usize = 0;
    assert(ids@.take(0) =~= Seq::<String>::empty());
    while i < ids.len()
        invariant
            i <= ids@.len(),
            statuses@.len() == ids@.len(),
            res@ == restamped(ids@.take(i as int), statuses@),
        decreases ids@.len() - i,
    {
        proof {
            assert(ids@.take(i + 1).drop_last() =~= ids@.take(i as int));
            assert(ids@.take(i + 1).last() == ids@[i as int]);
        }
        let keep = match statuses[i] {
            Some(status) => status != Status::Error,
            None => false,
        };
        if keep {
            res.push(HomeCommand::SetStatus(ids[i].clone(), Status::Hibernated));
        }
        i = i + 1;
    }
    assert(ids@.take(ids@.len() as int) =~= ids@);
    res.push(HomeCommand::Save);
    proof {
        assert forall|i: int|
            0 <= i < ids@.len() && (#[trigger] statuses@[i]) is Some && statuses@[i]->0
                != Status::Error implies {
            &&& res@.drop_last().contains(HomeCommand::SetStatus(ids@[i], Status::Hibernated))
            &&& known_status(res@, ids@[i]) == Some(Status::Hibernated)
        } by {
            law_live_sessions_are_marked_again(ids@, statuses@, i);
        }
        assert forall|k: int| 0 <= k < res@.len() - 1 implies marks_a_live_session(
            #[trigger] res@[k],
            ids@,
            statuses@,
        ) by {
            law_only_live_sessions_are_marked(ids@, statuses@, k);
        }
    }
    res
}

/// The command marks one of the sessions as hibernated, and that session is still
/// there and not in error.
pub open spec fn marks_a_live_session(
    command: HomeCommand,
    ids: Seq<String>,
    statuses: Seq<Option<Status>>,
) -> bool {
    exists|j: int|
        0 <= j < ids.len() && command == HomeCommand::SetStatus(
            #[trigger] ids[j],
            Status::Hibernated,
        ) && statuses[j] is Some && statuses[j]->0 != Status::Error
}

/// Every session that was hibernated, is still there and is not in error is
/// marked as hibernated before the sessions are written down, and that is how it
/// is then known.
pub proof fn law_live_sessions_are_marked_again(
    ids: Seq<String>,
    statuses: Seq<Option<Status>>,
    i: int,
)
    requires
        0 <= i < ids.len(),
        ids.len() <= statuses.len(),
        statuses[i] is Some,
        statuses[i]->0 != Status::Error,
    ensures
        ({
            let commands = restamped(ids, statuses).push(HomeCommand::Save);
            &&& commands.last() is Save
            &&& commands.drop_last().contains(HomeCommand::SetStatus(ids[i], Status::Hibernated))
            &&& known_status(commands, ids[i]) == Some(Status::Hibernated)
        }),
    decreases ids.len(),
{
    let commands = restamped(ids, statuses);
    let head = ids.drop_last();
    let before = restamped(head, statuses);
    let mark = HomeCommand::SetStatus(ids[i], Status::Hibernated);
    reveal_with_fuel(known_status, 3);
    assert(commands.push(HomeCommand::Save).drop_last() =~= commands);
    assert(known_status(commands.push(HomeCommand::Save), ids[i]) == known_status(commands, ids[i]));
    if i < head.len() {
        law_live_sessions_are_marked_again(head, statuses, i);
        assert(before.push(HomeCommand::Save).drop_last() =~= before);
        let k = before.index_of(mark);
        assert(before[k] == mark);
        assert(commands[k] == mark);
        if commands != before {
            assert(commands.drop_last() =~= before);
        }
    } else {
        assert(commands[commands.len() - 1] == mark);
    }
}

/// No other session is marked, and none in another way.
pub proof fn law_only_live_sessions_are_marked(
    ids: Seq<String>,
    statuses: Seq<Option<Status>>,
    k: int,
)
    requires
        0 <= k < restamped(ids, statuses).len(),
    ensures
        marks_a_live_session(restamped(ids, statuses)[k], ids, statuses),
    decreases ids.len(),
{
    let commands = restamped(ids, statuses);
    let head = ids.drop_last();
    let before = restamped(head, statuses);
    if k < before.len() {
        law_only_live_sessions_are_marked(head, statuses, k);
        assert(commands[k] == before[k]);
        let j = choose|j: int|
            0 <= j < head.len() && commands[k] == HomeCommand::SetStatus(
                #[trigger] head[j],
                Status::Hibernated,
            ) && statuses[j] is Some && statuses[j]->0 != Status::Error;
        assert(ids[j] == head[j]);
    } else {
        assert(ids[ids.len() - 1] == ids.last());
    }
}

/// Each of the sessions is marked at most once: there are as many marks as
/// sessions that are still there and not in error.
pub proof fn law_one_mark_per_live_session(ids: Seq<String>, statuses: Seq<Option<Status>>)
    requires
        ids.len() <= statuses.len(),
    ensures
        restamped(ids, statuses).len() == statuses.take(ids.len() as int).filter(
            |s: Option<Status>| s is Some && s->0 != Status::Error,
        ).len(),
    decreases ids.len(),
{
    let live = |s: Option<Status>| s is Some && s->0 != Status::Error;
    reveal(Seq::filter);
    if ids.len() > 0 {
        law_one_mark_per_live_session(ids.drop_last(), statuses);
        let part = statuses.take(ids.len() as int);
        assert(part.drop_last() =~= statuses.take(ids.len() - 1));
        assert(part.last() == statuses[ids.len() - 1]);
    }
}

/// Work that an action of the home view asks for.
pub enum Work {
    Nothing,
    AttachSession(String),
    AttachTerminal(String, TerminalMode),
    EditFile(PathBuf),
    /// Put a session to rest.
    Rest(Rest, String),
    /// Read the settings, then choose this theme.
    SetTheme(String),
    SpawnUpdate(InstallMethod, String),
    /// Send a message to a session, as these commands say.
    Send(Vec<HomeCommand>),
}

/// `work` is what `action` asks for; `updating` says whether an update runs in
/// the background.
pub open spec fn asks_for(action: Action, updating: bool, work: Work) -> bool {
    match action {
        Action::AttachSession(id) => work == Work::AttachSession(id),
        Action::AttachTerminal(id, mode) => work == Work::AttachTerminal(id, mode),
        Action::EditFile(path) => work == Work::EditFile(path),
        Action::StopSession(id) => work == Work::Rest(Rest::Stop, id),
        Action::HibernateSession(id) => work == Work::Rest(Rest::Hibernate, id),
        Action::SetTheme(name) => work == Work::SetTheme(name),
        Action::SpawnUpdate(method, version) => if updating {
            work is Nothing
        } else {
            work == Work::SpawnUpdate(method, version)
        },
        Action::SendMessage(id, message) => {
            &&& work matches Work::Send(commands)
            &&& commands@ == seq![
                HomeCommand::SetStatus(id, Status::Starting),
                HomeCommand::Draw,
                HomeCommand::SendMessage(id, message),
            ]
        },
        Action::Quit => work is Nothing,
        Action::SetTransientStatus(_) => work is Nothing,
        Action::OpenCockpit(_) => work is Nothing,
    }
}

/// `after` is the application once `action` was taken up.
pub open spec fn takes_up(before: App, action: Action, now: Instant, after: App) -> bool {
    match action {
        Action::Quit => after == (App { should_quit: true, ..before }),
        Action::OpenCockpit(id) => after == (App { pending_cockpit_open: Some(id), ..before }),
        Action::SetTransientStatus(text) => {
            &&& status_view(after.update_status) == Some(passing(text@, now))
            &&& after == (App { update_status: after.update_status, ..before })
        },
        Action::SendMessage(_, _) => {
            &&& status_view(after.update_status) == Some(passing("Reviving session..."@, now))
            &&& after == (App { update_status: after.update_status, ..before })
        },
        Action::SpawnUpdate(_, _) => if before.update_status_rx is Some {
            &&& status_view(after.update_status) == Some(
                passing("update already in progress"@, now),
            )
            &&& after == (App { update_status: after.update_status, ..before })
        } else {
            after == before
        },
        _ => after == before,
    }
}

/// The warning about a custom instruction that the tool does not take.
pub struct InstructionWarning {
    pub title: String,
    pub message: String,
    /// The session to attach to once the warning was read.
    pub then_attach: String,
}

/// Whether to attach to a session.
#[derive(Clone, Copy, Debug, PartialEq, Eq, Structural)]
pub enum AttachStart {
    /// There is nothing to attach to.
    Done,
    /// Look at the session's pane.
    LookAtPane,
}

/// What is known of a session's pane.
#[derive(Clone, Copy, Debug, PartialEq, Eq, Structural)]
pub struct PaneFacts {
    pub present: Option<bool>,
    pub dead: Option<bool>,
    /// A hook reports the session's status.
    pub hook_reports: Option<bool>,
    pub runs_shell: Option<bool>,
}

/// What to find out of a session's pane next.
#[derive(Clone, Copy, Debug, PartialEq, Eq, Structural)]
pub enum PaneQuestion {
    Present,
    Dead,
    HookReports,
    RunsShell,
    /// Nothing more: whether the session has to be started again.
    Restart(bool),
}

/// A session has to be started again: its pane is missing or dead, or has fallen
/// back to a shell where that tells something. It tells nothing where a hook
/// reports the status, where the user's own command runs, and where the tool is
/// a shell.
pub open spec fn needs_restart(
    instance: Instance,
    present: bool,
    dead: bool,
    hook_reports: bool,
    runs_shell: bool,
) -> bool {
    !present || dead || (!hook_reports && !instance.command_override && !instance.expects_shell
        && runs_shell)
}

/// What is known agrees with this pane.
pub open spec fn agrees(
    facts: PaneFacts,
    present: bool,
    dead: bool,
    hook_reports: bool,
    runs_shell: bool,
) -> bool {
    &&& facts.present is Some ==> facts.present->0 == present
    &&& facts.dead is Some ==> facts.dead->0 == dead
    &&& facts.hook_reports is Some ==> facts.hook_reports->0 == hook_reports
    &&& facts.runs_shell is Some ==> facts.runs_shell->0 == runs_shell
}

/// What to find out next: nothing is asked that cannot matter.
pub open spec fn question(instance: Instance, facts: PaneFacts) -> PaneQuestion {
    if facts.present is None {
        PaneQuestion::Present
    } else if !facts.present->0 {
        PaneQuestion::Restart(true)
    } else if facts.dead is None {
        PaneQuestion::Dead
    } else if facts.dead->0 {
        PaneQuestion::Restart(true)
    } else if facts.hook_reports is None {
        PaneQuestion::HookReports
    } else if facts.hook_reports->0 || instance.command_override || instance.expects_shell {
        PaneQuestion::Restart(false)
    } else if facts.runs_shell is None {
        PaneQuestion::RunsShell
    } else {
        PaneQuestion::Restart(facts.runs_shell->0)
    }
}

/// What to find out of a session's pane next, or whether to start the session
/// again.
pub fn next_question(instance: &Instance, facts: &PaneFacts) -> (res: PaneQuestion)
    ensures
        res == question(*instance, *facts),
{
    match facts.present {
        None => PaneQuestion::Present,
        Some(false) => PaneQuestion::Restart(true),
        Some(true) => match facts.dead {
            None => PaneQuestion::Dead,
            Some(true) => PaneQuestion::Restart(true),
            Some(false) => match facts.hook_reports {
                None => PaneQuestion::HookReports,
                Some(true) => PaneQuestion::Restart(false),
                Some(false) => if instance.command_override || instance.expects_shell {
                    PaneQuestion::Restart(false)
                } else {
                    match facts.runs_shell {
                        None => PaneQuestion::RunsShell,
                        Some(shell) => PaneQuestion::Restart(shell),
                    }
                },
            },
        },
    }
}

/// What was left unasked would not have changed the decision.
pub proof fn law_questions_suffice(
    instance: Instance,
    facts: PaneFacts,
    present: bool,
    dead: bool,
    hook_reports: bool,
    runs_shell: bool,
)
    requires
        agrees(facts, present, dead, hook_reports, runs_shell),
        question(instance, facts) is Restart,
    ensures
        question(instance, facts) == PaneQuestion::Restart(
            needs_restart(instance, present, dead, hook_reports, runs_shell),
        ),
{
}

/// A session whose hook reports, or that runs a command of the user's, is never
/// started again for a shell in its pane.
pub proof fn law_wrappers_are_trusted(
    instance: Instance,
    dead: bool,
    hook_reports: bool,
    runs_shell: bool,
)
    requires
        hook_reports || instance.command_override || instance.expects_shell,
    ensures
        needs_restart(instance, true, dead, hook_reports, runs_shell) == dead,
{
}

/// The session has a custom instruction.
pub open spec fn has_instruction(instance: Instance) -> bool {
    &&& instance.sandboxed()
    &&& instance.sandbox_info->0.custom_instruction is Some
    &&& instance.sandbox_info->0.custom_instruction->0@.len() > 0
}

/// What attaching comes to once the pane was looked at.
pub enum AttachPlan {
    Attach,
    /// Show this first, and note that it was seen.
    Warn(InstructionWarning),
    /// Start the session again, as these commands say.
    Restart(Vec<HomeCommand>),
}

/// `plan` is what attaching comes to: a session that has to be started again
/// with an instruction that its tool does not take is warned about once.
pub open spec fn attach_plan(
    instance: Instance,
    id: String,
    restart: bool,
    tool_takes_instruction: bool,
    warning_seen: bool,
    plan: AttachPlan,
) -> bool {
    if !restart {
        plan is Attach
    } else if has_instruction(instance) && !tool_takes_instruction && !warning_seen {
        &&& plan matches AttachPlan::Warn(warning)
        &&& warning.title@ == "Custom Instruction Not Supported"@
        &&& warning.message@ == "'"@ + instance.tool@
            + "' does not support custom instruction injection. The session will launch without the custom instruction."@
        &&& warning.then_attach == id
    } else {
        &&& plan matches AttachPlan::Restart(commands)
        &&& commands@ == seq![
            HomeCommand::SetStatus(id, Status::Starting),
            HomeCommand::Restart(id),
        ]
    }
}

/// Which of a session's terminals is attached to.
#[derive(Clone, Copy, Debug, PartialEq, Eq, Structural)]
pub enum TerminalTarget {
    Host,
    Container,
}

/// What is done to a terminal before it is attached to.
#[derive(Clone, Copy, Debug, PartialEq, Eq, Structural)]
pub enum TerminalStart {
    /// It runs.
    Nothing,
    Start,
    /// What is left of it goes first.
    KillThenStart,
}

/// Which editor to use.
pub enum EditorStep {
    /// Find out whether vim can be run.
    AskVim,
    /// Find out whether nano can be run.
    AskNano,
    Use(String),
}

/// `step` is the choice of an editor: the user's own, else vim, else nano; vim
/// again where neither can be run.
pub open spec fn editor_step(
    own: Option<String>,
    vim: Option<bool>,
    nano: Option<bool>,
    step: EditorStep,
) -> bool {
    if own is Some {
        step == EditorStep::Use(own->0)
    } else if vim is None {
        step is AskVim
    } else if vim->0 {
        step matches EditorStep::Use(name) && name@ == "vim"@
    } else if nano is None {
        step is AskNano
    } else if nano->0 {
        step matches EditorStep::Use(name) && name@ == "nano"@
    } else {
        step matches EditorStep::Use(name) && name@ == "vim"@
    }
}

/// Chooses an editor; what is not known yet is asked for.
pub fn choose_editor(own: Option<String>, vim: Option<bool>, nano: Option<bool>) -> (res:
    EditorStep)
    ensures
        editor_step(own, vim, nano, res),
{
    if let Some(name) = own {
        return EditorStep::Use(name);
    }
    match vim {
        None => EditorStep::AskVim,
        Some(true) => EditorStep::Use("vim".to_owned()),
        Some(false) => match nano {
            None => EditorStep::AskNano,
            Some(true) => EditorStep::Use("nano".to_owned()),
            Some(false) => EditorStep::Use("vim".to_owned()),
        },
    }
}

impl App {
    /// Takes up an action of the home view, and says what work it asks for.
    pub fn execute_action(&mut self, action: Action, now: Instant) -> (work: Work)
        ensures
            asks_for(action, old(self).update_status_rx is Some, work),
            takes_up(*old(self), action, now, *final(self)),
    {
        match action {
            Action::Quit => {
                self.should_quit = true;
                Work::Nothing
            },
            Action::AttachSession(id) => Work::AttachSession(id),
            Action::AttachTerminal(id, mode) => Work::AttachTerminal(id, mode),
            Action::EditFile(path) => Work::EditFile(path),
            Action::StopSession(id) => Work::Rest(Rest::Stop, id),
            Action::HibernateSession(id) => Work::Rest(Rest::Hibernate, id),
            Action::SetTheme(name) => Work::SetTheme(name),
            Action::SpawnUpdate(method, version) => {
                if self.update_status_rx.is_some() {
                    self.update_status = Some(
                        UpdateStatus::transient("update already in progress".to_owned(), now),
                    );
                    Work::Nothing
                } else {
                    Work::SpawnUpdate(method, version)
                }
            },
            Action::SetTransientStatus(text) => {
                self.update_status = Some(UpdateStatus::transient(text, now));
                Work::Nothing
            },
            Action::SendMessage(id, message) => {
                self.update_status = Some(
                    UpdateStatus::transient("Reviving session...".to_owned(), now),
                );
                let ghost i = id;
                let ghost m = message;
                let mut commands: Vec<HomeCommand> = Vec::new();
                commands.push(HomeCommand::SetStatus(id.clone(), Status::Starting));
                commands.push(HomeCommand::Draw);
                commands.push(HomeCommand::SendMessage(id, message));
                assert(commands@ =~= seq![
                    HomeCommand::SetStatus(i, Status::Starting),
                    HomeCommand::Draw,
                    HomeCommand::SendMessage(i, m),
                ]);
                Work::Send(commands)
            },
            Action::OpenCockpit(id) => {
                self.pending_cockpit_open = Some(id);
                Work::Nothing
            },
        }
    }

    /// Takes note that a message was sent: the status line is cleared.
    pub fn message_sent(&mut self)
        ensures
            *final(self) == (App { update_status: None, ..*old(self) }),
    {
        self.update_status = None;
    }

    /// Whether to attach to a session: not to one that is gone, nor to one that
    /// is driven through the cockpit and has no pane.
    pub fn attach_session(instance: Option<&Instance>) -> (res: AttachStart)
        ensures
            res == match instance {
                Some(instance) => if instance.cockpit_mode {
                    AttachStart::Done
                } else {
                    AttachStart::LookAtPane
                },
                None => AttachStart::Done,
            },
    {
        match instance {
            Some(instance) => if instance.cockpit_mode {
                AttachStart::Done
            } else {
                AttachStart::LookAtPane
            },
            None => AttachStart::Done,
        }
    }

    /// Whether `plan_attach` depends on what the tool takes and what was seen: only
    /// where a session with a custom instruction has to be started again.
    pub fn may_warn(instance: &Instance, restart: bool) -> (res: bool)
        ensures
            res == (restart && has_instruction(*instance)),
    {
        restart && match &instance.sandbox_info {
            Some(sandbox) => match &sandbox.custom_instruction {
                Some(text) => sandbox.enabled && text.as_str().unicode_len() > 0,
                None => false,
            },
            None => false,
        }
    }

    /// What attaching comes to once it is known whether the session has to be
    /// started again.
    pub fn plan_attach(
        instance: &Instance,
        id: &String,
        restart: bool,
        tool_takes_instruction: bool,
        warning_seen: bool,
    ) -> (plan: AttachPlan)
        ensures
            attach_plan(*instance, *id, restart, tool_takes_instruction, warning_seen, plan),
    {
        if !restart {
            return AttachPlan::Attach;
        }
        if Self::may_warn(instance, restart) && !tool_takes_instruction && !warning_seen {
            return AttachPlan::Warn(
                InstructionWarning {
                    title: "Custom Instruction Not Supported".to_owned(),
                    message: join3(
                        "'",
                        instance.tool.as_str(),
                        "' does not support custom instruction injection. The session will launch without the custom instruction.",
                    ),
                    then_attach: id.clone(),
                },
            );
        }
        let mut commands: Vec<HomeCommand> = Vec::new();
        commands.push(HomeCommand::SetStatus(id.clone(), Status::Starting));
        commands.push(HomeCommand::Restart(id.clone()));
        assert(commands@ =~= seq![
            HomeCommand::SetStatus(*id, Status::Starting),
            HomeCommand::Restart(*id),
        ]);
        AttachPlan::Restart(commands)
    }

    /// What follows starting a session again: if it failed, the session is in
    /// error, the status line says why, and it is not attached to.
    pub fn session_restarted(&mut self, id: &String, result: Result<(), String>, now: Instant) -> (
    res: (Vec<HomeCommand>, bool))
        ensures
            res.1 == (result is Ok),
            match result {
                Ok(_) => {
                    &&& res.0@ == seq![HomeCommand::SetError(*id, None)]
                    &&& *final(self) == *old(self)
                },
                Err(e) => {
                    &&& res.0@ == seq![
                        HomeCommand::SetError(*id, Some(e)),
                        HomeCommand::SetStatus(*id, Status::Error),
                    ]
                    &&& status_view(final(self).update_status) == Some(
                        passing("restart failed: "@ + e@, now),
                    )
                    &&& *final(self) == (App {
                        update_status: final(self).update_status,
                        ..*old(self)
                    })
                },
            },
    {
        let mut commands: Vec<HomeCommand> = Vec::new();
        match result {
            Ok(_) => {
                commands.push(HomeCommand::SetError(id.clone(), None));
                assert(commands@ =~= seq![HomeCommand::SetError(*id, None)]);
                (commands, true)
            },
            Err(e) => {
                let ghost why = e;
                self.update_status = Some(
                    UpdateStatus::transient(join("restart failed: ", e.as_str()), now),
                );
                commands.push(HomeCommand::SetError(id.clone(), Some(e)));
                commands.push(HomeCommand::SetStatus(id.clone(), Status::Error));
                assert(commands@ =~= seq![
                    HomeCommand::SetError(*id, Some(why)),
                    HomeCommand::SetStatus(*id, Status::Error),
                ]);
                (commands, false)
            },
        }
    }

    /// What follows coming back from a session.
    pub fn session_detached(&mut self, id: &String) -> (res: Vec<HomeCommand>)
        ensures
            res@ == seq![
                HomeCommand::RefreshSessionCache,
                HomeCommand::Reload,
                HomeCommand::StampLastAccessed(*id),
                HomeCommand::Select(*id),
            ],
            *final(self) == (App { needs_redraw: true, ..*old(self) }),
    {
        self.needs_redraw = true;
        let mut res: Vec<HomeCommand> = Vec::new();
        res.push(HomeCommand::RefreshSessionCache);
        res.push(HomeCommand::Reload);
        res.push(HomeCommand::StampLastAccessed(id.clone()));
        res.push(HomeCommand::Select(id.clone()));
        assert(res@ =~= seq![
            HomeCommand::RefreshSessionCache,
            HomeCommand::Reload,
            HomeCommand::StampLastAccessed(*id),
            HomeCommand::Select(*id),
        ]);
        res
    }

    /// Which of a session's terminals to attach to: the container's only where
    /// the session has one.
    pub fn attach_terminal(instance: &Instance, mode: TerminalMode) -> (res: TerminalTarget)
        ensures
            res == if mode == TerminalMode::Container && instance.sandboxed() {
                TerminalTarget::Container
            } else {
                TerminalTarget::Host
            },
    {
        match mode {
            TerminalMode::Container => if instance.is_sandboxed() {
                TerminalTarget::Container
            } else {
                TerminalTarget::Host
            },
            TerminalMode::Host => TerminalTarget::Host,
        }
    }

    /// What is done to a terminal before it is attached to.
    pub fn prepare_terminal(present: bool, dead: bool) -> (res: TerminalStart)
        ensures
            res == if present && !dead {
                TerminalStart::Nothing
            } else if present {
                TerminalStart::KillThenStart
            } else {
                TerminalStart::Start
            },
    {
        if !present {
            TerminalStart::Start
        } else if dead {
            TerminalStart::KillThenStart
        } else {
            TerminalStart::Nothing
        }
    }

    /// What follows starting a terminal, and whether it is attached to: not if
    /// it failed.
    pub fn terminal_started(id: &String, result: Result<(), String>) -> (res: (
        Vec<HomeCommand>,
        bool,
    ))
        ensures
            res.1 == (result is Ok),
            res.0@ == match result {
                Ok(_) => Seq::empty(),
                Err(e) => seq![HomeCommand::SetError(*id, Some(e))],
            },
    {
        let mut commands: Vec<HomeCommand> = Vec::new();
        let ghost r = result;
        match result {
            Ok(_) => (commands, true),
            Err(e) => {
                commands.push(HomeCommand::SetError(id.clone(), Some(e)));
                assert(commands@ =~= seq![HomeCommand::SetError(*id, Some(r->Err_0))]);
                (commands, false)
            },
        }
    }

    /// What follows coming back from a terminal.
    pub fn terminal_detached(&mut self, id: &String) -> (res: Vec<HomeCommand>)
        ensures
            res@ == seq![
                HomeCommand::RefreshSessionCache,
                HomeCommand::Reload,
                HomeCommand::Select(*id),
            ],
            *final(self) == (App { needs_redraw: true, ..*old(self) }),
    {
        self.needs_redraw = true;
        let mut res: Vec<HomeCommand> = Vec::new();
        res.push(HomeCommand::RefreshSessionCache);
        res.push(HomeCommand::Reload);
        res.push(HomeCommand::Select(id.clone()));
        assert(res@ =~= seq![
            HomeCommand::RefreshSessionCache,
            HomeCommand::Reload,
            HomeCommand::Select(*id),
        ]);
        res
    }

    /// Takes note of coming back from an editor, and says whether the diff has
    /// to be read again: it has if it is open.
    pub fn edit_file(&mut self, diff_open: bool) -> (refresh_diff: bool)
        ensures
            refresh_diff == diff_open,
            *final(self) == (App { needs_redraw: true, ..*old(self) }),
    {
        self.needs_redraw = true;
        diff_open
    }
}

/// A session put to rest shows as stopped or as hibernated, as was asked, and is
/// put to rest in that way; where it failed, why is kept.
pub proof fn law_rest_is_as_asked(id: String, result: Result<(), String>, rest: Rest)
    ensures
        Rest::Stop.status() == Status::Stopped,
        Rest::Hibernate.status() == Status::Hibernated,
        Rest::Stop.command(id) == HomeCommand::Stop(id),
        Rest::Hibernate.command(id) == HomeCommand::Hibernate(id),
        result matches Err(why) ==> {
            &&& rest_outcome(rest, id, result).contains(HomeCommand::SetError(id, Some(why)))
            &&& !rest_outcome(rest, id, result).contains(HomeCommand::Reload)
        },
        result is Ok ==> {
            &&& rest_outcome(rest, id, result).contains(HomeCommand::RefreshSessionCache)
            &&& rest_outcome(rest, id, result).contains(HomeCommand::Reload)
        },
{
    let commands = rest_outcome(rest, id, result);
    assert(result is Err ==> commands[0] == HomeCommand::SetError(id, Some(result->Err_0)));
    assert(result is Ok ==> commands[0] is RefreshSessionCache && commands[1] is Reload);
}

/// An action asks for the work that it names, on the session that it names. What
/// only the application itself has to note asks for none, and a second update
/// does not either.
pub proof fn law_action_asks_for_its_own_work(
    id: String,
    other: String,
    mode: TerminalMode,
    method: InstallMethod,
    path: PathBuf,
    updating: bool,
    work: Work,
)
    ensures
        asks_for(Action::AttachSession(id), updating, work) <==> work == Work::AttachSession(id),
        asks_for(Action::AttachTerminal(id, mode), updating, work) <==> work
            == Work::AttachTerminal(id, mode),
        asks_for(Action::EditFile(path), updating, work) <==> work == Work::EditFile(path),
        asks_for(Action::StopSession(id), updating, work) <==> work == Work::Rest(Rest::Stop, id),
        asks_for(Action::HibernateSession(id), updating, work) <==> work == Work::Rest(
            Rest::Hibernate,
            id,
        ),
        asks_for(Action::SetTheme(id), updating, work) <==> work == Work::SetTheme(id),
        asks_for(Action::SpawnUpdate(method, id), false, work) <==> work == Work::SpawnUpdate(
            method,
            id,
        ),
        asks_for(Action::SpawnUpdate(method, id), true, work) <==> work is Nothing,
        asks_for(Action::Quit, updating, work) <==> work is Nothing,
        asks_for(Action::SetTransientStatus(id), updating, work) <==> work is Nothing,
        asks_for(Action::OpenCockpit(id), updating, work) <==> work is Nothing,
        asks_for(Action::SendMessage(id, other), updating, work) ==> work is Send
            && work->Send_0@.len() == 3 && work->Send_0@[0] == HomeCommand::SetStatus(
            id,
            Status::Starting,
        ) && work->Send_0@[1] is Draw && work->Send_0@[2] == HomeCommand::SendMessage(id, other),
{
}

/// Taking up an action changes the application only in what the action is about:
/// quitting, the session to open, or the status line. All work on sessions and
/// files leaves it as it is.
pub proof fn law_action_changes_only_its_own(before: App, action: Action, now: Instant, after: App)
    requires
        takes_up(before, action, now, after),
    ensures
        action is Quit ==> after.should_quit,
        !(action is Quit) ==> after.should_quit == before.should_quit,
        action matches Action::OpenCockpit(id) ==> after.pending_cockpit_open == Some(id),
        !(action is OpenCockpit) ==> after.pending_cockpit_open == before.pending_cockpit_open,
        action matches Action::SetTransientStatus(text) ==> status_view(after.update_status)
            == Some(passing(text@, now)),
        action is SendMessage ==> status_view(after.update_status) == Some(
            passing("Reviving session..."@, now),
        ),
        action is SpawnUpdate && before.update_status_rx is Some ==> status_view(
            after.update_status,
        ) == Some(passing("update already in progress"@, now)),
        action is SpawnUpdate && before.update_status_rx is None ==> after == before,
        action is AttachSession || action is AttachTerminal || action is EditFile
            || action is StopSession || action is HibernateSession || action is SetTheme ==> after
            == before,
        after == (App {
            should_quit: after.should_quit,
            pending_cockpit_open: after.pending_cockpit_open,
            update_status: after.update_status,
            ..before
        }),
{
}

/// A session is started again if its pane is missing, dead, or has fallen back to
/// a shell that was not meant to run there, and is left alone otherwise.
pub proof fn law_lost_panes_are_started_again(
    instance: Instance,
    present: bool,
    dead: bool,
    hook_reports: bool,
    runs_shell: bool,
)
    ensures
        !present ==> needs_restart(instance, present, dead, hook_reports, runs_shell),
        dead ==> needs_restart(instance, present, dead, hook_reports, runs_shell),
        runs_shell && !hook_reports && !instance.command_override && !instance.expects_shell
            ==> needs_restart(instance, present, dead, hook_reports, runs_shell),
        present && !dead && !runs_shell ==> !needs_restart(
            instance,
            present,
            dead,
            hook_reports,
            runs_shell,
        ),
        present && !dead && hook_reports ==> !needs_restart(
            instance,
            present,
            dead,
            hook_reports,
            runs_shell,
        ),
        present && !dead && (instance.command_override || instance.expects_shell)
            ==> !needs_restart(instance, present, dead, hook_reports, runs_shell),
{
}

/// A question asks for what is not known, the pane first, and stops where the
/// answer is settled: a missing or dead pane is started again, and a live one is
/// left alone where a shell in it tells nothing.
pub proof fn law_questions_ask_what_is_open(instance: Instance, facts: PaneFacts)
    ensures
        question(instance, facts) is Present <==> facts.present is None,
        question(instance, facts) is Dead <==> facts.present == Some(true) && facts.dead is None,
        question(instance, facts) is HookReports <==> facts.present == Some(true) && facts.dead
            == Some(false) && facts.hook_reports is None,
        question(instance, facts) is RunsShell <==> facts.present == Some(true) && facts.dead
            == Some(false) && facts.hook_reports == Some(false) && !instance.command_override
            && !instance.expects_shell && facts.runs_shell is None,
        facts.present == Some(false) ==> question(instance, facts) == PaneQuestion::Restart(true),
        facts.present == Some(true) && facts.dead == Some(true) ==> question(instance, facts)
            == PaneQuestion::Restart(true),
        facts.present == Some(true) && facts.dead == Some(false) && facts.hook_reports == Some(true)
            ==> question(instance, facts) == PaneQuestion::Restart(false),
        facts.present == Some(true) && facts.dead == Some(false) && facts.hook_reports is Some && (
        instance.command_override || instance.expects_shell) ==> question(instance, facts)
            == PaneQuestion::Restart(false),
        facts.present == Some(true) && facts.dead == Some(false) && facts.hook_reports
            == Some(false) && !instance.command_override && !instance.expects_shell
            && facts.runs_shell is Some ==> question(instance, facts) == PaneQuestion::Restart(
            facts.runs_shell->0,
        ),
{
}

/// A session is warned about exactly if it is started again in a container that
/// is switched on, with an instruction that its tool does not take, and the
/// warning was not seen; one that need not be started again is attached to, and
/// every other is started.
pub proof fn law_warned_about_once(
    instance: Instance,
    id: String,
    restart: bool,
    tool_takes_instruction: bool,
    warning_seen: bool,
    plan: AttachPlan,
)
    requires
        attach_plan(instance, id, restart, tool_takes_instruction, warning_seen, plan),
    ensures
        plan is Attach <==> !restart,
        plan is Warn <==> restart && !tool_takes_instruction && !warning_seen
            && instance.sandbox_info is Some && instance.sandbox_info->0.enabled
            && instance.sandbox_info->0.custom_instruction is Some
            && instance.sandbox_info->0.custom_instruction->0@.len() > 0,
        plan matches AttachPlan::Warn(warning) ==> {
            &&& warning.then_attach == id
            &&& warning.title@ == "Custom Instruction Not Supported"@
            &&& warning.message@ == "'"@ + instance.tool@
                + "' does not support custom instruction injection. The session will launch without the custom instruction."@
        },
        plan matches AttachPlan::Restart(commands) ==> {
            &&& commands@.len() == 2
            &&& commands@[0] == HomeCommand::SetStatus(id, Status::Starting)
            &&& commands@[1] == HomeCommand::Restart(id)
        },
{
}

/// A custom instruction counts only in a container that is switched on, and only
/// if it is not empty.
pub proof fn law_instruction_needs_a_container(instance: Instance)
    ensures
        instance.sandbox_info is None ==> !has_instruction(instance),
        instance.sandbox_info matches Some(sandbox) ==> (has_instruction(instance) <==> {
            &&& sandbox.enabled
            &&& sandbox.custom_instruction is Some
            &&& sandbox.custom_instruction->0@.len() > 0
        }),
{
}

/// The user's own editor is used without asking; else vim is if it can be run,
/// else nano if it can be, else vim. What is asked for is not known yet.
pub proof fn law_own_editor_first(
    own: Option<String>,
    vim: Option<bool>,
    nano: Option<bool>,
    step: EditorStep,
)
    requires
        editor_step(own, vim, nano, step),
    ensures
        own matches Some(name) ==> step == EditorStep::Use(name),
        step is AskVim <==> own is None && vim is None,
        step is AskNano <==> own is None && vim == Some(false) && nano is None,
        step matches EditorStep::Use(name) ==> own is None ==> name@ == if vim == Some(false)
            && nano == Some(true) {
            "nano"@
        } else {
            "vim"@
        },
{
}

} // verus!
