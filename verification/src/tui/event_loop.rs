//! The main loop: what each event leads to, and what is due when.
use vstd::prelude::*;

use crate::clock::{elapsed_ms, law_elapsed_counts_milliseconds, Instant};
use crate::tui::app::App;
use crate::tui::keys::{burst_candidate, KeyEvent};

verus! {

/// How often, in milliseconds, the loop turns when nothing happens.
pub const TICK_MS: u64 = 50;

/// How often the sessions' status is asked for.
pub const STATUS_REFRESH_MS: u64 = 500;

/// How often the sessions are read from disk.
pub const DISK_REFRESH_MS: u64 = 5_000;

/// How often an animation moves on.
pub const SPINNER_REDRAW_MS: u64 = 120;

/// How often this program shows that it is in use.
pub const HEARTBEAT_MS: u64 = 10_000;

/// How often sessions are looked through for ones to hibernate.
pub const HIBERNATE_CHECK_MS: u64 = 60_000;

/// Something that is due again and again.
#[derive(Clone, Copy, Debug, PartialEq, Eq, Structural)]
pub struct Timer {
    pub every_ms: u64,
    pub last: Instant,
}

impl Timer {
    /// The time has come.
    pub open spec fn due(self, now: Instant) -> bool {
        elapsed_ms(self.last, now) >= self.every_ms
    }

    /// The timer, started anew at `now`.
    pub open spec fn started(self, now: Instant) -> Timer {
        Timer { every_ms: self.every_ms, last: now }
    }

    /// Whether the time has come.
    pub fn is_due(&self, now: Instant) -> (res: bool)
        ensures
            res == self.due(now),
    {
        now.ms_since(self.last) >= self.every_ms
    }

    /// Starts anew.
    pub fn restart(&mut self, now: Instant)
        ensures
            *final(self) == old(self).started(now),
    {
        self.last = now;
    }
}

/// The timers of the main loop.
pub struct Timers {
    pub status: Timer,
    pub disk: Timer,
    pub spinner: Timer,
    pub heartbeat: Timer,
    pub hibernate: Timer,
}

impl Timers {
    /// All timers, started at `now`.
    pub fn new(now: Instant) -> (res: Self)
        ensures
            res == (Timers {
                status: Timer { every_ms: STATUS_REFRESH_MS, last: now },
                disk: Timer { every_ms: DISK_REFRESH_MS, last: now },
                spinner: Timer { every_ms: SPINNER_REDRAW_MS, last: now },
                heartbeat: Timer { every_ms: HEARTBEAT_MS, last: now },
                hibernate: Timer { every_ms: HIBERNATE_CHECK_MS, last: now },
            }),
            res.status.every_ms == 500,
            res.disk.every_ms == 5_000,
            res.spinner.every_ms == 120,
            res.heartbeat.every_ms == 10_000,
            res.hibernate.every_ms == 60_000,
    {
        Timers {
            status: Timer { every_ms: STATUS_REFRESH_MS, last: now },
            disk: Timer { every_ms: DISK_REFRESH_MS, last: now },
            spinner: Timer { every_ms: SPINNER_REDRAW_MS, last: now },
            heartbeat: Timer { every_ms: HEARTBEAT_MS, last: now },
            hibernate: Timer { every_ms: HIBERNATE_CHECK_MS, last: now },
        }
    }
}

/// A timer that started anew is due again exactly when its time has passed.
pub proof fn law_timer_waits_its_time(timer: Timer, now: Instant, later: Instant)
    ensures
        timer.started(now).due(later) <==> elapsed_ms(now, later) >= timer.every_ms,
{
}

/// Which way the wheel turned.
#[derive(Clone, Copy, Debug, PartialEq, Eq, Structural)]
pub enum Scroll {
    Up,
    Down,
}

/// What the mouse did.
#[derive(Clone, Copy, Debug, PartialEq, Eq, Structural)]
pub enum MouseKind {
    ScrollUp,
    ScrollDown,
    Other,
}

/// What can be scrolled under the mouse.
#[derive(Clone, Copy, Debug, PartialEq, Eq, Structural)]
pub struct ScrollFacts {
    pub diff_open: bool,
    pub over_diff: bool,
    pub session_selected: bool,
    pub over_preview: bool,
}

/// The mouse is over something that scrolls: the diff while it is open, else the
/// preview of the selected session.
pub open spec fn over_target(facts: ScrollFacts) -> bool {
    if facts.diff_open {
        facts.over_diff
    } else {
        facts.session_selected && facts.over_preview
    }
}

/// What a mouse event scrolls.
pub open spec fn scroll_of(kind: MouseKind, facts: ScrollFacts) -> Option<Scroll> {
    if !over_target(facts) {
        None
    } else {
        match kind {
            MouseKind::ScrollUp => Some(Scroll::Up),
            MouseKind::ScrollDown => Some(Scroll::Down),
            MouseKind::Other => None,
        }
    }
}

/// Which way a mouse event scrolls what is under it, if it does.
pub fn mouse_scroll(kind: MouseKind, facts: ScrollFacts) -> (res: Option<Scroll>)
    ensures
        res == scroll_of(kind, facts),
{
    let over = if facts.diff_open {
        facts.over_diff
    } else {
        facts.session_selected && facts.over_preview
    };
    if !over {
        return None;
    }
    match kind {
        MouseKind::ScrollUp => Some(Scroll::Up),
        MouseKind::ScrollDown => Some(Scroll::Down),
        MouseKind::Other => None,
    }
}

/// What the loop wakes up for.
#[derive(Clone, Copy, Debug, PartialEq, Eq, Structural)]
pub enum LoopEvent {
    Key(KeyEvent),
    Mouse(MouseKind, ScrollFacts),
    Paste,
    Resize,
    /// Another event of the terminal.
    Other,
    /// The terminal's events can no longer be read.
    ReadError,
    /// The terminal has no more events.
    EndOfInput,
    Tick,
    HangUp,
    Terminate,
}

/// What an event leads to.
#[derive(Clone, Copy, Debug, PartialEq, Eq, Structural)]
pub enum LoopAction {
    /// Gather a burst that starts with this key.
    GatherBurst,
    HandleKey,
    /// Scroll; if that changed anything, draw.
    Scroll(Scroll),
    /// Hand the text on, then draw.
    Paste,
    Draw,
    /// Wait for the next event.
    Wait,
    /// See what is due.
    Housekeeping,
    /// Leave the loop.
    Exit,
}

/// What an event leads to. A terminal that is gone ends the program.
pub open spec fn loop_action(event: LoopEvent, wants_burst: bool) -> LoopAction {
    match event {
        LoopEvent::Key(key) => if wants_burst && burst_candidate(key) {
            LoopAction::GatherBurst
        } else {
            LoopAction::HandleKey
        },
        LoopEvent::Mouse(kind, facts) => match scroll_of(kind, facts) {
            Some(way) => LoopAction::Scroll(way),
            None => LoopAction::Wait,
        },
        LoopEvent::Paste => LoopAction::Paste,
        LoopEvent::Resize => LoopAction::Draw,
        LoopEvent::Other => LoopAction::Housekeeping,
        LoopEvent::Tick => LoopAction::Housekeeping,
        LoopEvent::ReadError => LoopAction::Exit,
        LoopEvent::EndOfInput => LoopAction::Exit,
        LoopEvent::HangUp => LoopAction::Exit,
        LoopEvent::Terminate => LoopAction::Exit,
    }
}

/// What the event that ended a burst leads to.
#[derive(Clone, Copy, Debug, PartialEq, Eq, Structural)]
pub enum DeferredAction {
    HandleKey,
    Paste,
    /// Fit the screen to the terminal.
    FitScreen,
    Scroll(Scroll),
    Nothing,
}

/// What the event that ended a burst leads to; nothing if the program is about
/// to quit.
pub open spec fn deferred_action(event: LoopEvent, quitting: bool) -> DeferredAction {
    if quitting {
        DeferredAction::Nothing
    } else {
        match event {
            LoopEvent::Key(_) => DeferredAction::HandleKey,
            LoopEvent::Paste => DeferredAction::Paste,
            LoopEvent::Resize => DeferredAction::FitScreen,
            LoopEvent::Mouse(kind, facts) => match scroll_of(kind, facts) {
                Some(way) => DeferredAction::Scroll(way),
                None => DeferredAction::Nothing,
            },
            _ => DeferredAction::Nothing,
        }
    }
}

/// The steps of a pass of housekeeping, in order.
#[derive(Clone, Copy, Debug, PartialEq, Eq, Structural)]
pub enum PassStep {
    Begin,
    /// Ask for the sessions' status.
    RequestStatus,
    /// Take in what came of it. Was there anything?
    ApplyStatus,
    /// Take in which sessions were deleted. Were there any?
    ApplyDeletions,
    /// Take in the sessions' new ids. Were there any?
    ApplySessionIds,
    /// Take in a session that was created, and attach to it. Was there one?
    ApplyCreation,
    /// Move the dialog on. Did it change?
    TickDialog,
    /// Read the sessions from disk.
    Reload,
    /// Show that this program is in use.
    Heartbeat,
    /// Hibernate the sessions that have been idle for long. Were there any?
    Hibernate,
    /// Is anything animated?
    AskAnimated,
    /// Draw the screen.
    Draw,
    End,
}

impl PassStep {
    /// The step that comes after this one.
    pub open spec fn following(self) -> PassStep {
        match self {
            PassStep::Begin => PassStep::RequestStatus,
            PassStep::RequestStatus => PassStep::ApplyStatus,
            PassStep::ApplyStatus => PassStep::ApplyDeletions,
            PassStep::ApplyDeletions => PassStep::ApplySessionIds,
            PassStep::ApplySessionIds => PassStep::ApplyCreation,
            PassStep::ApplyCreation => PassStep::TickDialog,
            PassStep::TickDialog => PassStep::Reload,
            PassStep::Reload => PassStep::Heartbeat,
            PassStep::Heartbeat => PassStep::Hibernate,
            PassStep::Hibernate => PassStep::AskAnimated,
            PassStep::AskAnimated => PassStep::Draw,
            PassStep::Draw => PassStep::End,
            PassStep::End => PassStep::End,
        }
    }

    /// How many steps may still come.
    pub open spec fn left(self) -> nat {
        match self {
            PassStep::Begin => 12,
            PassStep::RequestStatus => 11,
            PassStep::ApplyStatus => 10,
            PassStep::ApplyDeletions => 9,
            PassStep::ApplySessionIds => 8,
            PassStep::ApplyCreation => 7,
            PassStep::TickDialog => 6,
            PassStep::Reload => 5,
            PassStep::Heartbeat => 4,
            PassStep::Hibernate => 3,
            PassStep::AskAnimated => 2,
            PassStep::Draw => 1,
            PassStep::End => 0,
        }
    }

    /// The step is to be taken: its time has come, or, to draw, something has
    /// changed.
    pub open spec fn wanted(self, timers: Timers, changed: bool, now: Instant) -> bool {
        match self {
            PassStep::RequestStatus => timers.status.due(now),
            PassStep::Reload => timers.disk.due(now),
            PassStep::Heartbeat => timers.heartbeat.due(now),
            PassStep::Hibernate => timers.hibernate.due(now),
            PassStep::AskAnimated => timers.spinner.due(now),
            PassStep::Draw => changed,
            _ => true,
        }
    }

    /// The next step that is to be taken.
    pub open spec fn next_wanted(self, timers: Timers, changed: bool, now: Instant) -> PassStep
        decreases self.left(),
    {
        if self == PassStep::End || self.following().wanted(timers, changed, now) {
            self.following()
        } else {
            self.following().next_wanted(timers, changed, now)
        }
    }

    /// Something on the screen has changed once the step was taken and answered.
    pub open spec fn changes(self, answer: bool) -> bool {
        match self {
            PassStep::ApplyStatus => answer,
            PassStep::ApplyDeletions => answer,
            PassStep::ApplySessionIds => answer,
            PassStep::ApplyCreation => answer,
            PassStep::TickDialog => answer,
            PassStep::Reload => true,
            PassStep::Hibernate => answer,
            PassStep::AskAnimated => answer,
            _ => false,
        }
    }

    fn next(self) -> (res: PassStep)
        ensures
            res == self.following(),
    {
        match self {
            PassStep::Begin => PassStep::RequestStatus,
            PassStep::RequestStatus => PassStep::ApplyStatus,
            PassStep::ApplyStatus => PassStep::ApplyDeletions,
            PassStep::ApplyDeletions => PassStep::ApplySessionIds,
            PassStep::ApplySessionIds => PassStep::ApplyCreation,
            PassStep::ApplyCreation => PassStep::TickDialog,
            PassStep::TickDialog => PassStep::Reload,
            PassStep::Reload => PassStep::Heartbeat,
            PassStep::Heartbeat => PassStep::Hibernate,
            PassStep::Hibernate => PassStep::AskAnimated,
            PassStep::AskAnimated => PassStep::Draw,
            PassStep::Draw => PassStep::End,
            PassStep::End => PassStep::End,
        }
    }
}

/// The timers once a step was taken and answered at `now`: what was done starts
/// its timer anew. Animations do so only if there is one.
pub open spec fn timers_after(timers: Timers, step: PassStep, answer: bool, now: Instant) -> Timers {
    match step {
        PassStep::RequestStatus => (Timers { status: timers.status.started(now), ..timers }),
        PassStep::Reload => (Timers { disk: timers.disk.started(now), ..timers }),
        PassStep::Heartbeat => (Timers { heartbeat: timers.heartbeat.started(now), ..timers }),
        PassStep::AskAnimated => if answer {
            (Timers { spinner: timers.spinner.started(now), ..timers })
        } else {
            timers
        },
        _ => timers,
    }
}

/// The timers once a step is about to be taken: looking for sessions to
/// hibernate counts from its beginning.
pub open spec fn timers_before(timers: Timers, step: PassStep, now: Instant) -> Timers {
    if step == PassStep::Hibernate {
        Timers { hibernate: timers.hibernate.started(now), ..timers }
    } else {
        timers
    }
}

/// A pass of housekeeping: the step being taken, and whether anything on the
/// screen has changed.
pub struct Pass {
    pub step: PassStep,
    pub changed: bool,
}

impl Pass {
    /// A pass that has not begun.
    pub fn new() -> (res: Self)
        ensures
            res.step == PassStep::Begin,
            !res.changed,
    {
        Pass { step: PassStep::Begin, changed: false }
    }

    /// Takes the answer to the step that was taken, and says which step is to be
    /// taken next.
    pub fn advance(&mut self, timers: &mut Timers, answer: bool, now: Instant) -> (step: PassStep)
        ensures
            final(self).changed == (old(self).changed || old(self).step.changes(answer)),
            final(self).step == step,
            step == old(self).step.next_wanted(
                timers_after(*old(timers), old(self).step, answer, now),
                final(self).changed,
                now,
            ),
            *final(timers) == timers_before(
                timers_after(*old(timers), old(self).step, answer, now),
                step,
                now,
            ),
    {
        match self.step {
            PassStep::RequestStatus => {
                timers.status.restart(now);
            },
            PassStep::Reload => {
                timers.disk.restart(now);
                self.changed = true;
            },
            PassStep::Heartbeat => {
                timers.heartbeat.restart(now);
            },
            PassStep::AskAnimated => {
                if answer {
                    timers.spinner.restart(now);
                    self.changed = true;
                }
            },
            PassStep::Begin => {},
            PassStep::Draw => {},
            PassStep::End => {},
            _ => {
                if answer {
                    self.changed = true;
                }
            },
        }
        let ghost start = self.step;
        let mut step = self.step.next();
        while !Self::is_wanted(step, timers, self.changed, now)
            invariant
                start.next_wanted(*timers, self.changed, now) == (if step.wanted(
                    *timers,
                    self.changed,
                    now,
                ) {
                    step
                } else {
                    step.next_wanted(*timers, self.changed, now)
                }),
            decreases step.left(),
        {
            step = step.next();
        }
        if step == PassStep::Hibernate {
            timers.hibernate.restart(now);
        }
        self.step = step;
        step
    }

    fn is_wanted(step: PassStep, timers: &Timers, changed: bool, now: Instant) -> (res: bool)
        ensures
            res == step.wanted(*timers, changed, now),
    {
        match step {
            PassStep::RequestStatus => timers.status.is_due(now),
            PassStep::Reload => timers.disk.is_due(now),
            PassStep::Heartbeat => timers.heartbeat.is_due(now),
            PassStep::Hibernate => timers.hibernate.is_due(now),
            PassStep::AskAnimated => timers.spinner.is_due(now),
            PassStep::Draw => changed,
            _ => true,
        }
    }
}

/// What follows a key.
#[derive(Clone, Copy, Debug, PartialEq, Eq, Structural)]
pub struct AfterKey {
    pub draw: bool,
    pub exit: bool,
}

impl App {
    /// What an event leads to; `wants_burst` says whether the home view takes
    /// pastes just now.
    pub fn run(&mut self, event: LoopEvent, wants_burst: bool) -> (res: LoopAction)
        ensures
            res == loop_action(event, wants_burst),
            *final(self) == (App {
                should_quit: old(self).should_quit || res == LoopAction::Exit,
                ..*old(self)
            }),
    {
        match event {
            LoopEvent::Key(key) => if wants_burst && App::is_burst_candidate(&key) {
                LoopAction::GatherBurst
            } else {
                LoopAction::HandleKey
            },
            LoopEvent::Mouse(kind, facts) => match mouse_scroll(kind, facts) {
                Some(way) => LoopAction::Scroll(way),
                None => LoopAction::Wait,
            },
            LoopEvent::Paste => LoopAction::Paste,
            LoopEvent::Resize => LoopAction::Draw,
            LoopEvent::Other => LoopAction::Housekeeping,
            LoopEvent::Tick => LoopAction::Housekeeping,
            _ => {
                self.should_quit = true;
                LoopAction::Exit
            },
        }
    }

    /// What the event that ended a burst leads to.
    pub fn after_burst(&mut self, event: LoopEvent) -> (res: DeferredAction)
        ensures
            res == deferred_action(event, old(self).should_quit),
            *final(self) == (App {
                needs_redraw: old(self).needs_redraw || res == DeferredAction::FitScreen,
                ..*old(self)
            }),
    {
        if self.should_quit {
            return DeferredAction::Nothing;
        }
        match event {
            LoopEvent::Key(_) => DeferredAction::HandleKey,
            LoopEvent::Paste => DeferredAction::Paste,
            LoopEvent::Resize => {
                self.needs_redraw = true;
                DeferredAction::FitScreen
            },
            LoopEvent::Mouse(kind, facts) => match mouse_scroll(kind, facts) {
                Some(way) => DeferredAction::Scroll(way),
                None => DeferredAction::Nothing,
            },
            _ => DeferredAction::Nothing,
        }
    }

    /// Whether the replay of a short burst goes on with the next key: not once the
    /// program is about to quit.
    pub fn replay_goes_on(&self) -> (res: bool)
        ensures
            res == !self.should_quit,
    {
        !self.should_quit
    }

    /// What follows a key: the screen is drawn, unless it has to be cleared
    /// first; and the loop ends if the program is about to quit.
    pub fn after_key(&self) -> (res: AfterKey)
        ensures
            res.draw == !self.needs_redraw,
            res.exit == self.should_quit,
    {
        AfterKey { draw: !self.needs_redraw, exit: self.should_quit }
    }

    /// Takes note of what was found of updates: the screen is then cleared.
    pub fn updates_polled(&mut self, found: bool, status_changed: bool)
        ensures
            *final(self) == (App {
                needs_redraw: old(self).needs_redraw || found || status_changed,
                ..*old(self)
            }),
    {
        if found || status_changed {
            self.needs_redraw = true;
        }
    }
}

/// A pass takes its steps in order, each at most once, and comes to an end.
pub proof fn law_pass_ends(step: PassStep, timers: Timers, changed: bool, now: Instant)
    ensures
        step != PassStep::End ==> step.next_wanted(timers, changed, now).left() < step.left(),
        step.next_wanted(timers, changed, now) != PassStep::End ==> step.next_wanted(
            timers,
            changed,
            now,
        ).wanted(timers, changed, now),
    decreases step.left(),
{
    if step != PassStep::End {
        law_pass_ends(step.following(), timers, changed, now);
    }
}

/// A pass draws the screen exactly if something has changed.
pub proof fn law_pass_draws_what_changed(
    step: PassStep,
    timers: Timers,
    changed: bool,
    now: Instant,
)
    requires
        step.left() > PassStep::Draw.left(),
    ensures
        step.next_wanted(timers, changed, now) == PassStep::Draw ==> changed,
        step.next_wanted(timers, changed, now) == PassStep::End ==> !changed,
    decreases step.left(),
{
    if step.following() != PassStep::Draw {
        law_pass_draws_what_changed(step.following(), timers, changed, now);
    } else {
        reveal_with_fuel(PassStep::next_wanted, 3);
    }
}

/// Nothing that must be looked at in every pass is left out, whatever the
/// timers say.
pub proof fn law_pass_leaves_nothing_out(timers: Timers, changed: bool, now: Instant)
    ensures
        PassStep::RequestStatus.next_wanted(timers, changed, now) == PassStep::ApplyStatus,
        PassStep::ApplyStatus.next_wanted(timers, changed, now) == PassStep::ApplyDeletions,
        PassStep::ApplyDeletions.next_wanted(timers, changed, now) == PassStep::ApplySessionIds,
        PassStep::ApplySessionIds.next_wanted(timers, changed, now) == PassStep::ApplyCreation,
        PassStep::ApplyCreation.next_wanted(timers, changed, now) == PassStep::TickDialog,
        PassStep::Begin.next_wanted(timers, changed, now) == PassStep::RequestStatus
            || PassStep::Begin.next_wanted(timers, changed, now) == PassStep::ApplyStatus,
{
    reveal_with_fuel(PassStep::next_wanted, 3);
}

/// A terminal that is gone, or a signal to end, always ends the loop, and
/// nothing else does by itself.
pub proof fn law_only_loss_of_terminal_exits(event: LoopEvent, wants_burst: bool)
    ensures
        loop_action(event, wants_burst) == LoopAction::Exit <==> event == LoopEvent::ReadError
            || event == LoopEvent::EndOfInput || event == LoopEvent::HangUp || event
            == LoopEvent::Terminate,
{
}

/// A key outside a burst and a key that ended one are handled alike, and so is
/// the wheel.
pub proof fn law_deferred_like_direct(event: LoopEvent, wants_burst: bool, way: Scroll)
    ensures
        loop_action(event, wants_burst) == LoopAction::HandleKey ==> deferred_action(event, false)
            == DeferredAction::HandleKey,
        loop_action(event, wants_burst) == LoopAction::Paste <==> deferred_action(event, false)
            == DeferredAction::Paste,
        loop_action(event, wants_burst) == LoopAction::Scroll(way) <==> deferred_action(
            event,
            false,
        ) == DeferredAction::Scroll(way),
{
}

/// A timer is due exactly once its milliseconds have passed since it started,
/// and starting it anew keeps how often it is due.
pub proof fn law_timer_counts_from_its_start(timer: Timer, now: Instant)
    ensures
        timer.last.nanos <= now.nanos ==> (timer.due(now) <==> now.nanos - timer.last.nanos
            >= timer.every_ms * 1_000_000),
        timer.started(now).last == now,
        timer.started(now).every_ms == timer.every_ms,
{
    law_elapsed_counts_milliseconds(timer.last, now);
}

/// The wheel scrolls the way it turns exactly where the mouse is over what
/// scrolls: the diff while that is open, and else the preview of a selected
/// session.
pub proof fn law_wheel_scrolls_what_is_under_it(kind: MouseKind, facts: ScrollFacts)
    ensures
        facts.diff_open && !facts.over_diff ==> scroll_of(kind, facts) is None,
        !facts.diff_open && !facts.session_selected ==> scroll_of(kind, facts) is None,
        !facts.diff_open && !facts.over_preview ==> scroll_of(kind, facts) is None,
        kind == MouseKind::Other ==> scroll_of(kind, facts) is None,
        (facts.diff_open && facts.over_diff) || (!facts.diff_open && facts.session_selected
            && facts.over_preview) ==> {
            &&& kind == MouseKind::ScrollUp ==> scroll_of(kind, facts) == Some(Scroll::Up)
            &&& kind == MouseKind::ScrollDown ==> scroll_of(kind, facts) == Some(Scroll::Down)
        },
{
}

/// Every event leads somewhere: a key is handled, or starts a burst where pastes
/// are taken and it may be part of one; a paste is handed on; a resize draws; a
/// mouse that scrolls nothing is waited out; and all else is housekeeping.
pub proof fn law_every_event_is_seen_to(
    key: KeyEvent,
    kind: MouseKind,
    facts: ScrollFacts,
    wants_burst: bool,
)
    ensures
        wants_burst && burst_candidate(key) ==> loop_action(LoopEvent::Key(key), wants_burst)
            == LoopAction::GatherBurst,
        !wants_burst || !burst_candidate(key) ==> loop_action(LoopEvent::Key(key), wants_burst)
            == LoopAction::HandleKey,
        scroll_of(kind, facts) is None ==> loop_action(LoopEvent::Mouse(kind, facts), wants_burst)
            == LoopAction::Wait,
        scroll_of(kind, facts) matches Some(way) ==> loop_action(
            LoopEvent::Mouse(kind, facts),
            wants_burst,
        ) == LoopAction::Scroll(way),
        loop_action(LoopEvent::Paste, wants_burst) == LoopAction::Paste,
        loop_action(LoopEvent::Resize, wants_burst) == LoopAction::Draw,
        loop_action(LoopEvent::Tick, wants_burst) == LoopAction::Housekeeping,
        loop_action(LoopEvent::Other, wants_burst) == LoopAction::Housekeeping,
{
}

/// The event that ended a burst is not lost unless the program is about to quit:
/// every key, paste, resize and turn of the wheel is acted on.
pub proof fn law_end_of_burst_is_acted_on(key: KeyEvent, event: LoopEvent, way: Scroll)
    ensures
        deferred_action(LoopEvent::Key(key), false) == DeferredAction::HandleKey,
        deferred_action(LoopEvent::Paste, false) == DeferredAction::Paste,
        deferred_action(LoopEvent::Resize, false) == DeferredAction::FitScreen,
        deferred_action(event, true) == DeferredAction::Nothing,
        event matches LoopEvent::Mouse(kind, facts) ==> (deferred_action(event, false)
            == DeferredAction::Scroll(way) <==> scroll_of(kind, facts) == Some(way)),
        deferred_action(event, false) == DeferredAction::HandleKey ==> event is Key,
        deferred_action(event, false) == DeferredAction::FitScreen ==> event is Resize,
        deferred_action(event, false) == DeferredAction::Paste ==> event is Paste,
{
}

/// What is due is done and what is not due is left, in one order: status first,
/// then, after all that came in, disk, heartbeat, hibernation and animation, and
/// last the screen if anything has changed.
pub proof fn law_pass_does_what_is_due(timers: Timers, changed: bool, now: Instant)
    ensures
        ({
            let status = elapsed_ms(timers.status.last, now) >= timers.status.every_ms;
            let disk = elapsed_ms(timers.disk.last, now) >= timers.disk.every_ms;
            let heartbeat = elapsed_ms(timers.heartbeat.last, now) >= timers.heartbeat.every_ms;
            let hibernate = elapsed_ms(timers.hibernate.last, now) >= timers.hibernate.every_ms;
            let spinner = elapsed_ms(timers.spinner.last, now) >= timers.spinner.every_ms;
            let last = if changed {
                PassStep::Draw
            } else {
                PassStep::End
            };
            let after_hibernate = if spinner {
                PassStep::AskAnimated
            } else {
                last
            };
            let after_heartbeat = if hibernate {
                PassStep::Hibernate
            } else {
                after_hibernate
            };
            let after_reload = if heartbeat {
                PassStep::Heartbeat
            } else {
                after_heartbeat
            };
            &&& PassStep::Begin.next_wanted(timers, changed, now) == if status {
                PassStep::RequestStatus
            } else {
                PassStep::ApplyStatus
            }
            &&& PassStep::TickDialog.next_wanted(timers, changed, now) == if disk {
                PassStep::Reload
            } else {
                after_reload
            }
            &&& PassStep::Reload.next_wanted(timers, changed, now) == after_reload
            &&& PassStep::Heartbeat.next_wanted(timers, changed, now) == after_heartbeat
            &&& PassStep::Hibernate.next_wanted(timers, changed, now) == after_hibernate
            &&& PassStep::AskAnimated.next_wanted(timers, changed, now) == last
            &&& PassStep::Draw.next_wanted(timers, changed, now) == PassStep::End
            &&& PassStep::End.next_wanted(timers, changed, now) == PassStep::End
        }),
{
    reveal_with_fuel(PassStep::next_wanted, 7);
}

/// The screen counts as changed by what came in, where anything did, by reading
/// the sessions from disk in any case, and by nothing else.
pub proof fn law_screen_changes_with_what_came_in(step: PassStep)
    ensures
        step.changes(false) <==> step == PassStep::Reload,
        step.changes(true) <==> step == PassStep::Reload || step == PassStep::ApplyStatus || step
            == PassStep::ApplyDeletions || step == PassStep::ApplySessionIds || step
            == PassStep::ApplyCreation || step == PassStep::TickDialog || step
            == PassStep::Hibernate || step == PassStep::AskAnimated,
{
}

/// A step that is done starts its own timer anew and no other: the one for
/// animations only where something is animated, and the one for hibernation when
/// the step begins, not when it ends.
pub proof fn law_step_restarts_its_own_timer(
    timers: Timers,
    step: PassStep,
    answer: bool,
    now: Instant,
)
    ensures
        ({
            let after = timers_after(timers, step, answer, now);
            let before = timers_before(timers, step, now);
            &&& step == PassStep::RequestStatus ==> after.status.last == now
            &&& step != PassStep::RequestStatus ==> after.status == timers.status
            &&& step == PassStep::Reload ==> after.disk.last == now
            &&& step != PassStep::Reload ==> after.disk == timers.disk
            &&& step == PassStep::Heartbeat ==> after.heartbeat.last == now
            &&& step != PassStep::Heartbeat ==> after.heartbeat == timers.heartbeat
            &&& step == PassStep::AskAnimated && answer ==> after.spinner.last == now
            &&& step != PassStep::AskAnimated || !answer ==> after.spinner == timers.spinner
            &&& after.hibernate == timers.hibernate
            &&& after.status.every_ms == timers.status.every_ms
            &&& after.disk.every_ms == timers.disk.every_ms
            &&& after.heartbeat.every_ms == timers.heartbeat.every_ms
            &&& after.spinner.every_ms == timers.spinner.every_ms
            &&& step == PassStep::Hibernate ==> before.hibernate.last == now
            &&& step != PassStep::Hibernate ==> before.hibernate == timers.hibernate
            &&& before.hibernate.every_ms == timers.hibernate.every_ms
            &&& before.status == timers.status
            &&& before.disk == timers.disk
            &&& before.heartbeat == timers.heartbeat
            &&& before.spinner == timers.spinner
        }),
{
}

} // verus!
