//! When a session's state is worth a push.
//!
//! A session that enters a state of interest starts a timer. The push is due
//! once the state has lasted its dwell time, and no sooner than a cooldown
//! after the session's last push.
use vstd::prelude::*;

use crate::clock::{elapsed_ms, Instant, Timestamp};
use crate::keyed::Keyed;
use crate::session::{Instance, Status, WebConfig};

verus! {

/// How long a session must wait for input before a push.
pub const DWELL_WAITING_MS: u64 = 5_000;

/// How long a session must be idle or in error before a push.
pub const DWELL_TERMINAL_MS: u64 = 2_000;

/// How long a session stays quiet after a push.
pub const COOLDOWN_MS: u64 = 60_000;

/// How many status changes the channel to the consumer holds.
pub const STATUS_CHANNEL_CAPACITY: usize = 64;

/// A session's status changed.
#[derive(Debug)]
pub struct StatusChange {
    pub instance_id: String,
    pub instance_title: String,
    pub old: Status,
    pub new: Status,
    pub at: Timestamp,
}

impl Clone for StatusChange {
    fn clone(&self) -> (res: Self)
        ensures
            res == *self,
    {
        StatusChange {
            instance_id: self.instance_id.clone(),
            instance_title: self.instance_title.clone(),
            old: self.old,
            new: self.new,
            at: self.at,
        }
    }
}

/// The states that can raise a push.
#[derive(Clone, Copy, Debug, PartialEq, Eq, Structural, Hash)]
pub enum NotificationEvent {
    Waiting,
    Idle,
    Error,
}

impl NotificationEvent {
    /// How long the state must last.
    pub open spec fn dwell(self) -> nat {
        match self {
            NotificationEvent::Waiting => DWELL_WAITING_MS as nat,
            NotificationEvent::Idle => DWELL_TERMINAL_MS as nat,
            NotificationEvent::Error => DWELL_TERMINAL_MS as nat,
        }
    }

    /// How long the state must last, in milliseconds.
    pub fn dwell_ms(self) -> (ms: u64)
        ensures
            ms == self.dwell(),
    {
        match self {
            NotificationEvent::Waiting => DWELL_WAITING_MS,
            _ => DWELL_TERMINAL_MS,
        }
    }
}

/// What the consumer remembers of a session.
pub struct DwellState {
    /// When the session entered the state that it is in; at most one is set.
    pub waiting_since: Option<Instant>,
    pub idle_since: Option<Instant>,
    pub error_since: Option<Instant>,
    /// When a push was last sent for the session, of whatever kind.
    pub last_notified: Option<Instant>,
    /// The title as of the last change.
    pub title: String,
}

/// What the consumer remembers, by session.
pub type DwellMap = Map<Seq<char>, DwellState>;

impl DwellState {
    /// When the session entered the state of `event`.
    pub open spec fn since(self, event: NotificationEvent) -> Option<Instant> {
        match event {
            NotificationEvent::Waiting => self.waiting_since,
            NotificationEvent::Idle => self.idle_since,
            NotificationEvent::Error => self.error_since,
        }
    }

    /// At most one timer runs.
    pub open spec fn single_timer(self) -> bool {
        forall|a: NotificationEvent, b: NotificationEvent|
            (#[trigger] self.since(a)) is Some && (#[trigger] self.since(b)) is Some ==> a == b
    }

    /// A push was sent for the session less than a cooldown ago.
    pub open spec fn cooling(self, now: Instant) -> bool {
        self.last_notified is Some && elapsed_ms(self.last_notified->0, now) < COOLDOWN_MS
    }

    /// The timer of `event` has run for its dwell time.
    pub open spec fn ripe(self, event: NotificationEvent, now: Instant) -> bool {
        self.since(event) is Some && elapsed_ms(self.since(event)->0, now) >= event.dwell()
    }

    /// The push that is due, if any: waiting goes before error, and error
    /// before idle.
    pub open spec fn due(self, now: Instant) -> Option<NotificationEvent> {
        if self.cooling(now) {
            None
        } else if self.ripe(NotificationEvent::Waiting, now) {
            Some(NotificationEvent::Waiting)
        } else if self.ripe(NotificationEvent::Error, now) {
            Some(NotificationEvent::Error)
        } else if self.ripe(NotificationEvent::Idle, now) {
            Some(NotificationEvent::Idle)
        } else {
            None
        }
    }

    /// The state once its push was taken up: no timer runs.
    pub open spec fn stopped(self) -> DwellState {
        DwellState { waiting_since: None, idle_since: None, error_since: None, ..self }
    }

    /// The state once its push was sent at `now`: the cooldown runs.
    pub open spec fn fired(self, now: Instant) -> DwellState {
        DwellState { last_notified: Some(now), ..self.stopped() }
    }

    /// Whether the timer of `event` has run for its dwell time.
    fn is_ripe(&self, event: NotificationEvent, now: Instant) -> (res: bool)
        ensures
            res == self.ripe(event, now),
    {
        let since = match event {
            NotificationEvent::Waiting => self.waiting_since,
            NotificationEvent::Idle => self.idle_since,
            NotificationEvent::Error => self.error_since,
        };
        match since {
            Some(since) => now.ms_since(since) >= event.dwell_ms(),
            None => false,
        }
    }

    /// The push that is due, if any.
    pub fn due_event(&self, now: Instant) -> (res: Option<NotificationEvent>)
        ensures
            res == self.due(now),
    {
        if let Some(last) = self.last_notified {
            if now.ms_since(last) < COOLDOWN_MS {
                return None;
            }
        }
        if self.is_ripe(NotificationEvent::Waiting, now) {
            Some(NotificationEvent::Waiting)
        } else if self.is_ripe(NotificationEvent::Error, now) {
            Some(NotificationEvent::Error)
        } else if self.is_ripe(NotificationEvent::Idle, now) {
            Some(NotificationEvent::Idle)
        } else {
            None
        }
    }
}

/// A session in this status is forgotten.
pub open spec fn forgets(status: Status) -> bool {
    status == Status::Stopped || status == Status::Hibernated || status == Status::Deleting
}

/// The timer that runs in `status` after a change at `now`.
pub open spec fn timer_if(status: Status, wanted: Status, now: Instant) -> Option<Instant> {
    if status == wanted {
        Some(now)
    } else {
        None
    }
}

/// What is remembered after a status change at `now`.
pub open spec fn after_change(dwell: DwellMap, change: StatusChange, now: Instant) -> DwellMap {
    let id = change.instance_id@;
    if forgets(change.new) {
        dwell.remove(id)
    } else {
        dwell.insert(
            id,
            DwellState {
                waiting_since: timer_if(change.new, Status::Waiting, now),
                idle_since: timer_if(change.new, Status::Idle, now),
                error_since: timer_if(change.new, Status::Error, now),
                last_notified: if dwell.contains_key(id) {
                    dwell[id].last_notified
                } else {
                    None
                },
                title: change.instance_title,
            },
        )
    }
}

/// Takes note of a status change at `now`.
///
/// The timer of the new status starts afresh and the others stop; the time of
/// the last push is kept. A session that stops is forgotten.
pub fn handle_status_change(dwell: &mut Keyed<DwellState>, change: StatusChange, now: Instant)
    ensures
        final(dwell)@ == after_change(old(dwell)@, change, now),
{
    let forget = match change.new {
        Status::Stopped => true,
        Status::Hibernated => true,
        Status::Deleting => true,
        _ => false,
    };
    if forget {
        dwell.remove(change.instance_id.as_str());
        return;
    }
    let last_notified = match dwell.get(change.instance_id.as_str()) {
        Some(entry) => entry.last_notified,
        None => None,
    };
    let mut waiting_since = None;
    let mut idle_since = None;
    let mut error_since = None;
    match change.new {
        Status::Waiting => {
            waiting_since = Some(now);
        },
        Status::Idle => {
            idle_since = Some(now);
        },
        Status::Error => {
            error_since = Some(now);
        },
        _ => {},
    }
    let state = DwellState {
        waiting_since,
        idle_since,
        error_since,
        last_notified,
        title: change.instance_title,
    };
    dwell.insert(change.instance_id, state);
}

/// Whether `event` should raise a push for a session, by the server-wide
/// setting and the session's own.
pub open spec fn wants_push(
    event: NotificationEvent,
    web: WebConfig,
    instance: Option<Instance>,
) -> bool {
    let (global, own) = match event {
        NotificationEvent::Waiting => (
            web.notify_on_waiting,
            if instance is Some {
                instance->0.notify_on_waiting
            } else {
                None
            },
        ),
        NotificationEvent::Idle => (
            web.notify_on_idle,
            if instance is Some {
                instance->0.notify_on_idle
            } else {
                None
            },
        ),
        NotificationEvent::Error => (
            web.notify_on_error,
            if instance is Some {
                instance->0.notify_on_error
            } else {
                None
            },
        ),
    };
    match own {
        Some(choice) => choice,
        None => global,
    }
}

/// Whether `event` should raise a push: the session's own setting where it has
/// one, else the server-wide setting.
pub fn should_fire(event: NotificationEvent, web: &WebConfig, instance: Option<&Instance>) -> (res:
    bool)
    ensures
        res == wants_push(
            event,
            *web,
            match instance {
                Some(i) => Some(*i),
                None => None,
            },
        ),
{
    let global = match event {
        NotificationEvent::Waiting => web.notify_on_waiting,
        NotificationEvent::Idle => web.notify_on_idle,
        NotificationEvent::Error => web.notify_on_error,
    };
    let own = match instance {
        Some(i) => match event {
            NotificationEvent::Waiting => i.notify_on_waiting,
            NotificationEvent::Idle => i.notify_on_idle,
            NotificationEvent::Error => i.notify_on_error,
        },
        None => None,
    };
    match own {
        Some(choice) => choice,
        None => global,
    }
}

/// A push that is due.
pub struct Due {
    pub instance_id: String,
    pub title: String,
    pub event: NotificationEvent,
}

/// A push that is due, by the texts that it carries.
pub struct DueView {
    pub id: Seq<char>,
    pub title: Seq<char>,
    pub event: NotificationEvent,
}

impl View for Due {
    type V = DueView;

    open spec fn view(&self) -> DueView {
        DueView { id: self.instance_id@, title: self.title@, event: self.event }
    }
}

/// The pushes that are due among the sessions of `order`, one per session.
pub open spec fn due_list(order: Seq<Seq<char>>, dwell: DwellMap, now: Instant) -> Seq<DueView>
    decreases order.len(),
{
    if order.len() == 0 {
        Seq::empty()
    } else {
        let before = due_list(order.drop_last(), dwell, now);
        let id = order.last();
        match dwell[id].due(now) {
            Some(event) => before.push(DueView { id, title: dwell[id].title@, event }),
            None => before,
        }
    }
}

/// What is remembered once every due push was taken up.
pub open spec fn after_collecting(dwell: DwellMap, now: Instant) -> DwellMap {
    dwell.map_values(
        |s: DwellState|
            if s.due(now) is Some {
                s.stopped()
            } else {
                s
            },
    )
}

/// What is remembered once the due pushes of `done` were taken up.
pub open spec fn partly_collected(dwell: DwellMap, done: Seq<Seq<char>>, now: Instant) -> DwellMap {
    Map::new(
        |k: Seq<char>| dwell.contains_key(k),
        |k: Seq<char>|
            if done.contains(k) && dwell[k].due(now) is Some {
                dwell[k].stopped()
            } else {
                dwell[k]
            },
    )
}

/// The views of a list of due pushes.
pub open spec fn due_views(list: Seq<Due>) -> Seq<DueView> {
    list.map_values(|d: Due| d@)
}

/// Takes up every push that is due at `now`: lists them and stops their timers.
/// The cooldown starts only once a push is sent.
pub fn collect_due(dwell: &mut Keyed<DwellState>, now: Instant) -> (res: Vec<Due>)
    ensures
        due_views(res@) == due_list(old(dwell).order(), old(dwell)@, now),
        final(dwell)@ == after_collecting(old(dwell)@, now),
        final(dwell).order() == old(dwell).order(),
        old(dwell).order().no_duplicates(),
        forall|k: Seq<char>|
            old(dwell).order().contains(k) <==> #[trigger] old(dwell)@.contains_key(k),
{
    let mut res: Vec<Due> = Vec::new();
    let n = dwell.len();
    let ghost m = dwell@;
    let ghost order = dwell.order();
    let mut i: usize = 0;
    proof {
        assert(order.take(0) =~= Seq::<Seq<char>>::empty());
        assert(due_views(res@) =~= due_list(order.take(0), m, now));
        assert(dwell@ =~= partly_collected(m, order.take(0), now));
    }
    while i < n
        invariant
            i <= n,
            n == order.len(),
            order.no_duplicates(),
            dwell.order() == order,
            forall|k: Seq<char>| order.contains(k) <==> #[trigger] m.contains_key(k),
            due_views(res@) == due_list(order.take(i as int), m, now),
            dwell@ == partly_collected(m, order.take(i as int), now),
        decreases n - i,
    {
        let ghost id = order[i as int];
        let ghost head = order.take(i as int);
        let ghost next = order.take(i + 1);
        let ghost before = dwell@;
        proof {
            assert(next.drop_last() =~= head);
            assert(next.last() == id);
            assert(order.contains(id));
            assert(!head.contains(id));
            assert(m.contains_key(id));
            assert(before[id] == m[id]);
        }
        let state = dwell.value_at(i);
        match state.due_event(now) {
            Some(event) => {
                let stopped = DwellState {
                    waiting_since: None,
                    idle_since: None,
                    error_since: None,
                    last_notified: state.last_notified,
                    title: state.title.clone(),
                };
                let due = Due {
                    instance_id: dwell.key_at(i).clone(),
                    title: stopped.title.clone(),
                    event,
                };
                let ghost old_res = res@;
                res.push(due);
                assert(due_views(res@) =~= due_views(old_res).push(due@));
                dwell.set_at(i, stopped);
            },
            None => {},
        }
        proof {
            assert forall|k: Seq<char>| next.contains(k) <==> (head.contains(k) || k == id) by {
                lemma_take_contains(order, i as int, k);
            }
            assert(dwell@ =~= partly_collected(m, next, now));
        }
        i = i + 1;
    }
    proof {
        assert(order.take(n as int) =~= order);
        assert(dwell@ =~= after_collecting(m, now));
    }
    res
}

proof fn lemma_take_contains(order: Seq<Seq<char>>, i: int, k: Seq<char>)
    requires
        0 <= i < order.len(),
    ensures
        order.take(i + 1).contains(k) <==> (order.take(i).contains(k) || k == order[i]),
{
    let next = order.take(i + 1);
    assert(next =~= order.take(i).push(order[i]));
    if order.take(i).contains(k) {
        let j = order.take(i).index_of(k);
        assert(next[j] == k);
    }
    if k == order[i] {
        assert(next[i] == k);
    }
}

} // verus!
