//! What is sent, to whom, and when it is held back.
use vstd::prelude::*;

use crate::clock::Instant;
use crate::keyed::Keyed;
use crate::push::dwell::{
    after_change, after_collecting, collect_due, due_list, due_views, handle_status_change,
    should_fire, wants_push, Due, DueView, DwellMap, DwellState, NotificationEvent, StatusChange,
};
use crate::push::store::{
    listed, unchanged_since, Subscription, SubscriptionMap, SubscriptionStore,
};
use crate::session::{find_instance, instance_by_id, Instance, WebConfig};
use crate::text::{join, join3, str_text};

verus! {

/// How many sends may be under way at once.
pub const SEND_CONCURRENCY: usize = 8;

/// How recently a dashboard must have been used, in seconds, to count as in
/// use.
pub const ACTIVE_WINDOW_SECS: u64 = 30;

/// What a notification shows, and where it leads.
pub struct PushPayload {
    pub title: String,
    pub body: String,
    pub url: String,
    pub tag: String,
    pub session_id: String,
}

/// A payload by its texts.
pub struct PayloadView {
    pub title: Seq<char>,
    pub body: Seq<char>,
    pub url: Seq<char>,
    pub tag: Seq<char>,
    pub session_id: Seq<char>,
}

impl View for PushPayload {
    type V = PayloadView;

    open spec fn view(&self) -> PayloadView {
        PayloadView {
            title: self.title@,
            body: self.body@,
            url: self.url@,
            tag: self.tag@,
            session_id: self.session_id@,
        }
    }
}

impl Clone for PushPayload {
    fn clone(&self) -> (res: Self)
        ensures
            res == *self,
    {
        PushPayload {
            title: self.title.clone(),
            body: self.body.clone(),
            url: self.url.clone(),
            tag: self.tag.clone(),
            session_id: self.session_id.clone(),
        }
    }
}

/// What became of a send.
#[derive(Clone, Copy, Debug, PartialEq, Eq, Structural)]
pub enum SendOutcome {
    Delivered,
    Failed,
    /// The push service no longer knows the endpoint.
    Gone,
}

/// A payload on its way to one subscription.
pub struct Delivery {
    pub subscription: Subscription,
    pub payload: PushPayload,
}

/// A delivery by its texts.
pub struct DeliveryView {
    pub subscription: Subscription,
    pub payload: PayloadView,
}

impl View for Delivery {
    type V = DeliveryView;

    open spec fn view(&self) -> DeliveryView {
        DeliveryView { subscription: self.subscription, payload: self.payload@ }
    }
}

/// The views of a list of deliveries.
pub open spec fn delivery_views(list: Seq<Delivery>) -> Seq<DeliveryView> {
    list.map_values(|d: Delivery| d@)
}

/// Why pushes are held back.
#[derive(Clone, Copy, Debug, PartialEq, Eq, Structural)]
pub enum SuppressReason {
    TuiActive,
    WebActive,
}

/// What a tick has to tell of pushes being held back.
#[derive(Clone, Copy, Debug, PartialEq, Eq, Structural)]
pub enum SuppressLog {
    Nothing,
    Suppressed(SuppressReason),
    ReasonChanged(SuppressReason),
    Resumed(SuppressReason),
}

impl SuppressReason {
    /// The reason in words.
    pub open spec fn words(self) -> Seq<char> {
        match self {
            SuppressReason::TuiActive => "TUI is active"@,
            SuppressReason::WebActive => "web dashboard is active"@,
        }
    }

    /// The reason in words.
    pub fn label(self) -> (res: &'static str)
        ensures
            res@ == self.words(),
    {
        match self {
            SuppressReason::TuiActive => "TUI is active",
            SuppressReason::WebActive => "web dashboard is active",
        }
    }
}

/// Why pushes are held back, if they are: whoever watches a dashboard needs
/// none.
pub open spec fn reason_to_hold(tui_active: bool, web_active: bool) -> Option<SuppressReason> {
    if tui_active {
        Some(SuppressReason::TuiActive)
    } else if web_active {
        Some(SuppressReason::WebActive)
    } else {
        None
    }
}

/// What there is to tell when the reason goes from `last` to `now`.
pub open spec fn reason_log(
    last: Option<SuppressReason>,
    now: Option<SuppressReason>,
) -> SuppressLog {
    if last == now {
        SuppressLog::Nothing
    } else {
        match (last, now) {
            (None, Some(reason)) => SuppressLog::Suppressed(reason),
            (Some(_), Some(reason)) => SuppressLog::ReasonChanged(reason),
            (Some(prev), None) => SuppressLog::Resumed(prev),
            (None, None) => SuppressLog::Nothing,
        }
    }
}

/// Why pushes are held back, if they are.
pub fn suppress_reason(tui_active: bool, web_active: bool) -> (res: Option<SuppressReason>)
    ensures
        res == reason_to_hold(tui_active, web_active),
{
    if tui_active {
        Some(SuppressReason::TuiActive)
    } else if web_active {
        Some(SuppressReason::WebActive)
    } else {
        None
    }
}

/// Remembers the reason and says what there is to tell of it: only a change is
/// told, not every tick.
pub fn note_reason(last: &mut Option<SuppressReason>, reason: Option<SuppressReason>) -> (log:
    SuppressLog)
    ensures
        *final(last) == reason,
        log == reason_log(*old(last), reason),
{
    let before = *last;
    *last = reason;
    match (before, reason) {
        (None, Some(reason)) => SuppressLog::Suppressed(reason),
        (Some(prev), Some(reason)) => if prev == reason {
            SuppressLog::Nothing
        } else {
            SuppressLog::ReasonChanged(reason)
        },
        (Some(prev), None) => SuppressLog::Resumed(prev),
        (None, None) => SuppressLog::Nothing,
    }
}

/// The headline for an event; `agent` is the name that notifications use for the
/// agent.
pub open spec fn headline(event: NotificationEvent, agent: Seq<char>) -> Seq<char> {
    match event {
        NotificationEvent::Waiting => agent + " is waiting"@,
        NotificationEvent::Idle => "Session finished"@,
        NotificationEvent::Error => "Session error"@,
    }
}

/// What the body says of an event.
pub open spec fn event_words(event: NotificationEvent) -> Seq<char> {
    match event {
        NotificationEvent::Waiting => "Waiting for input"@,
        NotificationEvent::Idle => "Agent is idle"@,
        NotificationEvent::Error => "Agent errored"@,
    }
}

/// The body for an event: the session's title follows, where it has one.
pub open spec fn event_body(event: NotificationEvent, title: Seq<char>) -> Seq<char> {
    if title.len() == 0 {
        event_words(event)
    } else {
        event_words(event) + ": "@ + title
    }
}

/// The payload that leads to a session.
pub open spec fn session_payload(
    id: Seq<char>,
    title: Seq<char>,
    body: Seq<char>,
) -> PayloadView {
    PayloadView {
        title,
        body,
        url: "/session/"@ + id,
        tag: "session-"@ + id,
        session_id: id,
    }
}

/// The payload of a push that is due.
pub open spec fn due_payload(due: DueView, agent: Seq<char>) -> PayloadView {
    session_payload(due.id, headline(due.event, agent), event_body(due.event, due.title))
}

/// The body for a wakeup: the session's title and the reason follow, where
/// there are any.
pub open spec fn wake_body(title: Seq<char>, reason: Option<Seq<char>>) -> Seq<char> {
    let resumed = if title.len() == 0 {
        "Agent resumed"@
    } else {
        "Agent resumed"@ + ": "@ + title
    };
    if reason is Some && reason->0.len() > 0 {
        resumed + ": "@ + reason->0
    } else {
        resumed
    }
}

/// The payload for a wakeup.
pub open spec fn wake_payload(
    id: Seq<char>,
    title: Seq<char>,
    reason: Option<Seq<char>>,
) -> PayloadView {
    session_payload(id, "Scheduled wakeup fired"@, wake_body(title, reason))
}

/// One payload to each of a list of subscriptions.
pub open spec fn to_each(subs: Seq<Subscription>, payload: PayloadView) -> Seq<DeliveryView> {
    subs.map_values(|s: Subscription| DeliveryView { subscription: s, payload })
}

/// What is sent for a push that is due: nothing if the session is gone, or
/// wants no such push.
pub open spec fn deliveries_for(
    due: DueView,
    instances: Seq<Instance>,
    web: WebConfig,
    subs: Seq<Subscription>,
    agent: Seq<char>,
) -> Seq<DeliveryView> {
    match find_instance(instances, due.id) {
        Some(instance) => if wants_push(due.event, web, Some(instance)) {
            to_each(subs, due_payload(due, agent))
        } else {
            Seq::empty()
        },
        None => Seq::empty(),
    }
}

/// What is sent for a list of pushes that are due.
pub open spec fn all_deliveries(
    due: Seq<DueView>,
    instances: Seq<Instance>,
    web: WebConfig,
    subs: Seq<Subscription>,
    agent: Seq<char>,
) -> Seq<DeliveryView>
    decreases due.len(),
{
    if due.len() == 0 {
        Seq::empty()
    } else {
        all_deliveries(due.drop_last(), instances, web, subs, agent) + deliveries_for(
            due.last(),
            instances,
            web,
            subs,
            agent,
        )
    }
}

/// A list of pushes has one for the session `id`.
pub open spec fn concerns(due: Seq<DueView>, id: Seq<char>) -> bool {
    exists|i: int| 0 <= i < due.len() && #[trigger] due[i].id == id
}

/// A push for `event` of the session `id` is sent: the session exists and wants
/// it, and somebody has subscribed.
pub open spec fn sends(
    event: NotificationEvent,
    id: Seq<char>,
    instances: Seq<Instance>,
    web: WebConfig,
    subscribed: bool,
) -> bool {
    match find_instance(instances, id) {
        Some(instance) => subscribed && wants_push(event, web, Some(instance)),
        None => false,
    }
}

/// What is remembered of a session after a tick: a push that was due is taken up,
/// and starts the cooldown only if it is sent.
pub open spec fn state_after_tick(
    state: DwellState,
    id: Seq<char>,
    instances: Seq<Instance>,
    web: WebConfig,
    subscribed: bool,
    now: Instant,
) -> DwellState {
    match state.due(now) {
        Some(event) => if sends(event, id, instances, web, subscribed) {
            state.fired(now)
        } else {
            state.stopped()
        },
        None => state,
    }
}

/// What is remembered after a tick that took up its pushes: the sessions whose
/// push was due and that no longer exist are forgotten.
pub open spec fn after_tick(
    dwell: DwellMap,
    instances: Seq<Instance>,
    web: WebConfig,
    subscribed: bool,
    now: Instant,
) -> DwellMap {
    Map::new(
        |id: Seq<char>|
            dwell.contains_key(id) && !(dwell[id].due(now) is Some && find_instance(
                instances,
                id,
            ) is None),
        |id: Seq<char>| state_after_tick(dwell[id], id, instances, web, subscribed, now),
    )
}

/// What is remembered in the middle of a tick, once the pushes of `done` were
/// seen to.
pub open spec fn amid_tick(
    dwell: DwellMap,
    done: Seq<DueView>,
    instances: Seq<Instance>,
    web: WebConfig,
    subscribed: bool,
    now: Instant,
) -> DwellMap {
    Map::new(
        |id: Seq<char>|
            dwell.contains_key(id) && !(concerns(done, id) && find_instance(instances, id) is None),
        |id: Seq<char>|
            if concerns(done, id) {
                state_after_tick(dwell[id], id, instances, web, subscribed, now)
            } else {
                after_collecting(dwell, now)[id]
            },
    )
}

/// Appends one payload to each subscription.
fn fan_out(deliveries: &mut Vec<Delivery>, subs: &Vec<Subscription>, payload: &PushPayload)
    ensures
        delivery_views(final(deliveries)@) == delivery_views(old(deliveries)@) + to_each(
            subs@,
            payload@,
        ),
{
    let ghost start = deliveries@;
    let mut i: usize = 0;
    assert(delivery_views(start) + to_each(subs@.take(0), payload@) =~= delivery_views(start));
    while i < subs.len()
        invariant
            i <= subs@.len(),
            delivery_views(deliveries@) == delivery_views(start) + to_each(
                subs@.take(i as int),
                payload@,
            ),
        decreases subs@.len() - i,
    {
        let ghost before = deliveries@;
        let delivery = Delivery { subscription: subs[i].clone(), payload: payload.clone() };
        deliveries.push(delivery);
        proof {
            assert(delivery_views(deliveries@) =~= delivery_views(before).push(delivery@));
            assert(to_each(subs@.take(i + 1), payload@) =~= to_each(
                subs@.take(i as int),
                payload@,
            ).push(delivery@));
        }
        i = i + 1;
    }
    assert(subs@.take(subs@.len() as int) =~= subs@);
}

/// The payload that leads to a session.
fn make_session_payload(id: &str, title: &str, body: String) -> (res: PushPayload)
    ensures
        res@ == session_payload(id@, title@, body@),
{
    PushPayload {
        title: title.to_owned(),
        body,
        url: join("/session/", id),
        tag: join("session-", id),
        session_id: id.to_owned(),
    }
}

/// The payload of a push that is due.
pub fn payload_for(due: &Due, agent: &str) -> (res: PushPayload)
    ensures
        res@ == due_payload(due@, agent@),
{
    let title = match due.event {
        NotificationEvent::Waiting => join(agent, " is waiting"),
        NotificationEvent::Idle => "Session finished".to_owned(),
        NotificationEvent::Error => "Session error".to_owned(),
    };
    let words = match due.event {
        NotificationEvent::Waiting => "Waiting for input",
        NotificationEvent::Idle => "Agent is idle",
        NotificationEvent::Error => "Agent errored",
    };
    let body = if due.title.as_str().unicode_len() == 0 {
        words.to_owned()
    } else {
        join3(words, ": ", due.title.as_str())
    };
    make_session_payload(due.instance_id.as_str(), title.as_str(), body)
}

/// The list of due pushes has one for each session of `order` whose push is due,
/// and for no other.
pub proof fn lemma_due_ids(order: Seq<Seq<char>>, dwell: DwellMap, now: Instant)
    ensures
        forall|i: int|
            0 <= i < due_list(order, dwell, now).len() ==> {
                let d = #[trigger] due_list(order, dwell, now)[i];
                order.contains(d.id) && dwell[d.id].due(now) == Some(d.event)
            },
        forall|k: Seq<char>| #[trigger]
            concerns(due_list(order, dwell, now), k) <==> (order.contains(k) && dwell[k].due(
                now,
            ) is Some),
    decreases order.len(),
{
    if order.len() > 0 {
        let head = order.drop_last();
        let id = order.last();
        lemma_due_ids(head, dwell, now);
        let list = due_list(order, dwell, now);
        let before = due_list(head, dwell, now);
        assert forall|i: int| 0 <= i < list.len() implies {
            let d = #[trigger] list[i];
            order.contains(d.id) && dwell[d.id].due(now) == Some(d.event)
        } by {
            if i < before.len() {
                assert(list[i] == before[i]);
                let j = head.index_of(list[i].id);
                assert(order[j] == list[i].id);
            } else {
                assert(order[order.len() - 1] == list[i].id);
            }
        }
        assert forall|k: Seq<char>| order.contains(k) && dwell[k].due(
            now,
        ) is Some implies #[trigger] concerns(list, k) by {
            if head.contains(k) {
                assert(concerns(before, k));
                let i = choose|i: int| 0 <= i < before.len() && #[trigger] before[i].id == k;
                assert(list[i].id == k);
            } else {
                let j = order.index_of(k);
                if j < head.len() {
                    assert(head[j] == k);
                }
                assert(k == id);
                assert(list[list.len() - 1].id == k);
            }
        }
    }
}

proof fn lemma_concerns_step(due: Seq<DueView>, i: int, id: Seq<char>)
    requires
        0 <= i < due.len(),
    ensures
        concerns(due.take(i + 1), id) <==> (id == due[i].id || concerns(due.take(i), id)),
{
    let head = due.take(i);
    let next = due.take(i + 1);
    if concerns(head, id) {
        let j = choose|j: int| 0 <= j < head.len() && #[trigger] head[j].id == id;
        assert(next[j].id == id);
    }
    if id == due[i].id {
        assert(next[i].id == id);
    }
    if concerns(next, id) {
        let j = choose|j: int| 0 <= j < next.len() && #[trigger] next[j].id == id;
        if j < i {
            assert(head[j].id == id);
        }
    }
}

/// What a tick comes to.
pub struct FirePlan {
    pub log: SuppressLog,
    pub deliveries: Vec<Delivery>,
}

/// Sends the pushes that are due at `now`.
///
/// Nothing happens where there is no store. While a dashboard is in use nothing
/// is raised and no timer is touched, so that a session which is still waiting
/// when the dashboard closes is told of at once. Otherwise every push that is
/// due goes to every subscription, if its session still exists and wants it;
/// only a push that is sent starts the session's cooldown. `agent` is the name
/// that notifications use for the agent.
pub fn fire_due_pushes(
    dwell: &mut Keyed<DwellState>,
    last_suppress_reason: &mut Option<SuppressReason>,
    store: Option<&SubscriptionStore>,
    tui_active: bool,
    web_active: bool,
    now: Instant,
    instances: &Vec<Instance>,
    web: &WebConfig,
    agent: &str,
) -> (res: FirePlan)
    ensures
        store is None ==> {
            &&& *final(last_suppress_reason) == *old(last_suppress_reason)
            &&& res.log == SuppressLog::Nothing
        },
        store is Some ==> {
            &&& *final(last_suppress_reason) == reason_to_hold(tui_active, web_active)
            &&& res.log == reason_log(
                *old(last_suppress_reason),
                reason_to_hold(tui_active, web_active),
            )
        },
        store is None || tui_active || web_active ==> {
            &&& final(dwell)@ == old(dwell)@
            &&& res.deliveries@.len() == 0
        },
        store is Some && !tui_active && !web_active ==> {
            &&& final(dwell)@ == after_tick(
                old(dwell)@,
                instances@,
                *web,
                store->0@.len() > 0,
                now,
            )
            &&& delivery_views(res.deliveries@) == all_deliveries(
                due_list(old(dwell).order(), old(dwell)@, now),
                instances@,
                *web,
                listed(store->0.order(), store->0@),
                agent@,
            )
            &&& old(dwell).order().no_duplicates()
            &&& forall|k: Seq<char>|
                old(dwell).order().contains(k) <==> #[trigger] old(dwell)@.contains_key(k)
            &&& store->0.order().len() == store->0@.len()
            &&& forall|k: Seq<char>|
                store->0.order().contains(k) <==> #[trigger] store->0@.contains_key(k)
        },
{
    let store = match store {
        Some(store) => store,
        None => {
            return FirePlan { log: SuppressLog::Nothing, deliveries: Vec::new() };
        },
    };
    let reason = suppress_reason(tui_active, web_active);
    let log = note_reason(last_suppress_reason, reason);
    if reason.is_some() {
        return FirePlan { log, deliveries: Vec::new() };
    }
    let ghost m = dwell@;
    let ghost order = dwell.order();
    let due = collect_due(dwell, now);
    let ghost list = due_list(order, m, now);
    let mut deliveries: Vec<Delivery> = Vec::new();
    let subs = store.snapshot();
    let ghost subscribed = store@.len() > 0;
    let mut i: usize = 0;
    proof {
        lemma_due_ids(order, m, now);
        assert(list.take(0) =~= Seq::<DueView>::empty());
        assert(delivery_views(deliveries@) =~= all_deliveries(
            list.take(0),
            instances@,
            *web,
            subs@,
            agent@,
        ));
        assert(dwell@ =~= amid_tick(m, list.take(0), instances@, *web, subscribed, now));
    }
    while i < due.len()
        invariant
            i <= due@.len(),
            list == due_views(due@),
            subs@ == listed(store.order(), store@),
            subscribed == (subs@.len() > 0),
            forall|j: int|
                0 <= j < list.len() ==> m.contains_key((#[trigger] list[j]).id) && m[list[j].id].due(
                    now,
                ) == Some(list[j].event),
            dwell@ == amid_tick(m, list.take(i as int), instances@, *web, subscribed, now),
            delivery_views(deliveries@) == all_deliveries(
                list.take(i as int),
                instances@,
                *web,
                subs@,
                agent@,
            ),
        decreases due@.len() - i,
    {
        let ghost before = delivery_views(deliveries@);
        let ghost id = list[i as int].id;
        let ghost done = list.take(i as int);
        let ghost next = list.take(i + 1);
        let ghost amid = dwell@;
        proof {
            assert(list[i as int] == due@[i as int]@);
            assert(next.drop_last() =~= done);
            assert(next.last() == list[i as int]);
            assert forall|k: Seq<char>| #[trigger] concerns(next, k) <==> (k == id || concerns(
                done,
                k,
            )) by {
                lemma_concerns_step(list, i as int, k);
            }
        }
        let due_id = due[i].instance_id.as_str();
        match instance_by_id(instances, &due[i].instance_id) {
            None => {
                dwell.remove(due_id);
                assert(before + Seq::<DeliveryView>::empty() =~= before);
            },
            Some(instance) => {
                if should_fire(due[i].event, web, Some(instance)) && subs.len() > 0 {
                    let payload = payload_for(&due[i], agent);
                    fan_out(&mut deliveries, &subs, &payload);
                    assert(amid.contains_key(id));
                    let title = match dwell.get(due_id) {
                        Some(state) => state.title.clone(),
                        None => String::new(),
                    };
                    let fired = DwellState {
                        waiting_since: None,
                        idle_since: None,
                        error_since: None,
                        last_notified: Some(now),
                        title,
                    };
                    dwell.insert(due[i].instance_id.clone(), fired);
                    assert(fired == m[id].fired(now));
                } else {
                    proof {
                        assert(deliveries_for(
                            list[i as int],
                            instances@,
                            *web,
                            subs@,
                            agent@,
                        ) =~= Seq::<DeliveryView>::empty());
                        assert(before + Seq::<DeliveryView>::empty() =~= before);
                    }
                }
            },
        }
        assert(dwell@ =~= amid_tick(m, next, instances@, *web, subscribed, now));
        i = i + 1;
    }
    proof {
        assert(list.take(list.len() as int) =~= list);
        lemma_due_ids(order, m, now);
        assert(dwell@ =~= after_tick(m, instances@, *web, subscribed, now));
    }
    FirePlan { log, deliveries }
}

/// What the consumer wakes up for.
pub enum ConsumerEvent {
    Changed(StatusChange),
    /// The consumer fell behind and missed this many changes.
    Lagged(u64),
    /// No further change will come.
    Closed,
    Tick,
}

/// What the consumer does next.
pub enum ConsumerAction {
    Continue,
    /// Tell that this many changes were missed.
    WarnLagged(u64),
    Exit,
    Send(FirePlan),
}

/// Handles one event of the consumer: a change is noted, a tick raises what is
/// due, a lag is told, and a closed channel ends it.
pub fn consumer_step(
    event: ConsumerEvent,
    dwell: &mut Keyed<DwellState>,
    last_suppress_reason: &mut Option<SuppressReason>,
    store: &SubscriptionStore,
    tui_active: bool,
    web_active: bool,
    now: Instant,
    instances: &Vec<Instance>,
    web: &WebConfig,
    agent: &str,
) -> (res: ConsumerAction)
    ensures
        match event {
            ConsumerEvent::Changed(change) => {
                &&& res is Continue
                &&& final(dwell)@ == after_change(old(dwell)@, change, now)
                &&& *final(last_suppress_reason) == *old(last_suppress_reason)
            },
            ConsumerEvent::Lagged(n) => {
                &&& res == ConsumerAction::WarnLagged(n)
                &&& final(dwell)@ == old(dwell)@
                &&& *final(last_suppress_reason) == *old(last_suppress_reason)
            },
            ConsumerEvent::Closed => {
                &&& res is Exit
                &&& final(dwell)@ == old(dwell)@
                &&& *final(last_suppress_reason) == *old(last_suppress_reason)
            },
            ConsumerEvent::Tick => {
                &&& res matches ConsumerAction::Send(plan)
                &&& *final(last_suppress_reason) == reason_to_hold(tui_active, web_active)
                &&& plan.log == reason_log(
                    *old(last_suppress_reason),
                    reason_to_hold(tui_active, web_active),
                )
                &&& if tui_active || web_active {
                    final(dwell)@ == old(dwell)@ && plan.deliveries@.len() == 0
                } else {
                    &&& final(dwell)@ == after_tick(
                        old(dwell)@,
                        instances@,
                        *web,
                        store@.len() > 0,
                        now,
                    )
                    &&& delivery_views(plan.deliveries@) == all_deliveries(
                        due_list(old(dwell).order(), old(dwell)@, now),
                        instances@,
                        *web,
                        listed(store.order(), store@),
                        agent@,
                    )
                    &&& old(dwell).order().no_duplicates()
                    &&& forall|k: Seq<char>|
                        old(dwell).order().contains(k) <==> #[trigger] old(dwell)@.contains_key(k)
                    &&& store.order().len() == store@.len()
                    &&& forall|k: Seq<char>|
                        store.order().contains(k) <==> #[trigger] store@.contains_key(k)
                }
            },
        },
{
    match event {
        ConsumerEvent::Changed(change) => {
            handle_status_change(dwell, change, now);
            ConsumerAction::Continue
        },
        ConsumerEvent::Lagged(n) => ConsumerAction::WarnLagged(n),
        ConsumerEvent::Closed => ConsumerAction::Exit,
        ConsumerEvent::Tick => ConsumerAction::Send(
            fire_due_pushes(
                dwell,
                last_suppress_reason,
                Some(store),
                tui_active,
                web_active,
                now,
                instances,
                web,
                agent,
            ),
        ),
    }
}

/// A wakeup is told of: the settings allow it and no dashboard is in use.
pub open spec fn tells_wakeup(web: WebConfig, tui_active: bool, web_active: bool) -> bool {
    web.notifications_enabled && web.notify_on_wake_fire && !tui_active && !web_active
}

/// What is sent when a scheduled wakeup of a session fires: one payload to each
/// subscription, or nothing where the settings forbid it, a dashboard is in
/// use, or there is no store.
///
/// A wakeup is a single event: no dwell time and no cooldown apply.
pub fn fire_wake_fired_push(
    store: Option<&SubscriptionStore>,
    web: &WebConfig,
    tui_active: bool,
    web_active: bool,
    session_id: &str,
    session_title: &str,
    reason: Option<&str>,
) -> (res: Vec<Delivery>)
    ensures
        delivery_views(res@) == match store {
            Some(s) => if tells_wakeup(*web, tui_active, web_active) {
                to_each(
                    listed(s.order(), s@),
                    wake_payload(session_id@, session_title@, str_text(reason)),
                )
            } else {
                Seq::empty()
            },
            None => Seq::empty(),
        },
        store is Some && tells_wakeup(*web, tui_active, web_active) ==> {
            &&& store->0.order().len() == store->0@.len()
            &&& forall|k: Seq<char>|
                store->0.order().contains(k) <==> #[trigger] store->0@.contains_key(k)
        },
{
    let mut deliveries: Vec<Delivery> = Vec::new();
    assert(delivery_views(deliveries@) =~= Seq::empty());
    let store = match store {
        Some(store) => store,
        None => {
            return deliveries;
        },
    };
    if !web.notifications_enabled || !web.notify_on_wake_fire || tui_active || web_active {
        return deliveries;
    }
    let subs = store.snapshot();
    let resumed = if session_title.unicode_len() == 0 {
        "Agent resumed".to_owned()
    } else {
        join3("Agent resumed", ": ", session_title)
    };
    let body = match reason {
        Some(r) => if r.unicode_len() > 0 {
            join3(resumed.as_str(), ": ", r)
        } else {
            resumed
        },
        None => resumed,
    };
    let payload = make_session_payload(session_id, "Scheduled wakeup fired", body);
    fan_out(&mut deliveries, &subs, &payload);
    assert(Seq::<DeliveryView>::empty() + to_each(subs@, payload@) =~= to_each(subs@, payload@));
    deliveries
}

/// The subscriptions after a send came to `outcome`: one that is gone is
/// dropped, unless it has subscribed again meanwhile.
pub open spec fn settled(
    subs: SubscriptionMap,
    sent_to: Subscription,
    outcome: SendOutcome,
) -> SubscriptionMap {
    if outcome == SendOutcome::Gone && unchanged_since(
        subs,
        sent_to.endpoint@,
        sent_to.generation,
    ) {
        subs.remove(sent_to.endpoint@)
    } else {
        subs
    }
}

/// Takes note of what became of a send to `sent_to`, and says whether the store
/// changed. If so, the caller saves it.
pub fn settle(store: &mut SubscriptionStore, sent_to: &Subscription, outcome: SendOutcome) -> (res:
    bool)
    ensures
        final(store)@ == settled(old(store)@, *sent_to, outcome),
        res == (outcome == SendOutcome::Gone && unchanged_since(
            old(store)@,
            sent_to.endpoint@,
            sent_to.generation,
        )),
{
    match outcome {
        SendOutcome::Gone => store.gc_stale(sent_to.endpoint.as_str(), sent_to.generation),
        _ => false,
    }
}

} // verus!
