//! What the operations on pushes do, told over what goes in and what comes out.
use vstd::prelude::*;

use crate::clock::{elapsed_ms, Instant, Timestamp};
use crate::keyed::Keyed;
use crate::push::codec::{base64url, sha256_digest, sha256_token};
use crate::push::dwell::{
    collect_due, due_list, handle_status_change, should_fire, wants_push, Due, DwellState,
    NotificationEvent, StatusChange,
};
use crate::push::firing::{
    for_session, law_due_session_reaches_everyone, law_listed_are_the_due,
    law_nothing_is_sent_unasked, law_tick_touches_only_what_is_due,
};
use crate::push::handlers::{
    after_save, finish_test, get_status, get_vapid_public_key, subscribe, unsubscribe,
    AppState, EndpointBody, PushState, StatusCode, SubscribeBody, TestReport,
};
use crate::push::laws::{
    law_last_saved_entry_counts, law_snapshot_has_every_subscription,
};
use crate::push::notify::{
    consumer_step, delivery_views, fire_due_pushes, fire_wake_fired_push, note_reason, payload_for,
    settle, suppress_reason, ConsumerAction, ConsumerEvent, Delivery, FirePlan, PushPayload,
    SendOutcome, SuppressLog, SuppressReason,
};
use crate::push::store::{
    listed, listed_for, same_hash, Subscription, SubscriptionMap, SubscriptionStore, TokenHash,
};
use crate::push::vapid::{
    is_private_key, pkcs8_key, pkcs8_pem, public_point, KeyFileStep, VapidError, VapidKeypair,
    VapidKeypairFile,
};
use crate::session::{
    law_first_session_with_the_id_is_found, Instance, Status, WebConfig,
};

verus! {

/// `due_event` names a state exactly once it has lasted: five seconds for a wait,
/// two for the others, and a minute since the last push.
pub proof fn law_due_event_names_a_lasting_state(
    state: &DwellState,
    now: Instant,
    res: Option<NotificationEvent>,
)
    requires
        call_ensures(DwellState::due_event, (state, now), res),
    ensures
        ({
            let rested = state.last_notified is None || elapsed_ms(state.last_notified->0, now)
                >= 60_000;
            let waited = state.waiting_since is Some && elapsed_ms(state.waiting_since->0, now)
                >= 5_000;
            let erred = state.error_since is Some && elapsed_ms(state.error_since->0, now) >= 2_000;
            let idled = state.idle_since is Some && elapsed_ms(state.idle_since->0, now) >= 2_000;
            &&& res is None <==> !rested || (!waited && !erred && !idled)
            &&& res == Some(NotificationEvent::Waiting) <==> rested && waited
            &&& res == Some(NotificationEvent::Error) <==> rested && erred && !waited
            &&& res == Some(NotificationEvent::Idle) <==> rested && idled && !erred && !waited
        }),
{
}

/// `handle_status_change` starts the timer of the new status at `now`, stops the
/// others, keeps the time of the last push and all other sessions, and forgets a
/// session that stops.
pub proof fn law_handle_status_change_restarts_timers(
    dwell: &mut Keyed<DwellState>,
    change: StatusChange,
    now: Instant,
    other: Seq<char>,
)
    requires
        call_ensures(handle_status_change, (dwell, change, now), ()),
        other != change.instance_id@,
    ensures
        ({
            let id = change.instance_id@;
            let before = old(dwell)@;
            let after = final(dwell)@;
            let ends = change.new == Status::Stopped || change.new == Status::Hibernated
                || change.new == Status::Deleting;
            &&& ends <==> !after.contains_key(id)
            &&& after.contains_key(other) <==> before.contains_key(other)
            &&& after[other] == before[other]
            &&& !ends ==> {
                &&& after[id].title == change.instance_title
                &&& after[id].waiting_since == if change.new == Status::Waiting {
                    Some(now)
                } else {
                    None
                }
                &&& after[id].idle_since == if change.new == Status::Idle {
                    Some(now)
                } else {
                    None
                }
                &&& after[id].error_since == if change.new == Status::Error {
                    Some(now)
                } else {
                    None
                }
                &&& before.contains_key(id) ==> after[id].last_notified == before[id].last_notified
                &&& !before.contains_key(id) ==> after[id].last_notified is None
            }
        }),
{
}

/// `should_fire` follows the session's own setting for the event, and the
/// server-wide one where it has none.
pub proof fn law_should_fire_follows_the_settings(
    event: NotificationEvent,
    web: &WebConfig,
    instance: &Instance,
    res: bool,
)
    requires
        call_ensures(should_fire, (event, web, Some(instance)), res),
    ensures
        event == NotificationEvent::Waiting ==> res == if instance.notify_on_waiting is Some {
            instance.notify_on_waiting->0
        } else {
            web.notify_on_waiting
        },
        event == NotificationEvent::Idle ==> res == if instance.notify_on_idle is Some {
            instance.notify_on_idle->0
        } else {
            web.notify_on_idle
        },
        event == NotificationEvent::Error ==> res == if instance.notify_on_error is Some {
            instance.notify_on_error->0
        } else {
            web.notify_on_error
        },
{
}

/// `collect_due` hands out a push for every session that is due, with its title
/// and state, and stops that session's timers alone.
pub proof fn law_collect_due_takes_up_each_once(
    dwell: &mut Keyed<DwellState>,
    now: Instant,
    res: Vec<Due>,
    id: Seq<char>,
)
    requires
        call_ensures(collect_due, (dwell, now), res),
        old(dwell)@.contains_key(id),
    ensures
        ({
            let before = old(dwell)@[id];
            let after = final(dwell)@[id];
            &&& final(dwell)@.contains_key(id)
            &&& after.last_notified == before.last_notified
            &&& after.title == before.title
            &&& before.due(now) is None ==> after == before
            &&& before.due(now) is Some ==> after.waiting_since is None && after.idle_since is None
                && after.error_since is None
            &&& forall|i: int|
                0 <= i < res@.len() && (#[trigger] res@[i]).instance_id@ == id ==> Some(
                    res@[i].event,
                ) == before.due(now) && res@[i].title@ == before.title@
            &&& before.due(now) is Some <==> exists|i: int|
                0 <= i < res@.len() && #[trigger] res@[i].instance_id@ == id
        }),
{
    let order = old(dwell).order();
    let list = due_list(order, old(dwell)@, now);
    law_listed_are_the_due(order, old(dwell)@, now);
    let views = crate::push::dwell::due_views(res@);
    assert(views == list);
    assert forall|i: int| 0 <= i < res@.len() implies #[trigger] list[i] == res@[i]@ by {
        assert(views[i] == res@[i]@);
    }
    assert(list.len() == res@.len());
    assert(order.contains(id));
    assert forall|i: int| 0 <= i < res@.len() && (#[trigger] res@[i]).instance_id@ == id implies
        Some(res@[i].event) == old(dwell)@[id].due(now) && res@[i].title@
        == old(dwell)@[id].title@ by {
        assert(list[i] == res@[i]@);
    }
    if old(dwell)@[id].due(now) is Some {
        let k = choose|k: int| 0 <= k < list.len() && #[trigger] list[k].id == id;
        assert(res@[k].instance_id@ == id);
    }
    if exists|i: int| 0 <= i < res@.len() && #[trigger] res@[i].instance_id@ == id {
        let i = choose|i: int| 0 <= i < res@.len() && #[trigger] res@[i].instance_id@ == id;
        assert(list[i].id == id);
    }
}

/// `suppress_reason` gives a reason exactly while a dashboard is in use, the
/// terminal's first.
pub proof fn law_suppress_reason_names_the_dashboard(
    tui_active: bool,
    web_active: bool,
    res: Option<SuppressReason>,
)
    requires
        call_ensures(suppress_reason, (tui_active, web_active), res),
    ensures
        res == Some(SuppressReason::TuiActive) <==> tui_active,
        res == Some(SuppressReason::WebActive) <==> web_active && !tui_active,
{
}

/// `note_reason` remembers the reason and tells of it exactly when it changes.
pub proof fn law_note_reason_tells_changes(
    last: &mut Option<SuppressReason>,
    reason: Option<SuppressReason>,
    log: SuppressLog,
)
    requires
        call_ensures(note_reason, (last, reason), log),
    ensures
        *final(last) == reason,
        log == SuppressLog::Nothing <==> *old(last) == reason,
        log matches SuppressLog::Suppressed(r) ==> *old(last) is None && reason == Some(r),
        log matches SuppressLog::ReasonChanged(r) ==> *old(last) is Some && reason == Some(r),
        log matches SuppressLog::Resumed(r) ==> *old(last) == Some(r) && reason is None,
{
}

/// `payload_for` leads to the session and ends in its title.
pub proof fn law_payload_for_leads_to_the_session(due: &Due, agent: &str, res: PushPayload)
    requires
        call_ensures(payload_for, (due, agent), res),
    ensures
        res.session_id@ == due.instance_id@,
        res.url@ == "/session/"@ + due.instance_id@,
        res.tag@ == "session-"@ + due.instance_id@,
        due.event == NotificationEvent::Waiting ==> res.title@ == agent@ + " is waiting"@,
        due.event == NotificationEvent::Idle ==> res.title@ == "Session finished"@,
        due.event == NotificationEvent::Error ==> res.title@ == "Session error"@,
        ({
            let words = if due.event == NotificationEvent::Waiting {
                "Waiting for input"@
            } else if due.event == NotificationEvent::Idle {
                "Agent is idle"@
            } else {
                "Agent errored"@
            };
            res.body@ == if due.title@.len() == 0 {
                words
            } else {
                words + ": "@ + due.title@
            }
        }),
{
    assert(res@.session_id == res.session_id@);
}

/// Every subscription of the store is among those that get something.
pub open spec fn reaches_all(sent: Seq<Delivery>, store: SubscriptionStore) -> bool {
    &&& sent.len() == store@.len()
    &&& forall|key: Seq<char>| #[trigger]
        store@.contains_key(key) ==> exists|k: int|
            0 <= k < sent.len() && (#[trigger] sent[k]).subscription == store@[key]
}

/// `fire_due_pushes` does nothing at all without a store, and sends nothing and
/// touches no timer while a dashboard is in use.
pub proof fn law_fire_due_pushes_holds_back(
    dwell: &mut Keyed<DwellState>,
    last: &mut Option<SuppressReason>,
    store: Option<&SubscriptionStore>,
    tui_active: bool,
    web_active: bool,
    now: Instant,
    instances: &Vec<Instance>,
    web: &WebConfig,
    agent: &str,
    res: FirePlan,
)
    requires
        call_ensures(
            fire_due_pushes,
            (dwell, last, store, tui_active, web_active, now, instances, web, agent),
            res,
        ),
        store is None || tui_active || web_active,
    ensures
        final(dwell)@ == old(dwell)@,
        res.deliveries@.len() == 0,
        store is None ==> *final(last) == *old(last) && res.log == SuppressLog::Nothing,
        store is Some ==> *final(last) == Some(
            if tui_active {
                SuppressReason::TuiActive
            } else {
                SuppressReason::WebActive
            },
        ),
{
}

/// `fire_due_pushes` tells every subscription, once, of every session that is
/// due, stands anywhere among the sessions and wants the push; and that starts
/// the session's cooldown where there is anybody to tell.
pub proof fn law_fire_due_pushes_tells_everyone(
    dwell: &mut Keyed<DwellState>,
    last: &mut Option<SuppressReason>,
    store: &SubscriptionStore,
    now: Instant,
    instances: &Vec<Instance>,
    web: &WebConfig,
    agent: &str,
    res: FirePlan,
    id: Seq<char>,
    event: NotificationEvent,
    i: int,
    key: Seq<char>,
)
    requires
        call_ensures(
            fire_due_pushes,
            (dwell, last, Some(store), false, false, now, instances, web, agent),
            res,
        ),
        old(dwell)@.contains_key(id),
        old(dwell)@[id].due(now) == Some(event),
        0 <= i < instances@.len(),
        instances@[i].id@ == id,
        forall|j: int| 0 <= j < i ==> #[trigger] instances@[j].id@ != id,
        wants_push(event, *web, Some(instances@[i])),
        store@.contains_key(key),
    ensures
        ({
            let sent = for_session(delivery_views(res.deliveries@), id);
            &&& sent.len() == store@.len()
            &&& exists|k: int|
                0 <= k < sent.len() && (#[trigger] sent[k]).subscription == store@[key]
            &&& forall|k: int|
                0 <= k < sent.len() ==> (#[trigger] sent[k]).payload.session_id == id
        }),
        *final(last) is None,
        final(dwell)@.contains_key(id),
        final(dwell)@[id].last_notified == Some(now),
        final(dwell)@[id].waiting_since is None,
        final(dwell)@[id].idle_since is None,
        final(dwell)@[id].error_since is None,
{
    let subs = listed(store.order(), store@);
    let order = old(dwell).order();
    assert(order.contains(id));
    law_due_session_reaches_everyone(
        order,
        old(dwell)@,
        instances@,
        *web,
        subs,
        agent@,
        now,
        id,
        event,
        i,
    );
    law_snapshot_has_every_subscription(store.order(), store@);
    let sent = for_session(delivery_views(res.deliveries@), id);
    let k = store.order().index_of(key);
    assert(store.order().contains(key));
    assert(subs[k] == store@[key]);
    assert(sent[k].subscription == subs[k]);
    assert(store@.len() > 0);
    law_first_session_with_the_id_is_found(instances@, id);
    law_tick_touches_only_what_is_due(old(dwell)@, instances@, *web, true, now, id);
    assert(instances@[i].id@ == id);
}

/// `fire_due_pushes` sends nothing for a session that is not due, is not among the
/// sessions, or does not want the push, and starts no cooldown for it.
pub proof fn law_fire_due_pushes_sends_nothing_else(
    dwell: &mut Keyed<DwellState>,
    last: &mut Option<SuppressReason>,
    store: &SubscriptionStore,
    now: Instant,
    instances: &Vec<Instance>,
    web: &WebConfig,
    agent: &str,
    res: FirePlan,
    id: Seq<char>,
)
    requires
        call_ensures(
            fire_due_pushes,
            (dwell, last, Some(store), false, false, now, instances, web, agent),
            res,
        ),
        !old(dwell)@.contains_key(id) || old(dwell)@[id].due(now) is None || forall|j: int|
            0 <= j < instances@.len() && #[trigger] instances@[j].id@ == id ==> !wants_push(
                old(dwell)@[id].due(now)->0,
                *web,
                Some(instances@[j]),
            ),
    ensures
        for_session(delivery_views(res.deliveries@), id).len() == 0,
        final(dwell)@.contains_key(id) ==> old(dwell)@.contains_key(id)
            && final(dwell)@[id].last_notified == old(dwell)@[id].last_notified,
        old(dwell)@.contains_key(id) && old(dwell)@[id].due(now) is None
            ==> final(dwell)@.contains_key(id) && final(dwell)@[id] == old(dwell)@[id],
{
    let subs = listed(store.order(), store@);
    law_nothing_is_sent_unasked(
        old(dwell).order(),
        old(dwell)@,
        instances@,
        *web,
        subs,
        agent@,
        now,
        id,
    );
    crate::push::firing::lemma_found_is_listed(instances@, id);
}

/// `consumer_step` notes a change, tells a lag, ends on a closed channel, and acts
/// on time only at a tick; and only a change or a tick touches what is
/// remembered.
pub proof fn law_consumer_step_sees_to_its_event(
    event: ConsumerEvent,
    dwell: &mut Keyed<DwellState>,
    last: &mut Option<SuppressReason>,
    store: &SubscriptionStore,
    tui_active: bool,
    web_active: bool,
    now: Instant,
    instances: &Vec<Instance>,
    web: &WebConfig,
    agent: &str,
    res: ConsumerAction,
)
    requires
        call_ensures(
            consumer_step,
            (
                event,
                dwell,
                last,
                store,
                tui_active,
                web_active,
                now,
                instances,
                web,
                agent,
            ),
            res,
        ),
    ensures
        res is Send <==> event is Tick,
        res is Exit <==> event is Closed,
        res is Continue <==> event is Changed,
        event matches ConsumerEvent::Lagged(n) ==> res == ConsumerAction::WarnLagged(n),
        event is Lagged || event is Closed ==> final(dwell)@ == old(dwell)@,
        !(event is Tick) ==> *final(last) == *old(last),
        event is Tick && (tui_active || web_active) ==> final(dwell)@ == old(dwell)@
            && res->Send_0.deliveries@.len() == 0 && *final(last) is Some,
        event is Tick && !tui_active && !web_active ==> *final(last) is None,
        event matches ConsumerEvent::Changed(change) ==> change.new == Status::Waiting
            ==> final(dwell)@.contains_key(change.instance_id@)
            && final(dwell)@[change.instance_id@].waiting_since == Some(now),
{
}

/// `fire_wake_fired_push` tells every subscription once, by a payload that leads
/// to the session, exactly if there is a store, the settings allow it and no
/// dashboard is in use.
pub proof fn law_wake_push_reaches_everyone(
    store: Option<&SubscriptionStore>,
    web: &WebConfig,
    tui_active: bool,
    web_active: bool,
    session_id: &str,
    session_title: &str,
    reason: Option<&str>,
    res: Vec<Delivery>,
)
    requires
        call_ensures(
            fire_wake_fired_push,
            (store, web, tui_active, web_active, session_id, session_title, reason),
            res,
        ),
    ensures
        store is None || tui_active || web_active || !web.notifications_enabled
            || !web.notify_on_wake_fire ==> res@.len() == 0,
        store matches Some(s) ==> !tui_active && !web_active && web.notifications_enabled
            && web.notify_on_wake_fire ==> reaches_all(res@, *s),
        forall|k: int|
            0 <= k < res@.len() ==> {
                let payload = (#[trigger] res@[k]).payload;
                &&& payload.session_id@ == session_id@
                &&& payload.url@ == "/session/"@ + session_id@
                &&& payload.tag@ == "session-"@ + session_id@
                &&& payload.title@ == "Scheduled wakeup fired"@
                &&& session_title@.len() == 0 && reason is None ==> payload.body@
                    == "Agent resumed"@
                &&& session_title@.len() > 0 && reason is None ==> payload.body@
                    == "Agent resumed"@ + ": "@ + session_title@
                &&& reason matches Some(why) ==> why@.len() > 0 ==> payload.body@ == (
                if session_title@.len() == 0 {
                    "Agent resumed"@
                } else {
                    "Agent resumed"@ + ": "@ + session_title@
                }) + ": "@ + why@
            },
{
    let views = delivery_views(res@);
    assert(views.len() == res@.len());
    assert forall|k: int| 0 <= k < res@.len() implies #[trigger] views[k] == res@[k]@ by {}
    if store is Some {
        let s = store->0;
        if !tui_active && !web_active && web.notifications_enabled && web.notify_on_wake_fire {
            let subs = listed(s.order(), s@);
            law_snapshot_has_every_subscription(s.order(), s@);
            assert forall|key: Seq<char>| #[trigger] s@.contains_key(key) implies exists|k: int|
                0 <= k < res@.len() && (#[trigger] res@[k]).subscription == s@[key] by {
                let k = s.order().index_of(key);
                assert(s.order().contains(key));
                assert(subs[k] == s@[key]);
                assert(views[k].subscription == subs[k]);
                assert(res@[k].subscription == s@[key]);
            }
        }
    }
    assert forall|k: int| 0 <= k < res@.len() implies {
        let payload = (#[trigger] res@[k]).payload;
        &&& payload.session_id@ == session_id@
        &&& payload.url@ == "/session/"@ + session_id@
        &&& payload.tag@ == "session-"@ + session_id@
        &&& payload.title@ == "Scheduled wakeup fired"@
        &&& session_title@.len() == 0 && reason is None ==> payload.body@ == "Agent resumed"@
        &&& session_title@.len() > 0 && reason is None ==> payload.body@ == "Agent resumed"@ + ": "@
            + session_title@
        &&& reason matches Some(why) ==> why@.len() > 0 ==> payload.body@ == (
        if session_title@.len() == 0 {
            "Agent resumed"@
        } else {
            "Agent resumed"@ + ": "@ + session_title@
        }) + ": "@ + why@
    } by {
        assert(views[k].payload == res@[k].payload@);
    }
}

/// A tick of the consumer, while no dashboard is in use, tells every subscription
/// of every session that is due, stands among the sessions and wants the push.
pub proof fn law_consumer_tick_tells_everyone(
    dwell: &mut Keyed<DwellState>,
    last: &mut Option<SuppressReason>,
    store: &SubscriptionStore,
    now: Instant,
    instances: &Vec<Instance>,
    web: &WebConfig,
    agent: &str,
    res: ConsumerAction,
    id: Seq<char>,
    event: NotificationEvent,
    i: int,
    key: Seq<char>,
)
    requires
        call_ensures(
            consumer_step,
            (
                ConsumerEvent::Tick,
                dwell,
                last,
                store,
                false,
                false,
                now,
                instances,
                web,
                agent,
            ),
            res,
        ),
        old(dwell)@.contains_key(id),
        old(dwell)@[id].due(now) == Some(event),
        0 <= i < instances@.len(),
        instances@[i].id@ == id,
        forall|j: int| 0 <= j < i ==> #[trigger] instances@[j].id@ != id,
        wants_push(event, *web, Some(instances@[i])),
        store@.contains_key(key),
    ensures
        ({
            let sent = for_session(delivery_views(res->Send_0.deliveries@), id);
            &&& sent.len() == store@.len()
            &&& exists|k: int|
                0 <= k < sent.len() && (#[trigger] sent[k]).subscription == store@[key]
            &&& forall|k: int|
                0 <= k < sent.len() ==> (#[trigger] sent[k]).payload.session_id == id
        }),
        final(dwell)@.contains_key(id),
        final(dwell)@[id].last_notified == Some(now),
{
    let subs = listed(store.order(), store@);
    let order = old(dwell).order();
    assert(order.contains(id));
    law_due_session_reaches_everyone(
        order,
        old(dwell)@,
        instances@,
        *web,
        subs,
        agent@,
        now,
        id,
        event,
        i,
    );
    law_snapshot_has_every_subscription(store.order(), store@);
    let sent = for_session(delivery_views(res->Send_0.deliveries@), id);
    let k = store.order().index_of(key);
    assert(store.order().contains(key));
    assert(subs[k] == store@[key]);
    assert(sent[k].subscription == subs[k]);
    assert(store@.len() > 0);
    law_first_session_with_the_id_is_found(instances@, id);
    law_tick_touches_only_what_is_due(old(dwell)@, instances@, *web, true, now, id);
    assert(instances@[i].id@ == id);
}

/// `settle` drops the subscription exactly if it is gone and was not made again,
/// says so, and touches no other.
pub proof fn law_settle_drops_only_the_gone(
    store: &mut SubscriptionStore,
    sent_to: &Subscription,
    outcome: SendOutcome,
    res: bool,
    key: Seq<char>,
)
    requires
        call_ensures(settle, (store, sent_to, outcome), res),
        old(store)@.contains_key(key),
    ensures
        key != sent_to.endpoint@ ==> final(store)@.contains_key(key) && final(store)@[key]
            == old(store)@[key],
        key == sent_to.endpoint@ ==> {
            &&& res <==> outcome == SendOutcome::Gone && old(store)@[key].generation
                == sent_to.generation
            &&& final(store)@.contains_key(key) <==> !res
            &&& !res ==> final(store)@[key] == old(store)@[key]
        },
{
}

/// `upsert` files the subscription under its endpoint and leaves the others; one
/// that was there before counts a generation up and keeps its first time.
pub proof fn law_upsert_files_one(
    store: &mut SubscriptionStore,
    sub: Subscription,
    other: Seq<char>,
)
    requires
        call_ensures(SubscriptionStore::upsert, (store, sub), ()),
        other != sub.endpoint@,
    ensures
        ({
            let before = old(store)@;
            let after = final(store)@;
            let key = sub.endpoint@;
            &&& after.contains_key(other) <==> before.contains_key(other)
            &&& after[other] == before[other]
            &&& after.contains_key(key)
            &&& after[key] == (Subscription {
                generation: after[key].generation,
                created_at: after[key].created_at,
                ..sub
            })
            &&& !before.contains_key(key) ==> after[key] == sub
            &&& before.contains_key(key) ==> after[key].created_at == before[key].created_at
            &&& before.contains_key(key) && before[key].generation < u64::MAX
                ==> after[key].generation == before[key].generation + 1
        }),
{
}

/// `remove_if_owner` drops the endpoint exactly if it is there and belongs to the
/// owner, says so, and touches no other.
pub proof fn law_only_the_owner_removes(
    store: &mut SubscriptionStore,
    endpoint: &str,
    owner: &TokenHash,
    removed: bool,
    key: Seq<char>,
)
    requires
        call_ensures(SubscriptionStore::remove_if_owner, (store, endpoint, owner), removed),
    ensures
        removed <==> old(store)@.contains_key(endpoint@)
            && old(store)@[endpoint@].owner_token_hash@ == owner@,
        removed ==> !final(store)@.contains_key(endpoint@),
        !removed ==> final(store)@ == old(store)@,
        key != endpoint@ ==> (final(store)@.contains_key(key) <==> old(store)@.contains_key(key)),
        key != endpoint@ ==> final(store)@[key] == old(store)@[key],
{
}

/// `gc_stale` drops the endpoint exactly if it still has the generation that was
/// seen, says so, and touches no other.
pub proof fn law_gc_stale_spares_the_renewed(
    store: &mut SubscriptionStore,
    endpoint: &str,
    seen: u64,
    removed: bool,
    key: Seq<char>,
)
    requires
        call_ensures(SubscriptionStore::gc_stale, (store, endpoint, seen), removed),
    ensures
        removed <==> old(store)@.contains_key(endpoint@) && old(store)@[endpoint@].generation
            == seen,
        removed ==> !final(store)@.contains_key(endpoint@),
        !removed ==> final(store)@ == old(store)@,
        key != endpoint@ ==> (final(store)@.contains_key(key) <==> old(store)@.contains_key(key)),
        key != endpoint@ ==> final(store)@[key] == old(store)@[key],
{
}

/// `retain_owners` keeps a subscription, as it is, exactly if its token's hash is
/// among the valid ones, and counts those that it drops.
pub proof fn law_retain_owners_goes_by_the_hash(
    store: &mut SubscriptionStore,
    valid: &[TokenHash],
    removed: usize,
    key: Seq<char>,
)
    requires
        call_ensures(SubscriptionStore::retain_owners, (store, valid), removed),
        old(store)@.contains_key(key),
    ensures
        final(store)@.contains_key(key) <==> exists|i: int|
            0 <= i < valid@.len() && #[trigger] valid@[i]@
                == old(store)@[key].owner_token_hash@,
        final(store)@.contains_key(key) ==> final(store)@[key] == old(store)@[key],
        removed + final(store)@.len() == old(store)@.len(),
{
}

/// `snapshot` lists every subscription, and nothing else.
pub proof fn law_snapshot_lists_all(
    store: &SubscriptionStore,
    res: Vec<Subscription>,
    key: Seq<char>,
)
    requires
        call_ensures(SubscriptionStore::snapshot, (store,), res),
    ensures
        res@.len() == store@.len(),
        store@.contains_key(key) ==> exists|i: int|
            0 <= i < res@.len() && #[trigger] res@[i] == store@[key],
        forall|i: int|
            0 <= i < res@.len() ==> store@.contains_key((#[trigger] res@[i]).endpoint@)
                && store@[res@[i].endpoint@] == res@[i],
{
    let order = store.order();
    law_snapshot_has_every_subscription(order, store@);
    if store@.contains_key(key) {
        assert(order.contains(key));
        let i = order.index_of(key);
        assert(res@[i] == store@[key]);
    }
    assert forall|i: int| 0 <= i < res@.len() implies store@.contains_key(
        (#[trigger] res@[i]).endpoint@,
    ) && store@[res@[i].endpoint@] == res@[i] by {
        assert(order.contains(order[i]));
        assert(store@.contains_key(order[i]));
        assert(res@[i] == store@[order[i]]);
    }
}

/// `for_owner` lists exactly the subscriptions of the owner.
pub proof fn law_for_owner_lists_the_owners(
    store: &SubscriptionStore,
    owner: &TokenHash,
    res: Vec<Subscription>,
    key: Seq<char>,
)
    requires
        call_ensures(SubscriptionStore::for_owner, (store, owner), res),
    ensures
        store@.contains_key(key) && store@[key].owner_token_hash@ == owner@ ==> res@.contains(
            store@[key],
        ),
        forall|i: int|
            0 <= i < res@.len() ==> (#[trigger] res@[i]).owner_token_hash@ == owner@
                && store@.contains_key(res@[i].endpoint@) && store@[res@[i].endpoint@] == res@[i],
{
    let order = store.order();
    lemma_owners_are_listed(order, store@, owner@);
    if store@.contains_key(key) && store@[key].owner_token_hash@ == owner@ {
        assert(order.contains(key));
    }
    assert forall|i: int| 0 <= i < res@.len() implies (#[trigger] res@[i]).owner_token_hash@
        == owner@ && store@.contains_key(res@[i].endpoint@) && store@[res@[i].endpoint@]
        == res@[i] by {
        let j = choose|j: int| 0 <= j < order.len() && store@[#[trigger] order[j]] == res@[i];
        assert(order.contains(order[j]));
        assert(store@.contains_key(order[j]));
    }
}

proof fn lemma_owners_are_listed(order: Seq<Seq<char>>, subs: SubscriptionMap, owner: Seq<u8>)
    ensures
        forall|k: Seq<char>|
            #[trigger] order.contains(k) && subs[k].owner_token_hash@ == owner ==> listed_for(
                order,
                subs,
                owner,
            ).contains(subs[k]),
        forall|i: int|
            0 <= i < listed_for(order, subs, owner).len() ==> (#[trigger] listed_for(
                order,
                subs,
                owner,
            )[i]).owner_token_hash@ == owner && exists|j: int|
                0 <= j < order.len() && subs[#[trigger] order[j]] == listed_for(
                    order,
                    subs,
                    owner,
                )[i],
    decreases order.len(),
{
    if order.len() > 0 {
        let head = order.drop_last();
        let before = listed_for(head, subs, owner);
        let list = listed_for(order, subs, owner);
        lemma_owners_are_listed(head, subs, owner);
        assert forall|k: Seq<char>| #[trigger] order.contains(k) && subs[k].owner_token_hash@
            == owner implies list.contains(subs[k]) by {
            if head.contains(k) {
                let i = before.index_of(subs[k]);
                assert(before[i] == subs[k]);
                assert(list[i] == subs[k]);
            } else {
                let j = order.index_of(k);
                if j < head.len() {
                    assert(head[j] == k);
                }
                assert(list[list.len() - 1] == subs[k]);
            }
        }
        assert forall|i: int| 0 <= i < list.len() implies (#[trigger] list[i]).owner_token_hash@
            == owner && exists|j: int|
            0 <= j < order.len() && subs[#[trigger] order[j]] == list[i] by {
            if i < before.len() {
                assert(list[i] == before[i]);
                let j = choose|j: int| 0 <= j < head.len() && subs[#[trigger] head[j]] == before[i];
                assert(order[j] == head[j]);
            } else {
                assert(subs[order[order.len() - 1]] == list[i]);
            }
        }
    }
}

/// `load_or_empty` files every saved endpoint, and of several entries for one the
/// last; without a saved list there is none.
pub proof fn law_load_takes_the_last_entry(
    saved: Option<Vec<Subscription>>,
    res: SubscriptionStore,
    key: Seq<char>,
)
    requires
        call_ensures(SubscriptionStore::load_or_empty, (saved,), res),
    ensures
        saved is None ==> !res@.contains_key(key),
        saved matches Some(list) ==> {
            &&& res@.contains_key(key) <==> exists|i: int|
                0 <= i < list@.len() && #[trigger] list@[i].endpoint@ == key
            &&& forall|i: int|
                0 <= i < list@.len() && #[trigger] list@[i].endpoint@ == key && (forall|j: int|
                    i < j < list@.len() ==> #[trigger] list@[j].endpoint@ != key) ==> res@[key]
                    == list@[i]
        },
{
    if saved is Some {
        law_last_saved_entry_counts(saved->0@, key);
    }
}

/// `subscribe` files what the browser sent under the caller's token, or refuses and
/// changes nothing; nobody else's subscription changes.
pub proof fn law_subscribe_files_what_was_sent(
    state: &mut AppState,
    owner: &TokenHash,
    user_agent: Option<&str>,
    body: SubscribeBody,
    now: Timestamp,
    res: Result<(), StatusCode>,
    other: Seq<char>,
)
    requires
        call_ensures(subscribe, (state, owner, user_agent, body, now), res),
        other != body.endpoint@,
    ensures
        ({
            let whole = body.endpoint@.len() > 0 && body.keys.p256dh@.len() > 0
                && body.keys.auth@.len() > 0;
            &&& res is Ok <==> old(state).push is Some && whole
            &&& old(state).push is None ==> res == Err::<(), StatusCode>(StatusCode::NotFound)
            &&& old(state).push is Some && !whole ==> res == Err::<(), StatusCode>(
                StatusCode::BadRequest,
            )
            &&& res is Err ==> *final(state) == *old(state)
            &&& res is Ok ==> {
                let before = old(state).push->0.store@;
                let after = final(state).push->0.store@;
                let key = body.endpoint@;
                &&& final(state).push is Some
                &&& after.contains_key(key)
                &&& after[key].endpoint@ == body.endpoint@
                &&& after[key].p256dh@ == body.keys.p256dh@
                &&& after[key].auth@ == body.keys.auth@
                &&& after[key].owner_token_hash@ == owner@
                &&& user_agent is None ==> after[key].user_agent@.len() == 0
                &&& user_agent matches Some(text) ==> after[key].user_agent@ == text@
                &&& !before.contains_key(key) ==> after[key].created_at == now
                    && after[key].generation == 0
                &&& before.contains_key(key) ==> after[key].created_at == before[key].created_at
                &&& before.contains_key(key) && before[key].generation < u64::MAX
                    ==> after[key].generation == before[key].generation + 1
                &&& after.contains_key(other) <==> before.contains_key(other)
                &&& after[other] == before[other]
                &&& final(state).push->0.vapid == old(state).push->0.vapid
            }
        }),
{
}

/// `unsubscribe` drops the endpoint exactly if it is the caller's own, and touches
/// no other; whatever is not the caller's is refused alike, there or not.
pub proof fn law_unsubscribe_drops_ones_own(
    state: &mut AppState,
    owner: &TokenHash,
    body: &EndpointBody,
    res: Result<(), StatusCode>,
    other: Seq<char>,
)
    requires
        call_ensures(unsubscribe, (state, owner, body), res),
        other != body.endpoint@,
    ensures
        old(state).push is None ==> res == Err::<(), StatusCode>(StatusCode::NotFound),
        old(state).push matches Some(push) ==> {
            let before = push.store@;
            let after = final(state).push->0.store@;
            let key = body.endpoint@;
            let own = before.contains_key(key) && before[key].owner_token_hash@ == owner@;
            &&& final(state).push is Some
            &&& key.len() == 0 ==> res == Err::<(), StatusCode>(StatusCode::BadRequest)
            &&& key.len() > 0 && !own ==> res == Err::<(), StatusCode>(StatusCode::Forbidden)
            &&& key.len() > 0 && own ==> res is Ok && !after.contains_key(key)
            &&& res is Err ==> after == before
            &&& after.contains_key(other) <==> before.contains_key(other)
            &&& after[other] == before[other]
        },
{
}

/// `test` prepares a notification to the caller's own endpoint, and refuses all
/// others just as `unsubscribe` does.
pub proof fn law_test_goes_to_ones_own(
    state: &AppState,
    owner: &TokenHash,
    body: &EndpointBody,
    res: Result<Delivery, StatusCode>,
)
    requires
        call_ensures(crate::push::handlers::test, (state, owner, body), res),
    ensures
        state.push is None ==> res == Err::<Delivery, StatusCode>(StatusCode::NotFound),
        state.push matches Some(push) ==> {
            let key = body.endpoint@;
            let own = push.store@.contains_key(key) && push.store@[key].owner_token_hash@ == owner@;
            &&& key.len() == 0 ==> res == Err::<Delivery, StatusCode>(StatusCode::BadRequest)
            &&& key.len() > 0 && !own ==> res == Err::<Delivery, StatusCode>(StatusCode::Forbidden)
            &&& key.len() > 0 && own ==> res is Ok && res->Ok_0.subscription == push.store@[key]
                && res->Ok_0.payload.title@ == "Agent of Empires"@
        },
{
}

/// `finish_test` counts the send under what became of it, and drops a subscription
/// that is gone and was not made again; what could not be sent is an error and
/// changes nothing.
pub proof fn law_finish_test_counts_the_send(
    store: &mut SubscriptionStore,
    sent_to: &Subscription,
    outcome: Option<SendOutcome>,
    res: TestReport,
)
    requires
        call_ensures(finish_test, (store, sent_to, outcome), res),
    ensures
        outcome is None <==> res.answer is Err,
        outcome is None ==> res.answer->Err_0 == StatusCode::InternalServerError
            && final(store)@ == old(store)@ && !res.save,
        outcome matches Some(came) ==> {
            let result = res.answer->Ok_0;
            let key = sent_to.endpoint@;
            let drops = came == SendOutcome::Gone && old(store)@.contains_key(key)
                && old(store)@[key].generation == sent_to.generation;
            &&& result.delivered == 1 <==> came == SendOutcome::Delivered
            &&& result.failed == 1 <==> came == SendOutcome::Failed
            &&& result.gone == 1 <==> came == SendOutcome::Gone
            &&& result.delivered + result.failed + result.gone == 1
            &&& res.save == drops
            &&& drops ==> !final(store)@.contains_key(key)
            &&& !drops ==> final(store)@ == old(store)@
        },
{
}

/// A change that was saved is answered without content, and one that was not as an
/// error; the status and the public key are told as they are.
pub proof fn law_plain_answers(
    state: &AppState,
    saved: bool,
    answer: Result<StatusCode, StatusCode>,
    enabled: bool,
    key: Result<String, StatusCode>,
)
    requires
        call_ensures(after_save, (saved,), answer),
        call_ensures(get_status, (state,), enabled),
        call_ensures(get_vapid_public_key, (state,), key),
    ensures
        saved ==> answer == Ok::<StatusCode, StatusCode>(StatusCode::NoContent),
        !saved ==> answer == Err::<StatusCode, StatusCode>(StatusCode::InternalServerError),
        enabled == state.push_enabled,
        state.push is None ==> key == Err::<String, StatusCode>(StatusCode::NotFound),
        state.push matches Some(push) ==> key == Ok::<String, StatusCode>(
            push.vapid.public_b64url,
        ),
{
}

/// The answers have the numbers that the protocol gives them.
pub proof fn law_status_codes_have_their_numbers(status: StatusCode, code: u16)
    requires
        call_ensures(StatusCode::as_u16, (status,), code),
    ensures
        200 <= code < 300 <==> status == StatusCode::NoContent,
        500 <= code < 600 <==> status == StatusCode::InternalServerError,
        code == 204 <==> status == StatusCode::NoContent,
        code == 400 <==> status == StatusCode::BadRequest,
        code == 403 <==> status == StatusCode::Forbidden,
        code == 404 <==> status == StatusCode::NotFound,
        code == 500 <==> status == StatusCode::InternalServerError,
{
}

/// `PushState::init` starts with the key pair and what was saved, and fails just
/// where there is no key pair.
pub proof fn law_init_needs_a_keypair(
    vapid: Result<VapidKeypair, VapidError>,
    saved: Option<Vec<Subscription>>,
    res: Result<PushState, VapidError>,
    key: Seq<char>,
)
    requires
        call_ensures(PushState::init, (vapid, saved), res),
    ensures
        res is Ok <==> vapid is Ok,
        vapid matches Err(e) ==> res->Err_0 == e,
        res matches Ok(push) ==> {
            &&& push.vapid == vapid->Ok_0
            &&& saved is None ==> !push.store@.contains_key(key)
            &&& saved matches Some(list) ==> (push.store@.contains_key(key) <==> exists|i: int|
                0 <= i < list@.len() && #[trigger] list@[i].endpoint@ == key)
        },
{
    if saved is Some {
        law_last_saved_entry_counts(saved->0@, key);
    }
}

/// A key pair that was saved and is loaded again is the same, and was saved with
/// the time that was given.
pub proof fn law_saved_keypair_loads_again(
    kp: &VapidKeypair,
    created_at: Timestamp,
    file: VapidKeypairFile,
    res: Result<VapidKeypair, VapidError>,
)
    requires
        call_ensures(VapidKeypair::persist, (kp, created_at), file),
        call_ensures(VapidKeypair::load, (file,), res),
        pkcs8_key(kp.private_pem@) == Some(kp.signing_key@),
    ensures
        file.created_at == created_at,
        file.private_pem == kp.private_pem,
        file.public_b64url == kp.public_b64url,
        res is Ok,
        res->Ok_0.signing_key@ == kp.signing_key@,
        res->Ok_0.public_b64url == kp.public_b64url,
        res->Ok_0.private_pem == kp.private_pem,
{
}

/// `load` fails just where the document holds no key.
pub proof fn law_load_needs_a_key(
    file: VapidKeypairFile,
    res: Result<VapidKeypair, VapidError>,
)
    requires
        call_ensures(VapidKeypair::load, (file,), res),
    ensures
        res is Ok <==> pkcs8_key(file.private_pem@) is Some,
        res is Ok ==> Some(res->Ok_0.signing_key@) == pkcs8_key(file.private_pem@),
        res is Err ==> res->Err_0 is DecodeKey,
{
}

/// `from_seed` takes a seed exactly as the private key that it is, and all that it
/// makes of it belongs to that key.
pub proof fn law_seed_is_the_key(seed: &[u8; 32], res: Result<VapidKeypair, VapidError>)
    requires
        call_ensures(VapidKeypair::from_seed, (seed,), res),
    ensures
        res matches Ok(kp) ==> {
            &&& kp.signing_key@ == seed@
            &&& pkcs8_pem(seed@) == Some(kp.private_pem@)
            &&& pkcs8_key(kp.private_pem@) == Some(seed@)
            &&& kp.public_b64url@ == base64url(public_point(seed@))
            &&& kp.public_b64url@.len() == 87
        },
        res is Ok <==> is_private_key(seed@) && pkcs8_pem(seed@) is Some,
        res is Err && !is_private_key(seed@) ==> res->Err_0 is DeriveKey,
        res is Err && is_private_key(seed@) ==> res->Err_0 is EncodeKey,
{
}

/// `load_or_generate` goes to loading where the file is found, to the lock where it
/// is not, and makes a key pair only where it is missing under the lock too.
pub proof fn law_load_or_generate_looks_twice(step: KeyFileStep, found: bool, next: KeyFileStep)
    requires
        call_ensures(VapidKeypair::load_or_generate, (step, found), next),
    ensures
        step == KeyFileStep::CheckFile && found ==> next == KeyFileStep::Load,
        step == KeyFileStep::CheckFile && !found ==> next == KeyFileStep::AcquireLock,
        step == KeyFileStep::AcquireLock ==> next == KeyFileStep::RecheckFile,
        next == KeyFileStep::GenerateAndPersist <==> step == KeyFileStep::RecheckFile && !found,
        next == KeyFileStep::ReleaseThenLoad <==> step == KeyFileStep::RecheckFile && found,
        step == KeyFileStep::ReleaseThenLoad ==> next == KeyFileStep::Load,
        step == KeyFileStep::GenerateAndPersist ==> next == KeyFileStep::ReleaseThenDone,
        step == KeyFileStep::Load || step == KeyFileStep::ReleaseThenDone || step
            == KeyFileStep::Done ==> next == KeyFileStep::Done,
{
}

/// `sha256_token` goes by the bytes of the token alone: the same token has the same
/// owner, and `same_hash` tells owners apart by their hashes.
pub proof fn law_same_token_same_owner(
    a: &str,
    b: &str,
    hash_a: TokenHash,
    hash_b: TokenHash,
    same: bool,
)
    requires
        call_ensures(sha256_token, (a,), hash_a),
        call_ensures(sha256_token, (b,), hash_b),
        call_ensures(same_hash, (&hash_a, &hash_b), same),
    ensures
        a@ == b@ ==> same,
        same <==> hash_a@ == hash_b@,
        hash_a@ == sha256_digest(vstd::utf8::encode_utf8(a@)),
{
}

/// Each state has its own time to last: five seconds for a wait, two for the others.
pub proof fn law_dwell_times(event: NotificationEvent, ms: u64)
    requires
        call_ensures(NotificationEvent::dwell_ms, (event,), ms),
    ensures
        event == NotificationEvent::Waiting ==> ms == 5_000,
        event != NotificationEvent::Waiting ==> ms == 2_000,
{
}

} // verus!
