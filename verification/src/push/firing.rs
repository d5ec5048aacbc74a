//! What a session's history comes to in pushes, told over the times themselves.
use vstd::prelude::*;

use crate::clock::{elapsed_ms, law_elapsed_counts_milliseconds, Instant};
use crate::push::dwell::{
    after_change, after_collecting, due_list, wants_push, Due, DueView, DwellMap, DwellState,
    NotificationEvent, StatusChange,
};
use crate::push::laws::law_each_due_session_once;
use crate::push::notify::{
    after_tick, all_deliveries, concerns, deliveries_for, delivery_views, due_payload,
    lemma_due_ids, reason_log, reason_to_hold, settled, tells_wakeup, to_each, wake_payload,
    Delivery, DeliveryView, PushPayload, SendOutcome, SuppressLog, SuppressReason,
};
use crate::push::store::{Subscription, SubscriptionMap};
use crate::session::{
    find_instance, law_first_session_with_the_id_is_found, Instance, Status, WebConfig,
};

verus! {

/// A state that has lasted is due, and nothing else is: with one timer running,
/// its push is due exactly once it has run for five seconds (waiting) or two
/// (idle, error) and the last push, if there was one, lies a minute back.
pub proof fn law_lasting_state_is_due(state: DwellState, now: Instant)
    ensures
        ({
            let rested = state.last_notified is None || elapsed_ms(state.last_notified->0, now)
                >= 60_000;
            &&& state.waiting_since is Some && state.idle_since is None && state.error_since is None
                && rested && elapsed_ms(state.waiting_since->0, now) >= 5_000 ==> state.due(now)
                == Some(NotificationEvent::Waiting)
            &&& state.waiting_since is None && state.idle_since is Some && state.error_since is None
                && rested && elapsed_ms(state.idle_since->0, now) >= 2_000 ==> state.due(now)
                == Some(NotificationEvent::Idle)
            &&& state.waiting_since is None && state.idle_since is None && state.error_since is Some
                && rested && elapsed_ms(state.error_since->0, now) >= 2_000 ==> state.due(now)
                == Some(NotificationEvent::Error)
            &&& state.due(now) is Some ==> rested
            &&& state.due(now) == Some(NotificationEvent::Waiting) ==> state.waiting_since is Some
                && elapsed_ms(state.waiting_since->0, now) >= 5_000
            &&& state.due(now) == Some(NotificationEvent::Idle) ==> state.idle_since is Some
                && elapsed_ms(state.idle_since->0, now) >= 2_000
            &&& state.due(now) == Some(NotificationEvent::Error) ==> state.error_since is Some
                && elapsed_ms(state.error_since->0, now) >= 2_000
        }),
{
}

/// Where several timers have run for long enough, a wait is told of before an
/// error, and an error before idleness; a timer that has not keeps none back.
pub proof fn law_waiting_goes_before_error_before_idle(state: DwellState, now: Instant)
    requires
        state.last_notified is None || elapsed_ms(state.last_notified->0, now) >= 60_000,
    ensures
        state.waiting_since is Some && elapsed_ms(state.waiting_since->0, now) >= 5_000
            ==> state.due(now) == Some(NotificationEvent::Waiting),
        state.error_since is Some && elapsed_ms(state.error_since->0, now) >= 2_000 ==> state.due(
            now,
        ) == Some(NotificationEvent::Error) || (state.due(now) == Some(NotificationEvent::Waiting)
            && state.waiting_since is Some && elapsed_ms(state.waiting_since->0, now) >= 5_000),
        state.idle_since is Some && elapsed_ms(state.idle_since->0, now) >= 2_000 ==> state.due(
            now,
        ) is Some,
        state.due(now) == Some(NotificationEvent::Idle) ==> state.error_since is None
            || elapsed_ms(state.error_since->0, now) < 2_000,
{
}

/// A session that enters a state and stays in it has its push due once five
/// seconds (waiting) or two (idle, error) have passed, counted from the change,
/// and not before; any other state raises none.
pub proof fn law_entered_state_comes_due(
    dwell: DwellMap,
    change: StatusChange,
    entered: Instant,
    now: Instant,
)
    requires
        entered.nanos <= now.nanos,
        !dwell.contains_key(change.instance_id@) || dwell[change.instance_id@].last_notified is None,
    ensures
        ({
            let after = after_change(dwell, change, entered);
            let id = change.instance_id@;
            let passed = now.nanos - entered.nanos;
            let due = if after.contains_key(id) {
                after[id].due(now)
            } else {
                None
            };
            &&& change.new == Status::Waiting ==> (due == if passed >= 5_000_000_000 {
                Some(NotificationEvent::Waiting)
            } else {
                None
            })
            &&& change.new == Status::Idle ==> (due == if passed >= 2_000_000_000 {
                Some(NotificationEvent::Idle)
            } else {
                None
            })
            &&& change.new == Status::Error ==> (due == if passed >= 2_000_000_000 {
                Some(NotificationEvent::Error)
            } else {
                None
            })
            &&& change.new != Status::Waiting && change.new != Status::Idle && change.new
                != Status::Error ==> due is None
        }),
{
    law_elapsed_counts_milliseconds(entered, now);
}

/// A push within the last minute holds every push of the session back, and one
/// that lies further back holds none.
pub proof fn law_last_push_holds_back_for_a_minute(
    state: DwellState,
    earlier: DwellState,
    last: Instant,
    now: Instant,
)
    requires
        last.nanos <= now.nanos,
        state.last_notified == Some(last),
        earlier == (DwellState { last_notified: None, ..state }),
    ensures
        now.nanos - last.nanos < 60_000_000_000 ==> state.due(now) is None,
        now.nanos - last.nanos >= 60_000_000_000 ==> state.due(now) == earlier.due(now),
{
    law_elapsed_counts_milliseconds(last, now);
}

/// A change starts the timer of the new status and stops the others, keeps the
/// time of the last push, and takes over the title; a session that stops,
/// hibernates or is deleted is forgotten.
pub proof fn law_change_restarts_the_timers(dwell: DwellMap, change: StatusChange, now: Instant)
    ensures
        ({
            let after = after_change(dwell, change, now);
            let id = change.instance_id@;
            let state = after[id];
            let ends = change.new == Status::Stopped || change.new == Status::Hibernated
                || change.new == Status::Deleting;
            &&& ends <==> !after.contains_key(id)
            &&& !ends ==> state.title == change.instance_title
            &&& !ends && dwell.contains_key(id) ==> state.last_notified == dwell[id].last_notified
            &&& !ends && !dwell.contains_key(id) ==> state.last_notified is None
            &&& !ends ==> (state.waiting_since is Some <==> change.new == Status::Waiting)
            &&& !ends ==> (state.idle_since is Some <==> change.new == Status::Idle)
            &&& !ends ==> (state.error_since is Some <==> change.new == Status::Error)
            &&& change.new == Status::Waiting ==> state.waiting_since == Some(now)
            &&& change.new == Status::Idle ==> state.idle_since == Some(now)
            &&& change.new == Status::Error ==> state.error_since == Some(now)
            &&& forall|other: Seq<char>|
                other != id ==> {
                    &&& #[trigger] after.contains_key(other) <==> dwell.contains_key(other)
                    &&& after[other] == dwell[other]
                }
        }),
{
    let after = after_change(dwell, change, now);
    assert forall|other: Seq<char>| other != change.instance_id@ implies {
        &&& #[trigger] after.contains_key(other) <==> dwell.contains_key(other)
        &&& after[other] == dwell[other]
    } by {
    }
}

/// A session's own setting decides on a push; where it has none, or there is no
/// session, the server-wide setting does. Each kind of push has its own.
pub proof fn law_own_setting_wins(web: WebConfig, instance: Instance)
    ensures
        instance.notify_on_waiting matches Some(own) ==> wants_push(
            NotificationEvent::Waiting,
            web,
            Some(instance),
        ) == own,
        instance.notify_on_idle matches Some(own) ==> wants_push(
            NotificationEvent::Idle,
            web,
            Some(instance),
        ) == own,
        instance.notify_on_error matches Some(own) ==> wants_push(
            NotificationEvent::Error,
            web,
            Some(instance),
        ) == own,
        instance.notify_on_waiting is None ==> wants_push(
            NotificationEvent::Waiting,
            web,
            Some(instance),
        ) == web.notify_on_waiting,
        instance.notify_on_idle is None ==> wants_push(
            NotificationEvent::Idle,
            web,
            Some(instance),
        ) == web.notify_on_idle,
        instance.notify_on_error is None ==> wants_push(
            NotificationEvent::Error,
            web,
            Some(instance),
        ) == web.notify_on_error,
        wants_push(NotificationEvent::Waiting, web, None) == web.notify_on_waiting,
        wants_push(NotificationEvent::Idle, web, None) == web.notify_on_idle,
        wants_push(NotificationEvent::Error, web, None) == web.notify_on_error,
{
}

/// Taking the due pushes up stops their timers and changes nothing else: no
/// session is lost, and neither title nor time of the last push changes.
pub proof fn law_collecting_only_stops_timers(dwell: DwellMap, now: Instant, id: Seq<char>)
    requires
        dwell.contains_key(id),
    ensures
        ({
            let after = after_collecting(dwell, now);
            &&& after.contains_key(id)
            &&& after.dom() == dwell.dom()
            &&& dwell[id].due(now) is None ==> after[id] == dwell[id]
            &&& dwell[id].due(now) is Some ==> after[id] == (DwellState {
                waiting_since: None,
                idle_since: None,
                error_since: None,
                last_notified: dwell[id].last_notified,
                title: dwell[id].title,
            })
        }),
{
    assert(after_collecting(dwell, now).dom() =~= dwell.dom());
}

/// Every due session is listed, with the title that it has and the state that it
/// is in.
pub proof fn law_list_tells_title_and_state(
    order: Seq<Seq<char>>,
    dwell: DwellMap,
    now: Instant,
    i: int,
)
    requires
        0 <= i < order.len(),
    ensures
        forall|k: int|
            0 <= k < due_list(order, dwell, now).len() ==> (#[trigger] due_list(
                order,
                dwell,
                now,
            )[k]).title == dwell[due_list(order, dwell, now)[k].id].title@,
        dwell[order[i]].due(now) matches Some(event) ==> due_list(order, dwell, now).contains(
            (DueView { id: order[i], title: dwell[order[i]].title@, event }),
        ),
    decreases order.len(),
{
    let list = due_list(order, dwell, now);
    let head = order.drop_last();
    let before = due_list(head, dwell, now);
    let n = order.len() - 1;
    if head.len() > 0 {
        law_list_tells_title_and_state(
            head,
            dwell,
            now,
            if i < n {
                i
            } else {
                0
            },
        );
    } else {
        assert(before.len() == 0);
    }
    assert forall|k: int| 0 <= k < list.len() implies (#[trigger] list[k]).title
        == dwell[list[k].id].title@ by {
        if k < before.len() {
            assert(list[k] == before[k]);
        }
    }
    if dwell[order[i]].due(now) is Some {
        let wanted = DueView {
            id: order[i],
            title: dwell[order[i]].title@,
            event: dwell[order[i]].due(now)->0,
        };
        if i < n {
            assert(head[i] == order[i]);
            let k = before.index_of(wanted);
            assert(before[k] == wanted);
            assert(list[k] == wanted);
        } else {
            assert(list[list.len() - 1] == wanted);
        }
    }
}

/// What goes out for one session.
pub open spec fn for_session(sent: Seq<DeliveryView>, id: Seq<char>) -> Seq<DeliveryView> {
    sent.filter(|d: DeliveryView| d.payload.session_id == id)
}

proof fn lemma_for_session_of_each(
    subs: Seq<Subscription>,
    due: DueView,
    agent: Seq<char>,
    id: Seq<char>,
)
    ensures
        due.id == id ==> for_session(to_each(subs, due_payload(due, agent)), id) == to_each(
            subs,
            due_payload(due, agent),
        ),
        due.id != id ==> for_session(to_each(subs, due_payload(due, agent)), id).len() == 0,
    decreases subs.len(),
{
    let payload = due_payload(due, agent);
    let pred = |d: DeliveryView| d.payload.session_id == id;
    reveal(Seq::filter);
    if subs.len() > 0 {
        let head = subs.drop_last();
        lemma_for_session_of_each(head, due, agent, id);
        assert(to_each(subs, payload).drop_last() =~= to_each(head, payload));
        assert(to_each(subs, payload) =~= to_each(head, payload).push(
            DeliveryView { subscription: subs.last(), payload },
        ));
    } else {
        assert(to_each(subs, payload) =~= Seq::<DeliveryView>::empty());
    }
}

proof fn lemma_one_session(
    list: Seq<DueView>,
    instances: Seq<Instance>,
    web: WebConfig,
    subs: Seq<Subscription>,
    agent: Seq<char>,
    id: Seq<char>,
)
    requires
        forall|i: int, j: int|
            0 <= i < j < list.len() ==> (#[trigger] list[i]).id != (#[trigger] list[j]).id,
    ensures
        forall|k: int|
            0 <= k < list.len() && (#[trigger] list[k]).id == id ==> for_session(
                all_deliveries(list, instances, web, subs, agent),
                id,
            ) == deliveries_for(list[k], instances, web, subs, agent),
        !concerns(list, id) ==> for_session(
            all_deliveries(list, instances, web, subs, agent),
            id,
        ).len() == 0,
    decreases list.len(),
{
    let pred = |d: DeliveryView| d.payload.session_id == id;
    let sent = all_deliveries(list, instances, web, subs, agent);
    reveal(Seq::filter);
    if list.len() > 0 {
        let head = list.drop_last();
        let last = list.last();
        lemma_one_session(head, instances, web, subs, agent, id);
        lemma_for_session_of_each(subs, last, agent, id);
        let before = all_deliveries(head, instances, web, subs, agent);
        let added = deliveries_for(last, instances, web, subs, agent);
        Seq::filter_distributes_over_add(before, added, pred);
        assert(for_session(sent, id) == for_session(before, id) + for_session(added, id));
        assert(last.id == id ==> for_session(added, id) == added);
        assert(last.id != id ==> for_session(added, id).len() == 0);
        assert forall|k: int| 0 <= k < list.len() && (#[trigger] list[k]).id == id implies
            for_session(sent, id) == deliveries_for(list[k], instances, web, subs, agent) by {
            if k < head.len() {
                assert(head[k] == list[k]);
                assert(for_session(sent, id) =~= for_session(before, id));
            } else {
                if concerns(head, id) {
                    let j = choose|j: int| 0 <= j < head.len() && #[trigger] head[j].id == id;
                    assert(list[j].id != list[k].id);
                }
                assert(for_session(sent, id) =~= added);
            }
        }
        if !concerns(list, id) {
            if concerns(head, id) {
                let j = choose|j: int| 0 <= j < head.len() && #[trigger] head[j].id == id;
                assert(list[j].id == id);
            }
            assert(list[list.len() - 1].id != id);
        }
    }
}

/// A session that is due, stands anywhere among the sessions and wants its push
/// is told of to every subscription, once each, by a payload that leads to it.
pub proof fn law_due_session_reaches_everyone(
    order: Seq<Seq<char>>,
    dwell: DwellMap,
    instances: Seq<Instance>,
    web: WebConfig,
    subs: Seq<Subscription>,
    agent: Seq<char>,
    now: Instant,
    id: Seq<char>,
    event: NotificationEvent,
    i: int,
)
    requires
        order.no_duplicates(),
        order.contains(id),
        dwell[id].due(now) == Some(event),
        0 <= i < instances.len(),
        instances[i].id@ == id,
        forall|j: int| 0 <= j < i ==> #[trigger] instances[j].id@ != id,
        wants_push(event, web, Some(instances[i])),
    ensures
        ({
            let sent = for_session(
                all_deliveries(due_list(order, dwell, now), instances, web, subs, agent),
                id,
            );
            &&& sent.len() == subs.len()
            &&& forall|k: int|
                0 <= k < subs.len() ==> {
                    &&& (#[trigger] sent[k]).subscription == subs[k]
                    &&& sent[k].payload.session_id == id
                    &&& sent[k].payload == due_payload(
                        (DueView { id, title: dwell[id].title@, event }),
                        agent,
                    )
                }
        }),
{
    let list = due_list(order, dwell, now);
    law_each_due_session_once(order, dwell, now);
    law_first_session_with_the_id_is_found(instances, id);
    law_list_tells_title_and_state(order, dwell, now, order.index_of(id));
    let wanted = DueView { id, title: dwell[id].title@, event };
    let k = list.index_of(wanted);
    assert(list[k] == wanted);
    lemma_one_session(list, instances, web, subs, agent, id);
    assert(for_session(all_deliveries(list, instances, web, subs, agent), id) == deliveries_for(
        list[k],
        instances,
        web,
        subs,
        agent,
    ));
}

/// Nothing is sent for a session whose push is not due, that is not among the
/// sessions, or that does not want the push.
pub proof fn law_nothing_is_sent_unasked(
    order: Seq<Seq<char>>,
    dwell: DwellMap,
    instances: Seq<Instance>,
    web: WebConfig,
    subs: Seq<Subscription>,
    agent: Seq<char>,
    now: Instant,
    id: Seq<char>,
)
    requires
        order.no_duplicates(),
        !order.contains(id) || dwell[id].due(now) is None || (forall|j: int|
            0 <= j < instances.len() && #[trigger] instances[j].id@ == id ==> !wants_push(
                dwell[id].due(now)->0,
                web,
                Some(instances[j]),
            )),
    ensures
        for_session(
            all_deliveries(due_list(order, dwell, now), instances, web, subs, agent),
            id,
        ).len() == 0,
{
    let list = due_list(order, dwell, now);
    law_each_due_session_once(order, dwell, now);
    lemma_due_ids(order, dwell, now);
    lemma_one_session(list, instances, web, subs, agent, id);
    if concerns(list, id) {
        let k = choose|k: int| 0 <= k < list.len() && #[trigger] list[k].id == id;
        lemma_found_is_listed(instances, id);
        assert(deliveries_for(list[k], instances, web, subs, agent).len() == 0);
    }
}

/// A session that is found is one of the list.
pub proof fn lemma_found_is_listed(instances: Seq<Instance>, id: Seq<char>)
    ensures
        find_instance(instances, id) is Some ==> exists|j: int|
            0 <= j < instances.len() && #[trigger] instances[j].id@ == id && find_instance(
                instances,
                id,
            ) == Some(instances[j]),
    decreases instances.len(),
{
    if instances.len() > 0 && instances[0].id@ != id {
        let rest = instances.skip(1);
        lemma_found_is_listed(rest, id);
        if find_instance(rest, id) is Some {
            let j = choose|j: int|
                0 <= j < rest.len() && #[trigger] rest[j].id@ == id && find_instance(rest, id)
                    == Some(rest[j]);
            assert(instances[j + 1] == rest[j]);
        }
    }
}

/// A push says what state the session is in and leads to it; the title follows
/// after a colon, where the session has one.
pub proof fn law_push_tells_of_its_session(due: DueView, agent: Seq<char>)
    ensures
        ({
            let payload = due_payload(due, agent);
            &&& payload.session_id == due.id
            &&& payload.url == "/session/"@ + due.id
            &&& payload.tag == "session-"@ + due.id
            &&& due.event == NotificationEvent::Waiting ==> payload.title == agent + " is waiting"@
            &&& due.event == NotificationEvent::Idle ==> payload.title == "Session finished"@
            &&& due.event == NotificationEvent::Error ==> payload.title == "Session error"@
            &&& due.title.len() == 0 && due.event == NotificationEvent::Waiting ==> payload.body
                == "Waiting for input"@
            &&& due.title.len() == 0 && due.event == NotificationEvent::Idle ==> payload.body
                == "Agent is idle"@
            &&& due.title.len() == 0 && due.event == NotificationEvent::Error ==> payload.body
                == "Agent errored"@
            &&& due.title.len() > 0 ==> payload.body == due_payload(
                (DueView { title: Seq::empty(), ..due }),
                agent,
            ).body + ": "@ + due.title
        }),
{
}

/// A wakeup leads to its session and says that the agent resumed; the title and
/// then the reason follow, each after a colon, where they are not empty.
pub proof fn law_wakeup_tells_title_and_reason(
    id: Seq<char>,
    title: Seq<char>,
    reason: Option<Seq<char>>,
)
    ensures
        ({
            let payload = wake_payload(id, title, reason);
            &&& payload.session_id == id
            &&& payload.url == "/session/"@ + id
            &&& payload.tag == "session-"@ + id
            &&& payload.title == "Scheduled wakeup fired"@
            &&& title.len() == 0 && (reason is None || reason->0.len() == 0) ==> payload.body
                == "Agent resumed"@
            &&& title.len() > 0 && (reason is None || reason->0.len() == 0) ==> payload.body
                == "Agent resumed"@ + ": "@ + title
            &&& reason is Some && reason->0.len() > 0 ==> payload.body == wake_payload(
                id,
                title,
                None,
            ).body + ": "@ + reason->0
        }),
{
}

/// A wakeup is told of exactly if notifications are on, for wakeups too, and
/// nobody watches a dashboard; then each subscription gets it once.
pub proof fn law_wakeup_reaches_everyone(
    web: WebConfig,
    tui_active: bool,
    web_active: bool,
    subs: Seq<Subscription>,
    id: Seq<char>,
    title: Seq<char>,
    reason: Option<Seq<char>>,
)
    ensures
        !web.notifications_enabled ==> !tells_wakeup(web, tui_active, web_active),
        !web.notify_on_wake_fire ==> !tells_wakeup(web, tui_active, web_active),
        tui_active || web_active ==> !tells_wakeup(web, tui_active, web_active),
        web.notifications_enabled && web.notify_on_wake_fire && !tui_active && !web_active
            ==> tells_wakeup(web, tui_active, web_active),
        ({
            let sent = to_each(subs, wake_payload(id, title, reason));
            &&& sent.len() == subs.len()
            &&& forall|k: int|
                0 <= k < subs.len() ==> (#[trigger] sent[k]).subscription == subs[k]
                    && sent[k].payload == wake_payload(id, title, reason)
        }),
{
}

/// A tick forgets a session exactly if its push was due and it is no longer
/// among the sessions; it stops the timers of those whose push was due, starts
/// the cooldown of those whose push went out, and leaves all others alone.
pub proof fn law_tick_touches_only_what_is_due(
    dwell: DwellMap,
    instances: Seq<Instance>,
    web: WebConfig,
    subscribed: bool,
    now: Instant,
    id: Seq<char>,
)
    requires
        dwell.contains_key(id),
    ensures
        ({
            let after = after_tick(dwell, instances, web, subscribed, now);
            let exists_still = exists|j: int|
                0 <= j < instances.len() && #[trigger] instances[j].id@ == id;
            &&& dwell[id].due(now) is None ==> after.contains_key(id) && after[id] == dwell[id]
            &&& dwell[id].due(now) is Some ==> (after.contains_key(id) <==> exists_still)
            &&& dwell[id].due(now) is Some && exists_still ==> {
                &&& after[id].waiting_since is None
                &&& after[id].idle_since is None
                &&& after[id].error_since is None
                &&& after[id].title == dwell[id].title
                &&& after[id].last_notified == dwell[id].last_notified || after[id].last_notified
                    == Some(now)
            }
            &&& !subscribed && after.contains_key(id) ==> after[id].last_notified
                == dwell[id].last_notified
            &&& forall|i: int|
                dwell[id].due(now) is Some && 0 <= i < instances.len()
                    && #[trigger] instances[i].id@ == id && (forall|j: int|
                    0 <= j < i ==> #[trigger] instances[j].id@ != id) && subscribed
                    ==> after[id].last_notified == if wants_push(
                    dwell[id].due(now)->0,
                    web,
                    Some(instances[i]),
                ) {
                    Some(now)
                } else {
                    dwell[id].last_notified
                }
            &&& forall|k: Seq<char>|
                #[trigger] after.contains_key(k) ==> dwell.contains_key(k)
        }),
{
    law_first_session_with_the_id_is_found(instances, id);
}

/// Pushes are held back exactly while a dashboard is in use, and the terminal's
/// is named first.
pub proof fn law_held_back_while_a_dashboard_is_used(tui_active: bool, web_active: bool)
    ensures
        reason_to_hold(tui_active, web_active) is None <==> !tui_active && !web_active,
        tui_active ==> reason_to_hold(tui_active, web_active) == Some(SuppressReason::TuiActive),
        web_active && !tui_active ==> reason_to_hold(tui_active, web_active) == Some(
            SuppressReason::WebActive,
        ),
{
}

/// What is told of a change of reason names the new reason, or, where pushes
/// resume, the old one.
pub proof fn law_log_names_the_reason(prev: SuppressReason, next: SuppressReason)
    ensures
        reason_log(None, Some(next)) == SuppressLog::Suppressed(next),
        reason_log(Some(prev), None) == SuppressLog::Resumed(prev),
        prev != next ==> reason_log(Some(prev), Some(next)) == SuppressLog::ReasonChanged(next),
        reason_log(Some(prev), Some(prev)) == SuppressLog::Nothing,
        reason_log(None, None) == SuppressLog::Nothing,
{
}

/// A send drops a subscription exactly if the endpoint is gone and has not
/// subscribed again since; no other subscription is touched.
pub proof fn law_only_a_gone_endpoint_is_dropped(
    subs: SubscriptionMap,
    sent_to: Subscription,
    outcome: SendOutcome,
    key: Seq<char>,
)
    requires
        subs.contains_key(key),
    ensures
        ({
            let after = settled(subs, sent_to, outcome);
            let drops = key == sent_to.endpoint@ && outcome == SendOutcome::Gone
                && subs[key].generation == sent_to.generation;
            &&& after.contains_key(key) <==> !drops
            &&& !drops ==> after[key] == subs[key]
            &&& forall|k: Seq<char>|
                #[trigger] after.contains_key(k) ==> subs.contains_key(k)
        }),
{
}

/// A reason is told by the dashboard that is in use.
pub proof fn law_reason_names_the_dashboard(reason: SuppressReason)
    ensures
        reason == SuppressReason::TuiActive ==> reason.words() == "TUI is active"@,
        reason == SuppressReason::WebActive ==> reason.words() == "web dashboard is active"@,
{
}

/// What is sent is known by its texts, each under its own name, and by whom it
/// goes to.
pub proof fn law_pushes_are_known_by_their_texts(
    due: Due,
    payload: PushPayload,
    delivery: Delivery,
    deliveries: Seq<Delivery>,
)
    ensures
        due@.id == due.instance_id@,
        due@.title == due.title@,
        due@.event == due.event,
        payload@.title == payload.title@,
        payload@.body == payload.body@,
        payload@.url == payload.url@,
        payload@.tag == payload.tag@,
        payload@.session_id == payload.session_id@,
        delivery@.subscription == delivery.subscription,
        delivery@.payload == delivery.payload@,
        delivery_views(deliveries).len() == deliveries.len(),
        forall|i: int|
            0 <= i < deliveries.len() ==> #[trigger] delivery_views(deliveries)[i] == deliveries[i]@,
{
}

/// What is listed is due, with the title that the session has, and every due
/// session of the order is listed.
pub proof fn law_listed_are_the_due(order: Seq<Seq<char>>, dwell: DwellMap, now: Instant)
    ensures
        forall|k: int|
            0 <= k < due_list(order, dwell, now).len() ==> {
                let d = #[trigger] due_list(order, dwell, now)[k];
                &&& order.contains(d.id)
                &&& dwell[d.id].due(now) == Some(d.event)
                &&& d.title == dwell[d.id].title@
            },
        forall|id: Seq<char>|
            #[trigger] order.contains(id) && dwell[id].due(now) is Some ==> exists|k: int|
                0 <= k < due_list(order, dwell, now).len() && #[trigger] due_list(
                    order,
                    dwell,
                    now,
                )[k].id == id,
{
    lemma_due_ids(order, dwell, now);
    if order.len() > 0 {
        law_list_tells_title_and_state(order, dwell, now, 0);
    }
    assert forall|id: Seq<char>| #[trigger] order.contains(id) && dwell[id].due(
        now,
    ) is Some implies exists|k: int|
        0 <= k < due_list(order, dwell, now).len() && #[trigger] due_list(order, dwell, now)[k].id
            == id by {
        assert(concerns(due_list(order, dwell, now), id));
    }
}

} // verus!
