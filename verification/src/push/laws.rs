//! What holds of pushes as a whole.
use vstd::prelude::*;

use crate::clock::{elapsed_ms, Instant, Timestamp};
use crate::push::dwell::{
    after_change, due_list, forgets, wants_push, DueView, DwellMap, DwellState,
    NotificationEvent, StatusChange, COOLDOWN_MS,
};
use crate::push::handlers::{
    requested, subscribe_refusal, tally, unsubscribe_refusal, PushState, StatusCode, SubscribeBody,
};
use crate::push::notify::{
    after_tick, all_deliveries, concerns, deliveries_for, due_payload, lemma_due_ids, reason_log,
    sends, settled, to_each, SendOutcome, SuppressLog, SuppressReason,
};
use crate::push::store::{
    filed_by_endpoint, from_list, listed, listed_for, next_generation, owner_in, owns, retained,
    upserted, Subscription, SubscriptionMap, TokenHash,
};
use crate::session::{find_instance, Instance, Status, WebConfig};

verus! {

/// In every session at most one timer runs.
pub open spec fn single_timers(dwell: DwellMap) -> bool {
    forall|id: Seq<char>| #[trigger] dwell.contains_key(id) ==> dwell[id].single_timer()
}

/// At most one timer runs per session, whatever changes.
pub proof fn law_change_keeps_single_timers(dwell: DwellMap, change: StatusChange, now: Instant)
    requires
        single_timers(dwell),
    ensures
        single_timers(after_change(dwell, change, now)),
{
    let after = after_change(dwell, change, now);
    assert forall|id: Seq<char>| #[trigger] after.contains_key(id) implies after[id].single_timer() by {
        if id != change.instance_id@ {
            assert(dwell.contains_key(id));
        }
    }
}

/// A tick that takes up what is due, and what it finds.
pub struct Tick {
    /// The sessions that exist.
    pub instances: Seq<Instance>,
    pub web: WebConfig,
    /// Somebody has subscribed.
    pub subscribed: bool,
    pub at: Instant,
}

/// What is remembered after a tick.
pub open spec fn ticked(dwell: DwellMap, tick: Tick) -> DwellMap {
    after_tick(dwell, tick.instances, tick.web, tick.subscribed, tick.at)
}

/// At most one timer runs per session, whatever fires.
pub proof fn law_tick_keeps_single_timers(dwell: DwellMap, tick: Tick)
    requires
        single_timers(dwell),
    ensures
        single_timers(ticked(dwell, tick)),
{
    let after = ticked(dwell, tick);
    assert forall|id: Seq<char>| #[trigger] after.contains_key(id) implies after[id].single_timer() by {
        assert(dwell.contains_key(id));
    }
}

/// A push is due exactly when no cooldown runs and some state has lasted its
/// dwell time; with one timer, it is that timer's.
pub proof fn law_due_needs_dwell(state: DwellState, event: NotificationEvent, now: Instant)
    requires
        state.single_timer(),
    ensures
        state.due(now) == Some(event) <==> !state.cooling(now) && state.ripe(event, now),
{
    if state.ripe(event, now) {
        assert(state.since(event) is Some);
        let other = state.due(now);
        if other is Some {
            assert(state.since(other->0) is Some);
        }
    }
}

/// A status change starts the timer of the new status afresh: no push is due
/// before the state has lasted its dwell time from this change on, however long
/// the session was in it before.
pub proof fn law_flicker_restarts_dwell(
    dwell: DwellMap,
    change: StatusChange,
    at: Instant,
    event: NotificationEvent,
    now: Instant,
)
    requires
        !forgets(change.new),
        after_change(dwell, change, at)[change.instance_id@].due(now) == Some(event),
    ensures
        elapsed_ms(at, now) >= event.dwell(),
        event == NotificationEvent::Waiting ==> change.new == Status::Waiting,
        event == NotificationEvent::Idle ==> change.new == Status::Idle,
        event == NotificationEvent::Error ==> change.new == Status::Error,
{
}

/// A change of one session leaves what is remembered of the others as it was.
pub proof fn law_change_leaves_others(
    dwell: DwellMap,
    change: StatusChange,
    now: Instant,
    id: Seq<char>,
)
    requires
        id != change.instance_id@,
    ensures
        after_change(dwell, change, now).contains_key(id) == dwell.contains_key(id),
        dwell.contains_key(id) ==> after_change(dwell, change, now)[id] == dwell[id],
{
}

/// A session that stops, hibernates or is deleted is forgotten; any other
/// change is remembered.
pub proof fn law_stopped_is_forgotten(dwell: DwellMap, change: StatusChange, now: Instant)
    ensures
        after_change(dwell, change, now).contains_key(change.instance_id@) == !forgets(change.new),
{
}

/// Once a push was taken up, none is due for the session until its status
/// changes.
pub proof fn law_fires_once(dwell: DwellMap, tick: Tick, later: Instant, id: Seq<char>)
    requires
        dwell.contains_key(id),
        dwell[id].due(tick.at) is Some,
        ticked(dwell, tick).contains_key(id),
    ensures
        ticked(dwell, tick)[id].due(later) is None,
{
}

/// The cooldown of a session starts exactly when a push is sent for it: one that
/// is not wanted, or that nobody has subscribed to, starts none.
pub proof fn law_only_a_sent_push_starts_the_cooldown(
    dwell: DwellMap,
    tick: Tick,
    id: Seq<char>,
)
    requires
        ticked(dwell, tick).contains_key(id),
    ensures
        ticked(dwell, tick)[id].last_notified == match dwell[id].due(tick.at) {
            Some(event) => if sends(event, id, tick.instances, tick.web, tick.subscribed) {
                Some(tick.at)
            } else {
                dwell[id].last_notified
            },
            None => dwell[id].last_notified,
        },
{
}

/// A push that is due counts as sent exactly if something is delivered for it.
pub proof fn law_sent_means_delivered(
    due: DueView,
    instances: Seq<Instance>,
    web: WebConfig,
    subs: Seq<Subscription>,
    agent: Seq<char>,
)
    ensures
        sends(due.event, due.id, instances, web, subs.len() > 0) <==> deliveries_for(
            due,
            instances,
            web,
            subs,
            agent,
        ).len() > 0,
{
}

/// A push that is due stays due until it is raised: being held back delays it
/// and loses nothing.
pub proof fn law_due_stays_due(state: DwellState, now: Instant, later: Instant)
    requires
        state.single_timer(),
        state.due(now) is Some,
        now.nanos <= later.nanos,
    ensures
        state.due(later) == state.due(now),
{
    let event = state.due(now)->0;
    assert(state.since(event) is Some);
    assert(elapsed_ms(state.since(event)->0, later) >= elapsed_ms(state.since(event)->0, now));
    law_due_needs_dwell(state, event, later);
}

/// What can happen to the consumer's memory.
pub enum Step {
    Changed(StatusChange, Instant),
    Ticked(Tick),
}

/// What is remembered after a number of steps.
pub open spec fn after_steps(dwell: DwellMap, steps: Seq<Step>) -> DwellMap
    decreases steps.len(),
{
    if steps.len() == 0 {
        dwell
    } else {
        let before = after_steps(dwell, steps.drop_last());
        match steps.last() {
            Step::Changed(change, at) => after_change(before, change, at),
            Step::Ticked(tick) => ticked(before, tick),
        }
    }
}

/// The session `id` is not forgotten in these steps, and those that take up
/// pushes come less than a cooldown after `fired_at`.
pub open spec fn within_cooldown(steps: Seq<Step>, id: Seq<char>, fired_at: Instant) -> bool {
    forall|i: int|
        0 <= i < steps.len() ==> match #[trigger] steps[i] {
            Step::Changed(change, _) => change.instance_id@ == id ==> !forgets(change.new),
            Step::Ticked(tick) => elapsed_ms(fired_at, tick.at) < COOLDOWN_MS,
        }
}

/// After a push was sent the session stays quiet for the cooldown, however often its
/// status changes, unless it stops in between.
pub proof fn law_cooldown_holds(
    dwell: DwellMap,
    steps: Seq<Step>,
    id: Seq<char>,
    fired_at: Instant,
    now: Instant,
)
    requires
        dwell.contains_key(id),
        dwell[id].last_notified == Some(fired_at),
        within_cooldown(steps, id, fired_at),
        elapsed_ms(fired_at, now) < COOLDOWN_MS,
    ensures
        after_steps(dwell, steps).contains_key(id),
        after_steps(dwell, steps)[id].last_notified == Some(fired_at),
        after_steps(dwell, steps)[id].due(now) is None,
    decreases steps.len(),
{
    if steps.len() > 0 {
        let head = steps.drop_last();
        assert forall|i: int| 0 <= i < head.len() implies match #[trigger] head[i] {
            Step::Changed(change, _) => change.instance_id@ == id ==> !forgets(change.new),
            Step::Ticked(tick) => elapsed_ms(fired_at, tick.at) < COOLDOWN_MS,
        } by {
            assert(head[i] == steps[i]);
        }
        let last = steps[steps.len() - 1];
        match last {
            Step::Changed(change, at) => {
                law_cooldown_holds(dwell, head, id, fired_at, now);
            },
            Step::Ticked(tick) => {
                law_cooldown_holds(dwell, head, id, fired_at, now);
                law_cooldown_holds(dwell, head, id, fired_at, tick.at);
            },
        }
    }
}

/// The status of the session `id` does not change in these steps.
pub open spec fn unchanged(steps: Seq<Step>, id: Seq<char>) -> bool {
    forall|i: int|
        0 <= i < steps.len() ==> match #[trigger] steps[i] {
            Step::Changed(change, _) => change.instance_id@ != id,
            Step::Ticked(_) => true,
        }
}

/// At most one push is sent for a session until its status changes, however much
/// time passes: once a tick stopped its timers, nothing but a change starts one.
pub proof fn law_no_second_push_without_a_change(
    dwell: DwellMap,
    first: Tick,
    steps: Seq<Step>,
    id: Seq<char>,
    now: Instant,
)
    requires
        dwell.contains_key(id),
        dwell[id].due(first.at) is Some,
        ticked(dwell, first).contains_key(id),
        unchanged(steps, id),
    ensures
        after_steps(ticked(dwell, first), steps).contains_key(id),
        after_steps(ticked(dwell, first), steps)[id] == ticked(dwell, first)[id],
        after_steps(ticked(dwell, first), steps)[id].due(now) is None,
    decreases steps.len(),
{
    if steps.len() > 0 {
        let head = steps.drop_last();
        assert forall|i: int| 0 <= i < head.len() implies match #[trigger] head[i] {
            Step::Changed(change, _) => change.instance_id@ != id,
            Step::Ticked(_) => true,
        } by {
            assert(head[i] == steps[i]);
        }
        law_no_second_push_without_a_change(dwell, first, head, id, now);
        match steps[steps.len() - 1] {
            Step::Changed(_, _) => {},
            Step::Ticked(tick) => {
                law_no_second_push_without_a_change(dwell, first, head, id, tick.at);
            },
        }
    }
}

/// A tick lists every session whose push is due once, and no other.
pub proof fn law_each_due_session_once(order: Seq<Seq<char>>, dwell: DwellMap, now: Instant)
    requires
        order.no_duplicates(),
    ensures
        forall|i: int, j: int|
            0 <= i < j < due_list(order, dwell, now).len() ==> (#[trigger] due_list(
                order,
                dwell,
                now,
            )[i]).id != (#[trigger] due_list(order, dwell, now)[j]).id,
        forall|id: Seq<char>| #[trigger]
            concerns(due_list(order, dwell, now), id) <==> order.contains(id) && dwell[id].due(
                now,
            ) is Some,
    decreases order.len(),
{
    if order.len() > 0 {
        let head = order.drop_last();
        let id = order.last();
        let before = due_list(head, dwell, now);
        let list = due_list(order, dwell, now);
        assert(head.no_duplicates());
        law_each_due_session_once(head, dwell, now);
        assert(!head.contains(id)) by {
            if head.contains(id) {
                let j = head.index_of(id);
                assert(order[j] == order[order.len() - 1]);
            }
        }
        lemma_due_ids(head, dwell, now);
        assert forall|i: int, j: int| 0 <= i < j < list.len() implies (#[trigger] list[i]).id != (
        #[trigger] list[j]).id by {
            assert(list[i] == before[i]);
            if j < before.len() {
                assert(list[j] == before[j]);
            } else {
                assert(list[j].id == id);
                if before[i].id == id {
                    assert(concerns(before, id));
                }
            }
        }
    }
    lemma_due_ids(order, dwell, now);
}

/// A delivery leads to a session that exists and wants it, and goes to a
/// subscription.
pub proof fn law_deliveries_lead_to_sessions(
    due: Seq<DueView>,
    instances: Seq<Instance>,
    web: WebConfig,
    subs: Seq<Subscription>,
    agent: Seq<char>,
    i: int,
)
    requires
        0 <= i < all_deliveries(due, instances, web, subs, agent).len(),
    ensures
        subs.contains(all_deliveries(due, instances, web, subs, agent)[i].subscription),
        exists|d: int|
            #![trigger due[d]]
            0 <= d < due.len() && all_deliveries(due, instances, web, subs, agent)[i].payload
                == due_payload(due[d], agent) && find_instance(instances, due[d].id) is Some
                && wants_push(due[d].event, web, find_instance(instances, due[d].id)),
    decreases due.len(),
{
    let head = due.drop_last();
    let before = all_deliveries(head, instances, web, subs, agent);
    let all = all_deliveries(due, instances, web, subs, agent);
    if i < before.len() {
        law_deliveries_lead_to_sessions(head, instances, web, subs, agent, i);
        assert(all[i] == before[i]);
        let d = choose|d: int|
            #![trigger head[d]]
            0 <= d < head.len() && before[i].payload == due_payload(head[d], agent) && find_instance(
                instances,
                head[d].id,
            ) is Some && wants_push(head[d].event, web, find_instance(instances, head[d].id));
        assert(due[d] == head[d]);
    } else {
        let last = due[due.len() - 1];
        let own = deliveries_for(last, instances, web, subs, agent);
        let j = i - before.len();
        assert(all[i] == own[j]);
        assert(own == to_each(subs, due_payload(last, agent)));
        assert(subs[j] == own[j].subscription);
    }
}

/// Every session whose push is due, that exists and wants it, is told of at
/// every subscription.
pub proof fn law_nobody_is_left_out(
    due: Seq<DueView>,
    instances: Seq<Instance>,
    web: WebConfig,
    subs: Seq<Subscription>,
    agent: Seq<char>,
    d: int,
    s: int,
)
    requires
        0 <= d < due.len(),
        0 <= s < subs.len(),
        find_instance(instances, due[d].id) is Some,
        wants_push(due[d].event, web, find_instance(instances, due[d].id)),
    ensures
        exists|i: int|
            #![trigger all_deliveries(due, instances, web, subs, agent)[i]]
            0 <= i < all_deliveries(due, instances, web, subs, agent).len() && all_deliveries(
                due,
                instances,
                web,
                subs,
                agent,
            )[i].subscription == subs[s] && all_deliveries(due, instances, web, subs, agent)[i].payload
                == due_payload(due[d], agent),
    decreases due.len(),
{
    let head = due.drop_last();
    let before = all_deliveries(head, instances, web, subs, agent);
    let all = all_deliveries(due, instances, web, subs, agent);
    if d < head.len() {
        law_nobody_is_left_out(head, instances, web, subs, agent, d, s);
        let i = choose|i: int|
            #![trigger before[i]]
            0 <= i < before.len() && before[i].subscription == subs[s] && before[i].payload
                == due_payload(head[d], agent);
        assert(all[i] == before[i]);
    } else {
        let own = to_each(subs, due_payload(due[d], agent));
        assert(own[s].subscription == subs[s]);
        assert(all[before.len() + s] == own[s]);
    }
}

/// Being held back is told exactly when the reason changes.
pub proof fn law_told_only_on_change(
    last: Option<SuppressReason>,
    now: Option<SuppressReason>,
)
    ensures
        reason_log(last, now) == SuppressLog::Nothing <==> last == now,
{
}

/// An endpoint that subscribes again keeps the time of its first subscription,
/// moves to the next generation, and is still filed once.
pub proof fn law_resubscribing_bumps_generation(subs: SubscriptionMap, sub: Subscription)
    requires
        subs.contains_key(sub.endpoint@),
    ensures
        upserted(subs, sub).dom() == subs.dom(),
        upserted(subs, sub)[sub.endpoint@].generation == next_generation(
            subs[sub.endpoint@].generation,
        ),
        upserted(subs, sub)[sub.endpoint@].created_at == subs[sub.endpoint@].created_at,
        upserted(subs, sub)[sub.endpoint@].p256dh == sub.p256dh,
        upserted(subs, sub)[sub.endpoint@].auth == sub.auth,
        upserted(subs, sub)[sub.endpoint@].owner_token_hash == sub.owner_token_hash,
        upserted(subs, sub)[sub.endpoint@].user_agent == sub.user_agent,
{
    assert(upserted(subs, sub).dom() =~= subs.dom());
}

/// A subscription that was made again while a send was under way is not dropped
/// when that send reports its endpoint gone. The generation must have room to
/// grow.
pub proof fn law_gone_spares_resubscribed(subs: SubscriptionMap, sub: Subscription)
    requires
        subs.contains_key(sub.endpoint@),
        subs[sub.endpoint@].endpoint@ == sub.endpoint@,
        subs[sub.endpoint@].generation < u64::MAX,
    ensures
        settled(upserted(subs, sub), subs[sub.endpoint@], SendOutcome::Gone) == upserted(subs, sub),
{
}

/// A send that reports its endpoint gone drops a subscription that has not
/// changed, and no other.
pub proof fn law_gone_drops_unchanged(
    subs: SubscriptionMap,
    endpoint: Seq<char>,
)
    requires
        filed_by_endpoint(subs),
        subs.contains_key(endpoint),
    ensures
        settled(subs, subs[endpoint], SendOutcome::Gone) == subs.remove(endpoint),
{
}

/// Subscriptions stay filed under their endpoints.
pub proof fn law_stays_filed_by_endpoint(
    subs: SubscriptionMap,
    sub: Subscription,
    sent_to: Subscription,
    outcome: SendOutcome,
    valid: Seq<TokenHash>,
)
    requires
        filed_by_endpoint(subs),
    ensures
        filed_by_endpoint(upserted(subs, sub)),
        filed_by_endpoint(settled(subs, sent_to, outcome)),
        filed_by_endpoint(subs.remove(sent_to.endpoint@)),
        filed_by_endpoint(retained(subs, valid)),
{
    assert forall|k: Seq<char>| #[trigger]
        upserted(subs, sub).contains_key(k) implies upserted(subs, sub)[k].endpoint@ == k by {
        if k != sub.endpoint@ {
            assert(subs.contains_key(k));
        }
    }
    let kept = retained(subs, valid);
    assert forall|k: Seq<char>| #[trigger] kept.contains_key(k) implies kept[k].endpoint@ == k by {
        assert(subs.contains_key(k));
    }
    let less = subs.remove(sent_to.endpoint@);
    assert forall|k: Seq<char>| #[trigger] less.contains_key(k) implies less[k].endpoint@ == k by {
        assert(subs.contains_key(k));
    }
}

/// After a token rotation every subscription left belongs to a valid token,
/// none of a valid token is lost, and a second pass changes nothing.
pub proof fn law_rotation_keeps_valid_owners(
    subs: SubscriptionMap,
    valid: Seq<TokenHash>,
    k: Seq<char>,
)
    ensures
        retained(subs, valid).contains_key(k) <==> subs.contains_key(k) && owner_in(
            subs[k],
            valid,
        ),
        retained(subs, valid).contains_key(k) ==> retained(subs, valid)[k] == subs[k],
        retained(retained(subs, valid), valid) == retained(subs, valid),
{
    assert(retained(retained(subs, valid), valid) =~= retained(subs, valid));
}

/// Loading the list of all subscriptions gives them back.
pub proof fn law_load_undoes_snapshot(order: Seq<Seq<char>>, subs: SubscriptionMap)
    requires
        filed_by_endpoint(subs),
        order.no_duplicates(),
        forall|k: Seq<char>| order.contains(k) <==> #[trigger] subs.contains_key(k),
    ensures
        from_list(listed(order, subs)) == subs,
{
    lemma_load_listed(order, subs, order.len() as int);
    assert(order.take(order.len() as int) =~= order);
    let loaded = from_list(listed(order, subs));
    assert(loaded =~= subs);
}

proof fn lemma_load_listed(order: Seq<Seq<char>>, subs: SubscriptionMap, n: int)
    requires
        filed_by_endpoint(subs),
        forall|k: Seq<char>| order.contains(k) <==> #[trigger] subs.contains_key(k),
        0 <= n <= order.len(),
    ensures
        forall|k: Seq<char>| #[trigger]
            from_list(listed(order.take(n), subs)).contains_key(k) <==> order.take(n).contains(k),
        forall|k: Seq<char>|
            order.take(n).contains(k) ==> #[trigger] from_list(listed(order.take(n), subs))[k]
                == subs[k],
    decreases n,
{
    if n > 0 {
        lemma_load_listed(order, subs, n - 1);
        let head = order.take(n - 1);
        let next = order.take(n);
        let id = order[n - 1];
        assert(order.contains(id));
        assert(subs.contains_key(id));
        assert(listed(next, subs).drop_last() =~= listed(head, subs));
        assert(listed(next, subs).last() == subs[id]);
        assert(subs[id].endpoint@ == id);
        let loaded = from_list(listed(next, subs));
        assert(loaded == from_list(listed(head, subs)).insert(id, subs[id]));
        assert forall|k: Seq<char>| #[trigger] next.contains(k) <==> (head.contains(k) || k
            == id) by {
            if head.contains(k) {
                let j = head.index_of(k);
                assert(next[j] == k);
            }
            if k == id {
                assert(next[n - 1] == k);
            }
            if next.contains(k) && k != id {
                let j = next.index_of(k);
                assert(head[j] == k);
            }
        }
        assert forall|k: Seq<char>| #[trigger] loaded.contains_key(k) <==> next.contains(k) by {
            assert(from_list(listed(head, subs)).contains_key(k) <==> head.contains(k));
        }
    } else {
        assert(listed(order.take(0), subs) =~= Seq::<Subscription>::empty());
    }
}

/// The subscriptions of one owner are those of the whole list that belong to
/// it, in the same order.
pub proof fn law_for_owner_is_a_part(
    order: Seq<Seq<char>>,
    subs: SubscriptionMap,
    owner: Seq<u8>,
)
    ensures
        listed_for(order, subs, owner) == listed(order, subs).filter(
            |s: Subscription| s.owner_token_hash@ == owner,
        ),
    decreases order.len(),
{
    let own = |s: Subscription| s.owner_token_hash@ == owner;
    reveal(Seq::filter);
    if order.len() > 0 {
        law_for_owner_is_a_part(order.drop_last(), subs, owner);
        assert(listed(order, subs).drop_last() =~= listed(order.drop_last(), subs));
        assert(listed(order, subs).last() == subs[order.last()]);
    }
}

/// Whoever subscribes can unsubscribe the same endpoint, which leaves the other
/// subscriptions as they were.
pub proof fn law_unsubscribe_undoes_subscribe(subs: SubscriptionMap, sub: Subscription)
    ensures
        owns(upserted(subs, sub), sub.endpoint@, sub.owner_token_hash@),
        upserted(subs, sub).remove(sub.endpoint@) == subs.remove(sub.endpoint@),
{
    assert(upserted(subs, sub).remove(sub.endpoint@) =~= subs.remove(sub.endpoint@));
}

/// An endpoint of another owner is refused just as one that does not exist: the
/// answer tells nothing of other owners.
pub proof fn law_refusal_tells_nothing(
    push: PushState,
    endpoint: Seq<char>,
    owner: Seq<u8>,
)
    requires
        endpoint.len() > 0,
        !owns(push.store@, endpoint, owner),
    ensures
        unsubscribe_refusal(Some(push), endpoint, owner) == Some(StatusCode::Forbidden),
{
}

/// A test notification is counted once.
pub proof fn law_test_counts_once(outcome: SendOutcome)
    ensures
        tally(outcome).delivered + tally(outcome).failed + tally(outcome).gone == 1,
{
}

/// Subscribing files the subscription under its endpoint and leaves all others
/// as they are. A new endpoint is filed as it came; one that subscribes again
/// counts one generation up, as far as it can, and keeps its first time.
pub proof fn law_subscribing_files_one_endpoint(
    subs: SubscriptionMap,
    sub: Subscription,
    other: Seq<char>,
)
    requires
        other != sub.endpoint@,
    ensures
        ({
            let after = upserted(subs, sub);
            let key = sub.endpoint@;
            &&& after.contains_key(key)
            &&& after.contains_key(other) <==> subs.contains_key(other)
            &&& after[other] == subs[other]
            &&& !subs.contains_key(key) ==> after[key] == sub
            &&& subs.contains_key(key) && subs[key].generation < u64::MAX
                ==> after[key].generation == subs[key].generation + 1
            &&& subs.contains_key(key) && subs[key].generation == u64::MAX
                ==> after[key].generation == u64::MAX
            &&& subs.contains_key(key) ==> after[key].created_at == subs[key].created_at
            &&& after[key].endpoint == sub.endpoint
            &&& after[key].p256dh == sub.p256dh
            &&& after[key].auth == sub.auth
            &&& after[key].owner_token_hash == sub.owner_token_hash
            &&& after[key].user_agent == sub.user_agent
        }),
{
}

/// A rotation keeps a subscription, as it is, exactly if the hash of its token
/// stands anywhere among the valid ones.
pub proof fn law_rotation_goes_by_the_hash(
    subs: SubscriptionMap,
    valid: Seq<TokenHash>,
    key: Seq<char>,
)
    requires
        subs.contains_key(key),
    ensures
        retained(subs, valid).contains_key(key) <==> exists|i: int|
            0 <= i < valid.len() && #[trigger] valid[i]@ == subs[key].owner_token_hash@,
        retained(subs, valid).contains_key(key) ==> retained(subs, valid)[key] == subs[key],
        forall|k: Seq<char>|
            #[trigger] retained(subs, valid).contains_key(k) ==> subs.contains_key(k),
{
}

/// A loaded list holds every endpoint that stands in it, and of several entries
/// for one endpoint the last.
pub proof fn law_last_saved_entry_counts(list: Seq<Subscription>, key: Seq<char>)
    ensures
        from_list(list).contains_key(key) <==> exists|i: int|
            0 <= i < list.len() && #[trigger] list[i].endpoint@ == key,
        forall|i: int|
            0 <= i < list.len() && #[trigger] list[i].endpoint@ == key && (forall|j: int|
                i < j < list.len() ==> #[trigger] list[j].endpoint@ != key) ==> from_list(
                list,
            )[key] == list[i],
    decreases list.len(),
{
    if list.len() > 0 {
        let head = list.drop_last();
        let n = list.len() - 1;
        law_last_saved_entry_counts(head, key);
        assert(forall|i: int| 0 <= i < n ==> #[trigger] head[i] == list[i]);
        if from_list(list).contains_key(key) {
            if list[n].endpoint@ != key {
                let i = choose|i: int| 0 <= i < head.len() && #[trigger] head[i].endpoint@ == key;
                assert(list[i].endpoint@ == key);
            }
        }
        if exists|i: int| 0 <= i < list.len() && #[trigger] list[i].endpoint@ == key {
            let i = choose|i: int| 0 <= i < list.len() && #[trigger] list[i].endpoint@ == key;
            if i < n {
                assert(head[i].endpoint@ == key);
            }
        }
        assert forall|i: int|
            0 <= i < list.len() && #[trigger] list[i].endpoint@ == key && (forall|j: int|
                i < j < list.len() ==> #[trigger] list[j].endpoint@ != key) implies from_list(
            list,
        )[key] == list[i] by {
            if i < n {
                assert(list[n].endpoint@ != key);
                assert(head[i].endpoint@ == key);
                assert forall|j: int| i < j < head.len() implies #[trigger] head[j].endpoint@
                    != key by {
                    assert(list[j].endpoint@ != key);
                }
            }
        }
    }
}

/// A snapshot has one entry per endpoint, in the order of the endpoints.
pub proof fn law_snapshot_has_every_subscription(order: Seq<Seq<char>>, subs: SubscriptionMap)
    ensures
        listed(order, subs).len() == order.len(),
        forall|i: int|
            0 <= i < order.len() ==> #[trigger] listed(order, subs)[i] == subs[order[i]],
{
}

/// A request to subscribe is refused exactly where there are no pushes, or where
/// its endpoint or one of its keys is empty; and it is accepted otherwise.
pub proof fn law_subscribing_needs_endpoint_and_keys(push: Option<PushState>, body: SubscribeBody)
    ensures
        push is None ==> subscribe_refusal(push, body) == Some(StatusCode::NotFound),
        push is Some && body.endpoint@.len() == 0 ==> subscribe_refusal(push, body) == Some(
            StatusCode::BadRequest,
        ),
        push is Some && body.keys.p256dh@.len() == 0 ==> subscribe_refusal(push, body) == Some(
            StatusCode::BadRequest,
        ),
        push is Some && body.keys.auth@.len() == 0 ==> subscribe_refusal(push, body) == Some(
            StatusCode::BadRequest,
        ),
        push is Some && body.endpoint@.len() > 0 && body.keys.p256dh@.len() > 0
            && body.keys.auth@.len() > 0 ==> subscribe_refusal(push, body) is None,
{
}

/// What is filed is what the browser sent, under the hash of its token, at the
/// time of the request, in the first generation.
pub proof fn law_request_is_filed_as_sent(
    sub: Subscription,
    body: SubscribeBody,
    owner: Seq<u8>,
    user_agent: Option<&str>,
    now: Timestamp,
)
    requires
        requested(sub, body, owner, user_agent, now),
    ensures
        sub.endpoint@ == body.endpoint@,
        sub.p256dh@ == body.keys.p256dh@,
        sub.auth@ == body.keys.auth@,
        sub.owner_token_hash@ == owner,
        user_agent is None ==> sub.user_agent@.len() == 0,
        user_agent matches Some(text) ==> sub.user_agent@ == text@,
        sub.created_at == now,
        sub.generation == 0,
{
}

/// A request about one endpoint is accepted exactly if the endpoint is there and
/// belongs to the caller.
pub proof fn law_only_the_owner_is_served(
    push: Option<PushState>,
    endpoint: Seq<char>,
    owner: Seq<u8>,
)
    ensures
        push is None ==> unsubscribe_refusal(push, endpoint, owner) == Some(StatusCode::NotFound),
        push is Some && endpoint.len() == 0 ==> unsubscribe_refusal(push, endpoint, owner) == Some(
            StatusCode::BadRequest,
        ),
        push is Some && endpoint.len() > 0 && !push->0.store@.contains_key(endpoint)
            ==> unsubscribe_refusal(push, endpoint, owner) == Some(StatusCode::Forbidden),
        push is Some && endpoint.len() > 0 && push->0.store@.contains_key(endpoint)
            && push->0.store@[endpoint].owner_token_hash@ != owner ==> unsubscribe_refusal(
            push,
            endpoint,
            owner,
        ) == Some(StatusCode::Forbidden),
        push is Some && endpoint.len() > 0 && push->0.store@.contains_key(endpoint)
            && push->0.store@[endpoint].owner_token_hash@ == owner ==> unsubscribe_refusal(
            push,
            endpoint,
            owner,
        ) is None,
{
}

/// A test notification is counted under what became of it.
pub proof fn law_test_is_counted_under_its_outcome(outcome: SendOutcome)
    ensures
        tally(outcome).delivered > 0 <==> outcome == SendOutcome::Delivered,
        tally(outcome).failed > 0 <==> outcome == SendOutcome::Failed,
        tally(outcome).gone > 0 <==> outcome == SendOutcome::Gone,
{
}

} // verus!
