use agent_of_empires::clock::{Instant, Timestamp};
use agent_of_empires::keyed::Keyed;
use agent_of_empires::push::dwell::{handle_status_change, DwellState, StatusChange};
use agent_of_empires::push::handlers::{
    after_save, finish_test, get_status, get_vapid_public_key, subscribe, unsubscribe,
    AppState, EndpointBody, PushState, StatusCode, SubscribeBody, SubscribeKeys, TestResult,
    VAPID_SUBJECT,
};
use agent_of_empires::push::notify::{
    consumer_step, fire_due_pushes, fire_wake_fired_push, settle, ConsumerAction, ConsumerEvent,
    SendOutcome, SuppressLog, SuppressReason, ACTIVE_WINDOW_SECS, SEND_CONCURRENCY,
};
use agent_of_empires::push::store::{Subscription, SubscriptionStore};
use agent_of_empires::push::vapid::{VapidError, VapidKeypair};
use agent_of_empires::session::{Instance, Status, WebConfig};

fn ms(n: u64) -> Instant {
    Instant { nanos: n * 1_000_000 }
}

fn change(id: &str, title: &str, new: Status) -> StatusChange {
    StatusChange {
        instance_id: id.to_string(),
        instance_title: title.to_string(),
        old: Status::Running,
        new,
        at: Timestamp { secs: 0, nanos: 0 },
    }
}

fn sub(endpoint: &str) -> Subscription {
    Subscription {
        endpoint: endpoint.to_string(),
        p256dh: "pk".to_string(),
        auth: "auth".to_string(),
        owner_token_hash: [1u8; 32],
        user_agent: "UA".to_string(),
        created_at: Timestamp { secs: 0, nanos: 0 },
        generation: 0,
    }
}

fn store_of(endpoints: &[&str]) -> SubscriptionStore {
    let mut store = SubscriptionStore::load_or_empty(None);
    for e in endpoints {
        store.upsert(sub(e));
    }
    store
}

fn all_on() -> WebConfig {
    WebConfig {
        notifications_enabled: true,
        notify_on_waiting: true,
        notify_on_idle: true,
        notify_on_error: true,
        notify_on_wake_fire: true,
    }
}

fn session(id: &str) -> Instance {
    Instance::new(id.to_string(), "t".to_string(), "/tmp".to_string())
}

#[test]
fn a_due_push_goes_to_every_subscription() {
    let store = store_of(&["https://x/1", "https://x/2"]);
    let mut dwell: Keyed<DwellState> = Keyed::new();
    handle_status_change(&mut dwell, change("s1", "my session", Status::Waiting), ms(0));
    let mut last = None;
    let plan = fire_due_pushes(
        &mut dwell,
        &mut last,
        Some(&store),
        false,
        false,
        ms(5_000),
        &vec![session("s1")],
        &all_on(),
        "The agent",
    );
    assert_eq!(plan.log, SuppressLog::Nothing);
    assert_eq!(plan.deliveries.len(), 2);
    let p = &plan.deliveries[0].payload;
    assert_eq!(p.title, "The agent is waiting");
    assert_eq!(p.body, "Waiting for input: my session");
    assert_eq!(p.url, "/session/s1");
    assert_eq!(p.tag, "session-s1");
    assert_eq!(p.session_id, "s1");
    assert_eq!(plan.deliveries[1].payload.body, "Waiting for input: my session");
    assert_ne!(
        plan.deliveries[0].subscription.endpoint,
        plan.deliveries[1].subscription.endpoint
    );
}

#[test]
fn payloads_of_idle_and_error() {
    let store = store_of(&["https://x/1"]);
    for (status, title, body) in [
        (Status::Idle, "Session finished", "Agent is idle"),
        (Status::Error, "Session error", "Agent errored"),
    ] {
        let mut dwell: Keyed<DwellState> = Keyed::new();
        handle_status_change(&mut dwell, change("s1", "", status), ms(0));
        let plan = fire_due_pushes(
            &mut dwell,
            &mut None,
            Some(&store),
            false,
            false,
            ms(2_000),
            &vec![session("s1")],
            &all_on(),
            "The agent",
        );
        assert_eq!(plan.deliveries[0].payload.title, title);
        assert_eq!(plan.deliveries[0].payload.body, body);
    }
}

#[test]
fn pushes_wait_while_a_dashboard_is_in_use() {
    let store = store_of(&["https://x/1"]);
    let mut dwell: Keyed<DwellState> = Keyed::new();
    handle_status_change(&mut dwell, change("s1", "", Status::Waiting), ms(0));
    let mut last = None;
    let sessions = vec![session("s1")];
    let web = all_on();
    let plan =
        fire_due_pushes(&mut dwell, &mut last, Some(&store), true, false, ms(9_000), &sessions, &web, "The agent");
    assert_eq!(plan.log, SuppressLog::Suppressed(SuppressReason::TuiActive));
    assert!(plan.deliveries.is_empty());
    let plan =
        fire_due_pushes(&mut dwell, &mut last, Some(&store), true, true, ms(9_500), &sessions, &web, "The agent");
    assert_eq!(plan.log, SuppressLog::Nothing);
    let plan =
        fire_due_pushes(&mut dwell, &mut last, Some(&store), false, true, ms(9_600), &sessions, &web, "The agent");
    assert_eq!(plan.log, SuppressLog::ReasonChanged(SuppressReason::WebActive));
    assert!(plan.deliveries.is_empty());
    let plan =
        fire_due_pushes(&mut dwell, &mut last, Some(&store), false, false, ms(9_700), &sessions, &web, "The agent");
    assert_eq!(plan.log, SuppressLog::Resumed(SuppressReason::WebActive));
    assert_eq!(plan.deliveries.len(), 1);
}

#[test]
fn a_vanished_session_is_forgotten_and_not_told_of() {
    let store = store_of(&["https://x/1"]);
    let mut dwell: Keyed<DwellState> = Keyed::new();
    handle_status_change(&mut dwell, change("gone", "", Status::Idle), ms(0));
    handle_status_change(&mut dwell, change("here", "", Status::Idle), ms(0));
    let plan = fire_due_pushes(
        &mut dwell,
        &mut None,
        Some(&store),
        false,
        false,
        ms(3_000),
        &vec![session("here")],
        &all_on(),
        "The agent",
    );
    assert_eq!(plan.deliveries.len(), 1);
    assert_eq!(plan.deliveries[0].payload.session_id, "here");
    assert!(!dwell.contains_key("gone"));
    assert!(dwell.contains_key("here"));
}

#[test]
fn a_muted_push_starts_no_cooldown() {
    let store = store_of(&["https://x/1"]);
    let mut dwell: Keyed<DwellState> = Keyed::new();
    handle_status_change(&mut dwell, change("s1", "", Status::Idle), ms(0));
    let mut quiet = session("s1");
    quiet.notify_on_idle = Some(false);
    let sessions = vec![quiet];
    let web = all_on();
    let mut last = None;
    let plan = fire_due_pushes(
        &mut dwell, &mut last, Some(&store), false, false, ms(3_000), &sessions, &web, "The agent",
    );
    assert!(plan.deliveries.is_empty());
    assert_eq!(dwell.get("s1").unwrap().last_notified, None);
    assert_eq!(dwell.get("s1").unwrap().idle_since, None);
    // A push that is wanted is not held back by it.
    handle_status_change(&mut dwell, change("s1", "", Status::Error), ms(4_000));
    let plan = fire_due_pushes(
        &mut dwell, &mut last, Some(&store), false, false, ms(6_000), &sessions, &web, "The agent",
    );
    assert_eq!(plan.deliveries.len(), 1);
    assert_eq!(dwell.get("s1").unwrap().last_notified, Some(ms(6_000)));
    // Nor does a muted one later on move the cooldown that runs.
    handle_status_change(&mut dwell, change("s1", "", Status::Idle), ms(70_000));
    fire_due_pushes(&mut dwell, &mut last, Some(&store), false, false, ms(72_000), &sessions, &web, "The agent");
    assert_eq!(dwell.get("s1").unwrap().last_notified, Some(ms(6_000)));
}

#[test]
fn without_subscribers_no_cooldown_starts() {
    let empty = store_of(&[]);
    let store = store_of(&["https://x/1"]);
    let mut dwell: Keyed<DwellState> = Keyed::new();
    let sessions = vec![session("s1")];
    let web = all_on();
    let mut last = None;
    handle_status_change(&mut dwell, change("s1", "", Status::Idle), ms(0));
    let plan = fire_due_pushes(
        &mut dwell, &mut last, Some(&empty), false, false, ms(2_000), &sessions, &web, "The agent",
    );
    assert!(plan.deliveries.is_empty());
    assert_eq!(dwell.get("s1").unwrap().last_notified, None);
    handle_status_change(&mut dwell, change("s1", "", Status::Waiting), ms(3_000));
    let plan = fire_due_pushes(
        &mut dwell, &mut last, Some(&store), false, false, ms(8_000), &sessions, &web, "The agent",
    );
    assert_eq!(plan.deliveries.len(), 1);
}

#[test]
fn the_cooldown_covers_all_events() {
    let store = store_of(&["https://x/1"]);
    let mut dwell: Keyed<DwellState> = Keyed::new();
    let sessions = vec![session("a")];
    let web = all_on();
    let mut last = None;
    let mut sent = |dwell: &mut Keyed<DwellState>, at: u64| {
        fire_due_pushes(dwell, &mut last, Some(&store), false, false, ms(at), &sessions, &web, "The agent")
            .deliveries
    };
    handle_status_change(&mut dwell, change("a", "s", Status::Error), ms(0));
    assert_eq!(sent(&mut dwell, 2_000).len(), 1);
    handle_status_change(&mut dwell, change("a", "s", Status::Running), ms(3_000));
    handle_status_change(&mut dwell, change("a", "s", Status::Idle), ms(4_000));
    assert!(sent(&mut dwell, 61_999).is_empty());
    let due = sent(&mut dwell, 62_000);
    assert_eq!(due.len(), 1);
    assert_eq!(due[0].payload.title, "Session finished");
}

#[test]
fn without_a_store_nothing_happens() {
    let mut dwell: Keyed<DwellState> = Keyed::new();
    handle_status_change(&mut dwell, change("s1", "", Status::Idle), ms(0));
    let mut last = Some(SuppressReason::TuiActive);
    let plan = fire_due_pushes(
        &mut dwell,
        &mut last,
        None,
        false,
        false,
        ms(3_000),
        &vec![session("s1")],
        &all_on(),
        "The agent",
    );
    assert_eq!(plan.log, SuppressLog::Nothing);
    assert!(plan.deliveries.is_empty());
    assert_eq!(last, Some(SuppressReason::TuiActive));
    assert!(dwell.get("s1").unwrap().idle_since.is_some());
}

#[test]
fn the_consumer_handles_its_events() {
    let store = store_of(&["https://x/1"]);
    let mut dwell: Keyed<DwellState> = Keyed::new();
    let mut last = None;
    let sessions = vec![session("s1")];
    let web = all_on();
    let changed = ConsumerEvent::Changed(change("s1", "", Status::Idle));
    assert!(matches!(
        consumer_step(changed, &mut dwell, &mut last, &store, false, false, ms(0), &sessions, &web, "The agent"),
        ConsumerAction::Continue
    ));
    assert!(matches!(
        consumer_step(
            ConsumerEvent::Lagged(7),
            &mut dwell,
            &mut last,
            &store,
            false,
            false,
            ms(1),
            &sessions,
            &web,
            "The agent"
        ),
        ConsumerAction::WarnLagged(7)
    ));
    match consumer_step(
        ConsumerEvent::Tick,
        &mut dwell,
        &mut last,
        &store,
        false,
        false,
        ms(2_000),
        &sessions,
        &web,
        "The agent",
    ) {
        ConsumerAction::Send(plan) => assert_eq!(plan.deliveries.len(), 1),
        _ => panic!("a tick sends"),
    }
    assert!(matches!(
        consumer_step(
            ConsumerEvent::Closed,
            &mut dwell,
            &mut last,
            &store,
            false,
            false,
            ms(3_000),
            &sessions,
            &web,
            "The agent"
        ),
        ConsumerAction::Exit
    ));
    assert_eq!((SEND_CONCURRENCY, ACTIVE_WINDOW_SECS), (8, 30));
}

#[test]
fn wakeups_tell_title_and_reason() {
    let store = store_of(&["https://x/1"]);
    let body = |title: &str, reason: Option<&str>| {
        fire_wake_fired_push(Some(&store), &all_on(), false, false, "s1", title, reason)[0]
            .payload
            .body
            .clone()
    };
    assert_eq!(body("", None), "Agent resumed");
    assert_eq!(body("my session", None), "Agent resumed: my session");
    assert_eq!(body("my session", Some("")), "Agent resumed: my session");
    assert_eq!(body("my session", Some("tests done")), "Agent resumed: my session: tests done");
    assert_eq!(body("", Some("tests done")), "Agent resumed: tests done");
    let sent = fire_wake_fired_push(Some(&store), &all_on(), false, false, "s1", "", None);
    assert_eq!(sent[0].payload.title, "Scheduled wakeup fired");
    assert_eq!(sent[0].payload.url, "/session/s1");
    assert_eq!(sent[0].payload.tag, "session-s1");
}

#[test]
fn wakeups_respect_settings_and_use() {
    let store = store_of(&["https://x/1"]);
    let mut off = all_on();
    off.notify_on_wake_fire = false;
    let mut none = all_on();
    none.notifications_enabled = false;
    assert!(fire_wake_fired_push(Some(&store), &off, false, false, "s", "", None).is_empty());
    assert!(fire_wake_fired_push(Some(&store), &none, false, false, "s", "", None).is_empty());
    assert!(fire_wake_fired_push(Some(&store), &all_on(), true, false, "s", "", None).is_empty());
    assert!(fire_wake_fired_push(Some(&store), &all_on(), false, true, "s", "", None).is_empty());
    assert!(fire_wake_fired_push(None, &all_on(), false, false, "s", "", None).is_empty());
    let empty = store_of(&[]);
    assert!(fire_wake_fired_push(Some(&empty), &all_on(), false, false, "s", "", None).is_empty());
}

#[test]
fn only_a_gone_endpoint_is_dropped() {
    let mut store = store_of(&["https://x/1"]);
    let seen = store.get("https://x/1").unwrap().clone();
    assert!(!settle(&mut store, &seen, SendOutcome::Delivered));
    assert!(!settle(&mut store, &seen, SendOutcome::Failed));
    assert_eq!(store.len(), 1);
    assert!(settle(&mut store, &seen, SendOutcome::Gone));
    assert_eq!(store.len(), 0);
}

fn state() -> AppState {
    let mut seed = [0u8; 32];
    seed[31] = 1;
    let push = PushState::init(VapidKeypair::from_seed(&seed), None).ok().unwrap();
    AppState { push_enabled: true, push: Some(push) }
}

fn body(endpoint: &str, p256dh: &str, auth: &str) -> SubscribeBody {
    SubscribeBody {
        endpoint: endpoint.to_string(),
        keys: SubscribeKeys { p256dh: p256dh.to_string(), auth: auth.to_string() },
    }
}

fn endpoint(text: &str) -> EndpointBody {
    EndpointBody { endpoint: text.to_string() }
}

const NOW: Timestamp = Timestamp { secs: 5, nanos: 6 };

#[test]
fn push_state_starts_from_what_was_saved() {
    let mut seed = [0u8; 32];
    seed[31] = 9;
    let push =
        PushState::init(VapidKeypair::from_seed(&seed), Some(vec![sub("https://x/1")])).ok().unwrap();
    assert_eq!(push.subject, VAPID_SUBJECT);
    assert_eq!(push.subject, "https://github.com/njbrake/agent-of-empires");
    assert_eq!(push.store.len(), 1);
    let failed = PushState::init(VapidKeypair::from_seed(&[0u8; 32]), None);
    assert!(matches!(failed, Err(VapidError::DeriveKey(_))));
}

#[test]
fn status_and_public_key() {
    let on = state();
    assert!(get_status(&on));
    assert_eq!(
        get_vapid_public_key(&on),
        Ok(on.push.as_ref().unwrap().vapid.public_b64url.clone())
    );
    let off = AppState { push_enabled: false, push: None };
    assert!(!get_status(&off));
    assert_eq!(get_vapid_public_key(&off), Err(StatusCode::NotFound));
}

#[test]
fn subscribing_files_the_subscription() {
    let mut s = state();
    assert_eq!(
        subscribe(&mut s, &[7u8; 32], Some("Firefox"), body("https://x/1", "pk", "au"), NOW),
        Ok(())
    );
    let store = &s.push.as_ref().unwrap().store;
    let found = store.get("https://x/1").unwrap();
    assert_eq!(found.owner_token_hash, [7u8; 32]);
    assert_eq!(found.user_agent, "Firefox");
    assert_eq!((found.p256dh.as_str(), found.auth.as_str()), ("pk", "au"));
    assert_eq!(found.created_at, NOW);
    assert_eq!(found.generation, 0);
    assert_eq!(subscribe(&mut s, &[7u8; 32], None, body("https://x/1", "pk", "au"), NOW), Ok(()));
    let found = s.push.as_ref().unwrap().store.get("https://x/1").unwrap();
    assert_eq!(found.generation, 1);
    assert_eq!(found.user_agent, "");
}

#[test]
fn incomplete_subscriptions_are_refused() {
    let mut s = state();
    for b in [body("", "pk", "au"), body("e", "", "au"), body("e", "pk", "")] {
        assert_eq!(subscribe(&mut s, &[7u8; 32], None, b, NOW), Err(StatusCode::BadRequest));
    }
    assert_eq!(s.push.as_ref().unwrap().store.len(), 0);
    let mut off = AppState { push_enabled: false, push: None };
    assert_eq!(
        subscribe(&mut off, &[7u8; 32], None, body("", "", ""), NOW),
        Err(StatusCode::NotFound)
    );
}

#[test]
fn unsubscribing_needs_the_owner() {
    let mut s = state();
    subscribe(&mut s, &[7u8; 32], None, body("https://x/1", "pk", "au"), NOW).unwrap();
    assert_eq!(unsubscribe(&mut s, &[7u8; 32], &endpoint("")), Err(StatusCode::BadRequest));
    assert_eq!(
        unsubscribe(&mut s, &[8u8; 32], &endpoint("https://x/1")),
        Err(StatusCode::Forbidden)
    );
    assert_eq!(
        unsubscribe(&mut s, &[7u8; 32], &endpoint("https://x/2")),
        Err(StatusCode::Forbidden)
    );
    assert_eq!(s.push.as_ref().unwrap().store.len(), 1);
    assert_eq!(unsubscribe(&mut s, &[7u8; 32], &endpoint("https://x/1")), Ok(()));
    assert_eq!(s.push.as_ref().unwrap().store.len(), 0);
    let mut off = AppState { push_enabled: false, push: None };
    assert_eq!(unsubscribe(&mut off, &[7u8; 32], &endpoint("e")), Err(StatusCode::NotFound));
}

#[test]
fn answers_once_saved() {
    assert_eq!(after_save(true), Ok(StatusCode::NoContent));
    assert_eq!(after_save(false), Err(StatusCode::InternalServerError));
    let codes: Vec<u16> = [
        StatusCode::NoContent,
        StatusCode::BadRequest,
        StatusCode::Forbidden,
        StatusCode::NotFound,
        StatusCode::InternalServerError,
    ]
    .iter()
    .map(|c| c.as_u16())
    .collect();
    assert_eq!(codes, vec![204, 400, 403, 404, 500]);
}

#[test]
fn a_test_notification_goes_to_the_callers_own_endpoint() {
    let mut s = state();
    subscribe(&mut s, &[7u8; 32], None, body("https://x/1", "pk", "au"), NOW).unwrap();
    let d = agent_of_empires::push::handlers::test(&s, &[7u8; 32], &endpoint("https://x/1")).ok().unwrap();
    assert_eq!(d.subscription.endpoint, "https://x/1");
    assert_eq!(d.payload.title, "Agent of Empires");
    assert_eq!(
        d.payload.body,
        "Test notification. If you see this on your lock screen, push is working."
    );
    assert_eq!((d.payload.url.as_str(), d.payload.tag.as_str()), ("/", "aoe-test"));
    assert_eq!(d.payload.session_id, "");
    let code = |r: Result<_, StatusCode>| match r {
        Ok(_) => None,
        Err(c) => Some(c),
    };
    assert_eq!(
        code(agent_of_empires::push::handlers::test(&s, &[8u8; 32], &endpoint("https://x/1"))),
        Some(StatusCode::Forbidden)
    );
    assert_eq!(
        code(agent_of_empires::push::handlers::test(&s, &[7u8; 32], &endpoint("https://x/9"))),
        Some(StatusCode::Forbidden)
    );
    assert_eq!(code(agent_of_empires::push::handlers::test(&s, &[7u8; 32], &endpoint(""))), Some(StatusCode::BadRequest));
    let off = AppState { push_enabled: false, push: None };
    assert_eq!(code(agent_of_empires::push::handlers::test(&off, &[7u8; 32], &endpoint("e"))), Some(StatusCode::NotFound));
}

#[test]
fn a_test_notification_is_counted() {
    let mut store = store_of(&["https://x/1"]);
    let seen = store.get("https://x/1").unwrap().clone();
    let r = finish_test(&mut store, &seen, Some(SendOutcome::Delivered));
    assert_eq!(r.answer, Ok(TestResult { delivered: 1, failed: 0, gone: 0 }));
    assert!(!r.save);
    let r = finish_test(&mut store, &seen, Some(SendOutcome::Failed));
    assert_eq!(r.answer, Ok(TestResult { delivered: 0, failed: 1, gone: 0 }));
    let r = finish_test(&mut store, &seen, None);
    assert_eq!(r.answer, Err(StatusCode::InternalServerError));
    assert_eq!(store.len(), 1);
    let r = finish_test(&mut store, &seen, Some(SendOutcome::Gone));
    assert_eq!(r.answer, Ok(TestResult { delivered: 0, failed: 0, gone: 1 }));
    assert!(r.save);
    assert_eq!(store.len(), 0);
    let r = finish_test(&mut store, &seen, Some(SendOutcome::Gone));
    assert_eq!(r.answer, Ok(TestResult { delivered: 0, failed: 0, gone: 1 }));
    assert!(!r.save);
}
