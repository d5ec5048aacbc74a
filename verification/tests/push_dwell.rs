use agent_of_empires::clock::{Instant, Timestamp};
use agent_of_empires::keyed::Keyed;
use agent_of_empires::push::dwell::{
    collect_due, handle_status_change, should_fire, DwellState, NotificationEvent, StatusChange,
    COOLDOWN_MS, DWELL_TERMINAL_MS, DWELL_WAITING_MS, STATUS_CHANNEL_CAPACITY,
};
use agent_of_empires::session::{Instance, Status, WebConfig};

fn ms(n: u64) -> Instant {
    Instant { nanos: n * 1_000_000 }
}

fn change(id: &str, title: &str, old: Status, new: Status) -> StatusChange {
    StatusChange {
        instance_id: id.to_string(),
        instance_title: title.to_string(),
        old,
        new,
        at: Timestamp { secs: 0, nanos: 0 },
    }
}

#[test]
fn dwell_starts_on_enter_waiting_and_clears_on_exit() {
    let mut dwell: Keyed<DwellState> = Keyed::new();
    let id = "sess-1".to_string();

    // Enter Waiting: dwell starts.
    handle_status_change(
        &mut dwell,
        change(&id, "my session", Status::Running, Status::Waiting),
        ms(1),
    );
    assert!(dwell.get(&id).unwrap().waiting_since.is_some());
    assert_eq!(dwell.get(&id).unwrap().title, "my session");

    // Leave Waiting: dwell clears (but entry still exists so
    // last_notified survives for cooldown checking).
    handle_status_change(
        &mut dwell,
        change(&id, "my session", Status::Waiting, Status::Running),
        ms(2),
    );
    assert!(dwell.get(&id).unwrap().waiting_since.is_none());
}

#[test]
fn dwell_switches_between_event_types() {
    let mut dwell: Keyed<DwellState> = Keyed::new();
    let id = "sess-3".to_string();
    let ev = |new: Status| change(&id, "s", Status::Running, new);

    handle_status_change(&mut dwell, ev(Status::Waiting), ms(1));
    let s = dwell.get(&id).unwrap();
    assert!(s.waiting_since.is_some());
    assert!(s.idle_since.is_none());
    assert!(s.error_since.is_none());

    handle_status_change(&mut dwell, ev(Status::Error), ms(2));
    let s = dwell.get(&id).unwrap();
    assert!(s.waiting_since.is_none());
    assert!(s.idle_since.is_none());
    assert!(s.error_since.is_some());

    handle_status_change(&mut dwell, ev(Status::Idle), ms(3));
    let s = dwell.get(&id).unwrap();
    assert!(s.waiting_since.is_none());
    assert!(s.idle_since.is_some());
    assert!(s.error_since.is_none());
}

#[test]
fn should_fire_respects_per_session_override() {
    let web = WebConfig {
        notifications_enabled: true,
        notify_on_waiting: true,
        notify_on_idle: false, // globally off
        notify_on_error: true,
        notify_on_wake_fire: true,
    };

    // No instance (session not in state): fall back to web defaults.
    assert!(should_fire(NotificationEvent::Waiting, &web, None));
    assert!(!should_fire(NotificationEvent::Idle, &web, None));
    assert!(should_fire(NotificationEvent::Error, &web, None));

    // Instance with no overrides: inherits web defaults.
    let mut inst = Instance::new("id".to_string(), "t".to_string(), "/tmp".to_string());
    assert!(should_fire(NotificationEvent::Waiting, &web, Some(&inst)));
    assert!(!should_fire(NotificationEvent::Idle, &web, Some(&inst)));
    assert!(should_fire(NotificationEvent::Error, &web, Some(&inst)));

    // Session opts INTO idle despite global default off; this is
    // the "I want to babysit this one long session" case.
    inst.notify_on_idle = Some(true);
    assert!(should_fire(NotificationEvent::Idle, &web, Some(&inst)));

    // Session opts OUT of waiting despite global on; this is the
    // "stop spamming me about this noisy session" case.
    inst.notify_on_waiting = Some(false);
    assert!(!should_fire(NotificationEvent::Waiting, &web, Some(&inst)));

    // Error unaffected: per-event-type overrides don't cross-pollute.
    assert!(should_fire(NotificationEvent::Error, &web, Some(&inst)));
}

#[test]
fn dwell_entry_drops_on_stopped() {
    let mut dwell: Keyed<DwellState> = Keyed::new();
    let id = "sess-2".to_string();
    handle_status_change(&mut dwell, change(&id, "s", Status::Running, Status::Waiting), ms(1));
    assert!(dwell.contains_key(&id));
    handle_status_change(&mut dwell, change(&id, "s", Status::Waiting, Status::Stopped), ms(2));
    assert!(!dwell.contains_key(&id));
}

#[test]
fn hibernated_and_deleting_are_forgotten_too() {
    for end in [Status::Hibernated, Status::Deleting] {
        let mut dwell: Keyed<DwellState> = Keyed::new();
        handle_status_change(&mut dwell, change("a", "s", Status::Running, Status::Idle), ms(1));
        handle_status_change(&mut dwell, change("a", "s", Status::Idle, end), ms(2));
        assert_eq!(dwell.len(), 0);
    }
}

#[test]
fn dwell_times() {
    assert_eq!(NotificationEvent::Waiting.dwell_ms(), 5_000);
    assert_eq!(NotificationEvent::Idle.dwell_ms(), 2_000);
    assert_eq!(NotificationEvent::Error.dwell_ms(), 2_000);
    assert_eq!(
        (DWELL_WAITING_MS, DWELL_TERMINAL_MS, COOLDOWN_MS, STATUS_CHANNEL_CAPACITY),
        (5_000, 2_000, 60_000, 64)
    );
}

#[test]
fn a_push_is_due_once_the_state_has_lasted() {
    let mut dwell: Keyed<DwellState> = Keyed::new();
    handle_status_change(&mut dwell, change("a", "s", Status::Running, Status::Waiting), ms(100));
    assert!(collect_due(&mut dwell, ms(5_099)).is_empty());
    let due = collect_due(&mut dwell, ms(5_100));
    assert_eq!(due.len(), 1);
    assert_eq!(due[0].instance_id, "a");
    assert_eq!(due[0].title, "s");
    assert_eq!(due[0].event, NotificationEvent::Waiting);
    // Once taken up, not again; the cooldown waits for the push to be sent.
    assert_eq!(dwell.get("a").unwrap().last_notified, None);
    assert!(collect_due(&mut dwell, ms(500_000)).is_empty());
}

#[test]
fn a_flicker_restarts_the_timer() {
    let mut dwell: Keyed<DwellState> = Keyed::new();
    handle_status_change(&mut dwell, change("a", "s", Status::Running, Status::Waiting), ms(0));
    handle_status_change(&mut dwell, change("a", "s", Status::Waiting, Status::Running), ms(4_000));
    handle_status_change(&mut dwell, change("a", "s", Status::Running, Status::Waiting), ms(4_500));
    assert!(collect_due(&mut dwell, ms(9_000)).is_empty());
    assert_eq!(collect_due(&mut dwell, ms(9_500)).len(), 1);
}

#[test]
fn each_due_session_is_listed_once() {
    let mut dwell: Keyed<DwellState> = Keyed::new();
    for id in ["a", "b", "c"] {
        handle_status_change(&mut dwell, change(id, "", Status::Running, Status::Idle), ms(0));
    }
    handle_status_change(&mut dwell, change("b", "", Status::Idle, Status::Running), ms(1));
    let mut ids: Vec<String> =
        collect_due(&mut dwell, ms(10_000)).into_iter().map(|d| d.instance_id).collect();
    ids.sort();
    assert_eq!(ids, vec!["a".to_string(), "c".to_string()]);
}

#[test]
fn a_clock_that_goes_back_counts_as_no_time() {
    assert_eq!(ms(5).ms_since(ms(9)), 0);
    assert_eq!(ms(9).ms_since(ms(5)), 4);
}

#[test]
fn keyed_maps_text_to_values() {
    let mut map: Keyed<u32> = Keyed::new();
    map.insert("a".to_string(), 1);
    map.insert("b".to_string(), 2);
    map.insert("a".to_string(), 3);
    assert_eq!(map.len(), 2);
    assert_eq!(map.get("a"), Some(&3));
    assert_eq!(map.key_at(0), "a");
    map.insert("c".to_string(), 4);
    map.remove("a");
    map.remove("zzz");
    assert_eq!((map.key_at(0).as_str(), map.key_at(1).as_str()), ("b", "c"));
    assert_eq!(map.get("a"), None);
    assert_eq!(map.get("b"), Some(&2));
}
