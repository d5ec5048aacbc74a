use agent_of_empires::clock::Timestamp;
use agent_of_empires::push::store::{Subscription, SubscriptionStore};

fn at(secs: i64) -> Timestamp {
    Timestamp { secs, nanos: 0 }
}

fn sub(endpoint: &str, hash: [u8; 32], generation: u64) -> Subscription {
    Subscription {
        endpoint: endpoint.to_string(),
        p256dh: "pk".to_string(),
        auth: "auth".to_string(),
        owner_token_hash: hash,
        user_agent: "UA".to_string(),
        created_at: at(1_700_000_000),
        generation,
    }
}

#[test]
fn subscription_store_upsert_increments_generation() {
    let mut store = SubscriptionStore::load_or_empty(None);
    let base = sub("https://push.example/abc", [1u8; 32], 0);
    store.upsert(base.clone());
    store.upsert(base.clone());

    let all = store.snapshot();
    assert_eq!(all.len(), 1);
    assert_eq!(all[0].generation, 1);
}

#[test]
fn gc_stale_respects_generation() {
    let mut store = SubscriptionStore::load_or_empty(None);
    let sub = sub("https://push.example/abc", [1u8; 32], 5);
    store.upsert(sub.clone());

    // Stale GC (observed generation differs) does NOT remove.
    let removed = store.gc_stale(&sub.endpoint, 4);
    assert!(!removed);
    assert_eq!(store.snapshot().len(), 1);

    // Matching generation removes.
    let removed = store.gc_stale(&sub.endpoint, 5);
    assert!(removed);
    assert_eq!(store.snapshot().len(), 0);
}

#[test]
fn retain_owners_keeps_grace_token_drops_rest() {
    let mut store = SubscriptionStore::load_or_empty(None);
    store.upsert(sub("https://x/1", [1u8; 32], 0));
    store.upsert(sub("https://x/2", [2u8; 32], 0));
    store.upsert(sub("https://x/3", [3u8; 32], 0));
    assert_eq!(store.snapshot().len(), 3);

    // Keep current (hash 2) and grace (hash 1); drop hash 3.
    let removed = store.retain_owners(&[[1u8; 32], [2u8; 32]]);
    assert_eq!(removed, 1);
    let remaining: Vec<_> = store.snapshot().into_iter().map(|s| s.endpoint).collect();
    assert_eq!(remaining.len(), 2);
    assert!(remaining.contains(&"https://x/1".to_string()));
    assert!(remaining.contains(&"https://x/2".to_string()));

    // After grace expires, only hash 2 remains valid. hash 1 drops.
    let removed = store.retain_owners(&[[2u8; 32]]);
    assert_eq!(removed, 1);
    assert_eq!(store.snapshot().len(), 1);
}

#[test]
fn remove_if_owner_blocks_cross_owner() {
    let mut store = SubscriptionStore::load_or_empty(None);
    store.upsert(sub("https://push.example/abc", [1u8; 32], 0));

    // Different owner must not succeed.
    let removed = store.remove_if_owner("https://push.example/abc", &[2u8; 32]);
    assert!(!removed);
    assert_eq!(store.snapshot().len(), 1);

    // Correct owner succeeds.
    let removed = store.remove_if_owner("https://push.example/abc", &[1u8; 32]);
    assert!(removed);
    assert_eq!(store.snapshot().len(), 0);
}

#[test]
fn resubscribing_keeps_first_time_and_takes_new_keys() {
    let mut store = SubscriptionStore::load_or_empty(None);
    store.upsert(sub("https://x/1", [1u8; 32], 0));
    let mut again = sub("https://x/1", [2u8; 32], 77);
    again.p256dh = "pk2".to_string();
    again.created_at = at(9);
    store.upsert(again);
    let found = store.get("https://x/1").unwrap();
    assert_eq!(found.generation, 1);
    assert_eq!(found.created_at, at(1_700_000_000));
    assert_eq!(found.p256dh, "pk2");
    assert_eq!(found.owner_token_hash, [2u8; 32]);
}

#[test]
fn generation_saturates_at_its_end() {
    let mut store = SubscriptionStore::load_or_empty(None);
    store.upsert(sub("https://x/1", [1u8; 32], u64::MAX));
    store.upsert(sub("https://x/1", [1u8; 32], 0));
    assert_eq!(store.get("https://x/1").unwrap().generation, u64::MAX);
}

#[test]
fn gone_endpoint_that_came_back_is_spared() {
    let mut store = SubscriptionStore::load_or_empty(None);
    store.upsert(sub("https://x/1", [1u8; 32], 0));
    let seen = store.get("https://x/1").unwrap().generation;
    store.upsert(sub("https://x/1", [1u8; 32], 0));
    assert!(!store.gc_stale("https://x/1", seen));
    assert_eq!(store.len(), 1);
    assert!(!store.gc_stale("https://x/unknown", 0));
}

#[test]
fn loading_a_snapshot_gives_the_store_back() {
    let mut store = SubscriptionStore::load_or_empty(None);
    store.upsert(sub("https://x/1", [1u8; 32], 3));
    store.upsert(sub("https://x/2", [2u8; 32], 4));
    let mut again = SubscriptionStore::load_or_empty(Some(store.snapshot()));
    assert_eq!(again.len(), 2);
    assert_eq!(again.get("https://x/1").unwrap().generation, 3);
    assert_eq!(again.get("https://x/2").unwrap().generation, 4);
    assert!(again.remove_if_owner("https://x/2", &[2u8; 32]));
}

#[test]
fn later_entries_of_a_saved_list_win() {
    let list = vec![sub("https://x/1", [1u8; 32], 1), sub("https://x/1", [2u8; 32], 2)];
    let store = SubscriptionStore::load_or_empty(Some(list));
    assert_eq!(store.len(), 1);
    assert_eq!(store.get("https://x/1").unwrap().generation, 2);
}

#[test]
fn an_owner_sees_only_its_own() {
    let mut store = SubscriptionStore::load_or_empty(None);
    store.upsert(sub("https://x/1", [1u8; 32], 0));
    store.upsert(sub("https://x/2", [2u8; 32], 0));
    store.upsert(sub("https://x/3", [1u8; 32], 0));
    let own = store.for_owner(&[1u8; 32]);
    assert_eq!(own.len(), 2);
    assert!(own.iter().all(|s| s.owner_token_hash == [1u8; 32]));
    assert!(store.for_owner(&[9u8; 32]).is_empty());
}

#[test]
fn nothing_is_dropped_when_every_owner_is_valid() {
    let mut store = SubscriptionStore::load_or_empty(None);
    store.upsert(sub("https://x/1", [1u8; 32], 0));
    assert_eq!(store.retain_owners(&[[1u8; 32]]), 0);
    assert_eq!(store.retain_owners(&[]), 1);
    assert_eq!(store.len(), 0);
}
