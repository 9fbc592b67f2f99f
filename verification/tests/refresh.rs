use people_cache::digest::fingerprint;
use people_cache::entry::CacheEntry;
use people_cache::policy::{people_reply, respond, Reply};
use people_cache::refresh::{
    classify_response, ingest_response, next_cache, request_validator, FetchOutcome,
};
use people_cache::slot::RemoteSlot;

#[test]
fn fresh_slot_is_empty() {
    let slot = RemoteSlot::new();
    assert!(slot.snapshot().is_none());
    assert!(slot.current_validator().is_none());
}

#[test]
fn ok_response_without_etag_stores_fingerprint() {
    let slot = RemoteSlot::new();
    let updated = ingest_response(&slot, 200, None, b"{\"b\":2}".to_vec());
    assert!(updated);
    let entry = slot.snapshot().expect("slot must be warm after a 200");
    assert_eq!(entry.bytes, b"{\"b\":2}".to_vec());
    assert_eq!(entry.etag, fingerprint(b"{\"b\":2}"));
}

#[test]
fn ok_response_with_etag_keeps_upstream_validator() {
    let slot = RemoteSlot::new();
    ingest_response(&slot, 200, Some(String::from("\"abc\"")), b"{\"b\":2}".to_vec());
    let entry = slot.snapshot().expect("slot must be warm after a 200");
    assert_eq!(entry.bytes, b"{\"b\":2}".to_vec());
    assert_eq!(entry.etag, "\"abc\"");
}

#[test]
fn not_modified_keeps_cached_entry() {
    let slot = RemoteSlot::new();
    ingest_response(&slot, 200, None, b"{\"b\":2}".to_vec());
    let updated = ingest_response(&slot, 304, None, Vec::new());
    assert!(!updated);
    let entry = slot.snapshot().expect("slot must stay warm after a 304");
    assert_eq!(entry.bytes, b"{\"b\":2}".to_vec());
    assert_eq!(entry.etag, fingerprint(b"{\"b\":2}"));
}

#[test]
fn unexpected_status_keeps_cached_entry() {
    let slot = RemoteSlot::new();
    ingest_response(&slot, 200, None, b"{\"b\":2}".to_vec());
    let updated = ingest_response(&slot, 500, None, Vec::new());
    assert!(!updated);
    let entry = slot.snapshot().expect("a failed tick must not clear the slot");
    assert_eq!(entry.etag, fingerprint(b"{\"b\":2}"));
}

#[test]
fn unexpected_status_on_cold_slot_stays_cold() {
    let slot = RemoteSlot::new();
    let updated = ingest_response(&slot, 502, None, Vec::new());
    assert!(!updated);
    assert!(slot.snapshot().is_none());
}

#[test]
fn classify_distinguishes_the_three_outcomes() {
    assert!(matches!(
        classify_response(200, None, b"x".to_vec()),
        FetchOutcome::Updated(_)
    ));
    assert!(matches!(
        classify_response(304, None, Vec::new()),
        FetchOutcome::NotModified
    ));
    assert!(matches!(
        classify_response(404, None, Vec::new()),
        FetchOutcome::Failed(404)
    ));
}

#[test]
fn classified_update_carries_body_and_fingerprint() {
    match classify_response(200, None, b"{\"b\":2}".to_vec()) {
        FetchOutcome::Updated(e) => {
            assert_eq!(e.bytes, b"{\"b\":2}".to_vec());
            assert_eq!(e.etag, fingerprint(b"{\"b\":2}"));
        }
        _ => panic!("a 200 must yield new content"),
    }
}

#[test]
fn validator_follows_cache_state() {
    assert!(request_validator(&None).is_none());
    let entry = CacheEntry::from_bytes(b"{\"b\":2}".to_vec());
    let etag = entry.etag.clone();
    assert_eq!(request_validator(&Some(entry)), Some(etag));
}

#[test]
fn apply_replaces_only_on_update() {
    let slot = RemoteSlot::new();
    assert!(!slot.apply(FetchOutcome::NotModified));
    assert!(!slot.apply(FetchOutcome::Failed(503)));
    assert!(slot.snapshot().is_none());
    let entry = CacheEntry::from_bytes(b"{\"b\":2}".to_vec());
    assert!(slot.apply(FetchOutcome::Updated(entry)));
    assert!(slot.snapshot().is_some());
}

#[test]
fn next_cache_follows_the_transition() {
    let warm = CacheEntry::from_bytes(b"one".to_vec());
    let (kept, updated) = next_cache(Some(warm), FetchOutcome::NotModified);
    assert!(!updated);
    let kept = kept.expect("a not-modified tick keeps the entry");
    assert_eq!(kept.bytes, b"one".to_vec());

    let (kept, updated) = next_cache(Some(kept), FetchOutcome::Failed(500));
    assert!(!updated);
    assert_eq!(kept.expect("a failed tick keeps the entry").bytes, b"one".to_vec());

    let fresh = CacheEntry::from_bytes(b"two".to_vec());
    let (replaced, updated) = next_cache(None, FetchOutcome::Updated(fresh));
    assert!(updated);
    assert_eq!(replaced.expect("new content fills the cache").bytes, b"two".to_vec());
}

#[test]
fn direct_store_fills_the_slot() {
    let slot = RemoteSlot::new();
    let entry = CacheEntry::from_bytes(b"{\"b\":2}".to_vec());
    let etag = entry.etag.clone();
    slot.store(entry);
    let held = slot.snapshot().expect("stored entry must be visible");
    assert_eq!(held.etag, etag);
}

#[test]
fn people_on_cold_slot_behaves_like_local() {
    let slot = RemoteSlot::new();
    let local = CacheEntry::from_bytes(b"{\"a\":1}".to_vec());
    let snapshot = slot.snapshot();
    let via_people = people_reply(snapshot.as_ref(), &local, None);
    let via_local = respond(&local, None);
    match (via_people, via_local) {
        (Reply::Full { body: pb, etag: pe }, Reply::Full { body: lb, etag: le }) => {
            assert_eq!(pb, lb);
            assert_eq!(pe, le);
        }
        _ => panic!("both must answer the full local payload"),
    }
}

#[test]
fn people_serves_refreshed_entry_until_it_changes() {
    let slot = RemoteSlot::new();
    let local = CacheEntry::from_bytes(b"{\"a\":1}".to_vec());
    let d2 = fingerprint(b"{\"b\":2}");

    // A 200 without an upstream validator stores the body's fingerprint.
    ingest_response(&slot, 200, None, b"{\"b\":2}".to_vec());
    let snapshot = slot.snapshot();
    match people_reply(snapshot.as_ref(), &local, None) {
        Reply::Full { body, etag } => {
            assert_eq!(body, b"{\"b\":2}".to_vec());
            assert_eq!(etag, d2);
        }
        Reply::NotModified => panic!("expected a full response"),
    }

    // The next tick answers 304: the entry, and /people, are unchanged.
    let warm_validator = request_validator(&slot.snapshot());
    assert_eq!(warm_validator, Some(d2.clone()));
    ingest_response(&slot, 304, None, Vec::new());
    let snapshot = slot.snapshot();
    match people_reply(snapshot.as_ref(), &local, None) {
        Reply::Full { etag, .. } => assert_eq!(etag, d2),
        Reply::NotModified => panic!("expected a full response"),
    }
}

#[test]
fn store_replaces_the_whole_entry() {
    let slot = RemoteSlot::new();
    ingest_response(&slot, 200, Some(String::from("\"v1\"")), b"one".to_vec());
    ingest_response(&slot, 200, Some(String::from("\"v2\"")), b"two".to_vec());
    let entry = slot.snapshot().expect("slot must be warm");
    assert_eq!(entry.bytes, b"two".to_vec());
    assert_eq!(entry.etag, "\"v2\"");
}
