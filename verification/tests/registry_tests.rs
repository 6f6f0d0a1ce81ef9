use aplin::registry::is_ab_model;
use aplin::registry::is_supported_accessory;
use aplin::registry::WatchRegistry;
use aplin::registry::APPLE_VENDOR_ID;

const ADDR: u64 = 0x0011_2233_4455;

#[test]
fn fresh_registry_knows_nothing() {
    let r = WatchRegistry::new();
    assert!(!r.contains(ADDR));
    assert!(!r.is_watched(ADDR));
}

#[test]
fn watch_and_idle_cycle() {
    let mut r = WatchRegistry::new();
    r.mark_watching(ADDR);
    assert!(r.contains(ADDR));
    assert!(r.is_watched(ADDR));

    // The session ends: the entry stays, flipped to false.
    r.mark_idle(ADDR);
    assert!(r.contains(ADDR));
    assert!(!r.is_watched(ADDR));
}

#[test]
fn remove_forgets_address() {
    let mut r = WatchRegistry::new();
    r.mark_watching(ADDR);
    r.remove(ADDR);
    assert!(!r.contains(ADDR));
}

#[test]
fn note_seen_keeps_existing_entry() {
    let mut r = WatchRegistry::new();
    r.note_seen(ADDR);
    assert!(r.contains(ADDR));
    assert!(!r.is_watched(ADDR));

    r.mark_watching(ADDR);
    r.note_seen(ADDR);
    // A later sighting must not downgrade a watched entry.
    assert!(r.is_watched(ADDR));
}

#[test]
fn discovery_dedup_across_two_passes() {
    let mut r = WatchRegistry::new();
    let mut started: u32 = 0;

    // Two scan passes over the same connected peer.
    for _pass in 0..2 {
        if r.should_start(ADDR, true) {
            r.mark_watching(ADDR);
            started += 1;
        }
    }
    assert_eq!(started, 1);
}

#[test]
fn try_start_marks_and_dedups() {
    let mut r = WatchRegistry::new();
    assert!(!r.try_start(ADDR, false));
    assert!(!r.contains(ADDR));

    assert!(r.try_start(ADDR, true));
    assert!(r.is_watched(ADDR));
    // Second pass: already watched, not started again.
    assert!(!r.try_start(ADDR, true));
}

#[test]
fn should_start_requires_connection() {
    let r = WatchRegistry::new();
    assert!(!r.should_start(ADDR, false));
    assert!(r.should_start(ADDR, true));
}

#[test]
fn should_start_after_session_end() {
    let mut r = WatchRegistry::new();
    r.mark_watching(ADDR);
    assert!(!r.should_start(ADDR, true));
    r.mark_idle(ADDR);
    // A finished session may be restarted by re-discovery.
    assert!(r.should_start(ADDR, true));
}

#[test]
fn supported_accessory_filter() {
    for product in
        [0x2002, 0x200F, 0x2013, 0x2019, 0x200E, 0x2014, 0x2024, 0x200A, 0x201f, 0x2012]
    {
        assert!(is_ab_model(product));
        assert!(is_supported_accessory(APPLE_VENDOR_ID, product));
    }
    assert!(!is_ab_model(0x9999));
    assert!(!is_supported_accessory(76, 0x9999));
    assert!(!is_supported_accessory(77, 0x2014));
    assert!(!is_supported_accessory(0, 0x2002));
}
