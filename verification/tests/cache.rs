//! The per-target cache: single-flight construction and idle eviction.

use proxy_core::cache::{Cache, GetOutcome};

#[test]
fn single_flight_two_overlapping_lookups() {
    // Two lookups of the same key whose windows overlap (the second runs
    // while the first one's slot is still pending) perform exactly one
    // construction.
    let mut cache: Cache<u32> = Cache::new(60_000);
    assert_eq!(cache.get_or_make(7, 0), GetOutcome::Started);
    assert_eq!(cache.get_or_make(7, 1), GetOutcome::Joined);
    assert_eq!(cache.builds, 1);
}

#[test]
fn distinct_keys_build_separately() {
    let mut cache: Cache<u32> = Cache::new(60_000);
    cache.get_or_make(1, 0);
    cache.get_or_make(2, 0);
    assert_eq!(cache.builds, 2);
}

#[test]
fn completed_slot_is_a_hit() {
    let mut cache: Cache<u32> = Cache::new(60_000);
    cache.get_or_make(7, 0);
    cache.complete(7, 99, 1);
    assert_eq!(cache.get_or_make(7, 2), GetOutcome::Hit);
    assert_eq!(cache.builds, 1);
}

#[test]
fn concurrent_callers_observe_the_same_instance() {
    let mut cache: Cache<u32> = Cache::new(60_000);
    cache.get_or_make(7, 0);
    assert_eq!(cache.get(7), None); // still pending
    cache.complete(7, 99, 1);
    assert_eq!(cache.get(7), Some(&99));
    cache.get_or_make(7, 2);
    assert_eq!(cache.get(7), Some(&99));
}

#[test]
fn idle_entry_is_evicted_after_max_idle() {
    // Build at t=0; with no further references the entry is gone at
    // max_idle + 1, and a new lookup builds a fresh instance — visible
    // through the build counter.
    let mut cache: Cache<u32> = Cache::new(500);
    cache.get_or_make(7, 0);
    cache.complete(7, 99, 0);
    cache.sweep(501);
    assert!(!cache.contains(7));
    assert_eq!(cache.get_or_make(7, 501), GetOutcome::Started);
    assert_eq!(cache.builds, 2);
}

#[test]
fn fresh_entry_survives_a_sweep() {
    // Before max_idle has elapsed since the last use, the key stays
    // reachable.
    let mut cache: Cache<u32> = Cache::new(500);
    cache.get_or_make(7, 0);
    cache.complete(7, 99, 0);
    cache.sweep(499);
    assert!(cache.contains(7));
    assert_eq!(cache.get_or_make(7, 499), GetOutcome::Hit);
    assert_eq!(cache.builds, 1);
}

#[test]
fn eviction_boundary_is_exact() {
    // At exactly max_idle since the last use the entry is evicted.
    let mut cache: Cache<u32> = Cache::new(500);
    cache.get_or_make(7, 100);
    cache.complete(7, 99, 100);
    cache.sweep(600);
    assert!(!cache.contains(7));
}

#[test]
fn touch_keeps_an_entry_alive() {
    let mut cache: Cache<u32> = Cache::new(500);
    cache.get_or_make(7, 0);
    cache.complete(7, 99, 0);
    cache.touch(7, 400);
    cache.sweep(800);
    assert!(cache.contains(7));
}

#[test]
fn touch_timestamps_are_monotone() {
    let mut cache: Cache<u32> = Cache::new(500);
    cache.get_or_make(7, 300);
    // A touch with an earlier instant does not move the timestamp back.
    cache.touch(7, 100);
    cache.sweep(700);
    assert!(cache.contains(7));
}

#[test]
fn sweep_only_evicts_idle_keys() {
    let mut cache: Cache<u32> = Cache::new(500);
    cache.get_or_make(1, 0);
    cache.get_or_make(2, 400);
    cache.sweep(600);
    assert!(!cache.contains(1));
    assert!(cache.contains(2));
}
