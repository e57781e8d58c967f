use onuzglorp_core::cache_manager::{CacheManager, LiveTime};
use onuzglorp_core::database::Database;
use onuzglorp_core::tasks::clear_cache::{sweep, sweep_at, Sweep, SWEEP_INTERVAL_SECS};
use onuzglorp_core::tasks::daily_random_level::{
    until_next_midnight, NANOS_PER_SECOND, SECONDS_PER_DAY, SEND_PAUSE_SECS,
};

#[test]
fn sweeper_wakes_every_five_minutes() {
    assert_eq!(SWEEP_INTERVAL_SECS, 300);
}

#[test]
fn sweeper_passes_over_an_empty_cache() {
    let mut cache = CacheManager::new(Database { client: None });
    assert_eq!(sweep_at(&mut cache, 1_000), Sweep::Skipped);
    assert_eq!(sweep(&mut cache), Sweep::Skipped);
    assert!(cache.cache.is_empty());
}

#[test]
fn sweeper_reports_how_many_entries_remain() {
    let mut cache = CacheManager::new(Database { client: None });
    cache.add_at("a".to_string(), 1u64, Some(LiveTime::Minutes(1)), None, 0);
    cache.add_at("b".to_string(), 2u64, Some(LiveTime::Minutes(5)), None, 0);
    cache.add_at("c".to_string(), 3u64, None, None, 0);
    assert_eq!(sweep_at(&mut cache, 60), Sweep::Cleared { remaining: 3 });
    assert_eq!(sweep_at(&mut cache, 61), Sweep::Cleared { remaining: 2 });
    assert_eq!(sweep_at(&mut cache, 301), Sweep::Cleared { remaining: 1 });
    assert_eq!(sweep_at(&mut cache, 301), Sweep::Cleared { remaining: 1 });
    assert_eq!(sweep(&mut cache), Sweep::Cleared { remaining: 1 });
}

#[test]
fn sweeper_that_empties_the_cache_reports_zero_then_skips() {
    let mut cache = CacheManager::new(Database { client: None });
    cache.add_at("a".to_string(), 1u64, Some(LiveTime::Minutes(1)), None, 0);
    assert_eq!(sweep_at(&mut cache, 61), Sweep::Cleared { remaining: 0 });
    assert_eq!(sweep_at(&mut cache, 61), Sweep::Skipped);
}

#[test]
fn wait_until_midnight_ends_on_a_day_boundary() {
    assert_eq!(SECONDS_PER_DAY, 86_400);
    assert_eq!(NANOS_PER_SECOND, 1_000_000_000);
    assert_eq!(SEND_PAUSE_SECS, 2);
    assert_eq!(until_next_midnight(0, 0), (86_400, 0));
    assert_eq!(until_next_midnight(0, 1), (86_399, 999_999_999));
    assert_eq!(until_next_midnight(1, 0), (86_399, 0));
    assert_eq!(until_next_midnight(86_399, 999_999_999), (0, 1));
    assert_eq!(until_next_midnight(86_400, 0), (86_400, 0));
    assert_eq!(until_next_midnight(1_761_609_600, 0), (86_400, 0));
    assert_eq!(until_next_midnight(1_761_609_600 + 3_600, 500_000_000), (82_799, 500_000_000));
    assert_eq!(until_next_midnight(u64::MAX, 999_999_999), (61_184, 1));
}
