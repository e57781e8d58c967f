use onuzglorp_core::cache_manager::{CacheEntry, CacheManager, LiveTime, WriteBack};
use onuzglorp_core::cache_value::{CacheValue, Cacheable, ValueKind};
use onuzglorp_core::commands::gambling::GamblingStats;
use onuzglorp_core::database::Database;
use onuzglorp_core::tuforums::clear_info::Judgements;
use onuzglorp_core::tuforums::profile::Rank;

fn empty_cache() -> CacheManager {
    CacheManager::new(Database { client: None })
}

fn stats(id: i64, amount: u64) -> GamblingStats {
    GamblingStats {
        _id: id,
        amount,
        wins: 0,
        losses: 0,
        win_streak: 0,
        loss_streak: 0,
        last_win: None,
        last_loss: None,
        cache_key: format!("gambling_stats_{}", id),
    }
}

#[test]
fn new_cache_is_empty() {
    let cache = empty_cache();
    assert!(cache.cache.is_empty());
    assert_eq!(cache.cache.len(), 0);
    assert!(cache.database.client.is_none());
}

#[test]
fn value_without_deadline_is_found_at_any_later_second() {
    let mut cache = empty_cache();
    cache.add_at("levels_total".to_string(), 7u64, None, None, 0);
    for later in [0u64, 1, 59, 60, 61, 3600, 1_000_000, u64::MAX] {
        assert_eq!(cache.get_owned_at::<u64>("levels_total", later), Some(7));
    }
    assert_eq!(cache.cache.len(), 1);
}

#[test]
fn every_type_without_deadline_is_found_again() {
    let mut cache = empty_cache();
    cache.add_at("a".to_string(), stats(1, 10), None, None, 5);
    cache.add_at("b".to_string(), Rank(3), None, None, 5);
    cache.add_at("c".to_string(), Judgements(1, 2, 3, 4, 5, 6, 7), None, None, 5);
    cache.add_at("d".to_string(), 99u64, None, None, 5);
    for _ in 0..3 {
        assert_eq!(cache.get_at::<GamblingStats>("a", 9_000), Some(&stats(1, 10)));
        assert_eq!(cache.get_at::<Rank>("b", 9_000), Some(&Rank(3)));
        assert_eq!(cache.get_at::<Judgements>("c", 9_000), Some(&Judgements(1, 2, 3, 4, 5, 6, 7)));
        assert_eq!(cache.get_at::<u64>("d", 9_000), Some(&99));
    }
    assert_eq!(cache.cache.len(), 4);
}

#[test]
fn one_minute_entry_is_found_until_its_deadline_and_gone_after() {
    let mut cache = empty_cache();
    cache.add_at("k".to_string(), 7u64, Some(LiveTime::Minutes(1)), None, 100);
    assert_eq!(cache.get_owned_at::<u64>("k", 100), Some(7));
    assert_eq!(cache.get_owned_at::<u64>("k", 159), Some(7));
    assert_eq!(cache.get_owned_at::<u64>("k", 160), Some(7));
    assert_eq!(cache.cache.len(), 1);
    assert_eq!(cache.get_owned_at::<u64>("k", 161), None);
    assert_eq!(cache.cache.len(), 0);
    assert!(cache.cache.peek("k").is_none());
    assert_eq!(cache.get_owned_at::<u64>("k", 100), None);
}

#[test]
fn deadline_is_insertion_second_plus_time_to_live() {
    let mut cache = empty_cache();
    cache.add_at("h".to_string(), 1u64, Some(LiveTime::Hours(2)), None, 10);
    cache.add_at("m".to_string(), 1u64, Some(LiveTime::Minutes(3)), None, 5);
    cache.add_at("n".to_string(), 1u64, None, None, 5);
    cache.add_at("z".to_string(), 1u64, Some(LiveTime::Minutes(0)), None, 42);
    assert_eq!(cache.cache.peek("h").unwrap().expire, Some(7210));
    assert_eq!(cache.cache.peek("m").unwrap().expire, Some(185));
    assert_eq!(cache.cache.peek("n").unwrap().expire, None);
    assert_eq!(cache.cache.peek("z").unwrap().expire, Some(42));
}

#[test]
fn deadline_never_wraps_round() {
    let mut cache = empty_cache();
    cache.add_at("h".to_string(), 1u64, Some(LiveTime::Hours(u64::MAX)), None, u64::MAX);
    cache.add_at("m".to_string(), 1u64, Some(LiveTime::Minutes(u64::MAX)), None, u64::MAX);
    let top = u64::MAX as u128;
    assert_eq!(cache.cache.peek("h").unwrap().expire, Some(top + top * 3600));
    assert_eq!(cache.cache.peek("m").unwrap().expire, Some(top + top * 60));
    assert_eq!(cache.get_owned_at::<u64>("h", u64::MAX), Some(1));
    assert_eq!(cache.get_owned_at::<u64>("m", u64::MAX), Some(1));
}

#[test]
fn entry_is_expired_only_after_its_deadline() {
    let entry = CacheEntry { value: CacheValue::Count(1), expire: Some(50), from_collection: None };
    assert!(!entry.is_expired(0));
    assert!(!entry.is_expired(50));
    assert!(entry.is_expired(51));
    let lasting = CacheEntry { value: CacheValue::Count(1), expire: None, from_collection: None };
    assert!(!lasting.is_expired(u64::MAX));
}

#[test]
fn lookup_of_absent_key_misses_and_changes_nothing() {
    let mut cache = empty_cache();
    cache.add_at("here".to_string(), 1u64, None, None, 0);
    assert_eq!(cache.get_at::<u64>("there", 10), None);
    assert_eq!(cache.get_owned_at::<u64>("there", 10), None);
    assert_eq!(cache.get_serializable_at::<u64>("there", 10), (None, None));
    assert_eq!(cache.cache.len(), 1);
}

#[test]
fn lookup_for_another_type_misses_and_keeps_the_entry() {
    let mut cache = empty_cache();
    cache.add_at("k".to_string(), Rank(4), None, None, 0);
    assert_eq!(cache.get_at::<u64>("k", 1), None);
    assert_eq!(cache.get_at::<Judgements>("k", 1), None);
    assert_eq!(cache.get_at::<GamblingStats>("k", 1), None);
    assert_eq!(cache.get_owned_at::<u64>("k", 1), None);
    assert_eq!(cache.get_serializable_at::<GamblingStats>("k", 1), (None, None));
    assert_eq!(cache.cache.len(), 1);
    assert_eq!(cache.get_owned_at::<Rank>("k", 1), Some(Rank(4)));
}

#[test]
fn every_pair_of_distinct_types_misses() {
    let mut cache = empty_cache();
    cache.add_at("stats".to_string(), stats(1, 1), None, None, 0);
    cache.add_at("rank".to_string(), Rank(1), None, None, 0);
    cache.add_at("judgements".to_string(), Judgements(0, 0, 0, 0, 0, 0, 0), None, None, 0);
    cache.add_at("count".to_string(), 1u64, None, None, 0);
    for key in ["rank", "judgements", "count"] {
        assert!(cache.get_at::<GamblingStats>(key, 0).is_none());
    }
    for key in ["stats", "judgements", "count"] {
        assert!(cache.get_at::<Rank>(key, 0).is_none());
    }
    for key in ["stats", "rank", "count"] {
        assert!(cache.get_at::<Judgements>(key, 0).is_none());
    }
    for key in ["stats", "rank", "judgements"] {
        assert!(cache.get_at::<u64>(key, 0).is_none());
    }
    assert_eq!(cache.cache.len(), 4);
}

#[test]
fn tags_of_the_cacheable_types_differ() {
    assert_eq!(stats(1, 1).into_cache_value().kind(), ValueKind::GamblingStats);
    assert_eq!(Rank(1).into_cache_value().kind(), ValueKind::Rank);
    assert_eq!(Judgements(0, 0, 0, 0, 0, 0, 0).into_cache_value().kind(), ValueKind::Judgements);
    assert_eq!(5u64.into_cache_value().kind(), ValueKind::Count);
    assert_eq!(<u64 as Cacheable>::take(CacheValue::Count(5)), Some(5));
    assert_eq!(<u64 as Cacheable>::take(CacheValue::Rank(Rank(5))), None);
    assert_eq!(<Rank as Cacheable>::peek(&CacheValue::Rank(Rank(5))), Some(&Rank(5)));
    assert_eq!(<Rank as Cacheable>::peek(&CacheValue::Count(5)), None);
}

#[test]
fn second_insertion_replaces_value_deadline_and_collection() {
    let mut cache = empty_cache();
    cache.add_at(
        "k".to_string(),
        stats(1, 100),
        Some(LiveTime::Minutes(1)),
        Some("gambling_stats".to_string()),
        0,
    );
    cache.add_at("k".to_string(), Rank(9), Some(LiveTime::Hours(1)), None, 10);
    assert_eq!(cache.cache.len(), 1);
    let entry = cache.cache.peek("k").unwrap();
    assert_eq!(entry.value, CacheValue::Rank(Rank(9)));
    assert_eq!(entry.expire, Some(3610));
    assert_eq!(entry.from_collection, None);
    assert_eq!(cache.get_at::<GamblingStats>("k", 20), None);
    assert_eq!(cache.get_owned_at::<Rank>("k", 20), Some(Rank(9)));
    assert_eq!(cache.get_owned_at::<Rank>("k", 3610), Some(Rank(9)));
    assert_eq!(cache.get_serializable_at::<GamblingStats>("k", 3611), (None, None));
}

#[test]
fn overwriting_an_expiring_entry_with_a_lasting_one_keeps_it() {
    let mut cache = empty_cache();
    cache.add_at("k".to_string(), 1u64, Some(LiveTime::Minutes(1)), None, 0);
    cache.add_at("k".to_string(), 2u64, None, None, 0);
    assert_eq!(cache.get_owned_at::<u64>("k", 1_000_000), Some(2));
}

#[test]
fn sweep_without_expired_entries_changes_nothing() {
    let mut cache = empty_cache();
    cache.add_at("a".to_string(), 1u64, None, None, 0);
    cache.add_at("b".to_string(), 2u64, Some(LiveTime::Minutes(1)), None, 0);
    cache.add_at("c".to_string(), Rank(3), Some(LiveTime::Hours(1)), None, 0);
    cache.cleanup_expired_at(60);
    assert_eq!(cache.cache.len(), 3);
    assert_eq!(cache.cache.peek("a").unwrap().value, CacheValue::Count(1));
    assert_eq!(cache.cache.peek("b").unwrap().value, CacheValue::Count(2));
    assert_eq!(cache.cache.peek("b").unwrap().expire, Some(60));
    assert_eq!(cache.cache.peek("c").unwrap().value, CacheValue::Rank(Rank(3)));
}

#[test]
fn sweep_removes_exactly_the_expired_entries() {
    let mut cache = empty_cache();
    cache.add_at("never".to_string(), 1u64, None, None, 0);
    cache.add_at("minute".to_string(), 2u64, Some(LiveTime::Minutes(1)), None, 0);
    cache.add_at("hour".to_string(), 3u64, Some(LiveTime::Hours(1)), None, 0);
    cache.add_at(
        "tagged".to_string(),
        stats(1, 5),
        Some(LiveTime::Minutes(2)),
        Some("gambling_stats".to_string()),
        0,
    );
    cache.cleanup_expired_at(121);
    assert_eq!(cache.cache.len(), 2);
    assert!(cache.cache.peek("minute").is_none());
    assert!(cache.cache.peek("tagged").is_none());
    assert_eq!(cache.get_owned_at::<u64>("never", 121), Some(1));
    assert_eq!(cache.get_owned_at::<u64>("hour", 121), Some(3));
}

#[test]
fn sweeping_twice_is_sweeping_once() {
    let mut once = empty_cache();
    let mut twice = empty_cache();
    for cache in [&mut once, &mut twice] {
        cache.add_at("never".to_string(), 1u64, None, None, 0);
        cache.add_at("minute".to_string(), 2u64, Some(LiveTime::Minutes(1)), None, 0);
        cache.add_at("hour".to_string(), 3u64, Some(LiveTime::Hours(1)), None, 0);
    }
    once.cleanup_expired_at(61);
    twice.cleanup_expired_at(61);
    twice.cleanup_expired_at(61);
    assert_eq!(once.cache.len(), 2);
    assert_eq!(twice.cache.len(), 2);
    for key in ["never", "minute", "hour"] {
        assert_eq!(once.cache.peek(key), twice.cache.peek(key));
    }
}

#[test]
fn sweep_of_empty_cache_leaves_it_empty() {
    let mut cache = empty_cache();
    cache.cleanup_expired_at(u64::MAX);
    assert!(cache.cache.is_empty());
}

#[test]
fn expired_tagged_entry_is_written_back_once() {
    let mut cache = empty_cache();
    cache.add_at(
        "gambling_stats_42".to_string(),
        stats(42, 1500),
        Some(LiveTime::Minutes(1)),
        Some("gambling_stats".to_string()),
        0,
    );
    let (hit, request) = cache.get_serializable_at::<GamblingStats>("gambling_stats_42", 30);
    assert_eq!(hit, Some(&stats(42, 1500)));
    assert_eq!(request, None);

    let (hit, request) = cache.get_serializable_at::<GamblingStats>("gambling_stats_42", 61);
    assert_eq!(hit, None);
    let request = request.expect("a write-back is owed");
    assert_eq!(request.collection, "gambling_stats");
    assert_eq!(request.cache_key, "gambling_stats_42");
    assert_eq!(request.value._id, 42);
    assert_eq!(request.value.amount, 1500);
    assert_eq!(request.value, stats(42, 1500));
    assert!(cache.cache.is_empty());

    let (hit, request) = cache.get_serializable_at::<GamblingStats>("gambling_stats_42", 61);
    assert_eq!(hit, None);
    assert_eq!(request, None);
}

#[test]
fn expired_entry_without_collection_is_dropped_without_write_back() {
    let mut cache = empty_cache();
    cache.add_at("k".to_string(), stats(1, 5), Some(LiveTime::Minutes(1)), None, 0);
    assert_eq!(cache.get_serializable_at::<GamblingStats>("k", 61), (None, None));
    assert!(cache.cache.is_empty());
}

#[test]
fn expired_entry_of_another_type_is_dropped_without_write_back() {
    let mut cache = empty_cache();
    cache.add_at(
        "k".to_string(),
        Rank(1),
        Some(LiveTime::Minutes(1)),
        Some("ranks".to_string()),
        0,
    );
    assert_eq!(cache.get_serializable_at::<GamblingStats>("k", 61), (None, None));
    assert!(cache.cache.is_empty());
}

#[test]
fn plain_lookup_drops_an_expired_tagged_entry() {
    let mut cache = empty_cache();
    cache.add_at(
        "k".to_string(),
        stats(1, 5),
        Some(LiveTime::Minutes(1)),
        Some("gambling_stats".to_string()),
        0,
    );
    assert_eq!(cache.get_at::<GamblingStats>("k", 61), None);
    assert!(cache.cache.is_empty());
}

#[test]
fn write_back_carries_what_it_is_given() {
    let request = WriteBack { collection: "c".to_string(), cache_key: "k".to_string(), value: 3u64 };
    assert_eq!(request.clone(), request);
}

#[test]
fn three_of_one_type_and_two_of_another_are_listed_by_type() {
    let mut cache = empty_cache();
    cache.add_at("a1".to_string(), stats(1, 10), None, None, 0);
    cache.add_at("b1".to_string(), Rank(1), None, None, 0);
    cache.add_at("a2".to_string(), stats(2, 20), Some(LiveTime::Minutes(1)), None, 0);
    cache.add_at("b2".to_string(), Rank(2), Some(LiveTime::Minutes(1)), None, 0);
    cache.add_at("a3".to_string(), stats(3, 30), Some(LiveTime::Hours(1)), None, 0);

    let mut listed: Vec<(String, GamblingStats)> = cache
        .get_all_entries::<GamblingStats>()
        .into_iter()
        .map(|(key, value)| (key, value.clone()))
        .collect();
    listed.sort_by(|x, y| x.0.cmp(&y.0));
    assert_eq!(
        listed,
        vec![
            ("a1".to_string(), stats(1, 10)),
            ("a2".to_string(), stats(2, 20)),
            ("a3".to_string(), stats(3, 30)),
        ]
    );

    let mut ranks: Vec<(String, Rank)> = cache
        .get_all_entries::<Rank>()
        .into_iter()
        .map(|(key, value)| (key, *value))
        .collect();
    ranks.sort_by(|x, y| x.0.cmp(&y.0));
    assert_eq!(ranks, vec![("b1".to_string(), Rank(1)), ("b2".to_string(), Rank(2))]);

    assert!(cache.get_all_entries::<u64>().is_empty());
    assert_eq!(cache.cache.len(), 5);
}

#[test]
fn listing_by_type_counts_expired_entries_and_evicts_nothing() {
    let mut cache = empty_cache();
    cache.add_at("a1".to_string(), 1u64, Some(LiveTime::Minutes(1)), None, 0);
    cache.add_at("a2".to_string(), 2u64, None, None, 0);
    assert!(cache.has_expired("a1", 1_000));
    assert!(!cache.has_expired("a2", 1_000));
    assert!(!cache.has_expired("a3", 1_000));
    assert_eq!(cache.get_all_entries::<u64>().len(), 2);
    assert_eq!(cache.cache.len(), 2);
}

#[test]
fn clock_reading_insert_and_lookups_agree() {
    let mut cache = empty_cache();
    cache.add("lasting".to_string(), 5u64, None, None);
    cache.add("hour".to_string(), Rank(2), Some(LiveTime::Hours(1)), None);
    cache.add(
        "tagged".to_string(),
        stats(7, 70),
        Some(LiveTime::Minutes(10)),
        Some("gambling_stats".to_string()),
    );
    assert_eq!(cache.get::<u64>("lasting"), Some(&5));
    assert_eq!(cache.get_owned::<u64>("lasting"), Some(5));
    assert_eq!(cache.get_owned::<Rank>("hour"), Some(Rank(2)));
    assert_eq!(cache.get::<u64>("hour"), None);
    let (hit, request) = cache.get_serializable::<GamblingStats>("tagged");
    assert_eq!(hit, Some(&stats(7, 70)));
    assert_eq!(request, None);
    cache.cleanup_expired();
    assert_eq!(cache.cache.len(), 3);
    assert!(cache.now() < 3600);
}

#[test]
fn clock_deadline_lies_one_time_to_live_after_the_reading() {
    let mut cache = empty_cache();
    let before = cache.now();
    cache.add("k".to_string(), 5u64, Some(LiveTime::Minutes(2)), None);
    let after = cache.now();
    let deadline = cache.cache.peek("k").unwrap().expire.unwrap();
    assert!(before as u128 + 120 <= deadline);
    assert!(deadline <= after as u128 + 120);
}
