use onuzglorp_core::cache_manager::CacheManager;
use onuzglorp_core::cache_value::CacheValue;
use onuzglorp_core::commands::gambling::{
    gambling_cache_key, remember_gambling_stats, GamblingStats, GAMBLING_COLLECTION,
    KNOWN_PLAYER_MINUTES, NEW_PLAYER_MINUTES, STARTING_AMOUNT,
};
use onuzglorp_core::commands::leaderboard::{
    can_show_page, next_button_id, page_offset, previous_button_id, previous_disabled, read_press,
    Press, PAGE_SIZE,
};
use onuzglorp_core::commands::link::{link_verdict, LinkVerdict, USERS_COLLECTION};
use onuzglorp_core::commands::setup::{
    belongs_to_server, read_channel_input, ChannelInput, DAILY_CHANNEL_KIND, SETUPS_COLLECTION,
};
use onuzglorp_core::database::Database;

#[test]
fn gambling_key_is_prefix_and_user_id() {
    assert_eq!(gambling_cache_key(42), "gambling_stats_42");
    assert_eq!(gambling_cache_key(0), "gambling_stats_0");
    assert_eq!(gambling_cache_key(-7), "gambling_stats_-7");
    assert_eq!(gambling_cache_key(i64::MAX), "gambling_stats_9223372036854775807");
    assert_eq!(gambling_cache_key(i64::MIN), "gambling_stats_-9223372036854775808");
}

#[test]
fn new_account_starts_with_fifteen_hundred_coins() {
    assert_eq!(STARTING_AMOUNT, 1500);
    assert_eq!(
        GamblingStats::new_account(42),
        GamblingStats {
            _id: 42,
            amount: 1500,
            wins: 0,
            losses: 0,
            win_streak: 0,
            loss_streak: 0,
            last_win: None,
            last_loss: None,
            cache_key: "gambling_stats_42".to_string(),
        }
    );
}

#[test]
fn known_player_is_cached_for_one_minute() {
    assert_eq!(KNOWN_PLAYER_MINUTES, 1);
    assert_eq!(GAMBLING_COLLECTION, "gambling_stats");
    let mut cache = CacheManager::new(Database { client: None });
    let mut known = GamblingStats::new_account(5);
    known.amount = 20;
    known.wins = 3;
    let (stats, is_new) = remember_gambling_stats(&mut cache, 5, Some(known.clone()), 1_000);
    assert_eq!(stats, known);
    assert!(!is_new);
    let entry = cache.cache.peek("gambling_stats_5").unwrap();
    assert_eq!(entry.value, CacheValue::GamblingStats(known.clone()));
    assert_eq!(entry.expire, Some(1_060));
    assert_eq!(entry.from_collection, Some("gambling_stats".to_string()));
    assert_eq!(cache.cache.len(), 1);
}

#[test]
fn new_player_is_cached_for_ten_minutes() {
    assert_eq!(NEW_PLAYER_MINUTES, 10);
    let mut cache = CacheManager::new(Database { client: None });
    cache.add_at("other".to_string(), 1u64, None, None, 0);
    let (stats, is_new) = remember_gambling_stats(&mut cache, 6, None, 1_000);
    assert_eq!(stats, GamblingStats::new_account(6));
    assert!(is_new);
    let entry = cache.cache.peek("gambling_stats_6").unwrap();
    assert_eq!(entry.value, CacheValue::GamblingStats(GamblingStats::new_account(6)));
    assert_eq!(entry.expire, Some(1_600));
    assert_eq!(entry.from_collection, Some("gambling_stats".to_string()));
    assert_eq!(cache.cache.len(), 2);
    assert_eq!(cache.get_owned_at::<u64>("other", 5), Some(1));
}

#[test]
fn remembered_record_is_written_back_when_it_expires() {
    let mut cache = CacheManager::new(Database { client: None });
    remember_gambling_stats(&mut cache, 42, None, 0);
    let key = gambling_cache_key(42);
    let (hit, request) = cache.get_serializable_at::<GamblingStats>(&key, 600);
    assert_eq!(hit, Some(&GamblingStats::new_account(42)));
    assert!(request.is_none());
    let (hit, request) = cache.get_serializable_at::<GamblingStats>(&key, 601);
    assert!(hit.is_none());
    let request = request.unwrap();
    assert_eq!(request.collection, "gambling_stats");
    assert_eq!(request.cache_key, "gambling_stats_42");
    assert_eq!(request.value, GamblingStats::new_account(42));
}

#[test]
fn page_offset_counts_fifteen_players_a_page() {
    assert_eq!(PAGE_SIZE, 15);
    assert_eq!(page_offset(1), 0);
    assert_eq!(page_offset(2), 15);
    assert_eq!(page_offset(10), 135);
    assert_eq!(page_offset(286_331_154), 4_294_967_295);
}

#[test]
fn pages_count_from_one_up_to_what_fits() {
    assert!(!can_show_page(0));
    assert!(can_show_page(1));
    assert!(can_show_page(286_331_154));
    assert!(!can_show_page(286_331_155));
    assert!(!can_show_page(u32::MAX));
}

#[test]
fn previous_button_is_off_on_the_first_page() {
    assert!(previous_disabled(0));
    assert!(previous_disabled(1));
    assert!(!previous_disabled(2));
    assert!(!previous_disabled(u32::MAX));
}

#[test]
fn button_ids_name_the_neighbouring_pages() {
    assert_eq!(previous_button_id(1), "lb_previous:0");
    assert_eq!(previous_button_id(12), "lb_previous:11");
    assert_eq!(previous_button_id(u32::MAX), "lb_previous:4294967294");
    assert_eq!(next_button_id(0), "lb_next:1");
    assert_eq!(next_button_id(1), "lb_next:2");
    assert_eq!(next_button_id(u32::MAX - 1), "lb_next:4294967295");
}

#[test]
fn leaderboard_buttons_give_their_page() {
    assert_eq!(read_press("lb_next:2"), Press::Page(2));
    assert_eq!(read_press("lb_previous:0"), Press::Page(0));
    assert_eq!(read_press("lb_previous:+7"), Press::Page(7));
    assert_eq!(read_press("lb_next:4294967295"), Press::Page(u32::MAX));
    assert_eq!(read_press(&next_button_id(41)), Press::Page(42));
    assert_eq!(read_press(&previous_button_id(41)), Press::Page(40));
}

#[test]
fn leaderboard_button_with_unreadable_page() {
    assert_eq!(read_press("lb_next:"), Press::Unreadable);
    assert_eq!(read_press("lb_next:two"), Press::Unreadable);
    assert_eq!(read_press("lb_next:-1"), Press::Unreadable);
    assert_eq!(read_press("lb_previous:4294967296"), Press::Unreadable);
    assert_eq!(read_press("lb_previous: 1"), Press::Unreadable);
}

#[test]
fn other_buttons_are_foreign() {
    assert_eq!(read_press(""), Press::Foreign);
    assert_eq!(read_press("lb_next"), Press::Foreign);
    assert_eq!(read_press("lb_next:1:2"), Press::Foreign);
    assert_eq!(read_press("lb_next::1"), Press::Foreign);
    assert_eq!(read_press(":1"), Press::Foreign);
    assert_eq!(read_press("lb_first:1"), Press::Foreign);
    assert_eq!(read_press("LB_NEXT:1"), Press::Foreign);
    assert_eq!(read_press("lb_next :1"), Press::Foreign);
    assert_eq!(read_press("xlb_next:1"), Press::Foreign);
}

#[test]
fn channel_input_is_read_as_an_id() {
    assert_eq!(read_channel_input(""), ChannelInput::Empty);
    assert_eq!(read_channel_input("123456789012345678"), ChannelInput::Channel(123456789012345678));
    assert_eq!(read_channel_input("0"), ChannelInput::Channel(0));
    assert_eq!(read_channel_input("+5"), ChannelInput::Channel(5));
    assert_eq!(read_channel_input("18446744073709551615"), ChannelInput::Channel(u64::MAX));
    assert_eq!(read_channel_input("18446744073709551616"), ChannelInput::Malformed);
    assert_eq!(read_channel_input("<#123>"), ChannelInput::Malformed);
    assert_eq!(read_channel_input(" 123"), ChannelInput::Malformed);
    assert_eq!(read_channel_input("-1"), ChannelInput::Malformed);
}

#[test]
fn channel_belongs_to_its_own_server_only() {
    assert!(belongs_to_server(Some(7), 7));
    assert!(!belongs_to_server(Some(8), 7));
    assert!(!belongs_to_server(None, 7));
    assert_eq!(DAILY_CHANNEL_KIND, "daily-random-lvl-channel");
    assert_eq!(SETUPS_COLLECTION, "setups");
}

#[test]
fn profile_is_linked_to_its_own_account_only() {
    assert_eq!(link_verdict(None, 5), LinkVerdict::NoAccount);
    assert_eq!(link_verdict(Some("5"), 5), LinkVerdict::OwnAccount);
    assert_eq!(link_verdict(Some("+5"), 5), LinkVerdict::OwnAccount);
    assert_eq!(link_verdict(Some("6"), 5), LinkVerdict::OtherAccount);
    assert_eq!(link_verdict(Some("-5"), -5), LinkVerdict::OwnAccount);
    assert_eq!(
        link_verdict(Some("123456789012345678"), 123456789012345678),
        LinkVerdict::OwnAccount
    );
    assert_eq!(USERS_COLLECTION, "users");
}

#[test]
fn unreadable_account_counts_as_account_zero() {
    assert_eq!(link_verdict(Some(""), 0), LinkVerdict::OwnAccount);
    assert_eq!(link_verdict(Some("someone"), 0), LinkVerdict::OwnAccount);
    assert_eq!(link_verdict(Some("someone"), 5), LinkVerdict::OtherAccount);
    assert_eq!(link_verdict(Some("99999999999999999999"), 0), LinkVerdict::OwnAccount);
}
