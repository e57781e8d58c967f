use vstd::prelude::*;
use vstd::string::StringExecFns;
use crate::cache_manager::{deadline, CacheManager, LiveTime};
use crate::cache_value::Cacheable;
use crate::text::{push_signed_decimal, signed_decimal};

verus! {

/// One player's record in the gambling game.
#[derive(Debug, PartialEq, Eq)]
pub struct GamblingStats {
    /// The player's user id.
    pub _id: i64,
    pub amount: u64,
    pub wins: u64,
    pub losses: u64,
    pub win_streak: u64,
    pub loss_streak: u64,
    /// When the player last won, if ever.
    pub last_win: Option<u64>,
    /// When the player last lost, if ever.
    pub last_loss: Option<u64>,
    pub cache_key: String,
}

/// The backing collection of the gambling records.
pub const GAMBLING_COLLECTION: &'static str = "gambling_stats";

/// The coins a new player starts with.
pub const STARTING_AMOUNT: u64 = 1500;

/// The minutes for which a record read from the backing store is cached.
pub const KNOWN_PLAYER_MINUTES: u64 = 1;

/// The minutes for which the record of a new player is cached.
pub const NEW_PLAYER_MINUTES: u64 = 10;

/// The cache key of a player's record: `gambling_stats_` and the user id in
/// base ten.
pub open spec fn gambling_key(user_id: i64) -> Seq<char> {
    "gambling_stats_"@ + signed_decimal(user_id as int)
}

/// The cache key of a player's record.
pub fn gambling_cache_key(user_id: i64) -> (key: String)
    ensures
        key@ == gambling_key(user_id),
{
    let mut key = String::from_str("gambling_stats_");
    push_signed_decimal(&mut key, user_id);
    key
}

impl GamblingStats {
    /// The record of a player who has not played yet: the starting amount,
    /// no win and no loss, under the player's cache key.
    pub open spec fn is_new_account(self, user_id: i64) -> bool {
        &&& self._id == user_id
        &&& self.amount == STARTING_AMOUNT
        &&& self.wins == 0
        &&& self.losses == 0
        &&& self.win_streak == 0
        &&& self.loss_streak == 0
        &&& self.last_win is None
        &&& self.last_loss is None
        &&& self.cache_key@ == gambling_key(user_id)
    }

    /// The record of a player who has not played yet.
    pub fn new_account(user_id: i64) -> (stats: Self)
        ensures
            stats.is_new_account(user_id),
    {
        GamblingStats {
            _id: user_id,
            amount: STARTING_AMOUNT,
            wins: 0,
            losses: 0,
            win_streak: 0,
            loss_streak: 0,
            last_win: None,
            last_loss: None,
            cache_key: gambling_cache_key(user_id),
        }
    }
}

/// Settles a player's record after the cache has missed and the backing
/// store has been asked: a record that the store had is cached for one
/// minute; where it had none, the record of a new player is made and
/// cached for ten. Either way the entry is tagged with the gambling
/// collection, and the record comes back beside the word whether it is new.
pub fn remember_gambling_stats(
    cache: &mut CacheManager,
    user_id: i64,
    fetched: Option<GamblingStats>,
    now: u64,
) -> (settled: (GamblingStats, bool))
    ensures
        settled.1 == (fetched is None),
        fetched matches Some(stats) ==> settled.0 == stats,
        fetched is None ==> settled.0.is_new_account(user_id),
        final(cache)@.dom() == old(cache)@.dom().insert(gambling_key(user_id)),
        final(cache)@.remove(gambling_key(user_id)) == old(cache)@.remove(gambling_key(user_id)),
        final(cache)@[gambling_key(user_id)].value == settled.0.wrapped(),
        final(cache)@[gambling_key(user_id)].expire == deadline(
            now,
            Some(
                LiveTime::Minutes(
                    if fetched is Some {
                        KNOWN_PLAYER_MINUTES
                    } else {
                        NEW_PLAYER_MINUTES
                    },
                ),
            ),
        ),
        final(cache)@[gambling_key(user_id)].from_collection matches Some(collection)
            && collection@ == GAMBLING_COLLECTION@,
        final(cache).database == old(cache).database,
        final(cache).clock == old(cache).clock,
{
    let (stats, minutes, is_new) = match fetched {
        Some(stats) => (stats, KNOWN_PLAYER_MINUTES, false),
        None => (GamblingStats::new_account(user_id), NEW_PLAYER_MINUTES, true),
    };
    let key = gambling_cache_key(user_id);
    cache.add_at(
        key,
        stats.clone(),
        Some(LiveTime::Minutes(minutes)),
        Some(String::from_str(GAMBLING_COLLECTION)),
        now,
    );
    proof {
        assert(cache@.remove(gambling_key(user_id)) =~= old(cache)@.remove(gambling_key(user_id)));
    }
    (stats, is_new)
}

impl Clone for GamblingStats {
    fn clone(&self) -> (copy: Self)
        ensures
            copy == *self,
    {
        GamblingStats {
            _id: self._id,
            amount: self.amount,
            wins: self.wins,
            losses: self.losses,
            win_streak: self.win_streak,
            loss_streak: self.loss_streak,
            last_win: self.last_win,
            last_loss: self.last_loss,
            cache_key: self.cache_key.clone(),
        }
    }
}

} // verus!
