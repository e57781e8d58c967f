use vstd::prelude::*;
use vstd::string::StringExecFns;
use crate::cache_manager::{found, fresh_entry, touched, CacheManager, LiveTime};
use crate::text::{clone_optional, decimal, push_decimal, same_text};
use crate::quantity::Quantity;
use crate::tuforums::difficulty::Difficulty;

verus! {

/// A player's position on the ranked leaderboard.
#[derive(Debug, Clone, Copy, PartialEq, Eq)]
pub struct Rank(pub i64);

/// A player's aggregate results.
#[derive(Debug, PartialEq, Eq)]
pub struct Stats {
    pub rank: Rank,
    pub general_score: Quantity,
    pub ranked_score: Quantity,
    pub avg_xacc: Quantity,
    pub top_diff: Difficulty,
}

/// A player's public profile.
#[derive(Debug, PartialEq, Eq)]
pub struct Profile {
    pub name: String,
    pub username: String,
    pub avatar: Option<String>,
    pub discord_id: Option<String>,
    pub stats: Stats,
}

/// The minutes for which a fetched profile is cached.
pub const PROFILE_MINUTES: u64 = 10;

/// The cache key of a player's profile: `profile_` and the player id in base ten.
pub open spec fn profile_key(id: u64) -> Seq<char> {
    "profile_"@ + decimal(id as nat)
}

/// The cache key of a player's profile.
pub fn profile_cache_key(id: u64) -> (key: String)
    ensures
        key@ == profile_key(id),
{
    let mut key = String::from_str("profile_");
    push_decimal(&mut key, id);
    key
}

/// How a player's chat name is shown beside the profile name: in round
/// brackets, or not at all where the player has none.
pub open spec fn shown_username_of(discord_username: Option<Seq<char>>) -> Seq<char> {
    match discord_username {
        Some(name) => if name.len() == 0 {
            Seq::<char>::empty()
        } else {
            "("@ + name + ")"@
        },
        None => Seq::<char>::empty(),
    }
}

/// How a player's chat name is shown beside the profile name.
pub fn shown_username(discord_username: Option<&str>) -> (shown: String)
    ensures
        shown@ == shown_username_of(
            match discord_username {
                Some(name) => Some(name@),
                None => None,
            },
        ),
{
    match discord_username {
        Some(name) => {
            if name.is_empty() {
                String::new()
            } else {
                let mut shown = String::from_str("(");
                shown.append(name);
                shown.append(")");
                shown
            }
        },
        None => String::new(),
    }
}

/// Whether a picture address can be shown: it is neither empty nor the word `none`.
pub open spec fn is_usable_avatar(pfp: Seq<char>) -> bool {
    pfp.len() > 0 && pfp != "none"@
}

/// The picture address of a profile, where the player has one that can be shown.
pub fn usable_avatar(pfp: Option<&str>) -> (avatar: Option<String>)
    ensures
        match pfp {
            Some(address) => if is_usable_avatar(address@) {
                avatar matches Some(kept) && kept@ == address@
            } else {
                avatar is None
            },
            None => avatar is None,
        },
{
    match pfp {
        Some(address) => {
            if !address.is_empty() && !same_text(address, "none") {
                Some(String::from_str(address))
            } else {
                None
            }
        },
        None => None,
    }
}

/// A copy of the player's cached profile as of the second `now`, if the
/// cache holds one that has not expired. The lookup is that of
/// `CacheManager::get_at` under the player's profile key.
pub fn cached_profile_at(cache: &mut CacheManager, id: u64, now: u64) -> (hit: Option<Profile>)
    ensures
        final(cache)@ == touched(old(cache)@, profile_key(id), now),
        hit == found::<Profile>(old(cache)@, profile_key(id), now),
        final(cache).database == old(cache).database,
        final(cache).clock == old(cache).clock,
{
    let key = profile_cache_key(id);
    match cache.get_at::<Profile>(key.as_str(), now) {
        Some(profile) => Some(profile.clone()),
        None => None,
    }
}

/// Caches a copy of a fetched profile under the player's profile key as of
/// the second `now`, for ten minutes and without a backing collection.
pub fn remember_profile_at(cache: &mut CacheManager, id: u64, profile: &Profile, now: u64)
    ensures
        final(cache)@ == old(cache)@.insert(
            profile_key(id),
            fresh_entry(*profile, Some(LiveTime::Minutes(PROFILE_MINUTES)), None, now),
        ),
        final(cache).database == old(cache).database,
        final(cache).clock == old(cache).clock,
{
    cache.add_at(
        profile_cache_key(id),
        profile.clone(),
        Some(LiveTime::Minutes(PROFILE_MINUTES)),
        None,
        now,
    );
}

impl Clone for Stats {
    fn clone(&self) -> (copy: Self)
        ensures
            copy == *self,
    {
        Stats {
            rank: self.rank,
            general_score: self.general_score,
            ranked_score: self.ranked_score,
            avg_xacc: self.avg_xacc,
            top_diff: self.top_diff.clone(),
        }
    }
}

impl Clone for Profile {
    fn clone(&self) -> (copy: Self)
        ensures
            copy == *self,
    {
        Profile {
            name: self.name.clone(),
            username: self.username.clone(),
            avatar: clone_optional(&self.avatar),
            discord_id: clone_optional(&self.discord_id),
            stats: self.stats.clone(),
        }
    }
}

} // verus!
