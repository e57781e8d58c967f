use vstd::prelude::*;
use crate::cache_store::{lists, typed, CacheStore};
use crate::cache_value::{Cacheable, CacheValue};
use crate::clock::Clock;
use crate::database::Database;
use crate::text::clone_optional;

verus! {

/// How long an entry stays valid, counted from the moment it is inserted.
#[derive(Debug, Clone, Copy, PartialEq, Eq)]
pub enum LiveTime {
    Hours(u64),
    Minutes(u64),
}

impl LiveTime {
    /// The length of this time-to-live in seconds.
    pub open spec fn seconds(self) -> int {
        match self {
            LiveTime::Hours(hours) => hours * 3600,
            LiveTime::Minutes(minutes) => minutes * 60,
        }
    }
}

/// One cached value with its deadline and the backing collection it came from.
#[derive(Debug, PartialEq, Eq)]
pub struct CacheEntry {
    pub value: CacheValue,
    /// The second after which the entry counts as expired; `None` for never.
    pub expire: Option<u128>,
    /// The backing collection that takes the value when the entry is evicted for age.
    pub from_collection: Option<String>,
}

impl Clone for CacheEntry {
    fn clone(&self) -> (copy: Self)
        ensures
            copy == *self,
    {
        CacheEntry {
            value: self.value.clone(),
            expire: self.expire,
            from_collection: clone_optional(&self.from_collection),
        }
    }
}

impl CacheEntry {
    /// Whether the entry's deadline lies before `now`. An entry without a
    /// deadline is never expired.
    pub open spec fn expired_at(&self, now: u64) -> bool {
        self.expire matches Some(deadline) && deadline < now
    }

    /// Whether the entry's deadline lies before `now`.
    #[verifier::when_used_as_spec(expired_at)]
    pub fn is_expired(&self, now: u64) -> (expired: bool)
        ensures
            expired == self.expired_at(now),
    {
        match self.expire {
            Some(deadline) => deadline < now as u128,
            None => false,
        }
    }
}

/// A value that left the cache because it had expired, on its way to the
/// backing collection it is tagged with.
#[derive(Debug, Clone, PartialEq, Eq)]
pub struct WriteBack<T> {
    /// The backing collection that takes the value.
    pub collection: String,
    /// The key under which the value was cached; it identifies the document.
    pub cache_key: String,
    pub value: T,
}

/// The field by which a written-back document is identified.
pub const WRITE_BACK_KEY_FIELD: &'static str = "cache_key";

/// The deadline of an entry inserted at `now` with the given time-to-live.
pub open spec fn deadline(now: u64, time_live: Option<LiveTime>) -> Option<u128> {
    match time_live {
        Some(span) => Some((now + span.seconds()) as u128),
        None => None,
    }
}

/// The entry that an insertion at `now` stores.
pub open spec fn fresh_entry<T: Cacheable>(
    value: T,
    time_live: Option<LiveTime>,
    from_collection: Option<String>,
    now: u64,
) -> CacheEntry {
    CacheEntry { value: value.wrapped(), expire: deadline(now, time_live), from_collection }
}

/// The store after a lookup of `key` at `now`: an expired entry under the
/// key is gone, and nothing else has changed.
pub open spec fn touched(m: Map<Seq<char>, CacheEntry>, key: Seq<char>, now: u64) -> Map<
    Seq<char>,
    CacheEntry,
> {
    if m.contains_key(key) && m[key].expired_at(now) {
        m.remove(key)
    } else {
        m
    }
}

/// What a lookup of `key` for type `T` finds at `now`: the value of an entry
/// that is present, not expired and of that type.
pub open spec fn found<T: Cacheable>(m: Map<Seq<char>, CacheEntry>, key: Seq<char>, now: u64)
    -> Option<T> {
    if m.contains_key(key) && !m[key].expired_at(now) {
        T::unwrapped(m[key].value)
    } else {
        None
    }
}

/// What a lookup of `key` for type `T` at `now` owes to the backing store:
/// the collection and the value of an entry that is present, expired,
/// tagged with a collection and of that type.
pub open spec fn owed<T: Cacheable>(m: Map<Seq<char>, CacheEntry>, key: Seq<char>, now: u64)
    -> Option<(String, T)> {
    if m.contains_key(key) && m[key].expired_at(now) && m[key].from_collection is Some
        && T::unwrapped(m[key].value) is Some {
        Some((m[key].from_collection->0, T::unwrapped(m[key].value)->0))
    } else {
        None
    }
}

/// The store after a sweep at `now`: the entries that are not expired.
pub open spec fn swept(m: Map<Seq<char>, CacheEntry>, now: u64) -> Map<Seq<char>, CacheEntry> {
    Map::new(|k: Seq<char>| m.contains_key(k) && !m[k].expired_at(now), |k: Seq<char>| m[k])
}

/// A lookup result agrees with what the lookup was to find.
pub open spec fn agrees<T>(got: Option<&T>, wanted: Option<T>) -> bool {
    match got {
        Some(value) => wanted == Some(*value),
        None => wanted is None,
    }
}

/// A write-back request agrees with what the lookup of `key` owed.
pub open spec fn settles<T>(request: Option<WriteBack<T>>, key: Seq<char>, debt: Option<(String, T)>)
    -> bool {
    match request {
        Some(w) => debt == Some((w.collection, w.value)) && w.cache_key@ == key,
        None => debt is None,
    }
}

/// The cache: a keyed store of typed values with deadlines, beside the
/// backing store that takes values written back.
pub struct CacheManager {
    pub cache: CacheStore,
    pub database: Database,
    pub clock: Clock,
}

impl View for CacheManager {
    type V = Map<Seq<char>, CacheEntry>;

    open spec fn view(&self) -> Map<Seq<char>, CacheEntry> {
        self.cache@
    }
}

impl CacheManager {
    /// An empty cache in front of the given backing store. Its clock starts now.
    pub fn new(database: Database) -> (manager: Self)
        ensures
            manager@ == Map::<Seq<char>, CacheEntry>::empty(),
            manager.database == database,
    {
        CacheManager { cache: CacheStore::new(), database, clock: Clock::start() }
    }

    /// The cache's present second, read from its clock.
    pub fn now(&self) -> u64 {
        self.clock.now()
    }

    /// Stores `value` under `key` as of the second `now`, in place of any
    /// entry that was there: its value, its deadline and its collection tag
    /// are all those of the new entry.
    pub fn add_at<T: Cacheable>(
        &mut self,
        key: String,
        value: T,
        time_live: Option<LiveTime>,
        from_collection: Option<String>,
        now: u64,
    )
        ensures
            final(self)@ == old(self)@.insert(
                key@,
                fresh_entry(value, time_live, from_collection, now),
            ),
            final(self).database == old(self).database,
            final(self).clock == old(self).clock,
    {
        let expire: Option<u128> = match time_live {
            Some(LiveTime::Hours(hours)) => Some(now as u128 + hours as u128 * 3600),
            Some(LiveTime::Minutes(minutes)) => Some(now as u128 + minutes as u128 * 60),
            None => None,
        };
        let entry = CacheEntry { value: value.into_cache_value(), expire, from_collection };
        self.cache.put(key, entry);
    }

    /// Looks `key` up as of the second `now`, expecting a value of type `T`.
    ///
    /// An expired entry under the key is removed and the lookup misses. An
    /// entry of another type is left in place and the lookup misses too.
    pub fn get_at<T: Cacheable>(&mut self, key: &str, now: u64) -> (got: Option<&T>)
        ensures
            final(self)@ == touched(old(self)@, key@, now),
            agrees(got, found::<T>(old(self)@, key@, now)),
            final(self).database == old(self).database,
            final(self).clock == old(self).clock,
    {
        let expired = match self.cache.peek(key) {
            Some(entry) => entry.is_expired(now),
            None => false,
        };
        if expired {
            self.cache.remove(key);
            return None;
        }
        match self.cache.peek(key) {
            Some(entry) => T::peek(&entry.value),
            None => None,
        }
    }

    /// Looks `key` up as of the second `now` and returns a copy of the value.
    /// In every other respect it is `get_at`.
    pub fn get_owned_at<T: Cacheable + Copy>(&mut self, key: &str, now: u64) -> (got: Option<T>)
        ensures
            final(self)@ == touched(old(self)@, key@, now),
            got == found::<T>(old(self)@, key@, now),
            final(self).database == old(self).database,
            final(self).clock == old(self).clock,
    {
        match self.get_at::<T>(key, now) {
            Some(value) => Some(*value),
            None => None,
        }
    }

    /// Looks `key` up as of the second `now`, as `get_at` does, and hands out
    /// what is owed to the backing store.
    ///
    /// Where the entry has expired, carries a collection tag and holds a
    /// value of type `T`, the value leaves the cache inside a write-back
    /// request. The lookup itself then misses: an expired value is never
    /// returned as a hit.
    pub fn get_serializable_at<T: Cacheable>(&mut self, key: &str, now: u64) -> (got: (
        Option<&T>,
        Option<WriteBack<T>>,
    ))
        ensures
            final(self)@ == touched(old(self)@, key@, now),
            agrees(got.0, found::<T>(old(self)@, key@, now)),
            settles(got.1, key@, owed::<T>(old(self)@, key@, now)),
            final(self).database == old(self).database,
            final(self).clock == old(self).clock,
    {
        let expired = match self.cache.peek(key) {
            Some(entry) => entry.is_expired(now),
            None => false,
        };
        if expired {
            let request = match self.cache.remove(key) {
                Some(entry) => match entry.from_collection {
                    Some(collection) => match T::take(entry.value) {
                        Some(value) => Some(
                            WriteBack { collection, cache_key: key.to_owned(), value },
                        ),
                        None => None,
                    },
                    None => None,
                },
                None => None,
            };
            return (None, request);
        }
        match self.cache.peek(key) {
            Some(entry) => (T::peek(&entry.value), None),
            None => (None, None),
        }
    }

    /// Removes every entry that is expired at the second `now`. Entries
    /// without a deadline, and entries whose deadline has not passed, stay
    /// as they are. Nothing is written back.
    pub fn cleanup_expired_at(&mut self, now: u64)
        ensures
            final(self)@ == swept(old(self)@, now),
            final(self).database == old(self).database,
            final(self).clock == old(self).clock,
    {
        let keep = |entry: &CacheEntry| -> (kept: bool)
            ensures
                kept == !entry.expired_at(now),
            { !entry.is_expired(now) };
        self.cache.retain(keep);
        assert(self@ =~= swept(old(self)@, now));
    }

    /// Every entry whose value is of type `T`, expired or not: its key beside
    /// a borrow of that value, each key once. Nothing is evicted.
    pub fn get_all_entries<T: Cacheable>(&self) -> (pairs: Vec<(String, &T)>)
        ensures
            lists(pairs@, typed::<T>(self@)),
            typed::<T>(self@).dom().finite(),
            pairs.len() == typed::<T>(self@).len(),
    {
        self.cache.entries_of::<T>()
    }

    /// Stores `value` under `key` as of the clock's present second, in place
    /// of any entry that was there.
    ///
    /// Whatever the clock reads, the effect is that of `add_at` at that second.
    pub fn add<T: Cacheable>(
        &mut self,
        key: String,
        value: T,
        time_live: Option<LiveTime>,
        from_collection: Option<String>,
    )
        ensures
            exists|now: u64|
                final(self)@ == old(self)@.insert(
                    key@,
                    #[trigger] fresh_entry(value, time_live, from_collection, now),
                ),
            final(self).database == old(self).database,
            final(self).clock == old(self).clock,
    {
        let now = self.now();
        self.add_at(key, value, time_live, from_collection, now);
    }

    /// Looks `key` up as of the clock's present second, expecting a value of
    /// type `T`.
    ///
    /// Whatever the clock reads, the effect and the result are those of
    /// `get_at` at that second.
    pub fn get<T: Cacheable>(&mut self, key: &str) -> (got: Option<&T>)
        ensures
            exists|now: u64|
                final(self)@ == #[trigger] touched(old(self)@, key@, now) && agrees(
                    got,
                    found::<T>(old(self)@, key@, now),
                ),
            final(self).database == old(self).database,
            final(self).clock == old(self).clock,
    {
        let now = self.now();
        self.get_at::<T>(key, now)
    }

    /// Looks `key` up as of the clock's present second and returns a copy of
    /// the value.
    ///
    /// Whatever the clock reads, the effect and the result are those of
    /// `get_owned_at` at that second.
    pub fn get_owned<T: Cacheable + Copy>(&mut self, key: &str) -> (got: Option<T>)
        ensures
            exists|now: u64|
                final(self)@ == #[trigger] touched(old(self)@, key@, now) && got == found::<T>(
                    old(self)@,
                    key@,
                    now,
                ),
            final(self).database == old(self).database,
            final(self).clock == old(self).clock,
    {
        let now = self.now();
        self.get_owned_at::<T>(key, now)
    }

    /// Looks `key` up as of the clock's present second and hands out what is
    /// owed to the backing store.
    ///
    /// Whatever the clock reads, the effect and the result are those of
    /// `get_serializable_at` at that second.
    pub fn get_serializable<T: Cacheable>(&mut self, key: &str) -> (got: (
        Option<&T>,
        Option<WriteBack<T>>,
    ))
        ensures
            exists|now: u64|
                final(self)@ == #[trigger] touched(old(self)@, key@, now) && agrees(
                    got.0,
                    found::<T>(old(self)@, key@, now),
                ) && settles(got.1, key@, owed::<T>(old(self)@, key@, now)),
            final(self).database == old(self).database,
            final(self).clock == old(self).clock,
    {
        let now = self.now();
        self.get_serializable_at::<T>(key, now)
    }

    /// Removes every entry that is expired at the clock's present second.
    ///
    /// Whatever the clock reads, the effect is that of `cleanup_expired_at`
    /// at that second.
    pub fn cleanup_expired(&mut self)
        ensures
            exists|now: u64| final(self)@ == #[trigger] swept(old(self)@, now),
            final(self).database == old(self).database,
            final(self).clock == old(self).clock,
    {
        let now = self.now();
        self.cleanup_expired_at(now);
    }

    /// Whether the entry under `key` is present and expired at the second `now`.
    pub fn has_expired(&self, key: &str, now: u64) -> (expired: bool)
        ensures
            expired == (self@.contains_key(key@) && self@[key@].expired_at(now)),
    {
        match self.cache.peek(key) {
            Some(entry) => entry.is_expired(now),
            None => false,
        }
    }
}

} // verus!
