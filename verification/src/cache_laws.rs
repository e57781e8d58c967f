use vstd::prelude::*;
use crate::cache_manager::{deadline, found, fresh_entry, owed, swept, touched, CacheEntry, LiveTime};
use crate::cache_store::typed;
use crate::cache_value::Cacheable;

verus! {

/// The store after a lookup of `key` at each of the given seconds in turn.
pub open spec fn touched_at_each(m: Map<Seq<char>, CacheEntry>, key: Seq<char>, times: Seq<u64>)
    -> Map<Seq<char>, CacheEntry>
    decreases times.len(),
{
    if times.len() == 0 {
        m
    } else {
        touched(touched_at_each(m, key, times.drop_last()), key, times.last())
    }
}

/// A value inserted without a time-to-live stays: after any number of
/// lookups, at whatever seconds, the store is as the insertion left it, and
/// one more lookup for the value's type finds the value.
pub proof fn lemma_without_deadline_persists<T: Cacheable>(
    m: Map<Seq<char>, CacheEntry>,
    key: Seq<char>,
    value: T,
    from_collection: Option<String>,
    now: u64,
    times: Seq<u64>,
    later: u64,
)
    ensures
        ({
            let stored = m.insert(key, fresh_entry(value, None, from_collection, now));
            &&& touched_at_each(stored, key, times) == stored
            &&& found::<T>(touched_at_each(stored, key, times), key, later) == Some(value)
        }),
    decreases times.len(),
{
    let stored = m.insert(key, fresh_entry(value, None, from_collection, now));
    T::lemma_wrap_unwrap(value);
    if times.len() > 0 {
        lemma_without_deadline_persists(
            m,
            key,
            value,
            from_collection,
            now,
            times.drop_last(),
            later,
        );
    }
}

/// The deadline of an entry with a time-to-live is the second of its
/// insertion plus the seconds of that time-to-live, exactly.
pub proof fn lemma_deadline(now: u64, span: LiveTime)
    ensures
        deadline(now, Some(span)) == Some((now + span.seconds()) as u128),
        deadline(now, Some(span))->0 == now + span.seconds(),
        deadline(now, None) is None,
{
}

/// An entry with a time-to-live is found up to and at its deadline. Once
/// the clock has passed the deadline, a lookup misses and the entry is gone
/// from the store afterwards.
pub proof fn lemma_expires_after_deadline<T: Cacheable>(
    m: Map<Seq<char>, CacheEntry>,
    key: Seq<char>,
    value: T,
    span: LiveTime,
    from_collection: Option<String>,
    now: u64,
    later: u64,
)
    ensures
        ({
            let stored = m.insert(key, fresh_entry(value, Some(span), from_collection, now));
            if later <= now + span.seconds() {
                &&& found::<T>(stored, key, later) == Some(value)
                &&& touched(stored, key, later) == stored
            } else {
                &&& found::<T>(stored, key, later) is None
                &&& !touched(stored, key, later).contains_key(key)
                &&& touched(stored, key, later) == m.remove(key)
            }
        }),
{
    let stored = m.insert(key, fresh_entry(value, Some(span), from_collection, now));
    T::lemma_wrap_unwrap(value);
    lemma_deadline(now, span);
    if later > now + span.seconds() {
        assert(touched(stored, key, later) =~= m.remove(key));
    }
}

/// A value stored as one type is not found as another: a lookup of its key
/// for a type with another tag misses at every second.
pub proof fn lemma_other_type_misses<T: Cacheable, U: Cacheable>(
    m: Map<Seq<char>, CacheEntry>,
    key: Seq<char>,
    value: T,
    time_live: Option<LiveTime>,
    from_collection: Option<String>,
    now: u64,
    later: u64,
)
    requires
        T::tag() != U::tag(),
    ensures
        found::<U>(
            m.insert(key, fresh_entry(value, time_live, from_collection, now)),
            key,
            later,
        ) is None,
{
    T::lemma_wrap_unwrap(value);
    U::lemma_unwrap_wrap(value.wrapped());
}

/// An entry that has expired stays expired: the passing of time never
/// brings an expired entry back.
pub proof fn lemma_expired_stays_expired(entry: CacheEntry, now: u64, later: u64)
    requires
        entry.expired_at(now),
        now <= later,
    ensures
        entry.expired_at(later),
{
}

/// A lookup leaves the entries under all other keys as they are.
pub proof fn lemma_lookup_spares_other_keys(
    m: Map<Seq<char>, CacheEntry>,
    key: Seq<char>,
    other: Seq<char>,
    now: u64,
)
    requires
        other != key,
    ensures
        touched(m, key, now).contains_key(other) == m.contains_key(other),
        m.contains_key(other) ==> touched(m, key, now)[other] == m[other],
{
}

/// Only expired entries leave the store: an entry that is not expired is
/// still there, and the same, after a lookup of any key and after a sweep.
pub proof fn lemma_live_entries_stay(
    m: Map<Seq<char>, CacheEntry>,
    key: Seq<char>,
    looked_up: Seq<char>,
    now: u64,
)
    requires
        m.contains_key(key),
        !m[key].expired_at(now),
    ensures
        touched(m, looked_up, now).contains_key(key),
        touched(m, looked_up, now)[key] == m[key],
        swept(m, now).contains_key(key),
        swept(m, now)[key] == m[key],
{
}

/// Neither a lookup nor a sweep brings an entry into the store or alters one.
pub proof fn lemma_removal_only(
    m: Map<Seq<char>, CacheEntry>,
    key: Seq<char>,
    looked_up: Seq<char>,
    now: u64,
)
    ensures
        touched(m, looked_up, now).contains_key(key) ==> m.contains_key(key) && touched(
            m,
            looked_up,
            now,
        )[key] == m[key],
        swept(m, now).contains_key(key) ==> m.contains_key(key) && swept(m, now)[key] == m[key],
{
}

/// A second insertion under a key replaces the first entirely: the store is
/// as if the first had never been made, and under the key stands the second
/// entry with its own value, deadline and collection tag.
pub proof fn lemma_overwrite(
    m: Map<Seq<char>, CacheEntry>,
    key: Seq<char>,
    first: CacheEntry,
    second: CacheEntry,
)
    ensures
        m.insert(key, first).insert(key, second) == m.insert(key, second),
        m.insert(key, first).insert(key, second)[key] == second,
{
    assert(m.insert(key, first).insert(key, second) =~= m.insert(key, second));
}

/// A sweep keeps exactly the entries that are not expired, each as it was.
pub proof fn lemma_sweep_keeps_live(m: Map<Seq<char>, CacheEntry>, now: u64, key: Seq<char>)
    ensures
        swept(m, now).contains_key(key) <==> m.contains_key(key) && !m[key].expired_at(now),
        swept(m, now).contains_key(key) ==> swept(m, now)[key] == m[key],
        m.contains_key(key) && m[key].expire is None ==> swept(m, now).contains_key(key),
{
}

/// A sweep of a store in which nothing is expired leaves the store as it is.
pub proof fn lemma_sweep_of_live_store(m: Map<Seq<char>, CacheEntry>, now: u64)
    requires
        forall|k: Seq<char>| m.contains_key(k) ==> !(#[trigger] m[k]).expired_at(now),
    ensures
        swept(m, now) == m,
{
    assert(swept(m, now) =~= m);
}

/// Two sweeps in a row, at one second, leave what the first alone leaves.
pub proof fn lemma_sweep_twice(m: Map<Seq<char>, CacheEntry>, now: u64)
    ensures
        swept(swept(m, now), now) == swept(m, now),
{
    assert(swept(swept(m, now), now) =~= swept(m, now));
}

/// What a lookup owed is handed out once: after the lookup, a further
/// lookup of the same key at the same second owes nothing, finds what the
/// first found, and leaves the store as the first left it.
pub proof fn lemma_owed_once<T: Cacheable>(m: Map<Seq<char>, CacheEntry>, key: Seq<char>, now: u64)
    ensures
        owed::<T>(touched(m, key, now), key, now) is None,
        found::<T>(touched(m, key, now), key, now) == found::<T>(m, key, now),
        touched(touched(m, key, now), key, now) == touched(m, key, now),
{
}

/// A lookup owes a write-back only where it misses.
pub proof fn lemma_owed_means_miss<T: Cacheable>(
    m: Map<Seq<char>, CacheEntry>,
    key: Seq<char>,
    now: u64,
)
    ensures
        owed::<T>(m, key, now) is Some ==> found::<T>(m, key, now) is None && !touched(
            m,
            key,
            now,
        ).contains_key(key),
{
}

/// Among the entries of type `T`, an inserted value of type `T` stands under
/// its key, whatever its deadline.
pub proof fn lemma_typed_gains<T: Cacheable>(
    m: Map<Seq<char>, CacheEntry>,
    key: Seq<char>,
    value: T,
    time_live: Option<LiveTime>,
    from_collection: Option<String>,
    now: u64,
)
    ensures
        typed::<T>(m.insert(key, fresh_entry(value, time_live, from_collection, now))) == typed::<T>(
            m,
        ).insert(key, value),
{
    T::lemma_wrap_unwrap(value);
    assert(typed::<T>(m.insert(key, fresh_entry(value, time_live, from_collection, now)))
        =~= typed::<T>(m).insert(key, value));
}

/// The entries of type `T` are untouched by the insertion of a value of
/// another type under a key that held no entry of type `T`.
pub proof fn lemma_typed_ignores_other<T: Cacheable, U: Cacheable>(
    m: Map<Seq<char>, CacheEntry>,
    key: Seq<char>,
    value: U,
    time_live: Option<LiveTime>,
    from_collection: Option<String>,
    now: u64,
)
    requires
        T::tag() != U::tag(),
        !typed::<T>(m).contains_key(key),
    ensures
        typed::<T>(m.insert(key, fresh_entry(value, time_live, from_collection, now))) == typed::<T>(
            m,
        ),
{
    U::lemma_wrap_unwrap(value);
    T::lemma_unwrap_wrap(value.wrapped());
    assert(typed::<T>(m.insert(key, fresh_entry(value, time_live, from_collection, now)))
        =~= typed::<T>(m));
}

} // verus!
