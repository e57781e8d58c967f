use vstd::prelude::*;
use crate::cache_manager::CacheEntry;
use crate::cache_value::Cacheable;
use crate::text::same_text;

verus! {

/// One key with the entry stored under it.
struct Slot {
    key: String,
    entry: CacheEntry,
}

/// The keyed store behind the cache: at most one entry under each key.
///
/// Its view is the map from key to entry. The order in which the entries
/// are kept is no part of the view.
pub struct CacheStore {
    slots: Vec<Slot>,
}

/// No two slots share a key.
spec fn distinct_keys(slots: Seq<Slot>) -> bool {
    forall|i: int, j: int| 0 <= i < j < slots.len() ==> slots[i].key@ != slots[j].key@
}

/// Some slot has this key.
spec fn holds(slots: Seq<Slot>, key: Seq<char>) -> bool {
    exists|i: int| 0 <= i < slots.len() && (#[trigger] slots[i]).key@ == key
}

/// A slot that has this key, where there is one.
spec fn index_of(slots: Seq<Slot>, key: Seq<char>) -> int {
    choose|i: int| 0 <= i < slots.len() && (#[trigger] slots[i]).key@ == key
}

/// The map from key to entry that the slots stand for.
spec fn as_map(slots: Seq<Slot>) -> Map<Seq<char>, CacheEntry> {
    Map::new(|k: Seq<char>| holds(slots, k), |k: Seq<char>| slots[index_of(slots, k)].entry)
}

/// The keys of the slots, in their order.
spec fn keys_of(slots: Seq<Slot>) -> Seq<Seq<char>> {
    Seq::new(slots.len(), |i: int| slots[i].key@)
}

/// With distinct keys, each slot is what the map holds under the slot's key.
proof fn lemma_slot_in_map(slots: Seq<Slot>, i: int)
    requires
        distinct_keys(slots),
        0 <= i < slots.len(),
    ensures
        as_map(slots).contains_key(slots[i].key@),
        as_map(slots)[slots[i].key@] == slots[i].entry,
        index_of(slots, slots[i].key@) == i,
{
    assert(holds(slots, slots[i].key@));
}

/// A map that holds every slot under the slot's key, and nothing else, is
/// the map that the slots stand for.
proof fn lemma_is_map(slots: Seq<Slot>, m: Map<Seq<char>, CacheEntry>)
    requires
        distinct_keys(slots),
        forall|i: int|
            0 <= i < slots.len() ==> m.contains_key((#[trigger] slots[i]).key@) && m[slots[i].key@]
                == slots[i].entry,
        forall|k: Seq<char>| #[trigger] m.contains_key(k) ==> holds(slots, k),
    ensures
        as_map(slots) == m,
{
    assert forall|k: Seq<char>| #[trigger] as_map(slots).dom().contains(k) implies m.dom().contains(
        k,
    ) by {
        let i = index_of(slots, k);
        assert(m.contains_key(slots[i].key@));
    }
    assert forall|k: Seq<char>| #[trigger] m.dom().contains(k) implies as_map(slots).dom().contains(
        k,
    ) && as_map(slots)[k] == m[k] by {
        assert(m.contains_key(k));
        let i = index_of(slots, k);
        lemma_slot_in_map(slots, i);
    }
    assert(as_map(slots) =~= m);
}

/// With distinct keys, the map has as many keys as there are slots.
proof fn lemma_map_len(slots: Seq<Slot>)
    requires
        distinct_keys(slots),
    ensures
        as_map(slots).dom().finite(),
        as_map(slots).dom().len() == slots.len(),
{
    let keys = keys_of(slots);
    assert(keys.no_duplicates());
    assert(keys.to_set() =~= as_map(slots).dom()) by {
        assert forall|k: Seq<char>| keys.to_set().contains(k) implies as_map(slots).dom().contains(k) by {
            let i = choose|i: int| 0 <= i < keys.len() && keys[i] == k;
            assert(slots[i].key@ == k);
        }
        assert forall|k: Seq<char>| as_map(slots).dom().contains(k) implies keys.to_set().contains(k) by {
            let i = index_of(slots, k);
            assert(keys[i] == k);
        }
    }
    vstd::seq_lib::seq_to_set_is_finite(keys);
    keys.unique_seq_to_set();
}

/// The entries of a store whose value is of type `T`, each under its key
/// and reduced to that value.
pub open spec fn typed<T: Cacheable>(m: Map<Seq<char>, CacheEntry>) -> Map<Seq<char>, T> {
    Map::new(
        |k: Seq<char>| m.contains_key(k) && T::unwrapped(m[k].value) is Some,
        |k: Seq<char>| T::unwrapped(m[k].value)->0,
    )
}

/// The pairs list the map: every key of the map stands in exactly one pair,
/// beside the value that the map holds under it, and no pair has another key.
pub open spec fn lists<T>(pairs: Seq<(String, &T)>, m: Map<Seq<char>, T>) -> bool {
    &&& forall|i: int, j: int| 0 <= i < j < pairs.len() ==> pairs[i].0@ != pairs[j].0@
    &&& forall|i: int|
        0 <= i < pairs.len() ==> m.contains_key((#[trigger] pairs[i]).0@) && m[pairs[i].0@]
            == *pairs[i].1
    &&& forall|k: Seq<char>| #[trigger]
        m.contains_key(k) ==> exists|i: int| 0 <= i < pairs.len() && (#[trigger] pairs[i]).0@ == k
}

/// A list of a map has as many pairs as the map has keys.
pub proof fn lemma_lists_len<T>(pairs: Seq<(String, &T)>, m: Map<Seq<char>, T>)
    requires
        lists(pairs, m),
    ensures
        m.dom().finite(),
        m.len() == pairs.len(),
{
    let keys = Seq::new(pairs.len(), |i: int| pairs[i].0@);
    assert(keys.no_duplicates());
    assert(keys.to_set() =~= m.dom()) by {
        assert forall|k: Seq<char>| keys.to_set().contains(k) implies m.dom().contains(k) by {
            let i = choose|i: int| 0 <= i < keys.len() && keys[i] == k;
            assert(m.contains_key(pairs[i].0@));
        }
        assert forall|k: Seq<char>| m.dom().contains(k) implies keys.to_set().contains(k) by {
            assert(m.contains_key(k));
            let i = choose|i: int| 0 <= i < pairs.len() && (#[trigger] pairs[i]).0@ == k;
            assert(keys[i] == k);
        }
    }
    vstd::seq_lib::seq_to_set_is_finite(keys);
    keys.unique_seq_to_set();
}

impl View for CacheStore {
    type V = Map<Seq<char>, CacheEntry>;

    closed spec fn view(&self) -> Map<Seq<char>, CacheEntry> {
        as_map(self.slots@)
    }
}

impl CacheStore {
    #[verifier::type_invariant]
    spec fn well_formed(self) -> bool {
        distinct_keys(self.slots@)
    }

    /// A store with no entry.
    pub fn new() -> (store: Self)
        ensures
            store@ == Map::<Seq<char>, CacheEntry>::empty(),
    {
        let store = CacheStore { slots: Vec::new() };
        assert(store@ =~= Map::<Seq<char>, CacheEntry>::empty());
        store
    }

    /// How many entries the store holds.
    pub fn len(&self) -> (n: usize)
        ensures
            self@.dom().finite(),
            n == self@.len(),
    {
        proof {
            use_type_invariant(self);
            lemma_map_len(self.slots@);
        }
        self.slots.len()
    }

    /// Whether the store holds no entry.
    pub fn is_empty(&self) -> (b: bool)
        ensures
            b == (self@ == Map::<Seq<char>, CacheEntry>::empty()),
    {
        proof {
            if self.slots.len() == 0 {
                assert(self@ =~= Map::<Seq<char>, CacheEntry>::empty());
            } else {
                assert(holds(self.slots@, self.slots@[0].key@));
                assert(self@.contains_key(self.slots@[0].key@));
            }
        }
        self.slots.len() == 0
    }

    /// The slot that holds `key`, if there is one.
    fn find(&self, key: &str) -> (r: Option<usize>)
        ensures
            match r {
                Some(i) => i < self.slots.len() && self.slots[i as int].key@ == key@,
                None => !holds(self.slots@, key@),
            },
    {
        let mut i: usize = 0;
        while i < self.slots.len()
            invariant
                i <= self.slots.len(),
                forall|j: int| 0 <= j < i ==> self.slots[j].key@ != key@,
            decreases self.slots.len() - i,
        {
            if same_text(self.slots[i].key.as_str(), key) {
                return Some(i);
            }
            i += 1;
        }
        None
    }

    /// Stores `entry` under `key`, in place of whatever was there.
    pub fn put(&mut self, key: String, entry: CacheEntry)
        ensures
            final(self)@ == old(self)@.insert(key@, entry),
    {
        proof {
            use_type_invariant(&*self);
        }
        let found = self.find(key.as_str());
        let mut slots: Vec<Slot> = Vec::new();
        std::mem::swap(&mut slots, &mut self.slots);
        let ghost before = slots@;
        match found {
            Some(i) => {
                slots[i].entry = entry;
            },
            None => {
                slots.push(Slot { key, entry });
            },
        }
        proof {
            let after = slots@;
            let at: int = match found {
                Some(i) => i as int,
                None => before.len() as int,
            };
            assert(after[at].key@ == key@ && after[at].entry == entry);
            assert(forall|j: int| 0 <= j < before.len() && j != at ==> after[j] == before[j]);
            assert(forall|j: int| 0 <= j < before.len() ==> after[j].key@ == before[j].key@);
            assert(distinct_keys(after));
            let m = as_map(before).insert(key@, entry);
            assert forall|j: int| 0 <= j < after.len() implies m.contains_key(
                (#[trigger] after[j]).key@,
            ) && m[after[j].key@] == after[j].entry by {
                if j != at {
                    lemma_slot_in_map(before, j);
                }
            }
            assert forall|k: Seq<char>| #[trigger] m.contains_key(k) implies holds(after, k) by {
                if k == key@ {
                    assert(after[at].key@ == k);
                } else {
                    let j = index_of(before, k);
                    assert(after[j].key@ == k);
                }
            }
            lemma_is_map(after, m);
        }
        self.slots = slots;
    }

    /// The entry under `key`, if there is one. The store is left as it is.
    pub fn peek(&self, key: &str) -> (r: Option<&CacheEntry>)
        ensures
            match r {
                Some(entry) => self@.contains_key(key@) && *entry == self@[key@],
                None => !self@.contains_key(key@),
            },
    {
        proof {
            use_type_invariant(self);
        }
        match self.find(key) {
            Some(i) => {
                proof {
                    lemma_slot_in_map(self.slots@, i as int);
                }
                Some(&self.slots[i].entry)
            },
            None => None,
        }
    }

    /// Takes the entry under `key` out of the store and returns it.
    pub fn remove(&mut self, key: &str) -> (r: Option<CacheEntry>)
        ensures
            final(self)@ == old(self)@.remove(key@),
            r == if old(self)@.contains_key(key@) {
                Some(old(self)@[key@])
            } else {
                None
            },
    {
        proof {
            use_type_invariant(&*self);
        }
        match self.find(key) {
            Some(i) => {
                let mut slots: Vec<Slot> = Vec::new();
                std::mem::swap(&mut slots, &mut self.slots);
                let ghost before = slots@;
                let slot = slots.remove(i);
                proof {
                    let after = slots@;
                    lemma_slot_in_map(before, i as int);
                    assert(forall|j: int| 0 <= j < i ==> after[j] == before[j]);
                    assert(forall|j: int| i <= j < after.len() ==> after[j] == before[j + 1]);
                    assert(distinct_keys(after));
                    let m = as_map(before).remove(key@);
                    assert forall|j: int| 0 <= j < after.len() implies m.contains_key(
                        (#[trigger] after[j]).key@,
                    ) && m[after[j].key@] == after[j].entry by {
                        let from = if j < i { j } else { j + 1 };
                        assert(after[j] == before[from]);
                        lemma_slot_in_map(before, from);
                    }
                    assert forall|k: Seq<char>| #[trigger] m.contains_key(k) implies holds(
                        after,
                        k,
                    ) by {
                        let j = index_of(before, k);
                        let to = if j < i { j } else { j - 1 };
                        assert(after[to].key@ == k);
                    }
                    lemma_is_map(after, m);
                }
                self.slots = slots;
                Some(slot.entry)
            },
            None => {
                assert(self@ =~= old(self)@.remove(key@));
                None
            },
        }
    }

    /// Drops every entry that `keep` turns down and leaves the others as they are.
    pub fn retain<F: Fn(&CacheEntry) -> bool>(&mut self, keep: F)
        requires
            forall|k: Seq<char>|
                old(self)@.contains_key(k) ==> call_requires(keep, (&#[trigger] old(self)@[k],)),
        ensures
            final(self)@.submap_of(old(self)@),
            forall|k: Seq<char>| #[trigger]
                final(self)@.contains_key(k) ==> call_ensures(keep, (&old(self)@[k],), true),
            forall|k: Seq<char>|
                old(self)@.contains_key(k) && !(#[trigger] final(self)@.contains_key(k))
                    ==> call_ensures(keep, (&old(self)@[k],), false),
    {
        proof {
            use_type_invariant(&*self);
        }
        let mut slots: Vec<Slot> = Vec::new();
        std::mem::swap(&mut slots, &mut self.slots);
        let ghost before = slots@;
        let ghost mut origin: Seq<int> = Seq::empty();
        let ghost mut seen: int = 0;
        proof {
            assert forall|q: int| 0 <= q < before.len() implies call_requires(
                keep,
                (&(#[trigger] before[q]).entry,),
            ) by {
                lemma_slot_in_map(before, q);
                assert(old(self)@.contains_key(before[q].key@));
            }
        }
        let mut i: usize = 0;
        while i < slots.len()
            invariant
                i <= slots.len(),
                origin.len() == i,
                0 <= seen <= before.len(),
                before.len() - seen == slots.len() - i,
                forall|x: int| i <= x < slots.len() ==> #[trigger] slots[x] == before[x + seen - i],
                forall|p: int|
                    0 <= p < i ==> 0 <= #[trigger] origin[p] < seen && slots[p] == before[origin[p]]
                        && call_ensures(keep, (&before[origin[p]].entry,), true),
                forall|p: int, q: int| 0 <= p < q < i ==> origin[p] < origin[q],
                forall|q: int|
                    0 <= q < seen ==> origin.contains(q) || call_ensures(
                        keep,
                        (&(#[trigger] before[q]).entry,),
                        false,
                    ),
                forall|q: int|
                    0 <= q < before.len() ==> call_requires(keep, (&(#[trigger] before[q]).entry,)),
            decreases slots.len() - i,
        {
            assert(slots[i as int] == before[seen]);
            let kept = keep(&slots[i].entry);
            if kept {
                proof {
                    let ghost earlier = origin;
                    origin = origin.push(seen);
                    assert forall|q: int| 0 <= q < seen + 1 implies origin.contains(q)
                        || call_ensures(keep, (&(#[trigger] before[q]).entry,), false) by {
                        if q == seen {
                            assert(origin[i as int] == q);
                        } else if earlier.contains(q) {
                            let p = choose|p: int| 0 <= p < earlier.len() && earlier[p] == q;
                            assert(origin[p] == q);
                        }
                    }
                    seen = seen + 1;
                }
                i += 1;
            } else {
                let ghost full = slots@;
                slots.remove(i);
                proof {
                    assert forall|x: int| i <= x < slots.len() implies #[trigger] slots[x]
                        == before[x + seen + 1 - i] by {
                        assert(slots[x] == full[x + 1]);
                    }
                    seen = seen + 1;
                }
            }
        }
        proof {
            let after = slots@;
            assert(distinct_keys(after)) by {
                assert forall|a: int, b: int| 0 <= a < b < after.len() implies after[a].key@
                    != after[b].key@ by {
                    assert(origin[a] < origin[b]);
                }
            }
            assert forall|k: Seq<char>| #[trigger] as_map(after).contains_key(k) implies as_map(
                before,
            ).contains_key(k) && as_map(after)[k] == as_map(before)[k] && call_ensures(
                keep,
                (&as_map(before)[k],),
                true,
            ) by {
                let p = index_of(after, k);
                lemma_slot_in_map(after, p);
                lemma_slot_in_map(before, origin[p]);
            }
            assert forall|k: Seq<char>|
                as_map(before).contains_key(k) && !(#[trigger] as_map(after).contains_key(
                    k,
                )) implies call_ensures(keep, (&as_map(before)[k],), false) by {
                let q = index_of(before, k);
                lemma_slot_in_map(before, q);
                if origin.contains(q) {
                    let p = choose|p: int| 0 <= p < origin.len() && origin[p] == q;
                    lemma_slot_in_map(after, p);
                }
            }
        }
        self.slots = slots;
    }

    /// Every entry whose value is of type `T`: its key beside that value,
    /// each key once. Entries of other types are passed over.
    pub fn entries_of<T: Cacheable>(&self) -> (pairs: Vec<(String, &T)>)
        ensures
            lists(pairs@, typed::<T>(self@)),
            typed::<T>(self@).dom().finite(),
            pairs.len() == typed::<T>(self@).len(),
    {
        proof {
            use_type_invariant(self);
        }
        let mut pairs: Vec<(String, &T)> = Vec::new();
        let ghost mut origin: Seq<int> = Seq::empty();
        let mut i: usize = 0;
        while i < self.slots.len()
            invariant
                i <= self.slots.len(),
                distinct_keys(self.slots@),
                origin.len() == pairs.len(),
                forall|p: int|
                    0 <= p < pairs.len() ==> 0 <= #[trigger] origin[p] < i && pairs[p].0@
                        == self.slots[origin[p]].key@ && T::unwrapped(
                        self.slots[origin[p]].entry.value,
                    ) == Some(*pairs[p].1),
                forall|p: int, q: int| 0 <= p < q < pairs.len() ==> origin[p] < origin[q],
                forall|q: int|
                    0 <= q < i ==> origin.contains(q) || T::unwrapped(
                        (#[trigger] self.slots[q]).entry.value,
                    ) is None,
            decreases self.slots.len() - i,
        {
            match T::peek(&self.slots[i].entry.value) {
                Some(value) => {
                    let ghost earlier = origin;
                    pairs.push((self.slots[i].key.clone(), value));
                    proof {
                        origin = origin.push(i as int);
                        assert forall|q: int| 0 <= q < i + 1 implies origin.contains(q)
                            || T::unwrapped((#[trigger] self.slots[q]).entry.value) is None by {
                            if q == i {
                                assert(origin[origin.len() - 1] == q);
                            } else if earlier.contains(q) {
                                let p = choose|p: int| 0 <= p < earlier.len() && earlier[p] == q;
                                assert(origin[p] == q);
                            }
                        }
                    }
                },
                None => {
                    proof {
                        assert forall|q: int| 0 <= q < i + 1 implies origin.contains(q)
                            || T::unwrapped((#[trigger] self.slots[q]).entry.value) is None by {}
                    }
                },
            }
            i += 1;
        }
        proof {
            let m = typed::<T>(self@);
            assert forall|a: int, b: int| 0 <= a < b < pairs.len() implies pairs[a].0@
                != pairs[b].0@ by {
                assert(origin[a] < origin[b]);
            }
            assert forall|p: int| 0 <= p < pairs.len() implies m.contains_key(
                (#[trigger] pairs[p]).0@,
            ) && m[pairs[p].0@] == *pairs[p].1 by {
                lemma_slot_in_map(self.slots@, origin[p]);
            }
            assert forall|k: Seq<char>| #[trigger] m.contains_key(k) implies exists|p: int|
                0 <= p < pairs.len() && (#[trigger] pairs[p]).0@ == k by {
                let q = index_of(self.slots@, k);
                lemma_slot_in_map(self.slots@, q);
                assert(origin.contains(q));
                let p = choose|p: int| 0 <= p < origin.len() && origin[p] == q;
                assert(pairs[p].0@ == k);
            }
            lemma_lists_len(pairs@, m);
        }
        pairs
    }
}

} // verus!
