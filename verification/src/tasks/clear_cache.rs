use vstd::prelude::*;
use crate::cache_manager::{swept, CacheEntry, CacheManager};

verus! {

/// The seconds between two passes of the sweeper.
pub const SWEEP_INTERVAL_SECS: u64 = 300;

/// What one pass of the sweeper did.
#[derive(Debug, Clone, Copy, PartialEq, Eq, Structural)]
pub enum Sweep {
    /// The cache was empty and was left alone.
    Skipped,
    /// The expired entries were removed; so many entries remain.
    Cleared { remaining: usize },
}

/// One pass of the sweeper as of the second `now`.
///
/// An empty cache is passed over. Any other cache loses its expired
/// entries, and the pass reports how many entries are left.
pub fn sweep_at(cache: &mut CacheManager, now: u64) -> (pass: Sweep)
    ensures
        final(cache)@ == swept(old(cache)@, now),
        final(cache)@.dom().finite(),
        final(cache).database == old(cache).database,
        final(cache).clock == old(cache).clock,
        pass == if old(cache)@ == Map::<Seq<char>, CacheEntry>::empty() {
            Sweep::Skipped
        } else {
            Sweep::Cleared { remaining: final(cache)@.len() as usize }
        },
{
    if cache.cache.is_empty() {
        assert(cache@ =~= swept(cache@, now));
        return Sweep::Skipped;
    }
    cache.cleanup_expired_at(now);
    Sweep::Cleared { remaining: cache.cache.len() }
}

/// One pass of the sweeper as of the clock's present second.
///
/// Whatever the clock reads, the effect and the report are those of
/// `sweep_at` at that second.
pub fn sweep(cache: &mut CacheManager) -> (pass: Sweep)
    ensures
        exists|now: u64| final(cache)@ == #[trigger] swept(old(cache)@, now),
        final(cache)@.dom().finite(),
        final(cache).database == old(cache).database,
        final(cache).clock == old(cache).clock,
        pass == if old(cache)@ == Map::<Seq<char>, CacheEntry>::empty() {
            Sweep::Skipped
        } else {
            Sweep::Cleared { remaining: final(cache)@.len() as usize }
        },
{
    let now = cache.now();
    sweep_at(cache, now)
}

} // verus!
