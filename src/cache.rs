//! A cache whose entries expire a fixed time after they were inserted.
use vstd::prelude::*;
use core::time::Duration;
use crate::clock::{duration_nanos, Clock};
use crate::rate::Timestamp;
use crate::store::{KeyedStore, Slot};

verus! {

/// A cached value and the instant from which it counts as absent.
pub struct CacheEntry<T> {
    pub value: T,
    pub expires_at: Timestamp,
}

/// Whether `e` may still be returned at `now`.
pub open spec fn is_live<T>(e: CacheEntry<T>, now: Timestamp) -> bool {
    now.nanos < e.expires_at.nanos
}

/// The instant `ttl` nanoseconds after `now`, or the last one there is.
pub open spec fn expiry(now: Timestamp, ttl: u64) -> Timestamp {
    Timestamp {
        nanos: if now.nanos + ttl > u64::MAX {
            u64::MAX
        } else {
            (now.nanos + ttl) as u64
        },
    }
}

/// Whether `r` is what a lookup of `key` in `m` owes at `now`.
pub open spec fn lookup_result<T>(m: Map<Seq<char>, CacheEntry<T>>, key: Seq<char>, now: Timestamp, r: Option<&T>) -> bool {
    if m.contains_key(key) && is_live(m[key], now) {
        r matches Some(v) && *v == m[key].value
    } else {
        r is None
    }
}

/// The entries of `m` that are live at `now`.
pub open spec fn live_part<T>(m: Map<Seq<char>, CacheEntry<T>>, now: Timestamp) -> Map<Seq<char>, CacheEntry<T>> {
    m.restrict(m.dom().filter(|k: Seq<char>| is_live(m[k], now)))
}

/// A map from text keys to values that expire; expired entries stay stored until
/// a cleanup removes them.
pub struct Cache<T> {
    data: KeyedStore<CacheEntry<T>>,
    default_ttl: u64,
    clock: Clock,
}

impl<T> Cache<T> {
    /// The stored entries, expired ones included.
    pub closed spec fn view(&self) -> Map<Seq<char>, CacheEntry<T>> {
        self.data@
    }

    /// The time to live of an entry inserted without one, in nanoseconds.
    pub closed spec fn default_ttl_nanos(&self) -> u64 {
        self.default_ttl
    }

    pub closed spec fn wf(&self) -> bool {
        self.data.wf()
    }

    /// An empty cache whose entries live `default_ttl` unless told otherwise.
    pub fn new(default_ttl: Duration) -> (r: Cache<T>)
        ensures
            r.wf(),
            r@ == Map::<Seq<char>, CacheEntry<T>>::empty(),
    {
        Cache::with_ttl_nanos(duration_nanos(&default_ttl))
    }

    /// An empty cache whose entries live `ttl` nanoseconds unless told otherwise.
    pub fn with_ttl_nanos(ttl: u64) -> (r: Cache<T>)
        ensures
            r.wf(),
            r@ == Map::<Seq<char>, CacheEntry<T>>::empty(),
            r.default_ttl_nanos() == ttl,
    {
        Cache { data: KeyedStore::new(), default_ttl: ttl, clock: Clock::new() }
    }

    /// The time on this cache's clock.
    pub fn now(&self) -> (r: Timestamp) {
        self.clock.now()
    }

    /// The value of `key` at `now`, unless it is absent or has expired.
    pub fn get_at(&self, key: &str, now: Timestamp) -> (r: Option<&T>)
        requires
            self.wf(),
        ensures
            lookup_result(self@, key@, now, r),
    {
        match self.data.get(key) {
            Some(e) => {
                if now.nanos < e.expires_at.nanos {
                    Some(&e.value)
                } else {
                    None
                }
            },
            None => None,
        }
    }

    /// The value of `key` now, unless it is absent or has expired.
    pub fn get(&self, key: &str) -> (r: Option<&T>)
        requires
            self.wf(),
        ensures
            exists|now: Timestamp| lookup_result(self@, key@, now, r),
    {
        let now = self.clock.now();
        self.get_at(key, now)
    }

    /// Stores `value` under `key` at `now`, to expire `ttl` nanoseconds later.
    pub fn insert_with_ttl_at(&mut self, key: String, value: T, ttl: u64, now: Timestamp)
        requires
            old(self).wf(),
        ensures
            final(self).wf(),
            final(self).default_ttl_nanos() == old(self).default_ttl_nanos(),
            final(self)@ == old(self)@.insert(
                key@,
                CacheEntry { value, expires_at: expiry(now, ttl) },
            ),
    {
        let expires_at = now.plus_nanos(ttl);
        self.data.insert(key, CacheEntry { value, expires_at });
    }

    /// Stores `value` under `key` at `now`, with the default time to live.
    pub fn insert_at(&mut self, key: String, value: T, now: Timestamp)
        requires
            old(self).wf(),
        ensures
            final(self).wf(),
            final(self).default_ttl_nanos() == old(self).default_ttl_nanos(),
            final(self)@ == old(self)@.insert(
                key@,
                CacheEntry { value, expires_at: expiry(now, old(self).default_ttl_nanos()) },
            ),
    {
        let ttl = self.default_ttl;
        self.insert_with_ttl_at(key, value, ttl, now);
    }

    /// Stores `value` under `key` now, with the default time to live.
    pub fn insert(&mut self, key: String, value: T)
        requires
            old(self).wf(),
        ensures
            final(self).wf(),
            final(self).default_ttl_nanos() == old(self).default_ttl_nanos(),
            exists|now: Timestamp|
                final(self)@ == old(self)@.insert(
                    key@,
                    CacheEntry { value, expires_at: expiry(now, old(self).default_ttl_nanos()) },
                ),
    {
        let now = self.clock.now();
        self.insert_at(key, value, now);
    }

    /// Stores `value` under `key` now, to expire `ttl` later.
    pub fn insert_with_ttl(&mut self, key: String, value: T, ttl: Duration)
        requires
            old(self).wf(),
        ensures
            final(self).wf(),
            final(self).default_ttl_nanos() == old(self).default_ttl_nanos(),
            exists|at: Timestamp|
                final(self)@ == old(self)@.insert(key@, CacheEntry { value, expires_at: at }),
    {
        let now = self.clock.now();
        let nanos = duration_nanos(&ttl);
        self.insert_with_ttl_at(key, value, nanos, now);
    }

    /// Removes the entries that have expired at `now`, and only those.
    pub fn cleanup_at(&mut self, now: Timestamp)
        requires
            old(self).wf(),
        ensures
            final(self).wf(),
            final(self).default_ttl_nanos() == old(self).default_ttl_nanos(),
            final(self)@ == live_part(old(self)@, now),
    {
        let ghost m = self.data@;
        let mut slots = self.data.take_all();
        let mut kept: KeyedStore<CacheEntry<T>> = KeyedStore::new();
        while slots.len() > 0
            invariant
                kept.wf(),
                forall|i: int|
                    0 <= i < slots@.len() ==> #[trigger] m.contains_key(slots@[i].key@) && m[slots@[i].key@]
                        == slots@[i].value,
                forall|i: int, j: int|
                    0 <= i < slots@.len() && 0 <= j < slots@.len() && i != j ==> #[trigger] slots@[i].key@
                        != #[trigger] slots@[j].key@,
                forall|k: Seq<char>|
                    #[trigger] m.contains_key(k) ==> (exists|i: int|
                        0 <= i < slots@.len() && #[trigger] slots@[i].key@ == k) || kept@.contains_key(k)
                        || !is_live(m[k], now),
                forall|k: Seq<char>|
                    #[trigger] kept@.contains_key(k) ==> m.contains_key(k) && kept@[k] == m[k]
                        && is_live(m[k], now) && !(exists|i: int|
                        0 <= i < slots@.len() && #[trigger] slots@[i].key@ == k),
            decreases slots.len(),
        {
            let ghost before = slots@;
            let slot = slots.pop().unwrap();
            let ghost last = before.len() - 1;
            assert(slots@ == before.drop_last());
            assert(before[last] == slot);
            proof {
                assert forall|k: Seq<char>| #[trigger] m.contains_key(k) implies (exists|i: int|
                    0 <= i < slots@.len() && #[trigger] slots@[i].key@ == k) || kept@.contains_key(k)
                    || !is_live(m[k], now) || k == slot.key@ by {
                    if !kept@.contains_key(k) && is_live(m[k], now) {
                        let i = choose|i: int| 0 <= i < before.len() && #[trigger] before[i].key@ == k;
                        if i != last {
                            assert(slots@[i] == before[i]);
                        }
                    }
                }
                assert forall|i: int| 0 <= i < slots@.len() implies #[trigger] slots@[i].key@ != slot.key@ by {
                    assert(before[i] == slots@[i]);
                }
            }
            let Slot { key, value } = slot;
            if now.nanos < value.expires_at.nanos {
                kept.insert(key, value);
            }
        }
        self.data = kept;
        assert(self.data@ =~= live_part(m, now));
    }

    /// Removes the entries that have expired now.
    pub fn cleanup(&mut self)
        requires
            old(self).wf(),
        ensures
            final(self).wf(),
            final(self).default_ttl_nanos() == old(self).default_ttl_nanos(),
            exists|now: Timestamp| final(self)@ == live_part(old(self)@, now),
    {
        let now = self.clock.now();
        self.cleanup_at(now);
    }

    /// Removes every entry.
    pub fn clear(&mut self)
        requires
            old(self).wf(),
        ensures
            final(self).wf(),
            final(self).default_ttl_nanos() == old(self).default_ttl_nanos(),
            final(self)@ == Map::<Seq<char>, CacheEntry<T>>::empty(),
    {
        self.data.clear();
    }

    /// The number of stored entries, expired ones included.
    pub fn len(&self) -> (r: usize)
        requires
            self.wf(),
        ensures
            r == self@.dom().len(),
    {
        self.data.len()
    }

    /// Whether nothing is stored.
    pub fn is_empty(&self) -> (r: bool)
        requires
            self.wf(),
        ensures
            r == (self@.dom().len() == 0),
    {
        self.data.len() == 0
    }
}

/// The time to live of entries of a default cache: thirty seconds.
pub const DEFAULT_TTL_NANOS: u64 = 30_000_000_000;

impl<T> Default for Cache<T> {
    fn default() -> (r: Cache<T>)
        ensures
            r.wf(),
            r@ == Map::<Seq<char>, CacheEntry<T>>::empty(),
            r.default_ttl_nanos() == DEFAULT_TTL_NANOS,
    {
        Cache::with_ttl_nanos(DEFAULT_TTL_NANOS)
    }
}

} // verus!
