//! The generic cache engine: a keyed, TTL-tiered map.
//!
//! Each entry carries the [`Expiration`] tier it was stored under and the
//! time it was stored; a lookup at time `now` returns the value only while
//! the entry is still fresh.  The engine is data-blind: loading a missing
//! value from the backing store and persisting a written value are the
//! caller's job, so `get` splits into [`AutoCache::lookup`] (try the cache)
//! and [`AutoCache::store`] (put the loaded or written value in).  On the
//! write-through path the store is the source of truth: the caller persists
//! first and calls `store` only once the write succeeded, so a failed write
//! never leaves the cache holding a value the store never saw.
use vstd::prelude::*;

verus! {

/// How long a cached value stays valid.
#[derive(Clone, Copy, Debug, Eq, PartialEq, Structural)]
pub enum Expiration {
    AtOnce,
    Short,
    Middle,
    Long,
    Never,
}

/// Lifetime in seconds of each tier; `None` means the value never expires.
pub open spec fn tier_seconds(tier: Expiration) -> Option<u64> {
    match tier {
        Expiration::AtOnce => Some(0u64),
        Expiration::Short => Some(2u64),
        Expiration::Middle => Some(600u64),
        Expiration::Long => Some(7200u64),
        Expiration::Never => None,
    }
}

impl Expiration {
    /// Returns the lifetime of this expiration tier in seconds.
    pub fn as_duration(&self) -> (r: Option<u64>)
        ensures
            r == tier_seconds(*self),
    {
        match self {
            Expiration::AtOnce => Some(0),
            Expiration::Short => Some(2),
            Expiration::Middle => Some(600),
            Expiration::Long => Some(7200),
            Expiration::Never => None,
        }
    }
}

/// A cached value together with the tier and store time that decide its expiry.
pub struct CacheEntry<V> {
    pub value: V,
    pub tier: Expiration,
    pub stored_at: u64,
}

/// Whether an entry stored under `tier` at `stored_at` is still valid at `now`.
pub open spec fn fresh_at(tier: Expiration, stored_at: u64, now: u64) -> bool {
    match tier_seconds(tier) {
        Some(secs) => now < stored_at + secs,
        None => true,
    }
}

/// What a cache lookup at time `now` must answer: the stored value while
/// its entry is fresh, and nothing once it expired or was never stored.
pub open spec fn probe<V>(c: AutoCache<V>, key: u64, now: u64) -> Option<V> {
    if c.entries().contains_key(key) && fresh_at(
        c.entries()[key].tier,
        c.entries()[key].stored_at,
        now,
    ) {
        Some(c.entries()[key].value)
    } else {
        None
    }
}

/// A cache hit is never stale: whenever the probe answers at `now`, the
/// entry it answers from still has time left on its declared tier.
pub proof fn lemma_probe_fresh<V>(c: AutoCache<V>, key: u64, now: u64)
    ensures
        probe(c, key, now) is Some ==> fresh_at(
            c.entries()[key].tier,
            c.entries()[key].stored_at,
            now,
        ),
{
}

/// The effect one `store` has on a cache: the entry stands under its key,
/// and every other key either kept its entry or (only under memory
/// pressure) lost it.
pub open spec fn stored<V>(post: AutoCache<V>, pre: AutoCache<V>, key: u64, entry: CacheEntry<V>) -> bool {
    &&& post.entries().contains_key(key)
    &&& post.entries()[key] == entry
    &&& forall|k: u64|
        k != key && #[trigger] post.entries().contains_key(k) ==> pre.entries().contains_key(k)
            && post.entries()[k] == pre.entries()[k]
    &&& post.spec_capacity() == pre.spec_capacity()
}

/// A TTL-tiered cache over `u64` keys.
///
/// `capacity` bounds memory only: when a store would grow the map past it,
/// the whole map is dropped first.  Nothing may rely on an entry staying
/// cached; everything may rely on a returned entry being fresh.
pub struct AutoCache<V> {
    map: std::collections::HashMap<u64, CacheEntry<V>>,
    capacity: usize,
}

impl<V> AutoCache<V> {
    /// The entries currently held, as a mathematical map.
    pub closed spec fn entries(self) -> Map<u64, CacheEntry<V>> {
        self.map@
    }

    /// The configured capacity.
    pub closed spec fn spec_capacity(self) -> usize {
        self.capacity
    }

    /// The number of entries never exceeds the capacity.
    pub closed spec fn inv(self) -> bool {
        &&& self.map@.dom().len() <= self.capacity
        &&& 1 <= self.capacity
    }

    /// A capacity below 1 is not accepted: `store` promises to retain the
    /// stored entry (except under `AtOnce`), and the size bound is
    /// `len <= capacity`, so the smallest honest capacity is one entry.
    pub fn new(capacity: usize) -> (r: Self)
        requires
            1 <= capacity,
        ensures
            r.entries() == Map::<u64, CacheEntry<V>>::empty(),
            r.spec_capacity() == capacity,
            r.inv(),
    {
        let map = std::collections::HashMap::new();
        AutoCache { map, capacity }
    }

    /// Reports the current entry count and the configured capacity.
    pub fn size(&self) -> (r: (usize, usize))
        requires
            self.inv(),
        ensures
            r.0 == self.entries().dom().len(),
            r.1 == self.spec_capacity(),
    {
        proof {
            broadcast use vstd::std_specs::hash::group_hash_axioms;

        }
        (self.map.len(), self.capacity)
    }

    /// Returns the cached value for `key`, but never one whose tier has
    /// expired by `now`: a hit is always fresh.
    pub fn lookup(&self, key: u64, now: u64) -> (r: Option<&V>)
        ensures
            match r {
                Some(v) => probe(*self, key, now) == Some(*v),
                None => probe(*self, key, now) is None,
            },
    {
        proof {
            broadcast use vstd::std_specs::hash::group_hash_axioms;

        }
        match self.map.get(&key) {
            None => None,
            Some(entry) => {
                let fresh = match entry.tier.as_duration() {
                    None => true,
                    Some(secs) => now < entry.stored_at || now - entry.stored_at < secs,
                };
                if fresh {
                    Some(&entry.value)
                } else {
                    None
                }
            },
        }
    }

    /// Caches `value` under `key` at time `now` — except under the `AtOnce`
    /// tier, which is computed but never retained.  When the map is full and
    /// `key` is new, every entry is dropped first to keep the size bounded.
    pub fn store(&mut self, key: u64, value: V, tier: Expiration, now: u64)
        requires
            old(self).inv(),
        ensures
            final(self).inv(),
            final(self).spec_capacity() == old(self).spec_capacity(),
            tier == Expiration::AtOnce ==> final(self).entries() == old(self).entries(),
            tier != Expiration::AtOnce ==> {
                &&& final(self).entries().contains_key(key)
                &&& final(self).entries()[key].value == value
                &&& final(self).entries()[key].tier == tier
                &&& final(self).entries()[key].stored_at == now
                &&& forall|k: u64|
                    k != key && #[trigger] final(self).entries().contains_key(k)
                        ==> old(self).entries().contains_key(k) && final(self).entries()[k] == old(
                        self,
                    ).entries()[k]
            },
            tier != Expiration::AtOnce && (old(self).entries().dom().len() < old(
                self,
            ).spec_capacity() || old(self).entries().contains_key(key)) ==> final(self).entries()
                == old(self).entries().insert(
                key,
                CacheEntry { value, tier, stored_at: now },
            ),
    {
        proof {
            broadcast use vstd::std_specs::hash::group_hash_axioms;

        }
        if matches!(tier, Expiration::AtOnce) {
            return ;
        }
        if self.map.len() >= self.capacity && !self.map.contains_key(&key) {
            self.map.clear();
        }
        proof {
            if !self.map@.contains_key(key) {
                assert(self.map@.insert(key, CacheEntry { value, tier, stored_at: now }).dom()
                    =~= self.map@.dom().insert(key));
                vstd::set::axiom_set_insert_len(self.map@.dom(), key);
            } else {
                assert(self.map@.insert(key, CacheEntry { value, tier, stored_at: now }).dom()
                    =~= self.map@.dom());
            }
        }
        self.map.insert(key, CacheEntry { value, tier, stored_at: now });
    }

    /// Removes the entry for `key`, if any.
    pub fn invalidate(&mut self, key: u64)
        requires
            old(self).inv(),
        ensures
            final(self).inv(),
            final(self).spec_capacity() == old(self).spec_capacity(),
            final(self).entries() == old(self).entries().remove(key),
    {
        proof {
            broadcast use vstd::std_specs::hash::group_hash_axioms;

        }
        proof {
            if self.map@.contains_key(key) {
                assert(self.map@.remove(key).dom() =~= self.map@.dom().remove(key));
                vstd::set::axiom_set_remove_len(self.map@.dom(), key);
            } else {
                assert(self.map@.remove(key) =~= self.map@);
            }
        }
        self.map.remove(&key);
    }
}

} // verus!
