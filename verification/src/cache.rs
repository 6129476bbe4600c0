//! The domain caches: the generic engine wired five times, with each
//! domain's tier rules and decisions.
//!
//! A probe method answers from the cache alone; its `None` tells the caller
//! to read the backing store and hand the row to the matching `*_loaded`
//! method, which applies the domain's tier rule.  Write-through goes the
//! other way: [`Cache::set_unlock`] updates the cache and returns the row
//! the caller must persist.
use vstd::prelude::*;
use crate::auto_fetch::{probe, stored, AutoCache, CacheEntry, Expiration};
use crate::models::{Decipher, Unlock};
use crate::puzzle::{Puzzle, PuzzleBase};
use crate::stat::PuzzleStatistic;

verus! {

/// A load that found no backing row for an entity that must exist.
#[derive(Clone, Copy, Debug, PartialEq, Eq, Structural)]
pub enum LoadError {
    /// The referenced entity does not exist: a client error.
    InvalidQuery,
}

/// The composite key for a per-(team, item) cache line.
pub open spec fn spec_pair_key(a: i32, b: i32) -> u64 {
    (spec_id_key(a) * 0x1_0000_0000 + spec_id_key(b)) as u64
}

fn pair_key(a: i32, b: i32) -> (r: u64)
    ensures
        r == spec_pair_key(a, b),
{
    let hi = id_key(a);
    let lo = id_key(b);
    proof {
        assert(hi * 0x1_0000_0000 <= 0xffff_ffff * 0x1_0000_0000) by (nonlinear_arith)
            requires
                hi <= 0xffff_ffff,
        ;
    }
    hi * 0x1_0000_0000 + lo
}

/// The cache key for a single id, shifted into the non-negative range.
pub open spec fn spec_id_key(id: i32) -> u64 {
    (id + 0x8000_0000) as u64
}

fn id_key(id: i32) -> (r: u64)
    ensures
        r == spec_id_key(id),
        r < 0x1_0000_0000,
{
    (id as i64 + 0x8000_0000) as u64
}

/// Distinct (team, item) pairs never share a cache line.
pub proof fn lemma_pair_key_injective(a1: i32, b1: i32, a2: i32, b2: i32)
    requires
        spec_pair_key(a1, b1) == spec_pair_key(a2, b2),
    ensures
        a1 == a2,
        b1 == b2,
{
    let x1 = spec_id_key(a1);
    let y1 = spec_id_key(b1);
    let x2 = spec_id_key(a2);
    let y2 = spec_id_key(b2);
    assert(x1 == x2 && y1 == y2) by (nonlinear_arith)
        requires
            x1 * 0x1_0000_0000 + y1 == x2 * 0x1_0000_0000 + y2,
            x1 < 0x1_0000_0000,
            y1 < 0x1_0000_0000,
            x2 < 0x1_0000_0000,
            y2 < 0x1_0000_0000,
    ;
}

/// The tier an unlock level is cached under: level 0 is terminal and so
/// stable for a long while, everything else may still change soon.
pub open spec fn unlock_tier(level: Option<i32>) -> Expiration {
    match level {
        Some(l) => if l == 0 {
            Expiration::Long
        } else {
            Expiration::Short
        },
        None => Expiration::Short,
    }
}

/// Entry counts and capacities of the four keyed caches.
pub struct CacheStatusResponse {
    pub unlock: (usize, usize),
    pub puzzle: (usize, usize),
    pub time_punish: (usize, usize),
    pub decipher: (usize, usize),
}

/// The five domain cache instances.
pub struct Cache {
    /// Per (team, decipher): the unlocked level, `None` = no row yet.
    pub unlock_cache: AutoCache<Option<i32>>,
    /// Per puzzle id: the resolved puzzle.
    pub puzzle_cache: AutoCache<Puzzle>,
    /// Per (team, puzzle): the wrong-answer lockout end, in seconds.
    pub time_punish_cache: AutoCache<i64>,
    /// Per decipher id: the decipher row.
    pub decipher_cache: AutoCache<Decipher>,
    /// The singleton aggregate statistic.
    pub stat: AutoCache<PuzzleStatistic>,
}

impl Cache {
    pub open spec fn wf(self) -> bool {
        &&& self.unlock_cache.inv()
        &&& self.puzzle_cache.inv()
        &&& self.time_punish_cache.inv()
        &&& self.decipher_cache.inv()
        &&& self.stat.inv()
    }

    pub fn new() -> (r: Self)
        ensures
            r.wf(),
            r.unlock_cache.entries() == Map::<u64, CacheEntry<Option<i32>>>::empty(),
            r.puzzle_cache.entries() == Map::<u64, CacheEntry<Puzzle>>::empty(),
            r.time_punish_cache.entries() == Map::<u64, CacheEntry<i64>>::empty(),
            r.decipher_cache.entries() == Map::<u64, CacheEntry<Decipher>>::empty(),
            r.stat.entries() == Map::<u64, CacheEntry<PuzzleStatistic>>::empty(),
            r.unlock_cache.spec_capacity() == 4096,
            r.puzzle_cache.spec_capacity() == 32,
            r.time_punish_cache.spec_capacity() == 4096,
            r.decipher_cache.spec_capacity() == 256,
            r.stat.spec_capacity() == 2,
    {
        Cache {
            unlock_cache: AutoCache::new(4096),
            puzzle_cache: AutoCache::new(32),
            time_punish_cache: AutoCache::new(4096),
            decipher_cache: AutoCache::new(256),
            stat: AutoCache::new(2),
        }
    }

    /// Reports entry count and capacity of each keyed cache.
    pub fn get_size(&self) -> (r: CacheStatusResponse)
        requires
            self.wf(),
        ensures
            r.unlock.0 == self.unlock_cache.entries().dom().len(),
            r.puzzle.0 == self.puzzle_cache.entries().dom().len(),
            r.time_punish.0 == self.time_punish_cache.entries().dom().len(),
            r.decipher.0 == self.decipher_cache.entries().dom().len(),
            r.unlock.1 == self.unlock_cache.spec_capacity(),
            r.puzzle.1 == self.puzzle_cache.spec_capacity(),
            r.time_punish.1 == self.time_punish_cache.spec_capacity(),
            r.decipher.1 == self.decipher_cache.spec_capacity(),
    {
        CacheStatusResponse {
            unlock: self.unlock_cache.size(),
            puzzle: self.puzzle_cache.size(),
            time_punish: self.time_punish_cache.size(),
            decipher: self.decipher_cache.size(),
        }
    }

    /// Answers the unlock level for (team, item) from the cache alone:
    /// `Some(None)` is a cached "never unlocked", the outer `None` means
    /// the store must be read.
    pub fn check_unlock_cached(&self, team: i32, item: i32, now: u64) -> (r: Option<Option<i32>>)
        ensures
            r == probe(self.unlock_cache, spec_pair_key(team, item), now),
    {
        match self.unlock_cache.lookup(pair_key(team, item), now) {
            Some(v) => Some(*v),
            None => None,
        }
    }

    /// Takes in a freshly loaded unlock row and caches it under the
    /// domain's tier rule; the loaded level is handed back.
    pub fn unlock_loaded(&mut self, team: i32, item: i32, row: Option<i32>, now: u64) -> (r: Option<
        i32,
    >)
        requires
            old(self).wf(),
        ensures
            final(self).wf(),
            r == row,
            stored(
                final(self).unlock_cache,
                old(self).unlock_cache,
                spec_pair_key(team, item),
                CacheEntry { value: row, tier: unlock_tier(row), stored_at: now },
            ),
            final(self).puzzle_cache == old(self).puzzle_cache,
            final(self).time_punish_cache == old(self).time_punish_cache,
            final(self).decipher_cache == old(self).decipher_cache,
            final(self).stat == old(self).stat,
    {
        let tier = match row {
            Some(0) => Expiration::Long,
            _ => Expiration::Short,
        };
        self.unlock_cache.store(pair_key(team, item), row, tier, now);
        row
    }

    /// The row an unlock write-through must persist before the cache is
    /// touched — none when there is no level, as absence is never written
    /// to the store.
    pub fn unlock_write_row(team: i32, item: i32, level: Option<i32>) -> (r: Option<Unlock>)
        ensures
            r == match level {
                Some(l) => Some(Unlock { level: l, team, decipher: item }),
                None => None::<Unlock>,
            },
    {
        match level {
            Some(l) => Some(Unlock { level: l, team, decipher: item }),
            None => None,
        }
    }

    /// Reconciles the cache after an unlock write-through: the caller
    /// persists [`Cache::unlock_write_row`] first and calls this only once
    /// the store write succeeded (or there was nothing to write), so a
    /// failed write never leaves the cache holding a level the store never
    /// saw.  The level is cached under the tier its value calls for.
    pub fn set_unlock(&mut self, team: i32, item: i32, level: Option<i32>, now: u64)
        requires
            old(self).wf(),
        ensures
            final(self).wf(),
            stored(
                final(self).unlock_cache,
                old(self).unlock_cache,
                spec_pair_key(team, item),
                CacheEntry { value: level, tier: unlock_tier(level), stored_at: now },
            ),
            final(self).puzzle_cache == old(self).puzzle_cache,
            final(self).time_punish_cache == old(self).time_punish_cache,
            final(self).decipher_cache == old(self).decipher_cache,
            final(self).stat == old(self).stat,
    {
        let tier = match level {
            Some(0) => Expiration::Long,
            _ => Expiration::Short,
        };
        self.unlock_cache.store(pair_key(team, item), level, tier, now);
    }

    /// Caches a freshly resolved puzzle; puzzles are immutable, so they
    /// stay for the long tier.
    pub fn puzzle_loaded(&mut self, puzzle_id: i32, puzzle: Puzzle, now: u64)
        requires
            old(self).wf(),
        ensures
            final(self).wf(),
            stored(
                final(self).puzzle_cache,
                old(self).puzzle_cache,
                spec_id_key(puzzle_id),
                CacheEntry { value: puzzle, tier: Expiration::Long, stored_at: now },
            ),
            final(self).unlock_cache == old(self).unlock_cache,
            final(self).time_punish_cache == old(self).time_punish_cache,
            final(self).decipher_cache == old(self).decipher_cache,
            final(self).stat == old(self).stat,
    {
        self.puzzle_cache.store(id_key(puzzle_id), puzzle, Expiration::Long, now);
    }

    /// Takes in the backing rows a puzzle load found: a missing base row
    /// means the id is invalid and nothing is cached; otherwise the
    /// resolved puzzle is built and cached for the long tier.
    pub fn puzzle_rows_loaded(
        &mut self,
        puzzle_id: i32,
        rows: Option<(PuzzleBase, Vec<(String, i32)>, Vec<(String, String)>)>,
        now: u64,
    ) -> (r: Result<(), LoadError>)
        requires
            old(self).wf(),
        ensures
            final(self).wf(),
            match rows {
                Some((base, answers, other_answers)) => {
                    &&& r is Ok
                    &&& stored(
                        final(self).puzzle_cache,
                        old(self).puzzle_cache,
                        spec_id_key(puzzle_id),
                        CacheEntry {
                            value: Puzzle { base, answers, other_answers },
                            tier: Expiration::Long,
                            stored_at: now,
                        },
                    )
                },
                None => {
                    &&& r == Err::<(), LoadError>(LoadError::InvalidQuery)
                    &&& final(self).puzzle_cache == old(self).puzzle_cache
                },
            },
            final(self).unlock_cache == old(self).unlock_cache,
            final(self).time_punish_cache == old(self).time_punish_cache,
            final(self).decipher_cache == old(self).decipher_cache,
            final(self).stat == old(self).stat,
    {
        match rows {
            Some((base, answers, other_answers)) => {
                let puzzle = Puzzle::new(base, answers, other_answers);
                self.puzzle_cache.store(id_key(puzzle_id), puzzle, Expiration::Long, now);
                Ok(())
            },
            None => Err(LoadError::InvalidQuery),
        }
    }

    /// Takes in the backing row a decipher load found: a missing row means
    /// the id is invalid, a found one is cached for the long tier.
    pub fn decipher_row_loaded(&mut self, decipher_id: i32, row: Option<Decipher>, now: u64) -> (r:
        Result<(), LoadError>)
        requires
            old(self).wf(),
        ensures
            final(self).wf(),
            match row {
                Some(d) => {
                    &&& r is Ok
                    &&& stored(
                        final(self).decipher_cache,
                        old(self).decipher_cache,
                        spec_id_key(decipher_id),
                        CacheEntry { value: d, tier: Expiration::Long, stored_at: now },
                    )
                },
                None => {
                    &&& r == Err::<(), LoadError>(LoadError::InvalidQuery)
                    &&& final(self).decipher_cache == old(self).decipher_cache
                },
            },
            final(self).unlock_cache == old(self).unlock_cache,
            final(self).puzzle_cache == old(self).puzzle_cache,
            final(self).time_punish_cache == old(self).time_punish_cache,
            final(self).stat == old(self).stat,
    {
        match row {
            Some(d) => {
                self.decipher_cache.store(id_key(decipher_id), d, Expiration::Long, now);
                Ok(())
            },
            None => Err(LoadError::InvalidQuery),
        }
    }

    /// Applies a pure projection to the cached puzzle without handing the
    /// cached reference out; `None` means the store must be read first.
    pub fn query_puzzle_cached<T, F: FnOnce(&Puzzle) -> T>(
        &self,
        puzzle_id: i32,
        now: u64,
        query: F,
    ) -> (r: Option<T>)
        requires
            forall|p: &Puzzle| call_requires(query, (p,)),
        ensures
            match r {
                Some(t) => probe(self.puzzle_cache, spec_id_key(puzzle_id), now) matches Some(p)
                    && call_ensures(query, (&p,), t),
                None => probe(self.puzzle_cache, spec_id_key(puzzle_id), now) is None,
            },
    {
        match self.puzzle_cache.lookup(id_key(puzzle_id), now) {
            Some(p) => Some(query(p)),
            None => None,
        }
    }

    /// Caches a freshly loaded decipher row for the long tier.
    pub fn decipher_loaded(&mut self, decipher_id: i32, row: Decipher, now: u64)
        requires
            old(self).wf(),
        ensures
            final(self).wf(),
            stored(
                final(self).decipher_cache,
                old(self).decipher_cache,
                spec_id_key(decipher_id),
                CacheEntry { value: row, tier: Expiration::Long, stored_at: now },
            ),
            final(self).unlock_cache == old(self).unlock_cache,
            final(self).puzzle_cache == old(self).puzzle_cache,
            final(self).time_punish_cache == old(self).time_punish_cache,
            final(self).stat == old(self).stat,
    {
        self.decipher_cache.store(id_key(decipher_id), row, Expiration::Long, now);
    }

    /// Answers the decipher row from the cache alone.
    pub fn decipher_cached(&self, decipher_id: i32, now: u64) -> (r: Option<&Decipher>)
        ensures
            match r {
                Some(d) => probe(self.decipher_cache, spec_id_key(decipher_id), now) == Some(*d),
                None => probe(self.decipher_cache, spec_id_key(decipher_id), now) is None,
            },
    {
        self.decipher_cache.lookup(id_key(decipher_id), now)
    }

    /// Answers the wrong-answer lockout for (team, puzzle) from the cache:
    /// `Some(Some(t))` while a cached lockout end `t` is still ahead of
    /// `now`, `Some(None)` when the cached one has passed (the stale entry
    /// is dropped at once), and `None` when the store must be read.
    pub fn query_wa_penalty(&mut self, team: i32, puzzle: i32, now: u64) -> (r: Option<Option<i64>>)
        requires
            old(self).wf(),
        ensures
            final(self).wf(),
            r == match probe(old(self).time_punish_cache, spec_pair_key(team, puzzle), now) {
                Some(t) => Some(
                    if t > now {
                        Some(t)
                    } else {
                        None::<i64>
                    },
                ),
                None => None::<Option<i64>>,
            },
            final(self).time_punish_cache.entries() == match probe(
                old(self).time_punish_cache,
                spec_pair_key(team, puzzle),
                now,
            ) {
                Some(t) => if t > now {
                    old(self).time_punish_cache.entries()
                } else {
                    old(self).time_punish_cache.entries().remove(spec_pair_key(team, puzzle))
                },
                None => old(self).time_punish_cache.entries(),
            },
            final(self).unlock_cache == old(self).unlock_cache,
            final(self).puzzle_cache == old(self).puzzle_cache,
            final(self).decipher_cache == old(self).decipher_cache,
            final(self).stat == old(self).stat,
    {
        let key = pair_key(team, puzzle);
        match self.time_punish_cache.lookup(key, now) {
            Some(t) => {
                let t = *t;
                if t >= 0 && (t as u64) > now {
                    Some(Some(t))
                } else {
                    self.time_punish_cache.invalidate(key);
                    Some(None)
                }
            },
            None => None,
        }
    }

    /// Takes in a freshly loaded penalty row.  A lockout still ahead of
    /// `now` is cached for the middle tier and returned; a missing or
    /// already passed one is never retained — a lockout about to be
    /// created must not be masked by a stale "no penalty" entry.
    pub fn query_wa_penalty_loaded(
        &mut self,
        team: i32,
        puzzle: i32,
        row: Option<i64>,
        now: u64,
    ) -> (r: Option<i64>)
        requires
            old(self).wf(),
        ensures
            final(self).wf(),
            r == match row {
                Some(t) => if t > now {
                    Some(t)
                } else {
                    None::<i64>
                },
                None => None::<i64>,
            },
            match row {
                Some(t) => if t > now {
                    stored(
                        final(self).time_punish_cache,
                        old(self).time_punish_cache,
                        spec_pair_key(team, puzzle),
                        CacheEntry { value: t, tier: Expiration::Middle, stored_at: now },
                    )
                } else {
                    final(self).time_punish_cache == old(self).time_punish_cache
                },
                None => final(self).time_punish_cache == old(self).time_punish_cache,
            },
            final(self).unlock_cache == old(self).unlock_cache,
            final(self).puzzle_cache == old(self).puzzle_cache,
            final(self).decipher_cache == old(self).decipher_cache,
            final(self).stat == old(self).stat,
    {
        match row {
            Some(t) => {
                if t >= 0 && (t as u64) > now {
                    self.time_punish_cache.store(
                        pair_key(team, puzzle),
                        t,
                        Expiration::Middle,
                        now,
                    );
                    Some(t)
                } else {
                    None
                }
            },
            None => None,
        }
    }

    /// Answers the aggregate statistic from the cache alone; `None` asks
    /// the caller to recompute it.
    pub fn get_stat(&self, now: u64) -> (r: Option<&PuzzleStatistic>)
        ensures
            match r {
                Some(s) => probe(self.stat, 0, now) == Some(*s),
                None => probe(self.stat, 0, now) is None,
            },
    {
        self.stat.lookup(0, now)
    }

    /// Caches a freshly recomputed aggregate for the middle tier.
    pub fn stat_loaded(&mut self, data: PuzzleStatistic, now: u64)
        requires
            old(self).wf(),
        ensures
            final(self).wf(),
            stored(
                final(self).stat,
                old(self).stat,
                0,
                CacheEntry { value: data, tier: Expiration::Middle, stored_at: now },
            ),
            final(self).unlock_cache == old(self).unlock_cache,
            final(self).puzzle_cache == old(self).puzzle_cache,
            final(self).time_punish_cache == old(self).time_punish_cache,
            final(self).decipher_cache == old(self).decipher_cache,
    {
        self.stat.store(0, data, Expiration::Middle, now);
    }
}

/// Before any unlock row exists nothing is cached for the pair, so the
/// cached probe can only send the caller to the store — and a loader that
/// finds no row answers "never unlocked".
pub proof fn lemma_unlock_none_before_row(c: Cache, team: i32, item: i32, now: u64)
    requires
        !c.unlock_cache.entries().contains_key(spec_pair_key(team, item)),
    ensures
        probe(c.unlock_cache, spec_pair_key(team, item), now) is None,
{
}

/// After an unlock level has been written through at time `t`, every
/// cached read while that entry is fresh answers exactly the written
/// level: the value is stable until its tier expires, and an expired read
/// falls back to the store, which holds the same upserted row.
pub proof fn lemma_unlock_read_back(c: Cache, team: i32, item: i32, level: i32, t: u64, later: u64)
    requires
        c.unlock_cache.entries().contains_key(spec_pair_key(team, item)),
        c.unlock_cache.entries()[spec_pair_key(team, item)] == (CacheEntry {
            value: Some(level),
            tier: unlock_tier(Some(level)),
            stored_at: t,
        }),
        crate::auto_fetch::fresh_at(unlock_tier(Some(level)), t, later),
    ensures
        probe(c.unlock_cache, spec_pair_key(team, item), later) == Some(Some(level)),
{
}

} // verus!
