use vstd::prelude::*;
use crate::error::SignalError;
use crate::price::PriceSnapshot;
use crate::symbol::{Symbol, SYMBOL_COUNT, symbol_at};

verus! {

/// A quote as the price source reports it, in fixed point: the price in
/// hundredths, the 24h change in hundredths of a percent.
#[derive(Clone, Copy, Debug, PartialEq, Eq, Structural)]
pub struct Quote {
    pub price_cents: u64,
    pub change_24h_bp: i64,
}

/// A cached snapshot and the time (milliseconds) from which it no longer
/// counts as fresh.
#[derive(Clone, Copy, Debug, PartialEq, Eq, Structural)]
pub struct CacheEntry {
    pub snapshot: PriceSnapshot,
    pub expires_at: u64,
}

/// What a read of the cache asks of its caller.
#[derive(Clone, Copy, Debug, PartialEq, Eq, Structural)]
pub enum Lookup {
    /// The cached snapshot is fresh: use it.
    Hit(PriceSnapshot),
    /// No fresh snapshot and no refresh under way: the caller fetches from the
    /// price source and hands the outcome to `finish_refresh`.
    Fetch,
    /// Another caller is fetching this symbol: wait for it, then read again.
    Wait,
}

/// A snapshot handed out by the cache; `stale` marks an expired one served
/// because the price source failed.
#[derive(Clone, Copy, Debug, PartialEq, Eq, Structural)]
pub struct Served {
    pub snapshot: PriceSnapshot,
    pub stale: bool,
}

/// Adds without passing the largest `u64`.
pub open spec fn sat_add(a: u64, b: u64) -> u64 {
    if a as int + b as int > u64::MAX as int {
        u64::MAX
    } else {
        (a + b) as u64
    }
}

/// Adds one without passing the largest `u64`.
pub open spec fn sat_inc(a: u64) -> u64 {
    if a == u64::MAX {
        a
    } else {
        (a + 1) as u64
    }
}

/// Number of occupied slots in a sequence of cache slots.
pub open spec fn count_entries(s: Seq<Option<CacheEntry>>) -> nat
    decreases s.len(),
{
    if s.len() == 0 {
        0
    } else {
        count_entries(s.drop_last()) + if s.last() is Some { 1nat } else { 0nat }
    }
}

/// The abstract state of the price cache: one slot and one in-flight flag per
/// tracked symbol, the time to live, and the hit and miss counters.
pub struct CacheModel {
    pub entries: Seq<Option<CacheEntry>>,
    pub in_flight: Seq<bool>,
    pub ttl_ms: u64,
    pub hits: u64,
    pub misses: u64,
}

impl CacheModel {
    /// One slot per symbol; each entry holds a valid snapshot of its own symbol.
    pub open spec fn wf(self) -> bool {
        &&& self.entries.len() == SYMBOL_COUNT
        &&& self.in_flight.len() == SYMBOL_COUNT
        &&& forall|i: int|
            0 <= i < SYMBOL_COUNT && (#[trigger] self.entries[i]) is Some ==> {
                &&& self.entries[i].unwrap().snapshot.symbol == symbol_at(i as nat)
                &&& self.entries[i].unwrap().snapshot.valid()
            }
    }

    pub open spec fn entry(self, sym: Symbol) -> Option<CacheEntry> {
        self.entries[sym.index_spec() as int]
    }

    pub open spec fn refreshing(self, sym: Symbol) -> bool {
        self.in_flight[sym.index_spec() as int]
    }

    /// The cached snapshot of `sym` if it is still fresh at `now`.
    pub open spec fn fresh(self, sym: Symbol, now: u64) -> Option<PriceSnapshot> {
        match self.entry(sym) {
            Some(e) => if now < e.expires_at {
                Some(e.snapshot)
            } else {
                None
            },
            None => None,
        }
    }

    /// What a read of `sym` at `now` answers.
    pub open spec fn lookup(self, sym: Symbol, now: u64) -> Lookup {
        match self.fresh(sym, now) {
            Some(s) => Lookup::Hit(s),
            None => if self.refreshing(sym) {
                Lookup::Wait
            } else {
                Lookup::Fetch
            },
        }
    }

    /// The state after a read of `sym` at `now`: a hit is counted; a fetch is
    /// counted as a miss and marks the symbol as being refreshed.
    pub open spec fn after_lookup(self, sym: Symbol, now: u64) -> CacheModel {
        match self.lookup(sym, now) {
            Lookup::Hit(_) => CacheModel { hits: sat_inc(self.hits), ..self },
            Lookup::Fetch => CacheModel {
                in_flight: self.in_flight.update(sym.index_spec() as int, true),
                misses: sat_inc(self.misses),
                ..self
            },
            Lookup::Wait => self,
        }
    }

    /// The snapshot that a successful quote fetched at `now` becomes, if the
    /// quote is valid.
    pub open spec fn quote_snapshot(sym: Symbol, q: Quote, now: u64) -> PriceSnapshot {
        PriceSnapshot {
            symbol: sym,
            price_cents: q.price_cents,
            change_24h_bp: q.change_24h_bp,
            fetched_at: now,
        }
    }

    /// The outcome of a fetch once an invalid quote is counted as malformed.
    pub open spec fn checked(outcome: Result<Quote, SignalError>) -> Result<Quote, SignalError> {
        match outcome {
            Ok(q) => if q.price_cents > 0 {
                Ok(q)
            } else {
                Err(SignalError::UpstreamMalformed)
            },
            Err(e) => Err(e),
        }
    }

    /// What the end of a refresh of `sym` at `now` returns: the new snapshot,
    /// or on failure the old one flagged stale, or the failure when there is
    /// no old one.
    pub open spec fn finish_result(self, sym: Symbol, outcome: Result<Quote, SignalError>, now: u64) -> Result<Served, SignalError> {
        match Self::checked(outcome) {
            Ok(q) => Ok(Served { snapshot: Self::quote_snapshot(sym, q, now), stale: false }),
            Err(e) => match self.entry(sym) {
                Some(old) => Ok(Served { snapshot: old.snapshot, stale: true }),
                None => Err(e),
            },
        }
    }

    /// The state after the end of a refresh: the flag is down and a valid
    /// quote replaces the entry with a fresh time to live.
    pub open spec fn after_finish(self, sym: Symbol, outcome: Result<Quote, SignalError>, now: u64) -> CacheModel {
        let i = sym.index_spec() as int;
        let flags = self.in_flight.update(i, false);
        match Self::checked(outcome) {
            Ok(q) => CacheModel {
                entries: self.entries.update(
                    i,
                    Some(
                        CacheEntry {
                            snapshot: Self::quote_snapshot(sym, q, now),
                            expires_at: sat_add(now, self.ttl_ms),
                        },
                    ),
                ),
                in_flight: flags,
                ..self
            },
            Err(_) => CacheModel { in_flight: flags, ..self },
        }
    }

    /// The state after every entry is dropped.
    pub open spec fn cleared(self) -> CacheModel {
        CacheModel { entries: Seq::new(SYMBOL_COUNT as nat, |i: int| None), ..self }
    }

    /// Milliseconds since the entry of `sym` was fetched, if there is one.
    pub open spec fn age(self, sym: Symbol, now: u64) -> Option<u64> {
        match self.entry(sym) {
            Some(e) => Some(
                if now >= e.snapshot.fetched_at {
                    (now - e.snapshot.fetched_at) as u64
                } else {
                    0u64
                },
            ),
            None => None,
        }
    }
}

/// Read-only figures about the cache.
#[derive(Debug)]
pub struct CacheStats {
    pub entry_count: usize,
    /// Age in milliseconds of each symbol's entry, in the fixed symbol order.
    pub ages_ms: Vec<Option<u64>>,
    pub hits: u64,
    pub misses: u64,
    pub ttl_ms: u64,
}

/// The price cache: at most one entry per tracked symbol, each fresh for a
/// fixed time to live, with at most one refresh per symbol under way.
pub struct PriceCache {
    entries: Vec<Option<CacheEntry>>,
    in_flight: Vec<bool>,
    ttl_ms: u64,
    hits: u64,
    misses: u64,
}

impl View for PriceCache {
    type V = CacheModel;

    closed spec fn view(&self) -> CacheModel {
        CacheModel {
            entries: self.entries@,
            in_flight: self.in_flight@,
            ttl_ms: self.ttl_ms,
            hits: self.hits,
            misses: self.misses,
        }
    }
}

impl PriceCache {
    /// An empty cache whose entries stay fresh for `ttl_ms` milliseconds.
    pub fn new(ttl_ms: u64) -> (r: PriceCache)
        ensures
            r@.wf(),
            r@.ttl_ms == ttl_ms,
            r@.hits == 0,
            r@.misses == 0,
            forall|s: Symbol| #[trigger] r@.entry(s) is None && !r@.refreshing(s),
    {
        let r = PriceCache {
            entries: vec![None, None, None, None],
            in_flight: vec![false, false, false, false],
            ttl_ms,
            hits: 0,
            misses: 0,
        };
        proof {
            assert forall|s: Symbol| #[trigger] r@.entry(s) is None && !r@.refreshing(s) by {
                assert(s.index_spec() < 4);
            }
        }
        r
    }

    pub fn ttl_ms(&self) -> (r: u64)
        ensures
            r == self@.ttl_ms,
    {
        self.ttl_ms
    }

    /// Reads `sym` at `now`: a fresh entry is a hit; otherwise, unless a
    /// refresh is already under way (then the caller waits), the symbol is
    /// marked as being refreshed and the caller is told to fetch.
    pub fn begin_refresh(&mut self, sym: Symbol, now: u64) -> (r: Lookup)
        requires
            old(self)@.wf(),
        ensures
            r == old(self)@.lookup(sym, now),
            final(self)@ == old(self)@.after_lookup(sym, now),
            final(self)@.wf(),
    {
        let i = sym.index();
        let fresh: Option<PriceSnapshot> = match &self.entries[i] {
            Some(e) => if now < e.expires_at {
                Some(e.snapshot)
            } else {
                None
            },
            None => None,
        };
        match fresh {
            Some(s) => {
                if self.hits < u64::MAX {
                    self.hits = self.hits + 1;
                }
                Lookup::Hit(s)
            },
            None => {
                if self.in_flight[i] {
                    Lookup::Wait
                } else {
                    self.in_flight.set(i, true);
                    if self.misses < u64::MAX {
                        self.misses = self.misses + 1;
                    }
                    Lookup::Fetch
                }
            },
        }
    }

    /// Ends a refresh of `sym` with what the price source answered at `now`.
    /// A valid quote becomes the new entry; on failure an old entry is served
    /// flagged stale, and without one the failure is returned.
    pub fn finish_refresh(&mut self, sym: Symbol, outcome: Result<Quote, SignalError>, now: u64) -> (r:
        Result<Served, SignalError>)
        requires
            old(self)@.wf(),
        ensures
            r == old(self)@.finish_result(sym, outcome, now),
            final(self)@ == old(self)@.after_finish(sym, outcome, now),
            final(self)@.wf(),
    {
        let i = sym.index();
        self.in_flight.set(i, false);
        let checked: Result<Quote, SignalError> = match outcome {
            Ok(q) => if q.price_cents > 0 {
                Ok(q)
            } else {
                Err(SignalError::UpstreamMalformed)
            },
            Err(e) => Err(e),
        };
        match checked {
            Ok(q) => {
                let snapshot = PriceSnapshot {
                    symbol: sym,
                    price_cents: q.price_cents,
                    change_24h_bp: q.change_24h_bp,
                    fetched_at: now,
                };
                let expires_at = now.saturating_add(self.ttl_ms);
                self.entries.set(i, Some(CacheEntry { snapshot, expires_at }));
                proof {
                    assert(self@ =~= old(self)@.after_finish(sym, outcome, now));
                }
                Ok(Served { snapshot, stale: false })
            },
            Err(e) => {
                proof {
                    assert(self@ =~= old(self)@.after_finish(sym, outcome, now));
                }
                match &self.entries[i] {
                    Some(old_entry) => Ok(Served { snapshot: old_entry.snapshot, stale: true }),
                    None => Err(e),
                }
            },
        }
    }

    /// Drops every entry at once; refreshes under way and counters are kept.
    pub fn clear(&mut self)
        requires
            old(self)@.wf(),
        ensures
            final(self)@ == old(self)@.cleared(),
            final(self)@.wf(),
    {
        self.entries = vec![None, None, None, None];
        proof {
            assert(self@.entries =~= old(self)@.cleared().entries);
            assert(self@ =~= old(self)@.cleared());
        }
    }
}

impl PriceCache {
    /// Figures about the cache at `now`; fetches nothing and changes nothing.
    pub fn stats(&self, now: u64) -> (r: CacheStats)
        requires
            self@.wf(),
        ensures
            r.entry_count == count_entries(self@.entries),
            r.ages_ms@.len() == SYMBOL_COUNT,
            forall|i: int|
                0 <= i < SYMBOL_COUNT ==> #[trigger] r.ages_ms@[i] == self@.age(symbol_at(i as nat), now),
            r.hits == self@.hits,
            r.misses == self@.misses,
            r.ttl_ms == self@.ttl_ms,
    {
        let mut ages: Vec<Option<u64>> = Vec::new();
        let mut count: usize = 0;
        let mut i: usize = 0;
        while i < SYMBOL_COUNT
            invariant
                self@.wf(),
                i <= SYMBOL_COUNT,
                ages@.len() == i,
                count == count_entries(self@.entries.take(i as int)),
                count <= i,
                forall|j: int| 0 <= j < i ==> #[trigger] ages@[j] == self@.age(symbol_at(j as nat), now),
            decreases SYMBOL_COUNT - i,
        {
            let sym = Symbol::from_index(i);
            let age: Option<u64> = match &self.entries[i] {
                Some(e) => Some(
                    if now >= e.snapshot.fetched_at {
                        now - e.snapshot.fetched_at
                    } else {
                        0
                    },
                ),
                None => None,
            };
            proof {
                assert(self@.entries.take(i as int + 1).drop_last() =~= self@.entries.take(i as int));
            }
            if self.entries[i].is_some() {
                count = count + 1;
            }
            ages.push(age);
            i = i + 1;
        }
        proof {
            assert(self@.entries.take(SYMBOL_COUNT as int) =~= self@.entries);
        }
        CacheStats { entry_count: count, ages_ms: ages, hits: self.hits, misses: self.misses, ttl_ms: self.ttl_ms }
    }
}

/// The outcome of refreshing every tracked symbol: the snapshots that could
/// be served and, apart, the symbols that failed with their error.
#[derive(Debug)]
pub struct PriceBatch {
    pub prices: Vec<Served>,
    pub failures: Vec<(Symbol, SignalError)>,
}

impl PriceBatch {
    pub fn new() -> (r: PriceBatch)
        ensures
            r.prices@.len() == 0,
            r.failures@.len() == 0,
    {
        PriceBatch { prices: Vec::new(), failures: Vec::new() }
    }

    /// Adds the outcome for one symbol; a failure is kept apart and never
    /// removes what other symbols gave.
    pub fn record(&mut self, sym: Symbol, outcome: Result<Served, SignalError>)
        ensures
            outcome matches Ok(s) ==> final(self).prices@ == old(self).prices@.push(s)
                && final(self).failures@ == old(self).failures@,
            outcome matches Err(e) ==> final(self).failures@ == old(self).failures@.push((sym, e))
                && final(self).prices@ == old(self).prices@,
    {
        match outcome {
            Ok(s) => self.prices.push(s),
            Err(e) => self.failures.push((sym, e)),
        }
    }
}

/// A read that starts a fetch, followed by a second read of the same symbol
/// less than the time to live later, never starts a second fetch: before the
/// first fetch ends the second read waits, and after it succeeds the second
/// read is a hit on the fetched snapshot.
pub proof fn lemma_one_fetch_within_ttl(m: CacheModel, sym: Symbol, q: Quote, t0: u64, t1: u64)
    requires
        m.wf(),
        m.lookup(sym, t0) == Lookup::Fetch,
        q.price_cents > 0,
        t0 <= t1,
        t1 < sat_add(t0, m.ttl_ms),
    ensures
        m.after_lookup(sym, t0).lookup(sym, t1) == Lookup::Wait,
        m.after_lookup(sym, t0).after_finish(sym, Ok(q), t0).lookup(sym, t1) == Lookup::Hit(
            CacheModel::quote_snapshot(sym, q, t0),
        ),
{
    let m1 = m.after_lookup(sym, t0);
    assert(m1.entry(sym) == m.entry(sym));
    assert(m.fresh(sym, t0) is None);
    if let Some(e) = m.entry(sym) {
        assert(t0 >= e.expires_at);
    }
}

/// Right after a clear every symbol that is not being refreshed must be
/// fetched again, and once that fetch succeeds at `now` its age is zero.
pub proof fn lemma_clear_forces_fetch(m: CacheModel, sym: Symbol, q: Quote, now: u64)
    requires
        m.wf(),
        !m.refreshing(sym),
        q.price_cents > 0,
    ensures
        m.cleared().wf(),
        m.cleared().lookup(sym, now) == Lookup::Fetch,
        m.cleared().after_lookup(sym, now).after_finish(sym, Ok(q), now).age(sym, now) == Some(0u64),
        count_entries(m.cleared().entries) == 0,
{
    let c = m.cleared();
    assert(c.entry(sym) is None);
    lemma_count_none(c.entries);
}

proof fn lemma_count_none(s: Seq<Option<CacheEntry>>)
    requires
        forall|i: int| 0 <= i < s.len() ==> s[i] is None,
    ensures
        count_entries(s) == 0,
    decreases s.len(),
{
    if s.len() > 0 {
        lemma_count_none(s.drop_last());
    }
}

} // verus!
