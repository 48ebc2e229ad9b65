use trading_signals::cache::{Lookup, PriceBatch, PriceCache, Quote, Served};
use trading_signals::error::SignalError;
use trading_signals::symbol::Symbol;

const TTL: u64 = 60_000;

fn quote(price_cents: u64, change: i64) -> Quote {
    Quote { price_cents, change_24h_bp: change }
}

#[test]
fn second_read_within_ttl_does_not_fetch() {
    let mut c = PriceCache::new(TTL);
    assert_eq!(c.begin_refresh(Symbol::Btc, 1_000), Lookup::Fetch);
    // a concurrent reader waits for the refresh under way
    assert_eq!(c.begin_refresh(Symbol::Btc, 1_500), Lookup::Wait);
    let served = c.finish_refresh(Symbol::Btc, Ok(quote(6_500_000, 1200)), 2_000).unwrap();
    assert!(!served.stale);
    assert_eq!(served.snapshot.price_cents, 6_500_000);
    assert_eq!(served.snapshot.fetched_at, 2_000);
    match c.begin_refresh(Symbol::Btc, 2_000 + TTL - 1) {
        Lookup::Hit(s) => assert_eq!(s, served.snapshot),
        other => panic!("expected a hit, got {:?}", other),
    }
    assert_eq!(c.begin_refresh(Symbol::Btc, 2_000 + TTL), Lookup::Fetch);
    let st = c.stats(2_000 + TTL);
    assert_eq!(st.hits, 1);
    assert_eq!(st.misses, 2);
}

#[test]
fn other_symbols_not_blocked_by_a_refresh() {
    let mut c = PriceCache::new(TTL);
    assert_eq!(c.begin_refresh(Symbol::Btc, 0), Lookup::Fetch);
    assert_eq!(c.begin_refresh(Symbol::Eth, 0), Lookup::Fetch);
}

#[test]
fn failure_serves_stale_entry() {
    let mut c = PriceCache::new(TTL);
    c.begin_refresh(Symbol::Sol, 0);
    let first = c.finish_refresh(Symbol::Sol, Ok(quote(15_000, 300)), 0).unwrap();
    assert_eq!(c.begin_refresh(Symbol::Sol, TTL + 1), Lookup::Fetch);
    let served = c.finish_refresh(Symbol::Sol, Err(SignalError::UpstreamUnavailable), TTL + 1);
    assert_eq!(served, Ok(Served { snapshot: first.snapshot, stale: true }));
    // the flag is down again, so the next read fetches
    assert_eq!(c.begin_refresh(Symbol::Sol, TTL + 2), Lookup::Fetch);
}

#[test]
fn failure_without_entry_is_an_error() {
    let mut c = PriceCache::new(TTL);
    c.begin_refresh(Symbol::Paxg, 0);
    assert_eq!(
        c.finish_refresh(Symbol::Paxg, Err(SignalError::UpstreamUnavailable), 0),
        Err(SignalError::UpstreamUnavailable)
    );
    c.begin_refresh(Symbol::Paxg, 0);
    assert_eq!(
        c.finish_refresh(Symbol::Paxg, Ok(quote(0, 10)), 0),
        Err(SignalError::UpstreamMalformed)
    );
    assert_eq!(c.stats(0).entry_count, 0);
}

#[test]
fn clear_forces_fresh_fetch_for_every_symbol() {
    let mut c = PriceCache::new(TTL);
    let syms = [Symbol::Btc, Symbol::Eth, Symbol::Sol, Symbol::Paxg];
    for s in syms {
        assert_eq!(c.begin_refresh(s, 100), Lookup::Fetch);
        c.finish_refresh(s, Ok(quote(1_000, 0)), 100).unwrap();
    }
    assert_eq!(c.stats(150).entry_count, 4);
    c.clear();
    assert_eq!(c.stats(200).entry_count, 0);
    assert_eq!(c.stats(200).ages_ms, vec![None, None, None, None]);
    for s in syms {
        assert_eq!(c.begin_refresh(s, 200), Lookup::Fetch);
        c.finish_refresh(s, Ok(quote(2_000, 0)), 200).unwrap();
    }
    let st = c.stats(200);
    assert_eq!(st.entry_count, 4);
    assert_eq!(st.ages_ms, vec![Some(0), Some(0), Some(0), Some(0)]);
    assert_eq!(st.ttl_ms, TTL);
}

#[test]
fn ages_grow_with_time() {
    let mut c = PriceCache::new(TTL);
    c.begin_refresh(Symbol::Eth, 1_000);
    c.finish_refresh(Symbol::Eth, Ok(quote(300_000, -50)), 1_000).unwrap();
    let st = c.stats(1_750);
    assert_eq!(st.ages_ms, vec![None, Some(750), None, None]);
    assert_eq!(st.entry_count, 1);
}

#[test]
fn batch_keeps_successes_beside_failures() {
    let mut c = PriceCache::new(TTL);
    let mut batch = PriceBatch::new();
    c.begin_refresh(Symbol::Btc, 0);
    batch.record(Symbol::Btc, c.finish_refresh(Symbol::Btc, Ok(quote(100, 0)), 0));
    c.begin_refresh(Symbol::Eth, 0);
    batch.record(
        Symbol::Eth,
        c.finish_refresh(Symbol::Eth, Err(SignalError::UpstreamUnavailable), 0),
    );
    assert_eq!(batch.prices.len(), 1);
    assert_eq!(batch.prices[0].snapshot.symbol, Symbol::Btc);
    assert_eq!(batch.failures, vec![(Symbol::Eth, SignalError::UpstreamUnavailable)]);
}
