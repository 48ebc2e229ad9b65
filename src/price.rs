use vstd::prelude::*;
use crate::error::SignalError;
use crate::symbol::Symbol;

verus! {

/// A quote for one symbol at one moment. Amounts are fixed-point: the price in
/// hundredths of the quote currency, the 24h change in hundredths of a percent
/// (`512` is 5.12%), the time in milliseconds.
#[derive(Clone, Copy, Debug, PartialEq, Eq, Structural)]
pub struct PriceSnapshot {
    pub symbol: Symbol,
    pub price_cents: u64,
    pub change_24h_bp: i64,
    pub fetched_at: u64,
}

impl PriceSnapshot {
    /// A snapshot is valid when its price is positive.
    pub open spec fn valid(self) -> bool {
        self.price_cents > 0
    }

    /// Builds a snapshot from a quote; a price that is not positive is a
    /// malformed quote.
    pub fn new(symbol: Symbol, price_cents: u64, change_24h_bp: i64, fetched_at: u64) -> (r: Result<
        PriceSnapshot,
        SignalError,
    >)
        ensures
            price_cents > 0 ==> r == Ok::<PriceSnapshot, SignalError>(
                PriceSnapshot { symbol, price_cents, change_24h_bp, fetched_at },
            ),
            price_cents == 0 ==> r == Err::<PriceSnapshot, SignalError>(
                SignalError::UpstreamMalformed,
            ),
    {
        if price_cents == 0 {
            Err(SignalError::UpstreamMalformed)
        } else {
            Ok(PriceSnapshot { symbol, price_cents, change_24h_bp, fetched_at })
        }
    }
}

} // verus!
