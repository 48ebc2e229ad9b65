use vstd::prelude::*;
use crate::price::PriceSnapshot;
use crate::symbol::Symbol;

verus! {

/// Above this 24h change (hundredths of a percent) a signal is strong.
pub const STRONG_BAND: i64 = 1000;

/// From this 24h change on (hundredths of a percent) a signal is a plain buy or sell.
pub const PLAIN_BAND: i64 = 500;

/// From this 24h change on (hundredths of a percent) a signal is a weak buy or sell.
pub const WEAK_BAND: i64 = 100;

/// A discrete trading signal.
#[derive(Clone, Copy, Debug, PartialEq, Eq, Structural)]
pub enum SignalKind {
    StrongBuy,
    Buy,
    WeakBuy,
    Hold,
    WeakSell,
    Sell,
    StrongSell,
}

/// The threshold table, over the 24h change in hundredths of a percent:
/// above 10% strong buy, from 5% buy, from 1% weak buy, strictly between
/// -1% and 1% hold, and the mirror image below.
pub open spec fn kind_for_change(c: int) -> SignalKind {
    if c > STRONG_BAND {
        SignalKind::StrongBuy
    } else if c >= PLAIN_BAND {
        SignalKind::Buy
    } else if c >= WEAK_BAND {
        SignalKind::WeakBuy
    } else if c > -WEAK_BAND {
        SignalKind::Hold
    } else if c > -PLAIN_BAND {
        SignalKind::WeakSell
    } else if c >= -STRONG_BAND {
        SignalKind::Sell
    } else {
        SignalKind::StrongSell
    }
}

impl SignalKind {
    /// Bullishness rank: 3 for strong buy down to -3 for strong sell.
    pub open spec fn rank(self) -> int {
        match self {
            SignalKind::StrongBuy => 3,
            SignalKind::Buy => 2,
            SignalKind::WeakBuy => 1,
            SignalKind::Hold => 0,
            SignalKind::WeakSell => -1,
            SignalKind::Sell => -2,
            SignalKind::StrongSell => -3,
        }
    }

    /// The signal of the opposite direction and the same strength.
    pub open spec fn mirror(self) -> SignalKind {
        match self {
            SignalKind::StrongBuy => SignalKind::StrongSell,
            SignalKind::Buy => SignalKind::Sell,
            SignalKind::WeakBuy => SignalKind::WeakSell,
            SignalKind::Hold => SignalKind::Hold,
            SignalKind::WeakSell => SignalKind::WeakBuy,
            SignalKind::Sell => SignalKind::Buy,
            SignalKind::StrongSell => SignalKind::StrongBuy,
        }
    }

    /// The name of the signal as it appears in responses.
    pub open spec fn name(self) -> Seq<char> {
        match self {
            SignalKind::StrongBuy => seq!['s', 't', 'r', 'o', 'n', 'g', '_', 'b', 'u', 'y'],
            SignalKind::Buy => seq!['b', 'u', 'y'],
            SignalKind::WeakBuy => seq!['w', 'e', 'a', 'k', '_', 'b', 'u', 'y'],
            SignalKind::Hold => seq!['h', 'o', 'l', 'd'],
            SignalKind::WeakSell => seq!['w', 'e', 'a', 'k', '_', 's', 'e', 'l', 'l'],
            SignalKind::Sell => seq!['s', 'e', 'l', 'l'],
            SignalKind::StrongSell => seq!['s', 't', 'r', 'o', 'n', 'g', '_', 's', 'e', 'l', 'l'],
        }
    }

    pub fn as_str(&self) -> (r: &'static str)
        ensures
            r@ == self.name(),
    {
        proof {
            reveal_strlit("strong_buy");
            reveal_strlit("buy");
            reveal_strlit("weak_buy");
            reveal_strlit("hold");
            reveal_strlit("weak_sell");
            reveal_strlit("sell");
            reveal_strlit("strong_sell");
        }
        match self {
            SignalKind::StrongBuy => "strong_buy",
            SignalKind::Buy => "buy",
            SignalKind::WeakBuy => "weak_buy",
            SignalKind::Hold => "hold",
            SignalKind::WeakSell => "weak_sell",
            SignalKind::Sell => "sell",
            SignalKind::StrongSell => "strong_sell",
        }
    }
}

/// The signal for a 24h change given in hundredths of a percent.
pub fn kind_for(change_24h_bp: i64) -> (r: SignalKind)
    ensures
        r == kind_for_change(change_24h_bp as int),
{
    if change_24h_bp > STRONG_BAND {
        SignalKind::StrongBuy
    } else if change_24h_bp >= PLAIN_BAND {
        SignalKind::Buy
    } else if change_24h_bp >= WEAK_BAND {
        SignalKind::WeakBuy
    } else if change_24h_bp > -WEAK_BAND {
        SignalKind::Hold
    } else if change_24h_bp > -PLAIN_BAND {
        SignalKind::WeakSell
    } else if change_24h_bp >= -STRONG_BAND {
        SignalKind::Sell
    } else {
        SignalKind::StrongSell
    }
}

/// A signal together with the snapshot it was derived from.
#[derive(Clone, Copy, Debug, PartialEq, Eq, Structural)]
pub struct Signal {
    pub symbol: Symbol,
    pub kind: SignalKind,
    pub based_on: PriceSnapshot,
}

/// The signal of a snapshot: a pure function of it.
pub open spec fn signal_of(s: PriceSnapshot) -> Signal {
    Signal { symbol: s.symbol, kind: kind_for_change(s.change_24h_bp as int), based_on: s }
}

/// Derives the trading signal of a snapshot from the threshold table.
pub fn derive(snapshot: &PriceSnapshot) -> (r: Signal)
    ensures
        r == signal_of(*snapshot),
{
    Signal { symbol: snapshot.symbol, kind: kind_for(snapshot.change_24h_bp), based_on: *snapshot }
}

/// Two snapshots with the same contents always give the same signal, and two
/// with the same 24h change give the same kind of signal.
pub proof fn lemma_derive_deterministic(a: PriceSnapshot, b: PriceSnapshot)
    ensures
        a == b ==> signal_of(a) == signal_of(b),
        a.change_24h_bp == b.change_24h_bp ==> signal_of(a).kind == signal_of(b).kind,
{
}

/// A change of exactly 5% is a buy, and anything from 1% up to just under 5%
/// is a weak buy: the 5% edge belongs to the buy band.
pub proof fn lemma_five_percent_edge(s: PriceSnapshot)
    ensures
        s.change_24h_bp == 500 ==> signal_of(s).kind == SignalKind::Buy,
        100 <= s.change_24h_bp < 500 ==> signal_of(s).kind == SignalKind::WeakBuy,
        500 <= s.change_24h_bp <= 1000 ==> signal_of(s).kind == SignalKind::Buy,
{
}

/// The table is symmetric: the opposite change gives the mirrored signal.
pub proof fn lemma_kind_symmetric(c: int)
    ensures
        kind_for_change(-c) == kind_for_change(c).mirror(),
{
}

/// A larger 24h change never gives a less bullish signal.
pub proof fn lemma_kind_monotonic(c1: int, c2: int)
    requires
        c1 <= c2,
    ensures
        kind_for_change(c1).rank() <= kind_for_change(c2).rank(),
{
}

} // verus!
