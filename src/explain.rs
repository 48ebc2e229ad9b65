use vstd::prelude::*;
use vstd::string::*;
use crate::signal::{Signal, SignalKind};
use crate::text::{format_hundredths, format_unsigned_hundredths, hundredths_text, str_equal};

verus! {

/// Confidence attached to every explanation, in percent.
pub const EXPLANATION_CONFIDENCE_PCT: u32 = 85;

/// A rule-based, human-readable account of a signal. The confidence is in
/// percent.
#[derive(Debug)]
pub struct SignalExplanation {
    pub symbol: String,
    pub current_signal: String,
    pub explanation: String,
    pub confidence_pct: u32,
    pub emoji: String,
    pub vibe: String,
    pub simple_advice: String,
    pub risk_level: String,
}

/// The mood that a signal name falls into.
#[derive(Clone, Copy, Debug, PartialEq, Eq, Structural)]
pub enum Tone {
    Bullish,
    Caution,
    Neutral,
    Mixed,
}

/// Buy signals read bullish, sell signals call for caution, a hold is neutral,
/// and any other name is mixed.
pub open spec fn tone_of(signal: Seq<char>) -> Tone {
    if signal == SignalKind::StrongBuy.name() || signal == SignalKind::Buy.name() || signal
        == SignalKind::WeakBuy.name() {
        Tone::Bullish
    } else if signal == SignalKind::StrongSell.name() || signal == SignalKind::Sell.name()
        || signal == SignalKind::WeakSell.name() {
        Tone::Caution
    } else if signal == SignalKind::Hold.name() {
        Tone::Neutral
    } else {
        Tone::Mixed
    }
}

/// The sentence describing the market, with price and 24h change in hundredths.
pub open spec fn explanation_text(symbol: Seq<char>, tone: Tone, price: int, change: int) -> Seq<
    char,
> {
    let p = hundredths_text(price);
    let c = hundredths_text(change);
    match tone {
        Tone::Bullish => symbol + " is showing bullish momentum at $"@ + p + ". 24h change: "@ + c
            + "%"@,
        Tone::Caution => symbol + " might be overbought at $"@ + p + ". 24h change: "@ + c + "%"@,
        Tone::Neutral => symbol + " is in consolidation phase at $"@ + p + ". 24h change: "@ + c
            + "%"@,
        Tone::Mixed => symbol + " at $"@ + p + ": Market sentiment is mixed. 24h change: "@ + c
            + "%"@,
    }
}

pub open spec fn tone_emoji(tone: Tone) -> Seq<char> {
    match tone {
        Tone::Bullish => "🚀"@,
        Tone::Caution => "📉"@,
        Tone::Neutral => "⚖️"@,
        Tone::Mixed => "🤔"@,
    }
}

pub open spec fn tone_vibe(tone: Tone) -> Seq<char> {
    match tone {
        Tone::Bullish => "Bullish vibes"@,
        Tone::Caution => "Caution vibes"@,
        Tone::Neutral => "Neutral vibes"@,
        Tone::Mixed => "Mixed vibes"@,
    }
}

pub open spec fn tone_risk(tone: Tone) -> Seq<char> {
    match tone {
        Tone::Bullish => "Medium"@,
        Tone::Caution => "High"@,
        Tone::Neutral => "Low"@,
        Tone::Mixed => "Medium"@,
    }
}

/// Advice by magnitude of the 24h change (hundredths of a percent): beyond
/// 10% either way, beyond 5% either way, or a stable range.
pub open spec fn advice_for(change: int) -> Seq<char> {
    if change > 1000 {
        "🚨 Very strong trend - High risk opportunity"@
    } else if change > 500 {
        "🔥 Strong trend - Consider position sizing"@
    } else if change < -1000 {
        "💥 Sharp decline - Possible buying opportunity"@
    } else if change < -500 {
        "⚠️ High volatility - Risk management crucial"@
    } else {
        "📊 Stable range - Good for swing trading"@
    }
}

/// Classifies a signal name.
pub fn tone(signal: &str) -> (r: Tone)
    ensures
        r == tone_of(signal@),
{
    if str_equal(signal, SignalKind::StrongBuy.as_str()) || str_equal(
        signal,
        SignalKind::Buy.as_str(),
    ) || str_equal(signal, SignalKind::WeakBuy.as_str()) {
        Tone::Bullish
    } else if str_equal(signal, SignalKind::StrongSell.as_str()) || str_equal(
        signal,
        SignalKind::Sell.as_str(),
    ) || str_equal(signal, SignalKind::WeakSell.as_str()) {
        Tone::Caution
    } else if str_equal(signal, SignalKind::Hold.as_str()) {
        Tone::Neutral
    } else {
        Tone::Mixed
    }
}

fn advice(change: i64) -> (r: &'static str)
    ensures
        r@ == advice_for(change as int),
{
    if change > 1000 {
        "🚨 Very strong trend - High risk opportunity"
    } else if change > 500 {
        "🔥 Strong trend - Consider position sizing"
    } else if change < -1000 {
        "💥 Sharp decline - Possible buying opportunity"
    } else if change < -500 {
        "⚠️ High volatility - Risk management crucial"
    } else {
        "📊 Stable range - Good for swing trading"
    }
}

fn explanation(symbol: &str, t: Tone, price_cents: u64, change_24h_bp: i64) -> (r: String)
    ensures
        r@ == explanation_text(symbol@, t, price_cents as int, change_24h_bp as int),
{
    let p = format_unsigned_hundredths(price_cents);
    let c = format_hundredths(change_24h_bp);
    let mut out = String::from_str(symbol);
    match t {
        Tone::Bullish => {
            out.append(" is showing bullish momentum at $");
            out.append(p.as_str());
            out.append(". 24h change: ");
        },
        Tone::Caution => {
            out.append(" might be overbought at $");
            out.append(p.as_str());
            out.append(". 24h change: ");
        },
        Tone::Neutral => {
            out.append(" is in consolidation phase at $");
            out.append(p.as_str());
            out.append(". 24h change: ");
        },
        Tone::Mixed => {
            out.append(" at $");
            out.append(p.as_str());
            out.append(": Market sentiment is mixed. 24h change: ");
        },
    }
    out.append(c.as_str());
    out.append("%");
    proof {
        assert(out@ =~= explanation_text(symbol@, t, price_cents as int, change_24h_bp as int));
    }
    out
}

/// Produces explanations from a fixed rule table; no model is consulted.
pub struct AIExplainer {
    api_key: String,
}

impl AIExplainer {
    /// An explainer holding the configured API key, which it never uses.
    pub fn new(api_key: String) -> (r: Self)
        ensures
            r.api_key() == api_key@,
    {
        Self { api_key }
    }

    pub closed spec fn api_key(&self) -> Seq<char> {
        self.api_key@
    }

    /// Explains a signal given by name, for a price in hundredths and a 24h
    /// change in hundredths of a percent.
    pub fn explain_signal(&self, symbol: &str, signal: &str, price_cents: u64, change_24h_bp: i64) -> (r:
        SignalExplanation)
        ensures
            r.symbol@ == symbol@,
            r.current_signal@ == signal@,
            r.explanation@ == explanation_text(
                symbol@,
                tone_of(signal@),
                price_cents as int,
                change_24h_bp as int,
            ),
            r.confidence_pct == EXPLANATION_CONFIDENCE_PCT,
            r.emoji@ == tone_emoji(tone_of(signal@)),
            r.vibe@ == tone_vibe(tone_of(signal@)),
            r.simple_advice@ == advice_for(change_24h_bp as int),
            r.risk_level@ == tone_risk(tone_of(signal@)),
    {
        let t = tone(signal);
        let (emoji, vibe, risk_level) = match t {
            Tone::Bullish => ("🚀", "Bullish vibes", "Medium"),
            Tone::Caution => ("📉", "Caution vibes", "High"),
            Tone::Neutral => ("⚖️", "Neutral vibes", "Low"),
            Tone::Mixed => ("🤔", "Mixed vibes", "Medium"),
        };
        SignalExplanation {
            symbol: String::from_str(symbol),
            current_signal: String::from_str(signal),
            explanation: explanation(symbol, t, price_cents, change_24h_bp),
            confidence_pct: EXPLANATION_CONFIDENCE_PCT,
            emoji: String::from_str(emoji),
            vibe: String::from_str(vibe),
            simple_advice: String::from_str(advice(change_24h_bp)),
            risk_level: String::from_str(risk_level),
        }
    }

    /// Explains a derived signal, from the snapshot it was derived from.
    pub fn explain(&self, sig: &Signal) -> (r: SignalExplanation)
        ensures
            r.symbol@ == sig.symbol.name(),
            r.current_signal@ == sig.kind.name(),
            r.explanation@ == explanation_text(
                sig.symbol.name(),
                tone_of(sig.kind.name()),
                sig.based_on.price_cents as int,
                sig.based_on.change_24h_bp as int,
            ),
            r.confidence_pct == EXPLANATION_CONFIDENCE_PCT,
            r.emoji@ == tone_emoji(tone_of(sig.kind.name())),
            r.vibe@ == tone_vibe(tone_of(sig.kind.name())),
            r.simple_advice@ == advice_for(sig.based_on.change_24h_bp as int),
            r.risk_level@ == tone_risk(tone_of(sig.kind.name())),
    {
        self.explain_signal(
            sig.symbol.as_str(),
            sig.kind.as_str(),
            sig.based_on.price_cents,
            sig.based_on.change_24h_bp,
        )
    }
}

/// Buy signals are explained as bullish with medium risk, sell signals as a
/// call for caution with high risk, and a hold as neutral with low risk.
pub proof fn lemma_tone_of_kind(k: SignalKind)
    ensures
        k.rank() > 0 ==> tone_of(k.name()) == Tone::Bullish && tone_risk(tone_of(k.name()))
            == "Medium"@ && tone_emoji(tone_of(k.name())) == "🚀"@,
        k.rank() < 0 ==> tone_of(k.name()) == Tone::Caution && tone_risk(tone_of(k.name()))
            == "High"@,
        k.rank() == 0 ==> tone_of(k.name()) == Tone::Neutral && tone_risk(tone_of(k.name()))
            == "Low"@,
{
    assert(SignalKind::StrongBuy.name() != SignalKind::Buy.name());
    assert(SignalKind::StrongBuy.name() != SignalKind::WeakBuy.name());
    assert(SignalKind::Buy.name() != SignalKind::WeakBuy.name());
    assert(SignalKind::StrongSell.name() != SignalKind::Sell.name());
    assert(SignalKind::StrongSell.name().len() != SignalKind::StrongBuy.name().len());
    assert(SignalKind::Sell.name()[0] != SignalKind::Buy.name()[0]);
    assert(SignalKind::Sell.name()[0] != SignalKind::WeakBuy.name()[0]);
    assert(SignalKind::Sell.name() != SignalKind::StrongBuy.name());
    assert(SignalKind::WeakSell.name() != SignalKind::WeakBuy.name());
    assert(SignalKind::WeakSell.name() != SignalKind::StrongBuy.name());
    assert(SignalKind::WeakSell.name() != SignalKind::Buy.name());
    assert(SignalKind::Hold.name() != SignalKind::StrongBuy.name());
    assert(SignalKind::Hold.name() != SignalKind::Buy.name());
    assert(SignalKind::Hold.name() != SignalKind::WeakBuy.name());
    assert(SignalKind::Hold.name() != SignalKind::StrongSell.name());
    assert(SignalKind::Hold.name() != SignalKind::Sell.name());
    assert(SignalKind::Hold.name() != SignalKind::WeakSell.name());
}

} // verus!
