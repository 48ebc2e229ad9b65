use trading_signals::explain::{AIExplainer, EXPLANATION_CONFIDENCE_PCT};
use trading_signals::price::PriceSnapshot;
use trading_signals::signal;
use trading_signals::signal::{kind_for, SignalKind};
use trading_signals::symbol::Symbol;
use trading_signals::error::SignalError;

fn snap(symbol: Symbol, price_cents: u64, change: i64) -> PriceSnapshot {
    PriceSnapshot::new(symbol, price_cents, change, 1_000).unwrap()
}

#[test]
fn five_percent_edge_is_buy() {
    let s = snap(Symbol::Eth, 300_000, 500);
    assert_eq!(signal::derive(&s).kind, SignalKind::Buy);
    assert_eq!(signal::derive(&s), signal::derive(&s));
    assert_eq!(kind_for(499), SignalKind::WeakBuy);
}

#[test]
fn threshold_table_edges() {
    assert_eq!(kind_for(1001), SignalKind::StrongBuy);
    assert_eq!(kind_for(1000), SignalKind::Buy);
    assert_eq!(kind_for(100), SignalKind::WeakBuy);
    assert_eq!(kind_for(99), SignalKind::Hold);
    assert_eq!(kind_for(0), SignalKind::Hold);
    assert_eq!(kind_for(-99), SignalKind::Hold);
    assert_eq!(kind_for(-100), SignalKind::WeakSell);
    assert_eq!(kind_for(-499), SignalKind::WeakSell);
    assert_eq!(kind_for(-500), SignalKind::Sell);
    assert_eq!(kind_for(-1000), SignalKind::Sell);
    assert_eq!(kind_for(-1001), SignalKind::StrongSell);
}

#[test]
fn opposite_changes_mirror() {
    assert_eq!(kind_for(750), SignalKind::Buy);
    assert_eq!(kind_for(-750), SignalKind::Sell);
    assert_eq!(kind_for(2000), SignalKind::StrongBuy);
    assert_eq!(kind_for(-2000), SignalKind::StrongSell);
}

#[test]
fn signal_names() {
    assert_eq!(SignalKind::StrongBuy.as_str(), "strong_buy");
    assert_eq!(SignalKind::WeakSell.as_str(), "weak_sell");
    assert_eq!(SignalKind::Hold.as_str(), "hold");
}

#[test]
fn zero_price_is_malformed() {
    assert_eq!(
        PriceSnapshot::new(Symbol::Sol, 0, 10, 5),
        Err(SignalError::UpstreamMalformed)
    );
}

#[test]
fn btc_twelve_percent_is_strong_buy_and_explained() {
    let s = snap(Symbol::Btc, 6_500_000, 1200);
    let sig = signal::derive(&s);
    assert_eq!(sig.kind, SignalKind::StrongBuy);
    let ex = AIExplainer::new(String::new()).explain(&sig);
    assert_eq!(ex.symbol, "BTC");
    assert_eq!(ex.current_signal, "strong_buy");
    assert_eq!(ex.explanation, "BTC is showing bullish momentum at $65000.00. 24h change: 12.00%");
    assert!(ex.emoji.contains("🚀"));
    assert_eq!(ex.risk_level, "Medium");
    assert_eq!(ex.vibe, "Bullish vibes");
    assert_eq!(ex.simple_advice, "🚨 Very strong trend - High risk opportunity");
    assert_eq!(ex.confidence_pct, EXPLANATION_CONFIDENCE_PCT);
    assert_eq!(ex.confidence_pct, 85);
}

#[test]
fn sell_signal_explained_with_caution() {
    let ex = AIExplainer::new("k".to_string()).explain_signal("ETH", "sell", 312_345, -720);
    assert_eq!(ex.explanation, "ETH might be overbought at $3123.45. 24h change: -7.20%");
    assert_eq!(ex.emoji, "📉");
    assert_eq!(ex.vibe, "Caution vibes");
    assert_eq!(ex.risk_level, "High");
    assert_eq!(ex.simple_advice, "⚠️ High volatility - Risk management crucial");
}

#[test]
fn hold_signal_explained_as_neutral() {
    let ex = AIExplainer::new(String::new()).explain_signal("SOL", "hold", 15_005, -50);
    assert_eq!(ex.explanation, "SOL is in consolidation phase at $150.05. 24h change: -0.50%");
    assert_eq!(ex.emoji, "⚖️");
    assert_eq!(ex.risk_level, "Low");
    assert_eq!(ex.simple_advice, "📊 Stable range - Good for swing trading");
}

#[test]
fn unknown_signal_name_is_mixed() {
    let ex = AIExplainer::new(String::new()).explain_signal("PAXG", "sideways", 250_000, 600);
    assert_eq!(ex.explanation, "PAXG at $2500.00: Market sentiment is mixed. 24h change: 6.00%");
    assert_eq!(ex.emoji, "🤔");
    assert_eq!(ex.vibe, "Mixed vibes");
    assert_eq!(ex.risk_level, "Medium");
    assert_eq!(ex.simple_advice, "🔥 Strong trend - Consider position sizing");
}

#[test]
fn sharp_decline_advice() {
    let ex = AIExplainer::new(String::new()).explain_signal("BTC", "strong_sell", 5_000_000, -1500);
    assert_eq!(ex.simple_advice, "💥 Sharp decline - Possible buying opportunity");
    assert_eq!(ex.explanation, "BTC might be overbought at $50000.00. 24h change: -15.00%");
}
