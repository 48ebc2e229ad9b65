use trading_signals::error::SignalError;
use trading_signals::source::request_url;
use trading_signals::symbol::{all_symbols, Symbol};
use trading_signals::text::{equals_ignore_case, format_hundredths, format_unsigned_hundredths, str_equal};

#[test]
fn parse_ignores_case() {
    assert_eq!(Symbol::parse("btc"), Ok(Symbol::Btc));
    assert_eq!(Symbol::parse("Eth"), Ok(Symbol::Eth));
    assert_eq!(Symbol::parse("SOL"), Ok(Symbol::Sol));
    assert_eq!(Symbol::parse("paxg"), Ok(Symbol::Paxg));
}

#[test]
fn parse_rejects_untracked() {
    assert_eq!(Symbol::parse("DOGE"), Err(SignalError::UnknownSymbol));
    assert_eq!(Symbol::parse(""), Err(SignalError::UnknownSymbol));
    assert_eq!(Symbol::parse("BTCX"), Err(SignalError::UnknownSymbol));
}

#[test]
fn symbols_in_fixed_order() {
    let all = all_symbols();
    assert_eq!(all, vec![Symbol::Btc, Symbol::Eth, Symbol::Sol, Symbol::Paxg]);
    for (i, s) in all.iter().enumerate() {
        assert_eq!(s.index(), i);
        assert_eq!(Symbol::from_index(i), *s);
    }
    assert_eq!(Symbol::Paxg.as_str(), "PAXG");
}

#[test]
fn hundredths_are_written_with_two_decimals() {
    assert_eq!(format_hundredths(0), "0.00");
    assert_eq!(format_hundredths(5), "0.05");
    assert_eq!(format_hundredths(-150), "-1.50");
    assert_eq!(format_hundredths(123456), "1234.56");
    assert_eq!(format_hundredths(i64::MIN), "-92233720368547758.08");
    assert_eq!(format_unsigned_hundredths(6_500_000), "65000.00");
    assert_eq!(format_unsigned_hundredths(u64::MAX), "184467440737095516.15");
}

#[test]
fn text_comparisons() {
    assert!(str_equal("buy", "buy"));
    assert!(!str_equal("buy", "Buy"));
    assert!(equals_ignore_case("eth", "ETH"));
    assert!(!equals_ignore_case("eth", "ETC"));
}

#[test]
fn request_names_every_coin() {
    assert_eq!(
        request_url(&all_symbols()),
        "https://api.coingecko.com/api/v3/simple/price?ids=bitcoin,ethereum,solana,pax-gold&vs_currencies=usd&include_24hr_change=true"
    );
    assert_eq!(
        request_url(&vec![Symbol::Sol]),
        "https://api.coingecko.com/api/v3/simple/price?ids=solana&vs_currencies=usd&include_24hr_change=true"
    );
}

#[test]
fn error_kind_names() {
    assert_eq!(SignalError::UnknownSymbol.kind_name(), "UnknownSymbol");
    assert_eq!(SignalError::UpstreamUnavailable.kind_name(), "UpstreamUnavailable");
    assert_eq!(SignalError::NotFound.kind_name(), "NotFound");
}
