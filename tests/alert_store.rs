use trading_signals::alerts::AlertStore;

#[test]
fn webhook_alert_listed_for_its_symbol() {
    let mut store = AlertStore::new(100);
    let payload = r#"{"symbol":"ETH","action":"sell"}"#.to_string();
    store.append("ETH".to_string(), payload.clone(), 10);
    let listed = store.list_by_symbol("ETH", 100);
    assert_eq!(listed.len(), 1);
    assert_eq!(listed[0].raw_payload, payload);
    assert_eq!(listed[0].symbol, "ETH");
}

#[test]
fn untracked_symbol_lists_nothing() {
    let mut store = AlertStore::new(100);
    store.append("BTC".to_string(), "a".to_string(), 1);
    assert!(store.list_by_symbol("DOGE", 100).is_empty());
}

#[test]
fn recent_lists_all_newest_first() {
    let mut store = AlertStore::new(100);
    let n: usize = 10;
    for i in 0..n {
        store.append(format!("S{}", i % 3), format!("p{}", i), 1_000 + i as u64);
    }
    let recent = store.list_recent(n);
    assert_eq!(recent.len(), n);
    for (k, a) in recent.iter().enumerate() {
        assert_eq!(a.raw_payload, format!("p{}", n - 1 - k));
    }
    for w in recent.windows(2) {
        assert!(w[0].id > w[1].id);
        assert!(w[0].received_at >= w[1].received_at);
    }
    assert_eq!(store.list_recent(3).len(), 3);
    assert_eq!(store.list_recent(3)[0].raw_payload, "p9");
}

#[test]
fn receipt_times_never_go_back() {
    let mut store = AlertStore::new(10);
    store.append("BTC".to_string(), "a".to_string(), 500);
    let b = store.append("BTC".to_string(), "b".to_string(), 400);
    assert_eq!(b.received_at, 500);
    assert_eq!(b.id, 1);
}

#[test]
fn by_symbol_filters_and_limits() {
    let mut store = AlertStore::new(100);
    store.append("BTC".to_string(), "b1".to_string(), 1);
    store.append("ETH".to_string(), "e1".to_string(), 2);
    store.append("btc".to_string(), "b2".to_string(), 3);
    store.append("BTC".to_string(), "b3".to_string(), 4);
    let btc = store.list_by_symbol("Btc", 100);
    let payloads: Vec<&str> = btc.iter().map(|a| a.raw_payload.as_str()).collect();
    assert_eq!(payloads, vec!["b3", "b2", "b1"]);
    assert!(btc.iter().all(|a| a.symbol.eq_ignore_ascii_case("BTC")));
    let two = store.list_by_symbol("BTC", 2);
    assert_eq!(two.len(), 2);
    assert_eq!(two[1].raw_payload, "b2");
}

#[test]
fn full_store_drops_oldest() {
    let mut store = AlertStore::new(2);
    store.append("BTC".to_string(), "1".to_string(), 1);
    store.append("BTC".to_string(), "2".to_string(), 2);
    store.append("BTC".to_string(), "3".to_string(), 3);
    assert_eq!(store.len(), 2);
    let recent = store.list_recent(10);
    assert_eq!(recent[0].raw_payload, "3");
    assert_eq!(recent[1].raw_payload, "2");
}

#[test]
fn clear_removes_everything_and_ids_continue() {
    let mut store = AlertStore::new(5);
    store.append("SOL".to_string(), "x".to_string(), 1);
    store.clear_all();
    assert_eq!(store.len(), 0);
    assert!(store.list_recent(5).is_empty());
    assert!(store.can_append());
    let a = store.append("SOL".to_string(), "y".to_string(), 2);
    assert_eq!(a.id, 1);
}
