use bn_bookticker::market::{reply_succeeded, trading_markets, um_get_symbols, BinanceResponse, UsdtMarginMarket};

fn market(symbol: &str, status: &str) -> UsdtMarginMarket {
    UsdtMarginMarket {
        symbol: symbol.to_string(),
        pair: symbol.to_string(),
        contract_type: "PERPETUAL".to_string(),
        delivery_date: 4133404800000,
        onboard_date: 1569398400000,
        status: status.to_string(),
        maint_margin_percent: "2.5000".to_string(),
        required_margin_percent: "5.0000".to_string(),
        base_asset: "BTC".to_string(),
        quote_asset: "USDT".to_string(),
        margin_asset: "USDT".to_string(),
        price_precision: 2,
        quantity_precision: 3,
        base_asset_precision: 8,
        quote_precision: 8,
        underlying_type: "COIN".to_string(),
        trigger_protect: "0.0500".to_string(),
        order_types: vec!["LIMIT".to_string(), "MARKET".to_string()],
        time_in_force: vec!["GTC".to_string()],
    }
}

#[test]
fn reply_succeeded_only_for_2xx() {
    assert!(reply_succeeded(200));
    assert!(reply_succeeded(204));
    assert!(reply_succeeded(299));
    assert!(!reply_succeeded(199));
    assert!(!reply_succeeded(300));
    assert!(!reply_succeeded(404));
    assert!(!reply_succeeded(503));
    assert!(!reply_succeeded(0));
    assert!(!reply_succeeded(99));
    assert!(!reply_succeeded(1000));
}

#[test]
fn trading_markets_keep_trading_in_order() {
    let resp = BinanceResponse {
        symbols: vec![
            market("BTCUSDT", "TRADING"),
            market("ETHUSDT_231229", "SETTLING"),
            market("XRPUSDT", "TRADING"),
            market("OLDUSDT", "PENDING_TRADING"),
            market("LOWUSDT", "trading"),
        ],
    };
    let kept = trading_markets(resp);
    let names: Vec<&str> = kept.iter().map(|m| m.symbol.as_str()).collect();
    assert_eq!(names, vec!["BTCUSDT", "XRPUSDT"]);
}

#[test]
fn trading_markets_of_empty_reply() {
    assert!(trading_markets(BinanceResponse { symbols: vec![] }).is_empty());
}

#[test]
fn um_get_symbols_in_order() {
    let markets = vec![market("BTCUSDT", "TRADING"), market("XRPUSDT", "TRADING")];
    assert_eq!(um_get_symbols(&markets), vec!["BTCUSDT".to_string(), "XRPUSDT".to_string()]);
    assert!(um_get_symbols(&vec![]).is_empty());
}

#[test]
fn symbols_of_trading_markets() {
    let resp = BinanceResponse {
        symbols: vec![market("A", "BREAK"), market("B", "TRADING"), market("C", "TRADING")],
    };
    assert_eq!(um_get_symbols(&trading_markets(resp)), vec!["B".to_string(), "C".to_string()]);
}

#[test]
fn non_trading_markets_leave_result_unchanged() {
    let plain = BinanceResponse { symbols: vec![market("B", "TRADING"), market("C", "TRADING")] };
    let padded = BinanceResponse {
        symbols: vec![
            market("X", "BREAK"),
            market("B", "TRADING"),
            market("Y", "SETTLING"),
            market("Z", "PENDING_TRADING"),
            market("C", "TRADING"),
        ],
    };
    assert_eq!(um_get_symbols(&trading_markets(plain)), um_get_symbols(&trading_markets(padded)));
}
