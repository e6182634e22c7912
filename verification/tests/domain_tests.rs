use mordexel::domain::{
    Asset, Side, Symbol, Timeframe, TradeIntent, TradeIntentError,
};

#[test]
fn side_opposite_flips() {
    assert_eq!(Side::Long.opposite(), Side::Short);
    assert_eq!(Side::Short.opposite(), Side::Long);
    assert_eq!(Side::Long.opposite().opposite(), Side::Long);
    assert_eq!(Side::Short.opposite().opposite(), Side::Short);
}

#[test]
fn side_names_are_order_sides() {
    assert_eq!(Side::Long.to_string(), "BUY");
    assert_eq!(Side::Short.to_string(), "SELL");
}

#[test]
fn asset_names() {
    let all = [
        (Asset::BTC, "BTC"),
        (Asset::ETH, "ETH"),
        (Asset::SOL, "SOL"),
        (Asset::XRP, "XRP"),
        (Asset::BNB, "BNB"),
        (Asset::TRX, "TRX"),
        (Asset::ADA, "ADA"),
        (Asset::USDT, "USDT"),
        (Asset::USDC, "USDC"),
    ];
    for (asset, name) in all {
        assert_eq!(asset.to_string(), name);
    }
}

#[test]
fn symbol_new_and_name() {
    let s = Symbol::new(Asset::BTC, Asset::USDT);
    assert_eq!(s.base, Asset::BTC);
    assert_eq!(s.quote, Asset::USDT);
    assert_eq!(s.to_string(), "BTCUSDT");
    assert_eq!(Symbol::new(Asset::SOL, Asset::USDC).to_string(), "SOLUSDC");
}

#[test]
fn timeframe_parse_known_names() {
    assert_eq!(Timeframe::parse("30m"), Some(Timeframe::M30));
    assert_eq!(Timeframe::parse("1h"), Some(Timeframe::H1));
    assert_eq!(Timeframe::parse("2h"), Some(Timeframe::H2));
    assert_eq!(Timeframe::parse("4h"), Some(Timeframe::H4));
}

#[test]
fn timeframe_parse_rejects_others() {
    assert_eq!(Timeframe::parse("15m"), None);
    assert_eq!(Timeframe::parse("1H"), None);
    assert_eq!(Timeframe::parse(" 1h"), None);
    assert_eq!(Timeframe::parse(""), None);
    assert_eq!(Timeframe::parse("1d"), None);
}

#[test]
fn timeframe_name_roundtrip() {
    for t in [Timeframe::M30, Timeframe::H1, Timeframe::H2, Timeframe::H4] {
        assert_eq!(Timeframe::parse(t.to_string().as_str()), Some(t));
    }
    assert_eq!(Timeframe::M30.to_string(), "30m");
    assert_eq!(Timeframe::H4.to_string(), "4h");
}

fn full_builder() -> mordexel::domain::TradeIntentBuilder<f64> {
    TradeIntent::builder(Symbol::new(Asset::ETH, Asset::USDT))
        .side(Side::Short)
        .entry(3000.5)
        .targets(&[2900.0, 2800.0])
        .timeframe(Timeframe::H1)
        .stop_loss(3100.0)
}

#[test]
fn builder_builds_complete_intent() {
    let intent = full_builder().build().expect("complete builder");
    assert_eq!(intent.symbol, Symbol::new(Asset::ETH, Asset::USDT));
    assert_eq!(intent.side, Side::Short);
    assert_eq!(intent.entry, 3000.5);
    assert_eq!(intent.targets, vec![2900.0, 2800.0]);
    assert_eq!(intent.timeframe, Timeframe::H1);
    assert_eq!(intent.stop_loss, 3100.0);
}

#[test]
fn builder_gives_fresh_identifiers() {
    let a = full_builder().build().unwrap();
    let b = full_builder().build().unwrap();
    assert_ne!(a.intent_id, b.intent_id);
}

#[test]
fn builder_reports_first_missing_part() {
    let sym = Symbol::new(Asset::BTC, Asset::USDT);
    let empty = TradeIntent::<f64>::builder(sym).build();
    assert_eq!(empty.err(), Some(TradeIntentError::MissingSide));

    let r = TradeIntent::<f64>::builder(sym).side(Side::Long).build();
    assert_eq!(r.err(), Some(TradeIntentError::MissingEntry));

    let r = TradeIntent::builder(sym).side(Side::Long).entry(1.0).build();
    assert_eq!(r.err(), Some(TradeIntentError::MissingTargets));

    let r = TradeIntent::builder(sym)
        .side(Side::Long)
        .entry(1.0)
        .targets(&[2.0])
        .build();
    assert_eq!(r.err(), Some(TradeIntentError::MissingTimeframe));

    let r = TradeIntent::builder(sym)
        .side(Side::Long)
        .entry(1.0)
        .targets(&[2.0])
        .timeframe(Timeframe::M30)
        .build();
    assert_eq!(r.err(), Some(TradeIntentError::MissingStopLoss));

    let r = TradeIntent::<f64>::builder(sym).stop_loss(1.0).build();
    assert_eq!(r.err(), Some(TradeIntentError::MissingSide));
}

#[test]
fn trade_intent_error_texts() {
    assert_eq!(TradeIntentError::MissingSide.to_string(), "Side is missing");
    assert_eq!(TradeIntentError::MissingEntry.to_string(), "Entry price is missing");
    assert_eq!(TradeIntentError::MissingTargets.to_string(), "Targets are missing");
    assert_eq!(TradeIntentError::MissingTimeframe.to_string(), "Timeframe is missing");
    assert_eq!(TradeIntentError::MissingStopLoss.to_string(), "Stop loss is missing");
}
