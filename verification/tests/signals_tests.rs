use mordexel::domain::{Asset, Side, Symbol, Timeframe};
use mordexel::signals::{
    format_signal, parse_asset, parse_trading_signal, remove_emojis, signal_from_matches,
    TradingSignal,
};

const SIGNAL: &str = "🚀 BTCUSDT · 30m\nLONG 📈\nEntry: 65000.5\nTP1: 66000\nTP2: 67000\nTP3: 68000\nSL: 64000\nDisclaimer: not financial advice SL: 1";

#[test]
fn parses_full_signal() {
    let s = parse_trading_signal(SIGNAL).expect("signal");
    assert_eq!(s.symbol, Symbol::new(Asset::BTC, Asset::USDT));
    assert_eq!(s.side, Side::Long);
    assert_eq!(s.entry, "65000.5");
    assert_eq!(s.targets, vec!["66000", "67000", "68000"]);
    assert_eq!(s.timeframe, Timeframe::M30);
    assert_eq!(s.stop_loss, "64000");
}

#[test]
fn short_signal_with_usdc_quote() {
    let text = "XRPUSDC\nSHORT\nEntry:0.61\nTP1: 0.60\nSL: 0.63";
    let s = parse_trading_signal(text).expect("signal");
    assert_eq!(s.symbol, Symbol::new(Asset::XRP, Asset::USDC));
    assert_eq!(s.side, Side::Short);
    assert_eq!(s.entry, "0.61");
    assert_eq!(s.targets, vec!["0.60"]);
    assert_eq!(s.stop_loss, "0.63");
}

#[test]
fn timeframe_defaults_to_four_hours() {
    let no_tf = "ETHUSDT LONG Entry: 3000 TP1: 3100 SL: 2900";
    assert_eq!(parse_trading_signal(no_tf).unwrap().timeframe, Timeframe::H4);
    let unknown_tf = "ETHUSDT · 1d LONG Entry: 3000 TP1: 3100 SL: 2900";
    assert_eq!(parse_trading_signal(unknown_tf).unwrap().timeframe, Timeframe::H4);
    let h1 = "ETHUSDT · 1h LONG Entry: 3000 TP1: 3100 SL: 2900";
    assert_eq!(parse_trading_signal(h1).unwrap().timeframe, Timeframe::H1);
}

#[test]
fn missing_parts_give_no_signal() {
    assert!(parse_trading_signal("BTCUSDT LONG Entry: 1 SL: 0.5").is_none());
    assert!(parse_trading_signal("BTCUSDT LONG TP1: 2 SL: 0.5").is_none());
    assert!(parse_trading_signal("BTCUSDT LONG Entry: 1 TP1: 2").is_none());
    assert!(parse_trading_signal("BTCUSDT Entry: 1 TP1: 2 SL: 0.5").is_none());
    assert!(parse_trading_signal("LONG Entry: 1 TP1: 2 SL: 0.5").is_none());
}

#[test]
fn unsupported_asset_gives_no_signal() {
    assert!(parse_trading_signal("DOGEUSDT LONG Entry: 1 TP1: 2 SL: 0.5").is_none());
}

#[test]
fn disclaimer_text_is_ignored() {
    let text = "BTCUSDT LONG Entry: 1 TP1: 2\ndisclaimer: SL: 0.5";
    assert!(parse_trading_signal(text).is_none());
    let text = "BTCUSDT LONG Entry: 1 TP1: 2 SL: 0.7\nDISCLAIMER: TP2: 9";
    let s = parse_trading_signal(text).unwrap();
    assert_eq!(s.targets, vec!["2"]);
    assert_eq!(s.stop_loss, "0.7");
}

#[test]
fn parse_asset_known_and_unknown() {
    assert_eq!(parse_asset("BTC"), Some(Asset::BTC));
    assert_eq!(parse_asset("ADA"), Some(Asset::ADA));
    assert_eq!(parse_asset("USDC"), Some(Asset::USDC));
    assert_eq!(parse_asset("btc"), None);
    assert_eq!(parse_asset("DOGE"), None);
}

#[test]
fn remove_emojis_strips_emoji_only() {
    assert_eq!(remove_emojis("🚀 BTC 📈 up"), " BTC  up");
    assert_eq!(remove_emojis("plain text"), "plain text");
    assert_eq!(remove_emojis(""), "");
}

#[test]
fn formats_signal_card() {
    let signal = TradingSignal {
        symbol: Symbol::new(Asset::SOL, Asset::USDT),
        side: Side::Short,
        entry: "150.00000".to_string(),
        targets: vec!["140.00000".to_string(), "130.00000".to_string()],
        timeframe: Timeframe::H1,
        stop_loss: "160.00000".to_string(),
    };
    assert_eq!(
        format_signal(&signal),
        "<b>SOLUSDT SHORT</b>\n<b>Timeframe:</b> 1h\n<b>Entry:</b> 150.00000\n\
         <b>Take Profit 1:</b> 140.00000\n<b>Take Profit 2:</b> 130.00000\n\
         <b>Take Profit 3:</b> 0.00000\n<b>Stop:</b> 160.00000\n"
    );
}

#[test]
fn formats_signal_without_targets_as_invalid() {
    let signal = TradingSignal {
        symbol: Symbol::new(Asset::BTC, Asset::USDT),
        side: Side::Long,
        entry: "1".to_string(),
        targets: Vec::new(),
        timeframe: Timeframe::M30,
        stop_loss: "0.5".to_string(),
    };
    assert_eq!(format_signal(&signal), "Invalid signal: missing targets");
}

fn caps(groups: &[Option<&str>]) -> Option<Vec<Option<String>>> {
    Some(groups.iter().map(|g| g.map(|t| t.to_string())).collect())
}

#[test]
fn signal_from_matches_reads_groups() {
    let symbol = caps(&[Some("ETHUSDC"), Some("ETH"), Some("USDC")]);
    let direction = caps(&[Some("SHORT"), Some("SHORT")]);
    let timeframe = caps(&[Some("· 1h"), Some("1h")]);
    let entry = caps(&[Some("Entry: 3000"), Some("3000")]);
    let targets = vec![
        caps(&[Some("TP1: 2900"), Some("2900")]).unwrap(),
        caps(&[Some("TP2"), None]).unwrap(),
        caps(&[Some("TP3: 2700"), Some("2700")]).unwrap(),
    ];
    let stop = caps(&[Some("SL: 3100"), Some("3100")]);
    let s = signal_from_matches(&symbol, &direction, &timeframe, &entry, &targets, &stop)
        .expect("signal");
    assert_eq!(s.symbol, Symbol::new(Asset::ETH, Asset::USDC));
    assert_eq!(s.side, Side::Short);
    assert_eq!(s.timeframe, Timeframe::H1);
    assert_eq!(s.entry, "3000");
    assert_eq!(s.targets, vec!["2900", "2700"]);
    assert_eq!(s.stop_loss, "3100");

    let no_tf = signal_from_matches(&symbol, &direction, &None, &entry, &targets, &stop).unwrap();
    assert_eq!(no_tf.timeframe, Timeframe::H4);
    let unknown = caps(&[Some("DOGEUSDT"), Some("DOGE"), Some("USDT")]);
    assert!(signal_from_matches(&unknown, &direction, &timeframe, &entry, &targets, &stop).is_none());
    assert!(signal_from_matches(&symbol, &direction, &timeframe, &entry, &Vec::new(), &stop).is_none());
    assert!(signal_from_matches(&symbol, &direction, &timeframe, &None, &targets, &stop).is_none());
}
