use mordexel::domain::{IngressEvent, SignalSource};
use mordexel::ingress::{
    admit_manual_trade, admit_signal, fallback_reply, is_dev_build, manual_trade_reply,
    parse_signal_source, signal_reply, telegram_config_from, telegram_event, HttpReply,
    SignalIngressRequest, TradeRequest,
};
use mordexel::text::{parse_i32, parse_i64, sort_strings, trim, to_ascii_lowercase};

#[test]
fn signal_sources() {
    assert_eq!(parse_signal_source("telegram"), Ok(SignalSource::Telegram));
    assert_eq!(parse_signal_source("  HTTP "), Ok(SignalSource::Http));
    assert_eq!(parse_signal_source("Replay"), Ok(SignalSource::Replay));
    assert_eq!(parse_signal_source("\tmanual\n"), Ok(SignalSource::Manual));
    assert_eq!(parse_signal_source("email"), Err("unsupported source"));
    assert_eq!(parse_signal_source(""), Err("unsupported source"));
}

#[test]
fn dev_builds() {
    assert!(is_dev_build("dev"));
    assert!(is_dev_build(" DeV "));
    assert!(!is_dev_build("1.0.0"));
    assert!(!is_dev_build("develop"));
}

#[test]
fn manual_trade_gate() {
    let req = || TradeRequest { text: "BTCUSDT LONG".into() };
    assert_eq!(
        admit_manual_trade("1.0.0", true, req()).err(),
        Some(HttpReply { status: 403, body: "Trade endpoint is only enabled in DEV builds".into() })
    );
    assert_eq!(
        admit_manual_trade("dev", false, req()).err(),
        Some(HttpReply {
            status: 400,
            body: "DEV build must use Binance testnet (Demo) for /trade".into()
        })
    );
    match admit_manual_trade("dev", true, req()) {
        Ok(IngressEvent::SignalReceived(e)) => {
            assert_eq!(e.source, SignalSource::Manual);
            assert_eq!(e.external_id, None);
            assert_eq!(e.text, "BTCUSDT LONG");
        }
        Err(r) => panic!("refused: {:?}", r),
    }
    assert_eq!(manual_trade_reply(true), HttpReply { status: 200, body: "Trade received".into() });
    assert_eq!(manual_trade_reply(false), HttpReply { status: 500, body: "Engine unavailable".into() });
}

#[test]
fn posted_signals() {
    let ok = admit_signal(SignalIngressRequest {
        source: "Telegram".into(),
        external_id: Some("42".into()),
        text: "t".into(),
    });
    match ok {
        Ok(IngressEvent::SignalReceived(e)) => {
            assert_eq!(e.source, SignalSource::Telegram);
            assert_eq!(e.external_id.as_deref(), Some("42"));
            assert_eq!(e.text, "t");
        }
        Err(r) => panic!("refused: {:?}", r),
    }
    let bad = admit_signal(SignalIngressRequest { source: "fax".into(), external_id: None, text: "t".into() });
    assert_eq!(bad.err(), Some(HttpReply { status: 400, body: "unsupported source".into() }));
    assert_eq!(signal_reply(true), HttpReply { status: 200, body: "Signal received".into() });
    assert_eq!(signal_reply(false), HttpReply { status: 500, body: "Engine unavailable".into() });
}

#[test]
fn fallback_message() {
    assert_eq!(
        fallback_reply("/nope"),
        HttpReply { status: 404, body: "Endpoint '/nope' is not in our API.".into() }
    );
}

#[test]
fn telegram_events_only_from_signal_chat() {
    assert!(telegram_event(10, 11, "x".into()).is_none());
    match telegram_event(10, 10, "x".into()) {
        Some(IngressEvent::SignalReceived(e)) => {
            assert_eq!(e.source, SignalSource::Telegram);
            assert_eq!(e.text, "x");
        }
        None => panic!("dropped"),
    }
}

#[test]
fn telegram_config_parsing() {
    let c = telegram_config_from("12345", "hash".into(), "+1".into(), "pw".into(), "-1001234").unwrap();
    assert_eq!(c.signal_source_id, -1001234);
    assert_eq!(c.credentials.api_id, 12345);
    assert_eq!(c.credentials.api_hash, "hash");
    assert_eq!(c.session_path, "mordexel.session");
    assert_eq!(
        telegram_config_from("1", "h".into(), "p".into(), "w".into(), "x").err(),
        Some("Could not parse LC_SIGNALS_ID")
    );
    assert_eq!(
        telegram_config_from("99999999999", "h".into(), "p".into(), "w".into(), "5").err(),
        Some("Could not parse TELEGRAM_API_ID")
    );
}

#[test]
fn integer_parsing_matches_std() {
    for s in ["0", "-0", "+7", "-9223372036854775808", "9223372036854775807", "9223372036854775808",
              "-9223372036854775809", "", "-", "+", "1 ", " 1", "12a", "00012", "٣"] {
        assert_eq!(parse_i64(s), s.parse::<i64>().ok(), "{:?}", s);
    }
    for s in ["2147483647", "2147483648", "-2147483648", "-2147483649", "42"] {
        assert_eq!(parse_i32(s), s.parse::<i32>().ok(), "{:?}", s);
    }
}

#[test]
fn text_helpers() {
    assert_eq!(trim("\u{2003} a b \n"), "a b");
    assert_eq!(trim("   "), "");
    assert_eq!(to_ascii_lowercase("AbC-Ä"), "abc-Ä");
    let sorted = sort_strings(vec!["b".into(), "a".into(), "B".into(), "ab".into(), "a".into()]);
    assert_eq!(sorted, vec!["B", "a", "a", "ab", "b"]);
}
