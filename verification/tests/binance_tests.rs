use mordexel::binance::{
    build_query, check_api_key, close_listen_key_url, leverage_bracket_query, listen_key_url,
    market_order_query, mask_middle, mask_tail, max_initial_leverage, reply_error,
    set_leverage_query, stop_loss_order_query, take_profit_order_query, BinanceApiError,
    BinanceError,
};
use mordexel::domain::{Asset, Side, Symbol};
use mordexel::execution::ExchangeError;

fn api(code: i64, msg: &str) -> BinanceApiError {
    BinanceApiError { code, msg: msg.to_string() }
}

#[test]
fn api_error_text() {
    assert_eq!(api(-2015, "Invalid API-key").to_string(), "(-2015): Invalid API-key");
    assert_eq!(api(400, "").to_string(), "(400): ");
    assert_eq!(api(0, "x").to_string(), "(0): x");
    assert_eq!(api(i64::MIN, "m").to_string(), "(-9223372036854775808): m");
    assert_eq!(api(i64::MAX, "m").to_string(), "(9223372036854775807): m");
}

#[test]
fn binance_error_texts() {
    assert_eq!(BinanceError::Http("down".into()).to_string(), "HTTP error: down");
    assert_eq!(BinanceError::Json("bad".into()).to_string(), "JSON error: bad");
    assert_eq!(
        BinanceError::MissingField("o".into()).to_string(),
        "Missing field in response: o"
    );
    assert_eq!(
        BinanceError::Api(api(-1, "no")).to_string(),
        "Binance API error (-1): no"
    );
    assert_eq!(BinanceError::InvalidInput("k".into()).to_string(), "Invalid input: k");
}

#[test]
fn binance_errors_reported_to_execution() {
    assert_eq!(
        BinanceError::Http("down".into()).into_exchange_error(),
        ExchangeError::Network { message: "down".into() }
    );
    assert_eq!(
        BinanceError::Json("bad".into()).into_exchange_error(),
        ExchangeError::Internal { message: "bad".into() }
    );
    assert_eq!(
        BinanceError::MissingField("o".into()).into_exchange_error(),
        ExchangeError::Internal { message: "missing field: o".into() }
    );
    assert_eq!(
        BinanceError::Api(api(-4028, "Leverage not valid")).into_exchange_error(),
        ExchangeError::Rejected { message: "(-4028): Leverage not valid".into() }
    );
    assert_eq!(
        BinanceError::InvalidInput("k".into()).into_exchange_error(),
        ExchangeError::InvalidRequest { message: "k".into() }
    );
}

#[test]
fn api_key_must_not_be_blank() {
    assert_eq!(check_api_key("abc"), Ok(()));
    assert_eq!(check_api_key(" abc "), Ok(()));
    let err = BinanceError::InvalidInput("Binance API key is empty".into());
    assert_eq!(check_api_key(""), Err(err.clone()));
    assert_eq!(check_api_key(" \t\n"), Err(err.clone()));
    assert_eq!(check_api_key("\u{3000}"), Err(err));
}

#[test]
fn reply_error_prefers_body() {
    assert_eq!(
        reply_error(401, "{}".into(), Some(api(-2015, "bad key"))),
        BinanceError::Api(api(-2015, "bad key"))
    );
    assert_eq!(
        reply_error(502, "gateway".into(), None),
        BinanceError::Api(api(502, "gateway"))
    );
}

#[test]
fn listen_key_urls() {
    assert_eq!(
        listen_key_url("https://fapi.binance.com"),
        "https://fapi.binance.com/fapi/v1/listenKey"
    );
    assert_eq!(
        close_listen_key_url("https://x", "ab+c/d é~"),
        Ok("https://x/fapi/v1/listenKey?listenKey=ab%2Bc%2Fd%20%C3%A9~".to_string())
    );
    assert_eq!(
        close_listen_key_url("https://x", "  "),
        Err(BinanceError::InvalidInput("listen key is empty".into()))
    );
}

#[test]
fn mask_middle_cases() {
    assert_eq!(mask_middle("short"), "***");
    assert_eq!(mask_middle("0123456789"), "***");
    assert_eq!(mask_middle("0123456789A"), "012345...56789A");
    assert_eq!(mask_middle("abcdefghijklmnop"), "abcdef...klmnop");
}

#[test]
fn mask_tail_cases() {
    assert_eq!(mask_tail("wss://x/ws/abcdefghijkl", 0, 10), "wss://x/ws/ab**********");
    assert_eq!(mask_tail("short", 10, 3), "short");
    assert_eq!(mask_tail("abc", 0, 10), "***");
    assert_eq!(mask_tail("", 0, 4), "");
    assert_eq!(mask_tail("abcdef", 2, 0), "abcdef");
    let masked = mask_tail("listenkey1234567890", 0, 10);
    assert_eq!(masked.len(), "listenkey1234567890".len());
}

#[test]
fn max_leverage_from_brackets() {
    assert_eq!(max_initial_leverage("BTCUSDT", Some(&vec![20, 125, 50])), Ok(125));
    assert_eq!(max_initial_leverage("BTCUSDT", Some(&vec![7])), Ok(7));
    assert_eq!(
        max_initial_leverage("BTCUSDT", Some(&vec![])),
        Err(BinanceError::MissingField("no brackets found for symbol BTCUSDT".into()))
    );
    assert_eq!(
        max_initial_leverage("ETHUSDT", None),
        Err(BinanceError::MissingField(
            "empty leverage bracket response for symbol ETHUSDT".into()
        ))
    );
}

#[test]
fn query_encodes_values_in_order() {
    let pairs = vec![
        ("a".to_string(), "x y".to_string()),
        ("b".to_string(), "1&2".to_string()),
        ("c".to_string(), "é".to_string()),
    ];
    assert_eq!(build_query(&pairs), "a=x%20y&b=1%262&c=%C3%A9");
    assert_eq!(build_query(&Vec::new()), "");
}

#[test]
fn order_queries() {
    let btc = Symbol::new(Asset::BTC, Asset::USDT);
    assert_eq!(set_leverage_query(&btc, 20), "symbol=BTCUSDT&leverage=20");
    assert_eq!(leverage_bracket_query(&btc), "symbol=BTCUSDT");
    assert_eq!(
        market_order_query(&btc, Side::Long, "0.002"),
        "symbol=BTCUSDT&side=BUY&type=MARKET&quantity=0.002&newOrderRespType=RESULT"
    );
    assert_eq!(
        take_profit_order_query(&btc, Side::Short, "0.001", "65000.5"),
        "symbol=BTCUSDT&side=SELL&type=LIMIT&quantity=0.001&price=65000.5&timeInForce=GTC\
         &reduceOnly=true&newOrderRespType=RESULT"
    );
    assert_eq!(
        stop_loss_order_query(&btc, Side::Short, "64000"),
        "symbol=BTCUSDT&side=SELL&algoType=CONDITIONAL&type=STOP_MARKET&closePosition=true\
         &triggerPrice=64000&workingType=MARK_PRICE"
    );
}
