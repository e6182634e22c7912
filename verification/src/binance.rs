//! Binance USDⓈ-M futures: configuration, errors, and the rules around the
//! user-stream listen key.

use vstd::prelude::*;
use vstd::string::StringSliceAdditionalSpecFns;
use crate::execution::ExchangeError;
use crate::text::{i64_to_text, decimal_text, is_blank, owned, trim, u64_to_text};
use crate::domain::{side_name, symbol_name, Side, Symbol};

verus! {

/// Connection settings for the Binance REST API.
#[derive(Debug, Clone)]
pub struct BinanceConfig {
    pub api_key: String,
    pub api_secret: String,
    pub base_url: String,
    pub is_test: bool,
}

/// The Binance network an endpoint belongs to.
#[derive(Debug, Clone, Copy, PartialEq, Eq, Structural)]
pub enum BinanceNetwork {
    Testnet,
    Mainnet,
    Unknown,
}

/// An error body returned by the Binance API.
#[derive(Debug, Clone, PartialEq, Eq)]
pub struct BinanceApiError {
    pub code: i64,
    pub msg: String,
}

/// The text of an API error: `(code): message`.
pub open spec fn api_error_text(e: BinanceApiError) -> Seq<char> {
    "("@ + decimal_text(e.code as int) + "): "@ + e.msg@
}

impl BinanceApiError {
    /// The error's text, such as `(-2015): Invalid API-key`.
    pub fn to_string(&self) -> (r: String)
        ensures
            r@ == api_error_text(*self),
    {
        let mut r = owned("(");
        r.append(i64_to_text(self.code).as_str());
        r.append("): ");
        r.append(self.msg.as_str());
        r
    }
}

/// An error of the Binance client. Transport and decoding failures keep
/// the text of the underlying error.
#[derive(Debug, Clone, PartialEq, Eq)]
pub enum BinanceError {
    Http(String),
    Json(String),
    MissingField(String),
    Api(BinanceApiError),
    InvalidInput(String),
}

/// The text of a Binance client error.
pub open spec fn binance_error_text(e: BinanceError) -> Seq<char> {
    match e {
        BinanceError::Http(m) => "HTTP error: "@ + m@,
        BinanceError::Json(m) => "JSON error: "@ + m@,
        BinanceError::MissingField(m) => "Missing field in response: "@ + m@,
        BinanceError::Api(a) => "Binance API error "@ + api_error_text(a),
        BinanceError::InvalidInput(m) => "Invalid input: "@ + m@,
    }
}

fn joined(prefix: &str, rest: &str) -> (r: String)
    ensures
        r@ == prefix@ + rest@,
{
    let mut r = owned(prefix);
    r.append(rest);
    r
}

impl BinanceError {
    /// The error's text, such as `Invalid input: listen key is empty`.
    pub fn to_string(&self) -> (r: String)
        ensures
            r@ == binance_error_text(*self),
    {
        match self {
            BinanceError::Http(m) => joined("HTTP error: ", m.as_str()),
            BinanceError::Json(m) => joined("JSON error: ", m.as_str()),
            BinanceError::MissingField(m) => joined("Missing field in response: ", m.as_str()),
            BinanceError::Api(a) => joined("Binance API error ", a.to_string().as_str()),
            BinanceError::InvalidInput(m) => joined("Invalid input: ", m.as_str()),
        }
    }
}

/// Whether `x` is how the Binance client error `e` is reported to the
/// execution layer: transport failures as network errors, decoding failures
/// and missing fields as internal errors, API errors as rejections and
/// invalid input as invalid requests.
pub open spec fn reported_as(e: BinanceError, x: ExchangeError) -> bool {
    match e {
        BinanceError::Http(m) => x matches ExchangeError::Network { message } && message@ == m@,
        BinanceError::Json(m) => x matches ExchangeError::Internal { message } && message@ == m@,
        BinanceError::MissingField(f) => x matches ExchangeError::Internal { message }
            && message@ == "missing field: "@ + f@,
        BinanceError::Api(a) => x matches ExchangeError::Rejected { message } && message@
            == api_error_text(a),
        BinanceError::InvalidInput(m) => x matches ExchangeError::InvalidRequest { message }
            && message@ == m@,
    }
}

impl BinanceError {
    /// The exchange error that reports this Binance client error.
    pub fn into_exchange_error(self) -> (r: ExchangeError)
        ensures
            reported_as(self, r),
    {
        match self {
            BinanceError::Http(m) => ExchangeError::Network { message: m },
            BinanceError::Json(m) => ExchangeError::Internal { message: m },
            BinanceError::MissingField(f) => ExchangeError::Internal {
                message: joined("missing field: ", f.as_str()),
            },
            BinanceError::Api(a) => ExchangeError::Rejected { message: a.to_string() },
            BinanceError::InvalidInput(m) => ExchangeError::InvalidRequest { message: m },
        }
    }
}

/// The reply to a leverage change.
#[derive(Debug, Clone)]
pub struct BinanceSetLeverageResponse {
    pub leverage: u32,
    pub _max_notional_value: String,
    pub symbol: String,
}

/// The reply that creates a user-stream listen key.
#[derive(Debug, Clone)]
pub struct ListenKeyResponse {
    pub listen_key: String,
}

/// Refuses an API key that is empty or white space only.
pub fn check_api_key(api_key: &str) -> (r: Result<(), BinanceError>)
    ensures
        match r {
            Ok(()) => !is_blank(api_key@),
            Err(e) => is_blank(api_key@) && (e matches BinanceError::InvalidInput(m) && m@
                == "Binance API key is empty"@),
        },
{
    let t = trim(api_key);
    if t.as_str().is_empty() {
        Err(BinanceError::InvalidInput(owned("Binance API key is empty")))
    } else {
        Ok(())
    }
}

/// The error for a reply whose status is not a success: the API error the
/// body holds, or else one made of the status code and the body text.
pub fn reply_error(status: u16, body: String, body_error: Option<BinanceApiError>) -> (r:
    BinanceError)
    ensures
        r == BinanceError::Api(
            match body_error {
                Some(e) => e,
                None => BinanceApiError { code: status as i64, msg: body },
            },
        ),
{
    match body_error {
        Some(e) => BinanceError::Api(e),
        None => BinanceError::Api(BinanceApiError { code: status as i64, msg: body }),
    }
}

/// Bytes that URL encoding keeps as they are: ASCII letters and digits and
/// `-`, `.`, `_`, `~`.
pub open spec fn url_safe_byte(b: u8) -> bool {
    ||| 48 <= b <= 57
    ||| 65 <= b <= 90
    ||| 97 <= b <= 122
    ||| b == 45
    ||| b == 46
    ||| b == 95
    ||| b == 126
}

/// The upper-case hexadecimal digit of `d`, below 16.
pub open spec fn hex_digit(d: u8) -> char {
    if d < 10 {
        ((d + 48) as u8) as char
    } else {
        ((d + 55) as u8) as char
    }
}

/// Percent-encoding of a byte sequence: safe bytes stay, any other byte `b`
/// becomes `%` and two upper-case hexadecimal digits.
pub open spec fn percent_encoded(bytes: Seq<u8>) -> Seq<char>
    decreases bytes.len(),
{
    if bytes.len() == 0 {
        Seq::empty()
    } else {
        let b = bytes[0];
        let head = if url_safe_byte(b) {
            seq![b as char]
        } else {
            seq!['%', hex_digit(b / 16), hex_digit(b % 16)]
        };
        head + percent_encoded(bytes.drop_first())
    }
}

/// Calls `urlencoding::encode`, which percent-encodes every byte of the
/// UTF-8 text except ASCII letters, digits and `-`, `.`, `_`, `~`.
#[verifier::external_body]
fn url_encode(data: &str) -> (r: String)
    ensures
        r@ == percent_encoded(data.spec_bytes()),
{
    urlencoding::encode(data).into_owned()
}

/// The listen-key endpoint under a REST base URL.
pub open spec fn listen_key_endpoint(rest_base: Seq<char>) -> Seq<char> {
    rest_base + "/fapi/v1/listenKey"@
}

/// The listen-key endpoint under `rest_base`.
pub fn listen_key_url(rest_base: &str) -> (r: String)
    ensures
        r@ == listen_key_endpoint(rest_base@),
{
    joined(rest_base, "/fapi/v1/listenKey")
}

/// The URL that closes `listen_key`; an empty or blank key is refused.
pub fn close_listen_key_url(rest_base: &str, listen_key: &str) -> (r: Result<String, BinanceError>)
    ensures
        match r {
            Ok(url) => !is_blank(listen_key@) && url@ == listen_key_endpoint(rest_base@)
                + "?listenKey="@ + percent_encoded(listen_key.spec_bytes()),
            Err(e) => is_blank(listen_key@) && (e matches BinanceError::InvalidInput(m) && m@
                == "listen key is empty"@),
        },
{
    let t = trim(listen_key);
    if t.as_str().is_empty() {
        return Err(BinanceError::InvalidInput(owned("listen key is empty")));
    }
    let mut url = listen_key_url(rest_base);
    url.append("?listenKey=");
    url.append(url_encode(listen_key).as_str());
    Ok(url)
}

/// One `key=value` pair of a request query, the value percent-encoded.
pub open spec fn query_pair(pair: (Seq<char>, Seq<char>)) -> Seq<char> {
    pair.0 + "="@ + percent_encoded(vstd::utf8::encode_utf8(pair.1))
}

/// A request query: its pairs in order, joined by `&`.
pub open spec fn query_text(pairs: Seq<(Seq<char>, Seq<char>)>) -> Seq<char>
    decreases pairs.len(),
{
    if pairs.len() == 0 {
        Seq::empty()
    } else if pairs.len() == 1 {
        query_pair(pairs[0])
    } else {
        query_text(pairs.drop_last()) + "&"@ + query_pair(pairs.last())
    }
}

/// The pairs of a query as character sequences.
pub open spec fn query_pairs(pairs: Seq<(String, String)>) -> Seq<(Seq<char>, Seq<char>)> {
    pairs.map_values(|p: (String, String)| (p.0@, p.1@))
}

/// The query text of `pairs`: each key, `=` and the percent-encoded value,
/// joined by `&` in order.
pub fn build_query(pairs: &Vec<(String, String)>) -> (r: String)
    ensures
        r@ == query_text(query_pairs(pairs@)),
{
    let mut r = String::new();
    let mut i: usize = 0;
    assert(query_pairs(pairs@.take(0)) =~= Seq::empty());
    while i < pairs.len()
        invariant
            i <= pairs@.len(),
            r@ == query_text(query_pairs(pairs@.take(i as int))),
        decreases pairs@.len() - i,
    {
        let ghost before = r@;
        if i > 0 {
            r.append("&");
        }
        r.append(pairs[i].0.as_str());
        r.append("=");
        r.append(url_encode(pairs[i].1.as_str()).as_str());
        proof {
            let taken = query_pairs(pairs@.take(i + 1));
            assert(taken.drop_last() =~= query_pairs(pairs@.take(i as int)));
            assert(taken.last() == (pairs@[i as int].0@, pairs@[i as int].1@));
            if i == 0 {
                assert(before == Seq::<char>::empty());
            }
        }
        i = i + 1;
    }
    assert(pairs@.take(pairs@.len() as int) =~= pairs@);
    r
}

fn pair(key: &str, value: String) -> (r: (String, String))
    ensures
        r.0@ == key@,
        r.1@ == value@,
{
    (owned(key), value)
}

/// The query that sets `symbol`'s leverage.
pub fn set_leverage_query(symbol: &Symbol, leverage: u32) -> (r: String)
    ensures
        r@ == query_text(
            seq![("symbol"@, symbol_name(*symbol)), ("leverage"@, decimal_text(leverage as int))],
        ),
{
    let pairs = vec![pair("symbol", symbol.to_string()), pair("leverage", u64_to_text(leverage as u64))];
    let r = build_query(&pairs);
    assert(query_pairs(pairs@) =~= seq![
        ("symbol"@, symbol_name(*symbol)),
        ("leverage"@, decimal_text(leverage as int)),
    ]);
    r
}

/// The query that reads `symbol`'s leverage brackets.
pub fn leverage_bracket_query(symbol: &Symbol) -> (r: String)
    ensures
        r@ == query_text(seq![("symbol"@, symbol_name(*symbol))]),
{
    let pairs = vec![pair("symbol", symbol.to_string())];
    let r = build_query(&pairs);
    assert(query_pairs(pairs@) =~= seq![("symbol"@, symbol_name(*symbol))]);
    r
}

/// The query of a market order for `quantity`, given as the decimal text to
/// send, with the full result requested.
pub fn market_order_query(symbol: &Symbol, side: Side, quantity: &str) -> (r: String)
    ensures
        r@ == query_text(
            seq![
                ("symbol"@, symbol_name(*symbol)),
                ("side"@, side_name(side)),
                ("type"@, "MARKET"@),
                ("quantity"@, quantity@),
                ("newOrderRespType"@, "RESULT"@),
            ],
        ),
{
    let pairs = vec![
        pair("symbol", symbol.to_string()),
        pair("side", side.to_string()),
        pair("type", owned("MARKET")),
        pair("quantity", owned(quantity)),
        pair("newOrderRespType", owned("RESULT")),
    ];
    let r = build_query(&pairs);
    assert(query_pairs(pairs@) =~= seq![
        ("symbol"@, symbol_name(*symbol)),
        ("side"@, side_name(side)),
        ("type"@, "MARKET"@),
        ("quantity"@, quantity@),
        ("newOrderRespType"@, "RESULT"@),
    ]);
    r
}

/// The query of a take-profit order: a reduce-only limit order, good till
/// cancelled, for `quantity` at `price`, both given as the decimal texts to
/// send.
pub fn take_profit_order_query(symbol: &Symbol, side: Side, quantity: &str, price: &str) -> (r:
    String)
    ensures
        r@ == query_text(
            seq![
                ("symbol"@, symbol_name(*symbol)),
                ("side"@, side_name(side)),
                ("type"@, "LIMIT"@),
                ("quantity"@, quantity@),
                ("price"@, price@),
                ("timeInForce"@, "GTC"@),
                ("reduceOnly"@, "true"@),
                ("newOrderRespType"@, "RESULT"@),
            ],
        ),
{
    let pairs = vec![
        pair("symbol", symbol.to_string()),
        pair("side", side.to_string()),
        pair("type", owned("LIMIT")),
        pair("quantity", owned(quantity)),
        pair("price", owned(price)),
        pair("timeInForce", owned("GTC")),
        pair("reduceOnly", owned("true")),
        pair("newOrderRespType", owned("RESULT")),
    ];
    let r = build_query(&pairs);
    assert(query_pairs(pairs@) =~= seq![
        ("symbol"@, symbol_name(*symbol)),
        ("side"@, side_name(side)),
        ("type"@, "LIMIT"@),
        ("quantity"@, quantity@),
        ("price"@, price@),
        ("timeInForce"@, "GTC"@),
        ("reduceOnly"@, "true"@),
        ("newOrderRespType"@, "RESULT"@),
    ]);
    r
}

/// The query of a stop-loss order: a conditional stop-market order that
/// closes the position when the mark price reaches `trigger_price`, given as
/// the decimal text to send.
pub fn stop_loss_order_query(symbol: &Symbol, side: Side, trigger_price: &str) -> (r: String)
    ensures
        r@ == query_text(
            seq![
                ("symbol"@, symbol_name(*symbol)),
                ("side"@, side_name(side)),
                ("algoType"@, "CONDITIONAL"@),
                ("type"@, "STOP_MARKET"@),
                ("closePosition"@, "true"@),
                ("triggerPrice"@, trigger_price@),
                ("workingType"@, "MARK_PRICE"@),
            ],
        ),
{
    let pairs = vec![
        pair("symbol", symbol.to_string()),
        pair("side", side.to_string()),
        pair("algoType", owned("CONDITIONAL")),
        pair("type", owned("STOP_MARKET")),
        pair("closePosition", owned("true")),
        pair("triggerPrice", owned(trigger_price)),
        pair("workingType", owned("MARK_PRICE")),
    ];
    let r = build_query(&pairs);
    assert(query_pairs(pairs@) =~= seq![
        ("symbol"@, symbol_name(*symbol)),
        ("side"@, side_name(side)),
        ("algoType"@, "CONDITIONAL"@),
        ("type"@, "STOP_MARKET"@),
        ("closePosition"@, "true"@),
        ("triggerPrice"@, trigger_price@),
        ("workingType"@, "MARK_PRICE"@),
    ]);
    r
}

/// Masks a long text for logging: its first six and last six bytes around
/// `...`; `***` for a text of ten bytes or fewer.
pub fn mask_middle(s: &str) -> (r: String)
    requires
        s.spec_bytes().len() > 10 ==> vstd::utf8::is_char_boundary(s.spec_bytes(), 6)
            && vstd::utf8::is_char_boundary(s.spec_bytes(), s.spec_bytes().len() - 6),
    ensures
        r@ == if s.spec_bytes().len() <= 10 {
            "***"@
        } else {
            vstd::utf8::decode_utf8(s.spec_bytes().subrange(0, 6)) + "..."@ + vstd::utf8::decode_utf8(
                s.spec_bytes().subrange(s.spec_bytes().len() - 6, s.spec_bytes().len() as int),
            )
        },
{
    broadcast use {vstd::utf8::encode_utf8_decode_utf8, vstd::utf8::encode_utf8_valid_utf8};

    let len = s.as_bytes().len();
    if len <= 10 {
        return owned("***");
    }
    let (head, _) = s.split_at(6);
    let (_, tail) = s.split_at(len - 6);
    assert(head@ == vstd::utf8::decode_utf8(head.spec_bytes()));
    assert(tail@ == vstd::utf8::decode_utf8(tail.spec_bytes()));
    let mut r = owned(head);
    r.append("...");
    r.append(tail);
    r
}

/// Masks the end of a text for logging: keeps it whole when it is at most
/// `visible_prefix` bytes long, else replaces its last `masked_len` bytes
/// (all of it when shorter) with as many `*`.
pub fn mask_tail(input: &str, visible_prefix: usize, masked_len: usize) -> (r: String)
    requires
        input.spec_bytes().len() > visible_prefix ==> vstd::utf8::is_char_boundary(
            input.spec_bytes(),
            if input.spec_bytes().len() >= masked_len {
                input.spec_bytes().len() - masked_len
            } else {
                0
            },
        ),
    ensures
        ({
            let bytes = input.spec_bytes();
            let split: int = if bytes.len() >= masked_len {
                bytes.len() - masked_len
            } else {
                0
            };
            r@ == if bytes.len() <= visible_prefix {
                input@
            } else {
                vstd::utf8::decode_utf8(bytes.subrange(0, split)) + Seq::new(
                    (bytes.len() - split) as nat,
                    |_i: int| '*',
                )
            }
        }),
        vstd::utf8::encode_utf8(r@).len() == input.spec_bytes().len(),
{
    broadcast use {vstd::utf8::encode_utf8_decode_utf8, vstd::utf8::encode_utf8_valid_utf8};

    let len = input.as_bytes().len();
    if len <= visible_prefix {
        return owned(input);
    }
    let split = if len >= masked_len {
        len - masked_len
    } else {
        0
    };
    let (start, end) = input.split_at(split);
    assert(start@ == vstd::utf8::decode_utf8(start.spec_bytes()));
    let mut r = owned(start);
    let n = end.as_bytes().len();
    let mut i: usize = 0;
    while i < n
        invariant
            i <= n,
            n == len - split,
            r@ == start@ + Seq::new(i as nat, |_i: int| '*'),
        decreases n - i,
    {
        crate::text::push_char(&mut r, '*');
        assert(r@ =~= start@ + Seq::new((i + 1) as nat, |_i: int| '*'));
        i = i + 1;
    }
    proof {
        let stars = Seq::new(n as nat, |_i: int| '*');
        crate::text::lemma_encode_utf8_concat(start@, stars);
        assert(vstd::utf8::is_ascii_chars(stars));
        vstd::utf8::is_ascii_chars_encode_utf8(stars);
    }
    r
}

/// The highest initial leverage among the brackets of the first entry of a
/// leverage-bracket reply.
pub open spec fn max_of(values: Seq<u32>) -> u32
    decreases values.len(),
{
    if values.len() <= 1 {
        if values.len() == 1 {
            values[0]
        } else {
            0
        }
    } else if values.last() >= max_of(values.drop_last()) {
        values.last()
    } else {
        max_of(values.drop_last())
    }
}

/// The maximum leverage a symbol allows, from the initial leverages of the
/// brackets of the first entry of the leverage-bracket reply (`None` when the
/// reply has no entry).
pub fn max_initial_leverage(symbol_name: &str, first_entry: Option<&Vec<u32>>) -> (r: Result<
    u32,
    BinanceError,
>)
    ensures
        match first_entry {
            None => r matches Err(BinanceError::MissingField(m)) && m@
                == "empty leverage bracket response for symbol "@ + symbol_name@,
            Some(v) => if v@.len() == 0 {
                r matches Err(BinanceError::MissingField(m)) && m@ == "no brackets found for symbol "@
                    + symbol_name@
            } else {
                &&& r == Ok::<u32, BinanceError>(max_of(v@))
                &&& v@.contains(max_of(v@))
                &&& forall|i: int| 0 <= i < v@.len() ==> v@[i] <= max_of(v@)
            },
        },
{
    let v = match first_entry {
        None => {
            return Err(
                BinanceError::MissingField(
                    joined("empty leverage bracket response for symbol ", symbol_name),
                ),
            );
        },
        Some(v) => v,
    };
    if v.len() == 0 {
        return Err(
            BinanceError::MissingField(joined("no brackets found for symbol ", symbol_name)),
        );
    }
    let mut best = v[0];
    let mut i: usize = 1;
    assert(v@.take(1).drop_last().len() == 0);
    assert(v@.take(1)[0] == best);
    while i < v.len()
        invariant
            1 <= i <= v@.len(),
            best == max_of(v@.take(i as int)),
            v@.take(i as int).contains(best),
            forall|j: int| 0 <= j < i ==> v@[j] <= best,
        decreases v@.len() - i,
    {
        assert(v@.take(i + 1).drop_last() =~= v@.take(i as int));
        if v[i] >= best {
            best = v[i];
        }
        assert(v@.take(i + 1)[i as int] == v@[i as int]);
        assert(v@.take(i + 1).contains(best)) by {
            if best == v@[i as int] {
                assert(v@.take(i + 1)[i as int] == best);
            } else {
                let k = choose|k: int| 0 <= k < i && v@.take(i as int)[k] == best;
                assert(v@.take(i + 1)[k] == best);
            }
        }
        i = i + 1;
    }
    assert(v@.take(v@.len() as int) =~= v@);
    Ok(best)
}

} // verus!
