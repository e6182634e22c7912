//! Binance user-stream events: classification of order updates, the texts
//! that announce them, and the handling of each stream message.

use vstd::prelude::*;
use crate::binance::BinanceError;
use crate::engine::utc_now;
use crate::text::{bool_text, bool_to_text, owned, str_eq};

verus! {

/// A JSON value, as `serde_json` represents it.
#[verifier::external_type_specification]
#[verifier::external_body]
pub struct ExJsonValue(serde_json::Value);

/// The envelope of a user-stream event.
#[derive(Debug, Clone)]
pub struct UserStreamEnvelope {
    /// The event type (`e`).
    pub event_type: Option<String>,
    /// The event time in milliseconds (`E`).
    pub event_time: Option<u64>,
    /// The transaction time in milliseconds (`T`).
    pub transaction_time: Option<u64>,
    /// The nested order payload (`o`).
    pub order: Option<serde_json::Value>,
}

/// A futures order update with every field the exchange documents.
#[derive(Debug, Clone)]
pub struct FuturesOrderUpdate {
    pub symbol: String,
    pub client_order_id: String,
    pub side: String,
    pub position_side: Option<String>,
    pub order_type: String,
    pub original_order_type: Option<String>,
    pub time_in_force: Option<String>,
    pub original_qty: String,
    pub original_price: String,
    pub average_price: Option<String>,
    pub stop_price: Option<String>,
    pub execution_type: String,
    pub order_status: String,
    pub order_id: Option<u64>,
    pub last_filled_qty: Option<String>,
    pub accumulated_filled_qty: Option<String>,
    pub last_filled_price: Option<String>,
    pub realized_pnl: Option<String>,
    pub working_type: Option<String>,
    pub reduce_only: Option<bool>,
    pub close_position: Option<bool>,
}

/// The endpoints and key a user stream connects with.
#[derive(Debug, Clone)]
pub struct SelectedStreamConfig {
    pub rest_base: &'static str,
    pub ws_base: &'static str,
    pub api_key: String,
    pub network: crate::binance::BinanceNetwork,
}

/// An order update as received, every field but the symbol optional.
#[derive(Debug, Clone)]
pub struct RawOrderTradeUpdate {
    pub symbol: String,
    pub client_order_id: Option<String>,
    pub side: Option<String>,
    pub position_side: Option<String>,
    pub order_type: Option<String>,
    pub original_order_type: Option<String>,
    pub time_in_force: Option<String>,
    pub original_qty: Option<String>,
    pub original_price: Option<String>,
    pub average_price: Option<String>,
    pub stop_price: Option<String>,
    pub execution_type: Option<String>,
    pub order_status: Option<String>,
    pub order_id: Option<u64>,
    pub last_filled_qty: Option<String>,
    pub accumulated_filled_qty: Option<String>,
    pub last_filled_price: Option<String>,
    pub realized_pnl: Option<String>,
    pub working_type: Option<String>,
    pub reduce_only: Option<bool>,
    pub close_position: Option<bool>,
}

/// What an order update means for the trader.
#[derive(Debug, Clone, Copy, PartialEq, Eq, Structural)]
pub enum WsEventKind {
    OrderPlaced,
    PositionOpened,
    TakeProfitHit,
    StopLossHit,
    ReducedOrClosed,
    Cancelled,
    LeverageChanged,
    UnknownOrderUpdate,
}

/// A user-stream event, ready to be announced.
#[derive(Debug, Clone)]
pub struct WsEvent {
    pub kind: WsEventKind,
    pub symbol: Option<String>,
    pub title: String,
    pub message: String,
    pub timestamp: u64,
}

/// The text of `o`, or `d` when absent.
pub open spec fn or_text(o: Option<String>, d: Seq<char>) -> Seq<char> {
    match o {
        Some(s) => s@,
        None => d,
    }
}

/// The flag `o`, false when absent.
pub open spec fn or_false(o: Option<bool>) -> bool {
    match o {
        Some(b) => b,
        None => false,
    }
}

fn text_or<'a>(o: &'a Option<String>, d: &'a str) -> (r: &'a str)
    ensures
        r@ == or_text(*o, d@),
{
    match o {
        Some(s) => s.as_str(),
        None => d,
    }
}

fn flag(o: Option<bool>) -> (r: bool)
    ensures
        r == or_false(o),
{
    match o {
        Some(b) => b,
        None => false,
    }
}

/// Original order types of stop orders.
pub open spec fn is_stop_type(t: Seq<char>) -> bool {
    t == "STOP"@ || t == "STOP_MARKET"@ || t == "TRAILING_STOP_MARKET"@
}

/// Original order types of take-profit orders.
pub open spec fn is_take_profit_type(t: Seq<char>) -> bool {
    t == "TAKE_PROFIT"@ || t == "TAKE_PROFIT_MARKET"@
}

/// The meaning of an order update. A new order is placed; a cancelled or
/// expired one is cancelled; a trade fills a stop loss, a take profit, a
/// reduce-only or close-position order, or else opens a position; anything
/// else is unclassified.
pub open spec fn order_kind(o: RawOrderTradeUpdate) -> WsEventKind {
    let exec = or_text(o.execution_type, ""@);
    let status = or_text(o.order_status, ""@);
    let order_type = or_text(o.order_type, ""@);
    let original = or_text(o.original_order_type, order_type);
    if exec == "NEW"@ {
        WsEventKind::OrderPlaced
    } else if status == "CANCELED"@ || exec == "CANCELED"@ || exec == "EXPIRED"@ || status
        == "EXPIRED"@ {
        WsEventKind::Cancelled
    } else if exec == "TRADE"@ {
        if is_stop_type(original) {
            WsEventKind::StopLossHit
        } else if is_take_profit_type(original) {
            WsEventKind::TakeProfitHit
        } else if or_false(o.reduce_only) || or_false(o.close_position) {
            WsEventKind::ReducedOrClosed
        } else {
            WsEventKind::PositionOpened
        }
    } else {
        WsEventKind::UnknownOrderUpdate
    }
}

/// How a fill is announced. For a trade execution that is not cancelled or
/// expired, the order's original type (its type when the original is
/// absent) decides first: a stop, stop-market or trailing-stop fill is a
/// stop-loss hit and a take-profit fill a take-profit hit, whatever the
/// reduce-only and close-position flags say; any other fill is a reduction
/// or close when either flag is set, and else opens a position.
pub proof fn lemma_fill_kinds(o: RawOrderTradeUpdate)
    requires
        o.execution_type matches Some(e) && e@ == "TRADE"@,
        !(o.order_status matches Some(st) && (st@ == "CANCELED"@ || st@ == "EXPIRED"@)),
    ensures
        ({
            let t = match o.original_order_type {
                Some(t) => t@,
                None => match o.order_type {
                    Some(t) => t@,
                    None => Seq::<char>::empty(),
                },
            };
            let flagged = o.reduce_only == Some(true) || o.close_position == Some(true);
            &&& (t == "STOP"@ || t == "STOP_MARKET"@ || t == "TRAILING_STOP_MARKET"@) ==> order_kind(o)
                == WsEventKind::StopLossHit
            &&& (t == "TAKE_PROFIT"@ || t == "TAKE_PROFIT_MARKET"@) ==> order_kind(o)
                == WsEventKind::TakeProfitHit
            &&& !(t == "STOP"@ || t == "STOP_MARKET"@ || t == "TRAILING_STOP_MARKET"@ || t
                == "TAKE_PROFIT"@ || t == "TAKE_PROFIT_MARKET"@) ==> order_kind(o) == (if flagged {
                WsEventKind::ReducedOrClosed
            } else {
                WsEventKind::PositionOpened
            })
        }),
{
    reveal_strlit("");
    reveal_strlit("TRADE");
    reveal_strlit("NEW");
    reveal_strlit("CANCELED");
    reveal_strlit("EXPIRED");
    reveal_strlit("STOP");
    reveal_strlit("STOP_MARKET");
    reveal_strlit("TRAILING_STOP_MARKET");
    reveal_strlit("TAKE_PROFIT");
    reveal_strlit("TAKE_PROFIT_MARKET");
    assert("TRADE"@.len() == 5 && "NEW"@.len() == 3 && "CANCELED"@.len() == 8 && "EXPIRED"@.len()
        == 7);
    assert("STOP"@.len() == 4 && "TRAILING_STOP_MARKET"@.len() == 20 && "TAKE_PROFIT_MARKET"@.len()
        == 18 && "STOP_MARKET"@[0] != "TAKE_PROFIT"@[0]);
    let order_type = or_text(o.order_type, ""@);
    let original = or_text(o.original_order_type, order_type);
    let t = match o.original_order_type {
        Some(t) => t@,
        None => match o.order_type {
            Some(t) => t@,
            None => Seq::<char>::empty(),
        },
    };
    assert(original == t);
    assert(or_text(o.execution_type, ""@) == "TRADE"@);
    assert(or_text(o.order_status, ""@) != "CANCELED"@ && or_text(o.order_status, ""@)
        != "EXPIRED"@);
    assert(is_take_profit_type(t) ==> !is_stop_type(t));
}

/// Classifies an order update.
pub fn classify_order_update(order: &RawOrderTradeUpdate) -> (r: WsEventKind)
    ensures
        r == order_kind(*order),
{
    let exec = text_or(&order.execution_type, "");
    let status = text_or(&order.order_status, "");
    let order_type = text_or(&order.order_type, "");
    let original = text_or(&order.original_order_type, order_type);
    if str_eq(exec, "NEW") {
        return WsEventKind::OrderPlaced;
    }
    if str_eq(status, "CANCELED") || str_eq(exec, "CANCELED") || str_eq(exec, "EXPIRED") || str_eq(
        status,
        "EXPIRED",
    ) {
        return WsEventKind::Cancelled;
    }
    if str_eq(exec, "TRADE") {
        let is_stop = str_eq(original, "STOP") || str_eq(original, "STOP_MARKET") || str_eq(
            original,
            "TRAILING_STOP_MARKET",
        );
        let is_take_profit = str_eq(original, "TAKE_PROFIT") || str_eq(
            original,
            "TAKE_PROFIT_MARKET",
        );
        if is_stop {
            return WsEventKind::StopLossHit;
        }
        if is_take_profit {
            return WsEventKind::TakeProfitHit;
        }
        if flag(order.reduce_only) || flag(order.close_position) {
            return WsEventKind::ReducedOrClosed;
        }
        return WsEventKind::PositionOpened;
    }
    WsEventKind::UnknownOrderUpdate
}

/// The opening words of the title of an event of kind `k`.
pub open spec fn title_prefix(k: WsEventKind) -> Seq<char> {
    match k {
        WsEventKind::OrderPlaced => "Order placed: "@,
        WsEventKind::PositionOpened => "Position opened: "@,
        WsEventKind::TakeProfitHit => "Take profit hit: "@,
        WsEventKind::StopLossHit => "Stop loss hit: "@,
        WsEventKind::ReducedOrClosed => "Position reduced/closed: "@,
        WsEventKind::Cancelled => "Order cancelled: "@,
        WsEventKind::UnknownOrderUpdate => "Order update: "@,
        WsEventKind::LeverageChanged => "Leverage changed: "@,
    }
}

fn title_prefix_of(kind: WsEventKind) -> (r: &'static str)
    ensures
        r@ == title_prefix(kind),
{
    match kind {
        WsEventKind::OrderPlaced => "Order placed: ",
        WsEventKind::PositionOpened => "Position opened: ",
        WsEventKind::TakeProfitHit => "Take profit hit: ",
        WsEventKind::StopLossHit => "Stop loss hit: ",
        WsEventKind::ReducedOrClosed => "Position reduced/closed: ",
        WsEventKind::Cancelled => "Order cancelled: ",
        WsEventKind::UnknownOrderUpdate => "Order update: ",
        WsEventKind::LeverageChanged => "Leverage changed: ",
    }
}

/// The title of an event: what happened, then the symbol.
pub fn order_update_title(order: &RawOrderTradeUpdate, kind: WsEventKind) -> (r: String)
    ensures
        r@ == title_prefix(kind) + order.symbol@,
{
    let mut r = owned(title_prefix_of(kind));
    r.append(order.symbol.as_str());
    r
}

/// The quantity an update reports: accumulated, else last filled, else
/// original, else `-`.
pub open spec fn reported_qty(o: RawOrderTradeUpdate) -> Seq<char> {
    match o.accumulated_filled_qty {
        Some(q) => q@,
        None => match o.last_filled_qty {
            Some(q) => q@,
            None => or_text(o.original_qty, "-"@),
        },
    }
}

/// The order type an update reports: the original type, else the type,
/// else `-`.
pub open spec fn reported_type(o: RawOrderTradeUpdate) -> Seq<char> {
    match o.original_order_type {
        Some(t) => t@,
        None => or_text(o.order_type, "-"@),
    }
}

/// The detailed message of an event of kind `k` about order `o`.
pub open spec fn order_message(o: RawOrderTradeUpdate, k: WsEventKind) -> Seq<char> {
    let side = or_text(o.side, "-"@);
    let position_side = or_text(o.position_side, "-"@);
    let order_type = reported_type(o);
    let qty = reported_qty(o);
    let avg_price = or_text(o.average_price, "-"@);
    let last_price = or_text(o.last_filled_price, "-"@);
    let stop_price = or_text(o.stop_price, "-"@);
    let pnl = or_text(o.realized_pnl, "0"@);
    let exec = or_text(o.execution_type, "-"@);
    let status = or_text(o.order_status, "-"@);
    match k {
        WsEventKind::OrderPlaced => "New order accepted. side="@ + side + ", position_side="@
            + position_side + ", type="@ + order_type + ", qty="@ + qty + ", stop_price="@
            + stop_price + ", reduce_only="@ + bool_text(or_false(o.reduce_only))
            + ", close_position="@ + bool_text(or_false(o.close_position)),
        WsEventKind::PositionOpened => "Entry/order filled. side="@ + side + ", position_side="@
            + position_side + ", qty="@ + qty + ", avg_price="@ + avg_price
            + ", last_fill_price="@ + last_price + ", type="@ + order_type + ", realized_pnl="@
            + pnl,
        WsEventKind::TakeProfitHit => "Take profit filled. side="@ + side + ", position_side="@
            + position_side + ", qty="@ + qty + ", avg_price="@ + avg_price
            + ", last_fill_price="@ + last_price + ", realized_pnl="@ + pnl,
        WsEventKind::StopLossHit => "Stop loss filled. side="@ + side + ", position_side="@
            + position_side + ", qty="@ + qty + ", stop_price="@ + stop_price + ", avg_price="@
            + avg_price + ", last_fill_price="@ + last_price + ", realized_pnl="@ + pnl,
        WsEventKind::ReducedOrClosed => "Reduce-only / close-position order filled. side="@ + side
            + ", position_side="@ + position_side + ", qty="@ + qty + ", avg_price="@ + avg_price
            + ", last_fill_price="@ + last_price + ", realized_pnl="@ + pnl,
        WsEventKind::Cancelled => "Order cancelled or expired. side="@ + side
            + ", position_side="@ + position_side + ", type="@ + order_type + ", qty="@ + qty
            + ", execution_type="@ + exec + ", status="@ + status,
        WsEventKind::UnknownOrderUpdate => "Unclassified order event. side="@ + side
            + ", position_side="@ + position_side + ", type="@ + order_type + ", qty="@ + qty
            + ", avg_price="@ + avg_price + ", stop_price="@ + stop_price + ", execution_type="@
            + exec + ", status="@ + status + ", realized_pnl="@ + pnl,
        WsEventKind::LeverageChanged => "Leverage update received. symbol="@ + o.symbol@
            + ", side="@ + side + ", position_side="@ + position_side,
    }
}

/// The detailed message of an event about an order update.
pub fn order_update_message(order: &RawOrderTradeUpdate, kind: WsEventKind) -> (r: String)
    ensures
        r@ == order_message(*order, kind),
{
    let side = text_or(&order.side, "-");
    let position_side = text_or(&order.position_side, "-");
    let order_type = match &order.original_order_type {
        Some(t) => t.as_str(),
        None => text_or(&order.order_type, "-"),
    };
    let qty = match &order.accumulated_filled_qty {
        Some(q) => q.as_str(),
        None => match &order.last_filled_qty {
            Some(q) => q.as_str(),
            None => text_or(&order.original_qty, "-"),
        },
    };
    let avg_price = text_or(&order.average_price, "-");
    let last_price = text_or(&order.last_filled_price, "-");
    let stop_price = text_or(&order.stop_price, "-");
    let pnl = text_or(&order.realized_pnl, "0");
    let exec = text_or(&order.execution_type, "-");
    let status = text_or(&order.order_status, "-");
    let reduce_only = bool_to_text(flag(order.reduce_only));
    let close_position = bool_to_text(flag(order.close_position));
    let mut r: String;
    match kind {
        WsEventKind::OrderPlaced => {
            r = owned("New order accepted. side=");
            r.append(side);
            r.append(", position_side=");
            r.append(position_side);
            r.append(", type=");
            r.append(order_type);
            r.append(", qty=");
            r.append(qty);
            r.append(", stop_price=");
            r.append(stop_price);
            r.append(", reduce_only=");
            r.append(reduce_only);
            r.append(", close_position=");
            r.append(close_position);
        },
        WsEventKind::PositionOpened => {
            r = owned("Entry/order filled. side=");
            r.append(side);
            r.append(", position_side=");
            r.append(position_side);
            r.append(", qty=");
            r.append(qty);
            r.append(", avg_price=");
            r.append(avg_price);
            r.append(", last_fill_price=");
            r.append(last_price);
            r.append(", type=");
            r.append(order_type);
            r.append(", realized_pnl=");
            r.append(pnl);
        },
        WsEventKind::TakeProfitHit => {
            r = owned("Take profit filled. side=");
            r.append(side);
            r.append(", position_side=");
            r.append(position_side);
            r.append(", qty=");
            r.append(qty);
            r.append(", avg_price=");
            r.append(avg_price);
            r.append(", last_fill_price=");
            r.append(last_price);
            r.append(", realized_pnl=");
            r.append(pnl);
        },
        WsEventKind::StopLossHit => {
            r = owned("Stop loss filled. side=");
            r.append(side);
            r.append(", position_side=");
            r.append(position_side);
            r.append(", qty=");
            r.append(qty);
            r.append(", stop_price=");
            r.append(stop_price);
            r.append(", avg_price=");
            r.append(avg_price);
            r.append(", last_fill_price=");
            r.append(last_price);
            r.append(", realized_pnl=");
            r.append(pnl);
        },
        WsEventKind::ReducedOrClosed => {
            r = owned("Reduce-only / close-position order filled. side=");
            r.append(side);
            r.append(", position_side=");
            r.append(position_side);
            r.append(", qty=");
            r.append(qty);
            r.append(", avg_price=");
            r.append(avg_price);
            r.append(", last_fill_price=");
            r.append(last_price);
            r.append(", realized_pnl=");
            r.append(pnl);
        },
        WsEventKind::Cancelled => {
            r = owned("Order cancelled or expired. side=");
            r.append(side);
            r.append(", position_side=");
            r.append(position_side);
            r.append(", type=");
            r.append(order_type);
            r.append(", qty=");
            r.append(qty);
            r.append(", execution_type=");
            r.append(exec);
            r.append(", status=");
            r.append(status);
        },
        WsEventKind::UnknownOrderUpdate => {
            r = owned("Unclassified order event. side=");
            r.append(side);
            r.append(", position_side=");
            r.append(position_side);
            r.append(", type=");
            r.append(order_type);
            r.append(", qty=");
            r.append(qty);
            r.append(", avg_price=");
            r.append(avg_price);
            r.append(", stop_price=");
            r.append(stop_price);
            r.append(", execution_type=");
            r.append(exec);
            r.append(", status=");
            r.append(status);
            r.append(", realized_pnl=");
            r.append(pnl);
        },
        WsEventKind::LeverageChanged => {
            r = owned("Leverage update received. symbol=");
            r.append(order.symbol.as_str());
            r.append(", side=");
            r.append(side);
            r.append(", position_side=");
            r.append(position_side);
        },
    }
    r
}

/// The time of an event: its transaction time, else its event time, else
/// `now_millis`.
pub open spec fn event_time_or(env: UserStreamEnvelope, now_millis: u64) -> u64 {
    match env.transaction_time {
        Some(t) => t,
        None => match env.event_time {
            Some(t) => t,
            None => now_millis,
        },
    }
}

/// The time of an event, given the current time in milliseconds.
pub fn event_timestamp_at(env: &UserStreamEnvelope, now_millis: u64) -> (r: u64)
    ensures
        r == event_time_or(*env, now_millis),
{
    if let Some(ts) = env.transaction_time {
        return ts;
    }
    if let Some(ts) = env.event_time {
        return ts;
    }
    now_millis
}

/// Milliseconds since the epoch as an unsigned count; a time before the
/// epoch wraps around, as a cast of the signed count does.
pub open spec fn unsigned_millis(ms: i64) -> u64 {
    ms as u64
}

fn to_unsigned_millis(ms: i64) -> (r: u64)
    ensures
        r == unsigned_millis(ms),
{
    ms as u64
}

/// The time of an event: its transaction time, else its event time, else
/// the current time read from the clock.
pub fn event_timestamp(env: &UserStreamEnvelope) -> (r: u64)
    ensures
        env.transaction_time is Some ==> r == env.transaction_time.unwrap(),
        env.transaction_time is None && env.event_time is Some ==> r == env.event_time.unwrap(),
        exists|now: u64| r == event_time_or(*env, now),
{
    if let Some(ts) = env.transaction_time {
        assert(ts == event_time_or(*env, 0));
        return ts;
    }
    if let Some(ts) = env.event_time {
        assert(ts == event_time_or(*env, 0));
        return ts;
    }
    let now = to_unsigned_millis(utc_now().timestamp_millis);
    assert(now == event_time_or(*env, now));
    now
}

/// Builds the event announcing an order update that arrived at `now_millis`
/// when the envelope carries no time.
pub fn build_order_event_at(order: &RawOrderTradeUpdate, env: &UserStreamEnvelope, now_millis: u64) -> (r:
    WsEvent)
    ensures
        r.kind == order_kind(*order),
        r.symbol == Some(order.symbol),
        r.title@ == title_prefix(r.kind) + order.symbol@,
        r.message@ == order_message(*order, r.kind),
        r.timestamp == event_time_or(*env, now_millis),
{
    let kind = classify_order_update(order);
    WsEvent {
        kind,
        symbol: Some(order.symbol.clone()),
        title: order_update_title(order, kind),
        message: order_update_message(order, kind),
        timestamp: event_timestamp_at(env, now_millis),
    }
}

/// Builds the event announcing an order update; an envelope without a time
/// is stamped with the clock.
pub fn build_order_event(order: &RawOrderTradeUpdate, env: &UserStreamEnvelope) -> (r: WsEvent)
    ensures
        r.kind == order_kind(*order),
        r.symbol == Some(order.symbol),
        r.title@ == title_prefix(r.kind) + order.symbol@,
        r.message@ == order_message(*order, r.kind),
        exists|now: u64| r.timestamp == event_time_or(*env, now),
{
    let kind = classify_order_update(order);
    WsEvent {
        kind,
        symbol: Some(order.symbol.clone()),
        title: order_update_title(order, kind),
        message: order_update_message(order, kind),
        timestamp: event_timestamp(env),
    }
}

/// One message read from the user-stream socket, as the reader decoded it.
#[derive(Debug)]
pub enum StreamMessage {
    /// A text frame that is not JSON.
    InvalidJson,
    /// A JSON text frame whose envelope could not be decoded.
    UndecodableEnvelope,
    /// A decoded event, with the outcome of decoding its nested order
    /// update.
    Event { envelope: UserStreamEnvelope, order: Result<RawOrderTradeUpdate, BinanceError> },
    /// A ping with its payload.
    Ping(Vec<u8>),
    Pong,
    /// A binary frame of the given length.
    Binary(usize),
    Close,
    /// A raw frame.
    Frame,
    /// A read failure, with its text.
    ReadError(String),
}

/// What the stream reader does with a message.
#[derive(Debug, Clone)]
pub enum StreamAction {
    /// Log and read on.
    Ignore,
    /// Hand the event to the engine.
    Emit(WsEvent),
    /// Answer a ping with this payload.
    SendPong(Vec<u8>),
    /// Stop reading: the peer closed the stream.
    Stop,
    /// Stop with this error.
    Fail(BinanceError),
}

/// Whether an envelope announces an event of type `t`.
pub open spec fn has_event_type(env: UserStreamEnvelope, t: Seq<char>) -> bool {
    env.event_type matches Some(e) && e@ == t
}

/// Whether `a` is what the stream reader does with `msg`, events without a
/// time being stamped `now_millis`.
pub open spec fn stream_action_for(msg: StreamMessage, now_millis: u64, a: StreamAction) -> bool {
    match msg {
        StreamMessage::Event { envelope, order } => if has_event_type(
            envelope,
            "ORDER_TRADE_UPDATE"@,
        ) {
            match order {
                Ok(o) => a matches StreamAction::Emit(ev) && ev.kind == order_kind(o) && ev.symbol
                    == Some(o.symbol) && ev.title@ == title_prefix(ev.kind) + o.symbol@
                    && ev.message@ == order_message(o, ev.kind) && ev.timestamp == event_time_or(
                    envelope,
                    now_millis,
                ),
                Err(_) => a is Ignore,
            }
        } else if has_event_type(envelope, "listenKeyExpired"@) {
            a matches StreamAction::Fail(BinanceError::InvalidInput(m)) && m@
                == "listen key expired"@
        } else {
            a is Ignore
        },
        StreamMessage::Ping(p) => a == StreamAction::SendPong(p),
        StreamMessage::Close => a is Stop,
        StreamMessage::ReadError(e) => a matches StreamAction::Fail(BinanceError::InvalidInput(m))
            && m@ == "websocket read error: "@ + e@,
        _ => a is Ignore,
    }
}

fn is_event(env: &UserStreamEnvelope, t: &str) -> (r: bool)
    ensures
        r == has_event_type(*env, t@),
{
    match &env.event_type {
        Some(e) => str_eq(e.as_str(), t),
        None => false,
    }
}

/// Decides what to do with a user-stream message received when the clock
/// reads `now_millis`.
pub fn handle_stream_message_at(msg: StreamMessage, now_millis: u64) -> (r: StreamAction)
    ensures
        stream_action_for(msg, now_millis, r),
{
    match msg {
        StreamMessage::Event { envelope, order } => {
            if is_event(&envelope, "ORDER_TRADE_UPDATE") {
                match order {
                    Ok(o) => StreamAction::Emit(build_order_event_at(&o, &envelope, now_millis)),
                    Err(_) => StreamAction::Ignore,
                }
            } else if is_event(&envelope, "listenKeyExpired") {
                StreamAction::Fail(BinanceError::InvalidInput(owned("listen key expired")))
            } else {
                StreamAction::Ignore
            }
        },
        StreamMessage::Ping(p) => StreamAction::SendPong(p),
        StreamMessage::Close => StreamAction::Stop,
        StreamMessage::ReadError(e) => {
            let mut m = owned("websocket read error: ");
            m.append(e.as_str());
            StreamAction::Fail(BinanceError::InvalidInput(m))
        },
        _ => StreamAction::Ignore,
    }
}

/// Decides what to do with a user-stream message; events without a time are
/// stamped with the clock.
pub fn handle_stream_message(msg: StreamMessage) -> (r: StreamAction)
    ensures
        exists|now: u64| stream_action_for(msg, now, r),
{
    let now = to_unsigned_millis(utc_now().timestamp_millis);
    handle_stream_message_at(msg, now)
}

/// The error the stream reader stops with once the stream has ended.
pub fn stream_ended_error() -> (r: BinanceError)
    ensures
        r matches BinanceError::InvalidInput(m) && m@ == "websocket stream ended"@,
{
    BinanceError::InvalidInput(owned("websocket stream ended"))
}

/// The error the stream reader stops with once nobody receives its events.
pub fn receiver_dropped_error() -> (r: BinanceError)
    ensures
        r matches BinanceError::InvalidInput(m) && m@ == "ws event receiver dropped"@,
{
    BinanceError::InvalidInput(owned("ws event receiver dropped"))
}

} // verus!
