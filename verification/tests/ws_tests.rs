use mordexel::binance::BinanceError;
use mordexel::ws::{
    build_order_event, build_order_event_at, classify_order_update, event_timestamp, event_timestamp_at,
    handle_stream_message_at, order_update_message, order_update_title, receiver_dropped_error,
    stream_ended_error, RawOrderTradeUpdate, StreamAction, StreamMessage, UserStreamEnvelope,
    WsEventKind,
};

fn order(exec: Option<&str>, status: Option<&str>, ot: Option<&str>) -> RawOrderTradeUpdate {
    RawOrderTradeUpdate {
        symbol: "BTCUSDT".into(),
        client_order_id: None,
        side: Some("SELL".into()),
        position_side: Some("BOTH".into()),
        order_type: Some("LIMIT".into()),
        original_order_type: ot.map(String::from),
        time_in_force: None,
        original_qty: Some("0.010".into()),
        original_price: None,
        average_price: Some("65000".into()),
        stop_price: None,
        execution_type: exec.map(String::from),
        order_status: status.map(String::from),
        order_id: Some(7),
        last_filled_qty: Some("0.005".into()),
        accumulated_filled_qty: None,
        last_filled_price: Some("65001".into()),
        realized_pnl: Some("1.5".into()),
        working_type: None,
        reduce_only: None,
        close_position: None,
    }
}

fn envelope(e: Option<&str>, event_time: Option<u64>, tx_time: Option<u64>) -> UserStreamEnvelope {
    UserStreamEnvelope {
        event_type: e.map(String::from),
        event_time,
        transaction_time: tx_time,
        order: None,
    }
}

#[test]
fn classifies_each_kind() {
    assert_eq!(classify_order_update(&order(Some("NEW"), Some("CANCELED"), None)), WsEventKind::OrderPlaced);
    assert_eq!(classify_order_update(&order(Some("X"), Some("CANCELED"), None)), WsEventKind::Cancelled);
    assert_eq!(classify_order_update(&order(Some("EXPIRED"), None, None)), WsEventKind::Cancelled);
    assert_eq!(classify_order_update(&order(Some("CANCELED"), None, None)), WsEventKind::Cancelled);
    assert_eq!(classify_order_update(&order(None, Some("EXPIRED"), None)), WsEventKind::Cancelled);
    assert_eq!(classify_order_update(&order(Some("TRADE"), None, Some("STOP_MARKET"))), WsEventKind::StopLossHit);
    assert_eq!(classify_order_update(&order(Some("TRADE"), None, Some("TRAILING_STOP_MARKET"))), WsEventKind::StopLossHit);
    assert_eq!(classify_order_update(&order(Some("TRADE"), None, Some("TAKE_PROFIT"))), WsEventKind::TakeProfitHit);
    assert_eq!(classify_order_update(&order(Some("TRADE"), None, None)), WsEventKind::PositionOpened);
    let mut reduce = order(Some("TRADE"), None, Some("LIMIT"));
    reduce.reduce_only = Some(true);
    assert_eq!(classify_order_update(&reduce), WsEventKind::ReducedOrClosed);
    let mut close = order(Some("TRADE"), None, None);
    close.close_position = Some(true);
    assert_eq!(classify_order_update(&close), WsEventKind::ReducedOrClosed);
    assert_eq!(classify_order_update(&order(Some("AMENDMENT"), None, None)), WsEventKind::UnknownOrderUpdate);
    assert_eq!(classify_order_update(&order(None, None, None)), WsEventKind::UnknownOrderUpdate);
}

#[test]
fn stop_type_taken_from_order_type_when_original_missing() {
    let mut o = order(Some("TRADE"), None, None);
    o.order_type = Some("STOP".into());
    assert_eq!(classify_order_update(&o), WsEventKind::StopLossHit);
}

#[test]
fn titles() {
    let o = order(None, None, None);
    assert_eq!(order_update_title(&o, WsEventKind::OrderPlaced), "Order placed: BTCUSDT");
    assert_eq!(order_update_title(&o, WsEventKind::PositionOpened), "Position opened: BTCUSDT");
    assert_eq!(order_update_title(&o, WsEventKind::TakeProfitHit), "Take profit hit: BTCUSDT");
    assert_eq!(order_update_title(&o, WsEventKind::StopLossHit), "Stop loss hit: BTCUSDT");
    assert_eq!(order_update_title(&o, WsEventKind::ReducedOrClosed), "Position reduced/closed: BTCUSDT");
    assert_eq!(order_update_title(&o, WsEventKind::Cancelled), "Order cancelled: BTCUSDT");
    assert_eq!(order_update_title(&o, WsEventKind::UnknownOrderUpdate), "Order update: BTCUSDT");
    assert_eq!(order_update_title(&o, WsEventKind::LeverageChanged), "Leverage changed: BTCUSDT");
}

#[test]
fn messages() {
    let o = order(Some("TRADE"), Some("FILLED"), Some("TAKE_PROFIT"));
    assert_eq!(
        order_update_message(&o, WsEventKind::OrderPlaced),
        "New order accepted. side=SELL, position_side=BOTH, type=TAKE_PROFIT, qty=0.005, stop_price=-, reduce_only=false, close_position=false"
    );
    assert_eq!(
        order_update_message(&o, WsEventKind::PositionOpened),
        "Entry/order filled. side=SELL, position_side=BOTH, qty=0.005, avg_price=65000, last_fill_price=65001, type=TAKE_PROFIT, realized_pnl=1.5"
    );
    assert_eq!(
        order_update_message(&o, WsEventKind::TakeProfitHit),
        "Take profit filled. side=SELL, position_side=BOTH, qty=0.005, avg_price=65000, last_fill_price=65001, realized_pnl=1.5"
    );
    assert_eq!(
        order_update_message(&o, WsEventKind::StopLossHit),
        "Stop loss filled. side=SELL, position_side=BOTH, qty=0.005, stop_price=-, avg_price=65000, last_fill_price=65001, realized_pnl=1.5"
    );
    assert_eq!(
        order_update_message(&o, WsEventKind::ReducedOrClosed),
        "Reduce-only / close-position order filled. side=SELL, position_side=BOTH, qty=0.005, avg_price=65000, last_fill_price=65001, realized_pnl=1.5"
    );
    assert_eq!(
        order_update_message(&o, WsEventKind::Cancelled),
        "Order cancelled or expired. side=SELL, position_side=BOTH, type=TAKE_PROFIT, qty=0.005, execution_type=TRADE, status=FILLED"
    );
    assert_eq!(
        order_update_message(&o, WsEventKind::UnknownOrderUpdate),
        "Unclassified order event. side=SELL, position_side=BOTH, type=TAKE_PROFIT, qty=0.005, avg_price=65000, stop_price=-, execution_type=TRADE, status=FILLED, realized_pnl=1.5"
    );
    assert_eq!(
        order_update_message(&o, WsEventKind::LeverageChanged),
        "Leverage update received. symbol=BTCUSDT, side=SELL, position_side=BOTH"
    );
}

#[test]
fn message_defaults() {
    let mut o = order(None, None, None);
    o.side = None;
    o.position_side = None;
    o.order_type = None;
    o.original_qty = None;
    o.last_filled_qty = None;
    o.average_price = None;
    o.last_filled_price = None;
    o.realized_pnl = None;
    o.reduce_only = Some(true);
    assert_eq!(
        order_update_message(&o, WsEventKind::OrderPlaced),
        "New order accepted. side=-, position_side=-, type=-, qty=-, stop_price=-, reduce_only=true, close_position=false"
    );
    assert_eq!(
        order_update_message(&o, WsEventKind::TakeProfitHit),
        "Take profit filled. side=-, position_side=-, qty=-, avg_price=-, last_fill_price=-, realized_pnl=0"
    );
    let mut q = order(None, None, None);
    q.accumulated_filled_qty = Some("0.02".into());
    assert!(order_update_message(&q, WsEventKind::OrderPlaced).contains("qty=0.02"));
}

#[test]
fn timestamps_prefer_transaction_time() {
    assert_eq!(event_timestamp_at(&envelope(None, Some(5), Some(9)), 1), 9);
    assert_eq!(event_timestamp_at(&envelope(None, Some(5), None), 1), 5);
    assert_eq!(event_timestamp_at(&envelope(None, None, None), 1), 1);
    assert_eq!(event_timestamp(&envelope(None, Some(5), Some(9))), 9);
    assert_eq!(event_timestamp(&envelope(None, Some(5), None)), 5);
    assert!(event_timestamp(&envelope(None, None, None)) > 1_600_000_000_000);
}

#[test]
fn builds_events() {
    let o = order(Some("TRADE"), None, Some("STOP_MARKET"));
    let ev = build_order_event_at(&o, &envelope(Some("ORDER_TRADE_UPDATE"), Some(3), None), 100);
    assert_eq!(ev.kind, WsEventKind::StopLossHit);
    assert_eq!(ev.symbol.as_deref(), Some("BTCUSDT"));
    assert_eq!(ev.title, "Stop loss hit: BTCUSDT");
    assert_eq!(ev.timestamp, 3);
    assert!(ev.message.starts_with("Stop loss filled. side=SELL"));
}

#[test]
fn stream_messages() {
    let o = order(Some("NEW"), None, None);
    match handle_stream_message_at(
        StreamMessage::Event {
            envelope: envelope(Some("ORDER_TRADE_UPDATE"), None, None),
            order: Ok(o),
        },
        42,
    ) {
        StreamAction::Emit(ev) => {
            assert_eq!(ev.kind, WsEventKind::OrderPlaced);
            assert_eq!(ev.timestamp, 42);
        }
        other => panic!("unexpected {:?}", other),
    }
    assert!(matches!(
        handle_stream_message_at(
            StreamMessage::Event {
                envelope: envelope(Some("ORDER_TRADE_UPDATE"), None, None),
                order: Err(BinanceError::MissingField("o".into())),
            },
            1
        ),
        StreamAction::Ignore
    ));
    match handle_stream_message_at(
        StreamMessage::Event {
            envelope: envelope(Some("listenKeyExpired"), None, None),
            order: Err(BinanceError::MissingField("o".into())),
        },
        1,
    ) {
        StreamAction::Fail(e) => assert_eq!(e, BinanceError::InvalidInput("listen key expired".into())),
        other => panic!("unexpected {:?}", other),
    }
    assert!(matches!(
        handle_stream_message_at(
            StreamMessage::Event {
                envelope: envelope(Some("ACCOUNT_UPDATE"), None, None),
                order: Err(BinanceError::MissingField("o".into())),
            },
            1
        ),
        StreamAction::Ignore
    ));
    match handle_stream_message_at(StreamMessage::Ping(vec![1, 2]), 1) {
        StreamAction::SendPong(p) => assert_eq!(p, vec![1, 2]),
        other => panic!("unexpected {:?}", other),
    }
    assert!(matches!(handle_stream_message_at(StreamMessage::Close, 1), StreamAction::Stop));
    assert!(matches!(handle_stream_message_at(StreamMessage::Pong, 1), StreamAction::Ignore));
    assert!(matches!(handle_stream_message_at(StreamMessage::Binary(3), 1), StreamAction::Ignore));
    assert!(matches!(handle_stream_message_at(StreamMessage::Frame, 1), StreamAction::Ignore));
    assert!(matches!(handle_stream_message_at(StreamMessage::InvalidJson, 1), StreamAction::Ignore));
    assert!(matches!(handle_stream_message_at(StreamMessage::UndecodableEnvelope, 1), StreamAction::Ignore));
    match handle_stream_message_at(StreamMessage::ReadError("reset".into()), 1) {
        StreamAction::Fail(e) => assert_eq!(e, BinanceError::InvalidInput("websocket read error: reset".into())),
        other => panic!("unexpected {:?}", other),
    }
    assert_eq!(stream_ended_error(), BinanceError::InvalidInput("websocket stream ended".into()));
    assert_eq!(receiver_dropped_error(), BinanceError::InvalidInput("ws event receiver dropped".into()));
}

#[test]
fn builds_events_with_the_reported_time() {
    let o = order(Some("TRADE"), None, Some("STOP_MARKET"));
    let ev = build_order_event(&o, &envelope(Some("ORDER_TRADE_UPDATE"), Some(3), Some(7)));
    assert_eq!(ev.kind, WsEventKind::StopLossHit);
    assert_eq!(ev.title, "Stop loss hit: BTCUSDT");
    assert_eq!(ev.timestamp, 7);
}
