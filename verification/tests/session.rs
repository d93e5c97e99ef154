use bybit_rs::common::{Endpoint, Symbol, API};
use bybit_rs::enums::Topic;
use bybit_rs::error::Error;
use bybit_rs::store::MarketStore;
use bybit_rs::websocket::{ping_frame, SessionState, WebSocketBuilder};
use bybit_rs::websocket::RunAction;
use bybit_rs::websocket::WsArgs;
use bybit_rs::common::Side;

fn mainnet_session() -> bybit_rs::websocket::WebSocket {
    WebSocketBuilder::new()
        .endpoint(Endpoint::MAINNET)
        .api(API { key: String::from("this-is-key"), secret: String::from("this-is-secret") })
        .build()
}

#[test]
fn connect_urls() {
    let ws = mainnet_session();
    assert_eq!(ws.connect_url(), "wss://stream.bybit.com/realtime");
    let testnet = WebSocketBuilder::new()
        .endpoint(Endpoint::TESTNET)
        .api(API { key: String::new(), secret: String::new() })
        .build();
    assert_eq!(testnet.connect_url(), "wss://stream-testnet.bybit.com/realtime");
}

#[test]
fn auth_frame_contents() {
    let ws = mainnet_session();
    let (frame, expires) = ws.auth_frame(1617706000000);
    assert_eq!(expires, 1617706010000);
    // The frame carries the key, the expiry, and the hex signature over
    // "GET/realtime" followed by the expiry.
    let expected_sig = bybit_rs::signer::sign("this-is-secret", "GET/realtime1617706010000");
    let expected = format!(
        "{{\"op\":\"auth\",\"args\":[\"this-is-key\",\"1617706010000\",\"{}\"]}}",
        expected_sig,
    );
    assert_eq!(frame, expected);
}

// A handshake reply with success=false fails authentication and leaves the
// session in a non-authenticated state.
#[test]
fn authentication_failure() {
    let mut ws = mainnet_session();
    ws.on_connected();
    let out = ws.handle_auth_reply(Some(r#"{"success": false}"#));
    assert_eq!(out, Err(Error::Authentication));
    assert_ne!(ws.state, SessionState::Authenticated);
    assert_eq!(ws.state, SessionState::Failed);
}

#[test]
fn authentication_success() {
    let mut ws = mainnet_session();
    ws.on_connected();
    let out = ws.handle_auth_reply(Some(r#"{"success": true, "ret_msg": ""}"#));
    assert_eq!(out, Ok(()));
    assert_eq!(ws.state, SessionState::Authenticated);
}

// A socket that closes before the reply is an authentication failure too.
#[test]
fn authentication_closed_socket() {
    let mut ws = mainnet_session();
    ws.on_connected();
    assert_eq!(ws.handle_auth_reply(None), Err(Error::Authentication));
    assert_eq!(ws.state, SessionState::Failed);
}

#[test]
fn subscribe_frame_appends_symbol() {
    let ws = mainnet_session();
    let topics = vec![Topic::OrderBook200, Topic::Trade, Topic::Position];
    let frame = ws.subscribe_frame(&topics, Symbol::BTCUSD);
    assert_eq!(
        frame,
        "{\"op\":\"subscribe\",\"args\":[\"orderBook_200.100ms.BTCUSD\",\"trade.BTCUSD\",\"position\"]}",
    );
}

#[test]
fn ping_frame_text() {
    assert_eq!(ping_frame(), "{\"op\":\"ping\",\"args\":null}");
}

#[test]
fn run_loop_actions() {
    let ws = mainnet_session();
    assert_eq!(ws.next_action(0), RunAction::ReadFrame);
    assert_eq!(ws.next_action(59), RunAction::ReadFrame);
    assert_eq!(ws.next_action(60), RunAction::SendPing);
    assert_eq!(ws.next_action(3600), RunAction::SendPing);
}

// The dispatch loop consumes acknowledgements quietly, fails loudly on a
// failure acknowledgement, and applies data frames to the store.
#[test]
fn handle_frame_paths() {
    let mut ws = mainnet_session();
    let mut store = MarketStore::new();
    ws.on_connected();

    // A pong acknowledgement is consumed without error.
    assert_eq!(
        ws.handle_frame(&mut store, Some(r#"{"success": true, "ret_msg": "pong"}"#)),
        Ok(()),
    );

    // A subscribe acknowledgement likewise.
    assert_eq!(
        ws.handle_frame(&mut store, Some(r#"{"success": true, "ret_msg": ""}"#)),
        Ok(()),
    );

    // A data frame lands in the store.
    let trades = r#"
        {
            "topic": "trade.BTCUSD",
            "data": [{"trade_time_ms": 1, "side": "Sell", "size": 10, "price": 58617,
                      "tick_direction": "ZeroMinusTick", "trade_id": "a", "symbol": "BTCUSD"}]
        }"#;
    assert_eq!(ws.handle_frame(&mut store, Some(trades)), Ok(()));
    assert_eq!(ws.state, SessionState::Running);
    assert_eq!(store.take_trading_records().len(), 1);

    // A failure acknowledgement ends the loop with a subscription failure.
    assert_eq!(
        ws.handle_frame(&mut store, Some(r#"{"success": false, "ret_msg": "bad topic"}"#)),
        Err(Error::Subscription),
    );
    assert_eq!(ws.state, SessionState::Failed);
}

#[test]
fn handle_frame_closed_socket() {
    let mut ws = mainnet_session();
    let mut store = MarketStore::new();
    ws.on_connected();
    assert_eq!(ws.handle_frame(&mut store, None), Err(Error::Connection));
    assert_eq!(ws.state, SessionState::Failed);
}

#[test]
fn error_messages() {
    assert_eq!(Error::Connection.message(), "connection failed");
    assert_eq!(Error::Authentication.message(), "authentication failed");
    assert_eq!(Error::Subscription.message(), "subscription failed");
    assert_eq!(Error::Decoding.message(), "failed to decode a frame");
    assert_eq!(Error::Routing.message(), "unsupported topic");
}

#[test]
fn topic_wire_names() {
    assert_eq!(Topic::OrderBook25.into_string(), "orderBookL2_25");
    assert_eq!(Topic::OrderBook200.into_string(), "orderBook_200.100ms");
    assert_eq!(Topic::Trade.into_string(), "trade");
    assert_eq!(Topic::Insurance.into_string(), "insurance");
    assert_eq!(Topic::Instrument.into_string(), "instrument_info.100ms");
    assert_eq!(Topic::KLine.into_string(), "klineV2.1");
    assert_eq!(Topic::Position.into_string(), "position");
    assert_eq!(Topic::Execution.into_string(), "execution");
    assert_eq!(Topic::Order.into_string(), "order");
    assert_eq!(Topic::StopOrder.into_string(), "stop_order");
}

// Frame serialization escapes quotes, backslashes, and control characters.
#[test]
fn frame_escapes_strings() {
    let frame = WsArgs {
        op: String::from("auth"),
        args: Some(vec![String::from("a\"b\\c"), String::from("x\ny")]),
    }
    .into_frame();
    assert_eq!(frame, "{\"op\":\"auth\",\"args\":[\"a\\\"b\\\\c\",\"x\\u000ay\"]}");
}

#[test]
fn wire_names() {
    assert_eq!(Side::Buy.to_string(), "Buy");
    assert_eq!(Side::Sell.to_string(), "Sell");
    assert_eq!(Symbol::BTCUSD.to_string(), "BTCUSD");
    assert_eq!(Symbol::BCHUSDT.to_string(), "BCHUSDT");
}

// A frame that is not JSON at all matches neither shape: a fatal
// subscription failure that leaves the store untouched.
#[test]
fn handle_frame_garbage_text() {
    let mut ws = mainnet_session();
    let mut store = MarketStore::new();
    ws.on_connected();
    assert_eq!(ws.handle_frame(&mut store, Some("not json")), Err(Error::Subscription));
    assert_eq!(ws.state, SessionState::Failed);
    assert!(store.take_trading_records().is_empty());
}

// An unreadable handshake reply fails authentication like a refused one.
#[test]
fn authentication_garbage_reply() {
    let mut ws = mainnet_session();
    ws.on_connected();
    assert_eq!(ws.handle_auth_reply(Some("not json")), Err(Error::Authentication));
    assert_eq!(ws.state, SessionState::Failed);
}

// An acknowledgement whose success field is not a boolean is no success.
#[test]
fn authentication_non_boolean_success() {
    let mut ws = mainnet_session();
    ws.on_connected();
    assert_eq!(
        ws.handle_auth_reply(Some(r#"{"success": "yes"}"#)),
        Err(Error::Authentication),
    );
}
