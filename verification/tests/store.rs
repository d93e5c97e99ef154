use bybit_rs::decimal::Decimal;
use bybit_rs::enums::Order;
use bybit_rs::error::Error;
use bybit_rs::store::{MarketStore, Route};
use bybit_rs::websocket::parse_response;
use bybit_rs::store::route_topic;

#[test]
fn store_message_snapshot() {
    let data = r#"
        {
            "cross_seq": 5567735855,
            "data": [{
                "id": 543800000,
                "price": "54380.00",
                "side": "Buy",
                "size": 3928,
                "symbol": "BTCUSD"
              }, {
                "id": 545925000,
                "price": "54592.50",
                "side": "Sell",
                "size": 18,
                "symbol": "BTCUSD"
            }],
            "timestamp_e6": 1616855405687214,
            "topic": "orderBook_200.100ms.BTCUSD",
            "type": "snapshot"
        }"#;

    let res = parse_response(data).unwrap();
    let mut store = MarketStore::new();
    store.store_message(res).unwrap();
}

#[test]
fn store_message_delta() {
    let data = r#"
        {
            "topic": "orderBook_200.100ms.BTCUSD",
            "type": "delta",
            "data": {
                "delete": [{
                    "price": "58892.50",
                    "symbol": "BTCUSD",
                    "id": 588925000,
                    "side": "Sell"
                }],
                "update": [{
                    "price": "58818.50",
                    "symbol": "BTCUSD",
                    "id": 588185000,
                    "side": "Sell",
                    "size": 290181
                }],
                "insert": [{
                    "price": "58785.50",
                    "symbol": "BTCUSD",
                    "id": 587855000,
                    "side": "Sell",
                    "size": 11552
                }],
                "transactTimeE6": 0
            },
            "cross_seq": 5739038410,
            "timestamp_e6": 1617702691138576
        }"#;

    let res = parse_response(data).unwrap();
    let mut store = MarketStore::new();
    store.store_message(res).unwrap();
}

#[test]
fn store_message_record() {
    let data = r#"
        {
            "topic": "trade.BTCUSD",
            "data": [{
                "trade_time_ms": 1617705958803,
                "timestamp": "2021-04-06T10:45:58.000Z",
                "symbol": "BTCUSD",
                "side": "Sell",
                "size": 9460,
                "price": 58617,
                "tick_direction": "ZeroMinusTick",
                "trade_id": "930ba5dd-67d3-5067-b253-117eb1aeeb7b",
                "cross_seq": 5739533035
            }]
        }"#;

    let res = parse_response(data).unwrap();
    let mut store = MarketStore::new();
    store.store_message(res).unwrap();
}

fn snapshot_two_levels() -> &'static str {
    r#"
        {
            "cross_seq": 5567735855,
            "data": [{
                "id": 543800000,
                "price": "54380.00",
                "side": "Buy",
                "size": 3928,
                "symbol": "BTCUSD"
              }, {
                "id": 545925000,
                "price": "54592.50",
                "side": "Sell",
                "size": 18,
                "symbol": "BTCUSD"
            }],
            "timestamp_e6": 1616855405687214,
            "topic": "orderBook_200.100ms.BTCUSD",
            "type": "snapshot"
        }"#
}

fn delta_three_ways() -> &'static str {
    r#"
        {
            "topic": "orderBook_200.100ms.BTCUSD",
            "type": "delta",
            "data": {
                "delete": [{
                    "price": "58892.50",
                    "symbol": "BTCUSD",
                    "id": 588925000,
                    "side": "Sell"
                }],
                "update": [{
                    "price": "58818.50",
                    "symbol": "BTCUSD",
                    "id": 588185000,
                    "side": "Sell",
                    "size": 290181
                }],
                "insert": [{
                    "price": "58785.50",
                    "symbol": "BTCUSD",
                    "id": 587855000,
                    "side": "Sell",
                    "size": 11552
                }],
                "transactTimeE6": 0
            },
            "cross_seq": 5739038410,
            "timestamp_e6": 1617702691138576
        }"#
}

// A snapshot followed by a delta leaves exactly the union of the surviving
// levels, with the delta's timestamp.
#[test]
fn snapshot_then_delta_end_to_end() {
    let mut store = MarketStore::new();
    let snap = parse_response(snapshot_two_levels()).unwrap();
    store.store_message(snap).unwrap();
    let delta = parse_response(delta_three_ways()).unwrap();
    store.store_message(delta).unwrap();

    let book = store.take_orderbook();
    assert_eq!(book.limits.len(), 4);
    assert_eq!(book.timestamp, 1617702691138576);

    let l1 = book.limits.get(&543800000).unwrap();
    assert_eq!(l1.size, 3928);
    assert!(matches!(l1.side, Order::Buy));
    assert_eq!(l1.price, Decimal { mantissa: 5438000, scale: 2 });

    let l2 = book.limits.get(&545925000).unwrap();
    assert_eq!(l2.size, 18);
    assert!(matches!(l2.side, Order::Sell));

    let l3 = book.limits.get(&588185000).unwrap();
    assert_eq!(l3.size, 290181);
    assert_eq!(l3.price, Decimal { mantissa: 5881850, scale: 2 });

    let l4 = book.limits.get(&587855000).unwrap();
    assert_eq!(l4.size, 11552);

    assert!(!book.limits.contains_key(&588925000));
}

// Applying the same insert twice leaves the book exactly as one application.
#[test]
fn snapshot_applied_twice_is_idempotent() {
    let mut once = MarketStore::new();
    let mut twice = MarketStore::new();
    once.store_message(parse_response(snapshot_two_levels()).unwrap()).unwrap();
    twice.store_message(parse_response(snapshot_two_levels()).unwrap()).unwrap();
    twice.store_message(parse_response(snapshot_two_levels()).unwrap()).unwrap();

    let a = once.take_orderbook();
    let b = twice.take_orderbook();
    assert_eq!(a.timestamp, b.timestamp);
    assert_eq!(a.limits.len(), b.limits.len());
    for (id, l) in a.limits.iter() {
        let m = b.limits.get(id).unwrap();
        assert_eq!(l.size, m.size);
        assert_eq!(l.price, m.price);
    }
}

// A delta that deletes and then inserts the same id keeps the inserted value.
#[test]
fn delta_insert_wins_over_delete() {
    let mut store = MarketStore::new();
    store.store_message(parse_response(snapshot_two_levels()).unwrap()).unwrap();
    let data = r#"
        {
            "topic": "orderBook_200.100ms.BTCUSD",
            "type": "delta",
            "data": {
                "delete": [{"id": 543800000, "price": "54380.00", "side": "Buy", "symbol": "BTCUSD"}],
                "update": [],
                "insert": [{"id": 543800000, "price": "54381.00", "side": "Buy", "size": 77, "symbol": "BTCUSD"}]
            },
            "timestamp_e6": 1616855405687300,
            "cross_seq": 1
        }"#;
    store.store_message(parse_response(data).unwrap()).unwrap();
    let book = store.take_orderbook();
    let l = book.limits.get(&543800000).unwrap();
    assert_eq!(l.size, 77);
    assert_eq!(l.price, Decimal { mantissa: 5438100, scale: 2 });
}

// The book reports the timestamp of the last frame applied.
#[test]
fn timestamp_follows_last_frame() {
    let mut store = MarketStore::new();
    store.store_message(parse_response(snapshot_two_levels()).unwrap()).unwrap();
    assert_eq!(store.take_orderbook().timestamp, 1616855405687214);
    store.store_message(parse_response(delta_three_ways()).unwrap()).unwrap();
    assert_eq!(store.take_orderbook().timestamp, 1617702691138576);
}

// Draining the trade tape is exhaustive and atomic: the first drain returns
// everything, the second only what arrived in between.
#[test]
fn drain_trades_twice() {
    let mut store = MarketStore::new();
    let trades = r#"
        {
            "topic": "trade.BTCUSD",
            "data": [
                {"trade_time_ms": 1, "side": "Sell", "size": 10, "price": 58617,
                 "tick_direction": "ZeroMinusTick", "trade_id": "a", "symbol": "BTCUSD"},
                {"trade_time_ms": 2, "side": "Buy", "size": 20, "price": 58618.5,
                 "tick_direction": "PlusTick", "trade_id": "b", "symbol": "BTCUSD"}
            ]
        }"#;
    store.store_message(parse_response(trades).unwrap()).unwrap();
    let first = store.take_trading_records();
    assert_eq!(first.len(), 2);
    assert_eq!(first[0].trade_id, "a");
    assert_eq!(first[0].timestamp, 1);
    assert_eq!(first[1].trade_id, "b");
    assert_eq!(first[1].price, Decimal { mantissa: 586185, scale: 1 });

    let more = r#"
        {
            "topic": "trade.BTCUSD",
            "data": [
                {"trade_time_ms": 3, "side": "Sell", "size": 30, "price": 58620,
                 "tick_direction": "MinusTick", "trade_id": "c", "symbol": "BTCUSD"}
            ]
        }"#;
    store.store_message(parse_response(more).unwrap()).unwrap();
    let second = store.take_trading_records();
    assert_eq!(second.len(), 1);
    assert_eq!(second[0].trade_id, "c");

    let third = store.take_trading_records();
    assert!(third.is_empty());
}

// An unknown topic is a routing failure, never silence.
#[test]
fn unknown_topic_fails_loudly() {
    let mut store = MarketStore::new();
    let data = r#"{"topic": "unknown_channel.BTCUSD", "data": []}"#;
    let res = parse_response(data).unwrap();
    let out = store.store_message(res);
    assert_eq!(out, Err(Error::Routing));
}

// Channels the store does not support yet are routing failures too.
#[test]
fn unsupported_topic_fails() {
    let mut store = MarketStore::new();
    let data = r#"{"topic": "klineV2.1.BTCUSD", "data": []}"#;
    assert_eq!(store.store_message(parse_response(data).unwrap()), Err(Error::Routing));
    let data2 = r#"{"topic": "insurance", "data": []}"#;
    assert_eq!(store.store_message(parse_response(data2).unwrap()), Err(Error::Routing));
}

#[test]
fn route_topic_prefixes() {
    assert_eq!(route_topic("orderBook_200.100ms.BTCUSD"), Route::Book);
    assert_eq!(route_topic("orderBookL2_25.BTCUSD"), Route::Book);
    assert_eq!(route_topic("trade.BTCUSD"), Route::Trade);
    assert_eq!(route_topic("instrument_info.100ms.BTCUSD"), Route::Instrument);
    assert_eq!(route_topic("position"), Route::Position);
    assert_eq!(route_topic("order"), Route::Unsupported);
    assert_eq!(route_topic("stop_order"), Route::Unsupported);
    assert_eq!(route_topic("execution"), Route::Unsupported);
    assert_eq!(route_topic("insurance"), Route::Unsupported);
    assert_eq!(route_topic("unknown_channel.BTCUSD"), Route::Unknown);
}

// A book frame without a kind is a decoding failure and changes nothing.
#[test]
fn book_frame_without_kind_fails() {
    let mut store = MarketStore::new();
    let data = r#"{"topic": "orderBook_200.100ms.BTCUSD", "timestamp_e6": 5, "data": []}"#;
    assert_eq!(store.store_message(parse_response(data).unwrap()), Err(Error::Decoding));
    assert_eq!(store.take_orderbook().timestamp, 0);
}

// A trade element with an impossible side is a decoding failure.
#[test]
fn bad_trade_side_fails() {
    let mut store = MarketStore::new();
    let data = r#"
        {
            "topic": "trade.BTCUSD",
            "data": [{"trade_time_ms": 1, "side": "Hold", "size": 10, "price": 1,
                      "tick_direction": "PlusTick", "trade_id": "x", "symbol": "BTCUSD"}]
        }"#;
    assert_eq!(store.store_message(parse_response(data).unwrap()), Err(Error::Decoding));
    assert!(store.take_trading_records().is_empty());
}

// An instrument snapshot replaces the whole record, rescaling wire integers.
#[test]
fn instrument_snapshot_rescales() {
    let mut store = MarketStore::new();
    let data = r#"
        {
            "topic": "instrument_info.100ms.BTCUSD",
            "type": "snapshot",
            "timestamp_e6": 1,
            "data": {
                "symbol": "BTCUSD",
                "last_price_e4": 545855000,
                "last_tick_direction": "PlusTick",
                "prev_price_24h_e4": 540005000,
                "price_24h_pcnt_e6": 10831,
                "high_price_24h_e4": 548550000,
                "low_price_24h_e4": 538300000,
                "prev_price_1h_e4": 544555000,
                "price_1h_pcnt_e6": 2387,
                "mark_price_e4": 545850000,
                "index_price_e4": 545857500,
                "open_interest": 5222227,
                "total_turnover_e8": 123,
                "turnover_24h_e8": 456,
                "total_volume": 78,
                "volume_24h": 9,
                "predicted_funding_rate_e6": 100,
                "created_at": "2018-11-14T16:33:26Z",
                "updated_at": "2021-04-06T10:45:58Z",
                "next_funding_time": "2021-04-06T16:00:00Z",
                "countdown_hour": 6
            }
        }"#;
    store.store_message(parse_response(data).unwrap()).unwrap();
    let inst = store.read_instrument().unwrap();
    assert_eq!(inst.symbol, "BTCUSD");
    assert_eq!(inst.last_price, Decimal { mantissa: 545855000, scale: 4 });
    assert_eq!(inst.price_24h_pcnt, Decimal { mantissa: 10831, scale: 6 });
    assert_eq!(inst.total_turnover, Decimal { mantissa: 123, scale: 8 });
    assert_eq!(inst.open_interest, 5222227);
    assert_eq!(inst.countdown_hour, 6);
}

// An instrument delta replaces the record from its update object; omitted
// fields revert to their defaults.
#[test]
fn instrument_delta_replaces_wholesale() {
    let mut store = MarketStore::new();
    let data_obj = r#"
        {
            "topic": "instrument_info.100ms.BTCUSD",
            "type": "delta",
            "timestamp_e6": 2,
            "data": {
                "update": {"last_price_e4": 545855000, "symbol": "BTCUSD"}
            }
        }"#;
    store.store_message(parse_response(data_obj).unwrap()).unwrap();
    let inst = store.read_instrument().unwrap();
    assert_eq!(inst.last_price, Decimal { mantissa: 545855000, scale: 4 });
    // A field the delta omitted stands at its default.
    assert_eq!(inst.open_interest, 0);
    assert_eq!(inst.high_price_24h, Decimal { mantissa: 0, scale: 4 });
}

// A position frame replaces the snapshot wholesale; a missing field fails.
#[test]
fn position_snapshot_and_errors() {
    let mut store = MarketStore::new();
    let data = r#"
        {
            "topic": "position",
            "data": {
                "user_id": 1,
                "symbol": "BTCUSD",
                "side": "Buy",
                "size": 100,
                "position_value": "0.001",
                "entry_price": "54380.5",
                "liq_price": "100.25",
                "bust_price": "99.5",
                "leverage": "100",
                "order_margin": "0",
                "position_margin": "1",
                "available_balance": "0.5",
                "take_profit": "0",
                "tp_trigger_by": "LastPrice",
                "stop_loss": "0",
                "sl_trigger_by": "",
                "realised_pnl": "-0.25",
                "trailing_stop": "0",
                "trailing_active": "0",
                "wallet_balance": "1.5",
                "risk_id": 1,
                "is_isolated": true,
                "occ_closing_fee": "0.001",
                "occ_funding_fee": "0",
                "auto_add_margin": 0,
                "cum_realised_pnl": "3.5",
                "position_status": "Normal"
            }
        }"#;
    store.store_message(parse_response(data).unwrap()).unwrap();
    let pos = store.read_position().unwrap();
    assert_eq!(pos.user_id, 1);
    assert!(matches!(pos.side, Order::Buy));
    assert_eq!(pos.leverage, 100);
    assert_eq!(pos.entry_price, Decimal { mantissa: 543805, scale: 1 });
    assert_eq!(pos.realised_pnl, Decimal { mantissa: -25, scale: 2 });
    assert!(pos.is_isolated);

    // Without a required field the frame is a decoding failure and the
    // previous snapshot stays.
    let missing = r#"{"topic": "position", "data": {"user_id": 2}}"#;
    assert_eq!(store.store_message(parse_response(missing).unwrap()), Err(Error::Decoding));
    assert_eq!(store.read_position().unwrap().user_id, 1);
}

// A snapshot upserts by id without clearing the map first: a level present
// before the snapshot but absent from its payload survives.
#[test]
fn snapshot_keeps_stale_levels() {
    let mut store = MarketStore::new();
    store.store_message(parse_response(snapshot_two_levels()).unwrap()).unwrap();
    let second = r#"
        {
            "topic": "orderBook_200.100ms.BTCUSD",
            "type": "snapshot",
            "data": [{"id": 600000000, "price": "60000.00", "side": "Sell", "size": 5, "symbol": "BTCUSD"}],
            "timestamp_e6": 1616855405687400,
            "cross_seq": 2
        }"#;
    store.store_message(parse_response(second).unwrap()).unwrap();
    let book = store.take_orderbook();
    assert_eq!(book.limits.len(), 3);
    assert!(book.limits.contains_key(&543800000));
    assert!(book.limits.contains_key(&600000000));
}
