use bybit_rs::common::{Endpoint, Side, Symbol, API};
use bybit_rs::decimal::Decimal;
use bybit_rs::query::Query;
use bybit_rs::rest::{Interval, Method, OrderType, Rest, RestBuilder, TimeInForce};
use bybit_rs::rest::parse_rest_response;
use bybit_rs::rest::{OrderStatus, Period};

fn testnet_rest() -> Rest {
    RestBuilder::new()
        .api(API { key: String::from("this-is-key"), secret: String::from("this-is-secret") })
        .endpoint(Endpoint::TESTNET)
        .build()
}

#[test]
fn test_construct_request() {
    let mut hash = Query::new();
    hash.insert(String::from("key"), String::from("value"));

    let rest = testnet_rest();

    println!("{:#?}", rest.construct_query(hash, 1617706000000).pairs);
}

// The signed parameter set holds the caller's pair, the injected timestamp
// and api_key, and a signature, all in key order.
#[test]
fn construct_query_injects_and_sorts() {
    let mut params = Query::new();
    params.insert(String::from("key"), String::from("value"));
    let rest = testnet_rest();
    let q = rest.construct_query(params, 1617706000000);
    let keys: Vec<&str> = q.pairs.iter().map(|p| p.0.as_str()).collect();
    assert_eq!(keys, vec!["api_key", "key", "sign", "timestamp"]);
    assert_eq!(q.pairs[0].1, "this-is-key");
    assert_eq!(q.pairs[3].1, "1617706000000");
    // The signature signs everything but itself, and is reproducible.
    let mut again = Query::new();
    again.insert(String::from("key"), String::from("value"));
    again.insert(String::from("timestamp"), String::from("1617706000000"));
    again.insert(String::from("api_key"), String::from("this-is-key"));
    assert_eq!(q.pairs[2].1, rest.sign(&again));
}

#[test]
fn query_insert_sorts_and_replaces() {
    let mut q = Query::new();
    q.insert(String::from("symbol"), String::from("BTCUSD"));
    q.insert(String::from("interval"), String::from("5"));
    q.insert(String::from("from"), String::from("300"));
    assert_eq!(q.canonical(), "from=300&interval=5&symbol=BTCUSD");
    q.insert(String::from("interval"), String::from("15"));
    assert_eq!(q.canonical(), "from=300&interval=15&symbol=BTCUSD");
    assert_eq!(q.pairs.len(), 3);
}

#[test]
fn kline_list_request() {
    let rest = testnet_rest();
    let r = rest.public_kline_list(Symbol::BTCUSD, Interval::FiveMin, 1617705700, None);
    assert_eq!(r.method, Method::Get);
    assert_eq!(r.path, "/v2/public/kline/list");
    assert_eq!(r.query.canonical(), "from=1617705700&interval=5&symbol=BTCUSD");
}

#[test]
fn orderbook_l2_request() {
    let rest = testnet_rest();
    let r = rest.public_orderbook_l2(Symbol::ETHUSD);
    assert_eq!(r.method, Method::Get);
    assert_eq!(r.path, "/v2/public/orderBook/L2");
    assert_eq!(r.query.canonical(), "symbol=ETHUSD");
}

#[test]
fn server_time_request() {
    let rest = testnet_rest();
    let r = rest.public_server_time();
    assert_eq!(r.path, "/v2/public/time");
    assert_eq!(r.query.canonical(), "");
}

#[test]
fn order_create_request_is_signed() {
    let rest = testnet_rest();
    let r = rest.private_order_create(
        Side::Buy,
        Symbol::BTCUSD,
        OrderType::Limit,
        100,
        Some(Decimal { mantissa: 543805, scale: 1 }),
        TimeInForce::GoodTillCancel,
        None,
        None,
        Some(false),
        None,
        1617706000000,
    );
    assert_eq!(r.method, Method::Post);
    assert_eq!(r.path, "/v2/private/order/create");
    let keys: Vec<&str> = r.query.pairs.iter().map(|p| p.0.as_str()).collect();
    assert_eq!(
        keys,
        vec![
            "api_key",
            "order_type",
            "price",
            "qty",
            "reduce_only",
            "side",
            "sign",
            "symbol",
            "time_in_force",
            "timestamp",
        ],
    );
    let find = |k: &str| {
        r.query.pairs.iter().find(|p| p.0 == k).map(|p| p.1.clone()).unwrap()
    };
    assert_eq!(find("price"), "54380.5");
    assert_eq!(find("qty"), "100");
    assert_eq!(find("reduce_only"), "false");
    assert_eq!(find("side"), "Buy");
}

#[test]
fn cancel_all_orders_request() {
    let rest = testnet_rest();
    let r = rest.private_cancel_all_orders(Symbol::BTCUSD, 1617706000000);
    assert_eq!(r.method, Method::Post);
    assert_eq!(r.path, "/v2/private/order/cancelAll");
    let keys: Vec<&str> = r.query.pairs.iter().map(|p| p.0.as_str()).collect();
    assert_eq!(keys, vec!["api_key", "sign", "symbol", "timestamp"]);
}

#[test]
fn position_list_request_is_unsigned() {
    let rest = testnet_rest();
    let r = rest.private_position_list(Some(Symbol::BTCUSD));
    assert_eq!(r.path, "/v2/private/position/list");
    assert_eq!(r.query.canonical(), "symbol=BTCUSD");
}

#[test]
fn rest_response_parses() {
    let body = r#"
        {
            "ret_code": 0,
            "ret_msg": "OK",
            "ext_code": "",
            "ext_info": "",
            "result": [],
            "time_now": "1617706020.123456",
            "rate_limit_status": 119,
            "rate_limit_reset_ms": 1617706020000,
            "rate_limit": 120
        }"#;
    let r = parse_rest_response(body).unwrap();
    assert_eq!(r.ret_code, 0);
    assert_eq!(r.ret_msg, "OK");
    assert_eq!(r.timestamp, Decimal { mantissa: 1617706020123456, scale: 6 });
    assert_eq!(r.rate_limit_status, Some(119));

    let bad = r#"{"ret_code": 0}"#;
    assert!(parse_rest_response(bad).is_err());
}

#[test]
fn remaining_public_requests() {
    let rest = testnet_rest();

    let r = rest.public_liq_records(Symbol::BTCUSD, Some(1), Some(2), Some(4), Some(5));
    assert_eq!(r.path, "/v2/public/liq-records");
    assert_eq!(
        r.query.canonical(),
        "end_time=5&from=1&limit=2&start_time=4&symbol=BTCUSD",
    );

    let r = rest.public_trading_records(Symbol::BTCUSD, Some(7), None);
    assert_eq!(r.path, "/v2/public/trading-records");
    assert_eq!(r.query.canonical(), "from=7&symbol=BTCUSD");

    let r = rest.public_open_interest(Symbol::BTCUSD, Period::OneHour, Some(3));
    assert_eq!(r.path, "/v2/public/open-interest");
    assert_eq!(r.query.canonical(), "limit=3&period=1h&symbol=BTCUSD");

    let r = rest.public_big_deal(Symbol::BTCUSD, None);
    assert_eq!(r.path, "/v2/public/big-deal");
    assert_eq!(r.query.canonical(), "symbol=BTCUSD");

    let r = rest.public_account_ratio(Symbol::BTCUSD, Period::OneDay, None);
    assert_eq!(r.path, "/v2/public/account-ratio");
    assert_eq!(r.query.canonical(), "period=1d&symbol=BTCUSD");

    let r = rest.public_tickers(None);
    assert_eq!(r.path, "/v2/public/tickers");
    assert_eq!(r.query.canonical(), "");

    let r = rest.public_symbols();
    assert_eq!(r.path, "/v2/public/symbols");

    let r = rest.public_mark_price_kline(Symbol::BTCUSD, Interval::Day, 9, Some(1));
    assert_eq!(r.path, "/v2/public/mark-price-kline");
    assert_eq!(r.query.canonical(), "from=9&interval=D&limit=1&symbol=BTCUSD");

    let r = rest.public_index_price_kline(Symbol::BTCUSD, Interval::Week, 9, None);
    assert_eq!(r.path, "/v2/public/index-price-kline");

    let r = rest.public_premium_price_kline(Symbol::BTCUSD, Interval::Month, 9, None);
    assert_eq!(r.path, "/v2/public/premium-index-kline");
}

#[test]
fn private_list_and_cancel_requests() {
    let rest = testnet_rest();

    let r = rest.private_order_list(
        Symbol::BTCUSD,
        Some(OrderStatus::New),
        Some(String::from("prev")),
        Some(10),
        Some(String::from("abc")),
        1617706000000,
    );
    assert_eq!(r.method, Method::Get);
    assert_eq!(r.path, "/v2/private/order/list");
    let keys: Vec<&str> = r.query.pairs.iter().map(|p| p.0.as_str()).collect();
    assert_eq!(
        keys,
        vec![
            "api_key", "cursor", "direction", "limit", "order_status", "sign", "symbol",
            "timestamp",
        ],
    );

    let r = rest.private_cancel_order(
        Symbol::BTCUSD,
        String::from("order-1"),
        None,
        1617706000000,
    );
    assert_eq!(r.method, Method::Post);
    assert_eq!(r.path, "/v2/private/order/cancel");
    let keys: Vec<&str> = r.query.pairs.iter().map(|p| p.0.as_str()).collect();
    assert_eq!(keys, vec!["api_key", "order_id", "sign", "symbol", "timestamp"]);
}

#[test]
fn rest_enum_wire_values() {
    assert_eq!(Interval::OneMin.to_string(), "1");
    assert_eq!(Interval::TwelveHour.to_string(), "720");
    assert_eq!(Interval::Month.to_string(), "M");
    assert_eq!(Period::FiveMin.to_string(), "5min");
    assert_eq!(Period::FourHour.to_string(), "4h");
    assert_eq!(OrderType::Limit.to_string(), "Limit");
    assert_eq!(OrderType::Market.to_string(), "Market");
    assert_eq!(TimeInForce::GoodTillCancel.to_string(), "GoodTillCancel");
    assert_eq!(TimeInForce::PostOnly.to_string(), "PostOnly");
    assert_eq!(OrderStatus::Filled.to_string(), "Filled");
    assert_eq!(OrderStatus::New.to_string(), "New");
}
