use bybit_rs::websocket::parse_response;

#[test]
fn deserialize_response() {
    let data = r#"
        {
            "cross_seq": 5567735855,
            "data": [{
                "id": 543800000,
                "price": "54380.00",
                "side": "Buy",
                "size": 3928,
                "symbol": "BTCUSD"
              }, {
                "id": 545925000,
                "price": "54592.50",
                "side": "Sell",
                "size": 18,
                "symbol": "BTCUSD"
            }],
            "timestamp_e6": 1616855405687214,
            "topic": "orderBook_200.100ms.BTCUSD",
            "type": "snapshot"
        }"#;

    let res = parse_response(data).unwrap();
    assert_eq!(res.topic, "orderBook_200.100ms.BTCUSD");
    assert_eq!(res.msg_type.as_deref(), Some("snapshot"));
    assert_eq!(res.timestamp, Some(1616855405687214));
}

#[test]
fn acknowledgement_is_not_an_envelope() {
    let data = r#"{"success": true, "ret_msg": "pong"}"#;
    assert!(parse_response(data).is_err());
}
