use alpaca_api_client::stream::MarketDataMessage;
use alpaca_api_client::stream::StreamError;
use alpaca_api_client::stream::codec::encode_auth_market;
use alpaca_api_client::stream::codec::encode_auth_trade_updates;
use alpaca_api_client::stream::codec::encode_listen;
use alpaca_api_client::stream::codec::market_auth_ok;
use alpaca_api_client::stream::codec::parse_market_data_messages;
use alpaca_api_client::stream::codec::trade_auth_ok;
use alpaca_api_client::stream::order_json::parse_trade_update_frame;

#[test]
fn test_parse_market_data_messages() {
    let json = r#"[{"T":"t","S":"AAPL","i":1,"x":"V","p":126.55,"s":1,"t":"2021-02-22T15:51:44.208Z"},{"T":"b","S":"SPY","o":388.0,"h":389.0,"l":388.0,"c":389.0,"v":100,"t":"2021-02-22T19:15:00Z","n":10,"vw":388.5}]"#;
    let messages = parse_market_data_messages(json).unwrap();
    assert_eq!(messages.len(), 2);
}

#[test]
fn test_parse_control_messages_skipped() {
    let json = r#"[{"T":"success","msg":"connected"}]"#;
    let messages = parse_market_data_messages(json).unwrap();
    assert_eq!(messages.len(), 0);
}

#[test]
fn test_deserialize_stream_trade() {
    let json = r#"[{"T":"t","S":"AAPL","i":96921,"x":"V","p":126.55,"s":1,"t":"2021-02-22T15:51:44.208Z","c":["@","I"],"z":"C"}]"#;
    let messages = parse_market_data_messages(json).unwrap();
    assert_eq!(messages.len(), 1);
    match &messages[0] {
        MarketDataMessage::Trade(trade) => {
            assert_eq!(trade.symbol, "AAPL");
            assert_eq!(trade.p, "126.55");
            assert_eq!(trade.i, Some(96921));
            assert_eq!(trade.x.as_deref(), Some("V"));
            assert_eq!(trade.c.as_ref().unwrap(), &vec!["@".to_string(), "I".to_string()]);
            assert_eq!(trade.z.as_deref(), Some("C"));
        }
        other => panic!("expected a trade, got {:?}", other),
    }
}

#[test]
fn test_deserialize_stream_quote() {
    let json = r#"[{"T":"q","S":"AMD","bx":"U","bp":87.66,"bs":1,"ax":"Q","ap":87.68,"as":4,"t":"2021-02-22T15:51:45.335Z","c":["R"],"z":"C"}]"#;
    let messages = parse_market_data_messages(json).unwrap();
    match &messages[0] {
        MarketDataMessage::Quote(quote) => {
            assert_eq!(quote.symbol, "AMD");
            assert_eq!(quote.bp, "87.66");
            assert_eq!(quote.ap, "87.68");
            assert_eq!(quote.ask_size, "4");
        }
        other => panic!("expected a quote, got {:?}", other),
    }
}

#[test]
fn test_deserialize_stream_bar() {
    let json = r#"[{"T":"b","S":"SPY","o":388.985,"h":389.13,"l":388.975,"c":389.12,"v":49378,"t":"2021-02-22T19:15:00Z","n":797,"vw":389.066}]"#;
    let messages = parse_market_data_messages(json).unwrap();
    match &messages[0] {
        MarketDataMessage::Bar(bar) => {
            assert_eq!(bar.symbol, "SPY");
            assert_eq!(bar.bar_type, "b");
            assert_eq!(bar.v, 49378);
            assert_eq!(bar.n, 797);
            assert_eq!(bar.vw, "389.066");
        }
        other => panic!("expected a bar, got {:?}", other),
    }
}

#[test]
fn test_discriminator_daily_and_updated_bars() {
    let json = r#"[{"T":"d","S":"SPY","o":1,"h":2,"l":1,"c":2,"v":3,"t":"x","n":1,"vw":1.5},{"T":"u","S":"SPY","o":1,"h":2,"l":1,"c":2,"v":3,"t":"x","n":1,"vw":1.5}]"#;
    let messages = parse_market_data_messages(json).unwrap();
    assert!(matches!(messages[0], MarketDataMessage::DailyBar(_)));
    assert!(matches!(messages[1], MarketDataMessage::UpdatedBar(_)));
}

#[test]
fn test_discriminator_status() {
    let json = r#"[{"T":"s","S":"AAPL","sc":"H","sm":"halt","t":"2021-02-22T19:15:00Z"}]"#;
    let messages = parse_market_data_messages(json).unwrap();
    match &messages[0] {
        MarketDataMessage::Status(status) => {
            assert_eq!(status.symbol, "AAPL");
            assert_eq!(status.sc.as_deref(), Some("H"));
            assert_eq!(status.rm, None);
        }
        other => panic!("expected a status, got {:?}", other),
    }
}

#[test]
fn test_mixed_batch_keeps_known_in_order() {
    let json = r#"[{"T":"success","msg":"ok"},{"T":"t","S":"A","p":1,"s":1,"t":"x"},{"T":"subscription","trades":[]},{"T":"q","S":"B","bp":1,"bs":1,"ap":2,"as":2,"t":"x"},{"T":"error","msg":"no"},{"T":"zz","S":"C"}]"#;
    let messages = parse_market_data_messages(json).unwrap();
    assert_eq!(messages.len(), 2);
    assert!(matches!(&messages[0], MarketDataMessage::Trade(t) if t.symbol == "A"));
    assert!(matches!(&messages[1], MarketDataMessage::Quote(q) if q.symbol == "B"));
}

#[test]
fn test_malformed_element_fails_whole_batch() {
    let json = r#"[{"T":"t","S":"A","p":1,"s":1,"t":"x"},{"T":"t","S":"B","s":1,"t":"x"}]"#;
    match parse_market_data_messages(json) {
        Err(StreamError::Json(raw)) => assert_eq!(raw, json),
        other => panic!("expected a decode failure, got {:?}", other),
    }
}

#[test]
fn test_non_array_frame_fails() {
    let json = r#"{"T":"t"}"#;
    assert!(matches!(
        parse_market_data_messages(json),
        Err(StreamError::Json(_))
    ));
}

#[test]
fn test_bar_count_too_large_fails() {
    let json = r#"[{"T":"b","S":"SPY","o":1,"h":2,"l":1,"c":2,"v":99999999999,"t":"x","n":1,"vw":1.5}]"#;
    assert!(matches!(
        parse_market_data_messages(json),
        Err(StreamError::Json(_))
    ));
}

#[test]
fn test_encode_auth_messages() {
    assert_eq!(
        encode_auth_market("id", "sec"),
        r#"{"action":"auth","key":"id","secret":"sec"}"#
    );
    assert_eq!(
        encode_auth_trade_updates("id", "sec"),
        r#"{"action":"authenticate","data":{"key_id":"id","secret_key":"sec"}}"#
    );
    assert_eq!(
        encode_listen(),
        r#"{"action":"listen","data":{"streams":["trade_updates"]}}"#
    );
}

#[test]
fn test_encoding_escapes_as_the_json_serializer_does() {
    let key = "k\"1\\x\n\u{1f}";
    let secret = "s\t\r\u{8}\u{c}plain";
    let mut obj = serde_json::Map::new();
    obj.insert("action".to_string(), serde_json::Value::String("auth".to_string()));
    obj.insert("key".to_string(), serde_json::Value::String(key.to_string()));
    obj.insert("secret".to_string(), serde_json::Value::String(secret.to_string()));
    let expected = serde_json::to_string(&serde_json::Value::Object(obj)).unwrap();
    assert_eq!(encode_auth_market(key, secret), expected);
}

#[test]
fn test_market_auth_reply_check() {
    assert!(market_auth_ok(r#"[{"T":"success","msg":"authenticated"}]"#));
    assert!(!market_auth_ok(r#"[{"T":"success","msg":"connected"}]"#));
    assert!(!market_auth_ok(r#"[{"T":"error","msg":"authenticated"}]"#));
    assert!(!market_auth_ok(r#"[]"#));
    assert!(!market_auth_ok(r#"{"T":"success","msg":"authenticated"}"#));
    assert!(!market_auth_ok("not json"));
}

#[test]
fn test_trade_auth_reply_check() {
    assert!(trade_auth_ok(r#"{"stream":"authorization","data":{"status":"authorized"}}"#));
    assert!(!trade_auth_ok(r#"{"stream":"authorization","data":{"status":"unauthorized"}}"#));
    assert!(!trade_auth_ok(r#"{"data":{"status":"authorized"}}"#));
    assert!(!trade_auth_ok("not json"));
}

#[test]
fn test_trade_update_frame_decodes() {
    let json = r#"{"stream":"trade_updates","data":{"event":"fill","order":{"id":"o1","symbol":"AAPL","order_type":"market","type":"market","side":"buy","status":"filled","extended_hours":false,"qty":"1"},"price":"126.55","qty":"1","position_qty":"1","timestamp":"2021-02-22T15:51:44.208Z"}}"#;
    let update = parse_trade_update_frame(json).unwrap().unwrap();
    assert_eq!(update.event, "fill");
    assert_eq!(update.order.symbol, "AAPL");
    assert_eq!(update.order.side, "buy");
    assert_eq!(update.price.as_deref(), Some("126.55"));
    assert!(update.order.legs.is_none());
}

#[test]
fn test_trade_update_frame_with_legs() {
    let json = r#"{"stream":"trade_updates","data":{"event":"new","order":{"id":"o1","symbol":"AAPL","order_type":"market","type":"market","side":"buy","status":"new","extended_hours":false,"legs":[{"id":"o2","symbol":"AAPL","order_type":"limit","type":"limit","side":"sell","status":"held","extended_hours":false}]}}}"#;
    let update = parse_trade_update_frame(json).unwrap().unwrap();
    let legs = update.order.legs.as_ref().unwrap();
    assert_eq!(legs.len(), 1);
    assert_eq!(legs[0].id, "o2");
    assert_eq!(legs[0].side, "sell");
}

#[test]
fn test_trade_update_frame_with_nested_legs() {
    let json = r#"{"stream":"trade_updates","data":{"event":"new","order":{"id":"o1","symbol":"AAPL","order_type":"market","type":"market","side":"buy","status":"new","extended_hours":false,"legs":[{"id":"o2","symbol":"AAPL","order_type":"limit","type":"limit","side":"sell","status":"held","extended_hours":false,"legs":[{"id":"o3","symbol":"AAPL","order_type":"stop","type":"stop","side":"sell","status":"held","extended_hours":false}]}]}}}"#;
    let update = parse_trade_update_frame(json).unwrap().unwrap();
    let legs = update.order.legs.as_ref().unwrap();
    assert_eq!(legs.len(), 1);
    let inner = legs[0].legs.as_ref().unwrap();
    assert_eq!(inner.len(), 1);
    assert_eq!(inner[0].id, "o3");
    assert!(inner[0].legs.is_none());
}

#[test]
fn test_other_stream_frame_is_ignored() {
    let json = r#"{"stream":"other","data":{"event":"fill"}}"#;
    assert!(parse_trade_update_frame(json).unwrap().is_none());
}

#[test]
fn test_malformed_update_fails() {
    let json = r#"{"stream":"trade_updates","data":{"event":"fill"}}"#;
    assert!(matches!(
        parse_trade_update_frame(json),
        Err(StreamError::Json(_))
    ));
}
