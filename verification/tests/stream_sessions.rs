use alpaca_api_client::stream::CryptoStream;
use alpaca_api_client::stream::MarketDataMessage;
use alpaca_api_client::stream::StreamError;
use alpaca_api_client::stream::TradeUpdateStream;
use alpaca_api_client::stream::session::market_data_handshake;
use alpaca_api_client::stream::session::run_market_data_session;
use alpaca_api_client::stream::session::run_trade_update_session;
use alpaca_api_client::stream::session::trade_updates_handshake;
use alpaca_api_client::stream::transport::Frame;
use alpaca_api_client::stream::transport::ScriptedTransport;
use alpaca_api_client::trading::AccountType;

fn text(s: &str) -> Frame {
    Frame::Text(s.to_string())
}

const WELCOME: &str = r#"[{"T":"success","msg":"connected"}]"#;
const AUTH_OK: &str = r#"[{"T":"success","msg":"authenticated"}]"#;
const SUB_OK: &str = r#"[{"T":"subscription","trades":["BTC/USD"]}]"#;
const TU_AUTH_OK: &str = r#"{"stream":"authorization","data":{"status":"authorized"}}"#;

#[test]
fn test_market_auth_success() {
    let mut t = ScriptedTransport::new(vec![text(WELCOME), text(AUTH_OK)]);
    assert!(market_data_handshake(&mut t, "id", "sec").is_ok());
    assert_eq!(t.sent.len(), 1);
    assert_eq!(t.sent[0], r#"{"action":"auth","key":"id","secret":"sec"}"#);
}

#[test]
fn test_market_auth_wrong_msg() {
    let reply = r#"[{"T":"success","msg":"connected"}]"#;
    let mut t = ScriptedTransport::new(vec![text(WELCOME), text(reply)]);
    match market_data_handshake(&mut t, "id", "sec") {
        Err(StreamError::AuthFailed(raw)) => assert_eq!(raw, reply),
        other => panic!("expected an authentication failure, got {:?}", other),
    }
}

#[test]
fn test_market_auth_wrong_type() {
    let reply = r#"[{"T":"error","msg":"authenticated"}]"#;
    let mut t = ScriptedTransport::new(vec![text(WELCOME), text(reply)]);
    match market_data_handshake(&mut t, "id", "sec") {
        Err(StreamError::AuthFailed(raw)) => assert_eq!(raw, reply),
        other => panic!("expected an authentication failure, got {:?}", other),
    }
}

#[test]
fn test_market_auth_empty_array() {
    let reply = "[]";
    let mut t = ScriptedTransport::new(vec![text(WELCOME), text(reply)]);
    match market_data_handshake(&mut t, "id", "sec") {
        Err(StreamError::AuthFailed(raw)) => assert_eq!(raw, reply),
        other => panic!("expected an authentication failure, got {:?}", other),
    }
}

#[test]
fn test_market_auth_non_array() {
    let reply = r#"{"T":"success","msg":"authenticated"}"#;
    let mut t = ScriptedTransport::new(vec![text(WELCOME), text(reply)]);
    match market_data_handshake(&mut t, "id", "sec") {
        Err(StreamError::AuthFailed(raw)) => assert_eq!(raw, reply),
        other => panic!("expected an authentication failure, got {:?}", other),
    }
}

#[test]
fn test_trade_auth_success() {
    let mut t = ScriptedTransport::new(vec![text(TU_AUTH_OK)]);
    assert!(trade_updates_handshake(&mut t, "id", "sec").is_ok());
    assert_eq!(
        t.sent[0],
        r#"{"action":"authenticate","data":{"key_id":"id","secret_key":"sec"}}"#
    );
}

#[test]
fn test_trade_auth_unauthorized() {
    let reply = r#"{"stream":"authorization","data":{"status":"unauthorized"}}"#;
    let mut t = ScriptedTransport::new(vec![text(reply)]);
    match trade_updates_handshake(&mut t, "id", "sec") {
        Err(StreamError::AuthFailed(raw)) => assert_eq!(raw, reply),
        other => panic!("expected an authentication failure, got {:?}", other),
    }
}

#[test]
fn test_trade_auth_missing_stream() {
    let reply = r#"{"data":{"status":"authorized"}}"#;
    let mut t = ScriptedTransport::new(vec![text(reply)]);
    match trade_updates_handshake(&mut t, "id", "sec") {
        Err(StreamError::AuthFailed(raw)) => assert_eq!(raw, reply),
        other => panic!("expected an authentication failure, got {:?}", other),
    }
}

#[test]
fn test_ping_transparency() {
    let mut t = ScriptedTransport::new(vec![Frame::Ping(vec![1, 2, 3]), text("[]")]);
    let delivered = t.receive_text().unwrap();
    assert_eq!(delivered, "[]");
    assert_eq!(t.pongs, vec![vec![1, 2, 3]]);
    assert!(t.sent.is_empty());
}

#[test]
fn test_binary_frame_delivered_as_text() {
    let mut t = ScriptedTransport::new(vec![Frame::Binary(b"[]".to_vec())]);
    assert_eq!(t.receive_text().unwrap(), "[]");
}

#[test]
fn test_invalid_binary_frame_fails() {
    let mut t = ScriptedTransport::new(vec![Frame::Binary(vec![0xff, 0xfe])]);
    match t.receive_text() {
        Err(StreamError::AuthFailed(m)) => assert_eq!(m, "Invalid binary message"),
        other => panic!("expected a malformed-message failure, got {:?}", other),
    }
}

#[test]
fn test_close_surfacing() {
    let sub = CryptoStream::new().subscribe_trades(vec!["BTC/USD"]);
    let mut t = ScriptedTransport::new(vec![
        text(WELCOME),
        text(AUTH_OK),
        text(SUB_OK),
        Frame::Close,
    ]);
    let (messages, end) = run_market_data_session(&mut t, "id", "sec", &sub);
    assert_eq!(messages.len(), 0);
    assert!(matches!(end, StreamError::ConnectionClosed));
    assert_eq!(t.sent.len(), 2);
}

#[test]
fn test_unknown_stream_filtering() {
    let mut t = ScriptedTransport::new(vec![
        text(TU_AUTH_OK),
        text(r#"{"stream":"other","data":{"event":"noise"}}"#),
        Frame::Close,
    ]);
    let (updates, end) = run_trade_update_session(&mut t, "id", "sec");
    assert_eq!(updates.len(), 0);
    assert!(matches!(end, StreamError::ConnectionClosed));
}

#[test]
fn test_trade_update_session_delivers_updates() {
    let frame = r#"{"stream":"trade_updates","data":{"event":"fill","order":{"id":"o1","symbol":"AAPL","order_type":"market","type":"market","side":"buy","status":"filled","extended_hours":false},"price":"100.5","qty":"1"}}"#;
    let mut t = ScriptedTransport::new(vec![text(TU_AUTH_OK), text(frame), Frame::Close]);
    let (updates, end) = run_trade_update_session(&mut t, "id", "sec");
    assert_eq!(updates.len(), 1);
    assert_eq!(updates[0].event, "fill");
    assert_eq!(updates[0].order.id, "o1");
    assert!(matches!(end, StreamError::ConnectionClosed));
    assert_eq!(
        t.sent[1],
        r#"{"action":"listen","data":{"streams":["trade_updates"]}}"#
    );
}

#[test]
fn test_end_to_end_scenario() {
    let sub = CryptoStream::new()
        .subscribe_trades(vec!["BTC/USD"])
        .subscribe_quotes(vec![])
        .subscribe_bars(vec![])
        .subscribe_daily_bars(vec![])
        .subscribe_updated_bars(vec![]);
    assert_eq!(
        sub.subscribe_message(),
        r#"{"action":"subscribe","trades":["BTC/USD"],"quotes":[],"bars":[],"dailyBars":[],"updatedBars":[]}"#
    );

    let sample = r#"[{"T":"t","S":"BTC/USD","p":50000.1,"s":0.5,"t":"2024-01-01T00:00:00Z","i":1,"tks":"B"}]"#;
    let mut t = ScriptedTransport::new(vec![
        text(WELCOME),
        text(AUTH_OK),
        text(SUB_OK),
        text(sample),
        Frame::Close,
    ]);
    let (messages, end) = run_market_data_session(&mut t, "id", "sec", &sub);
    assert_eq!(messages.len(), 1);
    match &messages[0] {
        MarketDataMessage::Trade(trade) => {
            assert_eq!(trade.symbol, "BTC/USD");
            assert_eq!(trade.p, "50000.1");
            assert_eq!(trade.s, "0.5");
        }
        other => panic!("expected a trade, got {:?}", other),
    }
    assert!(matches!(end, StreamError::ConnectionClosed));
    assert_eq!(t.sent[0], r#"{"action":"auth","key":"id","secret":"sec"}"#);
    assert_eq!(
        t.sent[1],
        r#"{"action":"subscribe","trades":["BTC/USD"],"quotes":[],"bars":[],"dailyBars":[],"updatedBars":[]}"#
    );
}

#[test]
fn test_exhausted_script_reads_as_socket_failure() {
    let mut t = ScriptedTransport::new(vec![]);
    assert!(matches!(t.receive_text(), Err(StreamError::WebSocket(_))));
}

#[test]
fn test_feed_urls() {
    assert_eq!(
        CryptoStream::feed_url(),
        "wss://stream.data.alpaca.markets/v1beta3/crypto/us"
    );
    assert_eq!(
        TradeUpdateStream::new(AccountType::Paper).feed_url(),
        "wss://paper-api.alpaca.markets/stream"
    );
    assert_eq!(
        TradeUpdateStream::new(AccountType::Live).feed_url(),
        "wss://api.alpaca.markets/stream"
    );
}
