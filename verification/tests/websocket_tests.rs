use ftx::channel::Received;
use ftx::channel::WsMessage;
use ftx::frames::escape_json_str;
use ftx::frames::market_frame;
use ftx::websockets::PING_INTERVAL;
use ftx::websockets::WebSockets;
use ftx::websockets::ping_tick;

fn next_text(ws: &mut WebSockets) -> String {
    match ws.try_recv() {
        Received::Message(WsMessage::Text(s)) => s,
        _ => panic!("expected a queued text frame"),
    }
}

#[test]
fn test_new_session_is_fresh() {
    let mut ws = WebSockets::new(None, None);
    assert!(!ws.is_authenticated());
    assert!(matches!(ws.try_recv(), Received::Empty));
}

#[test]
fn test_ping_frame_exact() {
    let mut ws = WebSockets::new(None, None);
    ws.ping();
    assert_eq!(next_text(&mut ws), "{\"op\":\"ping\"}");
}

#[test]
fn test_subscribe_ticker_frame_exact() {
    let mut ws = WebSockets::new(None, None);
    ws.subscribe_ticker("BTC-PERP");
    assert_eq!(
        next_text(&mut ws),
        "{\"channel\":\"ticker\",\"market\":\"BTC-PERP\",\"op\":\"subscribe\"}"
    );
}

#[test]
fn test_subscribe_trades_frame_exact() {
    let mut ws = WebSockets::new(None, None);
    ws.subscribe_trades("ETH/USD");
    assert_eq!(
        next_text(&mut ws),
        "{\"channel\":\"trades\",\"market\":\"ETH/USD\",\"op\":\"subscribe\"}"
    );
}

#[test]
fn test_subscribe_orderbook_frame_exact() {
    let mut ws = WebSockets::new(None, None);
    ws.subscribe_orderbook("BTC-PERP");
    assert_eq!(
        next_text(&mut ws),
        "{\"channel\":\"orderbook\",\"market\":\"BTC-PERP\",\"op\":\"subscribe\"}"
    );
}

#[test]
fn test_subscribe_orderbook_grouped_frame_exact() {
    let mut ws = WebSockets::new(None, None);
    ws.subscribe_orderbook_grouped("BTC-PERP", 100);
    assert_eq!(
        next_text(&mut ws),
        "{\"channel\":\"orderbookGrouped\",\"grouping\":100,\"market\":\"BTC-PERP\",\"op\":\"subscribe\"}"
    );
}

#[test]
fn test_unsubscribe_channel_only() {
    let mut ws = WebSockets::new(None, None);
    ws.unsubscribe("trades".to_string(), None, None);
    assert_eq!(
        next_text(&mut ws),
        "{\"channel\":\"trades\",\"op\":\"unsubscribe\"}"
    );
}

#[test]
fn test_unsubscribe_with_market() {
    let mut ws = WebSockets::new(None, None);
    ws.unsubscribe("ticker".to_string(), Some("BTC-PERP".to_string()), None);
    assert_eq!(
        next_text(&mut ws),
        "{\"channel\":\"ticker\",\"market\":\"BTC-PERP\",\"op\":\"unsubscribe\"}"
    );
}

#[test]
fn test_unsubscribe_with_grouping() {
    let mut ws = WebSockets::new(None, None);
    ws.unsubscribe(
        "orderbookGrouped".to_string(),
        Some("BTC-PERP".to_string()),
        Some(100),
    );
    assert_eq!(
        next_text(&mut ws),
        "{\"channel\":\"orderbookGrouped\",\"grouping\":100,\"market\":\"BTC-PERP\",\"op\":\"unsubscribe\"}"
    );
}

#[test]
fn test_login_at_frame_exact() {
    let mut ws = WebSockets::new(Some("api-key".to_string()), Some("secret-key".to_string()));
    ws.login_at(1588591856950);
    assert!(ws.is_authenticated());
    assert_eq!(
        next_text(&mut ws),
        "{\"args\":{\"key\":\"api-key\",\"sign\":\
         \"b95b6802dca3cf86e285d2f6ec57be1c5890b37dda5ec26363cb6ee0790de3e9\",\
         \"time\":1588591856950},\"op\":\"login\"}"
    );
}

#[test]
fn test_login_frame_parses_as_json() {
    let mut ws = WebSockets::new(Some("api-key".to_string()), Some("secret-key".to_string()));
    ws.login_at(1588591856950);
    let frame = next_text(&mut ws);
    let v: serde_json::Value = serde_json::from_str(frame.as_str()).unwrap();
    assert_eq!(v.get("op").unwrap().as_str(), Some("login"));
    let args = v.get("args").unwrap();
    assert_eq!(args.get("key").unwrap().as_str(), Some("api-key"));
    assert_eq!(args.get("time").unwrap().as_i64(), Some(1588591856950));
}

#[test]
fn test_subscribe_fills_logs_in_first() {
    let mut ws = WebSockets::new(None, None);
    assert!(!ws.is_authenticated());
    ws.subscribe_fills();
    assert!(ws.is_authenticated());
    let login = next_text(&mut ws);
    assert!(login.contains("\"op\":\"login\""));
    assert_eq!(
        next_text(&mut ws),
        "{\"channel\":\"fills\",\"op\":\"subscribe\"}"
    );
    assert!(matches!(ws.try_recv(), Received::Empty));
}

#[test]
fn test_subscribe_orders_skips_login_when_authenticated() {
    let mut ws = WebSockets::new(None, None);
    ws.login_at(1);
    let _ = next_text(&mut ws);
    ws.subscribe_orders();
    assert_eq!(
        next_text(&mut ws),
        "{\"channel\":\"orders\",\"op\":\"subscribe\"}"
    );
    assert!(matches!(ws.try_recv(), Received::Empty));
}

#[test]
fn test_subscribe_ftxpay_frame() {
    let mut ws = WebSockets::new(None, None);
    ws.login_at(1);
    let _ = next_text(&mut ws);
    ws.subscribe_ftxpay();
    assert_eq!(
        next_text(&mut ws),
        "{\"channel\":\"ftxpay\",\"op\":\"subscribe\"}"
    );
}

#[test]
fn test_fresh_session_after_failure_is_unauthenticated() {
    // A terminated loop leaves reconnection to the caller: a new session
    // starts unauthenticated and empty regardless of what the old one did.
    let mut first = WebSockets::new(None, None);
    first.subscribe_fills();
    assert!(first.is_authenticated());
    let mut second = WebSockets::new(None, None);
    assert!(!second.is_authenticated());
    assert!(matches!(second.try_recv(), Received::Empty));
}

#[test]
fn test_ping_tick_cadence() {
    let mut counter: u64 = 0;
    let mut pings: u32 = 0;
    for i in 1..=40 {
        let (next, send) = ping_tick(counter);
        counter = next;
        if send {
            pings += 1;
        }
        assert_eq!(send, i % PING_INTERVAL == 0);
    }
    assert_eq!(pings, 2);
    assert_eq!(counter, 0);
}

#[test]
fn test_market_name_is_escaped() {
    let frame = market_frame("subscribe", "ticker", "A\"B\\C");
    assert_eq!(
        frame,
        "{\"channel\":\"ticker\",\"market\":\"A\\\"B\\\\C\",\"op\":\"subscribe\"}"
    );
    let v: serde_json::Value = serde_json::from_str(frame.as_str()).unwrap();
    assert_eq!(v.get("market").unwrap().as_str(), Some("A\"B\\C"));
}

#[test]
fn test_escape_json_control_characters() {
    let escaped = escape_json_str("a\"b\\c\nd\te\u{1}f\u{8}g\u{c}h\ri");
    assert_eq!(escaped, "a\\\"b\\\\c\\nd\\te\\u0001f\\bg\\fh\\ri");
}
