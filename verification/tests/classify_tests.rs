use ftx::classify::FrameClass;
use ftx::classify::InboundAction;
use ftx::classify::InboundFrame;
use ftx::classify::classify;
use ftx::classify::handle_inbound;
use ftx::strutil::find_substr;

#[test]
fn test_find_substr() {
    assert!(find_substr("hello world", "world"));
    assert!(find_substr("hello world", ""));
    assert!(find_substr("aaab", "aab"));
    assert!(!find_substr("hello world", "worlds"));
    assert!(!find_substr("ab", "abc"));
}

#[test]
fn test_info_payload_dropped_even_if_well_formed_ticker() {
    // Substring search precedes structural parsing: a well-formed ticker
    // message whose market name happens to contain `info` never reaches
    // the data callback.
    let payload = "{\"channel\":\"ticker\",\"market\":\"info-PERP\",\"type\":\"update\",\
                   \"data\":{\"bid\":1,\"ask\":2,\"bidSize\":1,\"askSize\":1,\"last\":1,\"time\":1}}";
    assert_eq!(classify(payload), FrameClass::Info);
    let action = handle_inbound(&InboundFrame::Text(payload.to_string()));
    assert_eq!(action, InboundAction::LogInfo);
}

#[test]
fn test_subscribed_ack_is_notification() {
    let payload = "{\"type\":\"subscribed\",\"channel\":\"trades\",\"market\":\"BTC-PERP\"}";
    assert_eq!(classify(payload), FrameClass::Subscribed);
    assert_eq!(
        handle_inbound(&InboundFrame::Text(payload.to_string())),
        InboundAction::Notify
    );
}

#[test]
fn test_error_payload_logged_and_dropped() {
    let payload = "{\"type\":\"error\",\"code\":400,\"msg\":\"Invalid channel\"}";
    assert_eq!(classify(payload), FrameClass::ErrorNotice);
    assert_eq!(
        handle_inbound(&InboundFrame::Text(payload.to_string())),
        InboundAction::LogError
    );
}

#[test]
fn test_pong_is_notification() {
    let payload = "{\"type\":\"pong\"}";
    assert_eq!(classify(payload), FrameClass::Pong);
    assert_eq!(
        handle_inbound(&InboundFrame::Text(payload.to_string())),
        InboundAction::Notify
    );
}

#[test]
fn test_plain_payload_is_data() {
    let payload = "{\"channel\":\"ticker\",\"market\":\"BTC-PERP\",\"type\":\"update\",\
                   \"data\":{\"bid\":1,\"ask\":2}}";
    assert_eq!(classify(payload), FrameClass::Data);
    assert_eq!(
        handle_inbound(&InboundFrame::Text(payload.to_string())),
        InboundAction::Data
    );
}

#[test]
fn test_classification_priority_order() {
    // `info` wins over `subscribed`, which wins over `error`, which wins
    // over `pong`.
    assert_eq!(classify("info subscribed error pong"), FrameClass::Info);
    assert_eq!(classify("subscribed error pong"), FrameClass::Subscribed);
    assert_eq!(classify("error pong"), FrameClass::ErrorNotice);
    assert_eq!(classify("pong"), FrameClass::Pong);
}

#[test]
fn test_transport_frames() {
    assert_eq!(handle_inbound(&InboundFrame::Binary), InboundAction::Ignore);
    assert_eq!(handle_inbound(&InboundFrame::PingControl), InboundAction::Ignore);
    assert_eq!(handle_inbound(&InboundFrame::PongControl), InboundAction::Ignore);
    assert_eq!(handle_inbound(&InboundFrame::CloseFrame), InboundAction::Fatal);
}
