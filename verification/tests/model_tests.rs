use ftx::events::PongMessage;
use ftx::model::Address;
use ftx::model::AnotherOption;
use ftx::model::ResultData;
use ftx::model::SubAccountInfo;

#[test]
fn test_result_data_envelope() {
    let envelope = ResultData {
        success: true,
        result: vec![1u32, 2, 3],
        has_more_data: Some(false),
    };
    assert!(envelope.success);
    assert_eq!(envelope.result.len(), 3);
    assert_eq!(envelope.has_more_data, Some(false));
}

#[test]
fn test_plain_records() {
    let opt = AnotherOption { success: false, result: None };
    assert!(!opt.success);
    let sub = SubAccountInfo {
        nickname: "sub1".to_string(),
        special: false,
        deletable: true,
        editable: true,
        competition: false,
    };
    assert_eq!(sub.nickname, "sub1");
    let addr = Address {
        address: "0xabc".to_string(),
        tag: None,
        method: "erc20".to_string(),
        coin: Some("USDC".to_string()),
    };
    assert_eq!(addr.method, "erc20");
    let pong = PongMessage { option_type: "pong".to_string() };
    assert_eq!(pong.option_type, "pong");
}
