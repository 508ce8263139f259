use entropy_beacon::aggregator::{Aggregator, AggregatorConfig};
use entropy_beacon::error::AggregatorError;
use entropy_beacon::network::{may_retry, backoff_delay_ms, decode_frame, encode_frame, frame_length, response_token, ResponseToken};

#[test]
fn test_exponential_backoff_calculation() {
    let base_delay: u64 = 100;
    let max_delay: u64 = 30000;

    assert_eq!(std::cmp::min(base_delay * 2_u64.pow(0), max_delay), base_delay);
    assert_eq!(std::cmp::min(base_delay * 2_u64.pow(1), max_delay), base_delay * 2);
    assert_eq!(std::cmp::min(base_delay * 2_u64.pow(2), max_delay), base_delay * 4);
    assert_eq!(std::cmp::min(base_delay * 2_u64.pow(3), max_delay), base_delay * 8);
    assert_eq!(std::cmp::min(base_delay * 2_u64.pow(4), max_delay), base_delay * 16);
    assert_eq!(std::cmp::min(base_delay * 2_u64.pow(10), max_delay), max_delay);

    assert_eq!(backoff_delay_ms(base_delay, max_delay, 1), base_delay);
    assert_eq!(backoff_delay_ms(base_delay, max_delay, 2), base_delay * 2);
    assert_eq!(backoff_delay_ms(base_delay, max_delay, 3), base_delay * 4);
    assert_eq!(backoff_delay_ms(base_delay, max_delay, 4), base_delay * 8);
    assert_eq!(backoff_delay_ms(base_delay, max_delay, 5), base_delay * 16);
    assert_eq!(backoff_delay_ms(base_delay, max_delay, 11), max_delay);
}

#[test]
fn backoff_edges() {
    assert_eq!(backoff_delay_ms(100, 30000, 0), 0);
    assert_eq!(backoff_delay_ms(100, 300, 3), 300);
    assert_eq!(backoff_delay_ms(u64::MAX / 2 + 1, u64::MAX, 5), u64::MAX);
    assert_eq!(backoff_delay_ms(1, u64::MAX, 64), 1u64 << 63);
    assert_eq!(backoff_delay_ms(1, u64::MAX, 200), u64::MAX);
}

#[test]
fn frames_round_trip() {
    let body = b"{\"round_id\":1}".to_vec();
    let frame = encode_frame(&body).unwrap();
    assert_eq!(&frame[..4], &[0, 0, 0, body.len() as u8]);
    assert_eq!(frame_length(&frame), body.len() as u32);
    let (decoded, used) = decode_frame(&frame).unwrap();
    assert_eq!(decoded, body);
    assert_eq!(used, frame.len());
}

#[test]
fn frames_wait_for_complete_input() {
    assert!(decode_frame(&[0, 0]).is_none());
    assert!(decode_frame(&[0, 0, 0, 5, 1, 2]).is_none());
    let (body, used) = decode_frame(&[0, 0, 0, 2, 9, 8, 7]).unwrap();
    assert_eq!(body, vec![9, 8]);
    assert_eq!(used, 6);
    assert_eq!(frame_length(&[1, 2, 3, 4]), 0x01020304);
    let (empty, used) = decode_frame(&[0, 0, 0, 0]).unwrap();
    assert!(empty.is_empty());
    assert_eq!(used, 4);
}

#[test]
fn response_tokens() {
    let ok: Result<bool, AggregatorError> = Ok(true);
    assert_eq!(response_token(&ok), ResponseToken::Ack);
    let rejected: Result<bool, AggregatorError> = Err(AggregatorError::WrongState);
    assert_eq!(response_token(&rejected), ResponseToken::Nack);
    let failed: Result<bool, AggregatorError> = Err(AggregatorError::InternalError { message: "x".to_string() });
    assert_eq!(response_token(&failed), ResponseToken::Error);
    assert_eq!(ResponseToken::Ack.as_str(), "ACK");
    assert_eq!(ResponseToken::Nack.as_str(), "NACK");
    assert_eq!(ResponseToken::Error.as_str(), "ERROR");
    assert_eq!(ResponseToken::UnknownMessageType.as_str(), "UNKNOWN_MESSAGE_TYPE");
}

#[test]
fn config_errors_are_rejected_at_construction() {
    let bad = AggregatorConfig { committee_size: 3, threshold: 4, ..Default::default() };
    assert!(matches!(Aggregator::new(bad), Err(AggregatorError::ConfigError { .. })));
    let zero = AggregatorConfig { committee_size: 3, threshold: 0, ..Default::default() };
    assert!(matches!(Aggregator::new(zero), Err(AggregatorError::ConfigError { .. })));
}

#[test]
fn retry_bound() {
    assert!(may_retry(0, 5));
    assert!(may_retry(4, 5));
    assert!(!may_retry(5, 5));
    assert!(!may_retry(0, 0));
}
