use netlink_packet_audit::DecodeError;
use netlink_packet_audit::StatusMessage;
use netlink_packet_audit::StatusMessageBuffer;
use netlink_packet_audit::STATUS_MESSAGE_LEN;
use netlink_packet_audit::STATUS_MESSAGE_MIN_LEN;

fn word(b: &[u8], off: usize) -> u32 {
    u32::from_le_bytes([b[off], b[off + 1], b[off + 2], b[off + 3]])
}

fn sample_status() -> StatusMessage {
    let mut m = StatusMessage::new();
    m.mask = 0x0001;
    m.enabled = 1;
    m.failure = 2;
    m.pid = 4321;
    m.rate_limiting = 50;
    m.backlog_limit = 8192;
    m.lost = 7;
    m.backlog = 3;
    m.feature_bitmap = Some(0xdead_beef);
    m.backlog_wait_time = Some(60000);
    m.backlog_wait_time_actual = Some(123);
    m
}

#[test]
fn status_round_trip_all_optionals() {
    let m = sample_status();
    let bytes = m.to_bytes();
    assert_eq!(bytes.len(), STATUS_MESSAGE_LEN);
    let decoded = StatusMessage::parse(&StatusMessageBuffer::new(bytes)).unwrap();
    assert_eq!(decoded, m);
}

#[test]
fn status_encode_layout() {
    let m = sample_status();
    let b = m.to_bytes();
    assert_eq!(word(&b, 0), 0x0001);
    assert_eq!(word(&b, 4), 1);
    assert_eq!(word(&b, 8), 2);
    assert_eq!(word(&b, 12), 4321);
    assert_eq!(word(&b, 16), 50);
    assert_eq!(word(&b, 20), 8192);
    assert_eq!(word(&b, 24), 7);
    assert_eq!(word(&b, 28), 3);
    assert_eq!(word(&b, 32), 0xdead_beef);
    assert_eq!(word(&b, 36), 60000);
    assert_eq!(word(&b, 40), 123);
}

#[test]
fn status_absent_optionals_encode_as_zero() {
    let mut m = StatusMessage::new();
    m.mask = 9;
    let b = m.to_bytes();
    assert_eq!(b.len(), STATUS_MESSAGE_LEN);
    assert_eq!(word(&b, 32), 0);
    assert_eq!(word(&b, 36), 0);
    assert_eq!(word(&b, 40), 0);
}

#[test]
fn status_version_skew_32_bytes() {
    let full = sample_status().to_bytes();
    let truncated: Vec<u8> = full[..32].to_vec();
    let decoded = StatusMessage::parse(&StatusMessageBuffer::new(truncated)).unwrap();
    assert_eq!(decoded.mask, 0x0001);
    assert_eq!(decoded.backlog, 3);
    assert_eq!(decoded.feature_bitmap, None);
    assert_eq!(decoded.backlog_wait_time, None);
    assert_eq!(decoded.backlog_wait_time_actual, None);
}

#[test]
fn status_version_skew_36_bytes() {
    let full = sample_status().to_bytes();
    let truncated: Vec<u8> = full[..36].to_vec();
    let decoded = StatusMessage::parse(&StatusMessageBuffer::new(truncated)).unwrap();
    assert_eq!(decoded.feature_bitmap, Some(0xdead_beef));
    assert_eq!(decoded.backlog_wait_time, None);
    assert_eq!(decoded.backlog_wait_time_actual, None);
}

#[test]
fn status_version_skew_40_bytes() {
    let full = sample_status().to_bytes();
    let truncated: Vec<u8> = full[..40].to_vec();
    let decoded = StatusMessage::parse(&StatusMessageBuffer::new(truncated)).unwrap();
    assert_eq!(decoded.feature_bitmap, Some(0xdead_beef));
    assert_eq!(decoded.backlog_wait_time, Some(60000));
    assert_eq!(decoded.backlog_wait_time_actual, None);
}

#[test]
fn status_too_short_rejected() {
    let short = vec![0u8; STATUS_MESSAGE_MIN_LEN - 1];
    let err = StatusMessage::parse(&StatusMessageBuffer::new(short)).unwrap_err();
    assert_eq!(
        err,
        DecodeError::TooShort { minimum: STATUS_MESSAGE_MIN_LEN, length: STATUS_MESSAGE_MIN_LEN - 1 }
    );
}

#[test]
fn status_new_checked() {
    assert!(StatusMessageBuffer::new_checked(vec![0u8; 32]).is_ok());
    let err = StatusMessageBuffer::new_checked(vec![0u8; 8]).unwrap_err();
    assert_eq!(err, DecodeError::TooShort { minimum: 32, length: 8 });
}

#[test]
fn status_buffer_accessors() {
    let mut buf = StatusMessageBuffer::new(vec![0u8; STATUS_MESSAGE_LEN]);
    buf.set_mask(11);
    buf.set_enabled(1);
    buf.set_failure(2);
    buf.set_pid(77);
    buf.set_rate_limiting(5);
    buf.set_backlog_limit(6);
    buf.set_lost(8);
    buf.set_backlog(9);
    buf.set_feature_bitmap(10);
    buf.set_backlog_wait_time(12);
    buf.set_backlog_wait_time_actual(13);
    assert_eq!(buf.mask(), 11);
    assert_eq!(buf.enabled(), 1);
    assert_eq!(buf.failure(), 2);
    assert_eq!(buf.pid(), 77);
    assert_eq!(buf.rate_limiting(), 5);
    assert_eq!(buf.backlog_limit(), 6);
    assert_eq!(buf.lost(), 8);
    assert_eq!(buf.backlog(), 9);
    assert_eq!(buf.feature_bitmap(), Some(10));
    assert_eq!(buf.backlog_wait_time(), Some(12));
    assert_eq!(buf.backlog_wait_time_actual(), Some(13));
    let inner = buf.into_inner();
    assert_eq!(word(&inner, 0), 11);
}

#[test]
fn status_default_is_new() {
    assert_eq!(StatusMessage::default(), StatusMessage::new());
}
