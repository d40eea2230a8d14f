use netlink_packet_audit::constants::AUDIT_ADD_RULE;
use netlink_packet_audit::constants::AUDIT_DEL_RULE;
use netlink_packet_audit::constants::AUDIT_GET;
use netlink_packet_audit::constants::AUDIT_LIST_RULES;
use netlink_packet_audit::constants::AUDIT_SET;
use netlink_packet_audit::AuditMessage;
use netlink_packet_audit::DecodeError;
use netlink_packet_audit::RuleField;
use netlink_packet_audit::RuleFieldFlags;
use netlink_packet_audit::RuleMessage;
use netlink_packet_audit::StatusMessage;

fn sample_status() -> StatusMessage {
    let mut m = StatusMessage::new();
    m.enabled = 1;
    m.pid = 99;
    m.feature_bitmap = Some(0xf);
    m.backlog_wait_time = Some(1);
    m.backlog_wait_time_actual = Some(2);
    m
}

fn sample_rule() -> RuleMessage {
    let mut rule = RuleMessage::new();
    rule.fields = vec![(RuleField::Filterkey(b"k".to_vec()), RuleFieldFlags(0))];
    rule
}

#[test]
fn message_type_codes() {
    assert_eq!(AuditMessage::GetStatus(None).message_type(), AUDIT_GET);
    assert_eq!(AuditMessage::SetStatus(sample_status()).message_type(), AUDIT_SET);
    assert_eq!(AuditMessage::AddRule(sample_rule()).message_type(), AUDIT_ADD_RULE);
    assert_eq!(AuditMessage::DelRule(sample_rule()).message_type(), AUDIT_DEL_RULE);
    assert_eq!(AuditMessage::ListRules(None).message_type(), AUDIT_LIST_RULES);
}

#[test]
fn message_unsupported_type_reports_code() {
    let err = AuditMessage::parse(999, &vec![1, 2, 3]).unwrap_err();
    assert_eq!(err, DecodeError::UnsupportedMessageType(999));
}

#[test]
fn message_get_status_query_round_trip() {
    let msg = AuditMessage::GetStatus(None);
    let bytes = msg.to_bytes().unwrap();
    assert!(bytes.is_empty());
    let decoded = AuditMessage::parse(AUDIT_GET, &bytes).unwrap();
    assert_eq!(decoded, msg);
}

#[test]
fn message_get_status_reply_round_trip() {
    let msg = AuditMessage::GetStatus(Some(sample_status()));
    let bytes = msg.to_bytes().unwrap();
    let decoded = AuditMessage::parse(AUDIT_GET, &bytes).unwrap();
    assert_eq!(decoded, msg);
}

#[test]
fn message_set_status_round_trip() {
    let msg = AuditMessage::SetStatus(sample_status());
    let bytes = msg.to_bytes().unwrap();
    let decoded = AuditMessage::parse(AUDIT_SET, &bytes).unwrap();
    assert_eq!(decoded, msg);
}

#[test]
fn message_add_rule_round_trip() {
    let msg = AuditMessage::AddRule(sample_rule());
    let bytes = msg.to_bytes().unwrap();
    let decoded = AuditMessage::parse(AUDIT_ADD_RULE, &bytes).unwrap();
    assert_eq!(decoded, msg);
}

#[test]
fn message_del_rule_round_trip() {
    let msg = AuditMessage::DelRule(sample_rule());
    let bytes = msg.to_bytes().unwrap();
    let decoded = AuditMessage::parse(AUDIT_DEL_RULE, &bytes).unwrap();
    assert_eq!(decoded, msg);
}

#[test]
fn message_list_rules_round_trip() {
    let query = AuditMessage::ListRules(None);
    let bytes = query.to_bytes().unwrap();
    assert!(bytes.is_empty());
    assert_eq!(AuditMessage::parse(AUDIT_LIST_RULES, &bytes).unwrap(), query);

    let entry = AuditMessage::ListRules(Some(sample_rule()));
    let bytes = entry.to_bytes().unwrap();
    assert_eq!(AuditMessage::parse(AUDIT_LIST_RULES, &bytes).unwrap(), entry);
}

#[test]
fn message_payload_error_propagates() {
    let err = AuditMessage::parse(AUDIT_SET, &vec![0u8; 4]).unwrap_err();
    assert_eq!(err, DecodeError::TooShort { minimum: 32, length: 4 });
}

#[test]
fn message_error_descriptions() {
    assert_eq!(DecodeError::UnsupportedMessageType(7).describe(), "unsupported message type");
    assert_eq!(DecodeError::UnknownFieldCode(7).describe(), "unknown rule field code");
    assert_eq!(
        DecodeError::TooShort { minimum: 1, length: 0 }.describe(),
        "buffer too short"
    );
    assert_eq!(
        DecodeError::TruncatedStringPool { declared: 9, available: 1 }.describe(),
        "truncated string pool"
    );
    assert_eq!(DecodeError::TooManyFields { count: 65 }.describe(), "too many rule fields");
}
