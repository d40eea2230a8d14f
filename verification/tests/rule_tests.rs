use netlink_packet_audit::constants::AUDIT_ARCH;
use netlink_packet_audit::constants::AUDIT_DIR;
use netlink_packet_audit::constants::AUDIT_FILTERKEY;
use netlink_packet_audit::DecodeError;
use netlink_packet_audit::RuleAction;
use netlink_packet_audit::RuleBuffer;
use netlink_packet_audit::RuleField;
use netlink_packet_audit::RuleFieldFlags;
use netlink_packet_audit::RuleFlags;
use netlink_packet_audit::RuleMessage;
use netlink_packet_audit::RuleSyscalls;
use netlink_packet_audit::AUDIT_MAX_FIELDS;
use netlink_packet_audit::RULE_BUF_MIN_LEN;

fn word(b: &[u8], off: usize) -> u32 {
    u32::from_le_bytes([b[off], b[off + 1], b[off + 2], b[off + 3]])
}

fn put_word(b: &mut [u8], off: usize, v: u32) {
    b[off..off + 4].copy_from_slice(&v.to_le_bytes());
}

fn rule_with_fields(fields: Vec<(RuleField, RuleFieldFlags)>) -> RuleMessage {
    let mut rule = RuleMessage::new();
    rule.fields = fields;
    rule
}

#[test]
fn rule_empty_round_trip() {
    let rule = RuleMessage::new();
    let bytes = rule.to_bytes().unwrap();
    assert_eq!(bytes.len(), RULE_BUF_MIN_LEN);
    let decoded = RuleMessage::parse(&RuleBuffer::new(bytes)).unwrap();
    assert_eq!(decoded, rule);
}

#[test]
fn rule_scenario_arch_and_arg0() {
    let mut rule = rule_with_fields(vec![
        (RuleField::Arch(0xC000003E), RuleFieldFlags(0)),
        (RuleField::Arg0(2), RuleFieldFlags(0)),
    ]);
    rule.flags = RuleFlags(0);
    rule.action = RuleAction(1);
    let bytes = rule.to_bytes().unwrap();
    let decoded = RuleMessage::parse(&RuleBuffer::new(bytes)).unwrap();
    assert_eq!(decoded.fields.len(), 2);
    assert_eq!(decoded.fields[0].0, RuleField::Arch(0xC000003E));
    assert_eq!(decoded.fields[1].0, RuleField::Arg0(2));
    assert_eq!(decoded, rule);
}

#[test]
fn rule_string_pool_layout() {
    let rule = rule_with_fields(vec![
        (RuleField::Filterkey(b"audit-wazuh".to_vec()), RuleFieldFlags(0)),
        (RuleField::Dir(b"/etc".to_vec()), RuleFieldFlags(0)),
    ]);
    let bytes = rule.to_bytes().unwrap();
    let pool_start = RULE_BUF_MIN_LEN + 2 * 12;
    // The pool holds exactly the two strings' bytes, in field order.
    assert_eq!(bytes.len(), pool_start + "audit-wazuh".len() + "/etc".len());
    assert_eq!(word(&bytes, 268) as usize, "audit-wazuh".len() + "/etc".len());
    assert_eq!(&bytes[pool_start..pool_start + 11], b"audit-wazuh");
    assert_eq!(&bytes[pool_start + 11..], b"/etc");
    // Each descriptor's value slot holds its string's byte length.
    assert_eq!(word(&bytes, RULE_BUF_MIN_LEN), AUDIT_FILTERKEY);
    assert_eq!(word(&bytes, RULE_BUF_MIN_LEN + 4) as usize, "audit-wazuh".len());
    assert_eq!(word(&bytes, RULE_BUF_MIN_LEN + 12), AUDIT_DIR);
    assert_eq!(word(&bytes, RULE_BUF_MIN_LEN + 16) as usize, "/etc".len());
    // Decoding reconstructs both strings byte-exact.
    let decoded = RuleMessage::parse(&RuleBuffer::new(bytes)).unwrap();
    assert_eq!(decoded, rule);
}

#[test]
fn rule_mixed_fields_preserve_order() {
    let rule = rule_with_fields(vec![
        (RuleField::Uid(1000), RuleFieldFlags(0x10)),
        (RuleField::Watch(b"/var/log".to_vec()), RuleFieldFlags(0)),
        (RuleField::Pid(1), RuleFieldFlags(0x20)),
        (RuleField::SubjUser(b"system_u".to_vec()), RuleFieldFlags(0)),
    ]);
    let bytes = rule.to_bytes().unwrap();
    let decoded = RuleMessage::parse(&RuleBuffer::new(bytes)).unwrap();
    assert_eq!(decoded, rule);
}

#[test]
fn rule_header_layout() {
    let mut rule = rule_with_fields(vec![(RuleField::Pid(42), RuleFieldFlags(3))]);
    rule.flags = RuleFlags(5);
    rule.action = RuleAction(2);
    rule.syscalls = RuleSyscalls::new_zeroed();
    rule.syscalls.0[0] = 0x0000_0001;
    rule.syscalls.0[63] = 0x8000_0000;
    let bytes = rule.to_bytes().unwrap();
    assert_eq!(word(&bytes, 0), 5);
    assert_eq!(word(&bytes, 4), 2);
    assert_eq!(word(&bytes, 8), 1);
    assert_eq!(word(&bytes, 12), 0x0000_0001);
    assert_eq!(word(&bytes, 12 + 4 * 63), 0x8000_0000);
    assert_eq!(word(&bytes, 268), 0);
    let decoded = RuleMessage::parse(&RuleBuffer::new(bytes)).unwrap();
    assert_eq!(decoded, rule);
}

#[test]
fn rule_max_fields_succeeds() {
    let entries: Vec<(RuleField, RuleFieldFlags)> =
        (0..AUDIT_MAX_FIELDS).map(|k| (RuleField::Arg1(k as u32), RuleFieldFlags(0))).collect();
    let rule = rule_with_fields(entries);
    let bytes = rule.to_bytes().unwrap();
    assert_eq!(bytes.len(), RULE_BUF_MIN_LEN + 12 * AUDIT_MAX_FIELDS);
    let decoded = RuleMessage::parse(&RuleBuffer::new(bytes)).unwrap();
    assert_eq!(decoded, rule);
}

#[test]
fn rule_one_over_max_fields_fails() {
    let entries: Vec<(RuleField, RuleFieldFlags)> = (0..AUDIT_MAX_FIELDS + 1)
        .map(|k| (RuleField::Arg1(k as u32), RuleFieldFlags(0)))
        .collect();
    let rule = rule_with_fields(entries);
    let err = rule.to_bytes().unwrap_err();
    assert_eq!(err, DecodeError::TooManyFields { count: AUDIT_MAX_FIELDS + 1 });
}

#[test]
fn rule_truncated_string_pool_rejected() {
    let rule = rule_with_fields(vec![
        (RuleField::Filterkey(b"key".to_vec()), RuleFieldFlags(0)),
    ]);
    let mut bytes = rule.to_bytes().unwrap();
    // Drop the last pool byte: the descriptor still declares 3 bytes.
    bytes.pop();
    let err = RuleMessage::parse(&RuleBuffer::new(bytes)).unwrap_err();
    assert_eq!(err, DecodeError::TruncatedStringPool { declared: 3, available: 2 });
}

#[test]
fn rule_truncated_last_of_two_strings() {
    let rule = rule_with_fields(vec![
        (RuleField::Filterkey(b"key".to_vec()), RuleFieldFlags(0)),
        (RuleField::Dir(b"/etc".to_vec()), RuleFieldFlags(0)),
    ]);
    let mut bytes = rule.to_bytes().unwrap();
    bytes.truncate(bytes.len() - 2);
    let err = RuleMessage::parse(&RuleBuffer::new(bytes)).unwrap_err();
    assert_eq!(err, DecodeError::TruncatedStringPool { declared: 4, available: 2 });
}

#[test]
fn rule_unknown_field_code_rejected() {
    let rule = rule_with_fields(vec![(RuleField::Pid(1), RuleFieldFlags(0))]);
    let mut bytes = rule.to_bytes().unwrap();
    put_word(&mut bytes, RULE_BUF_MIN_LEN, 999);
    let err = RuleMessage::parse(&RuleBuffer::new(bytes)).unwrap_err();
    assert_eq!(err, DecodeError::UnknownFieldCode(999));
}

#[test]
fn rule_too_short_rejected() {
    let err = RuleMessage::parse(&RuleBuffer::new(vec![0u8; 10])).unwrap_err();
    assert_eq!(err, DecodeError::TooShort { minimum: RULE_BUF_MIN_LEN, length: 10 });
}

#[test]
fn rule_short_descriptor_table_rejected() {
    let mut bytes = vec![0u8; RULE_BUF_MIN_LEN];
    put_word(&mut bytes, 8, 2);
    let err = RuleMessage::parse(&RuleBuffer::new(bytes)).unwrap_err();
    assert_eq!(
        err,
        DecodeError::TooShort { minimum: RULE_BUF_MIN_LEN + 24, length: RULE_BUF_MIN_LEN }
    );
}

#[test]
fn rule_declared_count_over_max_rejected() {
    let mut bytes = vec![0u8; RULE_BUF_MIN_LEN];
    put_word(&mut bytes, 8, AUDIT_MAX_FIELDS as u32 + 1);
    let err = RuleMessage::parse(&RuleBuffer::new(bytes)).unwrap_err();
    assert_eq!(err, DecodeError::TooManyFields { count: AUDIT_MAX_FIELDS + 1 });
}

#[test]
fn rule_string_values_length() {
    let rule = rule_with_fields(vec![
        (RuleField::Filterkey(b"audit-wazuh".to_vec()), RuleFieldFlags(0)),
        (RuleField::Pid(1), RuleFieldFlags(0)),
        (RuleField::Dir(b"/etc".to_vec()), RuleFieldFlags(0)),
    ]);
    assert_eq!(rule.compute_string_values_length(), 15);
    assert_eq!(rule.buffer_len(), RULE_BUF_MIN_LEN + 3 * 12 + 15);
}

#[test]
fn rule_buffer_accessors() {
    let rule = rule_with_fields(vec![(RuleField::Arch(7), RuleFieldFlags(9))]);
    let buf = RuleBuffer::new(rule.to_bytes().unwrap());
    assert_eq!(buf.field_count(), 1);
    assert_eq!(buf.field(0), AUDIT_ARCH);
    assert_eq!(buf.value(0), 7);
    assert_eq!(buf.field_flags(0), 9);
    assert_eq!(buf.buflen(), 0);
    assert_eq!(buf.syscall_word(0), 0);
}

#[test]
fn rule_default_is_empty() {
    let rule = RuleMessage::default();
    assert_eq!(rule.fields.len(), 0);
    assert_eq!(rule.flags, RuleFlags(0));
    assert_eq!(rule.action, RuleAction(0));
    assert_eq!(rule.syscalls, RuleSyscalls::new_zeroed());
}
