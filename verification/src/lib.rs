//! Codec for the Linux audit subsystem's netlink messages.
//!
//! The crate translates between raw byte buffers carried inside generic
//! netlink frames and typed message payloads: status queries and replies,
//! and audit-rule add/delete/list operations.  All integers on the wire are
//! 32-bit words in the little-endian byte order used by the platforms this
//! crate targets.

pub mod constants;
pub mod errors;
pub mod fields;
pub mod message;
pub mod rule;
pub mod status;
pub mod wire;

pub use constants::AUDIT_BITMASK_SIZE;
pub use constants::AUDIT_MAX_FIELDS;
pub use errors::DecodeError;
pub use fields::RuleAction;
pub use fields::RuleField;
pub use fields::RuleFieldFlags;
pub use fields::RuleFlags;
pub use fields::RuleSyscalls;
pub use message::AuditMessage;
pub use rule::RuleBuffer;
pub use rule::RuleMessage;
pub use rule::RULE_BUF_MIN_LEN;
pub use status::StatusMessage;
pub use status::StatusMessageBuffer;
pub use status::STATUS_MESSAGE_LEN;
pub use status::STATUS_MESSAGE_MIN_LEN;
