//! Error values returned by the codecs.  Every failure is detected eagerly
//! and reported to the immediate caller; nothing is retried or recovered
//! inside the codec.

use vstd::prelude::*;

verus! {

/// A reason why a buffer could not be decoded, or a message not encoded.
#[derive(Debug, Clone, Copy, PartialEq, Eq, Structural)]
pub enum DecodeError {
    /// The buffer is smaller than the format's required minimum.
    TooShort { minimum: usize, length: usize },
    /// A rule descriptor carries a field-type code outside the vocabulary.
    UnknownFieldCode(u32),
    /// A descriptor declares a string length that runs past the buffer end.
    TruncatedStringPool { declared: usize, available: usize },
    /// The message-type discriminator of a frame is not recognized.
    UnsupportedMessageType(u16),
    /// A rule holds more field entries than the descriptor table can carry.
    TooManyFields { count: usize },
}

impl DecodeError {
    /// A short human-readable description of the error.
    pub fn describe(&self) -> String {
        match self {
            DecodeError::TooShort { .. } => "buffer too short".to_string(),
            DecodeError::UnknownFieldCode(_) => "unknown rule field code".to_string(),
            DecodeError::TruncatedStringPool { .. } => "truncated string pool".to_string(),
            DecodeError::UnsupportedMessageType(_) => "unsupported message type".to_string(),
            DecodeError::TooManyFields { .. } => "too many rule fields".to_string(),
        }
    }
}

} // verus!
