//! Codec for the audit status record: eight mandatory 32-bit fields followed
//! by up to three optional trailing fields.  An optional field is present
//! exactly when the buffer is long enough to cover its byte range; kernels of
//! different generations emit different lengths, and absence is an observable
//! state distinct from a zero value.
//!
//! The canonical layout used here places the optional fields sequentially:
//! the feature bitmap at bytes 32..36, the backlog wait time at 36..40 and
//! the actual backlog wait time at 40..44.  Encoding always produces the
//! maximal 44-byte layout, with absent fields emitted as zero words.

use crate::errors::DecodeError;
use crate::wire::read_u32_at;
use crate::wire::u32_at;
use crate::wire::u32_bytes;
use crate::wire::write_u32_at;
use crate::wire::zeroed;
use crate::wire::lemma_u32_bytes;
use crate::wire::set_word_post;
use vstd::prelude::*;

verus! {

/// Length of the 8-mandatory-field prefix; the decode minimum.
pub const STATUS_MESSAGE_MIN_LEN: usize = 32;

/// Length of the maximal layout, with all three optional fields present;
/// the encode output size.
pub const STATUS_MESSAGE_LEN: usize = 44;

/// The audit status record.
#[derive(Debug, PartialEq, Eq, Clone)]
pub struct StatusMessage {
    /// Bit mask selecting the fields a status change applies to.
    pub mask: u32,
    /// Whether auditing is enabled.
    pub enabled: u32,
    /// Failure-to-log action.
    pub failure: u32,
    /// PID of the audit daemon.
    pub pid: u32,
    /// Message rate limit (per second).
    pub rate_limiting: u32,
    /// Waiting-message limit.
    pub backlog_limit: u32,
    /// Messages lost.
    pub lost: u32,
    /// Messages waiting in the queue.
    pub backlog: u32,
    /// Bitmap of kernel audit features; absent on old kernels.
    pub feature_bitmap: Option<u32>,
    /// Message queue wait timeout; absent on old kernels.
    pub backlog_wait_time: Option<u32>,
    /// Time actually spent waiting on the queue; absent on old kernels.
    pub backlog_wait_time_actual: Option<u32>,
}

/// The word an optional field contributes to the encoded buffer: its value
/// when present, zero when absent.
pub open spec fn opt_word(f: Option<u32>) -> u32 {
    match f {
        Some(v) => v,
        None => 0u32,
    }
}

/// The 44 bytes that encode a status record.
pub open spec fn spec_status_encode(m: StatusMessage) -> Seq<u8> {
    u32_bytes(m.mask) + u32_bytes(m.enabled) + u32_bytes(m.failure) + u32_bytes(m.pid)
        + u32_bytes(m.rate_limiting) + u32_bytes(m.backlog_limit) + u32_bytes(m.lost)
        + u32_bytes(m.backlog) + u32_bytes(opt_word(m.feature_bitmap)) + u32_bytes(
        opt_word(m.backlog_wait_time),
    ) + u32_bytes(opt_word(m.backlog_wait_time_actual))
}

/// The status record a buffer decodes to: the eight mandatory words, then
/// each optional field present exactly when the buffer covers its range.
pub open spec fn spec_status_decode(b: Seq<u8>) -> Result<StatusMessage, DecodeError> {
    if b.len() < STATUS_MESSAGE_MIN_LEN {
        Err(
            DecodeError::TooShort {
                minimum: STATUS_MESSAGE_MIN_LEN,
                length: b.len() as usize,
            },
        )
    } else {
        Ok(
            StatusMessage {
                mask: u32_at(b, 0),
                enabled: u32_at(b, 4),
                failure: u32_at(b, 8),
                pid: u32_at(b, 12),
                rate_limiting: u32_at(b, 16),
                backlog_limit: u32_at(b, 20),
                lost: u32_at(b, 24),
                backlog: u32_at(b, 28),
                feature_bitmap: if b.len() >= 36 {
                    Some(u32_at(b, 32))
                } else {
                    None
                },
                backlog_wait_time: if b.len() >= 40 {
                    Some(u32_at(b, 36))
                } else {
                    None
                },
                backlog_wait_time_actual: if b.len() >= 44 {
                    Some(u32_at(b, 40))
                } else {
                    None
                },
            },
        )
    }
}

/// The encoded form of a status record is always the maximal layout.
pub proof fn lemma_status_encode_len(m: StatusMessage)
    ensures
        spec_status_encode(m).len() == STATUS_MESSAGE_LEN,
{
    lemma_u32_bytes();
}

/// Round trip: a status record with all optional fields present decodes
/// from its own encoding unchanged.
pub proof fn lemma_status_round_trip(m: StatusMessage)
    requires
        m.feature_bitmap is Some,
        m.backlog_wait_time is Some,
        m.backlog_wait_time_actual is Some,
    ensures
        spec_status_decode(spec_status_encode(m)) == Ok::<StatusMessage, DecodeError>(m),
{
    lemma_u32_bytes();
    let b = spec_status_encode(m);
    assert(b.subrange(0, 4) =~= u32_bytes(m.mask));
    assert(b.subrange(4, 8) =~= u32_bytes(m.enabled));
    assert(b.subrange(8, 12) =~= u32_bytes(m.failure));
    assert(b.subrange(12, 16) =~= u32_bytes(m.pid));
    assert(b.subrange(16, 20) =~= u32_bytes(m.rate_limiting));
    assert(b.subrange(20, 24) =~= u32_bytes(m.backlog_limit));
    assert(b.subrange(24, 28) =~= u32_bytes(m.lost));
    assert(b.subrange(28, 32) =~= u32_bytes(m.backlog));
    assert(b.subrange(32, 36) =~= u32_bytes(opt_word(m.feature_bitmap)));
    assert(b.subrange(36, 40) =~= u32_bytes(opt_word(m.backlog_wait_time)));
    assert(b.subrange(40, 44) =~= u32_bytes(opt_word(m.backlog_wait_time_actual)));
}

/// Version skew: presence of the optional fields is decided by the buffer
/// length alone.  A 32-byte buffer decodes with all three optional fields
/// absent; a 36-byte buffer with only the feature bitmap present; a 40-byte
/// buffer additionally with the backlog wait time.
pub proof fn lemma_status_version_skew(b: Seq<u8>)
    ensures
        b.len() == 32 ==> {
            let r = spec_status_decode(b);
            &&& r is Ok
            &&& r->Ok_0.feature_bitmap is None
            &&& r->Ok_0.backlog_wait_time is None
            &&& r->Ok_0.backlog_wait_time_actual is None
        },
        b.len() == 36 ==> {
            let r = spec_status_decode(b);
            &&& r is Ok
            &&& r->Ok_0.feature_bitmap is Some
            &&& r->Ok_0.backlog_wait_time is None
            &&& r->Ok_0.backlog_wait_time_actual is None
        },
        b.len() == 40 ==> {
            let r = spec_status_decode(b);
            &&& r is Ok
            &&& r->Ok_0.feature_bitmap is Some
            &&& r->Ok_0.backlog_wait_time is Some
            &&& r->Ok_0.backlog_wait_time_actual is None
        },
{
}

impl StatusMessage {
    /// A status record with every mandatory field zero and every optional
    /// field absent.
    pub fn new() -> (r: Self)
        ensures
            r.mask == 0 && r.enabled == 0 && r.failure == 0 && r.pid == 0,
            r.rate_limiting == 0 && r.backlog_limit == 0 && r.lost == 0 && r.backlog == 0,
            r.feature_bitmap is None,
            r.backlog_wait_time is None,
            r.backlog_wait_time_actual is None,
    {
        StatusMessage {
            mask: 0,
            enabled: 0,
            failure: 0,
            pid: 0,
            rate_limiting: 0,
            backlog_limit: 0,
            lost: 0,
            backlog: 0,
            feature_bitmap: None,
            backlog_wait_time: None,
            backlog_wait_time_actual: None,
        }
    }

    /// The size of the buffer `emit` expects: always the maximal layout.
    pub fn buffer_len(&self) -> (r: usize)
        ensures
            r == STATUS_MESSAGE_LEN,
    {
        STATUS_MESSAGE_LEN
    }

    /// Decodes a status record from a buffer, tolerating buffers that carry
    /// only a prefix of the optional fields.
    pub fn parse(buf: &StatusMessageBuffer) -> (r: Result<StatusMessage, DecodeError>)
        ensures
            r == spec_status_decode(buf@),
    {
        match buf.check_buffer_length() {
            Err(e) => Err(e),
            Ok(()) => Ok(
                StatusMessage {
                    mask: buf.mask(),
                    enabled: buf.enabled(),
                    failure: buf.failure(),
                    pid: buf.pid(),
                    rate_limiting: buf.rate_limiting(),
                    backlog_limit: buf.backlog_limit(),
                    lost: buf.lost(),
                    backlog: buf.backlog(),
                    feature_bitmap: buf.feature_bitmap(),
                    backlog_wait_time: buf.backlog_wait_time(),
                    backlog_wait_time_actual: buf.backlog_wait_time_actual(),
                },
            ),
        }
    }

    /// Writes the maximal 44-byte layout into the front of `buffer`,
    /// emitting absent optional fields as zero words and leaving bytes past
    /// the layout unchanged.
    pub fn emit(&self, buffer: &mut StatusMessageBuffer)
        requires
            old(buffer)@.len() >= STATUS_MESSAGE_LEN,
        ensures
            final(buffer)@.len() == old(buffer)@.len(),
            final(buffer)@.subrange(0, STATUS_MESSAGE_LEN as int) == spec_status_encode(*self),
            forall|j: int|
                STATUS_MESSAGE_LEN <= j < old(buffer)@.len() ==> final(buffer)@[j] == old(buffer)@[j],
    {
        buffer.set_mask(self.mask);
        buffer.set_enabled(self.enabled);
        buffer.set_failure(self.failure);
        buffer.set_pid(self.pid);
        buffer.set_rate_limiting(self.rate_limiting);
        buffer.set_backlog_limit(self.backlog_limit);
        buffer.set_lost(self.lost);
        buffer.set_backlog(self.backlog);
        buffer.set_feature_bitmap(opt_value(self.feature_bitmap));
        buffer.set_backlog_wait_time(opt_value(self.backlog_wait_time));
        buffer.set_backlog_wait_time_actual(opt_value(self.backlog_wait_time_actual));
        proof {
            lemma_u32_bytes();
            assert(buffer@.subrange(0, STATUS_MESSAGE_LEN as int) =~= spec_status_encode(*self));
        }
    }

    /// Encodes the record into a fresh buffer of the maximal layout.
    pub fn to_bytes(&self) -> (r: Vec<u8>)
        ensures
            r@ == spec_status_encode(*self),
            r.len() == STATUS_MESSAGE_LEN,
    {
        let mut buffer = StatusMessageBuffer::new(zeroed(STATUS_MESSAGE_LEN));
        self.emit(&mut buffer);
        let r = buffer.into_inner();
        proof {
            lemma_status_encode_len(*self);
            assert(r@ =~= r@.subrange(0, STATUS_MESSAGE_LEN as int));
        }
        r
    }
}

impl Default for StatusMessage {
    /// Same record as `new`: every mandatory field zero, every optional
    /// field absent.
    fn default() -> (r: Self)
        ensures
            r == StatusMessage::new_spec(),
    {
        StatusMessage::new()
    }
}

impl StatusMessage {
    /// The record `new` and `default` return.
    pub open spec fn new_spec() -> StatusMessage {
        StatusMessage {
            mask: 0,
            enabled: 0,
            failure: 0,
            pid: 0,
            rate_limiting: 0,
            backlog_limit: 0,
            lost: 0,
            backlog: 0,
            feature_bitmap: None,
            backlog_wait_time: None,
            backlog_wait_time_actual: None,
        }
    }
}

/// The value an optional field writes to the buffer: its value when
/// present, zero when absent.
fn opt_value(f: Option<u32>) -> (r: u32)
    ensures
        r == opt_word(f),
{
    match f {
        Some(v) => v,
        None => 0,
    }
}

/// A status record overlaid on a raw byte buffer: typed accessors for each
/// fixed-offset field, every access proved in bounds.
#[derive(Debug, PartialEq, Eq, Clone)]
pub struct StatusMessageBuffer {
    buffer: Vec<u8>,
}

impl View for StatusMessageBuffer {
    type V = Seq<u8>;

    closed spec fn view(&self) -> Seq<u8> {
        self.buffer@
    }
}

impl StatusMessageBuffer {
    /// Wraps a buffer without checking its length.
    pub fn new(buffer: Vec<u8>) -> (r: StatusMessageBuffer)
        ensures
            r@ == buffer@,
    {
        StatusMessageBuffer { buffer }
    }

    /// Wraps a buffer, rejecting one smaller than the mandatory prefix.
    pub fn new_checked(buffer: Vec<u8>) -> (r: Result<StatusMessageBuffer, DecodeError>)
        ensures
            r is Ok <==> buffer@.len() >= STATUS_MESSAGE_MIN_LEN,
            r matches Ok(sb) ==> sb@ == buffer@,
            r matches Err(e) ==> e == (DecodeError::TooShort {
                minimum: STATUS_MESSAGE_MIN_LEN,
                length: buffer@.len() as usize,
            }),
    {
        let buf = Self::new(buffer);
        match buf.check_buffer_length() {
            Ok(()) => Ok(buf),
            Err(e) => Err(e),
        }
    }

    /// Accepts exactly the buffers that cover the eight mandatory fields.
    pub fn check_buffer_length(&self) -> (r: Result<(), DecodeError>)
        ensures
            r is Ok <==> self@.len() >= STATUS_MESSAGE_MIN_LEN,
            r matches Err(e) ==> e == (DecodeError::TooShort {
                minimum: STATUS_MESSAGE_MIN_LEN,
                length: self@.len() as usize,
            }),
    {
        let len = self.buffer.len();
        if len < STATUS_MESSAGE_MIN_LEN {
            Err(DecodeError::TooShort { minimum: STATUS_MESSAGE_MIN_LEN, length: len })
        } else {
            Ok(())
        }
    }

    /// Hands the underlying buffer back.
    pub fn into_inner(self) -> (r: Vec<u8>)
        ensures
            r@ == self@,
    {
        self.buffer
    }

    /// Reads the validity mask at bytes 0..4.
    pub fn mask(&self) -> (r: u32)
        requires
            self@.len() >= STATUS_MESSAGE_MIN_LEN,
        ensures
            r == u32_at(self@, 0),
    {
        read_u32_at(&self.buffer, 0)
    }

    /// Reads the enabled flag at bytes 4..8.
    pub fn enabled(&self) -> (r: u32)
        requires
            self@.len() >= STATUS_MESSAGE_MIN_LEN,
        ensures
            r == u32_at(self@, 4),
    {
        read_u32_at(&self.buffer, 4)
    }

    /// Reads the failure action at bytes 8..12.
    pub fn failure(&self) -> (r: u32)
        requires
            self@.len() >= STATUS_MESSAGE_MIN_LEN,
        ensures
            r == u32_at(self@, 8),
    {
        read_u32_at(&self.buffer, 8)
    }

    /// Reads the daemon PID at bytes 12..16.
    pub fn pid(&self) -> (r: u32)
        requires
            self@.len() >= STATUS_MESSAGE_MIN_LEN,
        ensures
            r == u32_at(self@, 12),
    {
        read_u32_at(&self.buffer, 12)
    }

    /// Reads the rate limit at bytes 16..20.
    pub fn rate_limiting(&self) -> (r: u32)
        requires
            self@.len() >= STATUS_MESSAGE_MIN_LEN,
        ensures
            r == u32_at(self@, 16),
    {
        read_u32_at(&self.buffer, 16)
    }

    /// Reads the backlog limit at bytes 20..24.
    pub fn backlog_limit(&self) -> (r: u32)
        requires
            self@.len() >= STATUS_MESSAGE_MIN_LEN,
        ensures
            r == u32_at(self@, 20),
    {
        read_u32_at(&self.buffer, 20)
    }

    /// Reads the lost-message count at bytes 24..28.
    pub fn lost(&self) -> (r: u32)
        requires
            self@.len() >= STATUS_MESSAGE_MIN_LEN,
        ensures
            r == u32_at(self@, 24),
    {
        read_u32_at(&self.buffer, 24)
    }

    /// Reads the backlog depth at bytes 28..32.
    pub fn backlog(&self) -> (r: u32)
        requires
            self@.len() >= STATUS_MESSAGE_MIN_LEN,
        ensures
            r == u32_at(self@, 28),
    {
        read_u32_at(&self.buffer, 28)
    }

    /// Reads the feature bitmap at bytes 32..36 when the buffer covers it.
    pub fn feature_bitmap(&self) -> (r: Option<u32>)
        ensures
            r == (if self@.len() >= 36 {
                Some(u32_at(self@, 32))
            } else {
                None::<u32>
            }),
    {
        if self.buffer.len() >= 36 {
            Some(read_u32_at(&self.buffer, 32))
        } else {
            None
        }
    }

    /// Reads the backlog wait time at bytes 36..40 when the buffer covers it.
    pub fn backlog_wait_time(&self) -> (r: Option<u32>)
        ensures
            r == (if self@.len() >= 40 {
                Some(u32_at(self@, 36))
            } else {
                None::<u32>
            }),
    {
        if self.buffer.len() >= 40 {
            Some(read_u32_at(&self.buffer, 36))
        } else {
            None
        }
    }

    /// Reads the actual backlog wait time at bytes 40..44 when the buffer
    /// covers it.
    pub fn backlog_wait_time_actual(&self) -> (r: Option<u32>)
        ensures
            r == (if self@.len() >= 44 {
                Some(u32_at(self@, 40))
            } else {
                None::<u32>
            }),
    {
        if self.buffer.len() >= 44 {
            Some(read_u32_at(&self.buffer, 40))
        } else {
            None
        }
    }

    /// Writes the validity mask at bytes 0..4.
    pub fn set_mask(&mut self, value: u32)
        requires
            old(self)@.len() >= 4,
        ensures
            set_word_post(old(self)@, final(self)@, 0, value),
    {
        write_u32_at(&mut self.buffer, 0, value);
    }

    /// Writes the enabled flag at bytes 4..8.
    pub fn set_enabled(&mut self, value: u32)
        requires
            old(self)@.len() >= 8,
        ensures
            set_word_post(old(self)@, final(self)@, 4, value),
    {
        write_u32_at(&mut self.buffer, 4, value);
    }

    /// Writes the failure action at bytes 8..12.
    pub fn set_failure(&mut self, value: u32)
        requires
            old(self)@.len() >= 12,
        ensures
            set_word_post(old(self)@, final(self)@, 8, value),
    {
        write_u32_at(&mut self.buffer, 8, value);
    }

    /// Writes the daemon PID at bytes 12..16.
    pub fn set_pid(&mut self, value: u32)
        requires
            old(self)@.len() >= 16,
        ensures
            set_word_post(old(self)@, final(self)@, 12, value),
    {
        write_u32_at(&mut self.buffer, 12, value);
    }

    /// Writes the rate limit at bytes 16..20.
    pub fn set_rate_limiting(&mut self, value: u32)
        requires
            old(self)@.len() >= 20,
        ensures
            set_word_post(old(self)@, final(self)@, 16, value),
    {
        write_u32_at(&mut self.buffer, 16, value);
    }

    /// Writes the backlog limit at bytes 20..24.
    pub fn set_backlog_limit(&mut self, value: u32)
        requires
            old(self)@.len() >= 24,
        ensures
            set_word_post(old(self)@, final(self)@, 20, value),
    {
        write_u32_at(&mut self.buffer, 20, value);
    }

    /// Writes the lost-message count at bytes 24..28.
    pub fn set_lost(&mut self, value: u32)
        requires
            old(self)@.len() >= 28,
        ensures
            set_word_post(old(self)@, final(self)@, 24, value),
    {
        write_u32_at(&mut self.buffer, 24, value);
    }

    /// Writes the backlog depth at bytes 28..32.
    pub fn set_backlog(&mut self, value: u32)
        requires
            old(self)@.len() >= 32,
        ensures
            set_word_post(old(self)@, final(self)@, 28, value),
    {
        write_u32_at(&mut self.buffer, 28, value);
    }

    /// Writes the feature bitmap at bytes 32..36.
    pub fn set_feature_bitmap(&mut self, value: u32)
        requires
            old(self)@.len() >= 36,
        ensures
            set_word_post(old(self)@, final(self)@, 32, value),
    {
        write_u32_at(&mut self.buffer, 32, value);
    }

    /// Writes the backlog wait time at bytes 36..40.
    pub fn set_backlog_wait_time(&mut self, value: u32)
        requires
            old(self)@.len() >= 40,
        ensures
            set_word_post(old(self)@, final(self)@, 36, value),
    {
        write_u32_at(&mut self.buffer, 36, value);
    }

    /// Writes the actual backlog wait time at bytes 40..44.
    pub fn set_backlog_wait_time_actual(&mut self, value: u32)
        requires
            old(self)@.len() >= 44,
        ensures
            set_word_post(old(self)@, final(self)@, 40, value),
    {
        write_u32_at(&mut self.buffer, 40, value);
    }
}

} // verus!
