//! Codec for the audit rule record: a fixed header, a fixed-size syscall
//! bitmask, one 12-byte descriptor slot per field entry, and a trailing
//! string pool holding the concatenated bytes of all string-valued fields.
//!
//! Wire layout, offsets in bytes with `fc` the field count:
//! flags at 0..4, action at 4..8, field count at 8..12, the syscall bitmask
//! words at 12..268, the string-pool length at 268..272, then `fc`
//! descriptor slots of 12 bytes each (field-type code, value-or-length,
//! field flags), then the string pool.  Strings sit in the pool in field
//! order with no delimiters; each one is recovered through the length
//! recorded in its descriptor's value slot.

use crate::constants::AUDIT_BITMASK_SIZE;
use crate::constants::AUDIT_MAX_FIELDS;
use crate::errors::DecodeError;
use crate::fields::field_view_wf;
use crate::fields::is_int_code;
use crate::fields::is_string_code;
use crate::fields::view_code;
use crate::fields::view_str_bytes;
use crate::fields::view_wire_value;
use crate::fields::RuleAction;
use crate::fields::RuleField;
use crate::fields::RuleFieldFlags;
use crate::fields::RuleFieldView;
use crate::fields::RuleFlags;
use crate::fields::RuleSyscalls;
use crate::wire::lemma_u32_bytes;
use crate::wire::read_bytes_at;
use crate::wire::read_u32_at;
use crate::wire::set_word_post;
use crate::wire::write_bytes_at;
use crate::wire::write_u32_at;
use crate::wire::zeroed;
use crate::wire::u32_at;
use crate::wire::u32_bytes;
use vstd::prelude::*;

verus! {

/// Length of the fixed part of a rule buffer: header, syscall bitmask and
/// string-pool length word.  A rule with no fields encodes to exactly this.
pub const RULE_BUF_MIN_LEN: usize = 272;

/// Byte offset of field entry `i`'s descriptor slot.
pub open spec fn desc_off(i: int) -> int {
    RULE_BUF_MIN_LEN as int + 12 * i
}

/// Byte offset of the string pool in a buffer with `fc` field entries.
pub open spec fn spec_pool_start(fc: int) -> int {
    RULE_BUF_MIN_LEN as int + 12 * fc
}

/// The wire-relevant content of a whole rule.
#[verifier::ext_equal]
pub struct RuleMessageView {
    /// Filter-set flags word.
    pub flags: u32,
    /// Action code.
    pub action: u32,
    /// The field entries in wire order, each with its per-field flag bits.
    pub fields: Seq<(RuleFieldView, u32)>,
    /// The syscall bitmask words.
    pub syscalls: Seq<u32>,
}

/// The view of an executable field-entry sequence.
pub open spec fn fields_view(s: Seq<(RuleField, RuleFieldFlags)>) -> Seq<(RuleFieldView, u32)> {
    s.map_values(|p: (RuleField, RuleFieldFlags)| (p.0@, p.1.0))
}

/// The 12 descriptor bytes of one field entry: its field-type code, its
/// value-or-length word, and its per-field flag bits.
pub open spec fn desc_bytes(fv: RuleFieldView, fl: u32) -> Seq<u8> {
    u32_bytes(view_code(fv)) + u32_bytes(view_wire_value(fv)) + u32_bytes(fl)
}

/// The descriptor region: the concatenated descriptor slots of all entries.
pub open spec fn descs_bytes(fields: Seq<(RuleFieldView, u32)>) -> Seq<u8>
    decreases fields.len(),
{
    if fields.len() == 0 {
        Seq::empty()
    } else {
        desc_bytes(fields[0].0, fields[0].1) + descs_bytes(fields.drop_first())
    }
}

/// The string pool: the concatenated payload bytes of all string-valued
/// entries, in field order.
pub open spec fn pool_bytes(fields: Seq<(RuleFieldView, u32)>) -> Seq<u8>
    decreases fields.len(),
{
    if fields.len() == 0 {
        Seq::empty()
    } else {
        view_str_bytes(fields[0].0) + pool_bytes(fields.drop_first())
    }
}

/// The concatenated bytes of a word sequence.
pub open spec fn words_bytes(ws: Seq<u32>) -> Seq<u8>
    decreases ws.len(),
{
    if ws.len() == 0 {
        Seq::empty()
    } else {
        u32_bytes(ws[0]) + words_bytes(ws.drop_first())
    }
}

/// A well-formed rule view: the syscall bitmask has its fixed size, every
/// field's shape agrees with its code, and the string pool fits the 32-bit
/// length word that records it.
pub open spec fn rule_view_wf(m: RuleMessageView) -> bool {
    &&& m.syscalls.len() == AUDIT_BITMASK_SIZE
    &&& forall|i: int| 0 <= i < m.fields.len() ==> field_view_wf(#[trigger] m.fields[i].0)
    &&& pool_bytes(m.fields).len() <= u32::MAX
}

/// The fixed part of an encoded rule: flags, action, field count, the
/// syscall bitmask words, and the string-pool length.
pub open spec fn header_bytes(m: RuleMessageView) -> Seq<u8> {
    u32_bytes(m.flags) + u32_bytes(m.action) + u32_bytes(m.fields.len() as u32) + words_bytes(
        m.syscalls,
    ) + u32_bytes(pool_bytes(m.fields).len() as u32)
}

/// The bytes that encode a rule: header, descriptor region, string pool.
pub open spec fn spec_rule_encode(m: RuleMessageView) -> Seq<u8> {
    header_bytes(m) + descs_bytes(m.fields) + pool_bytes(m.fields)
}

/// Decodes field entries `i..fc` of `b`, with `cursor` bytes of the string
/// pool already consumed by earlier entries.
pub open spec fn spec_decode_fields(b: Seq<u8>, fc: int, i: int, cursor: int) -> Result<
    Seq<(RuleFieldView, u32)>,
    DecodeError,
>
    decreases fc - i,
{
    if i >= fc {
        Ok(Seq::empty())
    } else {
        let code = u32_at(b, desc_off(i));
        let value = u32_at(b, desc_off(i) + 4);
        let fl = u32_at(b, desc_off(i) + 8);
        if is_string_code(code) {
            if spec_pool_start(fc) + cursor + value > b.len() {
                Err(
                    DecodeError::TruncatedStringPool {
                        declared: value as usize,
                        available: (b.len() - spec_pool_start(fc) - cursor) as usize,
                    },
                )
            } else {
                let bytes = b.subrange(
                    spec_pool_start(fc) + cursor,
                    spec_pool_start(fc) + cursor + value,
                );
                match spec_decode_fields(b, fc, i + 1, cursor + value) {
                    Ok(rest) => Ok(seq![(RuleFieldView::Str { code, bytes }, fl)] + rest),
                    Err(e) => Err(e),
                }
            }
        } else if is_int_code(code) {
            match spec_decode_fields(b, fc, i + 1, cursor) {
                Ok(rest) => Ok(seq![(RuleFieldView::Int { code, value }, fl)] + rest),
                Err(e) => Err(e),
            }
        } else {
            Err(DecodeError::UnknownFieldCode(code))
        }
    }
}

/// The rule a buffer decodes to.  A buffer shorter than the fixed part, or
/// one whose declared field count needs more descriptor slots than the
/// buffer holds, is too short; a declared field count over the maximum is
/// rejected before the descriptors are read.  The string-pool length word
/// is advisory: decode re-derives the pool positions from the descriptors
/// and bounds every read by the buffer end.
pub open spec fn spec_rule_decode(b: Seq<u8>) -> Result<RuleMessageView, DecodeError> {
    if b.len() < RULE_BUF_MIN_LEN {
        Err(DecodeError::TooShort { minimum: RULE_BUF_MIN_LEN, length: b.len() as usize })
    } else {
        let fc = u32_at(b, 8);
        if fc > AUDIT_MAX_FIELDS as u32 {
            Err(DecodeError::TooManyFields { count: fc as usize })
        } else if b.len() < spec_pool_start(fc as int) {
            Err(
                DecodeError::TooShort {
                    minimum: spec_pool_start(fc as int) as usize,
                    length: b.len() as usize,
                },
            )
        } else {
            match spec_decode_fields(b, fc as int, 0, 0) {
                Ok(fields) => Ok(
                    RuleMessageView {
                        flags: u32_at(b, 0),
                        action: u32_at(b, 4),
                        fields,
                        syscalls: Seq::new(
                            AUDIT_BITMASK_SIZE as nat,
                            |k: int| u32_at(b, 12 + 4 * k),
                        ),
                    },
                ),
                Err(e) => Err(e),
            }
        }
    }
}

/// One descriptor slot is 12 bytes.
pub proof fn lemma_desc_bytes_len(fv: RuleFieldView, fl: u32)
    ensures
        desc_bytes(fv, fl).len() == 12,
{
    lemma_u32_bytes();
}

/// The descriptor region holds 12 bytes per entry.
pub proof fn lemma_descs_len(fields: Seq<(RuleFieldView, u32)>)
    ensures
        descs_bytes(fields).len() == 12 * fields.len(),
    decreases fields.len(),
{
    if fields.len() > 0 {
        lemma_desc_bytes_len(fields[0].0, fields[0].1);
        lemma_descs_len(fields.drop_first());
    }
}

/// A word sequence occupies four bytes per word.
pub proof fn lemma_words_len(ws: Seq<u32>)
    ensures
        words_bytes(ws).len() == 4 * ws.len(),
    decreases ws.len(),
{
    lemma_u32_bytes();
    if ws.len() > 0 {
        lemma_words_len(ws.drop_first());
    }
}

/// Word `k` of a word sequence sits at byte offset `4 * k`.
pub proof fn lemma_words_at(ws: Seq<u32>, k: int)
    requires
        0 <= k < ws.len(),
    ensures
        words_bytes(ws).subrange(4 * k, 4 * k + 4) == u32_bytes(ws[k]),
    decreases k,
{
    lemma_u32_bytes();
    lemma_words_len(ws);
    lemma_words_len(ws.drop_first());
    if k == 0 {
        assert(words_bytes(ws).subrange(0, 4) =~= u32_bytes(ws[0]));
    } else {
        lemma_words_at(ws.drop_first(), k - 1);
        assert(words_bytes(ws).subrange(4 * k, 4 * k + 4) =~= words_bytes(
            ws.drop_first(),
        ).subrange(4 * (k - 1), 4 * (k - 1) + 4));
    }
}

/// Entry `k`'s descriptor slot sits at byte offset `12 * k` of the
/// descriptor region.
pub proof fn lemma_descs_at(fields: Seq<(RuleFieldView, u32)>, k: int)
    requires
        0 <= k < fields.len(),
    ensures
        descs_bytes(fields).subrange(12 * k, 12 * k + 12) == desc_bytes(
            fields[k].0,
            fields[k].1,
        ),
    decreases k,
{
    lemma_desc_bytes_len(fields[0].0, fields[0].1);
    lemma_desc_bytes_len(fields[k].0, fields[k].1);
    lemma_descs_len(fields);
    lemma_descs_len(fields.drop_first());
    if k == 0 {
        assert(descs_bytes(fields).subrange(0, 12) =~= desc_bytes(fields[0].0, fields[0].1));
    } else {
        lemma_descs_at(fields.drop_first(), k - 1);
        assert(descs_bytes(fields).subrange(12 * k, 12 * k + 12) =~= descs_bytes(
            fields.drop_first(),
        ).subrange(12 * (k - 1), 12 * (k - 1) + 12));
    }
}

/// The string pool splits at any entry boundary: the entries before `k`
/// contribute the pool's prefix, those from `k` on its suffix.
pub proof fn lemma_pool_split(fields: Seq<(RuleFieldView, u32)>, k: int)
    requires
        0 <= k <= fields.len(),
    ensures
        pool_bytes(fields) == pool_bytes(fields.take(k)) + pool_bytes(fields.skip(k)),
    decreases k,
{
    if k == 0 {
        assert(fields.take(0) =~= Seq::<(RuleFieldView, u32)>::empty());
        assert(fields.skip(0) =~= fields);
        assert(pool_bytes(fields) =~= pool_bytes(fields.take(0)) + pool_bytes(fields.skip(0)));
    } else {
        lemma_pool_split(fields.drop_first(), k - 1);
        assert(fields.take(k).drop_first() =~= fields.drop_first().take(k - 1));
        assert(fields.skip(k) =~= fields.drop_first().skip(k - 1));
        assert(fields.take(k)[0] == fields[0]);
        assert(pool_bytes(fields) =~= pool_bytes(fields.take(k)) + pool_bytes(fields.skip(k)));
    }
}

/// Dropping the first `k` entries leaves a pool that starts with entry
/// `k`'s payload.
pub proof fn lemma_pool_skip_unfold(fields: Seq<(RuleFieldView, u32)>, k: int)
    requires
        0 <= k < fields.len(),
    ensures
        pool_bytes(fields.skip(k)) == view_str_bytes(fields[k].0) + pool_bytes(
            fields.skip(k + 1),
        ),
{
    assert(fields.skip(k)[0] == fields[k]);
    assert(fields.skip(k).drop_first() =~= fields.skip(k + 1));
}

/// Taking one more entry appends that entry's payload to the pool prefix.
pub proof fn lemma_pool_take_step(fields: Seq<(RuleFieldView, u32)>, k: int)
    requires
        0 <= k < fields.len(),
    ensures
        pool_bytes(fields.take(k + 1)) == pool_bytes(fields.take(k)) + view_str_bytes(
            fields[k].0,
        ),
{
    lemma_pool_split(fields.take(k + 1), k);
    assert(fields.take(k + 1).take(k) =~= fields.take(k));
    let single = fields.take(k + 1).skip(k);
    assert(single.len() == 1);
    assert(single[0] == fields[k]);
    assert(single.drop_first() =~= Seq::<(RuleFieldView, u32)>::empty());
    assert(pool_bytes(single.drop_first()) =~= Seq::<u8>::empty());
    assert(pool_bytes(single) =~= view_str_bytes(fields[k].0));
}

/// Taking one more entry appends that entry's descriptor slot to the
/// descriptor region's prefix.
pub proof fn lemma_descs_take_step(fields: Seq<(RuleFieldView, u32)>, k: int)
    requires
        0 <= k < fields.len(),
    ensures
        descs_bytes(fields.take(k + 1)) == descs_bytes(fields.take(k)) + desc_bytes(
            fields[k].0,
            fields[k].1,
        ),
    decreases k,
{
    if k == 0 {
        assert(fields.take(0) =~= Seq::<(RuleFieldView, u32)>::empty());
        let single = fields.take(1);
        assert(single[0] == fields[0]);
        assert(single.drop_first() =~= Seq::<(RuleFieldView, u32)>::empty());
        assert(descs_bytes(fields.take(1)) =~= descs_bytes(fields.take(0)) + desc_bytes(
            fields[0].0,
            fields[0].1,
        ));
    } else {
        lemma_descs_take_step(fields.drop_first(), k - 1);
        assert(fields.take(k + 1).drop_first() =~= fields.drop_first().take(k));
        assert(fields.take(k).drop_first() =~= fields.drop_first().take(k - 1));
        assert(fields.take(k + 1)[0] == fields[0]);
        assert(fields.take(k)[0] == fields[0]);
        assert(fields.drop_first()[k - 1] == fields[k]);
        assert(descs_bytes(fields.take(k + 1)) =~= descs_bytes(fields.take(k)) + desc_bytes(
            fields[k].0,
            fields[k].1,
        ));
    }
}

/// Taking one more word appends its bytes to the word region's prefix.
pub proof fn lemma_words_take_step(ws: Seq<u32>, k: int)
    requires
        0 <= k < ws.len(),
    ensures
        words_bytes(ws.take(k + 1)) == words_bytes(ws.take(k)) + u32_bytes(ws[k]),
    decreases k,
{
    if k == 0 {
        assert(ws.take(0) =~= Seq::<u32>::empty());
        assert(ws.take(1)[0] == ws[0]);
        assert(ws.take(1).drop_first() =~= Seq::<u32>::empty());
        assert(words_bytes(ws.take(1)) =~= words_bytes(ws.take(0)) + u32_bytes(ws[0]));
    } else {
        lemma_words_take_step(ws.drop_first(), k - 1);
        assert(ws.take(k + 1).drop_first() =~= ws.drop_first().take(k));
        assert(ws.take(k).drop_first() =~= ws.drop_first().take(k - 1));
        assert(ws.take(k + 1)[0] == ws[0]);
        assert(ws.take(k)[0] == ws[0]);
        assert(ws.drop_first()[k - 1] == ws[k]);
        assert(words_bytes(ws.take(k + 1)) =~= words_bytes(ws.take(k)) + u32_bytes(ws[k]));
    }
}

/// The encoded length of a rule is a pure function of its content: the
/// fixed part, one descriptor slot per entry, and the string pool.
pub proof fn lemma_rule_encode_len(m: RuleMessageView)
    requires
        m.syscalls.len() == AUDIT_BITMASK_SIZE,
    ensures
        spec_rule_encode(m).len() == RULE_BUF_MIN_LEN + 12 * m.fields.len() + pool_bytes(
            m.fields,
        ).len(),
{
    lemma_u32_bytes();
    lemma_words_len(m.syscalls);
    lemma_descs_len(m.fields);
}

/// Decoding an encoded rule's field entries from entry `i` on, with the
/// pool cursor where entries before `i` left it, recovers exactly the
/// entries from `i` on.
pub proof fn lemma_decode_fields_of_encode(m: RuleMessageView, i: int)
    requires
        rule_view_wf(m),
        m.fields.len() <= AUDIT_MAX_FIELDS,
        0 <= i <= m.fields.len(),
    ensures
        spec_decode_fields(
            spec_rule_encode(m),
            m.fields.len() as int,
            i,
            pool_bytes(m.fields.take(i)).len() as int,
        ) == Ok::<Seq<(RuleFieldView, u32)>, DecodeError>(m.fields.skip(i)),
    decreases m.fields.len() - i,
{
    lemma_u32_bytes();
    let b = spec_rule_encode(m);
    let fields = m.fields;
    let fc = fields.len() as int;
    let ps = spec_pool_start(fc);
    let cursor = pool_bytes(fields.take(i)).len() as int;
    lemma_words_len(m.syscalls);
    lemma_descs_len(fields);
    lemma_rule_encode_len(m);
    lemma_pool_split(fields, i);
    if i == fc {
        assert(fields.skip(i) =~= Seq::<(RuleFieldView, u32)>::empty());
    } else {
        let fv = fields[i].0;
        let fl = fields[i].1;
        let code = view_code(fv);
        let len_i = view_str_bytes(fv).len() as int;
        assert(field_view_wf(fv));
        assert(!(is_int_code(code) && is_string_code(code)));
        // The three words of entry `i`'s descriptor slot.
        lemma_descs_at(fields, i);
        lemma_desc_bytes_len(fv, fl);
        assert(b.subrange(desc_off(i), desc_off(i) + 12) =~= descs_bytes(fields).subrange(
            12 * i,
            12 * i + 12,
        ));
        let dslot = b.subrange(desc_off(i), desc_off(i) + 12);
        assert(dslot == desc_bytes(fv, fl));
        assert(b.subrange(desc_off(i), desc_off(i) + 4) =~= dslot.subrange(0, 4));
        assert(b.subrange(desc_off(i) + 4, desc_off(i) + 8) =~= dslot.subrange(4, 8));
        assert(b.subrange(desc_off(i) + 8, desc_off(i) + 12) =~= dslot.subrange(8, 12));
        assert(dslot.subrange(0, 4) =~= u32_bytes(code));
        assert(dslot.subrange(4, 8) =~= u32_bytes(view_wire_value(fv)));
        assert(dslot.subrange(8, 12) =~= u32_bytes(fl));
        // The pool cursor after entry `i`, and its bound.
        lemma_pool_take_step(fields, i);
        lemma_pool_split(fields, i + 1);
        assert(cursor + len_i <= pool_bytes(fields).len());
        lemma_decode_fields_of_encode(m, i + 1);
        match fv {
            RuleFieldView::Str { code: c0, bytes: bs } => {
                assert(bs.len() <= u32::MAX);
                assert(view_wire_value(fv) == bs.len() as u32);
                assert(ps + cursor + bs.len() <= b.len());
                assert(b.subrange(ps + cursor, ps + cursor + len_i) =~= pool_bytes(
                    fields,
                ).subrange(cursor, cursor + len_i));
                lemma_pool_skip_unfold(fields, i);
                assert(pool_bytes(fields).subrange(cursor, cursor + len_i) =~= bs);
                assert(seq![(fv, fl)] + fields.skip(i + 1) =~= fields.skip(i));
            },
            RuleFieldView::Int { code: c0, value: v0 } => {
                assert(len_i == 0);
                assert(seq![(fv, fl)] + fields.skip(i + 1) =~= fields.skip(i));
            },
        }
    }
}

/// Round trip: every well-formed rule whose field count is within the
/// maximum decodes from its own encoding unchanged, field order included.
pub proof fn lemma_rule_round_trip(m: RuleMessageView)
    requires
        rule_view_wf(m),
        m.fields.len() <= AUDIT_MAX_FIELDS,
    ensures
        spec_rule_decode(spec_rule_encode(m)) == Ok::<RuleMessageView, DecodeError>(m),
{
    lemma_u32_bytes();
    let b = spec_rule_encode(m);
    let fc = m.fields.len() as int;
    lemma_words_len(m.syscalls);
    lemma_descs_len(m.fields);
    lemma_rule_encode_len(m);
    assert(b.subrange(0, 4) =~= u32_bytes(m.flags));
    assert(b.subrange(4, 8) =~= u32_bytes(m.action));
    assert(b.subrange(8, 12) =~= u32_bytes(m.fields.len() as u32));
    assert(u32_at(b, 8) == m.fields.len() as u32);
    assert forall|k: int| 0 <= k < AUDIT_BITMASK_SIZE implies u32_at(b, 12 + 4 * k)
        == m.syscalls[k] by {
        lemma_words_at(m.syscalls, k);
        assert(b.subrange(12 + 4 * k, 12 + 4 * k + 4) =~= words_bytes(m.syscalls).subrange(
            4 * k,
            4 * k + 4,
        ));
    }
    assert(m.fields.take(0) =~= Seq::<(RuleFieldView, u32)>::empty());
    lemma_decode_fields_of_encode(m, 0);
    assert(m.fields.skip(0) =~= m.fields);
    let decoded = spec_rule_decode(b);
    assert(decoded is Ok);
    assert(decoded->Ok_0.syscalls =~= m.syscalls);
    assert(decoded->Ok_0 =~= m);
}

/// An audit rule record overlaid on a raw byte buffer: typed accessors for
/// the fixed-offset header words, the descriptor slots and the string pool,
/// every access proved in bounds.
#[derive(Debug, PartialEq, Eq, Clone)]
pub struct RuleBuffer {
    buffer: Vec<u8>,
}

impl View for RuleBuffer {
    type V = Seq<u8>;

    closed spec fn view(&self) -> Seq<u8> {
        self.buffer@
    }
}

impl RuleBuffer {
    /// Wraps a buffer.
    pub fn new(buffer: Vec<u8>) -> (r: RuleBuffer)
        ensures
            r@ == buffer@,
    {
        RuleBuffer { buffer }
    }

    /// Hands the underlying buffer back.
    pub fn into_inner(self) -> (r: Vec<u8>)
        ensures
            r@ == self@,
    {
        self.buffer
    }

    /// The buffer's length in bytes.
    pub fn len(&self) -> (r: usize)
        ensures
            r == self@.len(),
    {
        self.buffer.len()
    }

    /// Reads the flags word at bytes 0..4.
    pub fn flags(&self) -> (r: u32)
        requires
            self@.len() >= 4,
        ensures
            r == u32_at(self@, 0),
    {
        read_u32_at(&self.buffer, 0)
    }

    /// Reads the action code at bytes 4..8.
    pub fn action(&self) -> (r: u32)
        requires
            self@.len() >= 8,
        ensures
            r == u32_at(self@, 4),
    {
        read_u32_at(&self.buffer, 4)
    }

    /// Reads the field count at bytes 8..12.
    pub fn field_count(&self) -> (r: u32)
        requires
            self@.len() >= 12,
        ensures
            r == u32_at(self@, 8),
    {
        read_u32_at(&self.buffer, 8)
    }

    /// Reads syscall bitmask word `k`.
    pub fn syscall_word(&self, k: usize) -> (r: u32)
        requires
            k < AUDIT_BITMASK_SIZE,
            self@.len() >= RULE_BUF_MIN_LEN,
        ensures
            r == u32_at(self@, 12 + 4 * k as int),
    {
        read_u32_at(&self.buffer, 12 + 4 * k)
    }

    /// Reads the string-pool length word at bytes 268..272.
    pub fn buflen(&self) -> (r: u32)
        requires
            self@.len() >= RULE_BUF_MIN_LEN,
        ensures
            r == u32_at(self@, 268),
    {
        read_u32_at(&self.buffer, 268)
    }

    /// Reads the field-type code of descriptor slot `i`.
    pub fn field(&self, i: usize) -> (r: u32)
        requires
            i < AUDIT_MAX_FIELDS,
            self@.len() >= RULE_BUF_MIN_LEN + 12 * i + 12,
        ensures
            r == u32_at(self@, desc_off(i as int)),
    {
        read_u32_at(&self.buffer, RULE_BUF_MIN_LEN + 12 * i)
    }

    /// Reads the value-or-length word of descriptor slot `i`.
    pub fn value(&self, i: usize) -> (r: u32)
        requires
            i < AUDIT_MAX_FIELDS,
            self@.len() >= RULE_BUF_MIN_LEN + 12 * i + 12,
        ensures
            r == u32_at(self@, desc_off(i as int) + 4),
    {
        read_u32_at(&self.buffer, RULE_BUF_MIN_LEN + 12 * i + 4)
    }

    /// Reads the per-field flag bits of descriptor slot `i`.
    pub fn field_flags(&self, i: usize) -> (r: u32)
        requires
            i < AUDIT_MAX_FIELDS,
            self@.len() >= RULE_BUF_MIN_LEN + 12 * i + 12,
        ensures
            r == u32_at(self@, desc_off(i as int) + 8),
    {
        read_u32_at(&self.buffer, RULE_BUF_MIN_LEN + 12 * i + 8)
    }

    /// Copies `n` pool bytes starting at absolute offset `start`.
    pub fn read_pool(&self, start: usize, n: usize) -> (r: Vec<u8>)
        requires
            start + n <= self@.len(),
        ensures
            r@ == self@.subrange(start as int, start + n),
    {
        read_bytes_at(&self.buffer, start, n)
    }

    /// Writes the flags word at bytes 0..4.
    pub fn set_flags(&mut self, value: u32)
        requires
            old(self)@.len() >= 4,
        ensures
            set_word_post(old(self)@, final(self)@, 0, value),
    {
        write_u32_at(&mut self.buffer, 0, value);
    }

    /// Writes the action code at bytes 4..8.
    pub fn set_action(&mut self, value: u32)
        requires
            old(self)@.len() >= 8,
        ensures
            set_word_post(old(self)@, final(self)@, 4, value),
    {
        write_u32_at(&mut self.buffer, 4, value);
    }

    /// Writes the field count at bytes 8..12.
    pub fn set_field_count(&mut self, value: u32)
        requires
            old(self)@.len() >= 12,
        ensures
            set_word_post(old(self)@, final(self)@, 8, value),
    {
        write_u32_at(&mut self.buffer, 8, value);
    }

    /// Writes syscall bitmask word `k`.
    pub fn set_syscall_word(&mut self, k: usize, value: u32)
        requires
            k < AUDIT_BITMASK_SIZE,
            old(self)@.len() >= RULE_BUF_MIN_LEN,
        ensures
            set_word_post(old(self)@, final(self)@, 12 + 4 * k as int, value),
    {
        write_u32_at(&mut self.buffer, 12 + 4 * k, value);
    }

    /// Writes the string-pool length word at bytes 268..272.
    pub fn set_buflen(&mut self, value: u32)
        requires
            old(self)@.len() >= RULE_BUF_MIN_LEN,
        ensures
            set_word_post(old(self)@, final(self)@, 268, value),
    {
        write_u32_at(&mut self.buffer, 268, value);
    }

    /// Writes the field-type code of descriptor slot `i`.
    pub fn set_field(&mut self, i: usize, value: u32)
        requires
            i < AUDIT_MAX_FIELDS,
            old(self)@.len() >= RULE_BUF_MIN_LEN + 12 * i + 12,
        ensures
            set_word_post(old(self)@, final(self)@, desc_off(i as int), value),
    {
        write_u32_at(&mut self.buffer, RULE_BUF_MIN_LEN + 12 * i, value);
    }

    /// Writes the value-or-length word of descriptor slot `i`.
    pub fn set_value(&mut self, i: usize, value: u32)
        requires
            i < AUDIT_MAX_FIELDS,
            old(self)@.len() >= RULE_BUF_MIN_LEN + 12 * i + 12,
        ensures
            set_word_post(old(self)@, final(self)@, desc_off(i as int) + 4, value),
    {
        write_u32_at(&mut self.buffer, RULE_BUF_MIN_LEN + 12 * i + 4, value);
    }

    /// Writes the per-field flag bits of descriptor slot `i`.
    pub fn set_field_flags(&mut self, i: usize, value: u32)
        requires
            i < AUDIT_MAX_FIELDS,
            old(self)@.len() >= RULE_BUF_MIN_LEN + 12 * i + 12,
        ensures
            set_word_post(old(self)@, final(self)@, desc_off(i as int) + 8, value),
    {
        write_u32_at(&mut self.buffer, RULE_BUF_MIN_LEN + 12 * i + 8, value);
    }

    /// Copies `src` into the buffer at absolute offset `start`, leaving
    /// every byte outside that range unchanged.
    pub fn write_pool(&mut self, start: usize, src: &Vec<u8>)
        requires
            start + src.len() <= old(self)@.len(),
        ensures
            final(self)@.len() == old(self)@.len(),
            final(self)@.subrange(start as int, start + src.len()) == src@,
            forall|j: int|
                0 <= j < old(self)@.len() && !(start <= j < start + src.len()) ==> final(self)@[j] == old(self)@[j],
    {
        write_bytes_at(&mut self.buffer, start, src);
    }
}

/// Appends a string field's bytes to the buffer's string pool at relative
/// cursor `buflen`, records the string's byte length in descriptor slot
/// `position`'s value slot, and advances the cursor.
pub fn set_str_field(rule_buffer: &mut RuleBuffer, position: usize, buflen: &mut usize, s: &Vec<u8>)
    requires
        ({
            let b = old(rule_buffer)@;
            let fc = u32_at(b, 8) as int;
            &&& b.len() >= RULE_BUF_MIN_LEN
            &&& fc <= AUDIT_MAX_FIELDS as int
            &&& (position as int) < fc
            &&& s@.len() <= u32::MAX
            &&& spec_pool_start(fc) + *old(buflen) + s@.len() <= b.len()
        }),
    ensures
        ({
            let b0 = old(rule_buffer)@;
            let b1 = final(rule_buffer)@;
            let fc = u32_at(b0, 8) as int;
            let ps = spec_pool_start(fc);
            let voff = desc_off(position as int) + 4;
            &&& b1.len() == b0.len()
            &&& b1.subrange(voff, voff + 4) == u32_bytes(s@.len() as u32)
            &&& b1.subrange(ps + *old(buflen), ps + *old(buflen) + s@.len()) == s@
            &&& forall|j: int|
                0 <= j < b0.len() && !(voff <= j < voff + 4) && !(ps + *old(buflen) <= j < ps
                    + *old(buflen) + s@.len()) ==> b1[j] == b0[j]
            &&& *final(buflen) == *old(buflen) + s@.len()
        }),
{
    let blen = rule_buffer.len();
    let fc = rule_buffer.field_count() as usize;
    let pool_start = RULE_BUF_MIN_LEN + 12 * fc;
    proof {
        assert(pool_start + *buflen + s@.len() <= blen);
    }
    rule_buffer.write_pool(pool_start + *buflen, s);
    rule_buffer.set_value(position, s.len() as u32);
    *buflen = *buflen + s.len();
}

/// An audit rule: filter-set flags, an action, an ordered sequence of field
/// entries with their per-field flag bits, and a syscall bitmask.  The
/// entry order is wire order and is preserved by the codec.
#[derive(Debug, Clone, PartialEq, Eq)]
pub struct RuleMessage {
    /// Filter-set flags.
    pub flags: RuleFlags,
    /// Action taken when the rule matches.
    pub action: RuleAction,
    /// The field entries in wire order.
    pub fields: Vec<(RuleField, RuleFieldFlags)>,
    /// The syscall bitmask.
    pub syscalls: RuleSyscalls,
}

impl View for RuleMessage {
    type V = RuleMessageView;

    open spec fn view(&self) -> RuleMessageView {
        RuleMessageView {
            flags: self.flags.0,
            action: self.action.0,
            fields: fields_view(self.fields@),
            syscalls: self.syscalls.0@,
        }
    }
}

/// The view of an encode or decode result: errors pass through, a decoded
/// rule is taken to its view.
pub open spec fn res_rule_view(r: Result<RuleMessage, DecodeError>) -> Result<
    RuleMessageView,
    DecodeError,
> {
    match r {
        Ok(m) => Ok(m@),
        Err(e) => Err(e),
    }
}

/// A well-formed rule's view is well formed.
pub proof fn lemma_rule_message_wf(m: &RuleMessage)
    requires
        m.wf(),
    ensures
        rule_view_wf(m@),
{
    assert forall|i: int| 0 <= i < m@.fields.len() implies field_view_wf(
        #[trigger] m@.fields[i].0,
    ) by {
        assert(m@.fields[i].0 == m.fields@[i].0@);
        crate::fields::lemma_field_view_wf(&m.fields@[i].0);
    }
}

impl RuleMessage {
    /// A rule is well formed when its syscall bitmask has the fixed size,
    /// its string pool fits the 32-bit length word that records it, and its
    /// encoded form fits in memory.
    pub open spec fn wf(&self) -> bool {
        &&& self.syscalls.wf()
        &&& pool_bytes(fields_view(self.fields@)).len() <= u32::MAX
        &&& RULE_BUF_MIN_LEN + 12 * AUDIT_MAX_FIELDS + pool_bytes(fields_view(self.fields@)).len()
            <= usize::MAX
    }

    /// An empty rule: no flags, no action, no fields, no syscalls selected.
    pub fn new() -> (r: Self)
        ensures
            r.wf(),
            r@.flags == 0,
            r@.action == 0,
            r@.fields.len() == 0,
            forall|k: int| 0 <= k < AUDIT_BITMASK_SIZE ==> r@.syscalls[k] == 0u32,
    {
        let r = RuleMessage {
            flags: RuleFlags(0),
            action: RuleAction(0),
            fields: Vec::with_capacity(AUDIT_MAX_FIELDS),
            syscalls: RuleSyscalls::new_zeroed(),
        };
        proof {
            assert(fields_view(r.fields@) =~= Seq::<(RuleFieldView, u32)>::empty());
            assert(pool_bytes(fields_view(r.fields@)).len() == 0);
        }
        r
    }

    /// The total number of string-pool bytes the rule's fields need.
    pub fn compute_string_values_length(&self) -> (r: usize)
        requires
            pool_bytes(fields_view(self.fields@)).len() <= usize::MAX,
        ensures
            r == pool_bytes(fields_view(self.fields@)).len(),
    {
        let ghost fvs = fields_view(self.fields@);
        let mut len: usize = 0;
        let mut i: usize = 0;
        proof {
            assert(fvs.take(0) =~= Seq::<(RuleFieldView, u32)>::empty());
        }
        while i < self.fields.len()
            invariant
                i <= self.fields.len(),
                fvs == fields_view(self.fields@),
                pool_bytes(fvs).len() <= usize::MAX,
                len == pool_bytes(fvs.take(i as int)).len(),
            decreases self.fields.len() - i,
        {
            proof {
                lemma_pool_take_step(fvs, i as int);
                lemma_pool_split(fvs, i as int + 1);
                assert(fvs[i as int].0 == self.fields@[i as int].0@);
            }
            let entry = &self.fields[i];
            match crate::fields::field_string(&entry.0) {
                Some(s) => {
                    len = len + s.len();
                },
                None => {
                },
            }
            i = i + 1;
        }
        proof {
            assert(fvs.take(self.fields@.len() as int) =~= fvs);
        }
        len
    }

    /// The exact size of the rule's encoded form.
    pub fn buffer_len(&self) -> (r: usize)
        requires
            self.wf(),
            self.fields@.len() <= AUDIT_MAX_FIELDS,
        ensures
            r == spec_rule_encode(self@).len(),
    {
        proof {
            lemma_rule_message_wf(self);
            lemma_rule_encode_len(self@);
        }
        RULE_BUF_MIN_LEN + 12 * self.fields.len() + self.compute_string_values_length()
    }

    /// Encodes the rule into a fresh, exactly-sized buffer.  A rule with
    /// more field entries than the descriptor table can carry is rejected
    /// before any buffer is allocated.
    pub fn to_bytes(&self) -> (r: Result<Vec<u8>, DecodeError>)
        requires
            self.wf(),
        ensures
            r is Ok <==> self.fields@.len() <= AUDIT_MAX_FIELDS,
            r matches Ok(v) ==> v@ == spec_rule_encode(self@),
            r matches Err(e) ==> e == (DecodeError::TooManyFields {
                count: self.fields@.len() as usize,
            }),
    {
        if self.fields.len() > AUDIT_MAX_FIELDS {
            return Err(DecodeError::TooManyFields { count: self.fields.len() });
        }
        let total = self.buffer_len();
        let mut rb = RuleBuffer::new(zeroed(total));
        self.emit(&mut rb);
        Ok(rb.into_inner())
    }

    /// Writes the rule's encoded form into an exactly-sized buffer: the
    /// header and bitmask first, then each field's descriptor slot in
    /// order, appending string payloads to the pool as their descriptors
    /// are written.
    #[verifier::rlimit(80)]
    pub fn emit(&self, buffer: &mut RuleBuffer)
        requires
            self.wf(),
            self.fields@.len() <= AUDIT_MAX_FIELDS,
            old(buffer)@.len() == spec_rule_encode(self@).len(),
        ensures
            final(buffer)@ == spec_rule_encode(self@),
    {
        proof {
            lemma_rule_message_wf(self);
            lemma_rule_encode_len(self@);
            lemma_u32_bytes();
        }
        let ghost m = self@;
        let ghost orig = buffer@;
        let ghost total = spec_rule_encode(m).len() as int;
        let fc = self.fields.len();
        let ghost ps = spec_pool_start(fc as int);
        let slen = self.compute_string_values_length();

        buffer.set_flags(self.flags.0);
        buffer.set_action(self.action.0);
        buffer.set_field_count(fc as u32);
        proof {
            assert(buffer@ =~= u32_bytes(m.flags) + u32_bytes(m.action) + u32_bytes(
                m.fields.len() as u32,
            ) + orig.subrange(12, total));
            assert(words_bytes(m.syscalls.take(0)) =~= Seq::<u8>::empty());
        }
        let mut k: usize = 0;
        while k < AUDIT_BITMASK_SIZE
            invariant
                k <= AUDIT_BITMASK_SIZE,
                m == self@,
                self.wf(),
                total == spec_rule_encode(m).len(),
                total == RULE_BUF_MIN_LEN + 12 * m.fields.len() + pool_bytes(m.fields).len(),
                buffer@.len() == total,
                orig.len() == total,
                fc == self.fields.len(),
                fc <= AUDIT_MAX_FIELDS,
                buffer@ == u32_bytes(m.flags) + u32_bytes(m.action) + u32_bytes(
                    m.fields.len() as u32,
                ) + words_bytes(m.syscalls.take(k as int)) + orig.subrange(
                    12 + 4 * k as int,
                    total,
                ),
            decreases AUDIT_BITMASK_SIZE - k,
        {
            proof {
                lemma_u32_bytes();
                lemma_words_take_step(m.syscalls, k as int);
                lemma_words_len(m.syscalls.take(k as int));
                lemma_words_len(m.syscalls.take(k as int + 1));
            }
            let w = self.syscalls.0[k];
            proof {
                assert(w == m.syscalls[k as int]);
            }
            buffer.set_syscall_word(k, w);
            k = k + 1;
            proof {
                assert(buffer@ =~= u32_bytes(m.flags) + u32_bytes(m.action) + u32_bytes(
                    m.fields.len() as u32,
                ) + words_bytes(m.syscalls.take(k as int)) + orig.subrange(
                    12 + 4 * k as int,
                    total,
                ));
            }
        }
        proof {
            lemma_words_len(m.syscalls);
            assert(m.syscalls.take(AUDIT_BITMASK_SIZE as int) =~= m.syscalls);
        }
        buffer.set_buflen(slen as u32);
        proof {
            assert(buffer@ =~= header_bytes(m) + orig.subrange(
                RULE_BUF_MIN_LEN as int,
                total,
            ));
            lemma_descs_len(m.fields);
            assert(descs_bytes(m.fields.take(0)) =~= Seq::<u8>::empty());
            assert(pool_bytes(m.fields.take(0)) =~= Seq::<u8>::empty());
            assert(buffer@ =~= header_bytes(m) + descs_bytes(m.fields.take(0)) + orig.subrange(
                desc_off(0),
                ps,
            ) + pool_bytes(m.fields.take(0)) + orig.subrange(ps + 0, total));
        }
        let mut buflen: usize = 0;
        let mut i: usize = 0;
        while i < fc
            invariant
                i <= fc,
                fc == self.fields.len(),
                fc <= AUDIT_MAX_FIELDS,
                m == self@,
                self.wf(),
                ps == spec_pool_start(fc as int),
                total == spec_rule_encode(m).len(),
                total == RULE_BUF_MIN_LEN + 12 * m.fields.len() + pool_bytes(m.fields).len(),
                buffer@.len() == total,
                orig.len() == total,
                buflen == pool_bytes(m.fields.take(i as int)).len(),
                buffer@ == header_bytes(m) + descs_bytes(m.fields.take(i as int)) + orig.subrange(
                    desc_off(i as int),
                    ps,
                ) + pool_bytes(m.fields.take(i as int)) + orig.subrange(ps + buflen, total),
            decreases fc - i,
        {
            proof {
                lemma_u32_bytes();
                lemma_rule_message_wf(self);
                lemma_pool_take_step(m.fields, i as int);
                lemma_pool_split(m.fields, i as int + 1);
                lemma_descs_take_step(m.fields, i as int);
                lemma_descs_len(m.fields.take(i as int));
                lemma_descs_len(m.fields.take(i as int + 1));
                lemma_desc_bytes_len(m.fields[i as int].0, m.fields[i as int].1);
                lemma_words_len(m.syscalls);
                assert(m.fields[i as int] == (self.fields@[i as int].0@, self.fields@[
                    i as int].1.0));
            }
            let entry = &self.fields[i];
            buffer.set_field_flags(i, entry.1.0);
            buffer.set_field(i, crate::fields::field_code(&entry.0));
            proof {
                assert(buffer@.subrange(8, 12) =~= u32_bytes(m.fields.len() as u32));
                assert(u32_at(buffer@, 8) == m.fields.len() as u32);
            }
            match crate::fields::field_string(&entry.0) {
                Some(s) => {
                    set_str_field(buffer, i, &mut buflen, s);
                },
                None => {
                    buffer.set_value(i, crate::fields::field_value(&entry.0));
                },
            }
            i = i + 1;
            proof {
                assert(buffer@ =~= header_bytes(m) + descs_bytes(m.fields.take(i as int))
                    + orig.subrange(desc_off(i as int), ps) + pool_bytes(m.fields.take(i as int))
                    + orig.subrange(ps + buflen, total));
            }
        }
        proof {
            assert(m.fields.take(fc as int) =~= m.fields);
            lemma_descs_len(m.fields);
            assert(buffer@ =~= spec_rule_encode(m));
        }
    }

    /// Decodes a rule from a buffer: header and bitmask, then each
    /// descriptor in order, slicing string payloads from the pool through
    /// the lengths the descriptors declare, with every read bounded by the
    /// buffer end.
    pub fn parse(buffer: &RuleBuffer) -> (r: Result<RuleMessage, DecodeError>)
        ensures
            res_rule_view(r) == spec_rule_decode(buffer@),
    {
        let len = buffer.len();
        if len < RULE_BUF_MIN_LEN {
            return Err(DecodeError::TooShort { minimum: RULE_BUF_MIN_LEN, length: len });
        }
        let fcw = buffer.field_count();
        if fcw > AUDIT_MAX_FIELDS as u32 {
            return Err(DecodeError::TooManyFields { count: fcw as usize });
        }
        let fc = fcw as usize;
        let pool_start = RULE_BUF_MIN_LEN + 12 * fc;
        if len < pool_start {
            return Err(DecodeError::TooShort { minimum: pool_start, length: len });
        }
        let mut fields: Vec<(RuleField, RuleFieldFlags)> = Vec::new();
        let mut cursor: usize = 0;
        let mut i: usize = 0;
        proof {
            assert(fields_view(fields@) =~= Seq::<(RuleFieldView, u32)>::empty());
        }
        while i < fc
            invariant
                i <= fc,
                fcw == u32_at(buffer@, 8),
                fcw <= AUDIT_MAX_FIELDS as u32,
                fc == fcw as usize,
                len == buffer@.len(),
                RULE_BUF_MIN_LEN <= len,
                pool_start == RULE_BUF_MIN_LEN + 12 * fc,
                pool_start <= len,
                pool_start + cursor <= len,
                fields@.len() == i,
                spec_decode_fields(buffer@, fc as int, 0, 0) == (match spec_decode_fields(
                    buffer@,
                    fc as int,
                    i as int,
                    cursor as int,
                ) {
                    Ok(rest) => Ok::<Seq<(RuleFieldView, u32)>, DecodeError>(
                        fields_view(fields@) + rest,
                    ),
                    Err(e) => Err(e),
                }),
            decreases fc - i,
        {
            let code = buffer.field(i);
            let value = buffer.value(i);
            let efl = buffer.field_flags(i);
            let ghost cursor0 = cursor as int;
            let ghost fields0 = fields@;
            let fopt: Option<RuleField>;
            if crate::fields::string_code(code) {
                if (value as usize) > len - pool_start - cursor {
                    return Err(
                        DecodeError::TruncatedStringPool {
                            declared: value as usize,
                            available: len - pool_start - cursor,
                        },
                    );
                }
                let bytes = buffer.read_pool(pool_start + cursor, value as usize);
                cursor = cursor + value as usize;
                fopt = crate::fields::str_field_from_code(code, bytes);
            } else {
                fopt = crate::fields::int_field_from_code(code, value);
            }
            match fopt {
                Some(f) => {
                    fields.push((f, RuleFieldFlags(efl)));
                },
                None => {
                    return Err(DecodeError::UnknownFieldCode(code));
                },
            }
            i = i + 1;
            proof {
                assert(fields_view(fields@) =~= fields_view(fields0) + fields_view(
                    fields@.skip(fields0.len() as int),
                ));
                let step = spec_decode_fields(buffer@, fc as int, i - 1, cursor0);
                let rest = spec_decode_fields(buffer@, fc as int, i as int, cursor as int);
                if rest is Ok {
                    assert(fields_view(fields@) + rest->Ok_0 =~= fields_view(fields0) + (seq![
                        (fields@.last().0@, fields@.last().1.0),
                    ] + rest->Ok_0));
                }
            }
        }
        proof {
            assert(spec_decode_fields(buffer@, fc as int, fc as int, cursor as int)
                == Ok::<Seq<(RuleFieldView, u32)>, DecodeError>(Seq::empty()));
            assert(fields_view(fields@) + Seq::<(RuleFieldView, u32)>::empty() =~= fields_view(
                fields@,
            ));
        }
        let mut words: Vec<u32> = Vec::new();
        let mut k: usize = 0;
        while k < AUDIT_BITMASK_SIZE
            invariant
                k <= AUDIT_BITMASK_SIZE,
                words@.len() == k,
                len == buffer@.len(),
                RULE_BUF_MIN_LEN <= len,
                forall|j: int| 0 <= j < k ==> words@[j] == u32_at(buffer@, 12 + 4 * j),
            decreases AUDIT_BITMASK_SIZE - k,
        {
            words.push(buffer.syscall_word(k));
            k = k + 1;
        }
        let result = RuleMessage {
            flags: RuleFlags(buffer.flags()),
            action: RuleAction(buffer.action()),
            fields,
            syscalls: RuleSyscalls(words),
        };
        proof {
            assert(result@.syscalls =~= Seq::new(
                AUDIT_BITMASK_SIZE as nat,
                |j: int| u32_at(buffer@, 12 + 4 * j),
            ));
            assert(result@ =~= spec_rule_decode(buffer@)->Ok_0);
        }
        Ok(result)
    }
}

impl Default for RuleMessage {
    /// Same rule as `new`: empty, with an all-zero syscall bitmask.
    fn default() -> (r: Self)
        ensures
            r.wf(),
            r@.flags == 0,
            r@.action == 0,
            r@.fields.len() == 0,
            forall|k: int| 0 <= k < AUDIT_BITMASK_SIZE ==> r@.syscalls[k] == 0u32,
    {
        RuleMessage::new()
    }
}

} // verus!
