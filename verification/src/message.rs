//! The message envelope: pairs a message-type discriminator with a typed
//! payload.  Decoding inspects the type code of an opaque frame and routes
//! the payload bytes to the matching codec; encoding selects the payload's
//! type code and emits its bytes.  Failures pass through unchanged; the
//! envelope never partially decodes.

use crate::constants::AUDIT_ADD_RULE;
use crate::constants::AUDIT_DEL_RULE;
use crate::constants::AUDIT_GET;
use crate::constants::AUDIT_LIST_RULES;
use crate::constants::AUDIT_MAX_FIELDS;
use crate::constants::AUDIT_SET;
use crate::errors::DecodeError;
use crate::rule::spec_rule_decode;
use crate::rule::spec_rule_encode;
use crate::rule::res_rule_view;
use crate::rule::RuleBuffer;
use crate::rule::RuleMessage;
use crate::rule::RuleMessageView;
use crate::status::spec_status_decode;
use crate::status::spec_status_encode;
use crate::status::StatusMessage;
use crate::status::StatusMessageBuffer;
use crate::wire::read_bytes_at;
use vstd::prelude::*;

verus! {

/// A typed audit message: one payload variant per supported message-type
/// code.  A query direction carries no payload; its reply carries one.
#[derive(Debug, Clone, PartialEq, Eq)]
pub enum AuditMessage {
    /// Status query (empty payload) or status reply.
    GetStatus(Option<StatusMessage>),
    /// Status change request.
    SetStatus(StatusMessage),
    /// Add an audit rule.
    AddRule(RuleMessage),
    /// Delete an audit rule.
    DelRule(RuleMessage),
    /// Rule-list request (empty payload) or one listed rule.
    ListRules(Option<RuleMessage>),
}

/// The wire-relevant content of an audit message.
#[verifier::ext_equal]
pub enum AuditMessageView {
    /// Status query or status reply.
    GetStatus(Option<StatusMessage>),
    /// Status change request.
    SetStatus(StatusMessage),
    /// Add an audit rule.
    AddRule(RuleMessageView),
    /// Delete an audit rule.
    DelRule(RuleMessageView),
    /// Rule-list request or one listed rule.
    ListRules(Option<RuleMessageView>),
}

impl View for AuditMessage {
    type V = AuditMessageView;

    open spec fn view(&self) -> AuditMessageView {
        match self {
            AuditMessage::GetStatus(o) => AuditMessageView::GetStatus(*o),
            AuditMessage::SetStatus(s) => AuditMessageView::SetStatus(*s),
            AuditMessage::AddRule(r) => AuditMessageView::AddRule(r@),
            AuditMessage::DelRule(r) => AuditMessageView::DelRule(r@),
            AuditMessage::ListRules(o) => AuditMessageView::ListRules(
                match o {
                    Some(r) => Some(r@),
                    None => None,
                },
            ),
        }
    }
}

/// Whether `ty` is a message-type code this codec recognizes.
pub open spec fn is_supported_type(ty: u16) -> bool {
    ty == AUDIT_GET || ty == AUDIT_SET || ty == AUDIT_ADD_RULE || ty == AUDIT_DEL_RULE || ty
        == AUDIT_LIST_RULES
}

/// The message-type code a payload is carried under.
pub open spec fn spec_message_type(v: AuditMessageView) -> u16 {
    match v {
        AuditMessageView::GetStatus(_) => AUDIT_GET,
        AuditMessageView::SetStatus(_) => AUDIT_SET,
        AuditMessageView::AddRule(_) => AUDIT_ADD_RULE,
        AuditMessageView::DelRule(_) => AUDIT_DEL_RULE,
        AuditMessageView::ListRules(_) => AUDIT_LIST_RULES,
    }
}

/// The message a frame decodes to: the type code selects the payload
/// codec; an unrecognized code is reported back with the failure.  An
/// empty payload under a query code is the query itself.
pub open spec fn spec_message_decode(ty: u16, payload: Seq<u8>) -> Result<
    AuditMessageView,
    DecodeError,
> {
    if ty == AUDIT_GET {
        if payload.len() == 0 {
            Ok(AuditMessageView::GetStatus(None))
        } else {
            match spec_status_decode(payload) {
                Ok(s) => Ok(AuditMessageView::GetStatus(Some(s))),
                Err(e) => Err(e),
            }
        }
    } else if ty == AUDIT_SET {
        match spec_status_decode(payload) {
            Ok(s) => Ok(AuditMessageView::SetStatus(s)),
            Err(e) => Err(e),
        }
    } else if ty == AUDIT_ADD_RULE {
        match spec_rule_decode(payload) {
            Ok(r) => Ok(AuditMessageView::AddRule(r)),
            Err(e) => Err(e),
        }
    } else if ty == AUDIT_DEL_RULE {
        match spec_rule_decode(payload) {
            Ok(r) => Ok(AuditMessageView::DelRule(r)),
            Err(e) => Err(e),
        }
    } else if ty == AUDIT_LIST_RULES {
        if payload.len() == 0 {
            Ok(AuditMessageView::ListRules(None))
        } else {
            match spec_rule_decode(payload) {
                Ok(r) => Ok(AuditMessageView::ListRules(Some(r))),
                Err(e) => Err(e),
            }
        }
    } else {
        Err(DecodeError::UnsupportedMessageType(ty))
    }
}

/// The payload bytes a message encodes to.
pub open spec fn spec_message_encode(v: AuditMessageView) -> Seq<u8> {
    match v {
        AuditMessageView::GetStatus(o) => match o {
            Some(s) => spec_status_encode(s),
            None => Seq::empty(),
        },
        AuditMessageView::SetStatus(s) => spec_status_encode(s),
        AuditMessageView::AddRule(r) => spec_rule_encode(r),
        AuditMessageView::DelRule(r) => spec_rule_encode(r),
        AuditMessageView::ListRules(o) => match o {
            Some(r) => spec_rule_encode(r),
            None => Seq::empty(),
        },
    }
}

/// The view of a decode result: errors pass through, a decoded message is
/// taken to its view.
pub open spec fn res_message_view(r: Result<AuditMessage, DecodeError>) -> Result<
    AuditMessageView,
    DecodeError,
> {
    match r {
        Ok(m) => Ok(m@),
        Err(e) => Err(e),
    }
}

/// Dispatcher: a frame with an unrecognized message-type code fails with
/// exactly that code reported, whatever its payload holds.
pub proof fn lemma_dispatcher_unsupported(ty: u16, payload: Seq<u8>)
    ensures
        !is_supported_type(ty) ==> spec_message_decode(ty, payload) == Err::<
            AuditMessageView,
            DecodeError,
        >(DecodeError::UnsupportedMessageType(ty)),
{
}

impl AuditMessage {
    /// A message is well formed when its rule payload, if any, is.
    pub open spec fn wf(&self) -> bool {
        match self {
            AuditMessage::GetStatus(_) => true,
            AuditMessage::SetStatus(_) => true,
            AuditMessage::AddRule(r) => r.wf(),
            AuditMessage::DelRule(r) => r.wf(),
            AuditMessage::ListRules(o) => match o {
                Some(r) => r.wf(),
                None => true,
            },
        }
    }

    /// Whether the message's payload can be encoded: a rule payload must
    /// not exceed the maximum field count.
    pub open spec fn encodable(&self) -> bool {
        match self {
            AuditMessage::GetStatus(_) => true,
            AuditMessage::SetStatus(_) => true,
            AuditMessage::AddRule(r) => r.fields@.len() <= AUDIT_MAX_FIELDS,
            AuditMessage::DelRule(r) => r.fields@.len() <= AUDIT_MAX_FIELDS,
            AuditMessage::ListRules(o) => match o {
                Some(r) => r.fields@.len() <= AUDIT_MAX_FIELDS,
                None => true,
            },
        }
    }

    /// The message-type code this payload is carried under.
    pub fn message_type(&self) -> (r: u16)
        ensures
            r == spec_message_type(self@),
    {
        match self {
            AuditMessage::GetStatus(_) => AUDIT_GET,
            AuditMessage::SetStatus(_) => AUDIT_SET,
            AuditMessage::AddRule(_) => AUDIT_ADD_RULE,
            AuditMessage::DelRule(_) => AUDIT_DEL_RULE,
            AuditMessage::ListRules(_) => AUDIT_LIST_RULES,
        }
    }

    /// Decodes a frame: the type code selects the payload codec, an
    /// unrecognized code fails with that code reported, and payload
    /// failures propagate unchanged.
    pub fn parse(message_type: u16, payload: &Vec<u8>) -> (r: Result<AuditMessage, DecodeError>)
        ensures
            res_message_view(r) == spec_message_decode(message_type, payload@),
            !is_supported_type(message_type) ==> r == Err::<AuditMessage, DecodeError>(
                DecodeError::UnsupportedMessageType(message_type),
            ),
    {
        if message_type == AUDIT_GET {
            if payload.len() == 0 {
                Ok(AuditMessage::GetStatus(None))
            } else {
                match StatusMessage::parse(&Self::status_buffer(payload)) {
                    Ok(s) => Ok(AuditMessage::GetStatus(Some(s))),
                    Err(e) => Err(e),
                }
            }
        } else if message_type == AUDIT_SET {
            match StatusMessage::parse(&Self::status_buffer(payload)) {
                Ok(s) => Ok(AuditMessage::SetStatus(s)),
                Err(e) => Err(e),
            }
        } else if message_type == AUDIT_ADD_RULE {
            match RuleMessage::parse(&Self::rule_buffer(payload)) {
                Ok(r) => Ok(AuditMessage::AddRule(r)),
                Err(e) => Err(e),
            }
        } else if message_type == AUDIT_DEL_RULE {
            match RuleMessage::parse(&Self::rule_buffer(payload)) {
                Ok(r) => Ok(AuditMessage::DelRule(r)),
                Err(e) => Err(e),
            }
        } else if message_type == AUDIT_LIST_RULES {
            if payload.len() == 0 {
                Ok(AuditMessage::ListRules(None))
            } else {
                match RuleMessage::parse(&Self::rule_buffer(payload)) {
                    Ok(r) => Ok(AuditMessage::ListRules(Some(r))),
                    Err(e) => Err(e),
                }
            }
        } else {
            Err(DecodeError::UnsupportedMessageType(message_type))
        }
    }

    /// Encodes the message's payload.  Only a rule payload can fail, by
    /// exceeding the maximum field count; nothing is allocated in that
    /// case.
    pub fn to_bytes(&self) -> (r: Result<Vec<u8>, DecodeError>)
        requires
            self.wf(),
        ensures
            r is Ok <==> self.encodable(),
            r matches Ok(v) ==> v@ == spec_message_encode(self@),
            r matches Err(e) ==> e matches DecodeError::TooManyFields { .. },
    {
        match self {
            AuditMessage::GetStatus(o) => match o {
                Some(s) => Ok(s.to_bytes()),
                None => {
                    let v: Vec<u8> = Vec::new();
                    Ok(v)
                },
            },
            AuditMessage::SetStatus(s) => Ok(s.to_bytes()),
            AuditMessage::AddRule(r) => r.to_bytes(),
            AuditMessage::DelRule(r) => r.to_bytes(),
            AuditMessage::ListRules(o) => match o {
                Some(r) => r.to_bytes(),
                None => {
                    let v: Vec<u8> = Vec::new();
                    Ok(v)
                },
            },
        }
    }

    /// Overlays a status record view on a copy of the payload bytes.
    fn status_buffer(payload: &Vec<u8>) -> (r: StatusMessageBuffer)
        ensures
            r@ == payload@,
    {
        let bytes = read_bytes_at(payload, 0, payload.len());
        proof {
            assert(bytes@ =~= payload@);
        }
        StatusMessageBuffer::new(bytes)
    }

    /// Overlays a rule record view on a copy of the payload bytes.
    fn rule_buffer(payload: &Vec<u8>) -> (r: RuleBuffer)
        ensures
            r@ == payload@,
    {
        let bytes = read_bytes_at(payload, 0, payload.len());
        proof {
            assert(bytes@ =~= payload@);
        }
        RuleBuffer::new(bytes)
    }
}

} // verus!
