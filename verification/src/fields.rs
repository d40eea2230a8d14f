//! The rule field vocabulary: a closed, tagged set of field kinds, each
//! carrying either a 32-bit integer payload or a byte-string payload, and
//! each mapped one-to-one to a numeric field-type code and to a value
//! encoding: an integer field stores its value in the descriptor's value
//! slot; a string field stores its byte length there and its bytes in the
//! rule buffer's trailing string pool.
//!
//! String payloads are held as raw bytes: the wire format carries plain
//! bytes with no encoding tag, and decoding reconstructs them byte-exact.

use crate::constants::AUDIT_WATCH;
use crate::constants::AUDIT_DIR;
use crate::constants::AUDIT_FILTERKEY;
use crate::constants::AUDIT_SUBJ_USER;
use crate::constants::AUDIT_SUBJ_ROLE;
use crate::constants::AUDIT_SUBJ_TYPE;
use crate::constants::AUDIT_SUBJ_SEN;
use crate::constants::AUDIT_SUBJ_CLR;
use crate::constants::AUDIT_OBJ_USER;
use crate::constants::AUDIT_OBJ_ROLE;
use crate::constants::AUDIT_OBJ_TYPE;
use crate::constants::AUDIT_OBJ_LEV_LOW;
use crate::constants::AUDIT_OBJ_LEV_HIGH;
use crate::constants::AUDIT_PID;
use crate::constants::AUDIT_UID;
use crate::constants::AUDIT_EUID;
use crate::constants::AUDIT_SUID;
use crate::constants::AUDIT_FSUID;
use crate::constants::AUDIT_GID;
use crate::constants::AUDIT_EGID;
use crate::constants::AUDIT_SGID;
use crate::constants::AUDIT_FSGID;
use crate::constants::AUDIT_LOGINUID;
use crate::constants::AUDIT_PERS;
use crate::constants::AUDIT_ARCH;
use crate::constants::AUDIT_MSGTYPE;
use crate::constants::AUDIT_PPID;
use crate::constants::AUDIT_LOGINUID_SET;
use crate::constants::AUDIT_SESSIONID;
use crate::constants::AUDIT_FSTYPE;
use crate::constants::AUDIT_DEVMAJOR;
use crate::constants::AUDIT_DEVMINOR;
use crate::constants::AUDIT_INODE;
use crate::constants::AUDIT_EXIT;
use crate::constants::AUDIT_SUCCESS;
use crate::constants::AUDIT_PERM;
use crate::constants::AUDIT_FILETYPE;
use crate::constants::AUDIT_OBJ_UID;
use crate::constants::AUDIT_OBJ_GID;
use crate::constants::AUDIT_FIELD_COMPARE;
use crate::constants::AUDIT_EXE;
use crate::constants::AUDIT_ARG0;
use crate::constants::AUDIT_ARG1;
use crate::constants::AUDIT_ARG2;
use crate::constants::AUDIT_ARG3;
use crate::constants::AUDIT_BITMASK_SIZE;
use vstd::prelude::*;

verus! {

/// Filter-set flags of a whole rule, as a raw flags word.
#[derive(Debug, Clone, Copy, PartialEq, Eq, Structural)]
pub struct RuleFlags(pub u32);

/// Action a rule takes when it matches, as a raw action code.
#[derive(Debug, Clone, Copy, PartialEq, Eq, Structural)]
pub struct RuleAction(pub u32);

/// Per-field operator and flag bits of one rule field entry.
#[derive(Debug, Clone, Copy, PartialEq, Eq, Structural)]
pub struct RuleFieldFlags(pub u32);

/// The syscall bitmask of a rule: a fixed-size array of 32-bit words
/// forming a bitset over syscall numbers.
#[derive(Debug, Clone, PartialEq, Eq)]
pub struct RuleSyscalls(pub Vec<u32>);

impl RuleSyscalls {
    /// The bitmask always holds exactly the fixed number of words.
    pub open spec fn wf(&self) -> bool {
        self.0@.len() == AUDIT_BITMASK_SIZE
    }

    /// An all-zero bitmask: no syscall selected.
    pub fn new_zeroed() -> (r: RuleSyscalls)
        ensures
            r.wf(),
            forall|k: int| 0 <= k < AUDIT_BITMASK_SIZE ==> r.0@[k] == 0u32,
    {
        let mut words: Vec<u32> = Vec::new();
        while words.len() < AUDIT_BITMASK_SIZE
            invariant
                words.len() <= AUDIT_BITMASK_SIZE,
                forall|k: int| 0 <= k < words.len() ==> words@[k] == 0u32,
            decreases AUDIT_BITMASK_SIZE - words.len(),
        {
            words.push(0u32);
        }
        RuleSyscalls(words)
    }
}

/// One field entry of an audit rule.
#[derive(Debug, Clone, PartialEq, Eq)]
pub enum RuleField {
    /// String field: watch path.
    Watch(Vec<u8>),
    /// String field: directory watch path.
    Dir(Vec<u8>),
    /// String field: filter key.
    Filterkey(Vec<u8>),
    /// String field: subject user.
    SubjUser(Vec<u8>),
    /// String field: subject role.
    SubjRole(Vec<u8>),
    /// String field: subject type.
    SubjType(Vec<u8>),
    /// String field: subject sensitivity.
    SubjSen(Vec<u8>),
    /// String field: subject clearance.
    SubjClr(Vec<u8>),
    /// String field: object user.
    ObjUser(Vec<u8>),
    /// String field: object role.
    ObjRole(Vec<u8>),
    /// String field: object type.
    ObjType(Vec<u8>),
    /// String field: object low level.
    ObjLevLow(Vec<u8>),
    /// String field: object high level.
    ObjLevHigh(Vec<u8>),
    /// Integer field: process id.
    Pid(u32),
    /// Integer field: user id.
    Uid(u32),
    /// Integer field: effective user id.
    Euid(u32),
    /// Integer field: saved user id.
    Suid(u32),
    /// Integer field: filesystem user id.
    Fsuid(u32),
    /// Integer field: group id.
    Gid(u32),
    /// Integer field: effective group id.
    Egid(u32),
    /// Integer field: saved group id.
    Sgid(u32),
    /// Integer field: filesystem group id.
    Fsgid(u32),
    /// Integer field: login user id.
    Loginuid(u32),
    /// Integer field: personality.
    Pers(u32),
    /// Integer field: syscall architecture.
    Arch(u32),
    /// Integer field: message type filter.
    Msgtype(u32),
    /// Integer field: parent process id.
    Ppid(u32),
    /// Integer field: login uid set flag.
    LoginuidSet(u32),
    /// Integer field: session id.
    Sessionid(u32),
    /// Integer field: filesystem type.
    Fstype(u32),
    /// Integer field: device major number.
    Devmajor(u32),
    /// Integer field: device minor number.
    Devminor(u32),
    /// Integer field: inode number.
    Inode(u32),
    /// Integer field: syscall exit value.
    Exit(u32),
    /// Integer field: syscall success flag.
    Success(u32),
    /// Integer field: permission filter.
    Perm(u32),
    /// Integer field: file type.
    Filetype(u32),
    /// Integer field: object user id.
    ObjUid(u32),
    /// Integer field: object group id.
    ObjGid(u32),
    /// Integer field: inter-field comparison.
    FieldCompare(u32),
    /// Integer field: executable filter.
    Exe(u32),
    /// Integer field: syscall argument 0.
    Arg0(u32),
    /// Integer field: syscall argument 1.
    Arg1(u32),
    /// Integer field: syscall argument 2.
    Arg2(u32),
    /// Integer field: syscall argument 3.
    Arg3(u32),
}

/// The wire-relevant content of a rule field: its field-type code together
/// with either its integer value or its string bytes.
#[verifier::ext_equal]
pub enum RuleFieldView {
    /// A field whose descriptor value slot holds the value itself.
    Int { code: u32, value: u32 },
    /// A field whose descriptor value slot holds the byte length of a
    /// string kept in the rule buffer's string pool.
    Str { code: u32, bytes: Seq<u8> },
}

impl View for RuleField {
    type V = RuleFieldView;

    open spec fn view(&self) -> RuleFieldView {
        match self {
            RuleField::Watch(s) => RuleFieldView::Str { code: AUDIT_WATCH, bytes: s@ },
            RuleField::Dir(s) => RuleFieldView::Str { code: AUDIT_DIR, bytes: s@ },
            RuleField::Filterkey(s) => RuleFieldView::Str { code: AUDIT_FILTERKEY, bytes: s@ },
            RuleField::SubjUser(s) => RuleFieldView::Str { code: AUDIT_SUBJ_USER, bytes: s@ },
            RuleField::SubjRole(s) => RuleFieldView::Str { code: AUDIT_SUBJ_ROLE, bytes: s@ },
            RuleField::SubjType(s) => RuleFieldView::Str { code: AUDIT_SUBJ_TYPE, bytes: s@ },
            RuleField::SubjSen(s) => RuleFieldView::Str { code: AUDIT_SUBJ_SEN, bytes: s@ },
            RuleField::SubjClr(s) => RuleFieldView::Str { code: AUDIT_SUBJ_CLR, bytes: s@ },
            RuleField::ObjUser(s) => RuleFieldView::Str { code: AUDIT_OBJ_USER, bytes: s@ },
            RuleField::ObjRole(s) => RuleFieldView::Str { code: AUDIT_OBJ_ROLE, bytes: s@ },
            RuleField::ObjType(s) => RuleFieldView::Str { code: AUDIT_OBJ_TYPE, bytes: s@ },
            RuleField::ObjLevLow(s) => RuleFieldView::Str { code: AUDIT_OBJ_LEV_LOW, bytes: s@ },
            RuleField::ObjLevHigh(s) => RuleFieldView::Str { code: AUDIT_OBJ_LEV_HIGH, bytes: s@ },
            RuleField::Pid(v) => RuleFieldView::Int { code: AUDIT_PID, value: *v },
            RuleField::Uid(v) => RuleFieldView::Int { code: AUDIT_UID, value: *v },
            RuleField::Euid(v) => RuleFieldView::Int { code: AUDIT_EUID, value: *v },
            RuleField::Suid(v) => RuleFieldView::Int { code: AUDIT_SUID, value: *v },
            RuleField::Fsuid(v) => RuleFieldView::Int { code: AUDIT_FSUID, value: *v },
            RuleField::Gid(v) => RuleFieldView::Int { code: AUDIT_GID, value: *v },
            RuleField::Egid(v) => RuleFieldView::Int { code: AUDIT_EGID, value: *v },
            RuleField::Sgid(v) => RuleFieldView::Int { code: AUDIT_SGID, value: *v },
            RuleField::Fsgid(v) => RuleFieldView::Int { code: AUDIT_FSGID, value: *v },
            RuleField::Loginuid(v) => RuleFieldView::Int { code: AUDIT_LOGINUID, value: *v },
            RuleField::Pers(v) => RuleFieldView::Int { code: AUDIT_PERS, value: *v },
            RuleField::Arch(v) => RuleFieldView::Int { code: AUDIT_ARCH, value: *v },
            RuleField::Msgtype(v) => RuleFieldView::Int { code: AUDIT_MSGTYPE, value: *v },
            RuleField::Ppid(v) => RuleFieldView::Int { code: AUDIT_PPID, value: *v },
            RuleField::LoginuidSet(v) => RuleFieldView::Int { code: AUDIT_LOGINUID_SET, value: *v },
            RuleField::Sessionid(v) => RuleFieldView::Int { code: AUDIT_SESSIONID, value: *v },
            RuleField::Fstype(v) => RuleFieldView::Int { code: AUDIT_FSTYPE, value: *v },
            RuleField::Devmajor(v) => RuleFieldView::Int { code: AUDIT_DEVMAJOR, value: *v },
            RuleField::Devminor(v) => RuleFieldView::Int { code: AUDIT_DEVMINOR, value: *v },
            RuleField::Inode(v) => RuleFieldView::Int { code: AUDIT_INODE, value: *v },
            RuleField::Exit(v) => RuleFieldView::Int { code: AUDIT_EXIT, value: *v },
            RuleField::Success(v) => RuleFieldView::Int { code: AUDIT_SUCCESS, value: *v },
            RuleField::Perm(v) => RuleFieldView::Int { code: AUDIT_PERM, value: *v },
            RuleField::Filetype(v) => RuleFieldView::Int { code: AUDIT_FILETYPE, value: *v },
            RuleField::ObjUid(v) => RuleFieldView::Int { code: AUDIT_OBJ_UID, value: *v },
            RuleField::ObjGid(v) => RuleFieldView::Int { code: AUDIT_OBJ_GID, value: *v },
            RuleField::FieldCompare(v) => RuleFieldView::Int { code: AUDIT_FIELD_COMPARE, value: *v },
            RuleField::Exe(v) => RuleFieldView::Int { code: AUDIT_EXE, value: *v },
            RuleField::Arg0(v) => RuleFieldView::Int { code: AUDIT_ARG0, value: *v },
            RuleField::Arg1(v) => RuleFieldView::Int { code: AUDIT_ARG1, value: *v },
            RuleField::Arg2(v) => RuleFieldView::Int { code: AUDIT_ARG2, value: *v },
            RuleField::Arg3(v) => RuleFieldView::Int { code: AUDIT_ARG3, value: *v },
        }
    }
}

/// Whether `c` is the field-type code of a string-valued field.
pub open spec fn is_string_code(c: u32) -> bool {
    c == AUDIT_WATCH || c == AUDIT_DIR || c == AUDIT_FILTERKEY || c == AUDIT_SUBJ_USER || c == AUDIT_SUBJ_ROLE || c == AUDIT_SUBJ_TYPE || c == AUDIT_SUBJ_SEN || c == AUDIT_SUBJ_CLR || c == AUDIT_OBJ_USER || c == AUDIT_OBJ_ROLE || c == AUDIT_OBJ_TYPE || c == AUDIT_OBJ_LEV_LOW || c == AUDIT_OBJ_LEV_HIGH
}

/// Whether `c` is the field-type code of an integer-valued field.
pub open spec fn is_int_code(c: u32) -> bool {
    c == AUDIT_PID || c == AUDIT_UID || c == AUDIT_EUID || c == AUDIT_SUID || c == AUDIT_FSUID || c == AUDIT_GID || c == AUDIT_EGID || c == AUDIT_SGID || c == AUDIT_FSGID || c == AUDIT_LOGINUID || c == AUDIT_PERS || c == AUDIT_ARCH || c == AUDIT_MSGTYPE || c == AUDIT_PPID || c == AUDIT_LOGINUID_SET || c == AUDIT_SESSIONID || c == AUDIT_FSTYPE || c == AUDIT_DEVMAJOR || c == AUDIT_DEVMINOR || c == AUDIT_INODE || c == AUDIT_EXIT || c == AUDIT_SUCCESS || c == AUDIT_PERM || c == AUDIT_FILETYPE || c == AUDIT_OBJ_UID || c == AUDIT_OBJ_GID || c == AUDIT_FIELD_COMPARE || c == AUDIT_EXE || c == AUDIT_ARG0 || c == AUDIT_ARG1 || c == AUDIT_ARG2 || c == AUDIT_ARG3
}

/// The field-type code a field view carries.
pub open spec fn view_code(fv: RuleFieldView) -> u32 {
    match fv {
        RuleFieldView::Int { code, .. } => code,
        RuleFieldView::Str { code, .. } => code,
    }
}

/// The word stored in a field's descriptor value slot: the value of an
/// integer field, the string byte length of a string field.
pub open spec fn view_wire_value(fv: RuleFieldView) -> u32 {
    match fv {
        RuleFieldView::Int { value, .. } => value,
        RuleFieldView::Str { bytes, .. } => bytes.len() as u32,
    }
}

/// The bytes a field contributes to the string pool: its payload for a
/// string field, nothing for an integer field.
pub open spec fn view_str_bytes(fv: RuleFieldView) -> Seq<u8> {
    match fv {
        RuleFieldView::Int { .. } => Seq::empty(),
        RuleFieldView::Str { bytes, .. } => bytes,
    }
}

/// A field view is well formed when its shape agrees with its code: an
/// integer view carries an integer code, a string view a string code.
pub open spec fn field_view_wf(fv: RuleFieldView) -> bool {
    match fv {
        RuleFieldView::Int { code, .. } => is_int_code(code),
        RuleFieldView::Str { code, .. } => is_string_code(code),
    }
}

/// The vocabulary is exhaustive and shape-consistent: every constructible
/// rule field has a well-formed view, and no code is both an integer code
/// and a string code.
pub proof fn lemma_field_view_wf(f: &RuleField)
    ensures
        field_view_wf(f@),
        !(is_int_code(view_code(f@)) && is_string_code(view_code(f@))),
{
    match f {
        RuleField::Watch(_) => {},
        RuleField::Dir(_) => {},
        RuleField::Filterkey(_) => {},
        RuleField::SubjUser(_) => {},
        RuleField::SubjRole(_) => {},
        RuleField::SubjType(_) => {},
        RuleField::SubjSen(_) => {},
        RuleField::SubjClr(_) => {},
        RuleField::ObjUser(_) => {},
        RuleField::ObjRole(_) => {},
        RuleField::ObjType(_) => {},
        RuleField::ObjLevLow(_) => {},
        RuleField::ObjLevHigh(_) => {},
        RuleField::Pid(_) => {},
        RuleField::Uid(_) => {},
        RuleField::Euid(_) => {},
        RuleField::Suid(_) => {},
        RuleField::Fsuid(_) => {},
        RuleField::Gid(_) => {},
        RuleField::Egid(_) => {},
        RuleField::Sgid(_) => {},
        RuleField::Fsgid(_) => {},
        RuleField::Loginuid(_) => {},
        RuleField::Pers(_) => {},
        RuleField::Arch(_) => {},
        RuleField::Msgtype(_) => {},
        RuleField::Ppid(_) => {},
        RuleField::LoginuidSet(_) => {},
        RuleField::Sessionid(_) => {},
        RuleField::Fstype(_) => {},
        RuleField::Devmajor(_) => {},
        RuleField::Devminor(_) => {},
        RuleField::Inode(_) => {},
        RuleField::Exit(_) => {},
        RuleField::Success(_) => {},
        RuleField::Perm(_) => {},
        RuleField::Filetype(_) => {},
        RuleField::ObjUid(_) => {},
        RuleField::ObjGid(_) => {},
        RuleField::FieldCompare(_) => {},
        RuleField::Exe(_) => {},
        RuleField::Arg0(_) => {},
        RuleField::Arg1(_) => {},
        RuleField::Arg2(_) => {},
        RuleField::Arg3(_) => {},
    }
}

/// The field-type code of a field: the vocabulary's variant-to-code table.
pub fn field_code(f: &RuleField) -> (c: u32)
    ensures
        c == view_code(f@),
{
    match f {
        RuleField::Watch(_) => AUDIT_WATCH,
        RuleField::Dir(_) => AUDIT_DIR,
        RuleField::Filterkey(_) => AUDIT_FILTERKEY,
        RuleField::SubjUser(_) => AUDIT_SUBJ_USER,
        RuleField::SubjRole(_) => AUDIT_SUBJ_ROLE,
        RuleField::SubjType(_) => AUDIT_SUBJ_TYPE,
        RuleField::SubjSen(_) => AUDIT_SUBJ_SEN,
        RuleField::SubjClr(_) => AUDIT_SUBJ_CLR,
        RuleField::ObjUser(_) => AUDIT_OBJ_USER,
        RuleField::ObjRole(_) => AUDIT_OBJ_ROLE,
        RuleField::ObjType(_) => AUDIT_OBJ_TYPE,
        RuleField::ObjLevLow(_) => AUDIT_OBJ_LEV_LOW,
        RuleField::ObjLevHigh(_) => AUDIT_OBJ_LEV_HIGH,
        RuleField::Pid(_) => AUDIT_PID,
        RuleField::Uid(_) => AUDIT_UID,
        RuleField::Euid(_) => AUDIT_EUID,
        RuleField::Suid(_) => AUDIT_SUID,
        RuleField::Fsuid(_) => AUDIT_FSUID,
        RuleField::Gid(_) => AUDIT_GID,
        RuleField::Egid(_) => AUDIT_EGID,
        RuleField::Sgid(_) => AUDIT_SGID,
        RuleField::Fsgid(_) => AUDIT_FSGID,
        RuleField::Loginuid(_) => AUDIT_LOGINUID,
        RuleField::Pers(_) => AUDIT_PERS,
        RuleField::Arch(_) => AUDIT_ARCH,
        RuleField::Msgtype(_) => AUDIT_MSGTYPE,
        RuleField::Ppid(_) => AUDIT_PPID,
        RuleField::LoginuidSet(_) => AUDIT_LOGINUID_SET,
        RuleField::Sessionid(_) => AUDIT_SESSIONID,
        RuleField::Fstype(_) => AUDIT_FSTYPE,
        RuleField::Devmajor(_) => AUDIT_DEVMAJOR,
        RuleField::Devminor(_) => AUDIT_DEVMINOR,
        RuleField::Inode(_) => AUDIT_INODE,
        RuleField::Exit(_) => AUDIT_EXIT,
        RuleField::Success(_) => AUDIT_SUCCESS,
        RuleField::Perm(_) => AUDIT_PERM,
        RuleField::Filetype(_) => AUDIT_FILETYPE,
        RuleField::ObjUid(_) => AUDIT_OBJ_UID,
        RuleField::ObjGid(_) => AUDIT_OBJ_GID,
        RuleField::FieldCompare(_) => AUDIT_FIELD_COMPARE,
        RuleField::Exe(_) => AUDIT_EXE,
        RuleField::Arg0(_) => AUDIT_ARG0,
        RuleField::Arg1(_) => AUDIT_ARG1,
        RuleField::Arg2(_) => AUDIT_ARG2,
        RuleField::Arg3(_) => AUDIT_ARG3,
    }
}

/// The string payload of a field, or `None` for an integer field.
pub fn field_string(f: &RuleField) -> (r: Option<&Vec<u8>>)
    ensures
        r is Some <==> f@ is Str,
        r matches Some(s) ==> s@ == view_str_bytes(f@),
{
    match f {
        RuleField::Watch(s) => Some(s),
        RuleField::Dir(s) => Some(s),
        RuleField::Filterkey(s) => Some(s),
        RuleField::SubjUser(s) => Some(s),
        RuleField::SubjRole(s) => Some(s),
        RuleField::SubjType(s) => Some(s),
        RuleField::SubjSen(s) => Some(s),
        RuleField::SubjClr(s) => Some(s),
        RuleField::ObjUser(s) => Some(s),
        RuleField::ObjRole(s) => Some(s),
        RuleField::ObjType(s) => Some(s),
        RuleField::ObjLevLow(s) => Some(s),
        RuleField::ObjLevHigh(s) => Some(s),
        _ => None,
    }
}

/// The integer payload of an integer field.
pub fn field_value(f: &RuleField) -> (r: u32)
    requires
        f@ is Int,
    ensures
        r == view_wire_value(f@),
{
    match f {
        RuleField::Pid(v) => *v,
        RuleField::Uid(v) => *v,
        RuleField::Euid(v) => *v,
        RuleField::Suid(v) => *v,
        RuleField::Fsuid(v) => *v,
        RuleField::Gid(v) => *v,
        RuleField::Egid(v) => *v,
        RuleField::Sgid(v) => *v,
        RuleField::Fsgid(v) => *v,
        RuleField::Loginuid(v) => *v,
        RuleField::Pers(v) => *v,
        RuleField::Arch(v) => *v,
        RuleField::Msgtype(v) => *v,
        RuleField::Ppid(v) => *v,
        RuleField::LoginuidSet(v) => *v,
        RuleField::Sessionid(v) => *v,
        RuleField::Fstype(v) => *v,
        RuleField::Devmajor(v) => *v,
        RuleField::Devminor(v) => *v,
        RuleField::Inode(v) => *v,
        RuleField::Exit(v) => *v,
        RuleField::Success(v) => *v,
        RuleField::Perm(v) => *v,
        RuleField::Filetype(v) => *v,
        RuleField::ObjUid(v) => *v,
        RuleField::ObjGid(v) => *v,
        RuleField::FieldCompare(v) => *v,
        RuleField::Exe(v) => *v,
        RuleField::Arg0(v) => *v,
        RuleField::Arg1(v) => *v,
        RuleField::Arg2(v) => *v,
        RuleField::Arg3(v) => *v,
        _ => 0,
    }
}

/// Whether `code` names a string-valued field: the executable form of
/// the vocabulary's shape table.
pub fn string_code(code: u32) -> (r: bool)
    ensures
        r == is_string_code(code),
{
    code == AUDIT_WATCH || code == AUDIT_DIR || code == AUDIT_FILTERKEY || code == AUDIT_SUBJ_USER || code == AUDIT_SUBJ_ROLE || code == AUDIT_SUBJ_TYPE || code == AUDIT_SUBJ_SEN || code == AUDIT_SUBJ_CLR || code == AUDIT_OBJ_USER || code == AUDIT_OBJ_ROLE || code == AUDIT_OBJ_TYPE || code == AUDIT_OBJ_LEV_LOW || code == AUDIT_OBJ_LEV_HIGH
}

/// Builds the integer field a descriptor with code `code` and value slot
/// `value` denotes; `None` exactly when `code` is no integer code.
pub fn int_field_from_code(code: u32, value: u32) -> (r: Option<RuleField>)
    ensures
        r is Some <==> is_int_code(code),
        r matches Some(f) ==> f@ == (RuleFieldView::Int { code, value }),
{
    if code == AUDIT_PID {
        Some(RuleField::Pid(value))
    } else if code == AUDIT_UID {
        Some(RuleField::Uid(value))
    } else if code == AUDIT_EUID {
        Some(RuleField::Euid(value))
    } else if code == AUDIT_SUID {
        Some(RuleField::Suid(value))
    } else if code == AUDIT_FSUID {
        Some(RuleField::Fsuid(value))
    } else if code == AUDIT_GID {
        Some(RuleField::Gid(value))
    } else if code == AUDIT_EGID {
        Some(RuleField::Egid(value))
    } else if code == AUDIT_SGID {
        Some(RuleField::Sgid(value))
    } else if code == AUDIT_FSGID {
        Some(RuleField::Fsgid(value))
    } else if code == AUDIT_LOGINUID {
        Some(RuleField::Loginuid(value))
    } else if code == AUDIT_PERS {
        Some(RuleField::Pers(value))
    } else if code == AUDIT_ARCH {
        Some(RuleField::Arch(value))
    } else if code == AUDIT_MSGTYPE {
        Some(RuleField::Msgtype(value))
    } else if code == AUDIT_PPID {
        Some(RuleField::Ppid(value))
    } else if code == AUDIT_LOGINUID_SET {
        Some(RuleField::LoginuidSet(value))
    } else if code == AUDIT_SESSIONID {
        Some(RuleField::Sessionid(value))
    } else if code == AUDIT_FSTYPE {
        Some(RuleField::Fstype(value))
    } else if code == AUDIT_DEVMAJOR {
        Some(RuleField::Devmajor(value))
    } else if code == AUDIT_DEVMINOR {
        Some(RuleField::Devminor(value))
    } else if code == AUDIT_INODE {
        Some(RuleField::Inode(value))
    } else if code == AUDIT_EXIT {
        Some(RuleField::Exit(value))
    } else if code == AUDIT_SUCCESS {
        Some(RuleField::Success(value))
    } else if code == AUDIT_PERM {
        Some(RuleField::Perm(value))
    } else if code == AUDIT_FILETYPE {
        Some(RuleField::Filetype(value))
    } else if code == AUDIT_OBJ_UID {
        Some(RuleField::ObjUid(value))
    } else if code == AUDIT_OBJ_GID {
        Some(RuleField::ObjGid(value))
    } else if code == AUDIT_FIELD_COMPARE {
        Some(RuleField::FieldCompare(value))
    } else if code == AUDIT_EXE {
        Some(RuleField::Exe(value))
    } else if code == AUDIT_ARG0 {
        Some(RuleField::Arg0(value))
    } else if code == AUDIT_ARG1 {
        Some(RuleField::Arg1(value))
    } else if code == AUDIT_ARG2 {
        Some(RuleField::Arg2(value))
    } else if code == AUDIT_ARG3 {
        Some(RuleField::Arg3(value))
    } else {
        None
    }
}

/// Builds the string field a descriptor with code `code` and pool payload
/// `bytes` denotes; `None` exactly when `code` is no string code.
pub fn str_field_from_code(code: u32, bytes: Vec<u8>) -> (r: Option<RuleField>)
    ensures
        r is Some <==> is_string_code(code),
        r matches Some(f) ==> f@ == (RuleFieldView::Str { code, bytes: bytes@ }),
{
    if code == AUDIT_WATCH {
        Some(RuleField::Watch(bytes))
    } else if code == AUDIT_DIR {
        Some(RuleField::Dir(bytes))
    } else if code == AUDIT_FILTERKEY {
        Some(RuleField::Filterkey(bytes))
    } else if code == AUDIT_SUBJ_USER {
        Some(RuleField::SubjUser(bytes))
    } else if code == AUDIT_SUBJ_ROLE {
        Some(RuleField::SubjRole(bytes))
    } else if code == AUDIT_SUBJ_TYPE {
        Some(RuleField::SubjType(bytes))
    } else if code == AUDIT_SUBJ_SEN {
        Some(RuleField::SubjSen(bytes))
    } else if code == AUDIT_SUBJ_CLR {
        Some(RuleField::SubjClr(bytes))
    } else if code == AUDIT_OBJ_USER {
        Some(RuleField::ObjUser(bytes))
    } else if code == AUDIT_OBJ_ROLE {
        Some(RuleField::ObjRole(bytes))
    } else if code == AUDIT_OBJ_TYPE {
        Some(RuleField::ObjType(bytes))
    } else if code == AUDIT_OBJ_LEV_LOW {
        Some(RuleField::ObjLevLow(bytes))
    } else if code == AUDIT_OBJ_LEV_HIGH {
        Some(RuleField::ObjLevHigh(bytes))
    } else {
        None
    }
}

} // verus!
