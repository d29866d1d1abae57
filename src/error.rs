//! The error record that every fallible call into the runtime fills in.
use vstd::prelude::*;

use crate::rc::RfcRc;
use crate::uc::{field_text, fill_fixed, fixed_field, from_str, sap_uc_of, to_string_truncate};

verus! {

/// Width of the error key field.
pub const KEY_LEN: usize = 128;

/// Width of the error message field.
pub const MESSAGE_LEN: usize = 512;

/// Width of the ABAP message class field.
pub const ABAP_MSG_CLASS_LEN: usize = 21;

/// Width of the ABAP message type field.
pub const ABAP_MSG_TYPE_LEN: usize = 2;

/// Width of the ABAP message number field.
pub const ABAP_MSG_NUMBER_LEN: usize = 4;

/// Width of each of the four ABAP message variable fields.
pub const ABAP_MSG_V_LEN: usize = 51;

/// The class of failure an error record belongs to.
#[derive(Clone, Copy, Debug, PartialEq, Eq, Structural)]
pub enum RfcErrorGroup {
    NoFailure,
    AbapApplicationFailure,
    AbapRuntimeFailure,
    LogonFailure,
    CommunicationFailure,
    ExternalRuntimeFailure,
    ExternalApplicationFailure,
    ExternalAuthorizationFailure,
}

/// What an error record holds: its code and group, and each text field as
/// the units of its fixed-size buffer.
pub struct ErrorRecord {
    pub code: RfcRc,
    pub group: RfcErrorGroup,
    pub key: Seq<u16>,
    pub message: Seq<u16>,
    pub abap_msg_class: Seq<u16>,
    pub abap_msg_type: Seq<u16>,
    pub abap_msg_number: Seq<u16>,
    pub abap_msg_v1: Seq<u16>,
    pub abap_msg_v2: Seq<u16>,
    pub abap_msg_v3: Seq<u16>,
    pub abap_msg_v4: Seq<u16>,
}

pub open spec fn zeros(n: nat) -> Seq<u16> {
    Seq::new(n, |i: int| 0u16)
}

impl ErrorRecord {
    /// The zero-initialised record.
    pub open spec fn empty() -> ErrorRecord {
        ErrorRecord {
            code: RfcRc::RfcOk,
            group: RfcErrorGroup::NoFailure,
            key: zeros(KEY_LEN as nat),
            message: zeros(MESSAGE_LEN as nat),
            abap_msg_class: zeros(ABAP_MSG_CLASS_LEN as nat),
            abap_msg_type: zeros(ABAP_MSG_TYPE_LEN as nat),
            abap_msg_number: zeros(ABAP_MSG_NUMBER_LEN as nat),
            abap_msg_v1: zeros(ABAP_MSG_V_LEN as nat),
            abap_msg_v2: zeros(ABAP_MSG_V_LEN as nat),
            abap_msg_v3: zeros(ABAP_MSG_V_LEN as nat),
            abap_msg_v4: zeros(ABAP_MSG_V_LEN as nat),
        }
    }

    /// A record for a failure that the binding itself detected.
    pub open spec fn custom(message: Seq<char>) -> ErrorRecord {
        ErrorRecord {
            code: RfcRc::UnknownError,
            group: RfcErrorGroup::ExternalApplicationFailure,
            message: fixed_field(sap_uc_of(message), MESSAGE_LEN as nat),
            ..ErrorRecord::empty()
        }
    }
}

/// A failure met while releasing a resource. It is reported, never returned
/// as an error: by then the caller can no longer act on it.
#[derive(Debug)]
pub enum Warning {
    /// Closing a connection failed.
    ConnectionCloseFailed(RfcErrorInfo),
    /// Destroying a function instance failed.
    FunctionDiscardFailed(RfcErrorInfo),
    /// Destroying a function description failed.
    FunctionDescriptionDiscardFailed(RfcErrorInfo),
}

/// An error reported by the runtime, or detected by this library.
#[derive(Debug)]
pub struct RfcErrorInfo {
    code: RfcRc,
    group: RfcErrorGroup,
    key: Vec<u16>,
    message: Vec<u16>,
    abap_msg_class: Vec<u16>,
    abap_msg_type: Vec<u16>,
    abap_msg_number: Vec<u16>,
    abap_msg_v1: Vec<u16>,
    abap_msg_v2: Vec<u16>,
    abap_msg_v3: Vec<u16>,
    abap_msg_v4: Vec<u16>,
}

impl View for RfcErrorInfo {
    type V = ErrorRecord;

    closed spec fn view(&self) -> ErrorRecord {
        ErrorRecord {
            code: self.code,
            group: self.group,
            key: self.key@,
            message: self.message@,
            abap_msg_class: self.abap_msg_class@,
            abap_msg_type: self.abap_msg_type@,
            abap_msg_number: self.abap_msg_number@,
            abap_msg_v1: self.abap_msg_v1@,
            abap_msg_v2: self.abap_msg_v2@,
            abap_msg_v3: self.abap_msg_v3@,
            abap_msg_v4: self.abap_msg_v4@,
        }
    }
}

/// A field of `width` units holding `units`, cut off or padded with NUL.
fn fixed_copy(units: &[u16], width: usize) -> (r: Vec<u16>)
    ensures
        r@ == fixed_field(units@, width as nat),
{
    let mut r: Vec<u16> = vec![0u16; width];
    fill_fixed(units, &mut r);
    r
}

impl RfcErrorInfo {
    /// A zero-initialised record, ready to be filled in by the runtime.
    pub fn new() -> (r: RfcErrorInfo)
        ensures
            r@ == ErrorRecord::empty(),
    {
        let r = RfcErrorInfo {
            code: RfcRc::RfcOk,
            group: RfcErrorGroup::NoFailure,
            key: vec![0u16; KEY_LEN],
            message: vec![0u16; MESSAGE_LEN],
            abap_msg_class: vec![0u16; ABAP_MSG_CLASS_LEN],
            abap_msg_type: vec![0u16; ABAP_MSG_TYPE_LEN],
            abap_msg_number: vec![0u16; ABAP_MSG_NUMBER_LEN],
            abap_msg_v1: vec![0u16; ABAP_MSG_V_LEN],
            abap_msg_v2: vec![0u16; ABAP_MSG_V_LEN],
            abap_msg_v3: vec![0u16; ABAP_MSG_V_LEN],
            abap_msg_v4: vec![0u16; ABAP_MSG_V_LEN],
        };
        proof {
            assert(r.key@ =~= zeros(KEY_LEN as nat));
            assert(r.message@ =~= zeros(MESSAGE_LEN as nat));
            assert(r.abap_msg_class@ =~= zeros(ABAP_MSG_CLASS_LEN as nat));
            assert(r.abap_msg_type@ =~= zeros(ABAP_MSG_TYPE_LEN as nat));
            assert(r.abap_msg_number@ =~= zeros(ABAP_MSG_NUMBER_LEN as nat));
            assert(r.abap_msg_v1@ =~= zeros(ABAP_MSG_V_LEN as nat));
            assert(r.abap_msg_v2@ =~= zeros(ABAP_MSG_V_LEN as nat));
            assert(r.abap_msg_v3@ =~= zeros(ABAP_MSG_V_LEN as nat));
            assert(r.abap_msg_v4@ =~= zeros(ABAP_MSG_V_LEN as nat));
        }
        r
    }

    /// An error for a failure that this library detected: code
    /// `UnknownError`, group `ExternalApplicationFailure`, and `message`
    /// encoded into the message field, cut off where it is too long.
    pub fn custom(message: &str) -> (r: RfcErrorInfo)
        ensures
            r@ == ErrorRecord::custom(message@),
    {
        let mut r = RfcErrorInfo::new();
        r.code = RfcRc::UnknownError;
        r.group = RfcErrorGroup::ExternalApplicationFailure;
        let units = from_str(message);
        r.message = fixed_copy(units.as_slice(), MESSAGE_LEN);
        r
    }

    /// A record as the runtime filled it in. Each text field is taken at its
    /// fixed width: cut off where longer, padded with NUL where shorter.
    pub fn from_native(
        code: RfcRc,
        group: RfcErrorGroup,
        key: &[u16],
        message: &[u16],
        abap_msg_class: &[u16],
        abap_msg_type: &[u16],
        abap_msg_number: &[u16],
        abap_msg_v1: &[u16],
        abap_msg_v2: &[u16],
        abap_msg_v3: &[u16],
        abap_msg_v4: &[u16],
    ) -> (r: RfcErrorInfo)
        ensures
            r@ == (ErrorRecord {
                code,
                group,
                key: fixed_field(key@, KEY_LEN as nat),
                message: fixed_field(message@, MESSAGE_LEN as nat),
                abap_msg_class: fixed_field(abap_msg_class@, ABAP_MSG_CLASS_LEN as nat),
                abap_msg_type: fixed_field(abap_msg_type@, ABAP_MSG_TYPE_LEN as nat),
                abap_msg_number: fixed_field(abap_msg_number@, ABAP_MSG_NUMBER_LEN as nat),
                abap_msg_v1: fixed_field(abap_msg_v1@, ABAP_MSG_V_LEN as nat),
                abap_msg_v2: fixed_field(abap_msg_v2@, ABAP_MSG_V_LEN as nat),
                abap_msg_v3: fixed_field(abap_msg_v3@, ABAP_MSG_V_LEN as nat),
                abap_msg_v4: fixed_field(abap_msg_v4@, ABAP_MSG_V_LEN as nat),
            }),
    {
        RfcErrorInfo {
            code,
            group,
            key: fixed_copy(key, KEY_LEN),
            message: fixed_copy(message, MESSAGE_LEN),
            abap_msg_class: fixed_copy(abap_msg_class, ABAP_MSG_CLASS_LEN),
            abap_msg_type: fixed_copy(abap_msg_type, ABAP_MSG_TYPE_LEN),
            abap_msg_number: fixed_copy(abap_msg_number, ABAP_MSG_NUMBER_LEN),
            abap_msg_v1: fixed_copy(abap_msg_v1, ABAP_MSG_V_LEN),
            abap_msg_v2: fixed_copy(abap_msg_v2, ABAP_MSG_V_LEN),
            abap_msg_v3: fixed_copy(abap_msg_v3, ABAP_MSG_V_LEN),
            abap_msg_v4: fixed_copy(abap_msg_v4, ABAP_MSG_V_LEN),
        }
    }

    /// The record for text that is not well-formed wide-character text.
    pub open spec fn invalid_text_record() -> ErrorRecord {
        ErrorRecord::custom("invalid wide-character text"@)
    }

    /// The record for a reported length beyond the buffer it refers to.
    pub open spec fn buffer_overrun_record() -> ErrorRecord {
        ErrorRecord::custom("reported length exceeds the buffer"@)
    }

    pub fn buffer_overrun() -> (r: RfcErrorInfo)
        ensures
            r@ == RfcErrorInfo::buffer_overrun_record(),
    {
        RfcErrorInfo::custom("reported length exceeds the buffer")
    }

    /// The record for units that do not spell an existing date.
    pub open spec fn invalid_date_record() -> ErrorRecord {
        ErrorRecord::custom("invalid date"@)
    }

    pub fn invalid_date() -> (r: RfcErrorInfo)
        ensures
            r@ == RfcErrorInfo::invalid_date_record(),
    {
        RfcErrorInfo::custom("invalid date")
    }

    pub fn invalid_text() -> (r: RfcErrorInfo)
        ensures
            r@ == RfcErrorInfo::invalid_text_record(),
    {
        RfcErrorInfo::custom("invalid wide-character text")
    }

    pub fn code(&self) -> (r: RfcRc)
        ensures
            r == self@.code,
    {
        self.code
    }

    pub fn group(&self) -> (r: RfcErrorGroup)
        ensures
            r == self@.group,
    {
        self.group
    }

    /// The key, decoded up to the first NUL of its field.
    pub fn key(&self) -> (r: Result<String, RfcErrorInfo>)
        ensures
            r is Ok <==> field_text(self@.key) is Some,
            r matches Ok(s) ==> Some(s@) == field_text(self@.key),
            r matches Err(e) ==> e@ == RfcErrorInfo::invalid_text_record(),
    {
        to_string_truncate(self.key.as_slice())
    }

    /// The message, decoded up to the first NUL of its field.
    pub fn message(&self) -> (r: Result<String, RfcErrorInfo>)
        ensures
            r is Ok <==> field_text(self@.message) is Some,
            r matches Ok(s) ==> Some(s@) == field_text(self@.message),
            r matches Err(e) ==> e@ == RfcErrorInfo::invalid_text_record(),
    {
        to_string_truncate(self.message.as_slice())
    }

    /// The ABAP message class, decoded up to the first NUL of its field.
    pub fn abap_msg_class(&self) -> (r: Result<String, RfcErrorInfo>)
        ensures
            r is Ok <==> field_text(self@.abap_msg_class) is Some,
            r matches Ok(s) ==> Some(s@) == field_text(self@.abap_msg_class),
            r matches Err(e) ==> e@ == RfcErrorInfo::invalid_text_record(),
    {
        to_string_truncate(self.abap_msg_class.as_slice())
    }

    /// The ABAP message type, decoded up to the first NUL of its field.
    pub fn abap_msg_type(&self) -> (r: Result<String, RfcErrorInfo>)
        ensures
            r is Ok <==> field_text(self@.abap_msg_type) is Some,
            r matches Ok(s) ==> Some(s@) == field_text(self@.abap_msg_type),
            r matches Err(e) ==> e@ == RfcErrorInfo::invalid_text_record(),
    {
        to_string_truncate(self.abap_msg_type.as_slice())
    }

    /// The ABAP message number, decoded up to the first NUL of its field.
    pub fn abap_msg_number(&self) -> (r: Result<String, RfcErrorInfo>)
        ensures
            r is Ok <==> field_text(self@.abap_msg_number) is Some,
            r matches Ok(s) ==> Some(s@) == field_text(self@.abap_msg_number),
            r matches Err(e) ==> e@ == RfcErrorInfo::invalid_text_record(),
    {
        to_string_truncate(self.abap_msg_number.as_slice())
    }

    /// The first ABAP message variable, decoded up to the first NUL of its field.
    pub fn abap_msg_v1(&self) -> (r: Result<String, RfcErrorInfo>)
        ensures
            r is Ok <==> field_text(self@.abap_msg_v1) is Some,
            r matches Ok(s) ==> Some(s@) == field_text(self@.abap_msg_v1),
            r matches Err(e) ==> e@ == RfcErrorInfo::invalid_text_record(),
    {
        to_string_truncate(self.abap_msg_v1.as_slice())
    }

    /// The second ABAP message variable, decoded up to the first NUL of its field.
    pub fn abap_msg_v2(&self) -> (r: Result<String, RfcErrorInfo>)
        ensures
            r is Ok <==> field_text(self@.abap_msg_v2) is Some,
            r matches Ok(s) ==> Some(s@) == field_text(self@.abap_msg_v2),
            r matches Err(e) ==> e@ == RfcErrorInfo::invalid_text_record(),
    {
        to_string_truncate(self.abap_msg_v2.as_slice())
    }

    /// The third ABAP message variable, decoded up to the first NUL of its field.
    pub fn abap_msg_v3(&self) -> (r: Result<String, RfcErrorInfo>)
        ensures
            r is Ok <==> field_text(self@.abap_msg_v3) is Some,
            r matches Ok(s) ==> Some(s@) == field_text(self@.abap_msg_v3),
            r matches Err(e) ==> e@ == RfcErrorInfo::invalid_text_record(),
    {
        to_string_truncate(self.abap_msg_v3.as_slice())
    }

    /// The fourth ABAP message variable, decoded up to the first NUL of its field.
    pub fn abap_msg_v4(&self) -> (r: Result<String, RfcErrorInfo>)
        ensures
            r is Ok <==> field_text(self@.abap_msg_v4) is Some,
            r matches Ok(s) ==> Some(s@) == field_text(self@.abap_msg_v4),
            r matches Err(e) ==> e@ == RfcErrorInfo::invalid_text_record(),
    {
        to_string_truncate(self.abap_msg_v4.as_slice())
    }
}

} // verus!
