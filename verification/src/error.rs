//! What can go wrong with a request, and how it is answered.

use vstd::prelude::*;
use crate::json::{no_fields, no_members, null_value, object_value, put, put_int, put_text, Document, Json};

verus! {

/// The credential of a request is not a list of `name_secret` tokens of known
/// destinations.
#[derive(Debug, Clone, Copy, PartialEq, Eq, Structural)]
pub struct ConversionError;

/// A destination could not be reached, or what it answered could not be read.
#[derive(Debug, Clone, PartialEq, Eq)]
pub struct FeishuFailedRequestError {
    pub message: String,
}

/// The body of a request is no alert that the library knows.
#[derive(Debug, Clone, PartialEq, Eq)]
pub struct FormBodyDeserializeError {
    pub message: String,
}

/// Why a body could not be read as an alert.
#[derive(Debug, Clone, Copy, PartialEq, Eq, Structural)]
pub enum DecodeReason {
    /// The body is not the kind of text it should be.
    Malformed,
    /// A member that must be there is not.
    MissingField,
    /// A member holds a value of the wrong kind, or a number out of range.
    WrongType,
    /// A member that may stand once stands twice.
    DuplicateField,
    /// The body has the shape of none of the alerts that it may be.
    NoVariant,
}

/// A body could not be read as an alert: the member at which reading failed
/// (empty where the fault is with the body as a whole), and why.
#[derive(Debug, Clone, PartialEq, Eq)]
pub struct SchemaDecodeError {
    pub field: String,
    pub reason: DecodeReason,
}

/// A `SchemaDecodeError` as a mathematical value.
pub struct SchemaFault {
    pub field: Seq<char>,
    pub reason: DecodeReason,
}

impl View for SchemaDecodeError {
    type V = SchemaFault;

    open spec fn view(&self) -> SchemaFault {
        SchemaFault { field: self.field@, reason: self.reason }
    }
}

/// The fault of a member that is not there.
pub open spec fn missing(key: Seq<char>) -> SchemaFault {
    SchemaFault { field: key, reason: DecodeReason::MissingField }
}

/// The fault of a member of the wrong kind.
pub open spec fn wrong_type(key: Seq<char>) -> SchemaFault {
    SchemaFault { field: key, reason: DecodeReason::WrongType }
}

/// The fault of a member that stands twice.
pub open spec fn duplicate(key: Seq<char>) -> SchemaFault {
    SchemaFault { field: key, reason: DecodeReason::DuplicateField }
}

/// Reading succeeds with `x`.
pub open spec fn gives<T>(r: Result<T, SchemaFault>, x: T) -> bool {
    r matches Ok(y) && y == x
}

/// Reading fails with `fault`.
pub open spec fn fails_with<T>(r: Result<T, SchemaFault>, fault: SchemaFault) -> bool {
    r matches Err(f) && f == fault
}

/// What a fault says of itself.
pub open spec fn fault_message(fault: SchemaFault) -> Seq<char> {
    match fault.reason {
        DecodeReason::Malformed => "malformed body"@,
        DecodeReason::MissingField => "missing field `"@ + fault.field + "`"@,
        DecodeReason::WrongType => "invalid type for field `"@ + fault.field + "`"@,
        DecodeReason::DuplicateField => "duplicate field `"@ + fault.field + "`"@,
        DecodeReason::NoVariant => "data did not match any variant of the alert body"@,
    }
}

impl SchemaDecodeError {
    /// The fault of `reason` at the member `key`.
    pub fn new(key: &str, reason: DecodeReason) -> (r: SchemaDecodeError)
        ensures
            r@ == (SchemaFault { field: key@, reason }),
    {
        SchemaDecodeError { field: key.to_owned(), reason }
    }

    /// What the fault says of itself: the reason in words, with the member's
    /// name where the fault is with one member.
    pub fn message(&self) -> (r: String)
        ensures
            r@ == fault_message(self@),
    {
        match self.reason {
            DecodeReason::Malformed => "malformed body".to_owned(),
            DecodeReason::MissingField => quoted("missing field `", self.field.as_str()),
            DecodeReason::WrongType => quoted("invalid type for field `", self.field.as_str()),
            DecodeReason::DuplicateField => quoted("duplicate field `", self.field.as_str()),
            DecodeReason::NoVariant => "data did not match any variant of the alert body".to_owned(),
        }
    }
}

/// Why a request was turned away, as far as the server can tell. More than
/// one cause may hold of one request.
#[derive(Debug, Clone, PartialEq, Eq)]
pub struct RejectionCauses {
    /// No route has the request's path.
    pub not_found: bool,
    /// The body is of a media type that the route does not take, with what
    /// the server says of it.
    pub unsupported_media_type: Option<String>,
    /// The credential was refused (`ConversionError`).
    pub conversion: bool,
    /// The query could not be read.
    pub invalid_query: bool,
    /// A header could not be read.
    pub invalid_header: bool,
    /// The JSON body is no alert, with what the reader says of it.
    pub body_deserialize: Option<String>,
    /// The form body is no alert (`FormBodyDeserializeError`).
    pub form_body_deserialize: Option<String>,
    /// A delivery failed (`FeishuFailedRequestError`).
    pub feishu_failed_request: Option<String>,
    /// The route does not take the request's method.
    pub method_not_allowed: bool,
}

/// The answer to a request that was turned away.
#[derive(Debug, Clone, PartialEq, Eq)]
pub struct ErrorMessage {
    pub code: u16,
    pub message: String,
}

impl Document for ErrorMessage {
    open spec fn json(&self) -> Json {
        Json::Object(
            no_fields().insert("code"@, Json::Int(self.code as int)).insert(
                "message"@,
                Json::Text(self.message@),
            ).insert("data"@, Json::Null),
        )
    }

    fn to_json(&self) -> (r: serde_json::Value) {
        let mut m = no_members();
        put_int(&mut m, "code", self.code as i64);
        put_text(&mut m, "message", self.message.as_str());
        put(&mut m, "data", null_value());
        object_value(m)
    }
}

/// The status with which a request is turned away. The causes are asked in
/// a fixed order and the first that holds decides: no route (404), the media
/// type (415), the credential, the query or a header (400), the JSON body
/// (400), the form body (400), a failed delivery (400), the method (405).
/// Where none holds the status is 500.
pub open spec fn reply_code(c: RejectionCauses) -> int {
    if c.not_found {
        404
    } else if c.unsupported_media_type is Some {
        415
    } else if c.conversion || c.invalid_query || c.invalid_header {
        400
    } else if c.body_deserialize is Some {
        400
    } else if c.form_body_deserialize is Some {
        400
    } else if c.feishu_failed_request is Some {
        400
    } else if c.method_not_allowed {
        405
    } else {
        500
    }
}

/// The word on a request that is turned away, decided by the same cause as
/// the status: a fixed word, or what the cause carries with it.
pub open spec fn reply_message(c: RejectionCauses) -> Seq<char> {
    if c.not_found {
        "NOT_FOUND"@
    } else if c.unsupported_media_type is Some {
        c.unsupported_media_type->0@
    } else if c.conversion || c.invalid_query || c.invalid_header {
        "Bad Request"@
    } else if c.body_deserialize is Some {
        c.body_deserialize->0@
    } else if c.form_body_deserialize is Some {
        c.form_body_deserialize->0@
    } else if c.feishu_failed_request is Some {
        c.feishu_failed_request->0@
    } else if c.method_not_allowed {
        "Method Not Allowed"@
    } else {
        "UNHANDLED_REJECTION"@
    }
}

/// Decides how a request that was turned away is answered.
pub fn handle_rejection(causes: &RejectionCauses) -> (r: ErrorMessage)
    ensures
        r.code == reply_code(*causes),
        r.message@ == reply_message(*causes),
{
    if causes.not_found {
        return ErrorMessage { code: 404, message: "NOT_FOUND".to_owned() };
    }
    match &causes.unsupported_media_type {
        Some(m) => { return ErrorMessage { code: 415, message: m.clone() }; },
        None => {},
    }
    if causes.conversion || causes.invalid_query || causes.invalid_header {
        return ErrorMessage { code: 400, message: "Bad Request".to_owned() };
    }
    match &causes.body_deserialize {
        Some(m) => { return ErrorMessage { code: 400, message: m.clone() }; },
        None => {},
    }
    match &causes.form_body_deserialize {
        Some(m) => { return ErrorMessage { code: 400, message: m.clone() }; },
        None => {},
    }
    match &causes.feishu_failed_request {
        Some(m) => { return ErrorMessage { code: 400, message: m.clone() }; },
        None => {},
    }
    if causes.method_not_allowed {
        ErrorMessage { code: 405, message: "Method Not Allowed".to_owned() }
    } else {
        ErrorMessage { code: 500, message: "UNHANDLED_REJECTION".to_owned() }
    }
}

/// `lead`, then `name`, then a closing backtick.
fn quoted(lead: &str, name: &str) -> (r: String)
    ensures
        r@ == lead@ + name@ + "`"@,
{
    let mut out = lead.to_owned();
    out.append(name);
    out.append("`");
    out
}

} // verus!
