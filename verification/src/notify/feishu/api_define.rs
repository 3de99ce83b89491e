//! What the chat bot answers, and what is reported of one delivery.
//!
//! The bot answers in one of two shapes that share no member: where all went
//! well,
//!
//! ```text
//! { "extra": null, "statusCode": 0, "statusMessage": "success" }
//! ```
//!
//! and where it did not,
//!
//! ```text
//! { "code": 9499, "msg": "Bad Request", "data": {} }
//! ```

use vstd::prelude::*;
use crate::common::AlertStatus;
use crate::json::{
    field, is_object, json_of, member, no_fields, no_members, null_value, object_value, put, put_bool, put_doc,
    put_int, put_text, Document, Json,
};
use crate::schema::{int_member, opt_text, opt_text_member, read_opt_text, read_text, read_u16, text_member};

verus! {

/// The answer of the bot where all went well.
#[derive(Debug, Clone, PartialEq, Eq)]
pub struct APISuccessResponse {
    pub extra: Option<String>,
    pub status_code: u16,
    pub status_message: String,
}

/// The answer of the bot where it refused the message.
#[derive(Debug, Clone, PartialEq)]
pub struct APIErrorResponse {
    pub code: u16,
    pub msg: String,
    pub data: serde_json::Value,
}

/// The answer of the bot.
#[derive(Debug, Clone, PartialEq)]
pub enum APIResponse {
    APISuccessResponse(APISuccessResponse),
    APIErrorResponse(APIErrorResponse),
}

/// What is reported of one delivery: where the notice went, whether the
/// destination took it, and what it answered.
#[derive(Debug, Clone, PartialEq)]
pub struct NotifyResponse {
    pub destination: String,
    pub status: AlertStatus,
    pub result: APIResponse,
}

/// The document of an optional text, `null` where there is none.
pub open spec fn text_or_null(s: Option<String>) -> Json {
    match s {
        Some(t) => Json::Text(t@),
        None => Json::Null,
    }
}

impl Document for APISuccessResponse {
    open spec fn json(&self) -> Json {
        Json::Object(
            no_fields().insert("extra"@, text_or_null(self.extra)).insert(
                "statusCode"@,
                Json::Int(self.status_code as int),
            ).insert("statusMessage"@, Json::Text(self.status_message@)),
        )
    }

    fn to_json(&self) -> (r: serde_json::Value) {
        let mut m = no_members();
        match &self.extra {
            Some(t) => put_text(&mut m, "extra", t.as_str()),
            None => put(&mut m, "extra", null_value()),
        }
        put_int(&mut m, "statusCode", self.status_code as i64);
        put_text(&mut m, "statusMessage", self.status_message.as_str());
        object_value(m)
    }
}

impl Document for APIErrorResponse {
    open spec fn json(&self) -> Json {
        Json::Object(
            no_fields().insert("code"@, Json::Int(self.code as int)).insert("msg"@, Json::Text(self.msg@)).insert(
                "data"@,
                json_of(self.data),
            ),
        )
    }

    fn to_json(&self) -> (r: serde_json::Value) {
        let mut m = no_members();
        put_int(&mut m, "code", self.code as i64);
        put_text(&mut m, "msg", self.msg.as_str());
        put_doc(&mut m, "data", &self.data);
        object_value(m)
    }
}

impl Document for APIResponse {
    open spec fn json(&self) -> Json {
        match self {
            APIResponse::APISuccessResponse(s) => s.json(),
            APIResponse::APIErrorResponse(e) => e.json(),
        }
    }

    fn to_json(&self) -> (r: serde_json::Value) {
        match self {
            APIResponse::APISuccessResponse(s) => s.to_json(),
            APIResponse::APIErrorResponse(e) => e.to_json(),
        }
    }
}

impl Document for NotifyResponse {
    open spec fn json(&self) -> Json {
        Json::Object(
            no_fields().insert("destinationName"@, Json::Text(self.destination@)).insert(
                "succeeded"@,
                Json::Bool(self.status == AlertStatus::Success),
            ).insert("rawResponse"@, self.result.json()),
        )
    }

    fn to_json(&self) -> (r: serde_json::Value) {
        let mut m = no_members();
        put_text(&mut m, "destinationName", self.destination.as_str());
        put_bool(
            &mut m,
            "succeeded",
            match self.status {
                AlertStatus::Success => true,
                AlertStatus::Failed => false,
            },
        );
        put_doc(&mut m, "rawResponse", &self.result);
        object_value(m)
    }
}

/// What `answer_of` makes of a document.
pub enum AnswerView {
    /// The bot took the message: the members `extra`, `statusCode` and
    /// `statusMessage` of its answer.
    Success { extra: Option<Seq<char>>, status_code: int, status_message: Seq<char> },
    /// The bot refused the message: the members `code`, `msg` and `data` of
    /// its answer.
    Refusal { code: int, msg: Seq<char>, data: Json },
}

/// Whether a document has the shape of the answer where all went well: an
/// object with a string or nothing as `extra`, a 16-bit natural number as
/// `statusCode` and a string as `statusMessage`.
pub open spec fn is_success(doc: Json) -> bool {
    &&& doc is Object
    &&& opt_text_member(doc, "extra"@) is Ok
    &&& int_member(doc, "statusCode"@, 0, u16::MAX as int) is Ok
    &&& text_member(doc, "statusMessage"@) is Ok
}

/// Whether a document has the shape of a refusal: an object with a 16-bit
/// natural number as `code`, a string as `msg`, and a member `data`.
pub open spec fn is_refusal(doc: Json) -> bool {
    &&& doc is Object
    &&& int_member(doc, "code"@, 0, u16::MAX as int) is Ok
    &&& text_member(doc, "msg"@) is Ok
    &&& field(doc, "data"@) is Some
}

/// The answer that a document stands for. The shape of the answer where all
/// went well is tried first and the shape of a refusal second; a document of
/// neither shape is no answer.
pub open spec fn answer_of(doc: Json) -> Option<AnswerView> {
    if is_success(doc) {
        Some(
            AnswerView::Success {
                extra: opt_text_member(doc, "extra"@)->Ok_0,
                status_code: int_member(doc, "statusCode"@, 0, u16::MAX as int)->Ok_0,
                status_message: text_member(doc, "statusMessage"@)->Ok_0,
            },
        )
    } else if is_refusal(doc) {
        Some(
            AnswerView::Refusal {
                code: int_member(doc, "code"@, 0, u16::MAX as int)->Ok_0,
                msg: text_member(doc, "msg"@)->Ok_0,
                data: field(doc, "data"@)->0,
            },
        )
    } else {
        None
    }
}

/// An answer is kept as it is: the document that is written for an answer
/// is read back as the same answer.
pub proof fn lemma_answer_round_trip(a: APIResponse)
    ensures
        answer_of(a.json()) == Some(a@),
{
    reveal_strlit("extra");
    reveal_strlit("statusCode");
    reveal_strlit("statusMessage");
    reveal_strlit("code");
    reveal_strlit("msg");
    reveal_strlit("data");
    assert("extra"@.len() == 5 && "statusCode"@.len() == 10 && "statusMessage"@.len() == 13);
    assert("code"@.len() == 4 && "msg"@.len() == 3 && "data"@.len() == 4);
    assert("code"@[0] == 'c' && "data"@[0] == 'd');
    match a {
        APIResponse::APISuccessResponse(s) => {
            let doc = s.json();
            assert(field(doc, "extra"@) == Some(text_or_null(s.extra)));
            assert(field(doc, "statusCode"@) == Some(Json::Int(s.status_code as int)));
            assert(field(doc, "statusMessage"@) == Some(Json::Text(s.status_message@)));
            assert(is_success(doc));
        },
        APIResponse::APIErrorResponse(e) => {
            let doc = e.json();
            assert(field(doc, "statusCode"@) is None);
            assert(!is_success(doc));
            assert(field(doc, "code"@) == Some(Json::Int(e.code as int)));
            assert(field(doc, "msg"@) == Some(Json::Text(e.msg@)));
            assert(field(doc, "data"@) == Some(json_of(e.data)));
            assert(is_refusal(doc));
        },
    }
}

impl View for APIResponse {
    type V = AnswerView;

    open spec fn view(&self) -> AnswerView {
        match self {
            APIResponse::APISuccessResponse(s) => AnswerView::Success {
                extra: opt_text(s.extra),
                status_code: s.status_code as int,
                status_message: s.status_message@,
            },
            APIResponse::APIErrorResponse(e) => AnswerView::Refusal {
                code: e.code as int,
                msg: e.msg@,
                data: json_of(e.data),
            },
        }
    }
}

/// A `NotifyResponse` as a mathematical value.
pub struct ReportView {
    pub destination: Seq<char>,
    pub status: AlertStatus,
    pub result: AnswerView,
}

impl View for NotifyResponse {
    type V = ReportView;

    open spec fn view(&self) -> ReportView {
        ReportView { destination: self.destination@, status: self.status, result: self.result@ }
    }
}

impl APISuccessResponse {
    /// Reads the answer where all went well from a document; `None` where
    /// the document has not that shape.
    pub fn from_json(v: &serde_json::Value) -> (r: Option<APISuccessResponse>)
        ensures
            match r {
                Some(s) => is_success(json_of(*v)) && answer_of(json_of(*v)) == Some(
                    APIResponse::APISuccessResponse(s)@,
                ),
                None => !is_success(json_of(*v)),
            },
    {
        if !is_object(v) {
            return None;
        }
        let extra = match read_opt_text(v, "extra") {
            Ok(x) => x,
            Err(_) => { return None; },
        };
        let status_code = match read_u16(v, "statusCode") {
            Ok(x) => x,
            Err(_) => { return None; },
        };
        let status_message = match read_text(v, "statusMessage") {
            Ok(x) => x,
            Err(_) => { return None; },
        };
        Some(APISuccessResponse { extra, status_code, status_message })
    }
}

impl APIErrorResponse {
    /// Reads a refusal from a document; `None` where the document has not
    /// that shape.
    pub fn from_json(v: &serde_json::Value) -> (r: Option<APIErrorResponse>)
        ensures
            match r {
                Some(e) => is_refusal(json_of(*v)) && (!is_success(json_of(*v)) ==> answer_of(json_of(*v)) == Some(
                    APIResponse::APIErrorResponse(e)@,
                )),
                None => !is_refusal(json_of(*v)),
            },
    {
        if !is_object(v) {
            return None;
        }
        let code = match read_u16(v, "code") {
            Ok(x) => x,
            Err(_) => { return None; },
        };
        let msg = match read_text(v, "msg") {
            Ok(x) => x,
            Err(_) => { return None; },
        };
        let data = match member(v, "data") {
            Some(d) => d.clone(),
            None => { return None; },
        };
        Some(APIErrorResponse { code, msg, data })
    }
}

impl APIResponse {
    /// Reads the bot's answer from a document: as the answer where all went
    /// well if it has that shape, else as a refusal if it has that one.
    pub fn from_json(v: &serde_json::Value) -> (r: Option<APIResponse>)
        ensures
            match r {
                Some(a) => answer_of(json_of(*v)) == Some(a@),
                None => answer_of(json_of(*v)) is None,
            },
    {
        match APISuccessResponse::from_json(v) {
            Some(s) => Some(APIResponse::APISuccessResponse(s)),
            None => match APIErrorResponse::from_json(v) {
                Some(e) => Some(APIResponse::APIErrorResponse(e)),
                None => None,
            },
        }
    }

    /// Whether the destination took the message.
    pub fn status(&self) -> (r: AlertStatus)
        ensures
            r == (if self is APISuccessResponse {
                AlertStatus::Success
            } else {
                AlertStatus::Failed
            }),
    {
        match self {
            APIResponse::APISuccessResponse(_) => AlertStatus::Success,
            APIResponse::APIErrorResponse(_) => AlertStatus::Failed,
        }
    }
}

} // verus!
