//! What the alert sources share: the destinations, the credential of a
//! request and the answer to it.

use vstd::prelude::*;
use vstd::utf8::{decode_utf8, valid_utf8};
use crate::alert::alicloud_monitor::message::{
    alert_of_text as monitor_alert_of_text, AlertBody as MonitorAlert, AlertView as MonitorAlertView,
};
use crate::alert::grafana::message::{
    alert_of_text as dashboard_alert_of_text, AlertBody as DashboardAlert, AlertView as DashboardAlertView,
};
use crate::error::{
    fails_with, fault_message, gives, ConversionError, DecodeReason, FormBodyDeserializeError, SchemaDecodeError,
    SchemaFault,
};
use crate::form::{form_member, form_pairs, parse_form, read_member, utf8_text};
use crate::json::{
    documents, json_text, list_to_json, no_fields, no_members, null_value, object_value, put, put_int, put_text,
    Document, Json,
};
use crate::notify::feishu::api_define::{APIErrorResponse, APIResponse, AnswerView, NotifyResponse, ReportView};
use crate::notify::feishu::post::{
    answer_status, notice_document, outcome_answer, outcome_fault, outcome_status, post, read_outcome, Delivery,
    Notice, NoticeView, Outcome, OutcomeView, FEISHU_OPEN_API_PREFIX,
};
use crate::text::{
    find_from, first_index, join, lemma_first_index, lemma_split_join, same, split, split_text, texts,
};

verus! {

/// Where a notice can be sent.
#[derive(Debug, Clone, Copy, PartialEq, Eq, Structural)]
pub enum AlertDestinations {
    ChatBot,
}

impl AlertDestinations {
    /// The destination's name, as it stands in a credential and in an answer.
    pub open spec fn name(&self) -> Seq<char> {
        match self {
            AlertDestinations::ChatBot => "chatbot"@,
        }
    }

    /// The destination that goes by `name`.
    pub open spec fn named(name: Seq<char>) -> Option<AlertDestinations> {
        if name == "chatbot"@ {
            Some(AlertDestinations::ChatBot)
        } else {
            None
        }
    }

    /// The destination's name.
    pub fn as_str(&self) -> (r: &'static str)
        ensures
            r@ == self.name(),
    {
        match self {
            AlertDestinations::ChatBot => "chatbot",
        }
    }

    /// The destination's name.
    pub fn to_string(&self) -> (r: String)
        ensures
            r@ == self.name(),
    {
        self.as_str().to_owned()
    }

    /// The destination that goes by `name`, if there is one.
    pub fn from_name(name: &str) -> (r: Option<AlertDestinations>)
        ensures
            r == Self::named(name@),
    {
        if same(name, "chatbot") {
            Some(AlertDestinations::ChatBot)
        } else {
            None
        }
    }
}

/// The query of a request.
#[derive(Debug, Clone, PartialEq, Eq)]
pub struct QueryParams {
    /// The credential: `name_secret` tokens with commas between them.
    pub api_key: String,
}

/// Whether a destination took a notice.
#[derive(Debug, Clone, Copy, PartialEq, Eq, Structural)]
pub enum AlertStatus {
    Success,
    Failed,
}

/// The query that a text in the form encoding stands for: its member
/// `apiKey`, which must stand exactly once.
pub open spec fn query_of(raw: Seq<char>) -> Result<Seq<char>, SchemaFault> {
    match form_pairs(raw) {
        None => Err(SchemaFault { field: ""@, reason: DecodeReason::Malformed }),
        Some(pairs) => form_member(pairs, "apiKey"@),
    }
}

impl QueryParams {
    /// Reads the query of a request.
    pub fn decode(raw: &str) -> (r: Result<QueryParams, SchemaDecodeError>)
        ensures
            match r {
                Ok(q) => gives(query_of(raw@), q.api_key@),
                Err(e) => fails_with(query_of(raw@), e@),
            },
    {
        match parse_form(raw) {
            Some(pairs) => match read_member(&pairs, "apiKey") {
                Ok(api_key) => Ok(QueryParams { api_key }),
                Err(e) => Err(e),
            },
            None => Err(SchemaDecodeError::new("", DecodeReason::Malformed)),
        }
    }
}

/// The alert of the cloud monitor that the bytes of a body stand for: the
/// bytes must be UTF-8, and the text that they encode an alert.
pub open spec fn form_alert(bytes: Seq<u8>) -> Result<MonitorAlertView, SchemaFault> {
    if valid_utf8(bytes) {
        monitor_alert_of_text(decode_utf8(bytes))
    } else {
        Err(SchemaFault { field: ""@, reason: DecodeReason::Malformed })
    }
}

/// The alert of the dashboard that the bytes of a body stand for: the bytes
/// must be UTF-8, and the text that they encode an alert.
pub open spec fn json_alert(bytes: Seq<u8>) -> Result<DashboardAlertView, SchemaFault> {
    if valid_utf8(bytes) {
        dashboard_alert_of_text(decode_utf8(bytes))
    } else {
        Err(SchemaFault { field: ""@, reason: DecodeReason::Malformed })
    }
}

/// Reads the body of a request as an alert of the cloud monitor. A body that
/// is none is refused with what its fault says of itself.
pub fn log_form(body: &[u8]) -> (r: Result<MonitorAlert, FormBodyDeserializeError>)
    ensures
        match r {
            Ok(a) => gives(form_alert(body@), a@),
            Err(e) => form_alert(body@) matches Err(fault) && e.message@ == fault_message(fault),
        },
{
    broadcast use vstd::utf8::encode_utf8_decode_utf8;

    let decoded = match utf8_text(body) {
        Some(text) => {
            proof {
                vstd::utf8::encode_utf8_valid_utf8(text@);
            }
            MonitorAlert::decode(text)
        },
        None => Err(SchemaDecodeError::new("", DecodeReason::Malformed)),
    };
    match decoded {
        Ok(a) => Ok(a),
        Err(e) => Err(FormBodyDeserializeError { message: e.message() }),
    }
}

/// Reads the body of a request as an alert of the dashboard.
pub fn log_json(body: &[u8]) -> (r: Result<DashboardAlert, SchemaDecodeError>)
    ensures
        match r {
            Ok(a) => gives(json_alert(body@), a@) && a.wf(),
            Err(e) => fails_with(json_alert(body@), e@),
        },
{
    broadcast use vstd::utf8::encode_utf8_decode_utf8;

    match utf8_text(body) {
        Some(text) => {
            proof {
                vstd::utf8::encode_utf8_valid_utf8(text@);
            }
            DashboardAlert::decode(text)
        },
        None => Err(SchemaDecodeError::new("", DecodeReason::Malformed)),
    }
}

/// One destination with the secret that opens it.
#[derive(Debug, Clone, PartialEq, Eq)]
pub struct AlertKeyMap {
    pub destination: AlertDestinations,
    pub key: String,
}

/// An `AlertKeyMap` as a mathematical value.
pub struct KeyView {
    pub destination: AlertDestinations,
    pub key: Seq<char>,
}

impl View for AlertKeyMap {
    type V = KeyView;

    open spec fn view(&self) -> KeyView {
        KeyView { destination: self.destination, key: self.key@ }
    }
}

/// The keys that a vector holds.
pub open spec fn key_views(keys: Seq<AlertKeyMap>) -> Seq<KeyView> {
    keys.map_values(|k: AlertKeyMap| k@)
}

/// The part of a token before its first `_`.
pub open spec fn token_name(t: Seq<char>) -> Seq<char> {
    t.take(first_index(t, '_'))
}

/// The part of a token after its first `_`, up to the next `_` or the end.
pub open spec fn token_secret(t: Seq<char>) -> Seq<char> {
    let rest = t.skip(first_index(t, '_') + 1);
    rest.take(first_index(rest, '_'))
}

/// The key that a token stands for: it must hold a `_`, and what stands
/// before the first one must name a destination.
pub open spec fn token_key(t: Seq<char>) -> Option<KeyView> {
    if !t.contains('_') {
        None
    } else {
        match AlertDestinations::named(token_name(t)) {
            Some(d) => Some(KeyView { destination: d, key: token_secret(t) }),
            None => None,
        }
    }
}

/// The keys of a list of tokens, one for one; `None` as soon as one token
/// stands for no key.
pub open spec fn token_keys(tokens: Seq<Seq<char>>) -> Option<Seq<KeyView>> {
    if forall|i: int| 0 <= i < tokens.len() ==> (#[trigger] token_key(tokens[i])) is Some {
        Some(tokens.map_values(|t: Seq<char>| token_key(t)->0))
    } else {
        None
    }
}

/// The keys that a credential stands for: those of its tokens between the
/// commas, in the order of the tokens.
pub open spec fn credential_keys(credential: Seq<char>) -> Option<Seq<KeyView>> {
    token_keys(split(credential, ','))
}

/// Order is kept: a credential of tokens that each stand for a key, with
/// commas between them, stands for exactly their keys, in the order of the
/// tokens, each with the destination that its token names.
pub proof fn lemma_credential_keeps_order(tokens: Seq<Seq<char>>)
    requires
        tokens.len() > 0,
        forall|i: int| 0 <= i < tokens.len() ==> !(#[trigger] tokens[i]).contains(','),
        forall|i: int| 0 <= i < tokens.len() ==> (#[trigger] token_key(tokens[i])) is Some,
    ensures
        credential_keys(join(tokens, ',')) matches Some(keys) && keys.len() == tokens.len() && forall|i: int|
            0 <= i < tokens.len() ==> token_key(tokens[i]) == Some(#[trigger] keys[i]) && keys[i].destination.name()
                == token_name(tokens[i]) && keys[i].key == token_secret(tokens[i]),
{
    lemma_split_join(tokens, ',');
}

/// One bad token refuses all: a credential in which any token stands for no
/// key stands for no keys at all.
pub proof fn lemma_credential_rejected(tokens: Seq<Seq<char>>, bad: int)
    requires
        tokens.len() > 0,
        forall|i: int| 0 <= i < tokens.len() ==> !(#[trigger] tokens[i]).contains(','),
        0 <= bad < tokens.len(),
        token_key(tokens[bad]) is None,
    ensures
        credential_keys(join(tokens, ',')) is None,
{
    lemma_split_join(tokens, ',');
}

/// Reads one token of a credential.
pub fn parse_token(token: &str) -> (r: Option<AlertKeyMap>)
    ensures
        match r {
            Some(k) => token_key(token@) == Some(k@),
            None => token_key(token@) is None,
        },
{
    let n = token.unicode_len();
    let first = find_from(token, '_', 0);
    proof {
        assert(token@.skip(0) == token@);
        lemma_first_index(token@, '_');
    }
    if first >= n {
        return None;
    }
    let name = token.substring_char(0, first);
    let second = find_from(token, '_', first + 1);
    let secret = token.substring_char(first + 1, second);
    proof {
        let rest = token@.skip(first + 1);
        assert(rest.take(second - (first + 1)) == token@.subrange(first + 1, second as int));
    }
    match AlertDestinations::from_name(name) {
        Some(destination) => Some(AlertKeyMap { destination, key: secret.to_owned() }),
        None => None,
    }
}

/// Reads the credential of a request: every token must stand for a key, and
/// the keys come out in the order of the tokens. One token that stands for
/// none refuses the whole credential.
pub fn check_api_key(query: &QueryParams) -> (r: Result<Vec<AlertKeyMap>, ConversionError>)
    ensures
        match r {
            Ok(keys) => credential_keys(query.api_key@) == Some(key_views(keys@)),
            Err(_) => credential_keys(query.api_key@) is None,
        },
{
    let tokens = split_text(query.api_key.as_str(), ',');
    let ghost pieces = split(query.api_key@, ',');
    let mut keys: Vec<AlertKeyMap> = Vec::new();
    let mut i: usize = 0;
    while i < tokens.len()
        invariant
            i <= tokens.len(),
            pieces == split(query.api_key@, ','),
            pieces == texts(tokens@),
            keys@.len() == i,
            forall|j: int| 0 <= j < i ==> (#[trigger] token_key(pieces[j])) == Some(keys@[j]@),
        decreases tokens.len() - i,
    {
        match parse_token(tokens[i].as_str()) {
            Some(k) => {
                keys.push(k);
            },
            None => {
                assert(token_key(pieces[i as int]) is None);
                return Err(ConversionError);
            },
        }
        i += 1;
    }
    proof {
        let expected = pieces.map_values(|t: Seq<char>| token_key(t)->0);
        assert forall|j: int| 0 <= j < keys@.len() implies key_views(keys@)[j] == expected[j] by {
            assert(token_key(pieces[j]) == Some(keys@[j]@));
        }
        assert(key_views(keys@) =~= expected);
    }
    Ok(keys)
}

/// What is reported of one delivery, whatever the destination.
#[derive(Debug, Clone, PartialEq)]
pub enum NotifyResponseEnum {
    Feishu(NotifyResponse),
}

impl View for NotifyResponseEnum {
    type V = ReportView;

    open spec fn view(&self) -> ReportView {
        match self {
            NotifyResponseEnum::Feishu(r) => r@,
        }
    }
}

impl Document for NotifyResponseEnum {
    open spec fn json(&self) -> Json {
        match self {
            NotifyResponseEnum::Feishu(r) => r.json(),
        }
    }

    fn to_json(&self) -> (r: serde_json::Value) {
        match self {
            NotifyResponseEnum::Feishu(x) => x.to_json(),
        }
    }
}

/// The answer to a request: a status, a word on it, and what is reported of
/// each delivery.
#[derive(Debug, Clone, PartialEq)]
pub struct Response {
    pub code: u16,
    pub message: String,
    pub data: Vec<NotifyResponseEnum>,
}

/// The reports that a vector holds.
pub open spec fn report_views(data: Seq<NotifyResponseEnum>) -> Seq<ReportView> {
    data.map_values(|r: NotifyResponseEnum| r@)
}

/// A `Response` as a mathematical value.
pub struct ResponseView {
    pub code: int,
    pub message: Seq<char>,
    pub data: Seq<ReportView>,
}

impl View for Response {
    type V = ResponseView;

    open spec fn view(&self) -> ResponseView {
        ResponseView { code: self.code as int, message: self.message@, data: report_views(self.data@) }
    }
}

impl Document for Response {
    open spec fn json(&self) -> Json {
        Json::Object(
            no_fields().insert("code"@, Json::Int(self.code as int)).insert(
                "message"@,
                Json::Text(self.message@),
            ).insert("data"@, Json::List(documents(self.data@))),
        )
    }

    fn to_json(&self) -> (r: serde_json::Value) {
        let mut m = no_members();
        put_int(&mut m, "code", self.code as i64);
        put_text(&mut m, "message", self.message.as_str());
        put(&mut m, "data", list_to_json(&self.data));
        object_value(m)
    }
}

/// What is reported of a delivery to `destination` that came to the outcome
/// `o`. Where the outcome holds an answer of the bot, the report holds that
/// answer and says whether the bot took the message. Where it holds none, the
/// delivery has failed, and the report holds a refusal in the bot's stead:
/// the HTTP status as its code (0 where there was none), what is said of the
/// outcome as its message, and no data.
pub open spec fn report_of(destination: AlertDestinations, o: OutcomeView) -> ReportView {
    match outcome_answer(o) {
        Some(a) => ReportView { destination: destination.name(), status: answer_status(a), result: a },
        None => ReportView {
            destination: destination.name(),
            status: AlertStatus::Failed,
            result: AnswerView::Refusal { code: outcome_status(o), msg: outcome_fault(o), data: Json::Null },
        },
    }
}

/// Reports a delivery.
pub fn report(destination: &AlertDestinations, outcome: &Outcome) -> (r: NotifyResponseEnum)
    ensures
        r@ == report_of(*destination, outcome@),
{
    let result = match read_outcome(outcome) {
        Ok(pair) => NotifyResponse { destination: destination.to_string(), status: pair.0, result: pair.1 },
        Err(e) => {
            let code = match outcome {
                Outcome::Answered { status, body } => *status,
                Outcome::Unreachable { reason } => 0,
            };
            NotifyResponse {
                destination: destination.to_string(),
                status: AlertStatus::Failed,
                result: APIResponse::APIErrorResponse(APIErrorResponse { code, msg: e.message, data: null_value() }),
            }
        },
    };
    NotifyResponseEnum::Feishu(result)
}

/// The delivery of one notice to the destinations of a request, one after the
/// other in the order of the keys. A delivery that fails is reported like any
/// other, and the next destination is tried all the same.
#[derive(Debug, Clone, PartialEq)]
pub struct Dispatch {
    keys: Vec<AlertKeyMap>,
    notice: Notice,
    results: Vec<NotifyResponseEnum>,
}

/// A `Dispatch` as a mathematical value.
pub struct DispatchView {
    pub keys: Seq<KeyView>,
    pub notice: NoticeView,
    pub reports: Seq<ReportView>,
}

impl View for Dispatch {
    type V = DispatchView;

    closed spec fn view(&self) -> DispatchView {
        DispatchView { keys: key_views(self.keys@), notice: self.notice@, reports: report_views(self.results@) }
    }
}

/// No more reports than keys, and each report is of the destination of the
/// key at its place.
pub open spec fn in_order(d: DispatchView) -> bool {
    &&& d.reports.len() <= d.keys.len()
    &&& forall|i: int|
        0 <= i < d.reports.len() ==> (#[trigger] d.reports[i]).destination == d.keys[i].destination.name()
}

/// A delivery after one outcome more: where a destination is left, the
/// report of the outcome for the next key is added; where none is left,
/// nothing changes.
pub open spec fn recorded(d: DispatchView, o: OutcomeView) -> DispatchView {
    if d.reports.len() < d.keys.len() {
        DispatchView {
            keys: d.keys,
            notice: d.notice,
            reports: d.reports.push(report_of(d.keys[d.reports.len() as int].destination, o)),
        }
    } else {
        d
    }
}

/// A delivery after a row of outcomes, each recorded in its turn.
pub open spec fn settled(d: DispatchView, outcomes: Seq<OutcomeView>) -> DispatchView
    decreases outcomes.len(),
{
    if outcomes.len() == 0 {
        d
    } else {
        recorded(settled(d, outcomes.drop_last()), outcomes.last())
    }
}

/// Every destination gets its report, in the order of the keys: a delivery
/// that starts without reports and records one outcome for each key ends
/// with as many reports as keys, and the report at each place is that of the
/// key and of the outcome at that place, whether the delivery there went
/// well or not.
pub proof fn lemma_all_reported(d: DispatchView, outcomes: Seq<OutcomeView>)
    requires
        d.reports.len() == 0,
        outcomes.len() <= d.keys.len(),
    ensures
        in_order(settled(d, outcomes)),
        settled(d, outcomes).keys == d.keys,
        settled(d, outcomes).notice == d.notice,
        settled(d, outcomes).reports.len() == outcomes.len(),
        forall|i: int|
            0 <= i < outcomes.len() ==> (#[trigger] settled(d, outcomes).reports[i]) == report_of(
                d.keys[i].destination,
                outcomes[i],
            ),
    decreases outcomes.len(),
{
    if outcomes.len() > 0 {
        let front = outcomes.drop_last();
        lemma_all_reported(d, front);
        let before = settled(d, front);
        let after = settled(d, outcomes);
        assert forall|i: int| 0 <= i < outcomes.len() implies (#[trigger] after.reports[i]) == report_of(
            d.keys[i].destination,
            outcomes[i],
        ) by {
            if i < front.len() {
                assert(after.reports[i] == before.reports[i]);
                assert(front[i] == outcomes[i]);
            }
        }
    }
}

/// The address of the hook that a secret opens.
pub open spec fn hook_url(secret: Seq<char>) -> Seq<char> {
    FEISHU_OPEN_API_PREFIX@ + secret
}

impl Dispatch {
    /// Whether the reports are in the order of the keys.
    pub open spec fn wf(&self) -> bool {
        in_order(self@)
    }

    /// The delivery of `notice` to the destinations of `keys`, with nothing
    /// sent yet.
    pub fn new(keys: Vec<AlertKeyMap>, notice: Notice) -> (r: Dispatch)
        ensures
            r.wf(),
            r@.keys == key_views(keys@),
            r@.notice == notice@,
            r@.reports.len() == 0,
    {
        Dispatch { keys, notice, results: Vec::new() }
    }

    /// What is to be sent next: as long as a destination is left, the card
    /// of the notice as JSON text, to the hook that the secret of the next
    /// key opens. `None` when every key has its report.
    pub fn next(&self) -> (r: Option<Delivery>)
        requires
            self.wf(),
        ensures
            match r {
                Some(delivery) => {
                    &&& self@.reports.len() < self@.keys.len()
                    &&& delivery.url@ == hook_url(self@.keys[self@.reports.len() as int].key)
                    &&& delivery.body@ == json_text(notice_document(self@.notice))
                },
                None => self@.reports.len() == self@.keys.len(),
            },
    {
        let n = self.results.len();
        if n < self.keys.len() {
            let key = &self.keys[n];
            Some(
                post(
                    key.key.clone(),
                    self.notice.title.clone(),
                    self.notice.url.clone(),
                    self.notice.content.clone(),
                    Some(self.notice.template),
                ),
            )
        } else {
            None
        }
    }

    /// The answer to the request: status 200, the word `success`, and the
    /// reports that were made, in the order of the keys. Once `next` has
    /// nothing left to send there is one report for each key.
    pub fn reply(self) -> (r: Response)
        requires
            self.wf(),
        ensures
            r@ == (ResponseView { code: 200, message: "success"@, data: self@.reports }),
            r@.data.len() <= self@.keys.len(),
            forall|i: int|
                0 <= i < r@.data.len() ==> (#[trigger] r@.data[i]).destination == self@.keys[i].destination.name(),
    {
        Response { code: 200, message: "success".to_owned(), data: self.results }
    }

    /// Takes note of what came of the delivery that `next` asked for: the
    /// report of it is added, and the delivery goes on with the next key.
    /// Where no destination is left, nothing changes.
    pub fn record(&mut self, outcome: &Outcome)
        requires
            old(self).wf(),
        ensures
            final(self).wf(),
            final(self)@ == recorded(old(self)@, outcome@),
    {
        let n = self.results.len();
        if n < self.keys.len() {
            let r = report(&self.keys[n].destination, outcome);
            let ghost before = self.results@;
            self.results.push(r);
            proof {
                assert(report_views(self.results@) =~= report_views(before).push(r@));
            }
        }
    }
}

} // verus!
