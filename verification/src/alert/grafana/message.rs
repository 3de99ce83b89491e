//! The alert that the dashboard sends, and how it is read from a JSON body.
//!
//! A body like this one is an alert:
//!
//! ```text
//! {
//!   "dashboardId": 1,
//!   "evalMatches": [{ "value": 1, "metric": "Count", "tags": {} }],
//!   "imageUrl": "https://grafana.com/assets/img/blog/mixed_styles.png",
//!   "message": "Notification Message",
//!   "orgId": 1,
//!   "panelId": 2,
//!   "ruleId": 1,
//!   "ruleName": "Panel Title alert",
//!   "ruleUrl": "http://localhost:3000/d/hZ7BuVbWz/test-dashboard",
//!   "state": "alerting",
//!   "tags": { "tag name": "tag value" },
//!   "title": "[Alerting] Panel Title alert"
//! }
//! ```

use vstd::prelude::*;
use crate::error::{fails_with, gives, wrong_type, DecodeReason, SchemaDecodeError, SchemaFault};
use crate::json::{is_object, json_of, json_parsed, jsons_of, parse_json, Json};
use crate::schema::{
    decimal_member, distinct_names, int_member, list_member, opt_distinct_names, opt_pairs_map, opt_text, opt_text_member, opt_texts_member, pairs_map,
    read_decimal, read_i32, read_list, read_opt_text, read_opt_texts, read_text, read_texts, text_member,
    texts_member,
};
use crate::text::same;

verus! {

/// One series that made the rule fire. The value is kept as the decimal text
/// of the number that was sent.
#[derive(Debug, Clone, PartialEq, Eq)]
pub struct EvalMatches {
    pub value: String,
    pub metric: String,
    pub tags: Option<Vec<(String, String)>>,
}

/// An `EvalMatches` as a mathematical value.
pub struct EvalMatchView {
    pub value: Seq<char>,
    pub metric: Seq<char>,
    pub tags: Option<Map<Seq<char>, Seq<char>>>,
}

impl View for EvalMatches {
    type V = EvalMatchView;

    open spec fn view(&self) -> EvalMatchView {
        EvalMatchView { value: self.value@, metric: self.metric@, tags: opt_pairs_map(self.tags) }
    }
}

impl EvalMatches {
    /// No name stands twice among the tags.
    pub open spec fn wf(&self) -> bool {
        opt_distinct_names(self.tags)
    }
}

/// The state of a rule.
#[derive(Debug, Clone, Copy, PartialEq, Eq, Structural)]
pub enum AlertState {
    NoData,
    Paused,
    Alerting,
    OK,
    Pending,
    Unknown,
}

impl AlertState {
    /// The state that the dashboard writes as `name`; `Unknown` for a name
    /// that it does not use.
    pub open spec fn named(name: Seq<char>) -> AlertState {
        if name == "no_data"@ {
            AlertState::NoData
        } else if name == "paused"@ {
            AlertState::Paused
        } else if name == "alerting"@ {
            AlertState::Alerting
        } else if name == "ok"@ {
            AlertState::OK
        } else if name == "pending"@ {
            AlertState::Pending
        } else {
            AlertState::Unknown
        }
    }

    /// The state as it is shown in a notice.
    pub open spec fn shown(&self) -> Seq<char> {
        match self {
            AlertState::NoData => "NoData"@,
            AlertState::Paused => "Paused"@,
            AlertState::Alerting => "Alerting"@,
            AlertState::OK => "OK"@,
            AlertState::Pending => "Pending"@,
            AlertState::Unknown => "Unknown"@,
        }
    }

    /// The state that the dashboard writes as `name`.
    pub fn from_name(name: &str) -> (r: AlertState)
        ensures
            r == Self::named(name@),
    {
        if same(name, "no_data") {
            AlertState::NoData
        } else if same(name, "paused") {
            AlertState::Paused
        } else if same(name, "alerting") {
            AlertState::Alerting
        } else if same(name, "ok") {
            AlertState::OK
        } else if same(name, "pending") {
            AlertState::Pending
        } else {
            AlertState::Unknown
        }
    }

    /// The state as it is shown in a notice.
    pub fn as_str(&self) -> (r: &'static str)
        ensures
            r@ == self.shown(),
    {
        match self {
            AlertState::NoData => "NoData",
            AlertState::Paused => "Paused",
            AlertState::Alerting => "Alerting",
            AlertState::OK => "OK",
            AlertState::Pending => "Pending",
            AlertState::Unknown => "Unknown",
        }
    }

    /// The state as it is shown in a notice.
    pub fn to_string(&self) -> (r: String)
        ensures
            r@ == self.shown(),
    {
        self.as_str().to_owned()
    }
}

/// An alert of the dashboard.
#[derive(Debug, Clone, PartialEq, Eq)]
pub struct AlertBody {
    pub title: String,
    pub rule_id: i32,
    pub rule_name: String,
    pub state: AlertState,
    pub eval_matches: Vec<EvalMatches>,
    pub org_id: i32,
    pub dashboard_id: i32,
    pub panel_id: i32,
    pub tags: Vec<(String, String)>,
    pub rule_url: Option<String>,
    pub image_url: Option<String>,
    pub message: Option<String>,
}

/// An `AlertBody` as a mathematical value.
pub struct AlertView {
    pub title: Seq<char>,
    pub rule_id: int,
    pub rule_name: Seq<char>,
    pub state: AlertState,
    pub eval_matches: Seq<EvalMatchView>,
    pub org_id: int,
    pub dashboard_id: int,
    pub panel_id: int,
    pub tags: Map<Seq<char>, Seq<char>>,
    pub rule_url: Option<Seq<char>>,
    pub image_url: Option<Seq<char>>,
    pub message: Option<Seq<char>>,
}

impl AlertBody {
    /// No name stands twice among the tags, of the alert and of each series.
    pub open spec fn wf(&self) -> bool {
        &&& distinct_names(self.tags@)
        &&& forall|i: int| 0 <= i < self.eval_matches@.len() ==> (#[trigger] self.eval_matches@[i]).wf()
    }
}

/// The series that a vector holds.
pub open spec fn eval_match_views(items: Seq<EvalMatches>) -> Seq<EvalMatchView> {
    items.map_values(|x: EvalMatches| x@)
}

impl View for AlertBody {
    type V = AlertView;

    open spec fn view(&self) -> AlertView {
        AlertView {
            title: self.title@,
            rule_id: self.rule_id as int,
            rule_name: self.rule_name@,
            state: self.state,
            eval_matches: eval_match_views(self.eval_matches@),
            org_id: self.org_id as int,
            dashboard_id: self.dashboard_id as int,
            panel_id: self.panel_id as int,
            tags: pairs_map(self.tags@),
            rule_url: opt_text(self.rule_url),
            image_url: opt_text(self.image_url),
            message: opt_text(self.message),
        }
    }
}

/// The series that a document stands for: an object with a number `value`, a
/// string `metric` and, if any, `tags` that are strings.
pub open spec fn eval_match_of(doc: Json) -> Result<EvalMatchView, SchemaFault> {
    if !(doc is Object) {
        Err(wrong_type("evalMatches"@))
    } else {
        match decimal_member(doc, "value"@) {
            Err(e) => Err(e),
            Ok(value) => match text_member(doc, "metric"@) {
                Err(e) => Err(e),
                Ok(metric) => match opt_texts_member(doc, "tags"@) {
                    Err(e) => Err(e),
                    Ok(tags) => Ok(EvalMatchView { value, metric, tags }),
                },
            },
        }
    }
}

/// The series that a list of documents stands for, one for one; the fault of
/// the first document that stands for none.
pub open spec fn eval_matches_of(items: Seq<Json>) -> Result<Seq<EvalMatchView>, SchemaFault>
    decreases items.len(),
{
    if items.len() == 0 {
        Ok(Seq::empty())
    } else {
        match eval_matches_of(items.drop_last()) {
            Err(e) => Err(e),
            Ok(front) => match eval_match_of(items.last()) {
                Err(e) => Err(e),
                Ok(x) => Ok(front.push(x)),
            },
        }
    }
}

/// The series under `evalMatches`, which must be an array of series.
pub open spec fn eval_matches_member(doc: Json) -> Result<Seq<EvalMatchView>, SchemaFault> {
    match list_member(doc, "evalMatches"@) {
        Err(e) => Err(e),
        Ok(items) => eval_matches_of(items),
    }
}

/// The state under `state`, which must be a string.
pub open spec fn state_member(doc: Json) -> Result<AlertState, SchemaFault> {
    match text_member(doc, "state"@) {
        Err(e) => Err(e),
        Ok(name) => Ok(AlertState::named(name)),
    }
}

/// The 32-bit integer under `key`.
pub open spec fn i32_member(doc: Json, key: Seq<char>) -> Result<int, SchemaFault> {
    int_member(doc, key, i32::MIN as int, i32::MAX as int)
}

/// The alert that a document stands for.
///
/// The document must be an object. Its members are read in the order
/// `title`, `ruleId`, `ruleName`, `state`, `evalMatches`, `orgId`,
/// `dashboardId`, `panelId`, `tags`, `ruleUrl`, `imageUrl`, `message`, and
/// the first that cannot be read is the fault. The last three may be absent
/// or null; members of other names are passed over.
pub open spec fn alert_of(doc: Json) -> Result<AlertView, SchemaFault> {
    if !(doc is Object) {
        Err(wrong_type(""@))
    } else {
        match text_member(doc, "title"@) {
        Err(e) => Err(e), Ok(title) =>
        match i32_member(doc, "ruleId"@) {
        Err(e) => Err(e), Ok(rule_id) =>
        match text_member(doc, "ruleName"@) {
        Err(e) => Err(e), Ok(rule_name) =>
        match state_member(doc) {
        Err(e) => Err(e), Ok(state) =>
        match eval_matches_member(doc) {
        Err(e) => Err(e), Ok(eval_matches) =>
        match i32_member(doc, "orgId"@) {
        Err(e) => Err(e), Ok(org_id) =>
        match i32_member(doc, "dashboardId"@) {
        Err(e) => Err(e), Ok(dashboard_id) =>
        match i32_member(doc, "panelId"@) {
        Err(e) => Err(e), Ok(panel_id) =>
        match texts_member(doc, "tags"@) {
        Err(e) => Err(e), Ok(tags) =>
        match opt_text_member(doc, "ruleUrl"@) {
        Err(e) => Err(e), Ok(rule_url) =>
        match opt_text_member(doc, "imageUrl"@) {
        Err(e) => Err(e), Ok(image_url) =>
        match opt_text_member(doc, "message"@) {
        Err(e) => Err(e), Ok(message) =>
        Ok(AlertView {
            title, rule_id, rule_name, state, eval_matches, org_id, dashboard_id, panel_id, tags, rule_url,
            image_url, message,
        }),
        }}}}}}}}}}}}
    }
}

/// The alert that a body stands for: the body must be one JSON document, and
/// the document an alert.
pub open spec fn alert_of_text(body: Seq<char>) -> Result<AlertView, SchemaFault> {
    match json_parsed(body) {
        None => Err(SchemaFault { field: ""@, reason: DecodeReason::Malformed }),
        Some(doc) => alert_of(doc),
    }
}

impl EvalMatches {
    /// Reads one series from a document.
    pub fn from_json(v: &serde_json::Value) -> (r: Result<EvalMatches, SchemaDecodeError>)
        ensures
            match r {
                Ok(x) => gives(eval_match_of(json_of(*v)), x@) && x.wf(),
                Err(e) => fails_with(eval_match_of(json_of(*v)), e@),
            },
    {
        if !is_object(v) {
            return Err(SchemaDecodeError::new("evalMatches", DecodeReason::WrongType));
        }
        let value = match read_decimal(v, "value") {
            Ok(x) => x,
            Err(e) => { return Err(e); },
        };
        let metric = match read_text(v, "metric") {
            Ok(x) => x,
            Err(e) => { return Err(e); },
        };
        let tags = match read_opt_texts(v, "tags") {
            Ok(x) => x,
            Err(e) => { return Err(e); },
        };
        Ok(EvalMatches { value, metric, tags })
    }
}

/// Reads the series of a list of documents.
fn read_eval_matches(items: &Vec<serde_json::Value>) -> (r: Result<Vec<EvalMatches>, SchemaDecodeError>)
    ensures
        match r {
            Ok(xs) => gives(eval_matches_of(jsons_of(items@)), eval_match_views(xs@)) && forall|i: int|
                0 <= i < xs@.len() ==> (#[trigger] xs@[i]).wf(),
            Err(e) => fails_with(eval_matches_of(jsons_of(items@)), e@),
        },
{
    let mut out: Vec<EvalMatches> = Vec::new();
    let mut i: usize = 0;
    let ghost docs = jsons_of(items@);
    proof {
        assert(docs.take(0).len() == 0);
        assert(eval_match_views(out@) =~= Seq::empty());
    }
    while i < items.len()
        invariant
            i <= items.len(),
            docs == jsons_of(items@),
            gives(eval_matches_of(docs.take(i as int)), eval_match_views(out@)),
            forall|k: int| 0 <= k < out@.len() ==> (#[trigger] out@[k]).wf(),
        decreases items.len() - i,
    {
        let ghost before = out@;
        proof {
            assert(docs.take(i + 1).drop_last() =~= docs.take(i as int));
            assert(docs.take(i + 1).last() == json_of(items@[i as int]));
        }
        match EvalMatches::from_json(&items[i]) {
            Ok(x) => {
                out.push(x);
                proof {
                    assert(eval_match_views(out@) =~= eval_match_views(before).push(x@));
                }
            },
            Err(e) => {
                proof {
                    lemma_fault_stays(docs, i + 1);
                }
                return Err(e);
            },
        }
        i += 1;
    }
    proof {
        assert(docs.take(i as int) =~= docs);
    }
    Ok(out)
}

/// A fault among the first documents of a list is the fault of the list.
proof fn lemma_fault_stays(docs: Seq<Json>, n: int)
    requires
        0 <= n <= docs.len(),
        eval_matches_of(docs.take(n)) is Err,
    ensures
        eval_matches_of(docs) == eval_matches_of(docs.take(n)),
    decreases docs.len() - n,
{
    if n < docs.len() {
        assert(docs.take(n + 1).drop_last() =~= docs.take(n));
        lemma_fault_stays(docs, n + 1);
    } else {
        assert(docs.take(n) =~= docs);
    }
}

impl AlertBody {
    /// Reads an alert from a document.
    pub fn from_json(v: &serde_json::Value) -> (r: Result<AlertBody, SchemaDecodeError>)
        ensures
            match r {
                Ok(b) => gives(alert_of(json_of(*v)), b@) && b.wf(),
                Err(e) => fails_with(alert_of(json_of(*v)), e@),
            },
    {
        if !is_object(v) {
            return Err(SchemaDecodeError::new("", DecodeReason::WrongType));
        }
        let title = match read_text(v, "title") {
            Ok(x) => x,
            Err(e) => { return Err(e); },
        };
        let rule_id = match read_i32(v, "ruleId") {
            Ok(x) => x,
            Err(e) => { return Err(e); },
        };
        let rule_name = match read_text(v, "ruleName") {
            Ok(x) => x,
            Err(e) => { return Err(e); },
        };
        let state = match read_text(v, "state") {
            Ok(x) => AlertState::from_name(x.as_str()),
            Err(e) => { return Err(e); },
        };
        let eval_matches = match read_list(v, "evalMatches") {
            Ok(items) => match read_eval_matches(items) {
                Ok(x) => x,
                Err(e) => { return Err(e); },
            },
            Err(e) => { return Err(e); },
        };
        let org_id = match read_i32(v, "orgId") {
            Ok(x) => x,
            Err(e) => { return Err(e); },
        };
        let dashboard_id = match read_i32(v, "dashboardId") {
            Ok(x) => x,
            Err(e) => { return Err(e); },
        };
        let panel_id = match read_i32(v, "panelId") {
            Ok(x) => x,
            Err(e) => { return Err(e); },
        };
        let tags = match read_texts(v, "tags") {
            Ok(x) => x,
            Err(e) => { return Err(e); },
        };
        let rule_url = match read_opt_text(v, "ruleUrl") {
            Ok(x) => x,
            Err(e) => { return Err(e); },
        };
        let image_url = match read_opt_text(v, "imageUrl") {
            Ok(x) => x,
            Err(e) => { return Err(e); },
        };
        let message = match read_opt_text(v, "message") {
            Ok(x) => x,
            Err(e) => { return Err(e); },
        };
        Ok(
            AlertBody {
                title,
                rule_id,
                rule_name,
                state,
                eval_matches,
                org_id,
                dashboard_id,
                panel_id,
                tags,
                rule_url,
                image_url,
                message,
            },
        )
    }

    /// Reads an alert from the body of a request.
    pub fn decode(body: &str) -> (r: Result<AlertBody, SchemaDecodeError>)
        ensures
            match r {
                Ok(b) => gives(alert_of_text(body@), b@) && b.wf(),
                Err(e) => fails_with(alert_of_text(body@), e@),
            },
    {
        match parse_json(body) {
            Some(v) => AlertBody::from_json(&v),
            None => Err(SchemaDecodeError::new("", DecodeReason::Malformed)),
        }
    }
}

} // verus!
