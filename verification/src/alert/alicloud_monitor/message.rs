//! The alerts that the cloud monitor sends, and how one is read from a body
//! in the form encoding.
//!
//! The monitor sends two kinds of alert to one address and does not say which
//! one a body is: a threshold alert of a metric, or an event of a product. A
//! body is read as a threshold alert first, and as an event where that fails.
//! An event carries its `content` as the text of a JSON object.

use vstd::prelude::*;
use crate::error::{fails_with, gives, wrong_type, DecodeReason, SchemaDecodeError, SchemaFault};
use crate::form::{
    decoded_form_member, form_member, form_pairs, opt_form_member, pair_texts, parse_form, read_decoded_member,
    read_member, read_opt_member,
};
use crate::json::{is_object, json_of, json_parsed, parse_json, Json};
use crate::schema::{opt_text, read_text, text_member};
use crate::text::same;

verus! {

/// Whether a rule fires.
#[derive(Debug, Clone, Copy, PartialEq, Eq, Structural)]
pub enum ThresholdAlertState {
    OK,
    Alert,
    InsufficientData,
}

impl ThresholdAlertState {
    /// The state's name, as the monitor writes it and as a notice shows it.
    pub open spec fn name(&self) -> Seq<char> {
        match self {
            ThresholdAlertState::OK => "OK"@,
            ThresholdAlertState::Alert => "ALERT"@,
            ThresholdAlertState::InsufficientData => "INSUFFICIENTDATA"@,
        }
    }

    /// The state that the monitor writes as `name`, if it is one.
    pub open spec fn named(name: Seq<char>) -> Option<ThresholdAlertState> {
        if name == "OK"@ {
            Some(ThresholdAlertState::OK)
        } else if name == "ALERT"@ {
            Some(ThresholdAlertState::Alert)
        } else if name == "INSUFFICIENTDATA"@ {
            Some(ThresholdAlertState::InsufficientData)
        } else {
            None
        }
    }

    /// The state's name.
    pub fn as_str(&self) -> (r: &'static str)
        ensures
            r@ == self.name(),
    {
        match self {
            ThresholdAlertState::OK => "OK",
            ThresholdAlertState::Alert => "ALERT",
            ThresholdAlertState::InsufficientData => "INSUFFICIENTDATA",
        }
    }

    /// The state that the monitor writes as `name`, if it is one.
    pub fn from_name(name: &str) -> (r: Option<ThresholdAlertState>)
        ensures
            r == Self::named(name@),
    {
        if same(name, "OK") {
            Some(ThresholdAlertState::OK)
        } else if same(name, "ALERT") {
            Some(ThresholdAlertState::Alert)
        } else if same(name, "INSUFFICIENTDATA") {
            Some(ThresholdAlertState::InsufficientData)
        } else {
            None
        }
    }
}

/// How grave a threshold alert is.
#[derive(Debug, Clone, Copy, PartialEq, Eq, Structural)]
pub enum ThresholdTriggerLevel {
    Critical,
    Warning,
    Info,
    Unknown,
}

impl ThresholdTriggerLevel {
    /// The level that the monitor writes as `name`; `Unknown` for `null` and
    /// for any name that it does not use.
    pub open spec fn named(name: Seq<char>) -> ThresholdTriggerLevel {
        if name == "CRITICAL"@ {
            ThresholdTriggerLevel::Critical
        } else if name == "WARNING"@ {
            ThresholdTriggerLevel::Warning
        } else if name == "INFO"@ {
            ThresholdTriggerLevel::Info
        } else {
            ThresholdTriggerLevel::Unknown
        }
    }

    /// The level as it is shown.
    pub open spec fn shown(&self) -> Seq<char> {
        match self {
            ThresholdTriggerLevel::Critical => "CRITICAL"@,
            ThresholdTriggerLevel::Warning => "WARNING"@,
            ThresholdTriggerLevel::Info => "INFO"@,
            ThresholdTriggerLevel::Unknown => "UNKNOWN"@,
        }
    }

    /// The level that the monitor writes as `name`.
    pub fn from_name(name: &str) -> (r: ThresholdTriggerLevel)
        ensures
            r == Self::named(name@),
    {
        if same(name, "CRITICAL") {
            ThresholdTriggerLevel::Critical
        } else if same(name, "WARNING") {
            ThresholdTriggerLevel::Warning
        } else if same(name, "INFO") {
            ThresholdTriggerLevel::Info
        } else {
            ThresholdTriggerLevel::Unknown
        }
    }

    /// The level as it is shown.
    pub fn to_string(&self) -> (r: String)
        ensures
            r@ == self.shown(),
    {
        match self {
            ThresholdTriggerLevel::Critical => "CRITICAL".to_owned(),
            ThresholdTriggerLevel::Warning => "WARNING".to_owned(),
            ThresholdTriggerLevel::Info => "INFO".to_owned(),
            ThresholdTriggerLevel::Unknown => "UNKNOWN".to_owned(),
        }
    }
}

/// A threshold alert: a metric has crossed the line that a rule draws.
/// `dimensions`, `expression` and `metric_name` are kept with one layer of
/// percent encoding undone, for the monitor encodes them twice.
#[derive(Debug, Clone, PartialEq, Eq)]
pub struct ThresholdAlertBody {
    pub alert_name: String,
    pub alert_state: ThresholdAlertState,
    pub cur_value: String,
    pub dimensions: String,
    pub expression: String,
    pub instance_name: String,
    pub metric_name: String,
    pub metric_project: String,
    pub namespace: String,
    pub pre_trigger_level: ThresholdTriggerLevel,
    pub rule_id: String,
    pub timestamp: String,
    pub trigger_level: ThresholdTriggerLevel,
    pub user_id: String,
    pub group_id: Option<String>,
}

/// A `ThresholdAlertBody` as a mathematical value.
pub struct ThresholdView {
    pub alert_name: Seq<char>,
    pub alert_state: ThresholdAlertState,
    pub cur_value: Seq<char>,
    pub dimensions: Seq<char>,
    pub expression: Seq<char>,
    pub instance_name: Seq<char>,
    pub metric_name: Seq<char>,
    pub metric_project: Seq<char>,
    pub namespace: Seq<char>,
    pub pre_trigger_level: ThresholdTriggerLevel,
    pub rule_id: Seq<char>,
    pub timestamp: Seq<char>,
    pub trigger_level: ThresholdTriggerLevel,
    pub user_id: Seq<char>,
    pub group_id: Option<Seq<char>>,
}

impl View for ThresholdAlertBody {
    type V = ThresholdView;

    open spec fn view(&self) -> ThresholdView {
        ThresholdView {
            alert_name: self.alert_name@,
            alert_state: self.alert_state,
            cur_value: self.cur_value@,
            dimensions: self.dimensions@,
            expression: self.expression@,
            instance_name: self.instance_name@,
            metric_name: self.metric_name@,
            metric_project: self.metric_project@,
            namespace: self.namespace@,
            pre_trigger_level: self.pre_trigger_level,
            rule_id: self.rule_id@,
            timestamp: self.timestamp@,
            trigger_level: self.trigger_level,
            user_id: self.user_id@,
            group_id: opt_text(self.group_id),
        }
    }
}

/// How grave an event is.
#[derive(Debug, Clone, Copy, PartialEq, Eq, Structural)]
pub enum EventLevel {
    Critical,
    Warning,
    Info,
    Unknown,
}

impl EventLevel {
    /// The level's name, as the monitor writes it and as a notice shows it.
    pub open spec fn name(&self) -> Seq<char> {
        match self {
            EventLevel::Critical => "Critical"@,
            EventLevel::Warning => "Warning"@,
            EventLevel::Info => "Info"@,
            EventLevel::Unknown => "Unknown"@,
        }
    }

    /// The level that the monitor writes as `name`; `Unknown` for a name that
    /// it does not use.
    pub open spec fn named(name: Seq<char>) -> EventLevel {
        if name == "Critical"@ {
            EventLevel::Critical
        } else if name == "Warning"@ {
            EventLevel::Warning
        } else if name == "Info"@ {
            EventLevel::Info
        } else {
            EventLevel::Unknown
        }
    }

    /// The level's name.
    pub fn as_str(&self) -> (r: &'static str)
        ensures
            r@ == self.name(),
    {
        match self {
            EventLevel::Critical => "Critical",
            EventLevel::Warning => "Warning",
            EventLevel::Info => "Info",
            EventLevel::Unknown => "Unknown",
        }
    }

    /// The level that the monitor writes as `name`.
    pub fn from_name(name: &str) -> (r: EventLevel)
        ensures
            r == Self::named(name@),
    {
        if same(name, "Critical") {
            EventLevel::Critical
        } else if same(name, "Warning") {
            EventLevel::Warning
        } else if same(name, "Info") {
            EventLevel::Info
        } else {
            EventLevel::Unknown
        }
    }
}

/// What an event says of the thing that happened.
#[derive(Debug, Clone, PartialEq, Eq)]
pub struct EventContent {
    pub result: String,
    pub snapshot_id: String,
    pub snapshot_type: String,
    pub snapshot_name: String,
    pub disk_id: String,
    pub start_time: String,
    pub end_time: String,
}

/// An `EventContent` as a mathematical value.
pub struct EventContentView {
    pub result: Seq<char>,
    pub snapshot_id: Seq<char>,
    pub snapshot_type: Seq<char>,
    pub snapshot_name: Seq<char>,
    pub disk_id: Seq<char>,
    pub start_time: Seq<char>,
    pub end_time: Seq<char>,
}

impl View for EventContent {
    type V = EventContentView;

    open spec fn view(&self) -> EventContentView {
        EventContentView {
            result: self.result@,
            snapshot_id: self.snapshot_id@,
            snapshot_type: self.snapshot_type@,
            snapshot_name: self.snapshot_name@,
            disk_id: self.disk_id@,
            start_time: self.start_time@,
            end_time: self.end_time@,
        }
    }
}

/// An event: something has happened to a product.
#[derive(Debug, Clone, PartialEq, Eq)]
pub struct EventAlertBody {
    pub trace_id: String,
    pub resource_id: String,
    pub ver: String,
    pub product: String,
    pub instance_name: String,
    pub level: EventLevel,
    pub user_id: String,
    pub content: EventContent,
    pub region_id: String,
    pub event_time: String,
    pub name: String,
    pub id: String,
    pub status: String,
}

/// An `EventAlertBody` as a mathematical value.
pub struct EventView {
    pub trace_id: Seq<char>,
    pub resource_id: Seq<char>,
    pub ver: Seq<char>,
    pub product: Seq<char>,
    pub instance_name: Seq<char>,
    pub level: EventLevel,
    pub user_id: Seq<char>,
    pub content: EventContentView,
    pub region_id: Seq<char>,
    pub event_time: Seq<char>,
    pub name: Seq<char>,
    pub id: Seq<char>,
    pub status: Seq<char>,
}

impl View for EventAlertBody {
    type V = EventView;

    open spec fn view(&self) -> EventView {
        EventView {
            trace_id: self.trace_id@,
            resource_id: self.resource_id@,
            ver: self.ver@,
            product: self.product@,
            instance_name: self.instance_name@,
            level: self.level,
            user_id: self.user_id@,
            content: self.content@,
            region_id: self.region_id@,
            event_time: self.event_time@,
            name: self.name@,
            id: self.id@,
            status: self.status@,
        }
    }
}

/// An alert of the cloud monitor.
#[derive(Debug, Clone, PartialEq, Eq)]
pub enum AlertBody {
    Threshold(ThresholdAlertBody),
    Event(EventAlertBody),
}

/// An `AlertBody` as a mathematical value.
pub enum AlertView {
    Threshold(ThresholdView),
    Event(EventView),
}

impl View for AlertBody {
    type V = AlertView;

    open spec fn view(&self) -> AlertView {
        match self {
            AlertBody::Threshold(t) => AlertView::Threshold(t@),
            AlertBody::Event(e) => AlertView::Event(e@),
        }
    }
}

/// The pairs of a body.
pub type Pairs = Seq<(Seq<char>, Seq<char>)>;

/// The state under `alertState`, which must be one that the monitor uses.
pub open spec fn state_member(pairs: Pairs) -> Result<ThresholdAlertState, SchemaFault> {
    match form_member(pairs, "alertState"@) {
        Err(e) => Err(e),
        Ok(name) => match ThresholdAlertState::named(name) {
            Some(s) => Ok(s),
            None => Err(wrong_type("alertState"@)),
        },
    }
}

/// The level under `key`.
pub open spec fn level_member(pairs: Pairs, key: Seq<char>) -> Result<ThresholdTriggerLevel, SchemaFault> {
    match form_member(pairs, key) {
        Err(e) => Err(e),
        Ok(name) => Ok(ThresholdTriggerLevel::named(name)),
    }
}

/// The threshold alert that the pairs of a body stand for.
///
/// The members are read in the order `alertName`, `alertState`, `curValue`,
/// `dimensions`, `expression`, `instanceName`, `metricName`, `metricProject`,
/// `namespace`, `preTriggerLevel`, `ruleId`, `timestamp`, `triggerLevel`,
/// `userId`, `groupId`, and the first that cannot be read is the fault. Each
/// must stand exactly once, but `groupId`, which may be absent; pairs of other
/// names are passed over.
pub open spec fn threshold_of(pairs: Pairs) -> Result<ThresholdView, SchemaFault> {
    match form_member(pairs, "alertName"@) {
    Err(e) => Err(e), Ok(alert_name) =>
    match state_member(pairs) {
    Err(e) => Err(e), Ok(alert_state) =>
    match form_member(pairs, "curValue"@) {
    Err(e) => Err(e), Ok(cur_value) =>
    match decoded_form_member(pairs, "dimensions"@) {
    Err(e) => Err(e), Ok(dimensions) =>
    match decoded_form_member(pairs, "expression"@) {
    Err(e) => Err(e), Ok(expression) =>
    match form_member(pairs, "instanceName"@) {
    Err(e) => Err(e), Ok(instance_name) =>
    match decoded_form_member(pairs, "metricName"@) {
    Err(e) => Err(e), Ok(metric_name) =>
    match form_member(pairs, "metricProject"@) {
    Err(e) => Err(e), Ok(metric_project) =>
    match form_member(pairs, "namespace"@) {
    Err(e) => Err(e), Ok(namespace) =>
    match level_member(pairs, "preTriggerLevel"@) {
    Err(e) => Err(e), Ok(pre_trigger_level) =>
    match form_member(pairs, "ruleId"@) {
    Err(e) => Err(e), Ok(rule_id) =>
    match form_member(pairs, "timestamp"@) {
    Err(e) => Err(e), Ok(timestamp) =>
    match level_member(pairs, "triggerLevel"@) {
    Err(e) => Err(e), Ok(trigger_level) =>
    match form_member(pairs, "userId"@) {
    Err(e) => Err(e), Ok(user_id) =>
    match opt_form_member(pairs, "groupId"@) {
    Err(e) => Err(e), Ok(group_id) =>
    Ok(ThresholdView {
        alert_name, alert_state, cur_value, dimensions, expression, instance_name, metric_name, metric_project,
        namespace, pre_trigger_level, rule_id, timestamp, trigger_level, user_id, group_id,
    }),
    }}}}}}}}}}}}}}}
}

/// What a document says of the thing that happened: an object whose members
/// `result`, `snapshotId`, `snapshotType`, `snapshotName`, `diskId`,
/// `startTime` and `endTime` are strings.
pub open spec fn content_of(doc: Json) -> Result<EventContentView, SchemaFault> {
    if !(doc is Object) {
        Err(wrong_type("content"@))
    } else {
        match text_member(doc, "result"@) {
        Err(e) => Err(e), Ok(result) =>
        match text_member(doc, "snapshotId"@) {
        Err(e) => Err(e), Ok(snapshot_id) =>
        match text_member(doc, "snapshotType"@) {
        Err(e) => Err(e), Ok(snapshot_type) =>
        match text_member(doc, "snapshotName"@) {
        Err(e) => Err(e), Ok(snapshot_name) =>
        match text_member(doc, "diskId"@) {
        Err(e) => Err(e), Ok(disk_id) =>
        match text_member(doc, "startTime"@) {
        Err(e) => Err(e), Ok(start_time) =>
        match text_member(doc, "endTime"@) {
        Err(e) => Err(e), Ok(end_time) =>
        Ok(EventContentView { result, snapshot_id, snapshot_type, snapshot_name, disk_id, start_time, end_time }),
        }}}}}}}
    }
}

/// The content under `content`, which must be the text of a JSON document
/// that `content_of` accepts.
pub open spec fn content_member(pairs: Pairs) -> Result<EventContentView, SchemaFault> {
    match form_member(pairs, "content"@) {
        Err(e) => Err(e),
        Ok(text) => match json_parsed(text) {
            None => Err(wrong_type("content"@)),
            Some(doc) => content_of(doc),
        },
    }
}

/// The level under `level`.
pub open spec fn event_level_member(pairs: Pairs) -> Result<EventLevel, SchemaFault> {
    match form_member(pairs, "level"@) {
        Err(e) => Err(e),
        Ok(name) => Ok(EventLevel::named(name)),
    }
}

/// The event that the pairs of a body stand for.
///
/// The members are read in the order `traceId`, `resourceId`, `ver`,
/// `product`, `instanceName`, `level`, `userId`, `content`, `regionId`,
/// `eventTime`, `name`, `id`, `status`, and the first that cannot be read is
/// the fault. Each must stand exactly once; pairs of other names are passed
/// over.
pub open spec fn event_of(pairs: Pairs) -> Result<EventView, SchemaFault> {
    match form_member(pairs, "traceId"@) {
    Err(e) => Err(e), Ok(trace_id) =>
    match form_member(pairs, "resourceId"@) {
    Err(e) => Err(e), Ok(resource_id) =>
    match form_member(pairs, "ver"@) {
    Err(e) => Err(e), Ok(ver) =>
    match form_member(pairs, "product"@) {
    Err(e) => Err(e), Ok(product) =>
    match form_member(pairs, "instanceName"@) {
    Err(e) => Err(e), Ok(instance_name) =>
    match event_level_member(pairs) {
    Err(e) => Err(e), Ok(level) =>
    match form_member(pairs, "userId"@) {
    Err(e) => Err(e), Ok(user_id) =>
    match content_member(pairs) {
    Err(e) => Err(e), Ok(content) =>
    match form_member(pairs, "regionId"@) {
    Err(e) => Err(e), Ok(region_id) =>
    match form_member(pairs, "eventTime"@) {
    Err(e) => Err(e), Ok(event_time) =>
    match form_member(pairs, "name"@) {
    Err(e) => Err(e), Ok(name) =>
    match form_member(pairs, "id"@) {
    Err(e) => Err(e), Ok(id) =>
    match form_member(pairs, "status"@) {
    Err(e) => Err(e), Ok(status) =>
    Ok(EventView {
        trace_id, resource_id, ver, product, instance_name, level, user_id, content, region_id, event_time, name,
        id, status,
    }),
    }}}}}}}}}}}}}
}

/// The fault of a body that is neither kind of alert.
pub open spec fn no_variant() -> SchemaFault {
    SchemaFault { field: ""@, reason: DecodeReason::NoVariant }
}

/// The alert that the pairs of a body stand for: the threshold alert if they
/// stand for one, else the event if they stand for one.
pub open spec fn alert_of(pairs: Pairs) -> Result<AlertView, SchemaFault> {
    match threshold_of(pairs) {
        Ok(t) => Ok(AlertView::Threshold(t)),
        Err(_) => match event_of(pairs) {
            Ok(e) => Ok(AlertView::Event(e)),
            Err(_) => Err(no_variant()),
        },
    }
}

/// The alert that a body stands for: the body must be in the form encoding,
/// and its pairs an alert.
pub open spec fn alert_of_text(body: Seq<char>) -> Result<AlertView, SchemaFault> {
    match form_pairs(body) {
        None => Err(SchemaFault { field: ""@, reason: DecodeReason::Malformed }),
        Some(pairs) => alert_of(pairs),
    }
}

impl ThresholdAlertBody {
    /// Reads a threshold alert from the pairs of a body.
    pub fn from_pairs(pairs: &Vec<(String, String)>) -> (r: Result<ThresholdAlertBody, SchemaDecodeError>)
        ensures
            match r {
                Ok(b) => gives(threshold_of(pair_texts(pairs@)), b@),
                Err(e) => fails_with(threshold_of(pair_texts(pairs@)), e@),
            },
    {
        let alert_name = match read_member(pairs, "alertName") {
            Ok(x) => x,
            Err(e) => { return Err(e); },
        };
        let alert_state = match read_member(pairs, "alertState") {
            Ok(x) => match ThresholdAlertState::from_name(x.as_str()) {
                Some(s) => s,
                None => { return Err(SchemaDecodeError::new("alertState", DecodeReason::WrongType)); },
            },
            Err(e) => { return Err(e); },
        };
        let cur_value = match read_member(pairs, "curValue") {
            Ok(x) => x,
            Err(e) => { return Err(e); },
        };
        let dimensions = match read_decoded_member(pairs, "dimensions") {
            Ok(x) => x,
            Err(e) => { return Err(e); },
        };
        let expression = match read_decoded_member(pairs, "expression") {
            Ok(x) => x,
            Err(e) => { return Err(e); },
        };
        let instance_name = match read_member(pairs, "instanceName") {
            Ok(x) => x,
            Err(e) => { return Err(e); },
        };
        let metric_name = match read_decoded_member(pairs, "metricName") {
            Ok(x) => x,
            Err(e) => { return Err(e); },
        };
        let metric_project = match read_member(pairs, "metricProject") {
            Ok(x) => x,
            Err(e) => { return Err(e); },
        };
        let namespace = match read_member(pairs, "namespace") {
            Ok(x) => x,
            Err(e) => { return Err(e); },
        };
        let pre_trigger_level = match read_member(pairs, "preTriggerLevel") {
            Ok(x) => ThresholdTriggerLevel::from_name(x.as_str()),
            Err(e) => { return Err(e); },
        };
        let rule_id = match read_member(pairs, "ruleId") {
            Ok(x) => x,
            Err(e) => { return Err(e); },
        };
        let timestamp = match read_member(pairs, "timestamp") {
            Ok(x) => x,
            Err(e) => { return Err(e); },
        };
        let trigger_level = match read_member(pairs, "triggerLevel") {
            Ok(x) => ThresholdTriggerLevel::from_name(x.as_str()),
            Err(e) => { return Err(e); },
        };
        let user_id = match read_member(pairs, "userId") {
            Ok(x) => x,
            Err(e) => { return Err(e); },
        };
        let group_id = match read_opt_member(pairs, "groupId") {
            Ok(x) => x,
            Err(e) => { return Err(e); },
        };
        Ok(
            ThresholdAlertBody {
                alert_name,
                alert_state,
                cur_value,
                dimensions,
                expression,
                instance_name,
                metric_name,
                metric_project,
                namespace,
                pre_trigger_level,
                rule_id,
                timestamp,
                trigger_level,
                user_id,
                group_id,
            },
        )
    }
}

impl EventContent {
    /// Reads the content of an event from a document.
    pub fn from_json(v: &serde_json::Value) -> (r: Result<EventContent, SchemaDecodeError>)
        ensures
            match r {
                Ok(c) => gives(content_of(json_of(*v)), c@),
                Err(e) => fails_with(content_of(json_of(*v)), e@),
            },
    {
        if !is_object(v) {
            return Err(SchemaDecodeError::new("content", DecodeReason::WrongType));
        }
        let result = match read_text(v, "result") {
            Ok(x) => x,
            Err(e) => { return Err(e); },
        };
        let snapshot_id = match read_text(v, "snapshotId") {
            Ok(x) => x,
            Err(e) => { return Err(e); },
        };
        let snapshot_type = match read_text(v, "snapshotType") {
            Ok(x) => x,
            Err(e) => { return Err(e); },
        };
        let snapshot_name = match read_text(v, "snapshotName") {
            Ok(x) => x,
            Err(e) => { return Err(e); },
        };
        let disk_id = match read_text(v, "diskId") {
            Ok(x) => x,
            Err(e) => { return Err(e); },
        };
        let start_time = match read_text(v, "startTime") {
            Ok(x) => x,
            Err(e) => { return Err(e); },
        };
        let end_time = match read_text(v, "endTime") {
            Ok(x) => x,
            Err(e) => { return Err(e); },
        };
        Ok(EventContent { result, snapshot_id, snapshot_type, snapshot_name, disk_id, start_time, end_time })
    }
}

impl EventAlertBody {
    /// Reads an event from the pairs of a body.
    pub fn from_pairs(pairs: &Vec<(String, String)>) -> (r: Result<EventAlertBody, SchemaDecodeError>)
        ensures
            match r {
                Ok(b) => gives(event_of(pair_texts(pairs@)), b@),
                Err(e) => fails_with(event_of(pair_texts(pairs@)), e@),
            },
    {
        let trace_id = match read_member(pairs, "traceId") {
            Ok(x) => x,
            Err(e) => { return Err(e); },
        };
        let resource_id = match read_member(pairs, "resourceId") {
            Ok(x) => x,
            Err(e) => { return Err(e); },
        };
        let ver = match read_member(pairs, "ver") {
            Ok(x) => x,
            Err(e) => { return Err(e); },
        };
        let product = match read_member(pairs, "product") {
            Ok(x) => x,
            Err(e) => { return Err(e); },
        };
        let instance_name = match read_member(pairs, "instanceName") {
            Ok(x) => x,
            Err(e) => { return Err(e); },
        };
        let level = match read_member(pairs, "level") {
            Ok(x) => EventLevel::from_name(x.as_str()),
            Err(e) => { return Err(e); },
        };
        let user_id = match read_member(pairs, "userId") {
            Ok(x) => x,
            Err(e) => { return Err(e); },
        };
        let content = match read_member(pairs, "content") {
            Ok(text) => match parse_json(text.as_str()) {
                Some(v) => match EventContent::from_json(&v) {
                    Ok(c) => c,
                    Err(e) => { return Err(e); },
                },
                None => { return Err(SchemaDecodeError::new("content", DecodeReason::WrongType)); },
            },
            Err(e) => { return Err(e); },
        };
        let region_id = match read_member(pairs, "regionId") {
            Ok(x) => x,
            Err(e) => { return Err(e); },
        };
        let event_time = match read_member(pairs, "eventTime") {
            Ok(x) => x,
            Err(e) => { return Err(e); },
        };
        let name = match read_member(pairs, "name") {
            Ok(x) => x,
            Err(e) => { return Err(e); },
        };
        let id = match read_member(pairs, "id") {
            Ok(x) => x,
            Err(e) => { return Err(e); },
        };
        let status = match read_member(pairs, "status") {
            Ok(x) => x,
            Err(e) => { return Err(e); },
        };
        Ok(
            EventAlertBody {
                trace_id,
                resource_id,
                ver,
                product,
                instance_name,
                level,
                user_id,
                content,
                region_id,
                event_time,
                name,
                id,
                status,
            },
        )
    }
}

impl AlertBody {
    /// Reads an alert from the pairs of a body: a threshold alert where the
    /// pairs are one, else an event where they are one.
    pub fn from_pairs(pairs: &Vec<(String, String)>) -> (r: Result<AlertBody, SchemaDecodeError>)
        ensures
            match r {
                Ok(b) => gives(alert_of(pair_texts(pairs@)), b@),
                Err(e) => fails_with(alert_of(pair_texts(pairs@)), e@),
            },
    {
        match ThresholdAlertBody::from_pairs(pairs) {
            Ok(t) => Ok(AlertBody::Threshold(t)),
            Err(_) => match EventAlertBody::from_pairs(pairs) {
                Ok(e) => Ok(AlertBody::Event(e)),
                Err(_) => Err(SchemaDecodeError::new("", DecodeReason::NoVariant)),
            },
        }
    }

    /// Reads an alert from the body of a request.
    pub fn decode(body: &str) -> (r: Result<AlertBody, SchemaDecodeError>)
        ensures
            match r {
                Ok(b) => gives(alert_of_text(body@), b@),
                Err(e) => fails_with(alert_of_text(body@), e@),
            },
    {
        match parse_form(body) {
            Some(pairs) => AlertBody::from_pairs(&pairs),
            None => Err(SchemaDecodeError::new("", DecodeReason::Malformed)),
        }
    }
}

} // verus!
