//! From an alert of the cloud monitor to the notice that is sent for it.

use vstd::prelude::*;
use crate::alert::alicloud_monitor::message::{
    AlertBody, AlertView, EventAlertBody, EventLevel, EventView, ThresholdAlertBody, ThresholdAlertState,
    ThresholdTriggerLevel, ThresholdView,
};
use crate::notify::feishu::card::TemplateColor;
use crate::notify::feishu::post::{Notice, NoticeView};
use crate::text::same;

verus! {

/// The colour that shows whether a rule fires: green where it does not, red
/// where it does, grey where the data do not tell.
pub open spec fn alert_state_color(state: ThresholdAlertState) -> TemplateColor {
    match state {
        ThresholdAlertState::OK => TemplateColor::Green,
        ThresholdAlertState::Alert => TemplateColor::Red,
        ThresholdAlertState::InsufficientData => TemplateColor::Grey,
    }
}

/// The colour that shows how grave an event is; grey where that is not known.
pub open spec fn event_level_color(level: EventLevel) -> TemplateColor {
    match level {
        EventLevel::Critical => TemplateColor::Red,
        EventLevel::Warning => TemplateColor::Yellow,
        EventLevel::Info => TemplateColor::Orange,
        EventLevel::Unknown => TemplateColor::Grey,
    }
}

/// The colour that shows how grave a threshold alert is; grey where that is
/// not known.
pub open spec fn trigger_level_color(level: ThresholdTriggerLevel) -> TemplateColor {
    match level {
        ThresholdTriggerLevel::Critical => TemplateColor::Red,
        ThresholdTriggerLevel::Warning => TemplateColor::Yellow,
        ThresholdTriggerLevel::Info => TemplateColor::Orange,
        ThresholdTriggerLevel::Unknown => TemplateColor::Grey,
    }
}

/// The colour that shows whether a rule fires.
pub fn threshold_alert_state_to_feishu_template_color(state: &ThresholdAlertState) -> (r: TemplateColor)
    ensures
        r == alert_state_color(*state),
{
    match state {
        ThresholdAlertState::OK => TemplateColor::Green,
        ThresholdAlertState::Alert => TemplateColor::Red,
        ThresholdAlertState::InsufficientData => TemplateColor::Grey,
    }
}

/// The colour that shows how grave an event is.
pub fn event_level_to_feishu_template_color(level: &EventLevel) -> (r: TemplateColor)
    ensures
        r == event_level_color(*level),
{
    match level {
        EventLevel::Critical => TemplateColor::Red,
        EventLevel::Warning => TemplateColor::Yellow,
        EventLevel::Info => TemplateColor::Orange,
        EventLevel::Unknown => TemplateColor::Grey,
    }
}

/// The colour that shows how grave a threshold alert is.
pub fn trigger_level_to_feishu_template_color(level: &ThresholdTriggerLevel) -> (r: TemplateColor)
    ensures
        r == trigger_level_color(*level),
{
    match level {
        ThresholdTriggerLevel::Critical => TemplateColor::Red,
        ThresholdTriggerLevel::Warning => TemplateColor::Yellow,
        ThresholdTriggerLevel::Info => TemplateColor::Orange,
        ThresholdTriggerLevel::Unknown => TemplateColor::Grey,
    }
}

/// The address of the monitor's list of rules.
pub const CONSOLE_URL: &'static str = "https://cloudmonitor.console.aliyun.com/#/alarmservice/rules";

/// The name under which an instance is shown in a title: the word `Instance`
/// where the monitor sent the text `null` for the name.
pub open spec fn instance_shown(name: Seq<char>) -> Seq<char> {
    if name == "null"@ {
        "Instance"@
    } else {
        name
    }
}

/// The title of the notice for a threshold alert: the instance, the rule in
/// brackets, the metric, the state, and the value in full-width brackets.
pub open spec fn threshold_title(t: ThresholdView) -> Seq<char> {
    instance_shown(t.instance_name) + "("@ + t.alert_name + ") "@ + t.metric_name + " "@ + t.alert_state.name()
        + "\u{ff08}"@ + t.cur_value + "\u{ff09}"@
}

/// The text of the notice for a threshold alert, a line each for the
/// instance, the rule's id, the resource, the state, and the metric with the
/// rule's expression and the value.
pub open spec fn threshold_content(t: ThresholdView) -> Seq<char> {
    "- Instance: "@ + t.instance_name + "\n- Rule ID: "@ + t.rule_id + "\n- Resource: "@ + t.dimensions
        + "\n- Status: "@ + t.alert_state.name() + "\n- Metric: "@ + t.metric_name + ", Expression: "@
        + t.expression + ", Value: "@ + t.cur_value
}

/// The link of the notice for a threshold alert: the monitor's list of
/// rules, of the alert's group where it has one.
pub open spec fn threshold_url(t: ThresholdView) -> Seq<char> {
    match t.group_id {
        Some(g) => CONSOLE_URL@ + "?groupId="@ + g,
        None => CONSOLE_URL@,
    }
}

/// The notice for a threshold alert, in the colour of its level.
pub open spec fn threshold_notice(t: ThresholdView) -> NoticeView {
    NoticeView {
        title: threshold_title(t),
        url: threshold_url(t),
        content: threshold_content(t),
        template: trigger_level_color(t.trigger_level),
    }
}

/// The text of the notice for an event, a line each for the product, the
/// instance and the level.
pub open spec fn event_content(e: EventView) -> Seq<char> {
    "- Product: "@ + e.product + "\n- Instance: "@ + e.instance_name + "\n- Level: "@ + e.level.name()
}

/// The notice for an event: the event's name as the title, in the colour of
/// its level, without a link.
pub open spec fn event_notice(e: EventView) -> NoticeView {
    NoticeView {
        title: e.name,
        url: Seq::empty(),
        content: event_content(e),
        template: event_level_color(e.level),
    }
}

/// The notice for an alert of either kind.
pub open spec fn alert_notice(a: AlertView) -> NoticeView {
    match a {
        AlertView::Threshold(t) => threshold_notice(t),
        AlertView::Event(e) => event_notice(e),
    }
}

/// An instance without a name is shown as `Instance`: where the monitor sent
/// the text `null` for the instance's name, the title begins with the word
/// `Instance`, and `null` does not stand in its place.
pub proof fn lemma_nameless_instance(t: ThresholdView)
    requires
        t.instance_name == "null"@,
    ensures
        threshold_notice(t).title == "Instance"@ + "("@ + t.alert_name + ") "@ + t.metric_name + " "@
            + t.alert_state.name() + "\u{ff08}"@ + t.cur_value + "\u{ff09}"@,
        threshold_notice(t).title.subrange(0, 8) == "Instance"@,
{
    reveal_strlit("Instance");
    assert(threshold_notice(t).title.subrange(0, 8) =~= "Instance"@);
}

/// Every alert has one colour, and an alert whose level is not known is grey.
pub proof fn lemma_unknown_is_grey(a: AlertView)
    ensures
        a matches AlertView::Threshold(t) && t.trigger_level == ThresholdTriggerLevel::Unknown ==> alert_notice(
            a,
        ).template == TemplateColor::Grey,
        a matches AlertView::Event(e) && e.level == EventLevel::Unknown ==> alert_notice(a).template
            == TemplateColor::Grey,
{
}

/// Turns a threshold alert into the notice that is sent for it.
pub fn transform_threshold(t: &ThresholdAlertBody) -> (r: Notice)
    ensures
        r@ == threshold_notice(t@),
{
    let mut title = if same(t.instance_name.as_str(), "null") {
        "Instance".to_owned()
    } else {
        t.instance_name.clone()
    };
    title.append("(");
    title.append(t.alert_name.as_str());
    title.append(") ");
    title.append(t.metric_name.as_str());
    title.append(" ");
    title.append(t.alert_state.as_str());
    title.append("\u{ff08}");
    title.append(t.cur_value.as_str());
    title.append("\u{ff09}");
    let mut content = "- Instance: ".to_owned();
    content.append(t.instance_name.as_str());
    content.append("\n- Rule ID: ");
    content.append(t.rule_id.as_str());
    content.append("\n- Resource: ");
    content.append(t.dimensions.as_str());
    content.append("\n- Status: ");
    content.append(t.alert_state.as_str());
    content.append("\n- Metric: ");
    content.append(t.metric_name.as_str());
    content.append(", Expression: ");
    content.append(t.expression.as_str());
    content.append(", Value: ");
    content.append(t.cur_value.as_str());
    let mut url = CONSOLE_URL.to_owned();
    match &t.group_id {
        Some(g) => {
            url.append("?groupId=");
            url.append(g.as_str());
        },
        None => {},
    }
    Notice { title, url, content, template: trigger_level_to_feishu_template_color(&t.trigger_level) }
}

/// Turns an event into the notice that is sent for it.
pub fn transform_event(e: &EventAlertBody) -> (r: Notice)
    ensures
        r@ == event_notice(e@),
{
    let mut content = "- Product: ".to_owned();
    content.append(e.product.as_str());
    content.append("\n- Instance: ");
    content.append(e.instance_name.as_str());
    content.append("\n- Level: ");
    content.append(e.level.as_str());
    Notice {
        title: e.name.clone(),
        url: String::new(),
        content,
        template: event_level_to_feishu_template_color(&e.level),
    }
}

/// Turns an alert of the cloud monitor into the notice that is sent for it.
pub fn transform(body: &AlertBody) -> (r: Notice)
    ensures
        r@ == alert_notice(body@),
{
    match body {
        AlertBody::Threshold(t) => transform_threshold(t),
        AlertBody::Event(e) => transform_event(e),
    }
}

} // verus!
