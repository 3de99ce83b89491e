use alert_relay::alert::alicloud_monitor::message::{
    AlertBody, EventAlertBody, EventContent, EventLevel, ThresholdAlertBody, ThresholdAlertState,
    ThresholdTriggerLevel,
};
use alert_relay::alert::alicloud_monitor::transform::{
    event_level_to_feishu_template_color, threshold_alert_state_to_feishu_template_color, transform,
    trigger_level_to_feishu_template_color, CONSOLE_URL,
};
use alert_relay::common::log_form;
use alert_relay::error::DecodeReason;
use alert_relay::notify::feishu::card::TemplateColor;

const THRESHOLD: &str = "alertName=cpu_high&alertState=ALERT&curValue=97.5&dimensions=%257BinstanceId%253Di-abc%257D&expression=%2524Average%253E90&instanceName=web-1&metricName=cpu%255Ftotal&metricProject=acs_ecs&namespace=acs_ecs&preTriggerLevel=null&ruleId=rule-1&timestamp=1508136760&triggerLevel=CRITICAL&userId=12345";

const CONTENT: &str = r#"{"result":"accomplished","snapshotId":"s-1","snapshotType":"timer","snapshotName":"auto","diskId":"d-1","startTime":"2021-02-23T17:05:13Z","endTime":"2021-02-23T17:11:13Z"}"#;

fn event_pairs(level: &str, content: &str) -> Vec<(String, String)> {
    let pairs = [
        ("traceId", "b0eaeed6"),
        ("resourceId", "acs:ecs:cn-hangzhou:1:snapshot/s-1"),
        ("ver", "1.0"),
        ("product", "ECS"),
        ("instanceName", "s-1"),
        ("level", level),
        ("userId", "1453"),
        ("content", content),
        ("regionId", "cn-hangzhou"),
        ("eventTime", "20210224T011113.709+0800"),
        ("name", "Snapshot:CreateSnapshotCompleted"),
        ("id", "103E55FC"),
        ("status", "Normal"),
    ];
    pairs.iter().map(|(k, v)| (k.to_string(), v.to_string())).collect()
}

fn threshold() -> ThresholdAlertBody {
    ThresholdAlertBody {
        alert_name: "cpu_high".to_string(),
        alert_state: ThresholdAlertState::Alert,
        cur_value: "97.5".to_string(),
        dimensions: "{instanceId=i-abc}".to_string(),
        expression: "$Average>90".to_string(),
        instance_name: "web-1".to_string(),
        metric_name: "cpu_total".to_string(),
        metric_project: "acs_ecs".to_string(),
        namespace: "acs_ecs".to_string(),
        pre_trigger_level: ThresholdTriggerLevel::Unknown,
        rule_id: "rule-1".to_string(),
        timestamp: "1508136760".to_string(),
        trigger_level: ThresholdTriggerLevel::Critical,
        user_id: "12345".to_string(),
        group_id: None,
    }
}

#[test]
fn threshold_body_is_read_with_one_layer_of_encoding_undone() {
    assert_eq!(AlertBody::decode(THRESHOLD), Ok(AlertBody::Threshold(threshold())));
}

#[test]
fn threshold_alert_becomes_a_notice() {
    let notice = transform(&AlertBody::Threshold(threshold()));
    assert_eq!(notice.title, "web-1(cpu_high) cpu_total ALERT\u{ff08}97.5\u{ff09}");
    assert_eq!(
        notice.content,
        "- Instance: web-1\n- Rule ID: rule-1\n- Resource: {instanceId=i-abc}\n- Status: ALERT\n- Metric: cpu_total, Expression: $Average>90, Value: 97.5"
    );
    assert_eq!(notice.url, "https://cloudmonitor.console.aliyun.com/#/alarmservice/rules");
    assert_eq!(notice.url, CONSOLE_URL);
    assert_eq!(notice.template, TemplateColor::Red);
}

#[test]
fn instance_without_a_name_is_shown_as_instance() {
    let mut alert = threshold();
    alert.instance_name = "null".to_string();
    let notice = transform(&AlertBody::Threshold(alert));
    assert_eq!(notice.title, "Instance(cpu_high) cpu_total ALERT\u{ff08}97.5\u{ff09}");
    let mut alert = threshold();
    alert.instance_name = "Null".to_string();
    let notice = transform(&AlertBody::Threshold(alert));
    assert_eq!(notice.title, "Null(cpu_high) cpu_total ALERT\u{ff08}97.5\u{ff09}");
}

#[test]
fn group_of_the_alert_stands_in_the_link() {
    let body = format!("{}&groupId=7788", THRESHOLD);
    let alert = AlertBody::decode(&body).unwrap();
    let notice = transform(&alert);
    assert_eq!(notice.url, "https://cloudmonitor.console.aliyun.com/#/alarmservice/rules?groupId=7788");
}

#[test]
fn level_decides_the_colour_of_a_threshold_alert() {
    let mut alert = threshold();
    alert.trigger_level = ThresholdTriggerLevel::Warning;
    assert_eq!(transform(&AlertBody::Threshold(alert)).template, TemplateColor::Yellow);
    let mut alert = threshold();
    alert.trigger_level = ThresholdTriggerLevel::Info;
    assert_eq!(transform(&AlertBody::Threshold(alert)).template, TemplateColor::Orange);
    let mut alert = threshold();
    alert.trigger_level = ThresholdTriggerLevel::Unknown;
    assert_eq!(transform(&AlertBody::Threshold(alert)).template, TemplateColor::Grey);
}

#[test]
fn colour_tables_of_the_monitor() {
    assert_eq!(threshold_alert_state_to_feishu_template_color(&ThresholdAlertState::OK), TemplateColor::Green);
    assert_eq!(threshold_alert_state_to_feishu_template_color(&ThresholdAlertState::Alert), TemplateColor::Red);
    assert_eq!(
        threshold_alert_state_to_feishu_template_color(&ThresholdAlertState::InsufficientData),
        TemplateColor::Grey
    );
    assert_eq!(event_level_to_feishu_template_color(&EventLevel::Critical), TemplateColor::Red);
    assert_eq!(event_level_to_feishu_template_color(&EventLevel::Warning), TemplateColor::Yellow);
    assert_eq!(event_level_to_feishu_template_color(&EventLevel::Info), TemplateColor::Orange);
    assert_eq!(event_level_to_feishu_template_color(&EventLevel::Unknown), TemplateColor::Grey);
    assert_eq!(trigger_level_to_feishu_template_color(&ThresholdTriggerLevel::Critical), TemplateColor::Red);
    assert_eq!(trigger_level_to_feishu_template_color(&ThresholdTriggerLevel::Warning), TemplateColor::Yellow);
    assert_eq!(trigger_level_to_feishu_template_color(&ThresholdTriggerLevel::Info), TemplateColor::Orange);
    assert_eq!(trigger_level_to_feishu_template_color(&ThresholdTriggerLevel::Unknown), TemplateColor::Grey);
}

#[test]
fn names_of_states_and_levels() {
    assert_eq!(ThresholdAlertState::from_name("OK"), Some(ThresholdAlertState::OK));
    assert_eq!(ThresholdAlertState::from_name("ALERT"), Some(ThresholdAlertState::Alert));
    assert_eq!(ThresholdAlertState::from_name("INSUFFICIENTDATA"), Some(ThresholdAlertState::InsufficientData));
    assert_eq!(ThresholdAlertState::from_name("alert"), None);
    assert_eq!(ThresholdAlertState::InsufficientData.as_str(), "INSUFFICIENTDATA");
    assert_eq!(ThresholdTriggerLevel::from_name("CRITICAL"), ThresholdTriggerLevel::Critical);
    assert_eq!(ThresholdTriggerLevel::from_name("WARNING"), ThresholdTriggerLevel::Warning);
    assert_eq!(ThresholdTriggerLevel::from_name("INFO"), ThresholdTriggerLevel::Info);
    assert_eq!(ThresholdTriggerLevel::from_name("null"), ThresholdTriggerLevel::Unknown);
    assert_eq!(ThresholdTriggerLevel::from_name("whatever"), ThresholdTriggerLevel::Unknown);
    assert_eq!(ThresholdTriggerLevel::Unknown.to_string(), "UNKNOWN");
    assert_eq!(ThresholdTriggerLevel::Critical.to_string(), "CRITICAL");
    assert_eq!(EventLevel::from_name("Critical"), EventLevel::Critical);
    assert_eq!(EventLevel::from_name("Warning"), EventLevel::Warning);
    assert_eq!(EventLevel::from_name("Info"), EventLevel::Info);
    assert_eq!(EventLevel::from_name("INFO"), EventLevel::Unknown);
    assert_eq!(EventLevel::Warning.as_str(), "Warning");
}

#[test]
fn state_of_a_threshold_alert_must_be_known() {
    let body = THRESHOLD.replace("alertState=ALERT", "alertState=BROKEN");
    let pairs: Vec<(String, String)> = serde_urlencoded::from_str(&body).unwrap();
    let e = ThresholdAlertBody::from_pairs(&pairs).unwrap_err();
    assert_eq!(e.field, "alertState");
    assert_eq!(e.reason, DecodeReason::WrongType);
}

#[test]
fn threshold_member_is_missing_or_doubled() {
    let body = THRESHOLD.replace("curValue=97.5&", "");
    let pairs: Vec<(String, String)> = serde_urlencoded::from_str(&body).unwrap();
    let e = ThresholdAlertBody::from_pairs(&pairs).unwrap_err();
    assert_eq!(e.field, "curValue");
    assert_eq!(e.reason, DecodeReason::MissingField);
    let body = format!("{}&ruleId=rule-2", THRESHOLD);
    let pairs: Vec<(String, String)> = serde_urlencoded::from_str(&body).unwrap();
    let e = ThresholdAlertBody::from_pairs(&pairs).unwrap_err();
    assert_eq!(e.field, "ruleId");
    assert_eq!(e.reason, DecodeReason::DuplicateField);
    assert_eq!(e.message(), "duplicate field `ruleId`");
}

#[test]
fn event_is_read_where_the_body_is_no_threshold_alert() {
    let pairs = event_pairs("Info", CONTENT);
    let alert = AlertBody::from_pairs(&pairs).unwrap();
    assert_eq!(
        alert,
        AlertBody::Event(EventAlertBody {
            trace_id: "b0eaeed6".to_string(),
            resource_id: "acs:ecs:cn-hangzhou:1:snapshot/s-1".to_string(),
            ver: "1.0".to_string(),
            product: "ECS".to_string(),
            instance_name: "s-1".to_string(),
            level: EventLevel::Info,
            user_id: "1453".to_string(),
            content: EventContent {
                result: "accomplished".to_string(),
                snapshot_id: "s-1".to_string(),
                snapshot_type: "timer".to_string(),
                snapshot_name: "auto".to_string(),
                disk_id: "d-1".to_string(),
                start_time: "2021-02-23T17:05:13Z".to_string(),
                end_time: "2021-02-23T17:11:13Z".to_string(),
            },
            region_id: "cn-hangzhou".to_string(),
            event_time: "20210224T011113.709+0800".to_string(),
            name: "Snapshot:CreateSnapshotCompleted".to_string(),
            id: "103E55FC".to_string(),
            status: "Normal".to_string(),
        })
    );
}

#[test]
fn event_is_read_from_an_encoded_body() {
    let body = serde_urlencoded::to_string(event_pairs("Warning", CONTENT)).unwrap();
    let alert = AlertBody::decode(&body).unwrap();
    let notice = transform(&alert);
    assert_eq!(notice.title, "Snapshot:CreateSnapshotCompleted");
    assert_eq!(notice.content, "- Product: ECS\n- Instance: s-1\n- Level: Warning");
    assert_eq!(notice.url, "");
    assert_eq!(notice.template, TemplateColor::Yellow);
    assert_eq!(log_form(body.as_bytes()), Ok(alert));
}

#[test]
fn event_of_a_level_that_is_not_known_is_grey() {
    let alert = AlertBody::from_pairs(&event_pairs("INFO", CONTENT)).unwrap();
    let notice = transform(&alert);
    assert_eq!(notice.content, "- Product: ECS\n- Instance: s-1\n- Level: Unknown");
    assert_eq!(notice.template, TemplateColor::Grey);
}

#[test]
fn content_of_an_event_must_be_an_object_of_strings() {
    let e = EventAlertBody::from_pairs(&event_pairs("Info", "not json")).unwrap_err();
    assert_eq!(e.field, "content");
    assert_eq!(e.reason, DecodeReason::WrongType);
    let e = EventAlertBody::from_pairs(&event_pairs("Info", "[]")).unwrap_err();
    assert_eq!(e.field, "content");
    assert_eq!(e.reason, DecodeReason::WrongType);
    let e = EventAlertBody::from_pairs(&event_pairs("Info", r#"{"result":"x"}"#)).unwrap_err();
    assert_eq!(e.field, "snapshotId");
    assert_eq!(e.reason, DecodeReason::MissingField);
    let e = EventContent::from_json(&serde_json::from_str(r#"{"result":1}"#).unwrap()).unwrap_err();
    assert_eq!(e.field, "result");
    assert_eq!(e.reason, DecodeReason::WrongType);
}

#[test]
fn body_of_neither_kind_matches_no_variant() {
    let e = AlertBody::decode("alertName=x&traceId=y").unwrap_err();
    assert_eq!(e.field, "");
    assert_eq!(e.reason, DecodeReason::NoVariant);
    assert_eq!(e.message(), "data did not match any variant of the alert body");
    let e = AlertBody::decode("").unwrap_err();
    assert_eq!(e.reason, DecodeReason::NoVariant);
    let e = log_form(b"alertName=x").unwrap_err();
    assert_eq!(e.message, "data did not match any variant of the alert body");
}

#[test]
fn bytes_that_are_no_text_are_malformed() {
    let e = log_form(&[0x61, 0x3d, 0xff, 0xfe]).unwrap_err();
    assert_eq!(e.message, "malformed body");
}

#[test]
fn threshold_body_is_read_from_bytes() {
    assert_eq!(log_form(THRESHOLD.as_bytes()), Ok(AlertBody::Threshold(threshold())));
}
