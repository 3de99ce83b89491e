use alert_relay::alert::grafana::message::{AlertBody, AlertState, EvalMatches};
use alert_relay::alert::grafana::transform::{alert_state_to_feishu_template_color, transform};
use alert_relay::common::log_json;
use alert_relay::error::DecodeReason;
use alert_relay::notify::feishu::card::TemplateColor;

const SAMPLE: &str = r#"{
  "dashboardId": 1,
  "evalMatches": [{ "value": 1, "metric": "Count", "tags": {} }],
  "imageUrl": "https://grafana.com/assets/img/blog/mixed_styles.png",
  "message": "Notification Message",
  "orgId": 1,
  "panelId": 2,
  "ruleId": 1,
  "ruleName": "Panel Title alert",
  "ruleUrl": "http://localhost:3000/d/hZ7BuVbWz/test-dashboard",
  "state": "alerting",
  "tags": { "tag name": "tag value" },
  "title": "[Alerting] Panel Title alert"
}"#;

fn minimal(state: &str, matches: &str) -> String {
    format!(
        r#"{{"title":"T","ruleId":1,"ruleName":"R","state":"{}","evalMatches":{},"orgId":1,"dashboardId":2,"panelId":3,"tags":{{}}}}"#,
        state, matches
    )
}

#[test]
fn sample_body_is_read() {
    let alert = AlertBody::decode(SAMPLE).unwrap();
    assert_eq!(
        alert,
        AlertBody {
            title: "[Alerting] Panel Title alert".to_string(),
            rule_id: 1,
            rule_name: "Panel Title alert".to_string(),
            state: AlertState::Alerting,
            eval_matches: vec![EvalMatches {
                value: "1".to_string(),
                metric: "Count".to_string(),
                tags: Some(vec![]),
            }],
            org_id: 1,
            dashboard_id: 1,
            panel_id: 2,
            tags: vec![("tag name".to_string(), "tag value".to_string())],
            rule_url: Some("http://localhost:3000/d/hZ7BuVbWz/test-dashboard".to_string()),
            image_url: Some("https://grafana.com/assets/img/blog/mixed_styles.png".to_string()),
            message: Some("Notification Message".to_string()),
        }
    );
}

#[test]
fn sample_body_becomes_a_notice() {
    let notice = transform(&AlertBody::decode(SAMPLE).unwrap());
    assert_eq!(notice.title, "[Alerting] Panel Title alert");
    assert_eq!(notice.url, "http://localhost:3000/d/hZ7BuVbWz/test-dashboard");
    assert_eq!(
        notice.content,
        "**Panel Title alert**\nMessage: Notification Message\n- Metric: Count, Value: 1\n- State: Alerting"
    );
    assert_eq!(notice.template, TemplateColor::Red);
}

#[test]
fn alerting_is_red_and_ok_is_green() {
    let alerting = AlertBody::decode(&minimal("alerting", "[]")).unwrap();
    assert_eq!(transform(&alerting).template, TemplateColor::Red);
    let ok = AlertBody::decode(&minimal("ok", "[]")).unwrap();
    assert_eq!(ok.state, AlertState::OK);
    assert_eq!(transform(&ok).template, TemplateColor::Green);
}

#[test]
fn every_state_has_its_colour() {
    assert_eq!(alert_state_to_feishu_template_color(&AlertState::NoData), TemplateColor::Red);
    assert_eq!(alert_state_to_feishu_template_color(&AlertState::Paused), TemplateColor::Yellow);
    assert_eq!(alert_state_to_feishu_template_color(&AlertState::Alerting), TemplateColor::Red);
    assert_eq!(alert_state_to_feishu_template_color(&AlertState::OK), TemplateColor::Green);
    assert_eq!(alert_state_to_feishu_template_color(&AlertState::Pending), TemplateColor::Yellow);
    assert_eq!(alert_state_to_feishu_template_color(&AlertState::Unknown), TemplateColor::Grey);
}

#[test]
fn states_are_read_by_name() {
    assert_eq!(AlertState::from_name("no_data"), AlertState::NoData);
    assert_eq!(AlertState::from_name("paused"), AlertState::Paused);
    assert_eq!(AlertState::from_name("alerting"), AlertState::Alerting);
    assert_eq!(AlertState::from_name("ok"), AlertState::OK);
    assert_eq!(AlertState::from_name("pending"), AlertState::Pending);
    assert_eq!(AlertState::from_name("unknown"), AlertState::Unknown);
    assert_eq!(AlertState::from_name("Alerting"), AlertState::Unknown);
    assert_eq!(AlertState::Alerting.to_string(), "Alerting");
    assert_eq!(AlertState::NoData.to_string(), "NoData");
    assert_eq!(AlertState::OK.as_str(), "OK");
}

#[test]
fn state_that_is_not_known_is_grey() {
    let alert = AlertBody::decode(&minimal("exploded", "[]")).unwrap();
    assert_eq!(alert.state, AlertState::Unknown);
    let notice = transform(&alert);
    assert_eq!(notice.template, TemplateColor::Grey);
    assert_eq!(notice.content, "**R**\nMessage: \n\n- State: Unknown");
}

#[test]
fn alert_without_series_has_an_empty_place_for_them() {
    let alert = AlertBody::decode(&minimal("alerting", "[]")).unwrap();
    assert!(alert.eval_matches.is_empty());
    let notice = transform(&alert);
    assert_eq!(notice.title, "T");
    assert_eq!(notice.url, "");
    assert_eq!(notice.content, "**R**\nMessage: \n\n- State: Alerting");
}

#[test]
fn series_are_shown_one_under_the_other() {
    let body = minimal(
        "pending",
        r#"[{"value":1.5,"metric":"cpu"},{"value":-3,"metric":"mem","tags":null},{"value":100.0,"metric":"disk","tags":{"host":"a"}}]"#,
    );
    let alert = AlertBody::decode(&body).unwrap();
    assert_eq!(alert.eval_matches.len(), 3);
    assert_eq!(alert.eval_matches[0].value, "1.5");
    assert_eq!(alert.eval_matches[0].tags, None);
    assert_eq!(alert.eval_matches[1].value, "-3");
    assert_eq!(alert.eval_matches[1].tags, None);
    assert_eq!(alert.eval_matches[2].value, "100");
    assert_eq!(alert.eval_matches[2].tags, Some(vec![("host".to_string(), "a".to_string())]));
    assert_eq!(
        transform(&alert).content,
        "**R**\nMessage: \n- Metric: cpu, Value: 1.5\n- Metric: mem, Value: -3\n- Metric: disk, Value: 100\n- State: Pending"
    );
}

#[test]
fn optional_members_may_be_null() {
    let body = r#"{"title":"T","ruleId":1,"ruleName":"R","state":"ok","evalMatches":[],"orgId":1,"dashboardId":2,"panelId":3,"tags":{},"ruleUrl":null,"imageUrl":null,"message":null,"extra":[1,2]}"#;
    let alert = AlertBody::decode(body).unwrap();
    assert_eq!(alert.rule_url, None);
    assert_eq!(alert.image_url, None);
    assert_eq!(alert.message, None);
}

#[test]
fn missing_member_is_named() {
    let body = r#"{"title":"T","ruleId":1,"state":"ok","evalMatches":[],"orgId":1,"dashboardId":2,"panelId":3,"tags":{}}"#;
    let e = AlertBody::decode(body).unwrap_err();
    assert_eq!(e.field, "ruleName");
    assert_eq!(e.reason, DecodeReason::MissingField);
    assert_eq!(e.message(), "missing field `ruleName`");
    let e = AlertBody::decode("{}").unwrap_err();
    assert_eq!(e.field, "title");
    assert_eq!(e.reason, DecodeReason::MissingField);
}

#[test]
fn member_of_wrong_kind_is_named() {
    let body = r#"{"title":"T","ruleId":"one","ruleName":"R","state":"ok","evalMatches":[],"orgId":1,"dashboardId":2,"panelId":3,"tags":{}}"#;
    let e = AlertBody::decode(body).unwrap_err();
    assert_eq!(e.field, "ruleId");
    assert_eq!(e.reason, DecodeReason::WrongType);
    assert_eq!(e.message(), "invalid type for field `ruleId`");
    let body = r#"{"title":null,"ruleId":1,"ruleName":"R","state":"ok","evalMatches":[],"orgId":1,"dashboardId":2,"panelId":3,"tags":{}}"#;
    assert_eq!(AlertBody::decode(body).unwrap_err().field, "title");
    let body = r#"{"title":"T","ruleId":1,"ruleName":"R","state":"ok","evalMatches":[],"orgId":1,"dashboardId":2,"panelId":3,"tags":{"a":1}}"#;
    let e = AlertBody::decode(body).unwrap_err();
    assert_eq!(e.field, "tags");
    assert_eq!(e.reason, DecodeReason::WrongType);
    let body = r#"{"title":"T","ruleId":1,"ruleName":"R","state":"ok","evalMatches":[],"orgId":1,"dashboardId":2,"panelId":3,"tags":{},"message":5}"#;
    assert_eq!(AlertBody::decode(body).unwrap_err().field, "message");
}

#[test]
fn numbers_must_be_whole_and_in_range() {
    let body = r#"{"title":"T","ruleId":1.0,"ruleName":"R","state":"ok","evalMatches":[],"orgId":1,"dashboardId":2,"panelId":3,"tags":{}}"#;
    assert_eq!(AlertBody::decode(body).unwrap_err().field, "ruleId");
    let body = r#"{"title":"T","ruleId":1,"ruleName":"R","state":"ok","evalMatches":[],"orgId":2147483648,"dashboardId":2,"panelId":3,"tags":{}}"#;
    let e = AlertBody::decode(body).unwrap_err();
    assert_eq!(e.field, "orgId");
    assert_eq!(e.reason, DecodeReason::WrongType);
    let body = r#"{"title":"T","ruleId":-2147483648,"ruleName":"R","state":"ok","evalMatches":[],"orgId":2147483647,"dashboardId":2,"panelId":3,"tags":{}}"#;
    let alert = AlertBody::decode(body).unwrap();
    assert_eq!(alert.rule_id, i32::MIN);
    assert_eq!(alert.org_id, i32::MAX);
}

#[test]
fn series_must_be_well_formed() {
    let e = AlertBody::decode(&minimal("ok", r#"[{"metric":"m"}]"#)).unwrap_err();
    assert_eq!(e.field, "value");
    assert_eq!(e.reason, DecodeReason::MissingField);
    let e = AlertBody::decode(&minimal("ok", r#"[{"value":"1","metric":"m"}]"#)).unwrap_err();
    assert_eq!(e.field, "value");
    assert_eq!(e.reason, DecodeReason::WrongType);
    let e = AlertBody::decode(&minimal("ok", r#"[{"value":1,"metric":"m"},7]"#)).unwrap_err();
    assert_eq!(e.field, "evalMatches");
    assert_eq!(e.reason, DecodeReason::WrongType);
    let e = AlertBody::decode(&minimal("ok", r#"{"value":1}"#)).unwrap_err();
    assert_eq!(e.field, "evalMatches");
    assert_eq!(e.reason, DecodeReason::WrongType);
}

#[test]
fn body_that_is_no_document_is_malformed() {
    let e = AlertBody::decode("{not json").unwrap_err();
    assert_eq!(e.field, "");
    assert_eq!(e.reason, DecodeReason::Malformed);
    assert_eq!(e.message(), "malformed body");
    let e = AlertBody::decode("").unwrap_err();
    assert_eq!(e.reason, DecodeReason::Malformed);
    let e = AlertBody::decode("[1,2]").unwrap_err();
    assert_eq!(e.field, "");
    assert_eq!(e.reason, DecodeReason::WrongType);
}

#[test]
fn body_is_read_from_bytes() {
    let alert = log_json(SAMPLE.as_bytes()).unwrap();
    assert_eq!(alert.rule_name, "Panel Title alert");
    let e = log_json(&[0x7b, 0xff, 0x7d]).unwrap_err();
    assert_eq!(e.reason, DecodeReason::Malformed);
}
