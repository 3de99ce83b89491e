//! From an alert of the dashboard to the notice that is sent for it.

use vstd::prelude::*;
use crate::alert::grafana::message::{
    eval_match_views, AlertBody, AlertState, AlertView, EvalMatchView, EvalMatches,
};
use crate::notify::feishu::card::TemplateColor;
use crate::notify::feishu::post::{Notice, NoticeView};
use crate::schema::opt_text;
use crate::text::{join, join_lines, texts};

verus! {

/// The colour that shows a state: red for a rule that fires or has no data,
/// green for one that is well, yellow for one that waits or rests, grey for a
/// state that is not known.
pub open spec fn state_color(state: AlertState) -> TemplateColor {
    match state {
        AlertState::NoData => TemplateColor::Red,
        AlertState::Paused => TemplateColor::Yellow,
        AlertState::Alerting => TemplateColor::Red,
        AlertState::OK => TemplateColor::Green,
        AlertState::Pending => TemplateColor::Yellow,
        AlertState::Unknown => TemplateColor::Grey,
    }
}

/// The colour that shows a state.
pub fn alert_state_to_feishu_template_color(state: &AlertState) -> (r: TemplateColor)
    ensures
        r == state_color(*state),
{
    match state {
        AlertState::NoData => TemplateColor::Red,
        AlertState::Paused => TemplateColor::Yellow,
        AlertState::Alerting => TemplateColor::Red,
        AlertState::OK => TemplateColor::Green,
        AlertState::Pending => TemplateColor::Yellow,
        AlertState::Unknown => TemplateColor::Grey,
    }
}

/// The text of an optional text: empty where there is none.
pub open spec fn or_empty(s: Option<Seq<char>>) -> Seq<char> {
    match s {
        Some(t) => t,
        None => Seq::empty(),
    }
}

/// The line that shows one series.
pub open spec fn match_line(m: EvalMatchView) -> Seq<char> {
    "- Metric: "@ + m.metric + ", Value: "@ + m.value
}

/// The lines of the series, one under the other; empty where there is no
/// series.
pub open spec fn match_lines(ms: Seq<EvalMatchView>) -> Seq<char> {
    join(ms.map_values(|m: EvalMatchView| match_line(m)), '\n')
}

/// The text of the notice: the rule's name in bold, the message, the lines of
/// the series and the state, each on a line of its own.
pub open spec fn alert_content(a: AlertView) -> Seq<char> {
    "**"@ + a.rule_name + "**\nMessage: "@ + or_empty(a.message) + "\n"@ + match_lines(a.eval_matches)
        + "\n- State: "@ + a.state.shown()
}

/// The notice for an alert: the alert's title as it is, the text of
/// `alert_content`, the colour of the state, and the rule's link, empty where
/// the alert has none.
pub open spec fn alert_notice(a: AlertView) -> NoticeView {
    NoticeView {
        title: a.title,
        url: or_empty(a.rule_url),
        content: alert_content(a),
        template: state_color(a.state),
    }
}

/// An alert whose state the dashboard wrote as `alerting` is red, and one
/// whose state it wrote as `ok` is green.
pub proof fn lemma_state_colors(a: AlertView)
    ensures
        a.state == AlertState::named("alerting"@) ==> alert_notice(a).template == TemplateColor::Red,
        a.state == AlertState::named("ok"@) ==> alert_notice(a).template == TemplateColor::Green,
{
    reveal_strlit("alerting");
    reveal_strlit("ok");
    reveal_strlit("no_data");
    reveal_strlit("paused");
    assert("alerting"@.len() == 8);
    assert("ok"@.len() == 2);
    assert("no_data"@.len() == 7);
    assert("paused"@.len() == 6);
}

/// An alert without series has an empty place for them: its text is the
/// rule's name, the message, an empty line and the state.
pub proof fn lemma_no_series(a: AlertView)
    requires
        a.eval_matches.len() == 0,
    ensures
        match_lines(a.eval_matches) == Seq::<char>::empty(),
        alert_notice(a).content == "**"@ + a.rule_name + "**\nMessage: "@ + or_empty(a.message) + "\n"@
            + "\n- State: "@ + a.state.shown(),
{
    assert(match_lines(a.eval_matches) =~= Seq::<char>::empty());
    assert(alert_notice(a).content =~= "**"@ + a.rule_name + "**\nMessage: "@ + or_empty(a.message) + "\n"@
        + "\n- State: "@ + a.state.shown());
}

/// The line that shows one series.
fn render_match(m: &EvalMatches) -> (r: String)
    ensures
        r@ == match_line(m@),
{
    let mut out = "- Metric: ".to_owned();
    out.append(m.metric.as_str());
    out.append(", Value: ");
    out.append(m.value.as_str());
    out
}

/// The lines of the series, one under the other.
fn render_matches(ms: &Vec<EvalMatches>) -> (r: String)
    ensures
        r@ == match_lines(eval_match_views(ms@)),
{
    let ghost views = eval_match_views(ms@);
    let ghost wanted = views.map_values(|m: EvalMatchView| match_line(m));
    let mut lines: Vec<String> = Vec::new();
    let mut i: usize = 0;
    while i < ms.len()
        invariant
            i <= ms.len(),
            views == eval_match_views(ms@),
            wanted == views.map_values(|m: EvalMatchView| match_line(m)),
            texts(lines@) =~= wanted.take(i as int),
        decreases ms.len() - i,
    {
        let line = render_match(&ms[i]);
        let ghost before = lines@;
        lines.push(line);
        proof {
            assert(texts(lines@) =~= texts(before).push(line@));
            assert(wanted[i as int] == match_line(views[i as int]));
            assert(wanted.take(i + 1) =~= wanted.take(i as int).push(wanted[i as int]));
        }
        i += 1;
    }
    proof {
        assert(wanted.take(i as int) =~= wanted);
    }
    join_lines(&lines)
}

/// The text of an optional string.
fn text_or_empty(s: &Option<String>) -> (r: String)
    ensures
        r@ == or_empty(opt_text(*s)),
{
    match s {
        Some(t) => t.clone(),
        None => String::new(),
    }
}

/// Turns an alert of the dashboard into the notice that is sent for it. An
/// alert without series, without a message or without a link is turned like
/// any other: what is absent shows as an empty text.
pub fn transform(body: &AlertBody) -> (r: Notice)
    ensures
        r@ == alert_notice(body@),
{
    let mut content = "**".to_owned();
    content.append(body.rule_name.as_str());
    content.append("**\nMessage: ");
    content.append(text_or_empty(&body.message).as_str());
    content.append("\n");
    content.append(render_matches(&body.eval_matches).as_str());
    content.append("\n- State: ");
    content.append(body.state.as_str());
    Notice {
        title: body.title.clone(),
        url: text_or_empty(&body.rule_url),
        content,
        template: alert_state_to_feishu_template_color(&body.state),
    }
}

} // verus!
