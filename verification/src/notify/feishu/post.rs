//! From a notice to the card that is sent for it.

use vstd::prelude::*;
use crate::common::AlertStatus;
use crate::error::FeishuFailedRequestError;
use crate::json::{
    as_list, as_text, documents, field, json_of, json_parsed, json_text, jsons_of, member, no_fields, parse_json,
    write_json, Document, Json,
};
use crate::schema::opt_text;
use crate::notify::feishu::api_define::{answer_of, APIResponse, AnswerView};
use crate::text::{decimal, decimal_text, same};
use crate::notify::feishu::card::{
    ActionElement, ActionLayout, Card, CardButton, CardButtonType, CardConfig, CardHeader, CardText, CardTitle,
    CardTitlePlainText, Message, Module, NoteElement, TemplateColor, TextElement,
};

verus! {

/// The document of a plain text.
pub open spec fn plain_text(content: Seq<char>) -> Json {
    Json::Object(no_fields().insert("tag"@, Json::Text("plain_text"@)).insert("content"@, Json::Text(content)))
}

/// The document of a text with markup.
pub open spec fn lark_md(content: Seq<char>) -> Json {
    Json::Object(no_fields().insert("tag"@, Json::Text("lark_md"@)).insert("content"@, Json::Text(content)))
}

/// The block that shows the notice's text.
pub open spec fn text_block(content: Seq<char>) -> Json {
    Json::Object(no_fields().insert("tag"@, Json::Text("div"@)).insert("text"@, lark_md(content)))
}

/// The line between the text and what follows it.
pub open spec fn divider_block() -> Json {
    Json::Object(no_fields().insert("tag"@, Json::Text("hr"@)))
}

/// The button that opens `url`.
pub open spec fn view_button(url: Seq<char>) -> Json {
    Json::Object(
        no_fields().insert("tag"@, Json::Text("button"@)).insert("text"@, lark_md("View"@)).insert(
            "url"@,
            Json::Text(url),
        ).insert("type"@, Json::Text("primary"@)),
    )
}

/// The block that holds the button to `url`.
pub open spec fn action_block(url: Seq<char>) -> Json {
    Json::Object(
        no_fields().insert("tag"@, Json::Text("action"@)).insert("actions"@, Json::List(seq![view_button(url)])).insert(
            "layout"@,
            Json::Text("flow"@),
        ),
    )
}

/// The closing note, the same on every card.
pub open spec fn note_block() -> Json {
    Json::Object(
        no_fields().insert("tag"@, Json::Text("note"@)).insert(
            "elements"@,
            Json::List(seq![plain_text("Note: You may need related permissions to open the buttons above."@)]),
        ),
    )
}

/// The blocks of a card, in order: the text, a line, the button to `url`
/// unless `url` is empty, and the note.
pub open spec fn card_blocks(url: Seq<char>, content: Seq<char>) -> Seq<Json> {
    if url.len() == 0 {
        seq![text_block(content), divider_block(), note_block()]
    } else {
        seq![text_block(content), divider_block(), action_block(url), note_block()]
    }
}

/// The header colour of a card made without a colour.
pub open spec fn color_or_blue(template: Option<TemplateColor>) -> TemplateColor {
    match template {
        Some(c) => c,
        None => TemplateColor::Blue,
    }
}

/// The message that `notify` makes: an interactive card that may be
/// forwarded, with `title` as its header in the colour `color`, and the
/// blocks of `card_blocks`.
pub open spec fn card_document(title: Seq<char>, url: Seq<char>, content: Seq<char>, color: TemplateColor) -> Json {
    let config = Json::Object(
        no_fields().insert("enable_forward"@, Json::Bool(true)).insert("update_multi"@, Json::Bool(false)),
    );
    let header = Json::Object(
        no_fields().insert("title"@, plain_text(title)).insert("template"@, Json::Text(color.name())),
    );
    let card = Json::Object(
        no_fields().insert("config"@, config).insert("header"@, header).insert(
            "elements"@,
            Json::List(card_blocks(url, content)),
        ),
    );
    Json::Object(no_fields().insert("msg_type"@, Json::Text("interactive"@)).insert("card"@, card))
}

/// What an alert comes to for the reader: a title, a text, a colour, and a
/// link that is empty where there is nothing to open.
#[derive(Debug, Clone, PartialEq, Eq)]
pub struct Notice {
    pub title: String,
    pub url: String,
    pub content: String,
    pub template: TemplateColor,
}

/// A `Notice` as a mathematical value.
pub struct NoticeView {
    pub title: Seq<char>,
    pub url: Seq<char>,
    pub content: Seq<char>,
    pub template: TemplateColor,
}

impl View for Notice {
    type V = NoticeView;

    open spec fn view(&self) -> NoticeView {
        NoticeView { title: self.title@, url: self.url@, content: self.content@, template: self.template }
    }
}

/// The message that is sent for a notice.
pub open spec fn notice_document(n: NoticeView) -> Json {
    card_document(n.title, n.url, n.content, n.template)
}

impl Notice {
    /// The card that is sent for this notice.
    pub fn message(&self) -> (r: Message)
        ensures
            r.json() == notice_document(self@),
    {
        notify(self.title.clone(), self.url.clone(), self.content.clone(), Some(self.template))
    }
}

/// The member under `key` of a document that may be absent.
pub open spec fn inner(doc: Option<Json>, key: Seq<char>) -> Option<Json> {
    match doc {
        Some(d) => field(d, key),
        None => None,
    }
}

/// The text of a document that may be absent and must be a string.
pub open spec fn text_of(doc: Option<Json>) -> Option<Seq<char>> {
    match doc {
        Some(Json::Text(s)) => Some(s),
        _ => None,
    }
}

/// The items of a document that may be absent and must be an array.
pub open spec fn items_of(doc: Option<Json>) -> Option<Seq<Json>> {
    match doc {
        Some(Json::List(items)) => Some(items),
        _ => None,
    }
}

/// The link that the blocks of a card hold: where the third block is an
/// action, the address of its first button; where it is none, no link.
pub open spec fn blocks_url(blocks: Seq<Json>) -> Option<Seq<char>> {
    if blocks.len() >= 3 && text_of(field(blocks[2], "tag"@)) == Some("action"@) {
        match items_of(field(blocks[2], "actions"@)) {
            Some(actions) => if actions.len() >= 1 {
                text_of(field(actions[0], "url"@))
            } else {
                None
            },
            None => None,
        }
    } else {
        Some(Seq::empty())
    }
}

/// The notice that a card was made for, read back from the card's document:
/// the title from the header, the colour from the header's template, the
/// text from the first block and the link from the button. `None` for a
/// document that does not hold all of these where `notify` puts them.
pub open spec fn notice_read(doc: Json) -> Option<NoticeView> {
    let card = field(doc, "card"@);
    let header = inner(card, "header"@);
    let title = text_of(inner(inner(header, "title"@), "content"@));
    let color = text_of(inner(header, "template"@));
    let blocks = items_of(inner(card, "elements"@));
    if title is Some && color is Some && TemplateColor::named(color->0) is Some && blocks is Some && blocks->0.len()
        >= 1 {
        let content = text_of(inner(field(blocks->0[0], "text"@), "content"@));
        let url = blocks_url(blocks->0);
        if content is Some && url is Some {
            Some(
                NoticeView {
                    title: title->0,
                    url: url->0,
                    content: content->0,
                    template: TemplateColor::named(color->0)->0,
                },
            )
        } else {
            None
        }
    } else {
        None
    }
}

/// What was put into a card is read back from it: the card that is made for
/// a notice gives back the notice's title, text and link as they were, and
/// its colour by name; the colour itself where it is the first of its name,
/// as the colours of alerts are.
pub proof fn lemma_card_round_trip(n: NoticeView)
    ensures
        notice_read(notice_document(n)) matches Some(m) && m.title == n.title && m.content == n.content && m.url
            == n.url && m.template.name() == n.template.name() && (n.template.is_plain() ==> m == n),
{
    TemplateColor::lemma_named_name(n.template);
    reveal_strlit("msg_type");
    reveal_strlit("card");
    reveal_strlit("config");
    reveal_strlit("header");
    reveal_strlit("elements");
    reveal_strlit("title");
    reveal_strlit("template");
    reveal_strlit("tag");
    reveal_strlit("content");
    reveal_strlit("text");
    reveal_strlit("url");
    reveal_strlit("type");
    reveal_strlit("actions");
    reveal_strlit("layout");
    reveal_strlit("action");
    reveal_strlit("note");
    reveal_strlit("div");
    reveal_strlit("hr");
    let doc = notice_document(n);
    let card = field(doc, "card"@);
    assert("card"@.len() == 4 && "msg_type"@.len() == 8);
    assert(card is Some);
    let header = inner(card, "header"@);
    assert("header"@.len() == 6 && "elements"@.len() == 8 && "config"@[0] == 'c' && "header"@[0] == 'h');
    assert(header is Some);
    assert("title"@.len() == 5 && "template"@.len() == 8);
    assert(inner(header, "title"@) == Some(plain_text(n.title)));
    assert("tag"@.len() == 3 && "content"@.len() == 7);
    assert(text_of(inner(inner(header, "title"@), "content"@)) == Some(n.title));
    assert(text_of(inner(header, "template"@)) == Some(n.template.name()));
    let blocks = card_blocks(n.url, n.content);
    assert(items_of(inner(card, "elements"@)) == Some(blocks));
    assert(blocks[0] == text_block(n.content));
    assert("text"@.len() == 4);
    assert(field(blocks[0], "text"@) == Some(lark_md(n.content)));
    assert(text_of(inner(field(blocks[0], "text"@), "content"@)) == Some(n.content));
    if n.url.len() == 0 {
        assert(blocks.len() == 3);
        assert(blocks[2] == note_block());
        assert(field(blocks[2], "tag"@) == Some(Json::Text("note"@)));
        assert("note"@.len() == 4 && "action"@.len() == 6);
        assert(blocks_url(blocks) == Some(Seq::<char>::empty()));
        assert(n.url =~= Seq::<char>::empty());
    } else {
        assert(blocks[2] == action_block(n.url));
        assert("actions"@.len() == 7 && "layout"@.len() == 6 && "actions"@[0] == 'a' && "layout"@[0] == 'l');
        assert(field(blocks[2], "tag"@) == Some(Json::Text("action"@)));
        assert(items_of(field(blocks[2], "actions"@)) == Some(seq![view_button(n.url)]));
        assert("url"@.len() == 3 && "type"@.len() == 4 && "url"@[0] == 'u');
        assert(field(view_button(n.url), "url"@) == Some(Json::Text(n.url)));
        assert(blocks_url(blocks) == Some(n.url));
    }
}

/// The address of the bot's hooks; the secret of a destination follows it.
pub const FEISHU_OPEN_API_PREFIX: &'static str = "https://open.feishu.cn/open-apis/bot/v2/hook/";

/// What is to be sent: a JSON body, to be posted to an address.
#[derive(Debug, Clone, PartialEq, Eq)]
pub struct Delivery {
    pub url: String,
    pub body: String,
}

/// What came of sending: an answer with its HTTP status, or the reason why
/// there is none.
#[derive(Debug, Clone, PartialEq, Eq)]
pub enum Outcome {
    Answered { status: u16, body: String },
    Unreachable { reason: String },
}

/// An `Outcome` as a mathematical value.
pub enum OutcomeView {
    Answered { status: int, body: Seq<char> },
    Unreachable { reason: Seq<char> },
}

impl View for Outcome {
    type V = OutcomeView;

    open spec fn view(&self) -> OutcomeView {
        match self {
            Outcome::Answered { status, body } => OutcomeView::Answered { status: *status as int, body: body@ },
            Outcome::Unreachable { reason } => OutcomeView::Unreachable { reason: reason@ },
        }
    }
}

/// The bot's answer in an outcome: there is one where the destination
/// answered with a status from 200 to 299 and a body that is a JSON document
/// in one of the two shapes of an answer.
pub open spec fn outcome_answer(o: OutcomeView) -> Option<AnswerView> {
    match o {
        OutcomeView::Answered { status, body } => if 200 <= status <= 299 {
            match json_parsed(body) {
                Some(doc) => answer_of(doc),
                None => None,
            }
        } else {
            None
        },
        OutcomeView::Unreachable { reason } => None,
    }
}

/// What is said of an outcome without an answer: the reason where the
/// destination was not reached, the status where it is not from 200 to 299,
/// and else that the body could not be read.
pub open spec fn outcome_fault(o: OutcomeView) -> Seq<char> {
    match o {
        OutcomeView::Answered { status, body } => if 200 <= status <= 299 {
            "error decoding response body"@
        } else {
            "Failed to send Feishu API request, status: "@ + decimal(status as nat)
        },
        OutcomeView::Unreachable { reason } => reason,
    }
}

/// The HTTP status of an outcome, 0 where the destination was not reached.
pub open spec fn outcome_status(o: OutcomeView) -> int {
    match o {
        OutcomeView::Answered { status, body } => status,
        OutcomeView::Unreachable { reason } => 0,
    }
}

/// Whether an answer says that the bot took the message.
pub open spec fn answer_status(a: AnswerView) -> AlertStatus {
    if a is Success {
        AlertStatus::Success
    } else {
        AlertStatus::Failed
    }
}

/// Makes ready what is sent to one destination: the card of the notice as
/// JSON text, and the address of the hook that `api_key` opens.
pub fn post(api_key: String, title: String, url: String, content: String, template: Option<TemplateColor>) -> (r:
    Delivery)
    ensures
        r.url@ == FEISHU_OPEN_API_PREFIX@ + api_key@,
        r.body@ == json_text(card_document(title@, url@, content@, color_or_blue(template))),
{
    let ghost key = api_key@;
    let message = notify(title, url, content, template);
    let body = write_json(&message.to_json());
    let mut address = FEISHU_OPEN_API_PREFIX.to_owned();
    address.append(api_key.as_str());
    Delivery { url: address, body }
}

/// Reads what came of sending. There is an answer where the destination
/// answered with a status from 200 to 299 and a body in one of the two
/// shapes of an answer; the answer then tells whether the bot took the
/// message. Every other outcome is a failure, with what `outcome_fault` says
/// of it.
pub fn read_outcome(outcome: &Outcome) -> (r: Result<(AlertStatus, APIResponse), FeishuFailedRequestError>)
    ensures
        match r {
            Ok(pair) => outcome_answer(outcome@) == Some(pair.1@) && pair.0 == answer_status(pair.1@),
            Err(e) => outcome_answer(outcome@) is None && e.message@ == outcome_fault(outcome@),
        },
{
    match outcome {
        Outcome::Unreachable { reason } => Err(FeishuFailedRequestError { message: reason.clone() }),
        Outcome::Answered { status, body } => {
            if 200 <= *status && *status <= 299 {
                let answer = match parse_json(body.as_str()) {
                    Some(v) => APIResponse::from_json(&v),
                    None => None,
                };
                match answer {
                    Some(a) => Ok((a.status(), a)),
                    None => Err(FeishuFailedRequestError { message: "error decoding response body".to_owned() }),
                }
            } else {
                let mut message = "Failed to send Feishu API request, status: ".to_owned();
                message.append(decimal_text(*status).as_str());
                Err(FeishuFailedRequestError { message })
            }
        },
    }
}

/// The document of a value that may be absent.
pub open spec fn opt_json(v: Option<&serde_json::Value>) -> Option<Json> {
    match v {
        Some(x) => Some(json_of(*x)),
        None => None,
    }
}

/// The member under `key` of a value that may be absent.
fn sub_value<'a>(v: Option<&'a serde_json::Value>, key: &str) -> (r: Option<&'a serde_json::Value>)
    ensures
        opt_json(r) == inner(opt_json(v), key@),
{
    match v {
        Some(x) => member(x, key),
        None => None,
    }
}

/// The text of a value that may be absent.
fn text_value_of(v: Option<&serde_json::Value>) -> (r: Option<String>)
    ensures
        opt_text(r) == text_of(opt_json(v)),
{
    match v {
        Some(x) => match as_text(x) {
            Some(s) => Some(s.to_owned()),
            None => None,
        },
        None => None,
    }
}

/// The link that the blocks of a card hold.
fn read_blocks_url(blocks: &Vec<serde_json::Value>) -> (r: Option<String>)
    ensures
        opt_text(r) == blocks_url(jsons_of(blocks@)),
{
    if blocks.len() >= 3 {
        let tag = text_value_of(member(&blocks[2], "tag"));
        let is_action = match &tag {
            Some(t) => same(t.as_str(), "action"),
            None => false,
        };
        if is_action {
            return match member(&blocks[2], "actions") {
                Some(list) => match as_list(list) {
                    Some(actions) => {
                        if actions.len() >= 1 {
                            text_value_of(member(&actions[0], "url"))
                        } else {
                            None
                        }
                    },
                    None => None,
                },
                None => None,
            };
        }
    }
    Some(String::new())
}

impl Notice {
    /// Reads a notice back from the document of the card that was made for
    /// it.
    pub fn from_json(v: &serde_json::Value) -> (r: Option<Notice>)
        ensures
            match r {
                Some(n) => notice_read(json_of(*v)) == Some(n@),
                None => notice_read(json_of(*v)) is None,
            },
    {
        let card = member(v, "card");
        let header = sub_value(card, "header");
        let title = match text_value_of(sub_value(sub_value(header, "title"), "content")) {
            Some(t) => t,
            None => { return None; },
        };
        let template = match text_value_of(sub_value(header, "template")) {
            Some(name) => match TemplateColor::from_name(name.as_str()) {
                Some(c) => c,
                None => { return None; },
            },
            None => { return None; },
        };
        let blocks = match sub_value(card, "elements") {
            Some(list) => match as_list(list) {
                Some(items) => items,
                None => { return None; },
            },
            None => { return None; },
        };
        if blocks.len() < 1 {
            return None;
        }
        let content = match text_value_of(sub_value(member(&blocks[0], "text"), "content")) {
            Some(t) => t,
            None => { return None; },
        };
        let url = match read_blocks_url(blocks) {
            Some(u) => u,
            None => { return None; },
        };
        Some(Notice { title, url, content, template })
    }
}

/// Builds the card for a notice: its text, a line, a button that opens `url`
/// (left out where `url` is empty) and the closing note, under a header that
/// shows `title` in the colour `template`, blue where none is given.
pub fn notify(title: String, url: String, content: String, template: Option<TemplateColor>) -> (r: Message)
    ensures
        r.json() == card_document(title@, url@, content@, color_or_blue(template)),
{
    let ghost shown = title@;
    let ghost link = url@;
    let ghost body = content@;
    let config = CardConfig { enable_forward: true, update_multi: false };
    let header = CardHeader {
        title: CardTitle::PlainText(CardTitlePlainText::PlainText(TextElement::new(title))),
        template: match template {
            Some(c) => c,
            None => TemplateColor::Blue,
        },
    };
    let div = Module::Div { text: Some(CardText::LarkMd(TextElement::new(content))), fields: None, extra: None };
    let hr = Module::Hr;
    let note_text = TextElement::new("Note: You may need related permissions to open the buttons above.".to_owned());
    let note_elements = vec![NoteElement::PlainText(note_text)];
    assert(documents(note_elements@) =~= seq![note_elements@[0].json()]);
    let note = Module::Note { elements: note_elements };
    assert(div.json() == text_block(body));
    assert(hr.json() == divider_block());
    assert(note.json() == note_block());
    let mut elements: Vec<Module> = Vec::new();
    elements.push(div);
    elements.push(hr);
    if !url.as_str().is_empty() {
        let button = CardButton {
            text: CardText::LarkMd(TextElement::new("View".to_owned())),
            url: Some(url),
            multi_url: None,
            kind: Some(CardButtonType::Primary),
            value: None,
            confirm: None,
        };
        let actions = vec![ActionElement::Button(button)];
        assert(documents(actions@) =~= seq![view_button(link)]);
        let action = Module::Action { actions, layout: Some(ActionLayout::Flow) };
        assert(action.json() == action_block(link));
        elements.push(action);
    }
    elements.push(note);
    assert(documents(elements@) =~= card_blocks(link, body));
    let card = Card { config, header, i18n_elements: None, elements: Some(elements) };
    assert(card.header.json() == Json::Object(
        no_fields().insert("title"@, plain_text(shown)).insert("template"@, Json::Text(color_or_blue(template).name())),
    ));
    Message::Interactive(card)
}

} // verus!
