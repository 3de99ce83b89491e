//! The card message of the chat bot.
//!
//! Each type stands for a JSON document of the bot's interface: blocks and
//! texts carry a `tag` member that tells them apart, and a member that is
//! optional is left out of the document when it is absent.

use vstd::prelude::*;
use crate::json::{
    bool_doc, documents, int_doc, list_to_json, members_of, no_fields, no_members, object_value, opt_doc, put,
    put_bool, put_doc, put_opt_bool, put_opt_doc, put_opt_int, put_opt_text, put_text, text_doc, text_value,
    with_member, Document, Json,
};
use crate::text::same;

verus! {

#[derive(Debug, Clone, PartialEq)]
pub struct CardConfig {
    pub enable_forward: bool,
    pub update_multi: bool,
}

impl Document for CardConfig {
    open spec fn json(&self) -> Json {
        Json::Object(
            no_fields().insert("enable_forward"@, Json::Bool(self.enable_forward)).insert(
                "update_multi"@,
                Json::Bool(self.update_multi),
            ),
        )
    }

    fn to_json(&self) -> (r: serde_json::Value) {
        let mut m = no_members();
        put_bool(&mut m, "enable_forward", self.enable_forward);
        put_bool(&mut m, "update_multi", self.update_multi);
        object_value(m)
    }
}

#[derive(Debug, Clone, PartialEq)]
pub struct StringI18n {
    pub en_us: String,
    pub zh_cn: String,
}

impl Document for StringI18n {
    open spec fn json(&self) -> Json {
        Json::Object(
            no_fields().insert("en_us"@, Json::Text(self.en_us@)).insert("zh_cn"@, Json::Text(self.zh_cn@)),
        )
    }

    fn to_json(&self) -> (r: serde_json::Value) {
        let mut m = no_members();
        put_text(&mut m, "en_us", self.en_us.as_str());
        put_text(&mut m, "zh_cn", self.zh_cn.as_str());
        object_value(m)
    }
}

#[derive(Debug, Clone, PartialEq)]
pub struct TextElement {
    pub content: String,
    pub lines: Option<i32>,
}

impl TextElement {
    /// `m` with the members of this text.
    pub open spec fn fill(&self, m: Map<Seq<char>, Json>) -> Map<Seq<char>, Json> {
        with_member(m.insert("content"@, Json::Text(self.content@)), "lines"@, int_doc(self.lines))
    }

    /// Puts the members of this text into an object under construction.
    pub fn fill_into(&self, m: &mut serde_json::Map<String, serde_json::Value>)
        ensures
            members_of(*final(m)) == self.fill(members_of(*old(m))),
    {
        put_text(m, "content", self.content.as_str());
        put_opt_int(m, "lines", &self.lines);
    }

    /// A text of `content` without a limit of lines.
    pub fn new(content: String) -> (r: TextElement)
        ensures
            r.content == content,
            r.lines is None,
    {
        TextElement { content, lines: None }
    }
}

#[derive(Debug, Clone, PartialEq)]
pub enum CardTitlePlainText {
    PlainText(TextElement),
}

impl Document for CardTitlePlainText {
    open spec fn json(&self) -> Json {
        match self {
            CardTitlePlainText::PlainText(t) => Json::Object(
                t.fill(no_fields().insert("tag"@, Json::Text("plain_text"@))),
            ),
        }
    }

    fn to_json(&self) -> (r: serde_json::Value) {
        match self {
            CardTitlePlainText::PlainText(t) => {
                let mut m = no_members();
                put_text(&mut m, "tag", "plain_text");
                t.fill_into(&mut m);
                object_value(m)
            },
        }
    }
}

#[derive(Debug, Clone, PartialEq)]
pub enum CardTitleI18n {
    PlainText(StringI18n),
}

impl Document for CardTitleI18n {
    open spec fn json(&self) -> Json {
        match self {
            CardTitleI18n::PlainText(s) => Json::Object(
                no_fields().insert("tag"@, Json::Text("plain_text"@)).insert("i18n"@, s.json()),
            ),
        }
    }

    fn to_json(&self) -> (r: serde_json::Value) {
        match self {
            CardTitleI18n::PlainText(s) => {
                let mut m = no_members();
                put_text(&mut m, "tag", "plain_text");
                put_doc(&mut m, "i18n", s);
                object_value(m)
            },
        }
    }
}

#[derive(Debug, Clone, PartialEq)]
pub enum CardTitle {
    PlainText(CardTitlePlainText),
    I18n(CardTitleI18n),
}

impl Document for CardTitle {
    open spec fn json(&self) -> Json {
        match self {
            CardTitle::PlainText(t) => t.json(),
            CardTitle::I18n(t) => t.json(),
        }
    }

    fn to_json(&self) -> (r: serde_json::Value) {
        match self {
            CardTitle::PlainText(t) => t.to_json(),
            CardTitle::I18n(t) => t.to_json(),
        }
    }
}

/// The colour of a card's header. Several names stand for one colour of the
/// bot's interface.
#[derive(Debug, Clone, Copy, PartialEq, Eq, Structural)]
pub enum TemplateColor {
    Green,
    Success,
    Completed,
    Orange,
    Warning,
    Notify,
    Red,
    Error,
    Failed,
    Grey,
    Disabled,
    Invalid,
    Blue,
    Wathet,
    Turquoise,
    Yellow,
    Carmine,
    Violet,
    Purple,
    Indigo,
}

impl TemplateColor {
    /// The colour's name in the bot's interface.
    pub open spec fn name(&self) -> Seq<char> {
        match self {
            TemplateColor::Green | TemplateColor::Success | TemplateColor::Completed => "green"@,
            TemplateColor::Orange | TemplateColor::Warning | TemplateColor::Notify => "orange"@,
            TemplateColor::Red | TemplateColor::Error | TemplateColor::Failed => "red"@,
            TemplateColor::Grey | TemplateColor::Disabled | TemplateColor::Invalid => "grey"@,
            TemplateColor::Blue => "blue"@,
            TemplateColor::Wathet => "wathet"@,
            TemplateColor::Turquoise => "turquoise"@,
            TemplateColor::Yellow => "yellow"@,
            TemplateColor::Carmine => "carmine"@,
            TemplateColor::Violet => "violet"@,
            TemplateColor::Purple => "purple"@,
            TemplateColor::Indigo => "indigo"@,
        }
    }

    /// The colour that the bot's interface calls `name`: of the colours that
    /// go by one name the first.
    pub open spec fn named(name: Seq<char>) -> Option<TemplateColor> {
        if name == "green"@ {
            Some(TemplateColor::Green)
        } else if name == "orange"@ {
            Some(TemplateColor::Orange)
        } else if name == "red"@ {
            Some(TemplateColor::Red)
        } else if name == "grey"@ {
            Some(TemplateColor::Grey)
        } else if name == "blue"@ {
            Some(TemplateColor::Blue)
        } else if name == "wathet"@ {
            Some(TemplateColor::Wathet)
        } else if name == "turquoise"@ {
            Some(TemplateColor::Turquoise)
        } else if name == "yellow"@ {
            Some(TemplateColor::Yellow)
        } else if name == "carmine"@ {
            Some(TemplateColor::Carmine)
        } else if name == "violet"@ {
            Some(TemplateColor::Violet)
        } else if name == "purple"@ {
            Some(TemplateColor::Purple)
        } else if name == "indigo"@ {
            Some(TemplateColor::Indigo)
        } else {
            None
        }
    }

    /// Whether the colour is the first of those that go by its name.
    pub open spec fn is_plain(&self) -> bool {
        match self {
            TemplateColor::Success | TemplateColor::Completed | TemplateColor::Warning | TemplateColor::Notify
            | TemplateColor::Error | TemplateColor::Failed | TemplateColor::Disabled | TemplateColor::Invalid => false,
            _ => true,
        }
    }

    /// The colour that the bot's interface calls `name`, if it calls one so.
    pub fn from_name(name: &str) -> (r: Option<TemplateColor>)
        ensures
            r == Self::named(name@),
    {
        if same(name, "green") {
            Some(TemplateColor::Green)
        } else if same(name, "orange") {
            Some(TemplateColor::Orange)
        } else if same(name, "red") {
            Some(TemplateColor::Red)
        } else if same(name, "grey") {
            Some(TemplateColor::Grey)
        } else if same(name, "blue") {
            Some(TemplateColor::Blue)
        } else if same(name, "wathet") {
            Some(TemplateColor::Wathet)
        } else if same(name, "turquoise") {
            Some(TemplateColor::Turquoise)
        } else if same(name, "yellow") {
            Some(TemplateColor::Yellow)
        } else if same(name, "carmine") {
            Some(TemplateColor::Carmine)
        } else if same(name, "violet") {
            Some(TemplateColor::Violet)
        } else if same(name, "purple") {
            Some(TemplateColor::Purple)
        } else if same(name, "indigo") {
            Some(TemplateColor::Indigo)
        } else {
            None
        }
    }

    /// A colour is found again by its name: the colour itself where it is the
    /// first of its name, and else the first of its name.
    pub proof fn lemma_named_name(c: TemplateColor)
        ensures
            Self::named(c.name()) matches Some(d) && d.name() == c.name() && (c.is_plain() ==> d == c),
    {
        reveal_strlit("green");
        reveal_strlit("orange");
        reveal_strlit("red");
        reveal_strlit("grey");
        reveal_strlit("blue");
        reveal_strlit("wathet");
        reveal_strlit("turquoise");
        reveal_strlit("yellow");
        reveal_strlit("carmine");
        reveal_strlit("violet");
        reveal_strlit("purple");
        reveal_strlit("indigo");
        assert("green"@[0] == 'g' && "grey"@[2] == 'e' && "green"@[3] == 'e' && "grey"@[3] == 'y');
        assert("orange"@[0] == 'o' && "wathet"@[0] == 'w' && "yellow"@[0] == 'y' && "violet"@[0] == 'v');
        assert("purple"@[0] == 'p' && "indigo"@[0] == 'i');
        assert("red"@.len() == 3 && "blue"@.len() == 4 && "grey"@.len() == 4 && "green"@.len() == 5);
        assert("blue"@[0] == 'b' && "grey"@[0] == 'g');
        assert("turquoise"@.len() == 9 && "carmine"@.len() == 7);
        assert("orange"@.len() == 6 && "wathet"@.len() == 6 && "yellow"@.len() == 6 && "violet"@.len() == 6);
        assert("purple"@.len() == 6 && "indigo"@.len() == 6);
    }

    /// The colour's name in the bot's interface.
    pub fn as_str(&self) -> (r: &'static str)
        ensures
            r@ == self.name(),
    {
        match self {
            TemplateColor::Green | TemplateColor::Success | TemplateColor::Completed => "green",
            TemplateColor::Orange | TemplateColor::Warning | TemplateColor::Notify => "orange",
            TemplateColor::Red | TemplateColor::Error | TemplateColor::Failed => "red",
            TemplateColor::Grey | TemplateColor::Disabled | TemplateColor::Invalid => "grey",
            TemplateColor::Blue => "blue",
            TemplateColor::Wathet => "wathet",
            TemplateColor::Turquoise => "turquoise",
            TemplateColor::Yellow => "yellow",
            TemplateColor::Carmine => "carmine",
            TemplateColor::Violet => "violet",
            TemplateColor::Purple => "purple",
            TemplateColor::Indigo => "indigo",
        }
    }
}

impl Document for TemplateColor {
    open spec fn json(&self) -> Json {
        Json::Text(self.name())
    }

    fn to_json(&self) -> (r: serde_json::Value) {
        text_value(self.as_str().to_owned())
    }
}

#[derive(Debug, Clone, PartialEq)]
pub struct CardHeader {
    pub title: CardTitle,
    pub template: TemplateColor,
}

impl Document for CardHeader {
    open spec fn json(&self) -> Json {
        Json::Object(no_fields().insert("title"@, self.title.json()).insert("template"@, self.template.json()))
    }

    fn to_json(&self) -> (r: serde_json::Value) {
        let mut m = no_members();
        put_doc(&mut m, "title", &self.title);
        put_doc(&mut m, "template", &self.template);
        object_value(m)
    }
}

#[derive(Debug, Clone, PartialEq)]
pub enum CardText {
    PlainText(TextElement),
    LarkMd(TextElement),
}

impl Document for CardText {
    open spec fn json(&self) -> Json {
        match self {
            CardText::PlainText(t) => Json::Object(t.fill(no_fields().insert("tag"@, Json::Text("plain_text"@)))),
            CardText::LarkMd(t) => Json::Object(t.fill(no_fields().insert("tag"@, Json::Text("lark_md"@)))),
        }
    }

    fn to_json(&self) -> (r: serde_json::Value) {
        let mut m = no_members();
        match self {
            CardText::PlainText(t) => {
                put_text(&mut m, "tag", "plain_text");
                t.fill_into(&mut m);
            },
            CardText::LarkMd(t) => {
                put_text(&mut m, "tag", "lark_md");
                t.fill_into(&mut m);
            },
        }
        object_value(m)
    }
}

#[derive(Debug, Clone, PartialEq)]
pub struct CardField {
    pub is_short: bool,
    pub text: CardText,
}

impl Document for CardField {
    open spec fn json(&self) -> Json {
        Json::Object(no_fields().insert("is_short"@, Json::Bool(self.is_short)).insert("text"@, self.text.json()))
    }

    fn to_json(&self) -> (r: serde_json::Value) {
        let mut m = no_members();
        put_bool(&mut m, "is_short", self.is_short);
        put_doc(&mut m, "text", &self.text);
        object_value(m)
    }
}

#[derive(Debug, Clone, Copy, PartialEq, Eq, Structural)]
pub enum CardImageMode {
    FitHorizontal,
    CropCenter,
}

impl CardImageMode {
    /// The mode's name in the bot's interface.
    pub open spec fn name(&self) -> Seq<char> {
        match self {
            CardImageMode::FitHorizontal => "fit_horizontal"@,
            CardImageMode::CropCenter => "crop_center"@,
        }
    }
}

impl Document for CardImageMode {
    open spec fn json(&self) -> Json {
        Json::Text(self.name())
    }

    fn to_json(&self) -> (r: serde_json::Value) {
        match self {
            CardImageMode::FitHorizontal => text_value("fit_horizontal".to_owned()),
            CardImageMode::CropCenter => text_value("crop_center".to_owned()),
        }
    }
}

#[derive(Debug, Clone, PartialEq)]
pub struct CardImageElement {
    pub img_key: String,
    pub alt: CardText,
    pub preview: Option<bool>,
}

impl CardImageElement {
    /// `m` with the members of this image.
    pub open spec fn fill(&self, m: Map<Seq<char>, Json>) -> Map<Seq<char>, Json> {
        with_member(
            m.insert("img_key"@, Json::Text(self.img_key@)).insert("alt"@, self.alt.json()),
            "preview"@,
            bool_doc(self.preview),
        )
    }

    /// Puts the members of this image into an object under construction.
    pub fn fill_into(&self, m: &mut serde_json::Map<String, serde_json::Value>)
        ensures
            members_of(*final(m)) == self.fill(members_of(*old(m))),
    {
        put_text(m, "img_key", self.img_key.as_str());
        put_doc(m, "alt", &self.alt);
        put_opt_bool(m, "preview", &self.preview);
    }
}

#[derive(Debug, Clone, PartialEq)]
pub struct CardImage {
    pub img_key: String,
    pub alt: CardText,
    pub title: Option<CardText>,
    pub custom_width: Option<i32>,
    pub compact_width: bool,
    pub mode: Option<CardImageMode>,
    pub preview: Option<bool>,
}

impl CardImage {
    /// `m` with the members of this image.
    pub open spec fn fill(&self, m: Map<Seq<char>, Json>) -> Map<Seq<char>, Json> {
        let m1 = m.insert("img_key"@, Json::Text(self.img_key@)).insert("alt"@, self.alt.json());
        let m2 = with_member(m1, "title"@, opt_doc(self.title));
        let m3 = with_member(m2, "custom_width"@, int_doc(self.custom_width));
        let m4 = m3.insert("compact_width"@, Json::Bool(self.compact_width));
        let m5 = with_member(m4, "mode"@, opt_doc(self.mode));
        with_member(m5, "preview"@, bool_doc(self.preview))
    }

    /// Puts the members of this image into an object under construction.
    pub fn fill_into(&self, m: &mut serde_json::Map<String, serde_json::Value>)
        ensures
            members_of(*final(m)) == self.fill(members_of(*old(m))),
    {
        put_text(m, "img_key", self.img_key.as_str());
        put_doc(m, "alt", &self.alt);
        put_opt_doc(m, "title", &self.title);
        put_opt_int(m, "custom_width", &self.custom_width);
        put_bool(m, "compact_width", self.compact_width);
        put_opt_doc(m, "mode", &self.mode);
        put_opt_bool(m, "preview", &self.preview);
    }
}

impl Document for CardImage {
    open spec fn json(&self) -> Json {
        Json::Object(self.fill(no_fields()))
    }

    fn to_json(&self) -> (r: serde_json::Value) {
        let mut m = no_members();
        self.fill_into(&mut m);
        object_value(m)
    }
}

#[derive(Debug, Clone, PartialEq)]
pub struct CardMultiUrl {
    pub url: String,
    pub andriod_url: String,
    pub ios_url: String,
    pub pc_url: String,
}

impl Document for CardMultiUrl {
    open spec fn json(&self) -> Json {
        Json::Object(
            no_fields().insert("url"@, Json::Text(self.url@)).insert(
                "andriod_url"@,
                Json::Text(self.andriod_url@),
            ).insert("ios_url"@, Json::Text(self.ios_url@)).insert("pc_url"@, Json::Text(self.pc_url@)),
        )
    }

    fn to_json(&self) -> (r: serde_json::Value) {
        let mut m = no_members();
        put_text(&mut m, "url", self.url.as_str());
        put_text(&mut m, "andriod_url", self.andriod_url.as_str());
        put_text(&mut m, "ios_url", self.ios_url.as_str());
        put_text(&mut m, "pc_url", self.pc_url.as_str());
        object_value(m)
    }
}

#[derive(Debug, Clone, PartialEq)]
pub struct CardHref {
    pub url_val: CardMultiUrl,
}

impl Document for CardHref {
    open spec fn json(&self) -> Json {
        Json::Object(no_fields().insert("urlVal"@, self.url_val.json()))
    }

    fn to_json(&self) -> (r: serde_json::Value) {
        let mut m = no_members();
        put_doc(&mut m, "urlVal", &self.url_val);
        object_value(m)
    }
}

#[derive(Debug, Clone, Copy, PartialEq, Eq, Structural)]
pub enum CardButtonType {
    Default,
    Primary,
    Danger,
}

impl CardButtonType {
    /// The type's name in the bot's interface.
    pub open spec fn name(&self) -> Seq<char> {
        match self {
            CardButtonType::Default => "default"@,
            CardButtonType::Primary => "primary"@,
            CardButtonType::Danger => "danger"@,
        }
    }
}

impl Document for CardButtonType {
    open spec fn json(&self) -> Json {
        Json::Text(self.name())
    }

    fn to_json(&self) -> (r: serde_json::Value) {
        match self {
            CardButtonType::Default => text_value("default".to_owned()),
            CardButtonType::Primary => text_value("primary".to_owned()),
            CardButtonType::Danger => text_value("danger".to_owned()),
        }
    }
}

#[derive(Debug, Clone, PartialEq)]
pub struct CardConfirm {
    pub title: CardText,
    pub text: CardText,
}

impl Document for CardConfirm {
    open spec fn json(&self) -> Json {
        Json::Object(no_fields().insert("title"@, self.title.json()).insert("text"@, self.text.json()))
    }

    fn to_json(&self) -> (r: serde_json::Value) {
        let mut m = no_members();
        put_doc(&mut m, "title", &self.title);
        put_doc(&mut m, "text", &self.text);
        object_value(m)
    }
}


#[derive(Debug, Clone, PartialEq)]
pub struct CardButton {
    pub text: CardText,
    pub url: Option<String>,
    pub multi_url: Option<CardMultiUrl>,
    /// The button's type, sent as the member `type`.
    pub kind: Option<CardButtonType>,
    pub value: Option<serde_json::Value>,
    pub confirm: Option<CardConfirm>,
}

impl CardButton {
    /// `m` with the members of this button.
    pub open spec fn fill(&self, m: Map<Seq<char>, Json>) -> Map<Seq<char>, Json> {
        let m1 = m.insert("text"@, self.text.json());
        let m2 = with_member(m1, "url"@, text_doc(self.url));
        let m3 = with_member(m2, "multi_url"@, opt_doc(self.multi_url));
        let m4 = with_member(m3, "type"@, opt_doc(self.kind));
        let m5 = with_member(m4, "value"@, opt_doc(self.value));
        with_member(m5, "confirm"@, opt_doc(self.confirm))
    }

    /// Puts the members of this button into an object under construction.
    pub fn fill_into(&self, m: &mut serde_json::Map<String, serde_json::Value>)
        ensures
            members_of(*final(m)) == self.fill(members_of(*old(m))),
    {
        put_doc(m, "text", &self.text);
        put_opt_text(m, "url", &self.url);
        put_opt_doc(m, "multi_url", &self.multi_url);
        put_opt_doc(m, "type", &self.kind);
        put_opt_doc(m, "value", &self.value);
        put_opt_doc(m, "confirm", &self.confirm);
    }
}

#[derive(Debug, Clone, PartialEq)]
pub enum CardExtra {
    Img(CardImage),
    Button(Box<CardButton>),
}

impl Document for CardExtra {
    open spec fn json(&self) -> Json {
        match self {
            CardExtra::Img(i) => Json::Object(i.fill(no_fields().insert("tag"@, Json::Text("img"@)))),
            CardExtra::Button(b) => Json::Object(b.fill(no_fields().insert("tag"@, Json::Text("button"@)))),
        }
    }

    fn to_json(&self) -> (r: serde_json::Value) {
        let mut m = no_members();
        match self {
            CardExtra::Img(i) => {
                put_text(&mut m, "tag", "img");
                i.fill_into(&mut m);
            },
            CardExtra::Button(b) => {
                put_text(&mut m, "tag", "button");
                b.fill_into(&mut m);
            },
        }
        object_value(m)
    }
}

#[derive(Debug, Clone, PartialEq)]
pub enum ActionElement {
    Button(CardButton),
}

impl Document for ActionElement {
    open spec fn json(&self) -> Json {
        match self {
            ActionElement::Button(b) => Json::Object(b.fill(no_fields().insert("tag"@, Json::Text("button"@)))),
        }
    }

    fn to_json(&self) -> (r: serde_json::Value) {
        match self {
            ActionElement::Button(b) => {
                let mut m = no_members();
                put_text(&mut m, "tag", "button");
                b.fill_into(&mut m);
                object_value(m)
            },
        }
    }
}

#[derive(Debug, Clone, Copy, PartialEq, Eq, Structural)]
pub enum ActionLayout {
    Bisected,
    Trisection,
    Flow,
}

impl ActionLayout {
    /// The layout's name in the bot's interface.
    pub open spec fn name(&self) -> Seq<char> {
        match self {
            ActionLayout::Bisected => "bisected"@,
            ActionLayout::Trisection => "trisection"@,
            ActionLayout::Flow => "flow"@,
        }
    }
}

impl Document for ActionLayout {
    open spec fn json(&self) -> Json {
        Json::Text(self.name())
    }

    fn to_json(&self) -> (r: serde_json::Value) {
        match self {
            ActionLayout::Bisected => text_value("bisected".to_owned()),
            ActionLayout::Trisection => text_value("trisection".to_owned()),
            ActionLayout::Flow => text_value("flow".to_owned()),
        }
    }
}

#[derive(Debug, Clone, PartialEq)]
pub enum NoteElement {
    PlainText(TextElement),
    LarkMd(TextElement),
    Img(CardImageElement),
}

impl Document for NoteElement {
    open spec fn json(&self) -> Json {
        match self {
            NoteElement::PlainText(t) => Json::Object(
                t.fill(no_fields().insert("tag"@, Json::Text("plain_text"@))),
            ),
            NoteElement::LarkMd(t) => Json::Object(t.fill(no_fields().insert("tag"@, Json::Text("lark_md"@)))),
            NoteElement::Img(i) => Json::Object(i.fill(no_fields().insert("tag"@, Json::Text("img"@)))),
        }
    }

    fn to_json(&self) -> (r: serde_json::Value) {
        let mut m = no_members();
        match self {
            NoteElement::PlainText(t) => {
                put_text(&mut m, "tag", "plain_text");
                t.fill_into(&mut m);
            },
            NoteElement::LarkMd(t) => {
                put_text(&mut m, "tag", "lark_md");
                t.fill_into(&mut m);
            },
            NoteElement::Img(i) => {
                put_text(&mut m, "tag", "img");
                i.fill_into(&mut m);
            },
        }
        object_value(m)
    }
}

/// The document of an optional list of values.
pub open spec fn list_doc<T: Document>(items: Option<Vec<T>>) -> Option<Json> {
    match items {
        Some(v) => Some(Json::List(documents(v@))),
        None => None,
    }
}

/// Puts the array of the documents of `items` where there are items.
fn put_opt_list<T: Document>(m: &mut serde_json::Map<String, serde_json::Value>, key: &str, items: &Option<Vec<T>>)
    ensures
        members_of(*final(m)) == with_member(members_of(*old(m)), key@, list_doc(*items)),
{
    match items {
        Some(v) => put(m, key, list_to_json(v)),
        None => {},
    }
}

/// One block of a card's body.
#[derive(Debug, Clone, PartialEq)]
pub enum Module {
    Div { text: Option<CardText>, fields: Option<Vec<CardField>>, extra: Option<CardExtra> },
    Hr,
    Img { img: CardImage },
    Action { actions: Vec<ActionElement>, layout: Option<ActionLayout> },
    Note { elements: Vec<NoteElement> },
    Markdown { content: String, href: Option<CardHref> },
}

impl Document for Module {
    open spec fn json(&self) -> Json {
        match self {
            Module::Div { text, fields, extra } => {
                let m1 = with_member(no_fields().insert("tag"@, Json::Text("div"@)), "text"@, opt_doc(*text));
                let m2 = with_member(m1, "fields"@, list_doc(*fields));
                Json::Object(with_member(m2, "extra"@, opt_doc(*extra)))
            },
            Module::Hr => Json::Object(no_fields().insert("tag"@, Json::Text("hr"@))),
            Module::Img { img } => Json::Object(
                no_fields().insert("tag"@, Json::Text("img"@)).insert("img"@, img.json()),
            ),
            Module::Action { actions, layout } => Json::Object(
                with_member(
                    no_fields().insert("tag"@, Json::Text("action"@)).insert(
                        "actions"@,
                        Json::List(documents(actions@)),
                    ),
                    "layout"@,
                    opt_doc(*layout),
                ),
            ),
            Module::Note { elements } => Json::Object(
                no_fields().insert("tag"@, Json::Text("note"@)).insert("elements"@, Json::List(documents(elements@))),
            ),
            Module::Markdown { content, href } => Json::Object(
                with_member(
                    no_fields().insert("tag"@, Json::Text("markdown"@)).insert("content"@, Json::Text(content@)),
                    "href"@,
                    opt_doc(*href),
                ),
            ),
        }
    }

    fn to_json(&self) -> (r: serde_json::Value) {
        let mut m = no_members();
        match self {
            Module::Div { text, fields, extra } => {
                put_text(&mut m, "tag", "div");
                put_opt_doc(&mut m, "text", text);
                put_opt_list(&mut m, "fields", fields);
                put_opt_doc(&mut m, "extra", extra);
            },
            Module::Hr => {
                put_text(&mut m, "tag", "hr");
            },
            Module::Img { img } => {
                put_text(&mut m, "tag", "img");
                put_doc(&mut m, "img", img);
            },
            Module::Action { actions, layout } => {
                put_text(&mut m, "tag", "action");
                put(&mut m, "actions", list_to_json(actions));
                put_opt_doc(&mut m, "layout", layout);
            },
            Module::Note { elements } => {
                put_text(&mut m, "tag", "note");
                put(&mut m, "elements", list_to_json(elements));
            },
            Module::Markdown { content, href } => {
                put_text(&mut m, "tag", "markdown");
                put_text(&mut m, "content", content.as_str());
                put_opt_doc(&mut m, "href", href);
            },
        }
        object_value(m)
    }
}

#[derive(Debug, Clone, PartialEq)]
pub struct ElementI18n {
    pub en_us: Vec<Module>,
    pub zh_cn: Vec<Module>,
}

impl Document for ElementI18n {
    open spec fn json(&self) -> Json {
        Json::Object(
            no_fields().insert("en_us"@, Json::List(documents(self.en_us@))).insert(
                "zh_cn"@,
                Json::List(documents(self.zh_cn@)),
            ),
        )
    }

    fn to_json(&self) -> (r: serde_json::Value) {
        let mut m = no_members();
        put(&mut m, "en_us", list_to_json(&self.en_us));
        put(&mut m, "zh_cn", list_to_json(&self.zh_cn));
        object_value(m)
    }
}

#[derive(Debug, Clone, PartialEq)]
pub struct Card {
    pub config: CardConfig,
    pub header: CardHeader,
    pub elements: Option<Vec<Module>>,
    pub i18n_elements: Option<ElementI18n>,
}

impl Document for Card {
    open spec fn json(&self) -> Json {
        let m1 = no_fields().insert("config"@, self.config.json()).insert("header"@, self.header.json());
        let m2 = with_member(m1, "elements"@, list_doc(self.elements));
        Json::Object(with_member(m2, "i18n_elements"@, opt_doc(self.i18n_elements)))
    }

    fn to_json(&self) -> (r: serde_json::Value) {
        let mut m = no_members();
        put_doc(&mut m, "config", &self.config);
        put_doc(&mut m, "header", &self.header);
        put_opt_list(&mut m, "elements", &self.elements);
        put_opt_doc(&mut m, "i18n_elements", &self.i18n_elements);
        object_value(m)
    }
}

/// A message to the chat bot.
#[derive(Debug, Clone, PartialEq)]
pub enum Message {
    Interactive(Card),
}

impl Document for Message {
    open spec fn json(&self) -> Json {
        match self {
            Message::Interactive(card) => Json::Object(
                no_fields().insert("msg_type"@, Json::Text("interactive"@)).insert("card"@, card.json()),
            ),
        }
    }

    fn to_json(&self) -> (r: serde_json::Value) {
        match self {
            Message::Interactive(card) => {
                let mut m = no_members();
                put_text(&mut m, "msg_type", "interactive");
                put_doc(&mut m, "card", card);
                object_value(m)
            },
        }
    }
}

} // verus!
