use alert_relay::json::Document;
use alert_relay::notify::feishu::card::{
    ActionElement, ActionLayout, Card, CardButton, CardButtonType, CardConfig,
    CardConfirm, CardExtra, CardField, CardHeader, CardHref, CardImage, CardImageElement, CardImageMode,
    CardMultiUrl, CardText, CardTitle, CardTitleI18n, CardTitlePlainText, ElementI18n, Message, Module,
    NoteElement, StringI18n, TemplateColor, TextElement,
};
use alert_relay::notify::feishu::post::{notify, post, Notice, FEISHU_OPEN_API_PREFIX};
use serde_json::Value;

fn json(text: &str) -> Value {
    serde_json::from_str(text).unwrap()
}

fn lark(content: &str) -> CardText {
    CardText::LarkMd(TextElement::new(content.to_string()))
}

fn plain(content: &str) -> CardText {
    CardText::PlainText(TextElement::new(content.to_string()))
}

#[test]
fn card_of_a_notice_has_four_blocks_in_order() {
    let message = notify("T".to_string(), "http://x/y".to_string(), "body text".to_string(), Some(TemplateColor::Red));
    let expected = json(
        r#"{
          "msg_type": "interactive",
          "card": {
            "config": { "enable_forward": true, "update_multi": false },
            "header": { "title": { "tag": "plain_text", "content": "T" }, "template": "red" },
            "elements": [
              { "tag": "div", "text": { "tag": "lark_md", "content": "body text" } },
              { "tag": "hr" },
              { "tag": "action",
                "actions": [ { "tag": "button", "text": { "tag": "lark_md", "content": "View" }, "url": "http://x/y", "type": "primary" } ],
                "layout": "flow" },
              { "tag": "note",
                "elements": [ { "tag": "plain_text", "content": "Note: You may need related permissions to open the buttons above." } ] }
            ]
          }
        }"#,
    );
    assert_eq!(message.to_json(), expected);
}

#[test]
fn card_without_a_link_has_no_button() {
    let message = notify("T".to_string(), "".to_string(), "body".to_string(), Some(TemplateColor::Green));
    let doc = message.to_json();
    let blocks = doc["card"]["elements"].as_array().unwrap();
    assert_eq!(blocks.len(), 3);
    assert_eq!(blocks[0]["tag"], "div");
    assert_eq!(blocks[1]["tag"], "hr");
    assert_eq!(blocks[2]["tag"], "note");
    assert_eq!(doc["card"]["header"]["template"], "green");
}

#[test]
fn card_without_a_colour_is_blue() {
    let message = notify("T".to_string(), "u".to_string(), "c".to_string(), None);
    assert_eq!(message.to_json()["card"]["header"]["template"], "blue");
    match message {
        Message::Interactive(card) => {
            assert_eq!(card.header.template, TemplateColor::Blue);
            assert_eq!(card.config, CardConfig { enable_forward: true, update_multi: false });
            assert_eq!(card.i18n_elements, None);
            assert_eq!(card.elements.unwrap().len(), 4);
        },
    }
}

#[test]
fn delivery_holds_the_card_as_text_and_the_hook() {
    let delivery = post(
        "ABC123".to_string(),
        "T".to_string(),
        "http://x".to_string(),
        "c".to_string(),
        Some(TemplateColor::Yellow),
    );
    assert_eq!(delivery.url, "https://open.feishu.cn/open-apis/bot/v2/hook/ABC123");
    assert_eq!(delivery.url, format!("{}{}", FEISHU_OPEN_API_PREFIX, "ABC123"));
    assert_eq!(
        delivery.body,
        r#"{"card":{"config":{"enable_forward":true,"update_multi":false},"elements":[{"tag":"div","text":{"content":"c","tag":"lark_md"}},{"tag":"hr"},{"actions":[{"tag":"button","text":{"content":"View","tag":"lark_md"},"type":"primary","url":"http://x"}],"layout":"flow","tag":"action"},{"elements":[{"content":"Note: You may need related permissions to open the buttons above.","tag":"plain_text"}],"tag":"note"}],"header":{"template":"yellow","title":{"content":"T","tag":"plain_text"}}},"msg_type":"interactive"}"#
    );
}

#[test]
fn notice_is_read_back_from_its_card() {
    let notice = Notice {
        title: "[Alerting] \"quoted\" \u{4e2d}\u{6587}".to_string(),
        url: "http://localhost:3000/d?a=1&b=2".to_string(),
        content: "**bold**\nline two\twith tab \\ and / and \u{1f600}".to_string(),
        template: TemplateColor::Orange,
    };
    let delivery = post(
        "k".to_string(),
        notice.title.clone(),
        notice.url.clone(),
        notice.content.clone(),
        Some(notice.template),
    );
    let back = Notice::from_json(&json(&delivery.body));
    assert_eq!(back, Some(notice.clone()));
    assert_eq!(Notice::from_json(&notice.message().to_json()), Some(notice));
}

#[test]
fn notice_without_a_link_is_read_back() {
    for template in [TemplateColor::Green, TemplateColor::Yellow, TemplateColor::Orange, TemplateColor::Red, TemplateColor::Grey] {
        let notice = Notice { title: "t".to_string(), url: "".to_string(), content: "".to_string(), template };
        assert_eq!(Notice::from_json(&notice.message().to_json()), Some(notice));
    }
}

#[test]
fn colour_that_shares_a_name_is_read_back_as_the_first_of_the_name() {
    let notice = Notice {
        title: "t".to_string(),
        url: "u".to_string(),
        content: "c".to_string(),
        template: TemplateColor::Failed,
    };
    let back = Notice::from_json(&notice.message().to_json()).unwrap();
    assert_eq!(back.template, TemplateColor::Red);
    assert_eq!(back.title, "t");
    assert_eq!(back.content, "c");
}

#[test]
fn document_that_is_no_card_gives_no_notice() {
    assert_eq!(Notice::from_json(&json("{}")), None);
    assert_eq!(Notice::from_json(&json("[1]")), None);
    assert_eq!(
        Notice::from_json(&json(r#"{"card":{"header":{"title":{"content":"t"},"template":"pink"},"elements":[]}}"#)),
        None
    );
    assert_eq!(
        Notice::from_json(&json(r#"{"card":{"header":{"title":{"content":"t"},"template":"red"},"elements":[]}}"#)),
        None
    );
    assert_eq!(
        Notice::from_json(&json(
            r#"{"card":{"header":{"title":{"content":"t"},"template":"red"},"elements":[{"text":{"content":"c"}}]}}"#
        )),
        Some(Notice { title: "t".to_string(), url: "".to_string(), content: "c".to_string(), template: TemplateColor::Red })
    );
}

#[test]
fn colours_have_their_names() {
    assert_eq!(TemplateColor::Green.as_str(), "green");
    assert_eq!(TemplateColor::Success.as_str(), "green");
    assert_eq!(TemplateColor::Completed.as_str(), "green");
    assert_eq!(TemplateColor::Orange.as_str(), "orange");
    assert_eq!(TemplateColor::Warning.as_str(), "orange");
    assert_eq!(TemplateColor::Notify.as_str(), "orange");
    assert_eq!(TemplateColor::Red.as_str(), "red");
    assert_eq!(TemplateColor::Error.as_str(), "red");
    assert_eq!(TemplateColor::Failed.as_str(), "red");
    assert_eq!(TemplateColor::Grey.as_str(), "grey");
    assert_eq!(TemplateColor::Disabled.as_str(), "grey");
    assert_eq!(TemplateColor::Invalid.as_str(), "grey");
    assert_eq!(TemplateColor::Blue.as_str(), "blue");
    assert_eq!(TemplateColor::Wathet.as_str(), "wathet");
    assert_eq!(TemplateColor::Turquoise.as_str(), "turquoise");
    assert_eq!(TemplateColor::Yellow.as_str(), "yellow");
    assert_eq!(TemplateColor::Carmine.as_str(), "carmine");
    assert_eq!(TemplateColor::Violet.as_str(), "violet");
    assert_eq!(TemplateColor::Purple.as_str(), "purple");
    assert_eq!(TemplateColor::Indigo.as_str(), "indigo");
    assert_eq!(TemplateColor::from_name("grey"), Some(TemplateColor::Grey));
    assert_eq!(TemplateColor::from_name("indigo"), Some(TemplateColor::Indigo));
    assert_eq!(TemplateColor::from_name("Green"), None);
    assert_eq!(TemplateColor::Purple.to_json(), json(r#""purple""#));
}

#[test]
fn texts_carry_their_tag_and_leave_out_absent_lines() {
    assert_eq!(plain("p").to_json(), json(r#"{"tag":"plain_text","content":"p"}"#));
    assert_eq!(lark("m").to_json(), json(r#"{"tag":"lark_md","content":"m"}"#));
    let limited = CardText::PlainText(TextElement { content: "p".to_string(), lines: Some(2) });
    assert_eq!(limited.to_json(), json(r#"{"tag":"plain_text","content":"p","lines":2}"#));
    let negative = CardText::LarkMd(TextElement { content: "".to_string(), lines: Some(-1) });
    assert_eq!(negative.to_json(), json(r#"{"tag":"lark_md","content":"","lines":-1}"#));
}

#[test]
fn titles_are_plain_or_keyed_by_locale() {
    let plain_title = CardTitle::PlainText(CardTitlePlainText::PlainText(TextElement::new("t".to_string())));
    assert_eq!(plain_title.to_json(), json(r#"{"tag":"plain_text","content":"t"}"#));
    let keyed = CardTitle::I18n(CardTitleI18n::PlainText(StringI18n { en_us: "hello".to_string(), zh_cn: "\u{4f60}\u{597d}".to_string() }));
    assert_eq!(keyed.to_json(), json(r#"{"tag":"plain_text","i18n":{"en_us":"hello","zh_cn":"\u4f60\u597d"}}"#));
    let header = CardHeader { title: keyed, template: TemplateColor::Wathet };
    assert_eq!(
        header.to_json(),
        json(r#"{"title":{"tag":"plain_text","i18n":{"en_us":"hello","zh_cn":"\u4f60\u597d"}},"template":"wathet"}"#)
    );
}

#[test]
fn images_leave_out_what_is_absent() {
    let image = CardImage {
        img_key: "k".to_string(),
        alt: plain("a"),
        title: None,
        custom_width: None,
        compact_width: false,
        mode: None,
        preview: None,
    };
    assert_eq!(image.to_json(), json(r#"{"img_key":"k","alt":{"tag":"plain_text","content":"a"},"compact_width":false}"#));
    let image = CardImage {
        img_key: "k".to_string(),
        alt: plain("a"),
        title: Some(lark("t")),
        custom_width: Some(300),
        compact_width: true,
        mode: Some(CardImageMode::CropCenter),
        preview: Some(false),
    };
    assert_eq!(
        image.to_json(),
        json(
            r#"{"img_key":"k","alt":{"tag":"plain_text","content":"a"},"title":{"tag":"lark_md","content":"t"},"custom_width":300,"compact_width":true,"mode":"crop_center","preview":false}"#
        )
    );
    assert_eq!(CardImageMode::FitHorizontal.to_json(), json(r#""fit_horizontal""#));
    assert_eq!(
        Module::Img { img: image.clone() }.to_json()["img"],
        image.to_json()
    );
    assert_eq!(CardExtra::Img(image).to_json()["tag"], "img");
}

#[test]
fn buttons_carry_what_they_are_given() {
    let urls = CardMultiUrl {
        url: "u".to_string(),
        andriod_url: "a".to_string(),
        ios_url: "i".to_string(),
        pc_url: "p".to_string(),
    };
    assert_eq!(urls.to_json(), json(r#"{"url":"u","andriod_url":"a","ios_url":"i","pc_url":"p"}"#));
    assert_eq!(
        CardHref { url_val: urls.clone() }.to_json(),
        json(r#"{"urlVal":{"url":"u","andriod_url":"a","ios_url":"i","pc_url":"p"}}"#)
    );
    let button = CardButton {
        text: plain("go"),
        url: None,
        multi_url: Some(urls),
        kind: Some(CardButtonType::Danger),
        value: Some(json(r#"{"k":[1,2.5,null]}"#)),
        confirm: Some(CardConfirm { title: plain("sure?"), text: plain("really") }),
    };
    let expected = json(
        r#"{"tag":"button","text":{"tag":"plain_text","content":"go"},
            "multi_url":{"url":"u","andriod_url":"a","ios_url":"i","pc_url":"p"},
            "type":"danger","value":{"k":[1,2.5,null]},
            "confirm":{"title":{"tag":"plain_text","content":"sure?"},"text":{"tag":"plain_text","content":"really"}}}"#,
    );
    assert_eq!(ActionElement::Button(button.clone()).to_json(), expected);
    assert_eq!(CardExtra::Button(Box::new(button)).to_json(), expected);
    assert_eq!(CardButtonType::Default.to_json(), json(r#""default""#));
    assert_eq!(CardButtonType::Primary.to_json(), json(r#""primary""#));
}

#[test]
fn blocks_carry_their_tag() {
    let div = Module::Div {
        text: None,
        fields: Some(vec![CardField { is_short: true, text: lark("f") }]),
        extra: None,
    };
    assert_eq!(div.to_json(), json(r#"{"tag":"div","fields":[{"is_short":true,"text":{"tag":"lark_md","content":"f"}}]}"#));
    assert_eq!(Module::Div { text: None, fields: None, extra: None }.to_json(), json(r#"{"tag":"div"}"#));
    assert_eq!(Module::Hr.to_json(), json(r#"{"tag":"hr"}"#));
    assert_eq!(
        Module::Action { actions: vec![], layout: None }.to_json(),
        json(r#"{"tag":"action","actions":[]}"#)
    );
    assert_eq!(ActionLayout::Bisected.to_json(), json(r#""bisected""#));
    assert_eq!(ActionLayout::Trisection.to_json(), json(r#""trisection""#));
    let note = Module::Note {
        elements: vec![
            NoteElement::PlainText(TextElement::new("n".to_string())),
            NoteElement::LarkMd(TextElement::new("m".to_string())),
            NoteElement::Img(CardImageElement { img_key: "k".to_string(), alt: plain("a"), preview: Some(true) }),
        ],
    };
    assert_eq!(
        note.to_json(),
        json(
            r#"{"tag":"note","elements":[{"tag":"plain_text","content":"n"},{"tag":"lark_md","content":"m"},{"tag":"img","img_key":"k","alt":{"tag":"plain_text","content":"a"},"preview":true}]}"#
        )
    );
    assert_eq!(
        Module::Markdown { content: "md".to_string(), href: None }.to_json(),
        json(r#"{"tag":"markdown","content":"md"}"#)
    );
}

#[test]
fn card_with_blocks_by_locale() {
    let card = Card {
        config: CardConfig { enable_forward: false, update_multi: true },
        header: CardHeader {
            title: CardTitle::PlainText(CardTitlePlainText::PlainText(TextElement::new("t".to_string()))),
            template: TemplateColor::Carmine,
        },
        elements: None,
        i18n_elements: Some(ElementI18n { en_us: vec![Module::Hr], zh_cn: vec![] }),
    };
    assert_eq!(
        Message::Interactive(card).to_json(),
        json(
            r#"{"msg_type":"interactive","card":{"config":{"enable_forward":false,"update_multi":true},"header":{"title":{"tag":"plain_text","content":"t"},"template":"carmine"},"i18n_elements":{"en_us":[{"tag":"hr"}],"zh_cn":[]}}}"#
        )
    );
}
