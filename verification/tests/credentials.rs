use alert_relay::common::{check_api_key, parse_token, AlertDestinations, AlertKeyMap, QueryParams};
use alert_relay::error::{ConversionError, DecodeReason};

fn keys_of(credential: &str) -> Result<Vec<AlertKeyMap>, ConversionError> {
    check_api_key(&QueryParams { api_key: credential.to_string() })
}

fn key(secret: &str) -> AlertKeyMap {
    AlertKeyMap { destination: AlertDestinations::ChatBot, key: secret.to_string() }
}

#[test]
fn one_token_gives_one_key() {
    assert_eq!(keys_of("chatbot_ABC123"), Ok(vec![key("ABC123")]));
}

#[test]
fn tokens_keep_their_order() {
    assert_eq!(keys_of("chatbot_first,chatbot_second,chatbot_third"), Ok(vec![key("first"), key("second"), key("third")]));
    assert_eq!(keys_of("chatbot_b,chatbot_a"), Ok(vec![key("b"), key("a")]));
}

#[test]
fn token_without_separator_is_refused() {
    assert_eq!(keys_of("badtoken"), Err(ConversionError));
}

#[test]
fn one_bad_token_refuses_the_whole_credential() {
    assert_eq!(keys_of("chatbot_good,badtoken"), Err(ConversionError));
    assert_eq!(keys_of("badtoken,chatbot_good"), Err(ConversionError));
    assert_eq!(keys_of("chatbot_a,chatbot_b,nope,chatbot_c"), Err(ConversionError));
}

#[test]
fn unknown_destination_is_refused() {
    assert_eq!(keys_of("pager_ABC123"), Err(ConversionError));
    assert_eq!(keys_of("Chatbot_ABC123"), Err(ConversionError));
    assert_eq!(keys_of("_ABC123"), Err(ConversionError));
}

#[test]
fn empty_tokens_are_refused() {
    assert_eq!(keys_of(""), Err(ConversionError));
    assert_eq!(keys_of("chatbot_a,"), Err(ConversionError));
    assert_eq!(keys_of(",chatbot_a"), Err(ConversionError));
    assert_eq!(keys_of("chatbot_a,,chatbot_b"), Err(ConversionError));
}

#[test]
fn secret_ends_at_the_next_separator() {
    assert_eq!(keys_of("chatbot_abc_def"), Ok(vec![key("abc")]));
    assert_eq!(keys_of("chatbot_"), Ok(vec![key("")]));
    assert_eq!(keys_of("chatbot__x"), Ok(vec![key("")]));
}

#[test]
fn secret_may_hold_other_characters() {
    assert_eq!(keys_of("chatbot_a-b.c"), Ok(vec![key("a-b.c")]));
    assert_eq!(keys_of("chatbot_\u{4e2d}\u{6587}"), Ok(vec![key("\u{4e2d}\u{6587}")]));
}

#[test]
fn single_token_is_read() {
    assert_eq!(parse_token("chatbot_s3cret"), Some(key("s3cret")));
    assert_eq!(parse_token("chatbot"), None);
    assert_eq!(parse_token("other_s3cret"), None);
}

#[test]
fn destination_has_its_name() {
    assert_eq!(AlertDestinations::ChatBot.to_string(), "chatbot");
    assert_eq!(AlertDestinations::ChatBot.as_str(), "chatbot");
    assert_eq!(AlertDestinations::from_name("chatbot"), Some(AlertDestinations::ChatBot));
    assert_eq!(AlertDestinations::from_name("feishu"), None);
}

#[test]
fn query_holds_the_credential() {
    let q = QueryParams::decode("apiKey=chatbot_a%2Cchatbot_b").unwrap();
    assert_eq!(q.api_key, "chatbot_a,chatbot_b");
    assert_eq!(keys_of(&q.api_key), Ok(vec![key("a"), key("b")]));
    let q = QueryParams::decode("other=1&apiKey=chatbot_ABC123").unwrap();
    assert_eq!(q.api_key, "chatbot_ABC123");
}

#[test]
fn query_without_credential_is_refused() {
    let e = QueryParams::decode("key=chatbot_a").unwrap_err();
    assert_eq!(e.field, "apiKey");
    assert_eq!(e.reason, DecodeReason::MissingField);
    let e = QueryParams::decode("").unwrap_err();
    assert_eq!(e.reason, DecodeReason::MissingField);
    let e = QueryParams::decode("apiKey=chatbot_a&apiKey=chatbot_b").unwrap_err();
    assert_eq!(e.reason, DecodeReason::DuplicateField);
}
