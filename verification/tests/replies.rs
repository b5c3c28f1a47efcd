use chat_relay::errors::RelayError;
use chat_relay::escape::escape_text;
use chat_relay::outcome::{
    completion_result, parse_completion_reply, reply_from_extracted, reply_to_post, CallOutcome,
};

#[test]
fn successful_custom_reply_is_extracted_verbatim() {
    let body = "{\"choices\":[{\"message\":{\"content\":\"hello\"}}]}";
    assert_eq!(parse_completion_reply(body), Ok(String::from("hello")));
}

#[test]
fn extra_fields_do_not_disturb_extraction() {
    let body = "{\"id\":\"cmpl-1\",\"choices\":[{\"index\":0,\"message\":{\"role\":\"assistant\",\"content\":\"sure\"},\"finish_reason\":\"stop\"}],\"usage\":{\"total_tokens\":3}}";
    assert_eq!(parse_completion_reply(body), Ok(String::from("sure")));
}

#[test]
fn missing_choices_completes_without_posting() {
    let body = "{\"id\":\"cmpl-1\"}";
    let result = parse_completion_reply(body);
    assert_eq!(result, Err(RelayError::MalformedResponse));
    assert_eq!(reply_to_post(result), None);
}

#[test]
fn empty_choices_is_malformed() {
    assert_eq!(
        parse_completion_reply("{\"choices\":[]}"),
        Err(RelayError::MalformedResponse)
    );
}

#[test]
fn non_string_content_is_malformed() {
    assert_eq!(
        parse_completion_reply("{\"choices\":[{\"message\":{\"content\":5}}]}"),
        Err(RelayError::MalformedResponse)
    );
}

#[test]
fn unparsable_body_is_malformed() {
    assert_eq!(
        parse_completion_reply("not json at all"),
        Err(RelayError::MalformedResponse)
    );
}

#[test]
fn extracted_reply_passes_through() {
    assert_eq!(
        reply_from_extracted(Some(String::from("hello"))),
        Ok(String::from("hello"))
    );
    assert_eq!(reply_from_extracted(None), Err(RelayError::MalformedResponse));
}

#[test]
fn managed_outcomes() {
    assert_eq!(
        completion_result(CallOutcome::Managed { reply: Some(String::from("hi")) }),
        Ok(String::from("hi"))
    );
    assert_eq!(
        completion_result(CallOutcome::Managed { reply: None }),
        Err(RelayError::ProviderError)
    );
}

#[test]
fn http_outcomes() {
    assert_eq!(
        completion_result(CallOutcome::Http { body: None }),
        Err(RelayError::TransportError)
    );
    assert_eq!(
        completion_result(CallOutcome::Http {
            body: Some(String::from("{\"choices\":[{\"message\":{\"content\":\"hello\"}}]}")),
        }),
        Ok(String::from("hello"))
    );
    assert_eq!(
        completion_result(CallOutcome::Http { body: Some(String::from("{}")) }),
        Err(RelayError::MalformedResponse)
    );
}

#[test]
fn only_successes_are_posted() {
    assert_eq!(
        reply_to_post(Ok(String::from("hello"))),
        Some(String::from("hello"))
    );
    assert_eq!(reply_to_post(Err(RelayError::TransportError)), None);
    assert_eq!(reply_to_post(Err(RelayError::UnsupportedBackend)), None);
    assert_eq!(reply_to_post(Err(RelayError::ProviderError)), None);
}

#[test]
fn escaping_rewrites_special_characters() {
    assert_eq!(escape_text("plain"), "plain");
    assert_eq!(escape_text("a\"b"), "a\\\"b");
    assert_eq!(escape_text("a\\b"), "a\\\\b");
    assert_eq!(escape_text("line\nbreak"), "line\\nbreak");
    assert_eq!(escape_text("\r\t"), "\\r\\t");
    assert_eq!(escape_text("\u{0}\u{1f}"), "\\u0000\\u001f");
    assert_eq!(escape_text(""), "");
    assert_eq!(escape_text("héllo ☃"), "héllo ☃");
}
