use chat_relay::chat::{default_chat_options, Model};
use chat_relay::config::{backend_or_default, channel_or_default, workspace_or_default};
use chat_relay::errors::RelayError;
use chat_relay::plan::{plan_message, select_backend, Backend, CompletionCall};
use chat_relay::text::conversation_id;

#[test]
fn select_backend_openai() {
    assert_eq!(select_backend("openai"), Ok(Backend::OpenAi));
}

#[test]
fn select_backend_custom() {
    assert_eq!(select_backend("custom"), Ok(Backend::Custom));
}

#[test]
fn select_backend_unrecognized() {
    assert_eq!(select_backend("llama"), Err(RelayError::UnsupportedBackend));
    assert_eq!(select_backend(""), Err(RelayError::UnsupportedBackend));
    assert_eq!(select_backend("OpenAI"), Err(RelayError::UnsupportedBackend));
}

#[test]
fn conversation_identity_concatenates() {
    assert_eq!(conversation_id("acme", "general"), "acmegeneral");
    assert_eq!(conversation_id("", "general"), "general");
    assert_eq!(conversation_id("acme", ""), "acme");
}

#[test]
fn plan_openai_keys_conversation_by_workspace_and_channel() {
    let plan = plan_message(
        "openai",
        "acme",
        "general",
        "hi there",
        None,
        None,
        default_chat_options(),
    );
    match plan {
        Ok(CompletionCall::Managed { conversation_id, text, options }) => {
            assert_eq!(conversation_id, "acmegeneral");
            assert_eq!(text, "hi there");
            assert_eq!(options.model, Model::Gpt35Turbo);
            assert!(!options.restart);
            assert!(options.system_prompt.is_none());
        }
        other => panic!("expected a managed call, got {:?}", other),
    }
}

#[test]
fn plan_openai_identity_stable_across_messages() {
    let first = plan_message("openai", "acme", "general", "one", None, None, default_chat_options());
    let second = plan_message("openai", "acme", "general", "two", None, None, default_chat_options());
    let id1 = match first {
        Ok(CompletionCall::Managed { conversation_id, .. }) => conversation_id,
        other => panic!("expected a managed call, got {:?}", other),
    };
    let id2 = match second {
        Ok(CompletionCall::Managed { conversation_id, .. }) => conversation_id,
        other => panic!("expected a managed call, got {:?}", other),
    };
    assert_eq!(id1, "acmegeneral");
    assert_eq!(id1, id2);
}

#[test]
fn plan_custom_without_key_refuses() {
    let plan = plan_message("custom", "acme", "general", "hi", None, None, default_chat_options());
    match plan {
        Err(e) => assert_eq!(e, RelayError::MissingCredential),
        Ok(call) => panic!("expected a refusal, got {:?}", call),
    }
}

#[test]
fn plan_unrecognized_backend_refuses() {
    let plan = plan_message(
        "llama",
        "acme",
        "general",
        "hi",
        Some(String::from("https://example.test")),
        Some(String::from("sk-test")),
        default_chat_options(),
    );
    match plan {
        Err(e) => assert_eq!(e, RelayError::UnsupportedBackend),
        Ok(call) => panic!("expected a refusal, got {:?}", call),
    }
}

#[test]
fn plan_custom_frames_request() {
    let plan = plan_message(
        "custom",
        "acme",
        "general",
        "hi",
        None,
        Some(String::from("sk-test")),
        default_chat_options(),
    );
    match plan {
        Ok(CompletionCall::Http { request }) => {
            assert_eq!(request.url, "https://aigptx.top/v1");
            assert_eq!(request.bearer_token, "Bearer sk-test");
            assert_eq!(
                request.body,
                "{\"model\":\"gpt-3.5-turbo\",\"messages\":[{\"role\":\"user\",\"content\":\"hi\"}]}"
            );
        }
        other => panic!("expected an HTTP call, got {:?}", other),
    }
}

#[test]
fn plan_custom_honors_configured_endpoint() {
    let plan = plan_message(
        "custom",
        "acme",
        "general",
        "hi",
        Some(String::from("https://example.test/v1")),
        Some(String::from("sk-test")),
        default_chat_options(),
    );
    match plan {
        Ok(CompletionCall::Http { request }) => {
            assert_eq!(request.url, "https://example.test/v1");
        }
        other => panic!("expected an HTTP call, got {:?}", other),
    }
}

#[test]
fn plan_custom_escapes_message_text() {
    let plan = plan_message(
        "custom",
        "acme",
        "general",
        "say \"hi\"\nplease\t\u{1}",
        None,
        Some(String::from("sk-test")),
        default_chat_options(),
    );
    match plan {
        Ok(CompletionCall::Http { request }) => {
            assert_eq!(
                request.body,
                "{\"model\":\"gpt-3.5-turbo\",\"messages\":[{\"role\":\"user\",\"content\":\"say \\\"hi\\\"\\nplease\\t\\u0001\"}]}"
            );
        }
        other => panic!("expected an HTTP call, got {:?}", other),
    }
}

#[test]
fn model_wire_identifier() {
    assert_eq!(Model::Gpt35Turbo.id(), "gpt-3.5-turbo");
}

#[test]
fn configuration_defaults() {
    assert_eq!(workspace_or_default(None), "secondstate");
    assert_eq!(workspace_or_default(Some(String::from("acme"))), "acme");
    assert_eq!(channel_or_default(None), "collaborative-chat");
    assert_eq!(channel_or_default(Some(String::from("general"))), "general");
    assert_eq!(backend_or_default(None), "openai");
    assert_eq!(backend_or_default(Some(String::from("custom"))), "custom");
}

#[test]
fn error_descriptions() {
    assert_eq!(RelayError::UnsupportedBackend.describe(), "Unknown API service");
    assert_eq!(RelayError::MissingCredential.describe(), "Custom API Key not set");
    assert_eq!(RelayError::TransportError.describe(), "Error with custom API");
    assert_eq!(RelayError::MalformedResponse.describe(), "Unexpected API response");
    assert_eq!(RelayError::ProviderError.describe(), "Error from OpenAI service");
}
