use vstd::prelude::*;
use vstd::string::*;
use crate::chat::{request_body, request_body_view, ChatOptions, Model};
use crate::errors::RelayError;
use crate::text::{conversation_id, str_eq};

verus! {

/// The two supported completion backends.
#[derive(Clone, Copy, Debug, PartialEq, Eq, Structural)]
pub enum Backend {
    /// The managed provider, reached through its SDK.
    OpenAi,
    /// A custom HTTP completion endpoint.
    Custom,
}

/// Which backend a configuration string selects: `"openai"` and `"custom"`
/// are the supported names, everything else is refused.
pub open spec fn spec_select_backend(name: Seq<char>) -> Result<Backend, RelayError> {
    if name == "openai"@ {
        Ok(Backend::OpenAi)
    } else if name == "custom"@ {
        Ok(Backend::Custom)
    } else {
        Err(RelayError::UnsupportedBackend)
    }
}

/// Dispatches on the configured backend name.
pub fn select_backend(name: &str) -> (r: Result<Backend, RelayError>)
    ensures
        r == spec_select_backend(name@),
{
    if str_eq(name, "openai") {
        Ok(Backend::OpenAi)
    } else if str_eq(name, "custom") {
        Ok(Backend::Custom)
    } else {
        Err(RelayError::UnsupportedBackend)
    }
}

/// The endpoint used for the custom backend when none is configured.
pub open spec fn default_endpoint_view() -> Seq<char> {
    "https://aigptx.top/v1"@
}

/// One HTTP request to the custom endpoint, fully framed: where to post,
/// the full authorization header value, and the JSON body.
#[derive(Debug)]
pub struct HttpRequest {
    /// The endpoint URL the request is posted to.
    pub url: String,
    /// The value of the `Authorization` header.
    pub bearer_token: String,
    /// The JSON body.
    pub body: String,
}

/// The mathematical image of an [`HttpRequest`].
#[verifier::ext_equal]
pub struct HttpRequestView {
    pub url: Seq<char>,
    pub bearer_token: Seq<char>,
    pub body: Seq<char>,
}

impl View for HttpRequest {
    type V = HttpRequestView;

    open spec fn view(&self) -> HttpRequestView {
        HttpRequestView { url: self.url@, bearer_token: self.bearer_token@, body: self.body@ }
    }
}

/// The one completion call planned for an inbound message.
#[derive(Debug)]
pub enum CompletionCall {
    /// Delegate to the managed provider, under this conversation identity.
    Managed {
        /// The opaque key scoping the provider's conversation memory.
        conversation_id: String,
        /// The inbound text, forwarded unchanged.
        text: String,
        /// Model choice, restart flag and system prompt.
        options: ChatOptions,
    },
    /// Post this fully framed request to the custom endpoint.
    Http {
        /// The request to perform.
        request: HttpRequest,
    },
}

/// What planning one message comes to: one call of either kind, or a
/// refusal that carries the error and plans no call at all.
#[verifier::ext_equal]
pub enum PlanView {
    CallManaged {
        conversation_id: Seq<char>,
        text: Seq<char>,
        model: Model,
        restart: bool,
        system_prompt: Option<Seq<char>>,
    },
    CallHttp { request: HttpRequestView },
    Refuse { error: RelayError },
}

/// The mathematical image of a planning result.
pub open spec fn plan_view(r: Result<CompletionCall, RelayError>) -> PlanView {
    match r {
        Ok(CompletionCall::Managed { conversation_id, text, options }) => PlanView::CallManaged {
            conversation_id: conversation_id@,
            text: text@,
            model: options.model,
            restart: options.restart,
            system_prompt: options.system_prompt.deep_view(),
        },
        Ok(CompletionCall::Http { request }) => PlanView::CallHttp { request: request@ },
        Err(e) => PlanView::Refuse { error: e },
    }
}

/// The whole planning decision for one inbound message.
///
/// The name `"openai"` plans a managed call keyed by workspace and channel;
/// `"custom"` plans one HTTP request when the key is present and refuses
/// with [`RelayError::MissingCredential`] when it is not; any other name is
/// refused with [`RelayError::UnsupportedBackend`]. No branch plans more
/// than one call.
pub open spec fn spec_plan(
    backend: Seq<char>,
    workspace: Seq<char>,
    channel: Seq<char>,
    text: Seq<char>,
    endpoint: Option<Seq<char>>,
    api_key: Option<Seq<char>>,
    model: Model,
    restart: bool,
    system_prompt: Option<Seq<char>>,
) -> PlanView {
    if backend == "openai"@ {
        PlanView::CallManaged {
            conversation_id: workspace + channel,
            text: text,
            model: model,
            restart: restart,
            system_prompt: system_prompt,
        }
    } else if backend == "custom"@ {
        match api_key {
            None => PlanView::Refuse { error: RelayError::MissingCredential },
            Some(key) => PlanView::CallHttp {
                request: HttpRequestView {
                    url: match endpoint {
                        Some(u) => u,
                        None => default_endpoint_view(),
                    },
                    bearer_token: "Bearer "@ + key,
                    body: request_body_view(model, text),
                },
            },
        }
    } else {
        PlanView::Refuse { error: RelayError::UnsupportedBackend }
    }
}

/// Plans the single completion call for one inbound message.
pub fn plan_message(
    backend_name: &str,
    workspace: &str,
    channel: &str,
    text: &str,
    endpoint: Option<String>,
    api_key: Option<String>,
    options: ChatOptions,
) -> (r: Result<CompletionCall, RelayError>)
    ensures
        plan_view(r) == spec_plan(
            backend_name@,
            workspace@,
            channel@,
            text@,
            endpoint.deep_view(),
            api_key.deep_view(),
            options.model,
            options.restart,
            options.system_prompt.deep_view(),
        ),
{
    match select_backend(backend_name) {
        Err(e) => Err(e),
        Ok(Backend::OpenAi) => Ok(CompletionCall::Managed {
            conversation_id: conversation_id(workspace, channel),
            text: text.to_owned(),
            options: options,
        }),
        Ok(Backend::Custom) => match api_key {
            None => Err(RelayError::MissingCredential),
            Some(key) => {
                let url = match endpoint {
                    Some(u) => u,
                    None => String::from_str("https://aigptx.top/v1"),
                };
                let mut bearer_token = String::from_str("Bearer ");
                bearer_token.append(key.as_str());
                let body = request_body(options.model, text);
                Ok(CompletionCall::Http {
                    request: HttpRequest { url, bearer_token, body },
                })
            },
        },
    }
}

} // verus!
