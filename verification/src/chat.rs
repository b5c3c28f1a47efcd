use vstd::prelude::*;
use vstd::string::*;
use crate::escape::{escape_text, escaped};

verus! {

/// The completion model asked of either backend.
#[derive(Clone, Copy, Debug, PartialEq, Eq, Structural)]
pub enum Model {
    Gpt35Turbo,
}

/// The identifier under which a model is named on the wire.
pub open spec fn model_id_view(m: Model) -> Seq<char> {
    match m {
        Model::Gpt35Turbo => "gpt-3.5-turbo"@,
    }
}

impl Model {
    /// The wire identifier of this model.
    pub fn id(&self) -> (r: &'static str)
        ensures
            r@ == model_id_view(*self),
    {
        match self {
            Model::Gpt35Turbo => "gpt-3.5-turbo",
        }
    }
}

/// Per-message completion configuration, constructed fresh for every
/// inbound message and never persisted.
#[derive(Debug)]
pub struct ChatOptions {
    /// Which model the backend is asked for.
    pub model: Model,
    /// Whether prior conversation context is discarded before this call.
    pub restart: bool,
    /// An optional system prompt handed to the managed provider.
    pub system_prompt: Option<String>,
}

/// The configuration used for every message: the turbo model, continuing
/// the conversation, with no system prompt.
pub fn default_chat_options() -> (r: ChatOptions)
    ensures
        r.model == Model::Gpt35Turbo,
        r.restart == false,
        r.system_prompt is None,
{
    ChatOptions { model: Model::Gpt35Turbo, restart: false, system_prompt: None }
}

/// The JSON body sent to the custom endpoint: the model identifier and a
/// single user-role message carrying the inbound text, escaped.
pub open spec fn request_body_view(model: Model, text: Seq<char>) -> Seq<char> {
    "{\"model\":\""@ + model_id_view(model)
        + "\",\"messages\":[{\"role\":\"user\",\"content\":\""@ + escaped(text) + "\"}]}"@
}

/// Frames the JSON request body for the custom endpoint.
pub fn request_body(model: Model, text: &str) -> (r: String)
    ensures
        r@ == request_body_view(model, text@),
{
    let mut out = String::from_str("{\"model\":\"");
    out.append(model.id());
    out.append("\",\"messages\":[{\"role\":\"user\",\"content\":\"");
    let esc = escape_text(text);
    out.append(esc.as_str());
    out.append("\"}]}");
    proof {
        assert(out@ =~= request_body_view(model, text@));
    }
    out
}

} // verus!
