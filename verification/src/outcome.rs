use vstd::prelude::*;
use crate::errors::RelayError;

verus! {

/// The string at `choices[0].message.content` of a JSON text, when the text
/// parses and a string sits at that path; `None` otherwise. The custom
/// endpoint's reply is read through this function alone.
pub uninterp spec fn reply_text_of(body: Seq<char>) -> Option<Seq<char>>;

/// Relies on `serde_json::from_str`, `serde_json::Value`'s `Index` impls and
/// `Value::as_str`: reads the string at `choices[0].message.content` of the
/// body, if the body parses and a string sits there. Indexing a `Value` that
/// lacks the key or the position yields `Null`, on which `as_str` is `None`,
/// so the whole read depends on the body text alone.
#[verifier::external_body]
fn extract_reply_text(body: &str) -> (r: Option<String>)
    ensures
        r.deep_view() == reply_text_of(body@),
{
    let parsed: Result<serde_json::Value, serde_json::Error> = serde_json::from_str(body);
    match parsed {
        Ok(v) => v["choices"][0]["message"]["content"].as_str().map(|s| s.to_string()),
        Err(_) => None,
    }
}

/// What an extracted reply comes to: the text itself when one was found,
/// and a malformed-response failure when none was.
pub open spec fn spec_reply_outcome(extracted: Option<Seq<char>>) -> Result<Seq<char>, RelayError> {
    match extracted {
        Some(t) => Ok(t),
        None => Err(RelayError::MalformedResponse),
    }
}

/// The mathematical image of a completion result.
pub open spec fn result_view(r: Result<String, RelayError>) -> Result<Seq<char>, RelayError> {
    match r {
        Ok(s) => Ok(s@),
        Err(e) => Err(e),
    }
}

/// Turns the text extracted from the custom endpoint's reply, or its
/// absence, into the completion result.
pub fn reply_from_extracted(extracted: Option<String>) -> (r: Result<String, RelayError>)
    ensures
        result_view(r) == spec_reply_outcome(extracted.deep_view()),
{
    match extracted {
        Some(t) => Ok(t),
        None => Err(RelayError::MalformedResponse),
    }
}

/// Interprets the custom endpoint's reply body: the string at
/// `choices[0].message.content`, or a malformed-response failure.
pub fn parse_completion_reply(body: &str) -> (r: Result<String, RelayError>)
    ensures
        result_view(r) == spec_reply_outcome(reply_text_of(body@)),
{
    reply_from_extracted(extract_reply_text(body))
}

/// What came back from performing the one planned completion call.
#[derive(Debug)]
pub enum CallOutcome {
    /// The managed provider returned a reply, or failed opaquely.
    Managed {
        /// The provider's reply text; `None` when the provider failed.
        reply: Option<String>,
    },
    /// The HTTP request to the custom endpoint completed with this body,
    /// or could not be completed at all.
    Http {
        /// The response body; `None` when the transport failed.
        body: Option<String>,
    },
}

/// The mathematical image of a call outcome.
#[verifier::ext_equal]
pub enum OutcomeView {
    Managed { reply: Option<Seq<char>> },
    Http { body: Option<Seq<char>> },
}

impl View for CallOutcome {
    type V = OutcomeView;

    open spec fn view(&self) -> OutcomeView {
        match self {
            CallOutcome::Managed { reply } => OutcomeView::Managed { reply: reply.deep_view() },
            CallOutcome::Http { body } => OutcomeView::Http { body: body.deep_view() },
        }
    }
}

/// The completion result an outcome comes to: a managed reply passes
/// through, a managed failure is a provider error, an HTTP body is read at
/// `choices[0].message.content`, and a transport failure is reported as
/// such.
pub open spec fn spec_completion_result(o: OutcomeView) -> Result<Seq<char>, RelayError> {
    match o {
        OutcomeView::Managed { reply: Some(t) } => Ok(t),
        OutcomeView::Managed { reply: None } => Err(RelayError::ProviderError),
        OutcomeView::Http { body: Some(b) } => spec_reply_outcome(reply_text_of(b)),
        OutcomeView::Http { body: None } => Err(RelayError::TransportError),
    }
}

/// Turns the outcome of the one completion call into the completion result.
pub fn completion_result(outcome: CallOutcome) -> (r: Result<String, RelayError>)
    ensures
        result_view(r) == spec_completion_result(outcome@),
{
    match outcome {
        CallOutcome::Managed { reply: Some(t) } => Ok(t),
        CallOutcome::Managed { reply: None } => Err(RelayError::ProviderError),
        CallOutcome::Http { body: Some(b) } => parse_completion_reply(b.as_str()),
        CallOutcome::Http { body: None } => Err(RelayError::TransportError),
    }
}

/// What gets posted back to the channel: the reply text on success, and
/// nothing at all on any failure.
pub open spec fn spec_post(result: Result<Seq<char>, RelayError>) -> Option<Seq<char>> {
    match result {
        Ok(t) => Some(t),
        Err(_) => None,
    }
}

/// Decides what to post back: the reply on success, nothing on failure.
pub fn reply_to_post(result: Result<String, RelayError>) -> (r: Option<String>)
    ensures
        r.deep_view() == spec_post(result_view(result)),
{
    match result {
        Ok(t) => Some(t),
        Err(_) => None,
    }
}

} // verus!
