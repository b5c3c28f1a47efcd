use vstd::prelude::*;

verus! {

/// Why handling one inbound message produced no reply.
///
/// Every failure is contained to the message being handled: the channel
/// simply receives no reply, and the listener keeps running.
#[derive(Clone, Copy, Debug, PartialEq, Eq, Structural)]
pub enum RelayError {
    /// The configured backend name is neither of the supported ones.
    UnsupportedBackend,
    /// The custom backend was chosen but no API key is configured.
    MissingCredential,
    /// The HTTP request to the custom endpoint could not be completed.
    TransportError,
    /// The custom endpoint answered, but not with the expected JSON shape.
    MalformedResponse,
    /// The managed provider reported an opaque failure.
    ProviderError,
}

impl RelayError {
    /// A short description of the failure, for logging at the edge.
    pub fn describe(&self) -> (r: &'static str)
        ensures
            *self == RelayError::UnsupportedBackend ==> r@ == "Unknown API service"@,
            *self == RelayError::MissingCredential ==> r@ == "Custom API Key not set"@,
            *self == RelayError::TransportError ==> r@ == "Error with custom API"@,
            *self == RelayError::MalformedResponse ==> r@ == "Unexpected API response"@,
            *self == RelayError::ProviderError ==> r@ == "Error from OpenAI service"@,
    {
        match self {
            RelayError::UnsupportedBackend => "Unknown API service",
            RelayError::MissingCredential => "Custom API Key not set",
            RelayError::TransportError => "Error with custom API",
            RelayError::MalformedResponse => "Unexpected API response",
            RelayError::ProviderError => "Error from OpenAI service",
        }
    }
}

} // verus!
