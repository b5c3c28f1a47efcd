use vstd::prelude::*;
use vstd::string::*;

verus! {

/// A configured value, or the given fallback where none is configured.
pub open spec fn spec_or_default(value: Option<Seq<char>>, fallback: Seq<char>) -> Seq<char> {
    match value {
        Some(v) => v,
        None => fallback,
    }
}

/// The configured value, or the fallback where none is configured.
fn or_default(value: Option<String>, fallback: &str) -> (r: String)
    ensures
        r@ == spec_or_default(value.deep_view(), fallback@),
{
    match value {
        Some(v) => v,
        None => fallback.to_owned(),
    }
}

/// The target workspace: the configured name, or `"secondstate"`.
pub fn workspace_or_default(value: Option<String>) -> (r: String)
    ensures
        r@ == spec_or_default(value.deep_view(), "secondstate"@),
{
    or_default(value, "secondstate")
}

/// The target channel: the configured name, or `"collaborative-chat"`.
pub fn channel_or_default(value: Option<String>) -> (r: String)
    ensures
        r@ == spec_or_default(value.deep_view(), "collaborative-chat"@),
{
    or_default(value, "collaborative-chat")
}

/// The backend selector: the configured name, or `"openai"`.
pub fn backend_or_default(value: Option<String>) -> (r: String)
    ensures
        r@ == spec_or_default(value.deep_view(), "openai"@),
{
    or_default(value, "openai")
}

} // verus!
