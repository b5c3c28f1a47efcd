use vstd::prelude::*;
use crate::chat::Model;
use crate::errors::RelayError;
use crate::outcome::{reply_text_of, spec_completion_result, spec_post, OutcomeView};
use crate::plan::{spec_plan, PlanView};

verus! {

/// How many completion calls a plan holds: one for either kind of call,
/// none for a refusal.
pub open spec fn plan_call_count(plan: PlanView) -> nat {
    match plan {
        PlanView::CallManaged { .. } => 1,
        PlanView::CallHttp { .. } => 1,
        PlanView::Refuse { .. } => 0,
    }
}

/// What one handled message posts back to the channel: nothing when
/// planning refused, and otherwise whatever the outcome of the one planned
/// call comes to.
pub open spec fn spec_posted(plan: PlanView, outcome: OutcomeView) -> Option<Seq<char>> {
    match plan {
        PlanView::Refuse { .. } => None,
        _ => spec_post(spec_completion_result(outcome)),
    }
}

/// Law: handling one inbound message plans at most one completion call,
/// and exactly one precisely when the backend name is recognized and, for
/// the custom backend, the API key is configured.
pub proof fn lemma_one_call_per_message(
    backend: Seq<char>,
    workspace: Seq<char>,
    channel: Seq<char>,
    text: Seq<char>,
    endpoint: Option<Seq<char>>,
    api_key: Option<Seq<char>>,
    model: Model,
    restart: bool,
    system_prompt: Option<Seq<char>>,
)
    ensures
        plan_call_count(
            spec_plan(backend, workspace, channel, text, endpoint, api_key, model, restart, system_prompt),
        ) <= 1,
        plan_call_count(
            spec_plan(backend, workspace, channel, text, endpoint, api_key, model, restart, system_prompt),
        ) == 1 <==> (backend == "openai"@ || (backend == "custom"@ && api_key is Some)),
{
}

/// Law: with the custom backend and no API key, planning refuses with
/// [`RelayError::MissingCredential`], so no HTTP request is ever formed,
/// let alone attempted.
pub proof fn lemma_missing_credential_refuses(
    workspace: Seq<char>,
    channel: Seq<char>,
    text: Seq<char>,
    endpoint: Option<Seq<char>>,
    model: Model,
    restart: bool,
    system_prompt: Option<Seq<char>>,
)
    ensures
        spec_plan("custom"@, workspace, channel, text, endpoint, None, model, restart, system_prompt)
            == (PlanView::Refuse { error: RelayError::MissingCredential }),
{
    reveal_strlit("custom");
    reveal_strlit("openai");
    assert("custom"@[0] == 'c');
    assert("openai"@[0] == 'o');
    assert("custom"@ != "openai"@);
}

/// Law: an unrecognized backend name plans no call at all, and whatever
/// outcome is then at hand, nothing is posted back to the channel.
pub proof fn lemma_unrecognized_backend_silent(
    backend: Seq<char>,
    workspace: Seq<char>,
    channel: Seq<char>,
    text: Seq<char>,
    endpoint: Option<Seq<char>>,
    api_key: Option<Seq<char>>,
    model: Model,
    restart: bool,
    system_prompt: Option<Seq<char>>,
    outcome: OutcomeView,
)
    requires
        backend != "openai"@,
        backend != "custom"@,
    ensures
        spec_plan(backend, workspace, channel, text, endpoint, api_key, model, restart, system_prompt)
            == (PlanView::Refuse { error: RelayError::UnsupportedBackend }),
        spec_posted(
            spec_plan(backend, workspace, channel, text, endpoint, api_key, model, restart, system_prompt),
            outcome,
        ) is None,
{
}

/// Law: when the custom endpoint's reply carries a string at
/// `choices[0].message.content`, exactly that string is posted back; when
/// it carries none, the result is a malformed-response failure and nothing
/// is posted.
pub proof fn lemma_custom_reply_posted_verbatim(body: Seq<char>)
    ensures
        reply_text_of(body) matches Some(t) ==> spec_post(
            spec_completion_result(OutcomeView::Http { body: Some(body) }),
        ) == Some(t),
        reply_text_of(body) is None ==> {
            &&& spec_completion_result(OutcomeView::Http { body: Some(body) })
                == Err::<Seq<char>, RelayError>(RelayError::MalformedResponse)
            &&& spec_post(spec_completion_result(OutcomeView::Http { body: Some(body) })) is None
        },
{
}

/// Law: the conversation identity handed to the managed provider is the
/// workspace name followed by the channel name, and depends on nothing
/// else: two messages in the same channel are planned under the same
/// identity, whatever their texts and whatever else changed around them.
pub proof fn lemma_conversation_identity_stable(
    workspace: Seq<char>,
    channel: Seq<char>,
    text1: Seq<char>,
    text2: Seq<char>,
    endpoint1: Option<Seq<char>>,
    endpoint2: Option<Seq<char>>,
    api_key1: Option<Seq<char>>,
    api_key2: Option<Seq<char>>,
    model: Model,
    restart: bool,
    system_prompt: Option<Seq<char>>,
)
    ensures
        spec_plan("openai"@, workspace, channel, text1, endpoint1, api_key1, model, restart, system_prompt)
            matches PlanView::CallManaged { conversation_id: id1, text: t1, .. }
            && t1 == text1 && id1 == workspace + channel,
        spec_plan("openai"@, workspace, channel, text2, endpoint2, api_key2, model, restart, system_prompt)
            matches PlanView::CallManaged { conversation_id: id2, text: t2, .. }
            && t2 == text2 && id2 == workspace + channel,
{
}

} // verus!
