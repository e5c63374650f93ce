//! User intents the app dispatches, as slash commands and key bindings
//! produce them.

use agent_client_protocol::ModelId;
use vstd::prelude::*;

verus! {

/// How hard the model is asked to reason.
#[derive(Debug, Clone, Copy, PartialEq, Eq, Structural)]
pub enum ReasoningEffort {
    Low,
    Medium,
    High,
    Xhigh,
}

#[verifier::external_type_specification]
#[verifier::external_body]
pub struct ExModelId(ModelId);

/// The protocol model identifier made from a slug.
pub uninterp spec fn model_id_of(slug: Seq<char>) -> ModelId;

/// `agent_client_protocol::ModelId` built from a slug (the tuple struct over
/// an `Arc<str>` holding the slug's text). The contract names the value by
/// `model_id_of`.
#[verifier::external_body]
pub(crate) fn model_id_from_slug(slug: &str) -> (r: ModelId)
    ensures
        r == model_id_of(slug@),
{
    ModelId(std::sync::Arc::from(slug))
}

/// What the user asked the app to do.
#[derive(Debug)]
pub enum Action {
    /// Open a new parallel agent tab.
    NewSession,
    /// Focus the next agent tab.
    NextAgentTab,
    /// Focus the previous agent tab.
    PrevAgentTab,
    /// Turn the two-pane task view on or off.
    ToggleSplitView,
    /// Hand the focused task off to another soul in a new related tab.
    Handoff { target: String, brief: Option<String> },
    /// Send a prompt to the focused agent.
    SendPrompt(String),
    /// Switch the focused agent's model.
    SwitchModel { model_id: ModelId, effort: Option<ReasoningEffort> },
}

} // verus!
