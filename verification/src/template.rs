//! The boundary to `chat_prompts`: what the library asks of a chat template.

use vstd::prelude::*;
use crate::merger::{ContextMerger, MergePolicy};

verus! {

/// `chat_prompts::PromptTemplateType`, the chat template of a model.
#[verifier::external_type_specification]
#[verifier::external_body]
pub struct ExPromptTemplateType(chat_prompts::PromptTemplateType);

/// Whether a chat template has a place for a system message, as
/// `PromptTemplateType::has_system_prompt` tells it.
pub uninterp spec fn template_has_system_prompt(template: chat_prompts::PromptTemplateType) -> bool;

/// Calls `PromptTemplateType::has_system_prompt`. Trusted: the answer
/// depends on the template alone.
#[verifier::external_body]
fn has_system_prompt(template: &chat_prompts::PromptTemplateType) -> (has: bool)
    ensures
        has == template_has_system_prompt(*template),
{
    template.has_system_prompt()
}

/// The merger for a server whose chat model speaks through `template`.
/// Where the template has no system role, the merger applies
/// `LastUserMessage` whatever was configured, and says so when asked.
pub fn merger_for_template(policy: MergePolicy, template: &chat_prompts::PromptTemplateType) -> (merger:
    ContextMerger)
    ensures
        merger.configured() == policy,
        merger.has_system_role() == template_has_system_prompt(*template),
{
    ContextMerger::new(policy, has_system_prompt(template))
}

} // verus!
