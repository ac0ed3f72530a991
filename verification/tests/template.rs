use chat_prompts::PromptTemplateType;
use rag_search::merger::MergePolicy;
use rag_search::template::merger_for_template;

#[test]
fn a_template_with_a_system_role_keeps_the_policy() {
    let merger = merger_for_template(MergePolicy::SystemMessage, &PromptTemplateType::Llama2Chat);
    assert!(!merger.is_downgraded());
    assert_eq!(merger.effective_policy(), MergePolicy::SystemMessage);
}

#[test]
fn a_template_without_a_system_role_downgrades_the_policy() {
    let merger =
        merger_for_template(MergePolicy::SystemMessage, &PromptTemplateType::MistralInstruct);
    assert!(merger.is_downgraded());
    assert_eq!(merger.effective_policy(), MergePolicy::LastUserMessage);
}

#[test]
fn the_last_user_policy_fits_every_template() {
    for template in [PromptTemplateType::Llama2Chat, PromptTemplateType::MistralInstruct] {
        let merger = merger_for_template(MergePolicy::LastUserMessage, &template);
        assert!(!merger.is_downgraded());
        assert_eq!(merger.effective_policy(), MergePolicy::LastUserMessage);
    }
}
