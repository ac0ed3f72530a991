use rag_search::merger::{
    find_last_user, gather_context, merge, ContextMerger, MergePolicy, Message, Role,
};
use rag_search::retrieval::RetrievedContext;
use rag_search::search::{SearchOutput, SearchResult};

fn message(role: Role, content: &str) -> Message {
    Message { role, content: content.to_string() }
}

fn context(text: &str) -> RetrievedContext {
    RetrievedContext { chunk_text: text.to_string(), score: 900_000 }
}

fn found(texts: &[&str]) -> SearchOutput {
    SearchOutput {
        results: texts
            .iter()
            .map(|text| SearchResult {
                url: "https://example.org".to_string(),
                site_name: "Example".to_string(),
                text_content: text.to_string(),
            })
            .collect(),
    }
}

fn talk() -> Vec<Message> {
    vec![
        message(Role::System, "Be brief."),
        message(Role::User, "What is a chunk?"),
        message(Role::Assistant, "A slice of a document."),
        message(Role::User, "And a token?"),
    ]
}

#[test]
fn merge_of_nothing_is_the_identity() {
    let conversations = vec![
        talk(),
        Vec::new(),
        vec![message(Role::User, "hello")],
        vec![message(Role::Assistant, "no user here")],
    ];
    for conversation in conversations {
        for policy in [MergePolicy::SystemMessage, MergePolicy::LastUserMessage] {
            let merged = merge(&conversation, &Vec::new(), &found(&[]), policy);
            assert_eq!(merged, conversation);
        }
    }
}

#[test]
fn merge_appends_to_the_last_user_message() {
    let merged = merge(
        &talk(),
        &vec![context("[chunk one]"), context("[chunk two]")],
        &found(&["[web]"]),
        MergePolicy::LastUserMessage,
    );
    assert_eq!(
        merged,
        vec![
            message(Role::System, "Be brief."),
            message(Role::User, "What is a chunk?"),
            message(Role::Assistant, "A slice of a document."),
            message(Role::User, "And a token?[chunk one][chunk two][web]"),
        ]
    );
}

#[test]
fn merge_appends_to_the_system_message() {
    let merged = merge(
        &talk(),
        &vec![context("[chunk]")],
        &found(&[]),
        MergePolicy::SystemMessage,
    );
    assert_eq!(
        merged,
        vec![
            message(Role::System, "Be brief.[chunk]"),
            message(Role::User, "What is a chunk?"),
            message(Role::Assistant, "A slice of a document."),
            message(Role::User, "And a token?"),
        ]
    );
}

#[test]
fn merge_puts_a_system_message_before_the_history() {
    let conversation = vec![message(Role::User, "hello"), message(Role::System, "late")];
    let merged = merge(&conversation, &Vec::new(), &found(&["[web]"]), MergePolicy::SystemMessage);
    assert_eq!(
        merged,
        vec![
            message(Role::System, "[web]"),
            message(Role::User, "hello"),
            message(Role::System, "late"),
        ]
    );
    let from_nothing = merge(&Vec::new(), &vec![context("c")], &found(&[]), MergePolicy::SystemMessage);
    assert_eq!(from_nothing, vec![message(Role::System, "c")]);
}

#[test]
fn merge_without_a_user_message_changes_nothing() {
    let conversation = vec![message(Role::System, "s"), message(Role::Assistant, "a")];
    let merged = merge(
        &conversation,
        &vec![context("c")],
        &found(&["w"]),
        MergePolicy::LastUserMessage,
    );
    assert_eq!(merged, conversation);
}

#[test]
fn merge_leaves_the_conversation_of_the_caller_alone() {
    let conversation = talk();
    let copy = conversation.clone();
    let _ = merge(&conversation, &vec![context("c")], &found(&[]), MergePolicy::LastUserMessage);
    assert_eq!(conversation, copy);
}

#[test]
fn merge_falls_back_without_a_system_role() {
    let retrieved = vec![context("[chunk]")];
    let output = found(&["[web]"]);
    let merger = ContextMerger::new(MergePolicy::SystemMessage, false);
    assert!(merger.is_downgraded());
    assert_eq!(merger.effective_policy(), MergePolicy::LastUserMessage);
    for conversation in [talk(), Vec::new(), vec![message(Role::Assistant, "a")]] {
        assert_eq!(
            merger.merge(&conversation, &retrieved, &output),
            merge(&conversation, &retrieved, &output, MergePolicy::LastUserMessage)
        );
    }
}

#[test]
fn merger_keeps_the_policy_where_it_can() {
    let with_system = ContextMerger::new(MergePolicy::SystemMessage, true);
    assert!(!with_system.is_downgraded());
    assert_eq!(with_system.effective_policy(), MergePolicy::SystemMessage);
    assert_eq!(
        with_system.merge(&talk(), &vec![context("c")], &found(&[])),
        merge(&talk(), &vec![context("c")], &found(&[]), MergePolicy::SystemMessage)
    );
    for has_system_role in [true, false] {
        let last_user = ContextMerger::new(MergePolicy::LastUserMessage, has_system_role);
        assert!(!last_user.is_downgraded());
        assert_eq!(last_user.effective_policy(), MergePolicy::LastUserMessage);
    }
}

#[test]
fn context_is_the_chunks_then_the_results() {
    let text = gather_context(&vec![context("a"), context("b")], &found(&["c", "d"]));
    assert_eq!(text, "abcd");
    assert_eq!(gather_context(&Vec::new(), &found(&[])), "");
}

#[test]
fn the_last_user_message_is_found() {
    assert_eq!(find_last_user(&talk()), Some(3));
    assert_eq!(find_last_user(&vec![message(Role::User, "u"), message(Role::Tool, "t")]), Some(0));
    assert_eq!(find_last_user(&vec![message(Role::System, "s")]), None);
    assert_eq!(find_last_user(&Vec::new()), None);
}
