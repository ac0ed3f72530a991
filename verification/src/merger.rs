//! Folding retrieved context into a conversation.

use vstd::prelude::*;
use vstd::string::StringExecFns;
use crate::retrieval::{context_views, RetrievedContext, RetrievedContextView};
use crate::search::{SearchOutput, SearchResultView};

verus! {

/// Who speaks in a message.
#[derive(Clone, Copy, Debug, PartialEq, Eq, Structural)]
pub enum Role {
    System,
    User,
    Assistant,
    Tool,
}

/// One message of a conversation.
#[derive(Clone, Debug, PartialEq, Eq)]
pub struct Message {
    pub role: Role,
    pub content: String,
}

/// The mathematical value of a [`Message`].
pub struct MessageView {
    pub role: Role,
    pub content: Seq<char>,
}

impl View for Message {
    type V = MessageView;

    open spec fn view(&self) -> MessageView {
        MessageView { role: self.role, content: self.content@ }
    }
}

/// Where retrieved context is placed in a conversation.
#[derive(Clone, Copy, Debug, PartialEq, Eq, Structural)]
pub enum MergePolicy {
    SystemMessage,
    LastUserMessage,
}

/// The values of the messages of a conversation, in order.
pub open spec fn conversation_view(messages: Seq<Message>) -> Seq<MessageView> {
    messages.map_values(|m: Message| m@)
}

/// The text that is injected: the retrieved chunks in their order, then the
/// text of the search results in theirs, with nothing in between.
pub open spec fn context_text(
    retrieved: Seq<RetrievedContextView>,
    results: Seq<SearchResultView>,
) -> Seq<char> {
    retrieved.map_values(|c: RetrievedContextView| c.chunk_text).flatten() + results.map_values(
        |r: SearchResultView| r.text_content,
    ).flatten()
}

/// The position of the most recent user message, if there is one.
pub open spec fn last_user(conversation: Seq<MessageView>) -> Option<int>
    decreases conversation.len(),
{
    if conversation.len() == 0 {
        None
    } else if conversation.last().role == Role::User {
        Some(conversation.len() - 1)
    } else {
        last_user(conversation.drop_last())
    }
}

/// `conversation` with `text` appended to the content of the message at `at`.
pub open spec fn with_appended(conversation: Seq<MessageView>, at: int, text: Seq<char>) -> Seq<
    MessageView,
> {
    conversation.update(
        at,
        MessageView { role: conversation[at].role, content: conversation[at].content + text },
    )
}

/// `conversation` with `text` in its system message: appended to the system
/// message that opens the conversation, or as a new system message before
/// the history where it opens with none.
pub open spec fn with_system_context(conversation: Seq<MessageView>, text: Seq<char>) -> Seq<
    MessageView,
> {
    if conversation.len() > 0 && conversation[0].role == Role::System {
        with_appended(conversation, 0, text)
    } else {
        seq![MessageView { role: Role::System, content: text }] + conversation
    }
}

/// `conversation` with `text` appended to its most recent user message; a
/// conversation without a user message stays as it is.
pub open spec fn with_user_context(conversation: Seq<MessageView>, text: Seq<char>) -> Seq<
    MessageView,
> {
    match last_user(conversation) {
        Some(at) => with_appended(conversation, at, text),
        None => conversation,
    }
}

/// The conversation that the chat model is given.
pub open spec fn merged(
    conversation: Seq<MessageView>,
    retrieved: Seq<RetrievedContextView>,
    results: Seq<SearchResultView>,
    policy: MergePolicy,
) -> Seq<MessageView> {
    if retrieved.len() == 0 && results.len() == 0 {
        conversation
    } else {
        match policy {
            MergePolicy::SystemMessage => with_system_context(
                conversation,
                context_text(retrieved, results),
            ),
            MergePolicy::LastUserMessage => with_user_context(
                conversation,
                context_text(retrieved, results),
            ),
        }
    }
}

/// The policy that is in force for a chat template: a template without a
/// system role turns `SystemMessage` into `LastUserMessage`.
pub open spec fn effective(policy: MergePolicy, template_has_system_role: bool) -> MergePolicy {
    if policy == MergePolicy::SystemMessage && !template_has_system_role {
        MergePolicy::LastUserMessage
    } else {
        policy
    }
}

proof fn lemma_last_user_bounds(conversation: Seq<MessageView>)
    ensures
        match last_user(conversation) {
            Some(at) => {
                &&& 0 <= at < conversation.len()
                &&& conversation[at].role == Role::User
                &&& forall|k: int| at < k < conversation.len() ==> conversation[k].role != Role::User
            },
            None => forall|k: int| 0 <= k < conversation.len() ==> conversation[k].role != Role::User,
        },
    decreases conversation.len(),
{
    if conversation.len() > 0 && conversation.last().role != Role::User {
        let shorter = conversation.drop_last();
        lemma_last_user_bounds(shorter);
        assert(forall|k: int| 0 <= k < shorter.len() ==> shorter[k] == conversation[k]);
    }
}

proof fn lemma_last_user_found(conversation: Seq<MessageView>, at: int)
    requires
        0 <= at < conversation.len(),
        conversation[at].role == Role::User,
        forall|k: int| at < k < conversation.len() ==> conversation[k].role != Role::User,
    ensures
        last_user(conversation) == Some(at),
    decreases conversation.len(),
{
    if conversation.last().role != Role::User {
        lemma_last_user_found(conversation.drop_last(), at);
    }
}

/// Merging nothing changes nothing: without retrieved context and without
/// search results the conversation is returned as it was, under any policy.
pub proof fn lemma_merge_identity(conversation: Seq<MessageView>, policy: MergePolicy)
    ensures
        merged(conversation, Seq::empty(), Seq::empty(), policy) == conversation,
{
}

/// Under a chat template that has no system role, a merger configured with
/// `SystemMessage` gives what `LastUserMessage` gives.
pub proof fn lemma_merge_fallback(
    conversation: Seq<MessageView>,
    retrieved: Seq<RetrievedContextView>,
    results: Seq<SearchResultView>,
)
    ensures
        merged(conversation, retrieved, results, effective(MergePolicy::SystemMessage, false))
            == merged(conversation, retrieved, results, MergePolicy::LastUserMessage),
{
}

/// With one retrieved chunk and no search result, `LastUserMessage` appends
/// the text of that chunk to the most recent user message and changes
/// nothing else.
pub proof fn lemma_one_chunk_reaches_last_user(
    conversation: Seq<MessageView>,
    chunk: RetrievedContextView,
    at: int,
)
    requires
        last_user(conversation) == Some(at),
    ensures
        merged(conversation, seq![chunk], Seq::empty(), MergePolicy::LastUserMessage)
            == with_appended(conversation, at, chunk.chunk_text),
        0 <= at < conversation.len(),
        conversation[at].role == Role::User,
        with_appended(conversation, at, chunk.chunk_text)[at].content == conversation[at].content
            + chunk.chunk_text,
{
    lemma_last_user_bounds(conversation);
    let texts = seq![chunk].map_values(|c: RetrievedContextView| c.chunk_text);
    let none = Seq::<SearchResultView>::empty().map_values(|r: SearchResultView| r.text_content);
    assert(texts =~= seq![chunk.chunk_text]);
    texts.lemma_flatten_one_element();
    assert(none =~= Seq::<Seq<char>>::empty());
    assert(none.flatten() =~= Seq::<char>::empty());
    assert(context_text(seq![chunk], Seq::empty()) =~= chunk.chunk_text);
}

/// Merging keeps every message in its place: the policies add at most one
/// system message in front and otherwise only lengthen one message.
pub proof fn lemma_merge_keeps_history(
    conversation: Seq<MessageView>,
    retrieved: Seq<RetrievedContextView>,
    results: Seq<SearchResultView>,
    policy: MergePolicy,
)
    ensures
        ({
            let after = merged(conversation, retrieved, results, policy);
            let shift = after.len() - conversation.len();
            &&& 0 <= shift <= 1
            &&& forall|k: int|
                0 <= k < conversation.len() ==> {
                    &&& (#[trigger] after[k + shift]).role == conversation[k].role
                    &&& conversation[k].content.is_prefix_of(after[k + shift].content)
                }
        }),
{
    lemma_last_user_bounds(conversation);
    let text = context_text(retrieved, results);
    let after = merged(conversation, retrieved, results, policy);
    let shift = after.len() - conversation.len();
    assert forall|k: int| 0 <= k < conversation.len() implies {
        &&& (#[trigger] after[k + shift]).role == conversation[k].role
        &&& conversation[k].content.is_prefix_of(after[k + shift].content)
    } by {
        assert(conversation[k].content =~= conversation[k].content.subrange(
            0,
            conversation[k].content.len() as int,
        ));
        assert((conversation[k].content + text).subrange(0, conversation[k].content.len() as int)
            =~= conversation[k].content);
    }
}

fn copy_message(message: &Message) -> (r: Message)
    ensures
        r@ == message@,
{
    Message { role: message.role, content: message.content.clone() }
}

fn lengthened(message: &Message, text: &str) -> (r: Message)
    ensures
        r@ == (MessageView { role: message.role, content: message.content@ + text@ }),
{
    let mut content = message.content.clone();
    content.append(text);
    Message { role: message.role, content }
}

/// The text of the retrieved chunks followed by the text of the search
/// results.
pub fn gather_context(retrieved: &Vec<RetrievedContext>, search_output: &SearchOutput) -> (text:
    String)
    ensures
        text@ == context_text(context_views(retrieved@), search_output@),
{
    let ghost chunks = context_views(retrieved@).map_values(
        |c: RetrievedContextView| c.chunk_text,
    );
    let ghost found = search_output@.map_values(|r: SearchResultView| r.text_content);
    let mut text = String::new();
    let mut i: usize = 0;
    proof {
        assert(chunks.take(0) =~= Seq::empty());
    }
    while i < retrieved.len()
        invariant
            i <= retrieved.len(),
            chunks == context_views(retrieved@).map_values(|c: RetrievedContextView| c.chunk_text),
            text@ == chunks.take(i as int).flatten(),
        decreases retrieved.len() - i,
    {
        proof {
            assert(chunks.take(i + 1) =~= chunks.take(i as int).push(retrieved[i as int].chunk_text@));
            chunks.take(i as int).lemma_flatten_push(retrieved[i as int].chunk_text@);
        }
        text.append(retrieved[i].chunk_text.as_str());
        i = i + 1;
    }
    let mut j: usize = 0;
    proof {
        assert(chunks.take(i as int) =~= chunks);
        assert(found.take(0) =~= Seq::empty());
        assert(text@ =~= chunks.flatten() + found.take(0).flatten());
    }
    while j < search_output.results.len()
        invariant
            j <= search_output.results.len(),
            found == search_output@.map_values(|r: SearchResultView| r.text_content),
            text@ == chunks.flatten() + found.take(j as int).flatten(),
        decreases search_output.results.len() - j,
    {
        proof {
            assert(found.take(j + 1) =~= found.take(j as int).push(
                search_output.results[j as int].text_content@,
            ));
            found.take(j as int).lemma_flatten_push(search_output.results[j as int].text_content@);
        }
        text.append(search_output.results[j].text_content.as_str());
        j = j + 1;
    }
    proof {
        assert(found.take(j as int) =~= found);
    }
    text
}

/// The position of the most recent user message of `conversation`.
pub fn find_last_user(conversation: &Vec<Message>) -> (found: Option<usize>)
    ensures
        match found {
            Some(at) => last_user(conversation_view(conversation@)) == Some(at as int),
            None => last_user(conversation_view(conversation@)) is None,
        },
{
    let ghost view = conversation_view(conversation@);
    let mut i: usize = conversation.len();
    while i > 0
        invariant
            i <= conversation.len(),
            view == conversation_view(conversation@),
            forall|k: int| i <= k < conversation.len() ==> view[k].role != Role::User,
        decreases i,
    {
        i = i - 1;
        if conversation[i].role == Role::User {
            proof {
                lemma_last_user_found(view, i as int);
            }
            return Some(i);
        }
    }
    proof {
        lemma_last_user_bounds(view);
    }
    None
}

/// Merges retrieved context into `conversation` under `policy` and returns
/// the conversation for the chat model; the caller's conversation is left
/// as it is.
pub fn merge(
    conversation: &Vec<Message>,
    retrieved_context: &Vec<RetrievedContext>,
    search_output: &SearchOutput,
    policy: MergePolicy,
) -> (result: Vec<Message>)
    ensures
        conversation_view(result@) == merged(
            conversation_view(conversation@),
            context_views(retrieved_context@),
            search_output@,
            policy,
        ),
        retrieved_context.len() == 0 && search_output.results.len() == 0 ==> conversation_view(
            result@,
        ) == conversation_view(conversation@),
{
    let ghost before = conversation_view(conversation@);
    let nothing = retrieved_context.len() == 0 && search_output.results.len() == 0;
    let text = if nothing {
        String::new()
    } else {
        gather_context(retrieved_context, search_output)
    };
    let target: Option<usize> = if nothing {
        None
    } else {
        match policy {
            MergePolicy::SystemMessage => {
                if conversation.len() > 0 && conversation[0].role == Role::System {
                    Some(0)
                } else {
                    None
                }
            },
            MergePolicy::LastUserMessage => find_last_user(conversation),
        }
    };
    proof {
        lemma_last_user_bounds(before);
    }
    let ghost expected = Seq::new(
        before.len(),
        |k: int|
            if target == Some(k as usize) {
                MessageView { role: before[k].role, content: before[k].content + text@ }
            } else {
                before[k]
            },
    );
    let mut result: Vec<Message> = Vec::new();
    if !nothing && policy == MergePolicy::SystemMessage && target.is_none() {
        result.push(Message { role: Role::System, content: text.clone() });
    }
    let ghost head = conversation_view(result@);
    proof {
        assert(head + expected.take(0) =~= head);
    }
    let mut i: usize = 0;
    while i < conversation.len()
        invariant
            i <= conversation.len(),
            before == conversation_view(conversation@),
            expected.len() == before.len(),
            forall|k: int|
                0 <= k < before.len() ==> #[trigger] expected[k] == if target == Some(k as usize) {
                    MessageView { role: before[k].role, content: before[k].content + text@ }
                } else {
                    before[k]
                },
            conversation_view(result@) == head + expected.take(i as int),
        decreases conversation.len() - i,
    {
        let ghost so_far = conversation_view(result@);
        let message = if target == Some(i) {
            lengthened(&conversation[i], text.as_str())
        } else {
            copy_message(&conversation[i])
        };
        result.push(message);
        proof {
            assert(message@ == expected[i as int]);
            assert(conversation_view(result@) =~= so_far.push(message@));
            assert(head + expected.take(i + 1) =~= (head + expected.take(i as int)).push(
                expected[i as int],
            ));
        }
        i = i + 1;
    }
    proof {
        let goal = merged(before, context_views(retrieved_context@), search_output@, policy);
        assert(expected.take(i as int) =~= expected);
        if nothing || target.is_none() {
            assert(expected =~= before);
        } else {
            assert(expected =~= with_appended(before, target->0 as int, text@));
        }
        assert(head + expected =~= goal);
    }
    result
}

/// A merger that is set up once for a server: the configured policy together
/// with what the chat template of the model supports.
#[derive(Clone, Copy, Debug, PartialEq, Eq)]
pub struct ContextMerger {
    policy: MergePolicy,
    template_has_system_role: bool,
}

impl ContextMerger {
    /// The policy that was configured.
    pub closed spec fn configured(&self) -> MergePolicy {
        self.policy
    }

    /// Whether the chat template has a place for a system message.
    pub closed spec fn has_system_role(&self) -> bool {
        self.template_has_system_role
    }

    /// A merger for the configured `policy` and a chat template that has a
    /// system role or has none.
    pub fn new(policy: MergePolicy, template_has_system_role: bool) -> (merger: ContextMerger)
        ensures
            merger.configured() == policy,
            merger.has_system_role() == template_has_system_role,
    {
        ContextMerger { policy, template_has_system_role }
    }

    /// The policy that this merger applies.
    pub fn effective_policy(&self) -> (policy: MergePolicy)
        ensures
            policy == effective(self.configured(), self.has_system_role()),
    {
        if self.policy == MergePolicy::SystemMessage && !self.template_has_system_role {
            MergePolicy::LastUserMessage
        } else {
            self.policy
        }
    }

    /// Whether the configured policy had to give way to `LastUserMessage`
    /// because the chat template has no system role. A server reports this
    /// as a warning.
    pub fn is_downgraded(&self) -> (downgraded: bool)
        ensures
            downgraded == (self.configured() == MergePolicy::SystemMessage
                && !self.has_system_role()),
            downgraded == (effective(self.configured(), self.has_system_role())
                != self.configured()),
    {
        self.policy == MergePolicy::SystemMessage && !self.template_has_system_role
    }

    /// Merges under the policy that is in force for the chat template.
    pub fn merge(
        &self,
        conversation: &Vec<Message>,
        retrieved_context: &Vec<RetrievedContext>,
        search_output: &SearchOutput,
    ) -> (result: Vec<Message>)
        ensures
            conversation_view(result@) == merged(
                conversation_view(conversation@),
                context_views(retrieved_context@),
                search_output@,
                effective(self.configured(), self.has_system_role()),
            ),
    {
        merge(conversation, retrieved_context, search_output, self.effective_policy())
    }
}

} // verus!
