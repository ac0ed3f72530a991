//! Splitting a document into chunks of a bounded number of tokens.
//!
//! A token is a run of visible characters together with the blanks that
//! follow it; blanks at the very start of a text are a token of their own.
//! Every character therefore lies in exactly one token, and a text can be cut
//! between tokens without losing anything.

use vstd::prelude::*;
use vstd::std_specs::iter::IteratorSpec;

verus! {

/// One piece of a source document.
#[derive(Clone, Debug, PartialEq, Eq)]
pub struct DocumentChunk {
    pub source_id: String,
    pub sequence_index: usize,
    pub text: String,
    pub token_count: usize,
}

impl DocumentChunk {
    /// Whether the chunk counts the tokens of its own text, and holds at
    /// least one token and no more than `capacity`.
    pub open spec fn fits(&self, capacity: usize) -> bool {
        self.token_count == token_count(self.text@) && 1 <= self.token_count <= capacity
    }
}

/// The characters that separate tokens.
pub open spec fn is_blank(c: char) -> bool {
    c == ' ' || c == '\t' || c == '\n' || c == '\r'
}

/// Whether a token of `text` starts at position `i`: at the first character,
/// and at every visible character that follows a blank.
pub open spec fn starts_token(text: Seq<char>, i: int) -> bool {
    0 <= i < text.len() && (i == 0 || (is_blank(text[i - 1]) && !is_blank(text[i])))
}

/// The number of tokens of `text`.
pub open spec fn token_count(text: Seq<char>) -> nat
    decreases text.len(),
{
    if text.len() == 0 {
        0
    } else if starts_token(text, text.len() - 1) {
        token_count(text.drop_last()) + 1
    } else {
        token_count(text.drop_last())
    }
}

/// The tokens of all `texts` together.
pub open spec fn total_tokens(texts: Seq<Seq<char>>) -> nat
    decreases texts.len(),
{
    if texts.len() == 0 {
        0
    } else {
        total_tokens(texts.drop_last()) + token_count(texts.last())
    }
}

/// The texts of `chunks`, in order.
pub open spec fn chunk_texts(chunks: Seq<DocumentChunk>) -> Seq<Seq<char>> {
    chunks.map_values(|c: DocumentChunk| c.text@)
}

/// How many chunks of `capacity` tokens hold `tokens` tokens.
pub open spec fn chunks_needed(tokens: nat, capacity: nat) -> int {
    (tokens + capacity - 1) / (capacity as int)
}

/// Whether `c` separates tokens.
pub fn is_blank_char(c: char) -> (r: bool)
    ensures
        r == is_blank(c),
{
    c == ' ' || c == '\t' || c == '\n' || c == '\r'
}

proof fn lemma_token_count_push(text: Seq<char>, c: char)
    ensures
        token_count(text.push(c)) == token_count(text) + if text.len() == 0 || (is_blank(
            text.last(),
        ) && !is_blank(c)) {
            1nat
        } else {
            0nat
        },
{
    let longer = text.push(c);
    assert(longer.drop_last() =~= text);
    assert(longer[longer.len() - 1] == c);
    if text.len() > 0 {
        assert(longer[longer.len() - 2] == text.last());
    }
}

proof fn lemma_total_tokens_push(texts: Seq<Seq<char>>, text: Seq<char>)
    ensures
        total_tokens(texts.push(text)) == total_tokens(texts) + token_count(text),
{
    assert(texts.push(text).drop_last() =~= texts);
}

proof fn lemma_chunks_needed(full: nat, rest: nat, capacity: nat)
    requires
        1 <= rest <= capacity,
    ensures
        chunks_needed(full * capacity + rest, capacity) == full + 1,
{
    assert((full * capacity + rest + capacity - 1) / (capacity as int) == full + 1)
        by (nonlinear_arith)
        requires
            1 <= rest <= capacity,
    ;
}

proof fn lemma_no_chunk_needed(full: nat, capacity: nat)
    requires
        capacity >= 1,
        full * capacity == 0,
    ensures
        full == 0,
        chunks_needed(0, capacity) == 0,
{
    assert(full == 0) by (nonlinear_arith)
        requires
            capacity >= 1,
            full * capacity == 0,
    ;
    assert((0 + capacity - 1) / (capacity as int) == 0) by (nonlinear_arith)
        requires
            capacity >= 1,
    ;
}

/// An empty text has no token, and every other text has at least one.
pub proof fn lemma_token_count_positive(text: Seq<char>)
    ensures
        text.len() == 0 <==> token_count(text) == 0,
    decreases text.len(),
{
    if text.len() > 1 {
        lemma_token_count_positive(text.drop_last());
    } else if text.len() == 1 {
        assert(text.drop_last().len() == 0);
    }
}

/// A text that has no more tokens than a chunk holds needs one chunk, and
/// an empty text needs none.
pub proof fn lemma_short_text_needs_one_chunk(tokens: nat, capacity: nat)
    requires
        tokens <= capacity,
        capacity >= 1,
    ensures
        chunks_needed(tokens, capacity) == if tokens == 0 {
            0int
        } else {
            1int
        },
{
    if tokens == 0 {
        lemma_no_chunk_needed(0, capacity);
    } else {
        lemma_chunks_needed(0, tokens, capacity);
    }
}

/// Splits `source_text` into chunks of at most `capacity_tokens` tokens.
///
/// The chunks partition the text in order: every chunk but the last holds
/// exactly `capacity_tokens` tokens, no token is divided between two chunks,
/// and an empty text has no chunk.
pub fn chunk(source_id: &str, source_text: &str, capacity_tokens: usize) -> (chunks: Vec<
    DocumentChunk,
>)
    requires
        capacity_tokens >= 1,
    ensures
        chunk_texts(chunks@).flatten() == source_text@,
        total_tokens(chunk_texts(chunks@)) == token_count(source_text@),
        chunks.len() == chunks_needed(token_count(source_text@), capacity_tokens as nat),
        source_text@.len() == 0 ==> chunks.len() == 0,
        1 <= token_count(source_text@) <= capacity_tokens ==> chunks.len() == 1,
        chunks.len() > 0 ==> chunks[chunks.len() - 1].token_count == token_count(source_text@) - (
        chunks.len() - 1) * capacity_tokens,
        forall|i: int|
            0 <= i < chunks.len() ==> {
                &&& (#[trigger] chunks[i]).source_id@ == source_id@
                &&& chunks[i].sequence_index == i
                &&& chunks[i].fits(capacity_tokens)
                &&& i + 1 < chunks.len() ==> chunks[i].token_count == capacity_tokens
            },
{
    proof {
        lemma_token_count_positive(source_text@);
        if token_count(source_text@) <= capacity_tokens {
            lemma_short_text_needs_one_chunk(
                token_count(source_text@),
                capacity_tokens as nat,
            );
        }
    }
    let mut chunks: Vec<DocumentChunk> = Vec::new();
    let mut current = String::new();
    let mut tokens: usize = 0;
    let mut after_blank = false;
    let ghost mut seen: Seq<char> = Seq::empty();
    let mut rest = source_text.chars();
    proof {
        assert(chunk_texts(chunks@) =~= Seq::empty());
        assert(seen + rest.remaining() =~= source_text@);
        assert(chunks.len() * capacity_tokens == 0) by (nonlinear_arith)
            requires
                chunks.len() == 0,
        ;
    }
    loop
        invariant
            capacity_tokens >= 1,
            rest.obeys_prophetic_iter_laws(),
            rest.decrease() is Some,
            seen + rest.remaining() == source_text@,
            chunk_texts(chunks@).flatten() + current@ == seen,
            total_tokens(chunk_texts(chunks@)) + tokens == token_count(seen),
            total_tokens(chunk_texts(chunks@)) == chunks.len() * capacity_tokens,
            tokens == token_count(current@),
            tokens <= capacity_tokens,
            (current@.len() == 0) == (seen.len() == 0),
            (current@.len() == 0) == (tokens == 0),
            seen.len() > 0 ==> after_blank == is_blank(seen.last()),
            forall|i: int|
                0 <= i < chunks.len() ==> {
                    &&& (#[trigger] chunks[i]).source_id@ == source_id@
                    &&& chunks[i].sequence_index == i
                    &&& chunks[i].token_count == token_count(chunks[i].text@)
                    &&& chunks[i].token_count == capacity_tokens
                },
        ensures
            seen == source_text@,
        decreases rest.decrease()->0,
    {
        let next = rest.next();
        let c = match next {
            Some(c) => c,
            None => {
                assert(seen + rest.remaining() =~= seen);
                break ;
            },
        };
        let blank = is_blank_char(c);
        let starts = tokens == 0 || (after_blank && !blank);
        proof {
            lemma_token_count_push(seen, c);
            lemma_token_count_push(current@, c);
            if current@.len() > 0 {
                assert(seen.last() == current@.last());
            }
        }
        if starts && tokens == capacity_tokens {
            let index = chunks.len();
            proof {
                lemma_total_tokens_push(chunk_texts(chunks@), current@);
                chunk_texts(chunks@).lemma_flatten_push(current@);
                lemma_token_count_push(Seq::empty(), c);
                assert((chunks.len() + 1) * capacity_tokens == chunks.len() * capacity_tokens
                    + capacity_tokens) by (nonlinear_arith);
            }
            let ghost before = chunks@;
            let finished = DocumentChunk {
                source_id: source_id.to_string(),
                sequence_index: index,
                text: current,
                token_count: tokens,
            };
            chunks.push(finished);
            proof {
                assert(chunk_texts(chunks@) =~= chunk_texts(before).push(finished.text@));
            }
            current = String::new();
            tokens = 0;
        }
        if starts {
            tokens = tokens + 1;
        }
        current.push(c);
        after_blank = blank;
        proof {
            assert(seen.push(c) + rest.remaining() =~= source_text@);
            assert(chunk_texts(chunks@).flatten() + current@ =~= seen.push(c));
            seen = seen.push(c);
        }
    }
    if tokens > 0 {
        let index = chunks.len();
        proof {
            lemma_total_tokens_push(chunk_texts(chunks@), current@);
            chunk_texts(chunks@).lemma_flatten_push(current@);
            lemma_chunks_needed(chunks.len() as nat, tokens as nat, capacity_tokens as nat);
        }
        let ghost before = chunks@;
        let finished = DocumentChunk {
            source_id: source_id.to_string(),
            sequence_index: index,
            text: current,
            token_count: tokens,
        };
        chunks.push(finished);
        proof {
            assert(chunk_texts(chunks@) =~= chunk_texts(before).push(finished.text@));
        }
    } else {
        proof {
            lemma_no_chunk_needed(chunks.len() as nat, capacity_tokens as nat);
        }
    }
    chunks
}

} // verus!
