//! Choosing, among the neighbours that a vector store returned, the context
//! that is relevant enough to be shown to the chat model.
//!
//! A similarity score is held as an integer. The host chooses the scale and
//! gives the scores and the threshold on the same scale; the library
//! compares them as integers. A scale that keeps the order of the store's
//! scores, such as the bits of a fraction taken in their order, loses
//! nothing. A scale that rounds, such as millionths, cannot tell apart two
//! scores that it rounds to the same integer.

use vstd::prelude::*;

verus! {

/// A chunk of text with the similarity that the store found for it.
#[derive(Clone, Debug, PartialEq, Eq)]
pub struct RetrievedContext {
    pub chunk_text: String,
    pub score: i64,
}

/// The mathematical value of a [`RetrievedContext`].
pub struct RetrievedContextView {
    pub chunk_text: Seq<char>,
    pub score: i64,
}

impl View for RetrievedContext {
    type V = RetrievedContextView;

    open spec fn view(&self) -> RetrievedContextView {
        RetrievedContextView { chunk_text: self.chunk_text@, score: self.score }
    }
}

/// The values of a sequence of contexts, in order.
pub open spec fn context_views(contexts: Seq<RetrievedContext>) -> Seq<RetrievedContextView> {
    contexts.map_values(|c: RetrievedContext| c@)
}

/// The first `limit` neighbours.
pub open spec fn nearest(hits: Seq<RetrievedContextView>, limit: nat) -> Seq<RetrievedContextView> {
    if limit < hits.len() {
        hits.take(limit as int)
    } else {
        hits
    }
}

/// What is kept of the neighbours `hits`: of the first `limit`, in their
/// order, those whose score is not below `score_threshold`.
pub open spec fn relevant(hits: Seq<RetrievedContextView>, limit: nat, score_threshold: i64) -> Seq<
    RetrievedContextView,
> {
    nearest(hits, limit).filter(|hit: RetrievedContextView| hit.score >= score_threshold)
}

/// Applies the result limit and the similarity threshold to the neighbours
/// that the store returned for a query, keeping the store's ranking.
pub fn select_context(hits: &Vec<RetrievedContext>, limit: usize, score_threshold: i64) -> (kept:
    Vec<RetrievedContext>)
    ensures
        context_views(kept@) == relevant(context_views(hits@), limit as nat, score_threshold),
        kept.len() <= limit,
        kept.len() <= hits.len(),
        forall|i: int| 0 <= i < kept.len() ==> (#[trigger] kept[i]).score >= score_threshold,
{
    let bound = if limit < hits.len() {
        limit
    } else {
        hits.len()
    };
    let ghost all = context_views(hits@);
    let ghost clears = |hit: RetrievedContextView| hit.score >= score_threshold;
    let mut kept: Vec<RetrievedContext> = Vec::new();
    let mut i: usize = 0;
    proof {
        assert(all.take(0) =~= Seq::empty());
        reveal(Seq::filter);
        assert(context_views(kept@) =~= all.take(0).filter(clears));
    }
    while i < bound
        invariant
            i <= bound <= hits.len(),
            all == context_views(hits@),
            clears == |hit: RetrievedContextView| hit.score >= score_threshold,
            context_views(kept@) == all.take(i as int).filter(clears),
        decreases bound - i,
    {
        let hit = &hits[i];
        proof {
            assert(all.take(i + 1) =~= all.take(i as int).push(hit@));
            all.take(i as int).lemma_filter_push(hit@, clears);
        }
        if hit.score >= score_threshold {
            let ghost before = kept@;
            kept.push(RetrievedContext { chunk_text: hit.chunk_text.clone(), score: hit.score });
            proof {
                assert(context_views(kept@) =~= context_views(before).push(hit@));
            }
        }
        i = i + 1;
    }
    proof {
        assert(nearest(all, limit as nat) =~= all.take(bound as int));
        all.take(bound as int).lemma_filter_len(clears);
        assert forall|i: int| 0 <= i < kept.len() implies (#[trigger] kept[i]).score
            >= score_threshold by {
            all.take(bound as int).lemma_filter_pred(clears, i);
            assert(context_views(kept@)[i] == kept[i]@);
        }
    }
    kept
}

} // verus!
