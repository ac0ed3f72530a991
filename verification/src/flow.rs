//! The course of one query: from idle, through the retrieval of context on
//! two independent paths, to the merge and the conversation that is ready
//! for the chat model.
//!
//! The two paths are the similarity retrieval from the vector store and the
//! external web search. The host runs them, in turn or at once, and tells
//! the flow how each ended. A path that failed or ran out of time counts as
//! a path that found nothing. The merge is made when both paths have
//! settled, never before.

use vstd::prelude::*;
use crate::error::SearchError;
use crate::merger::{conversation_view, effective, merged, ContextMerger, Message};
use crate::retrieval::{context_views, RetrievedContext, RetrievedContextView};
use crate::search::{SearchOutput, SearchResultView};

verus! {

/// Where a query stands.
#[derive(Clone, Copy, Debug, PartialEq, Eq, Structural)]
pub enum Phase {
    Idle,
    Retrieving,
    Merging,
    Ready,
}

/// The mathematical value of a [`QueryFlow`].
pub struct QueryFlowView {
    pub phase: Phase,
    /// Whether the vector-store path has yet to settle.
    pub retrieval_pending: bool,
    /// Whether the web-search path has yet to settle.
    pub search_pending: bool,
    /// What the vector-store path found.
    pub retrieved: Seq<RetrievedContextView>,
    /// What the web-search path found.
    pub found: Seq<SearchResultView>,
}

/// What happens to a flow.
pub enum FlowEvent {
    /// The query begins, on the paths named.
    Started { use_retrieval: bool, use_search: bool },
    /// The vector-store path ended, with this context or with none.
    RetrievalSettled(Seq<RetrievedContextView>),
    /// The web-search path ended, with these results or with none.
    SearchSettled(Seq<SearchResultView>),
    /// The merge was made.
    Merged,
}

impl QueryFlowView {
    /// A path is awaited only while retrieving, some path is awaited then,
    /// and a path that is awaited has found nothing yet.
    pub open spec fn wf(self) -> bool {
        &&& self.phase == Phase::Retrieving <==> (self.retrieval_pending || self.search_pending)
        &&& self.retrieval_pending ==> self.retrieved.len() == 0
        &&& self.search_pending ==> self.found.len() == 0
        &&& self.phase == Phase::Idle ==> self.retrieved.len() == 0 && self.found.len() == 0
    }

    /// The flow of a query that has not begun.
    pub open spec fn idle() -> QueryFlowView {
        QueryFlowView {
            phase: Phase::Idle,
            retrieval_pending: false,
            search_pending: false,
            retrieved: Seq::empty(),
            found: Seq::empty(),
        }
    }

    /// The phase in which nothing, or something, is awaited.
    pub open spec fn phase_for(retrieval_pending: bool, search_pending: bool) -> Phase {
        if retrieval_pending || search_pending {
            Phase::Retrieving
        } else {
            Phase::Merging
        }
    }

    /// The flow after the query has begun on the paths named. A query that
    /// uses no path goes to the merge at once.
    pub open spec fn started(self, use_retrieval: bool, use_search: bool) -> QueryFlowView {
        if self.phase == Phase::Idle {
            QueryFlowView {
                phase: Self::phase_for(use_retrieval, use_search),
                retrieval_pending: use_retrieval,
                search_pending: use_search,
                retrieved: Seq::empty(),
                found: Seq::empty(),
            }
        } else {
            self
        }
    }

    /// The flow after the vector-store path has settled.
    pub open spec fn retrieval_settled(self, context: Seq<RetrievedContextView>) -> QueryFlowView {
        if self.phase == Phase::Retrieving && self.retrieval_pending {
            QueryFlowView {
                phase: Self::phase_for(false, self.search_pending),
                retrieval_pending: false,
                retrieved: context,
                ..self
            }
        } else {
            self
        }
    }

    /// The flow after the web-search path has settled.
    pub open spec fn search_settled(self, results: Seq<SearchResultView>) -> QueryFlowView {
        if self.phase == Phase::Retrieving && self.search_pending {
            QueryFlowView {
                phase: Self::phase_for(self.retrieval_pending, false),
                search_pending: false,
                found: results,
                ..self
            }
        } else {
            self
        }
    }

    /// The flow after the merge.
    pub open spec fn finished(self) -> QueryFlowView {
        if self.phase == Phase::Merging {
            QueryFlowView { phase: Phase::Ready, ..self }
        } else {
            self
        }
    }

    /// The flow after an event. An event that does not belong to the phase
    /// leaves the flow as it is.
    pub open spec fn next(self, event: FlowEvent) -> QueryFlowView {
        match event {
            FlowEvent::Started { use_retrieval, use_search } => self.started(
                use_retrieval,
                use_search,
            ),
            FlowEvent::RetrievalSettled(context) => self.retrieval_settled(context),
            FlowEvent::SearchSettled(results) => self.search_settled(results),
            FlowEvent::Merged => self.finished(),
        }
    }

    /// The flow after a sequence of events.
    pub open spec fn after(self, events: Seq<FlowEvent>) -> QueryFlowView
        decreases events.len(),
    {
        if events.len() == 0 {
            self
        } else {
            self.after(events.drop_last()).next(events.last())
        }
    }
}

/// What a path found: the results of a path that succeeded, nothing for a
/// path that failed.
pub open spec fn search_found(outcome: Result<SearchOutput, SearchError>) -> Seq<SearchResultView> {
    match outcome {
        Ok(output) => output@,
        Err(_) => Seq::empty(),
    }
}

/// What the vector-store path found: its context, or nothing where the
/// path failed.
pub open spec fn retrieval_found(outcome: Option<Vec<RetrievedContext>>) -> Seq<
    RetrievedContextView,
> {
    match outcome {
        Some(context) => context_views(context@),
        None => Seq::empty(),
    }
}

/// The course of one query. Every flow is well formed.
#[derive(Debug, PartialEq, Eq)]
pub struct QueryFlow {
    phase: Phase,
    retrieval_pending: bool,
    search_pending: bool,
    retrieved: Vec<RetrievedContext>,
    found: SearchOutput,
}

impl View for QueryFlow {
    type V = QueryFlowView;

    closed spec fn view(&self) -> QueryFlowView {
        QueryFlowView {
            phase: self.phase,
            retrieval_pending: self.retrieval_pending,
            search_pending: self.search_pending,
            retrieved: context_views(self.retrieved@),
            found: self.found@,
        }
    }
}

impl QueryFlow {
    #[verifier::type_invariant]
    spec fn valid(self) -> bool {
        self@.wf()
    }

    /// The flow of a query that has not begun.
    pub fn new() -> (flow: QueryFlow)
        ensures
            flow@ == QueryFlowView::idle(),
    {
        let flow = QueryFlow {
            phase: Phase::Idle,
            retrieval_pending: false,
            search_pending: false,
            retrieved: Vec::new(),
            found: SearchOutput { results: Vec::new() },
        };
        proof {
            assert(flow@.retrieved =~= Seq::empty());
            assert(flow@.found =~= Seq::empty());
        }
        flow
    }

    /// Begins the query on the paths named.
    pub fn start(self, use_retrieval: bool, use_search: bool) -> (flow: QueryFlow)
        ensures
            flow@ == self@.started(use_retrieval, use_search),
    {
        proof {
            use_type_invariant(&self);
        }
        match self.phase {
            Phase::Idle => {
                let flow = QueryFlow {
                    phase: if use_retrieval || use_search {
                        Phase::Retrieving
                    } else {
                        Phase::Merging
                    },
                    retrieval_pending: use_retrieval,
                    search_pending: use_search,
                    retrieved: self.retrieved,
                    found: self.found,
                };
                proof {
                    assert(flow@.retrieved =~= Seq::empty());
                    assert(flow@.found =~= Seq::empty());
                }
                flow
            },
            _ => self,
        }
    }

    /// Takes the end of the vector-store path: its context, or `None`
    /// where the path failed or ran out of time.
    pub fn settle_retrieval(self, outcome: Option<Vec<RetrievedContext>>) -> (flow: QueryFlow)
        ensures
            flow@ == self@.retrieval_settled(retrieval_found(outcome)),
    {
        proof {
            use_type_invariant(&self);
        }
        if self.phase == Phase::Retrieving && self.retrieval_pending {
            let retrieved = match outcome {
                Some(context) => context,
                None => self.retrieved,
            };
            let flow = QueryFlow {
                phase: if self.search_pending {
                    Phase::Retrieving
                } else {
                    Phase::Merging
                },
                retrieval_pending: false,
                search_pending: self.search_pending,
                retrieved,
                found: self.found,
            };
            proof {
                assert(flow@.retrieved =~= retrieval_found(outcome));
            }
            flow
        } else {
            self
        }
    }

    /// Takes the end of the web-search path: its output, or the error with
    /// which it failed.
    pub fn settle_search(self, outcome: Result<SearchOutput, SearchError>) -> (flow: QueryFlow)
        ensures
            flow@ == self@.search_settled(search_found(outcome)),
    {
        proof {
            use_type_invariant(&self);
        }
        if self.phase == Phase::Retrieving && self.search_pending {
            let found = match outcome {
                Ok(output) => output,
                Err(_) => self.found,
            };
            let flow = QueryFlow {
                phase: if self.retrieval_pending {
                    Phase::Retrieving
                } else {
                    Phase::Merging
                },
                retrieval_pending: self.retrieval_pending,
                search_pending: false,
                retrieved: self.retrieved,
                found,
            };
            proof {
                assert(flow@.found =~= search_found(outcome));
            }
            flow
        } else {
            self
        }
    }

    /// Makes the merge, once both paths have settled: the conversation for
    /// the chat model holds what the paths found. Before that, and after
    /// the merge was made, there is no conversation to hand out.
    pub fn finish(self, merger: &ContextMerger, conversation: &Vec<Message>) -> (done: (
        QueryFlow,
        Option<Vec<Message>>,
    ))
        ensures
            done.0@ == self@.finished(),
            done.1 is Some <==> self@.phase == Phase::Merging,
            done.1 matches Some(result) ==> {
                &&& !self@.retrieval_pending && !self@.search_pending
                &&& conversation_view(result@) == merged(
                    conversation_view(conversation@),
                    self@.retrieved,
                    self@.found,
                    effective(merger.configured(), merger.has_system_role()),
                )
            },
    {
        proof {
            use_type_invariant(&self);
        }
        if self.phase == Phase::Merging {
            let result = merger.merge(conversation, &self.retrieved, &self.found);
            let flow = QueryFlow {
                phase: Phase::Ready,
                retrieval_pending: self.retrieval_pending,
                search_pending: self.search_pending,
                retrieved: self.retrieved,
                found: self.found,
            };
            (flow, Some(result))
        } else {
            (self, None)
        }
    }

    /// Where the query stands.
    pub fn phase(&self) -> (phase: Phase)
        ensures
            phase == self@.phase,
    {
        self.phase
    }

    /// The context that the vector-store path found.
    pub fn retrieved(&self) -> (retrieved: &Vec<RetrievedContext>)
        ensures
            context_views(retrieved@) == self@.retrieved,
    {
        &self.retrieved
    }

    /// The results that the web-search path found.
    pub fn found(&self) -> (found: &SearchOutput)
        ensures
            found@ == self@.found,
    {
        &self.found
    }
}

/// Whatever happens to a query and in whatever order, its flow stays well
/// formed: it is in the merge or ready only when no path is awaited.
pub proof fn lemma_flow_stays_well_formed(events: Seq<FlowEvent>)
    ensures
        QueryFlowView::idle().after(events).wf(),
        ({
            let flow = QueryFlowView::idle().after(events);
            flow.phase == Phase::Merging || flow.phase == Phase::Ready ==> !flow.retrieval_pending
                && !flow.search_pending
        }),
    decreases events.len(),
{
    if events.len() > 0 {
        lemma_flow_stays_well_formed(events.drop_last());
    }
}

/// A path that failed changes nothing but that it is no longer awaited:
/// the query goes on with what the other path finds.
pub proof fn lemma_failed_path_is_empty(flow: QueryFlowView, error: SearchError)
    requires
        flow.wf(),
    ensures
        flow.search_settled(search_found(Err(error))).found == flow.found,
        flow.search_settled(search_found(Err(error))).retrieved == flow.retrieved,
        flow.search_settled(search_found(Err(error))).phase != Phase::Idle ==> flow.phase
            != Phase::Idle,
        flow.retrieval_settled(retrieval_found(None)).retrieved == flow.retrieved,
        flow.retrieval_settled(retrieval_found(None)).found == flow.found,
{
    if flow.search_pending {
        assert(flow.found =~= Seq::empty());
    }
    if flow.retrieval_pending {
        assert(flow.retrieved =~= Seq::empty());
    }
}

} // verus!
