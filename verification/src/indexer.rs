//! Bringing the chunks of a document into the vector store.
//!
//! The embedding model and the store are the host's. The library decides
//! what is done next: the host performs the action it is given and reports
//! what came of it. A chunk that cannot be embedded or that the store
//! refuses is passed over; only a store that cannot be reached ends the
//! run.

use vstd::prelude::*;
use crate::error::{IndexError, ModelError, StoreError};

verus! {

/// Where a run stands.
#[derive(Clone, Copy, Debug, PartialEq, Eq, Structural)]
pub enum IndexStage {
    /// The chunk in turn is being embedded.
    Embedding,
    /// The chunk in turn has its vector and is being written to the store.
    Upserting,
    /// Every chunk was indexed or passed over.
    Finished,
    /// The store could not be reached.
    Failed,
}

/// What the host reports.
#[derive(Clone, Copy, Debug, PartialEq, Eq, Structural)]
pub enum IndexEvent {
    /// The embedding model gave a vector for the chunk in turn.
    Embedded,
    /// The embedding model failed on the chunk in turn.
    EmbeddingFailed(ModelError),
    /// The store took the chunk in turn.
    Upserted,
    /// The store did not take the chunk in turn.
    UpsertFailed(StoreError),
}

/// What the host is to do.
#[derive(Clone, Copy, Debug, PartialEq, Eq, Structural)]
pub enum IndexAction {
    /// Ask the embedding model for the vector of the chunk at this place.
    Embed(usize),
    /// Write the chunk at this place, with the vector just computed, to the
    /// store.
    Upsert(usize),
    /// Nothing is left to do. The run indexed this many chunks.
    Complete(usize),
    /// Nothing can be done any more.
    Abort(IndexError),
}

/// The mathematical value of an [`IndexRun`].
pub struct IndexRunView {
    /// How many chunks there are.
    pub total: usize,
    /// The place of the chunk in turn; all chunks before it are dealt with.
    pub position: usize,
    /// How many chunks are in the store.
    pub indexed: usize,
    /// How many chunks were passed over.
    pub skipped: usize,
    pub stage: IndexStage,
}

impl IndexRunView {
    /// Every chunk before the one in turn was indexed or passed over, and
    /// the stage fits the place.
    pub open spec fn wf(self) -> bool {
        &&& self.position <= self.total
        &&& self.indexed + self.skipped == self.position
        &&& match self.stage {
            IndexStage::Embedding | IndexStage::Upserting => self.position < self.total,
            IndexStage::Finished => self.position == self.total,
            IndexStage::Failed => true,
        }
    }

    /// The run before its first step.
    pub open spec fn initial(total: usize) -> IndexRunView {
        IndexRunView {
            total,
            position: 0,
            indexed: 0,
            skipped: 0,
            stage: if total == 0 {
                IndexStage::Finished
            } else {
                IndexStage::Embedding
            },
        }
    }

    /// What the host is to do in this state.
    pub open spec fn pending(self) -> IndexAction {
        match self.stage {
            IndexStage::Embedding => IndexAction::Embed(self.position),
            IndexStage::Upserting => IndexAction::Upsert(self.position),
            IndexStage::Finished => IndexAction::Complete(self.indexed),
            IndexStage::Failed => IndexAction::Abort(IndexError::StoreUnreachable),
        }
    }

    /// The run after the chunk in turn was dealt with.
    pub open spec fn advanced(self, taken: bool) -> IndexRunView {
        IndexRunView {
            total: self.total,
            position: (self.position + 1) as usize,
            indexed: if taken {
                (self.indexed + 1) as usize
            } else {
                self.indexed
            },
            skipped: if taken {
                self.skipped
            } else {
                (self.skipped + 1) as usize
            },
            stage: if self.position + 1 == self.total {
                IndexStage::Finished
            } else {
                IndexStage::Embedding
            },
        }
    }

    /// The run after an event. An event that does not belong to the stage
    /// leaves the run as it is.
    pub open spec fn next(self, event: IndexEvent) -> IndexRunView {
        match (self.stage, event) {
            (IndexStage::Embedding, IndexEvent::Embedded) => IndexRunView {
                stage: IndexStage::Upserting,
                ..self
            },
            (IndexStage::Embedding, IndexEvent::EmbeddingFailed(_)) => self.advanced(false),
            (IndexStage::Upserting, IndexEvent::Upserted) => self.advanced(true),
            (IndexStage::Upserting, IndexEvent::UpsertFailed(StoreError::Rejected)) => self.advanced(
                false,
            ),
            (
                IndexStage::Upserting,
                IndexEvent::UpsertFailed(StoreError::Unreachable),
            ) => IndexRunView { stage: IndexStage::Failed, ..self },
            _ => self,
        }
    }

    /// The run after a sequence of events.
    pub open spec fn after(self, events: Seq<IndexEvent>) -> IndexRunView
        decreases events.len(),
    {
        if events.len() == 0 {
            self
        } else {
            self.after(events.drop_last()).next(events.last())
        }
    }

    /// What the run came to, once it is over.
    pub open spec fn result(self) -> Option<Result<usize, IndexError>> {
        match self.stage {
            IndexStage::Finished => Some(Ok(self.indexed)),
            IndexStage::Failed => Some(Err(IndexError::StoreUnreachable)),
            _ => None,
        }
    }
}

/// The state of one ingestion run over a sequence of chunks. Every run is
/// well formed.
#[derive(Clone, Copy, Debug, PartialEq, Eq)]
pub struct IndexRun {
    total: usize,
    position: usize,
    indexed: usize,
    skipped: usize,
    stage: IndexStage,
}

impl View for IndexRun {
    type V = IndexRunView;

    closed spec fn view(&self) -> IndexRunView {
        IndexRunView {
            total: self.total,
            position: self.position,
            indexed: self.indexed,
            skipped: self.skipped,
            stage: self.stage,
        }
    }
}

impl IndexRun {
    #[verifier::type_invariant]
    spec fn valid(self) -> bool {
        self@.wf()
    }

    /// Begins a run over `total` chunks.
    pub fn start(total: usize) -> (begun: (IndexRun, IndexAction))
        ensures
            begun.0@ == IndexRunView::initial(total),
            begun.1 == begun.0@.pending(),
    {
        let run = IndexRun {
            total,
            position: 0,
            indexed: 0,
            skipped: 0,
            stage: if total == 0 {
                IndexStage::Finished
            } else {
                IndexStage::Embedding
            },
        };
        let action = run.action();
        (run, action)
    }

    /// What the host is to do in this state.
    pub fn action(&self) -> (action: IndexAction)
        ensures
            action == self@.pending(),
    {
        match self.stage {
            IndexStage::Embedding => IndexAction::Embed(self.position),
            IndexStage::Upserting => IndexAction::Upsert(self.position),
            IndexStage::Finished => IndexAction::Complete(self.indexed),
            IndexStage::Failed => IndexAction::Abort(IndexError::StoreUnreachable),
        }
    }

    fn advance(self, taken: bool) -> (run: IndexRun)
        requires
            self@.position < self@.total,
        ensures
            run@ == self@.advanced(taken),
    {
        proof {
            use_type_invariant(&self);
        }
        let position = self.position + 1;
        IndexRun {
            total: self.total,
            position,
            indexed: if taken {
                self.indexed + 1
            } else {
                self.indexed
            },
            skipped: if taken {
                self.skipped
            } else {
                self.skipped + 1
            },
            stage: if position == self.total {
                IndexStage::Finished
            } else {
                IndexStage::Embedding
            },
        }
    }

    fn staged(self, stage: IndexStage) -> (run: IndexRun)
        requires
            stage == IndexStage::Failed || (stage == IndexStage::Upserting && self@.position
                < self@.total),
        ensures
            run@ == (IndexRunView { stage, ..self@ }),
    {
        proof {
            use_type_invariant(&self);
        }
        IndexRun {
            total: self.total,
            position: self.position,
            indexed: self.indexed,
            skipped: self.skipped,
            stage,
        }
    }

    /// Takes what the host reports and says what is to be done next.
    pub fn step(self, event: IndexEvent) -> (stepped: (IndexRun, IndexAction))
        ensures
            stepped.0@ == self@.next(event),
            stepped.1 == stepped.0@.pending(),
            stepped.0@.wf(),
    {
        proof {
            use_type_invariant(&self);
        }
        let run = match self.stage {
            IndexStage::Embedding => match event {
                IndexEvent::Embedded => self.staged(IndexStage::Upserting),
                IndexEvent::EmbeddingFailed(_) => self.advance(false),
                _ => self,
            },
            IndexStage::Upserting => match event {
                IndexEvent::Upserted => self.advance(true),
                IndexEvent::UpsertFailed(StoreError::Rejected) => self.advance(false),
                IndexEvent::UpsertFailed(StoreError::Unreachable) => self.staged(
                    IndexStage::Failed,
                ),
                _ => self,
            },
            _ => self,
        };
        proof {
            use_type_invariant(&run);
        }
        let action = run.action();
        (run, action)
    }

    /// What the run came to, once it is over: the number of chunks that
    /// are in the store, or the failure of the store.
    pub fn outcome(&self) -> (outcome: Option<Result<usize, IndexError>>)
        ensures
            outcome == self@.result(),
    {
        match self.stage {
            IndexStage::Finished => Some(Ok(self.indexed)),
            IndexStage::Failed => Some(Err(IndexError::StoreUnreachable)),
            _ => None,
        }
    }

    /// How many chunks the run is over.
    pub fn total(&self) -> (total: usize)
        ensures
            total == self@.total,
    {
        self.total
    }

    /// The place of the chunk in turn.
    pub fn position(&self) -> (position: usize)
        ensures
            position == self@.position,
    {
        self.position
    }

    /// How many chunks were passed over so far.
    pub fn skipped(&self) -> (skipped: usize)
        ensures
            skipped == self@.skipped,
    {
        self.skipped
    }

    /// How many chunks are in the store so far.
    pub fn indexed(&self) -> (indexed: usize)
        ensures
            indexed == self@.indexed,
    {
        self.indexed
    }

    /// Where the run stands.
    pub fn stage(&self) -> (stage: IndexStage)
        ensures
            stage == self@.stage,
    {
        self.stage
    }
}

/// Whatever the host reports, a run stays well formed: every chunk before
/// the one in turn was either indexed or passed over.
pub proof fn lemma_run_stays_well_formed(total: usize, events: Seq<IndexEvent>)
    ensures
        IndexRunView::initial(total).after(events).wf(),
        IndexRunView::initial(total).after(events).total == total,
    decreases events.len(),
{
    if events.len() > 0 {
        lemma_run_stays_well_formed(total, events.drop_last());
    }
}

/// A run that finished dealt with every chunk, so it indexed all chunks but
/// those it passed over; and a run fails only on a store out of reach.
pub proof fn lemma_finished_run_counts(total: usize, events: Seq<IndexEvent>)
    ensures
        ({
            let run = IndexRunView::initial(total).after(events);
            &&& run.result() matches Some(Ok(count)) ==> count + run.skipped == total
            &&& run.result() matches Some(Err(_)) ==> events.contains(
                IndexEvent::UpsertFailed(StoreError::Unreachable),
            )
        }),
    decreases events.len(),
{
    lemma_run_stays_well_formed(total, events);
    if events.len() > 0 {
        let earlier = events.drop_last();
        lemma_finished_run_counts(total, earlier);
        lemma_run_stays_well_formed(total, earlier);
        let run = IndexRunView::initial(total).after(events);
        if run.stage == IndexStage::Failed {
            if IndexRunView::initial(total).after(earlier).stage == IndexStage::Failed {
                let at = choose|at: int|
                    0 <= at < earlier.len() && earlier[at] == IndexEvent::UpsertFailed(
                        StoreError::Unreachable,
                    );
                assert(events[at] == earlier[at]);
            } else {
                assert(events[events.len() - 1] == IndexEvent::UpsertFailed(
                    StoreError::Unreachable,
                ));
            }
        }
    }
}

} // verus!
