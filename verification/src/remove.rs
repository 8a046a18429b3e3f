//! Removing a record: the record file is deleted, and nothing is written in
//! its place. Removing what is not there succeeds and does nothing.

use vstd::prelude::*;

use crate::error::{CauseView, IoPhase, IoPhaseView, StorageError, StorageErrorView};
use crate::protocol::{Action, ActionView, Event, EventView, Step, StepView};

verus! {

/// How far a removal has come.
#[derive(Clone, Copy, Debug, PartialEq, Eq)]
pub enum RemovePhase {
    /// Asking whether the record file exists.
    Probe,
    /// Deleting it.
    Delete,
}

/// The operation that removes one record.
#[derive(Clone, Debug, PartialEq, Eq)]
pub struct RemoveTokens {
    /// The path of the node's record file.
    pub token_path: String,
    /// The node, for the context of errors.
    pub node_name: String,
    pub phase: RemovePhase,
}

/// The mathematical value of a [`RemoveTokens`].
pub struct RemoveTokensView {
    pub token_path: Seq<char>,
    pub node_name: Seq<char>,
    pub phase: RemovePhase,
}

impl View for RemoveTokens {
    type V = RemoveTokensView;

    open spec fn view(&self) -> RemoveTokensView {
        RemoveTokensView {
            token_path: self.token_path@,
            node_name: self.node_name@,
            phase: self.phase,
        }
    }
}

impl RemoveTokensView {
    /// The state in which the operation starts.
    pub open spec fn start(token_path: Seq<char>, node_name: Seq<char>) -> RemoveTokensView {
        RemoveTokensView { token_path, node_name, phase: RemovePhase::Probe }
    }

    /// The same operation in another phase.
    pub open spec fn at(self, phase: RemovePhase) -> RemoveTokensView {
        RemoveTokensView { phase, ..self }
    }

    /// The action that the operation waits for.
    pub open spec fn pending(self) -> ActionView {
        match self.phase {
            RemovePhase::Probe => ActionView::Exists { path: self.token_path },
            RemovePhase::Delete => ActionView::RemoveFile { path: self.token_path },
        }
    }

    /// The error that ends the operation when the pending action fails.
    pub open spec fn failure(self, cause: CauseView) -> StorageErrorView {
        StorageErrorView::Io {
            phase: IoPhaseView::Remove { node: self.node_name },
            path: self.token_path,
            cause,
        }
    }

    /// What the operation does with `event`.
    ///
    /// Without a record file the removal is over at once, with success. With
    /// one, the file is deleted; a failure to delete it is the result.
    pub open spec fn next(self, event: EventView) -> StepView<RemoveTokensView, ()> {
        if !self.pending().answered_by(event) {
            StepView::Rejected(self)
        } else {
            match event {
                EventView::Failed(cause) => StepView::Finished(Err(self.failure(cause))),
                EventView::Exists(found) => if found {
                    StepView::Continue(self.at(RemovePhase::Delete))
                } else {
                    StepView::Finished(Ok(()))
                },
                _ => StepView::Finished(Ok(())),
            }
        }
    }

    /// An upper bound on the number of actions still to come, the pending
    /// one included.
    pub open spec fn rank(self) -> nat {
        match self.phase {
            RemovePhase::Probe => 2,
            RemovePhase::Delete => 1,
        }
    }
}

impl RemoveTokens {
    /// The action to perform next.
    pub fn pending(&self) -> (action: Action)
        ensures
            action@ == self@.pending(),
    {
        match self.phase {
            RemovePhase::Probe => Action::Exists { path: self.token_path.clone() },
            RemovePhase::Delete => Action::RemoveFile { path: self.token_path.clone() },
        }
    }

    /// Takes the report on the pending action and decides how the operation
    /// goes on.
    pub fn advance(self, event: Event) -> (step: Step<RemoveTokens, ()>)
        ensures
            step@ == self@.next(event@),
    {
        let RemoveTokens { token_path, node_name, phase } = self;
        match phase {
            RemovePhase::Probe => match event {
                Event::Exists(true) => Step::Continue(
                    RemoveTokens { token_path, node_name, phase: RemovePhase::Delete },
                ),
                Event::Exists(false) => Step::Finished(Ok(())),
                _ => Step::Rejected(RemoveTokens { token_path, node_name, phase }),
            },
            RemovePhase::Delete => match event {
                Event::Done => Step::Finished(Ok(())),
                Event::Failed(cause) => Step::Finished(
                    Err(
                        StorageError::Io {
                            phase: IoPhase::Remove { node: node_name },
                            path: token_path,
                            cause,
                        },
                    ),
                ),
                _ => Step::Rejected(RemoveTokens { token_path, node_name, phase }),
            },
        }
    }
}

} // verus!
