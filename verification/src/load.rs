//! Loading a record. A record file that does not exist is the one way in
//! which "no credentials for this node" is written down, and no error. A
//! record file that exists and cannot be read or decoded is an error, and is
//! never passed off as an absent one. What can be read but is no encoded
//! record, be it no text at all, is an error of decoding.

use vstd::prelude::*;

use crate::error::{CauseView, IoPhase, IoPhaseView, StorageError, StorageErrorView};
use crate::protocol::{Action, ActionView, Event, EventView, Step, StepView};

verus! {

/// How far a load has come.
#[derive(Clone, Copy, Debug, PartialEq, Eq)]
pub enum LoadPhase {
    /// Asking whether the record file exists.
    Probe,
    /// Reading it.
    Read,
    /// Decoding what was read.
    Parse,
}

/// The operation that loads one record.
#[derive(Clone, Debug, PartialEq, Eq)]
pub struct LoadTokens {
    /// The path of the node's record file.
    pub token_path: String,
    /// The node, for the context of errors.
    pub node_name: String,
    /// What was read from the record file, once it is known; empty before.
    pub text: String,
    pub phase: LoadPhase,
}

/// The mathematical value of a [`LoadTokens`].
pub struct LoadTokensView {
    pub token_path: Seq<char>,
    pub node_name: Seq<char>,
    pub text: Seq<char>,
    pub phase: LoadPhase,
}

impl View for LoadTokens {
    type V = LoadTokensView;

    open spec fn view(&self) -> LoadTokensView {
        LoadTokensView {
            token_path: self.token_path@,
            node_name: self.node_name@,
            text: self.text@,
            phase: self.phase,
        }
    }
}

impl LoadTokensView {
    /// The state in which the operation starts.
    pub open spec fn start(token_path: Seq<char>, node_name: Seq<char>) -> LoadTokensView {
        LoadTokensView { token_path, node_name, text: Seq::empty(), phase: LoadPhase::Probe }
    }

    /// The same operation in another phase.
    pub open spec fn at(self, phase: LoadPhase) -> LoadTokensView {
        LoadTokensView { phase, ..self }
    }

    /// The action that the operation waits for.
    pub open spec fn pending(self) -> ActionView {
        match self.phase {
            LoadPhase::Probe => ActionView::Exists { path: self.token_path },
            LoadPhase::Read => ActionView::ReadToString { path: self.token_path },
            LoadPhase::Parse => ActionView::Deserialize { text: self.text },
        }
    }

    /// The error for a record file that was read and holds no encoded
    /// record: because it holds no text at all, or text that does not decode.
    pub open spec fn not_a_record(self, cause: CauseView) -> StorageErrorView {
        StorageErrorView::Deserialization { path: self.token_path, node: self.node_name, cause }
    }

    /// The error that ends the operation when the pending action fails.
    pub open spec fn failure(self, cause: CauseView) -> StorageErrorView {
        match self.phase {
            LoadPhase::Parse => self.not_a_record(cause),
            _ => StorageErrorView::Io {
                phase: IoPhaseView::Read { node: self.node_name },
                path: self.token_path,
                cause,
            },
        }
    }

    /// What the operation does with `event`.
    ///
    /// Without a record file the result is `Ok(None)` and nothing is read.
    /// With one, the result is the text that was read, once it has been
    /// found to decode. A failure to read is the result otherwise, or, where
    /// the file was read and holds no text or text that does not decode, the
    /// error that says so.
    pub open spec fn next(self, event: EventView) -> StepView<LoadTokensView, Option<Seq<char>>> {
        if !self.pending().answered_by(event) {
            StepView::Rejected(self)
        } else {
            match event {
                EventView::Failed(cause) => StepView::Finished(Err(self.failure(cause))),
                EventView::NotText(cause) => StepView::Finished(Err(self.not_a_record(cause))),
                EventView::Exists(found) => if found {
                    StepView::Continue(self.at(LoadPhase::Read))
                } else {
                    StepView::Finished(Ok(None))
                },
                EventView::Text(text) => StepView::Continue(
                    LoadTokensView { text, phase: LoadPhase::Parse, ..self },
                ),
                EventView::Done => StepView::Finished(Ok(Some(self.text))),
            }
        }
    }

    /// An upper bound on the number of actions still to come, the pending
    /// one included.
    pub open spec fn rank(self) -> nat {
        match self.phase {
            LoadPhase::Probe => 3,
            LoadPhase::Read => 2,
            LoadPhase::Parse => 1,
        }
    }
}

impl LoadTokens {
    /// The action to perform next.
    pub fn pending(&self) -> (action: Action)
        ensures
            action@ == self@.pending(),
    {
        match self.phase {
            LoadPhase::Probe => Action::Exists { path: self.token_path.clone() },
            LoadPhase::Read => Action::ReadToString { path: self.token_path.clone() },
            LoadPhase::Parse => Action::Deserialize { text: self.text.clone() },
        }
    }

    /// Takes the report on the pending action and decides how the operation
    /// goes on.
    pub fn advance(self, event: Event) -> (step: Step<LoadTokens, Option<String>>)
        ensures
            step@ == self@.next(event@),
    {
        let LoadTokens { token_path, node_name, text, phase } = self;
        match phase {
            LoadPhase::Probe => match event {
                Event::Exists(true) => Step::Continue(
                    LoadTokens { token_path, node_name, text, phase: LoadPhase::Read },
                ),
                Event::Exists(false) => Step::Finished(Ok(None)),
                _ => Step::Rejected(LoadTokens { token_path, node_name, text, phase }),
            },
            LoadPhase::Read => match event {
                Event::Text(content) => Step::Continue(
                    LoadTokens { token_path, node_name, text: content, phase: LoadPhase::Parse },
                ),
                Event::NotText(cause) => Step::Finished(
                    Err(StorageError::Deserialization { path: token_path, node: node_name, cause }),
                ),
                Event::Failed(cause) => Step::Finished(
                    Err(
                        StorageError::Io {
                            phase: IoPhase::Read { node: node_name },
                            path: token_path,
                            cause,
                        },
                    ),
                ),
                _ => Step::Rejected(LoadTokens { token_path, node_name, text, phase }),
            },
            LoadPhase::Parse => match event {
                Event::Done => Step::Finished(Ok(Some(text))),
                Event::Failed(cause) => Step::Finished(
                    Err(StorageError::Deserialization { path: token_path, node: node_name, cause }),
                ),
                _ => Step::Rejected(LoadTokens { token_path, node_name, text, phase }),
            },
        }
    }
}

} // verus!
