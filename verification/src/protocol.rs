//! The vocabulary shared by every operation: the actions an operation asks
//! for, the events that answer them, and the result of feeding an event to
//! an operation.

use vstd::prelude::*;

use crate::error::{Cause, CauseView, StorageError, StorageErrorView};

verus! {

/// Permission bits of a cache directory: read, write and search for the
/// owner, nothing for anyone else.
pub const DIR_MODE: u32 = 0o700;

/// Permission bits of a record file: read and write for the owner, nothing
/// for anyone else.
pub const FILE_MODE: u32 = 0o600;

/// One thing that the party driving an operation is asked to do. The
/// operation decides what and when; the driver performs it and reports what
/// came of it as an [`Event`].
#[derive(Clone, Debug, PartialEq, Eq)]
pub enum Action {
    /// Report whether anything exists at `path`. A path that cannot be
    /// examined counts as one at which nothing exists.
    Exists { path: String },
    /// Create the directory `path` with any ancestors that are missing.
    CreateDirAll { path: String },
    /// Set the permission bits of `path` to `mode`.
    SetPermissions { path: String, mode: u32 },
    /// Encode the record that is being saved.
    Serialize,
    /// Create the file `path`, or empty it if it exists, and keep it open.
    CreateFile { path: String },
    /// Write all of `text` to the open file `path`.
    WriteAll { path: String, text: String },
    /// Force the open file `path` to stable storage.
    SyncAll { path: String },
    /// Close the open file `path`.
    CloseFile { path: String },
    /// Move `from` onto `to`, replacing `to` in one indivisible step.
    Rename { from: String, to: String },
    /// Read the whole of the file `path`, and take it as text.
    ReadToString { path: String },
    /// Decode `text` into a record, and keep the record.
    Deserialize { text: String },
    /// Delete the file `path`.
    RemoveFile { path: String },
}

/// The mathematical value of an [`Action`].
pub enum ActionView {
    Exists { path: Seq<char> },
    CreateDirAll { path: Seq<char> },
    SetPermissions { path: Seq<char>, mode: u32 },
    Serialize,
    CreateFile { path: Seq<char> },
    WriteAll { path: Seq<char>, text: Seq<char> },
    SyncAll { path: Seq<char> },
    CloseFile { path: Seq<char> },
    Rename { from: Seq<char>, to: Seq<char> },
    ReadToString { path: Seq<char> },
    Deserialize { text: Seq<char> },
    RemoveFile { path: Seq<char> },
}

impl View for Action {
    type V = ActionView;

    open spec fn view(&self) -> ActionView {
        match self {
            Action::Exists { path } => ActionView::Exists { path: path@ },
            Action::CreateDirAll { path } => ActionView::CreateDirAll { path: path@ },
            Action::SetPermissions { path, mode } => ActionView::SetPermissions {
                path: path@,
                mode: *mode,
            },
            Action::Serialize => ActionView::Serialize,
            Action::CreateFile { path } => ActionView::CreateFile { path: path@ },
            Action::WriteAll { path, text } => ActionView::WriteAll { path: path@, text: text@ },
            Action::SyncAll { path } => ActionView::SyncAll { path: path@ },
            Action::CloseFile { path } => ActionView::CloseFile { path: path@ },
            Action::Rename { from, to } => ActionView::Rename { from: from@, to: to@ },
            Action::ReadToString { path } => ActionView::ReadToString { path: path@ },
            Action::Deserialize { text } => ActionView::Deserialize { text: text@ },
            Action::RemoveFile { path } => ActionView::RemoveFile { path: path@ },
        }
    }
}

/// What came of an [`Action`].
#[derive(Clone, Debug, PartialEq, Eq)]
pub enum Event {
    /// The answer to [`Action::Exists`].
    Exists(bool),
    /// The action succeeded and has nothing to report.
    Done,
    /// The action succeeded and produced text: the encoded record, or the
    /// content of the file that was read.
    Text(String),
    /// The file was read in full, but what it holds is not text.
    NotText(Cause),
    /// The action failed.
    Failed(Cause),
}

/// The mathematical value of an [`Event`].
pub enum EventView {
    Exists(bool),
    Done,
    Text(Seq<char>),
    NotText(CauseView),
    Failed(CauseView),
}

impl View for Event {
    type V = EventView;

    open spec fn view(&self) -> EventView {
        match self {
            Event::Exists(found) => EventView::Exists(*found),
            Event::Done => EventView::Done,
            Event::Text(text) => EventView::Text(text@),
            Event::NotText(cause) => EventView::NotText(cause@),
            Event::Failed(cause) => EventView::Failed(cause@),
        }
    }
}

impl ActionView {
    /// Whether `event` is a possible report on this action. A question is
    /// answered by yes or no and cannot fail; closing a file cannot fail; an
    /// action that produces text reports the text or a failure, and a read
    /// may also find that the file holds no text; every other action reports
    /// success or a failure.
    pub open spec fn answered_by(self, event: EventView) -> bool {
        match self {
            ActionView::Exists { .. } => event is Exists,
            ActionView::CloseFile { .. } => event is Done,
            ActionView::Serialize => event is Text || event is Failed,
            ActionView::ReadToString { .. } => event is Text || event is NotText
                || event is Failed,
            _ => event is Done || event is Failed,
        }
    }
}

/// What an operation does with an event.
#[derive(Debug, PartialEq, Eq)]
pub enum Step<S, T> {
    /// The operation goes on from the state given; its pending action is the
    /// next thing to perform.
    Continue(S),
    /// The operation is over, with this result.
    Finished(Result<T, StorageError>),
    /// The event is no report on the pending action. The state is handed
    /// back unchanged.
    Rejected(S),
}

/// The mathematical value of a [`Step`].
pub enum StepView<S, T> {
    Continue(S),
    Finished(Result<T, StorageErrorView>),
    Rejected(S),
}

impl<S: View, T: DeepView> View for Step<S, T> {
    type V = StepView<S::V, T::V>;

    open spec fn view(&self) -> StepView<S::V, T::V> {
        match self {
            Step::Continue(state) => StepView::Continue(state@),
            Step::Finished(Ok(value)) => StepView::Finished(Ok(value.deep_view())),
            Step::Finished(Err(error)) => StepView::Finished(Err(error@)),
            Step::Rejected(state) => StepView::Rejected(state@),
        }
    }
}

} // verus!
