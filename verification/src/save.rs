//! Saving a record: the encoded record goes to a temporary file beside the
//! record file, is forced to stable storage, and only then moved onto the
//! record path in one indivisible step.

use vstd::prelude::*;
use vstd::string::*;

use crate::directory::{CacheLayout, CacheLayoutView, DirPhase, EnsureCacheDir, EnsureCacheDirView};
use crate::error::{CauseView, IoPhase, IoPhaseView, StorageError, StorageErrorView};
use crate::protocol::{Action, ActionView, Event, EventView, Step, StepView, FILE_MODE};

verus! {

/// What is appended to a record path to name its temporary file.
pub open spec fn temp_suffix() -> Seq<char> {
    seq!['.', 't', 'm', 'p']
}

/// The path of the temporary file that belongs to the record file `path`:
/// its sibling with [`temp_suffix`] appended.
pub open spec fn temp_path_of(path: Seq<char>) -> Seq<char> {
    path + temp_suffix()
}

/// The temporary file never stands at the record path itself.
pub proof fn temp_path_differs(path: Seq<char>)
    ensures
        temp_path_of(path) != path,
{
    assert(temp_path_of(path).len() == path.len() + 4);
}

/// The path of the temporary file that belongs to the record file
/// `token_path`.
pub fn temp_path(token_path: &str) -> (temp: String)
    ensures
        temp@ == temp_path_of(token_path@),
{
    let mut temp = token_path.to_owned();
    temp.append(".tmp");
    proof {
        reveal_strlit(".tmp");
        assert(".tmp"@ =~= temp_suffix());
    }
    temp
}

/// How far a save has come.
#[derive(Clone, Copy, Debug, PartialEq, Eq)]
pub enum SavePhase {
    /// Making sure the cache directory exists.
    Directory(DirPhase),
    /// Encoding the record.
    Serialize,
    /// Creating the temporary file.
    CreateTemp,
    /// Writing the encoded record into it.
    WriteTemp,
    /// Forcing it to stable storage.
    SyncTemp,
    /// Closing it.
    CloseTemp,
    /// Restricting it to its owner.
    SecureTemp,
    /// Moving it onto the record path.
    Rename,
}

/// The operation that saves one record.
#[derive(Clone, Debug, PartialEq, Eq)]
pub struct SaveTokens {
    pub layout: CacheLayout,
    /// The path of the node's record file.
    pub token_path: String,
    /// The encoded record, once it is known; empty before.
    pub text: String,
    pub phase: SavePhase,
}

/// The mathematical value of a [`SaveTokens`].
pub struct SaveTokensView {
    pub layout: CacheLayoutView,
    pub token_path: Seq<char>,
    pub text: Seq<char>,
    pub phase: SavePhase,
}

impl View for SaveTokens {
    type V = SaveTokensView;

    open spec fn view(&self) -> SaveTokensView {
        SaveTokensView {
            layout: self.layout@,
            token_path: self.token_path@,
            text: self.text@,
            phase: self.phase,
        }
    }
}

impl SaveTokensView {
    /// The state in which the operation starts.
    pub open spec fn start(layout: CacheLayoutView, token_path: Seq<char>) -> SaveTokensView {
        SaveTokensView {
            layout,
            token_path,
            text: Seq::empty(),
            phase: SavePhase::Directory(DirPhase::Probe),
        }
    }

    /// The same operation in another phase.
    pub open spec fn at(self, phase: SavePhase) -> SaveTokensView {
        SaveTokensView { phase, ..self }
    }

    /// The work on the cache directory, in the phase given.
    pub open spec fn directory(self, phase: DirPhase) -> EnsureCacheDirView {
        EnsureCacheDirView { layout: self.layout, phase }
    }

    /// The path of the temporary file.
    pub open spec fn temp_path(self) -> Seq<char> {
        temp_path_of(self.token_path)
    }

    /// The action that the operation waits for.
    pub open spec fn pending(self) -> ActionView {
        match self.phase {
            SavePhase::Directory(phase) => self.directory(phase).pending(),
            SavePhase::Serialize => ActionView::Serialize,
            SavePhase::CreateTemp => ActionView::CreateFile { path: self.temp_path() },
            SavePhase::WriteTemp => ActionView::WriteAll {
                path: self.temp_path(),
                text: self.text,
            },
            SavePhase::SyncTemp => ActionView::SyncAll { path: self.temp_path() },
            SavePhase::CloseTemp => ActionView::CloseFile { path: self.temp_path() },
            SavePhase::SecureTemp => ActionView::SetPermissions {
                path: self.temp_path(),
                mode: FILE_MODE,
            },
            SavePhase::Rename => ActionView::Rename {
                from: self.temp_path(),
                to: self.token_path,
            },
        }
    }

    /// The error that ends the operation when the pending action fails.
    pub open spec fn failure(self, cause: CauseView) -> StorageErrorView {
        match self.phase {
            SavePhase::Directory(phase) => self.directory(phase).failure(cause),
            SavePhase::Serialize => StorageErrorView::Serialization { cause },
            _ => StorageErrorView::Io {
                phase: match self.phase {
                    SavePhase::CreateTemp => IoPhaseView::CreateTemp,
                    SavePhase::WriteTemp => IoPhaseView::WriteTemp,
                    SavePhase::SyncTemp => IoPhaseView::SyncTemp,
                    SavePhase::SecureTemp => IoPhaseView::SecureTemp,
                    _ => IoPhaseView::Rename { target: self.token_path },
                },
                path: self.temp_path(),
                cause,
            },
        }
    }

    /// The phase that follows the success of the pending action, or `None`
    /// where that success completes the save.
    pub open spec fn successor(self) -> Option<SavePhase> {
        match self.phase {
            SavePhase::Directory(_) => Some(SavePhase::Serialize),
            SavePhase::Serialize => Some(SavePhase::CreateTemp),
            SavePhase::CreateTemp => Some(SavePhase::WriteTemp),
            SavePhase::WriteTemp => Some(SavePhase::SyncTemp),
            SavePhase::SyncTemp => Some(SavePhase::CloseTemp),
            SavePhase::CloseTemp => if self.layout.mode_bits {
                Some(SavePhase::SecureTemp)
            } else {
                Some(SavePhase::Rename)
            },
            SavePhase::SecureTemp => Some(SavePhase::Rename),
            SavePhase::Rename => None,
        }
    }

    /// What the operation does with `event`.
    ///
    /// The phases follow one another in the order in which [`SavePhase`]
    /// lists them; the one that sets permissions is left out where the
    /// platform has no permission bits. The record path is named by the last
    /// action alone. The first failure ends the operation, and nothing is
    /// cleaned up after it.
    pub open spec fn next(self, event: EventView) -> StepView<SaveTokensView, ()> {
        if let SavePhase::Directory(phase) = self.phase {
            match self.directory(phase).next(event) {
                StepView::Continue(directory) => StepView::Continue(
                    self.at(SavePhase::Directory(directory.phase)),
                ),
                StepView::Finished(Ok(_)) => StepView::Continue(self.at(SavePhase::Serialize)),
                StepView::Finished(Err(error)) => StepView::Finished(Err(error)),
                StepView::Rejected(_) => StepView::Rejected(self),
            }
        } else if !self.pending().answered_by(event) {
            StepView::Rejected(self)
        } else {
            match event {
                EventView::Failed(cause) => StepView::Finished(Err(self.failure(cause))),
                EventView::Text(text) => StepView::Continue(
                    SaveTokensView { text, phase: SavePhase::CreateTemp, ..self },
                ),
                _ => match self.successor() {
                    Some(phase) => StepView::Continue(self.at(phase)),
                    None => StepView::Finished(Ok(())),
                },
            }
        }
    }

    /// The greatest number of actions that may still come, the pending one
    /// included.
    pub open spec fn rank(self) -> nat {
        match self.phase {
            SavePhase::Directory(phase) => 7 + self.directory(phase).rank(),
            SavePhase::Serialize => 7,
            SavePhase::CreateTemp => 6,
            SavePhase::WriteTemp => 5,
            SavePhase::SyncTemp => 4,
            SavePhase::CloseTemp => 3,
            SavePhase::SecureTemp => 2,
            SavePhase::Rename => 1,
        }
    }
}

impl SaveTokens {
    /// The action to perform next.
    pub fn pending(&self) -> (action: Action)
        ensures
            action@ == self@.pending(),
    {
        match self.phase {
            SavePhase::Directory(phase) => {
                let directory = EnsureCacheDir {
                    layout: CacheLayout {
                        cache_dir: self.layout.cache_dir.clone(),
                        mode_bits: self.layout.mode_bits,
                    },
                    phase,
                };
                directory.pending()
            },
            SavePhase::Serialize => Action::Serialize,
            SavePhase::CreateTemp => Action::CreateFile { path: temp_path(self.token_path.as_str()) },
            SavePhase::WriteTemp => Action::WriteAll {
                path: temp_path(self.token_path.as_str()),
                text: self.text.clone(),
            },
            SavePhase::SyncTemp => Action::SyncAll { path: temp_path(self.token_path.as_str()) },
            SavePhase::CloseTemp => Action::CloseFile { path: temp_path(self.token_path.as_str()) },
            SavePhase::SecureTemp => Action::SetPermissions {
                path: temp_path(self.token_path.as_str()),
                mode: FILE_MODE,
            },
            SavePhase::Rename => Action::Rename {
                from: temp_path(self.token_path.as_str()),
                to: self.token_path.clone(),
            },
        }
    }

    /// The error for a failure, from `cause`, of the action on the temporary
    /// file that belongs to `phase`.
    fn temp_failure(phase: IoPhase, token_path: String, cause: crate::error::Cause) -> (error:
        StorageError)
        ensures
            error@ == (StorageErrorView::Io {
                phase: phase@,
                path: temp_path_of(token_path@),
                cause: cause@,
            }),
    {
        StorageError::Io { phase, path: temp_path(token_path.as_str()), cause }
    }

    /// Takes the report on the pending action and decides how the operation
    /// goes on.
    pub fn advance(self, event: Event) -> (step: Step<SaveTokens, ()>)
        ensures
            step@ == self@.next(event@),
    {
        let SaveTokens { layout, token_path, text, phase } = self;
        match phase {
            SavePhase::Directory(dir_phase) => {
                let directory = EnsureCacheDir {
                    layout: CacheLayout {
                        cache_dir: layout.cache_dir.clone(),
                        mode_bits: layout.mode_bits,
                    },
                    phase: dir_phase,
                };
                match directory.advance(event) {
                    Step::Continue(directory) => Step::Continue(
                        SaveTokens {
                            layout,
                            token_path,
                            text,
                            phase: SavePhase::Directory(directory.phase),
                        },
                    ),
                    Step::Finished(Ok(_)) => Step::Continue(
                        SaveTokens { layout, token_path, text, phase: SavePhase::Serialize },
                    ),
                    Step::Finished(Err(error)) => Step::Finished(Err(error)),
                    Step::Rejected(_) => Step::Rejected(
                        SaveTokens { layout, token_path, text, phase },
                    ),
                }
            },
            SavePhase::Serialize => match event {
                Event::Text(encoded) => Step::Continue(
                    SaveTokens { layout, token_path, text: encoded, phase: SavePhase::CreateTemp },
                ),
                Event::Failed(cause) => Step::Finished(Err(StorageError::Serialization { cause })),
                _ => Step::Rejected(SaveTokens { layout, token_path, text, phase }),
            },
            SavePhase::CreateTemp => match event {
                Event::Done => Step::Continue(
                    SaveTokens { layout, token_path, text, phase: SavePhase::WriteTemp },
                ),
                Event::Failed(cause) => Step::Finished(
                    Err(Self::temp_failure(IoPhase::CreateTemp, token_path, cause)),
                ),
                _ => Step::Rejected(SaveTokens { layout, token_path, text, phase }),
            },
            SavePhase::WriteTemp => match event {
                Event::Done => Step::Continue(
                    SaveTokens { layout, token_path, text, phase: SavePhase::SyncTemp },
                ),
                Event::Failed(cause) => Step::Finished(
                    Err(Self::temp_failure(IoPhase::WriteTemp, token_path, cause)),
                ),
                _ => Step::Rejected(SaveTokens { layout, token_path, text, phase }),
            },
            SavePhase::SyncTemp => match event {
                Event::Done => Step::Continue(
                    SaveTokens { layout, token_path, text, phase: SavePhase::CloseTemp },
                ),
                Event::Failed(cause) => Step::Finished(
                    Err(Self::temp_failure(IoPhase::SyncTemp, token_path, cause)),
                ),
                _ => Step::Rejected(SaveTokens { layout, token_path, text, phase }),
            },
            SavePhase::CloseTemp => match event {
                Event::Done => {
                    let phase = if layout.mode_bits {
                        SavePhase::SecureTemp
                    } else {
                        SavePhase::Rename
                    };
                    Step::Continue(SaveTokens { layout, token_path, text, phase })
                },
                _ => Step::Rejected(SaveTokens { layout, token_path, text, phase }),
            },
            SavePhase::SecureTemp => match event {
                Event::Done => Step::Continue(
                    SaveTokens { layout, token_path, text, phase: SavePhase::Rename },
                ),
                Event::Failed(cause) => Step::Finished(
                    Err(Self::temp_failure(IoPhase::SecureTemp, token_path, cause)),
                ),
                _ => Step::Rejected(SaveTokens { layout, token_path, text, phase }),
            },
            SavePhase::Rename => match event {
                Event::Done => Step::Finished(Ok(())),
                Event::Failed(cause) => {
                    let target = token_path.clone();
                    Step::Finished(
                        Err(Self::temp_failure(IoPhase::Rename { target }, token_path, cause)),
                    )
                },
                _ => Step::Rejected(SaveTokens { layout, token_path, text, phase }),
            },
        }
    }
}

} // verus!
