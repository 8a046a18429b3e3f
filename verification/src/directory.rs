//! Making sure that the cache directory exists, and that a directory made
//! here is closed to everyone but its owner.

use vstd::prelude::*;

use crate::error::{CauseView, IoPhase, IoPhaseView, StorageError, StorageErrorView};
use crate::protocol::{Action, ActionView, Event, EventView, Step, StepView, DIR_MODE};

verus! {

/// Where the cache lives, and what the platform underneath can do.
#[derive(Clone, Debug, PartialEq, Eq)]
pub struct CacheLayout {
    /// The directory that holds one record file per node.
    pub cache_dir: String,
    /// Whether the platform has permission bits in the manner of POSIX.
    /// Where it has none, no permission is ever set and nothing fails for
    /// the lack of it.
    pub mode_bits: bool,
}

/// The mathematical value of a [`CacheLayout`].
pub struct CacheLayoutView {
    pub cache_dir: Seq<char>,
    pub mode_bits: bool,
}

impl View for CacheLayout {
    type V = CacheLayoutView;

    open spec fn view(&self) -> CacheLayoutView {
        CacheLayoutView { cache_dir: self.cache_dir@, mode_bits: self.mode_bits }
    }
}

/// How far the work on the cache directory has come.
#[derive(Clone, Copy, Debug, PartialEq, Eq)]
pub enum DirPhase {
    /// Asking whether the directory exists.
    Probe,
    /// Creating it.
    Create,
    /// Restricting it to its owner.
    Secure,
}

/// The operation that makes sure the cache directory exists.
#[derive(Clone, Debug, PartialEq, Eq)]
pub struct EnsureCacheDir {
    pub layout: CacheLayout,
    pub phase: DirPhase,
}

/// The mathematical value of an [`EnsureCacheDir`].
pub struct EnsureCacheDirView {
    pub layout: CacheLayoutView,
    pub phase: DirPhase,
}

impl View for EnsureCacheDir {
    type V = EnsureCacheDirView;

    open spec fn view(&self) -> EnsureCacheDirView {
        EnsureCacheDirView { layout: self.layout@, phase: self.phase }
    }
}

impl EnsureCacheDirView {
    /// The state in which the operation starts.
    pub open spec fn start(layout: CacheLayoutView) -> EnsureCacheDirView {
        EnsureCacheDirView { layout, phase: DirPhase::Probe }
    }

    /// The same operation in another phase.
    pub open spec fn at(self, phase: DirPhase) -> EnsureCacheDirView {
        EnsureCacheDirView { layout: self.layout, phase }
    }

    /// The action that the operation waits for.
    pub open spec fn pending(self) -> ActionView {
        match self.phase {
            DirPhase::Probe => ActionView::Exists { path: self.layout.cache_dir },
            DirPhase::Create => ActionView::CreateDirAll { path: self.layout.cache_dir },
            DirPhase::Secure => ActionView::SetPermissions {
                path: self.layout.cache_dir,
                mode: DIR_MODE,
            },
        }
    }

    /// The error that ends the operation when the pending action fails.
    pub open spec fn failure(self, cause: CauseView) -> StorageErrorView {
        StorageErrorView::Io {
            phase: match self.phase {
                DirPhase::Secure => IoPhaseView::SecureCacheDir,
                _ => IoPhaseView::CreateCacheDir,
            },
            path: self.layout.cache_dir,
            cause,
        }
    }

    /// What the operation does with `event`.
    ///
    /// A directory that exists is left as it is, whatever its permissions. A
    /// directory that does not is created, with whatever is missing above
    /// it, and then, where the platform has permission bits, it alone is
    /// restricted to its owner. The first failure ends the operation.
    pub open spec fn next(self, event: EventView) -> StepView<EnsureCacheDirView, ()> {
        if !self.pending().answered_by(event) {
            StepView::Rejected(self)
        } else {
            match event {
                EventView::Failed(cause) => StepView::Finished(Err(self.failure(cause))),
                EventView::Exists(found) => if found {
                    StepView::Finished(Ok(()))
                } else {
                    StepView::Continue(self.at(DirPhase::Create))
                },
                _ => if self.phase is Create && self.layout.mode_bits {
                    StepView::Continue(self.at(DirPhase::Secure))
                } else {
                    StepView::Finished(Ok(()))
                },
            }
        }
    }

    /// An upper bound on the number of actions still to come, the pending
    /// one included.
    pub open spec fn rank(self) -> nat {
        match self.phase {
            DirPhase::Probe => 3,
            DirPhase::Create => 2,
            DirPhase::Secure => 1,
        }
    }
}

impl EnsureCacheDir {
    /// The action to perform next.
    pub fn pending(&self) -> (action: Action)
        ensures
            action@ == self@.pending(),
    {
        let path = self.layout.cache_dir.clone();
        match self.phase {
            DirPhase::Probe => Action::Exists { path },
            DirPhase::Create => Action::CreateDirAll { path },
            DirPhase::Secure => Action::SetPermissions { path, mode: DIR_MODE },
        }
    }

    /// Takes the report on the pending action and decides how the operation
    /// goes on.
    pub fn advance(self, event: Event) -> (step: Step<EnsureCacheDir, ()>)
        ensures
            step@ == self@.next(event@),
    {
        let EnsureCacheDir { layout, phase } = self;
        match phase {
            DirPhase::Probe => match event {
                Event::Exists(true) => Step::Finished(Ok(())),
                Event::Exists(false) => Step::Continue(
                    EnsureCacheDir { layout, phase: DirPhase::Create },
                ),
                _ => Step::Rejected(EnsureCacheDir { layout, phase }),
            },
            DirPhase::Create => match event {
                Event::Done => if layout.mode_bits {
                    Step::Continue(EnsureCacheDir { layout, phase: DirPhase::Secure })
                } else {
                    Step::Finished(Ok(()))
                },
                Event::Failed(cause) => Step::Finished(
                    Err(
                        StorageError::Io {
                            phase: IoPhase::CreateCacheDir,
                            path: layout.cache_dir,
                            cause,
                        },
                    ),
                ),
                _ => Step::Rejected(EnsureCacheDir { layout, phase }),
            },
            DirPhase::Secure => match event {
                Event::Done => Step::Finished(Ok(())),
                Event::Failed(cause) => Step::Finished(
                    Err(
                        StorageError::Io {
                            phase: IoPhase::SecureCacheDir,
                            path: layout.cache_dir,
                            cause,
                        },
                    ),
                ),
                _ => Step::Rejected(EnsureCacheDir { layout, phase }),
            },
        }
    }
}

} // verus!
