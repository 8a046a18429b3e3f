//! Whole runs of the operations against the mathematical file system: each
//! pending action is performed by the model, and the report is fed back,
//! until the operation is finished.

use vstd::prelude::*;

use crate::directory::EnsureCacheDirView;
use crate::error::StorageErrorView;
use crate::load::LoadTokensView;
use crate::model::{Environment, FileSystem};
use crate::protocol::StepView;
use crate::remove::RemoveTokensView;
use crate::save::SaveTokensView;

verus! {

/// How a run ended.
pub struct Outcome<T> {
    /// What the operation returned.
    pub result: Result<T, StorageErrorView>,
    /// The file system that the run left behind.
    pub fs: FileSystem,
    /// The file system after each action of the run, in order: everything
    /// that an observer could have seen while the run went on.
    pub trail: Seq<FileSystem>,
}

impl<T> Outcome<T> {
    /// The outcome of a run that began with one more action, which left
    /// `first` behind, and went on as this one.
    pub open spec fn preceded_by(self, first: FileSystem) -> Outcome<T> {
        Outcome { result: self.result, fs: self.fs, trail: seq![first] + self.trail }
    }
}

/// Runs `task` to its end on `fs`. The action that `task` waits for is
/// number `at` of the run.
pub open spec fn run_ensure(task: EnsureCacheDirView, fs: FileSystem, env: Environment, at: nat)
    -> Outcome<()>
    decreases task.rank(),
{
    let reaction = fs.perform(task.pending(), (env.faults)(at), env.encoded);
    match task.next(reaction.event) {
        StepView::Continue(next) => run_ensure(next, reaction.fs, env, at + 1).preceded_by(
            reaction.fs,
        ),
        StepView::Finished(result) => Outcome {
            result,
            fs: reaction.fs,
            trail: seq![reaction.fs],
        },
        // Never taken: the model's report always answers the action.
        StepView::Rejected(_) => arbitrary(),
    }
}

/// Runs `task` to its end on `fs`. The action that `task` waits for is
/// number `at` of the run.
pub open spec fn run_save(task: SaveTokensView, fs: FileSystem, env: Environment, at: nat)
    -> Outcome<()>
    decreases task.rank(),
{
    let reaction = fs.perform(task.pending(), (env.faults)(at), env.encoded);
    match task.next(reaction.event) {
        StepView::Continue(next) => run_save(next, reaction.fs, env, at + 1).preceded_by(
            reaction.fs,
        ),
        StepView::Finished(result) => Outcome {
            result,
            fs: reaction.fs,
            trail: seq![reaction.fs],
        },
        // Never taken: the model's report always answers the action.
        StepView::Rejected(_) => arbitrary(),
    }
}

/// Runs `task` to its end on `fs`. The action that `task` waits for is
/// number `at` of the run.
pub open spec fn run_load(task: LoadTokensView, fs: FileSystem, env: Environment, at: nat)
    -> Outcome<Option<Seq<char>>>
    decreases task.rank(),
{
    let reaction = fs.perform(task.pending(), (env.faults)(at), env.encoded);
    match task.next(reaction.event) {
        StepView::Continue(next) => run_load(next, reaction.fs, env, at + 1).preceded_by(
            reaction.fs,
        ),
        StepView::Finished(result) => Outcome {
            result,
            fs: reaction.fs,
            trail: seq![reaction.fs],
        },
        // Never taken: the model's report always answers the action.
        StepView::Rejected(_) => arbitrary(),
    }
}

/// Runs `task` to its end on `fs`. The action that `task` waits for is
/// number `at` of the run.
pub open spec fn run_remove(task: RemoveTokensView, fs: FileSystem, env: Environment, at: nat)
    -> Outcome<()>
    decreases task.rank(),
{
    let reaction = fs.perform(task.pending(), (env.faults)(at), env.encoded);
    match task.next(reaction.event) {
        StepView::Continue(next) => run_remove(next, reaction.fs, env, at + 1).preceded_by(
            reaction.fs,
        ),
        StepView::Finished(result) => Outcome {
            result,
            fs: reaction.fs,
            trail: seq![reaction.fs],
        },
        // Never taken: the model's report always answers the action.
        StepView::Rejected(_) => arbitrary(),
    }
}

} // verus!
