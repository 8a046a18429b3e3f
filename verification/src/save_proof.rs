//! The proof that a save keeps its promises at every action: what relates
//! the file system to the phase that the save is in, and the induction over
//! a run.

use vstd::prelude::*;

use crate::directory::DirPhase;
use crate::laws::{
    apart, directory_settled, framed, left_alone, old_or_new, record_apart, temp_apart,
    unobstructed,
};
use crate::model::{perform_answers, Environment, FileSystem, Node};
use crate::protocol::StepView;
use crate::run::{run_save, Outcome};
use crate::save::{temp_path_differs, SavePhase, SaveTokensView};

verus! {

/// Whether the temporary file of `task` stands in `now` as a file with this
/// content and this durability.
pub open spec fn temp_holds(task: SaveTokensView, now: FileSystem, text: Seq<char>, synced: bool)
    -> bool {
    &&& now.is_file(task.temp_path())
    &&& now.nodes[task.temp_path()]->text == text
    &&& now.nodes[task.temp_path()]->utf8
    &&& now.nodes[task.temp_path()]->synced == synced
}

/// What relates the file system `now` to a save in the state `task`, where
/// the save began on `before` and `text` is the encoded record.
pub open spec fn in_step(task: SaveTokensView, now: FileSystem, before: FileSystem, text: Seq<char>)
    -> bool {
    let dir = task.layout.cache_dir;
    &&& framed(task, now, before)
    &&& record_apart(task, before) ==> now.same_at(before, task.token_path)
    &&& match task.phase {
        SavePhase::Directory(DirPhase::Probe) => now == before,
        SavePhase::Directory(DirPhase::Create) => now == before && !before.occupied(dir),
        SavePhase::Directory(DirPhase::Secure) => {
            &&& !before.occupied(dir)
            &&& now == before.with_dirs(before.chain(dir))
            &&& task.layout.mode_bits
        },
        SavePhase::Serialize => {
            &&& apart(task, before) ==> directory_settled(task, now, before)
            &&& temp_apart(task, before) ==> now.same_at(before, task.temp_path())
        },
        SavePhase::CreateTemp => {
            &&& apart(task, before) ==> directory_settled(task, now, before)
            &&& temp_apart(task, before) ==> now.same_at(before, task.temp_path())
            &&& task.text == text
        },
        SavePhase::WriteTemp => {
            &&& apart(task, before) ==> directory_settled(task, now, before)
            &&& temp_holds(task, now, Seq::empty(), false)
            &&& task.text == text
        },
        SavePhase::SyncTemp => {
            &&& apart(task, before) ==> directory_settled(task, now, before)
            &&& temp_holds(task, now, text, false)
        },
        SavePhase::CloseTemp | SavePhase::SecureTemp => {
            &&& apart(task, before) ==> directory_settled(task, now, before)
            &&& temp_holds(task, now, text, true)
        },
        SavePhase::Rename => {
            &&& apart(task, before) ==> directory_settled(task, now, before)
            &&& now.is_file(task.temp_path())
            &&& now.nodes[task.temp_path()].is_record(text, task.layout.mode_bits)
        },
    }
}

/// What a run of the save `task` is held to, where it began on `before` (at
/// the start of the whole save) and `now` (at the pending action).
pub open spec fn kept(
    task: SaveTokensView,
    end: Outcome<()>,
    now: FileSystem,
    before: FileSystem,
    env: Environment,
    at: nat,
) -> bool {
    let dir = task.layout.cache_dir;
    &&& 0 < end.trail.len() <= task.rank()
    &&& end.fs == end.trail.last()
    &&& forall|i: int|
        0 <= i < end.trail.len() ==> {
            &&& framed(task, #[trigger] end.trail[i], before)
            &&& record_apart(task, before) ==> old_or_new(task, end.trail[i], before, env.encoded)
        }
    &&& end.result is Ok ==> {
        &&& end.fs.occupied(task.token_path)
        &&& end.fs.nodes[task.token_path].is_record(env.encoded, task.layout.mode_bits)
        &&& !end.fs.occupied(task.temp_path())
        &&& apart(task, before) ==> directory_settled(task, end.fs, before)
    }
    &&& end.result is Err ==> {
        &&& record_apart(task, before) ==> end.fs.same_at(before, task.token_path)
    }
    &&& end.result is Err && end.result->Err_0 is Serialization ==> {
        &&& temp_apart(task, before) ==> end.fs.same_at(before, task.temp_path())
    }
    &&& unobstructed(task, now) && env.calm_from(at) ==> end.result is Ok
}

/// Every run of a save, from any state that is in step with the file
/// system, keeps what [`kept`] lists.
pub proof fn save_run_keeps(
    task: SaveTokensView,
    now: FileSystem,
    before: FileSystem,
    env: Environment,
    at: nat,
)
    requires
        in_step(task, now, before, env.encoded),
    ensures
        kept(task, run_save(task, now, env, at), now, before, env, at),
    decreases task.rank(),
{
    let fault = (env.faults)(at);
    let reaction = now.perform(task.pending(), fault, env.encoded);
    let end = run_save(task, now, env, at);
    let dir = task.layout.cache_dir;
    let temp = task.temp_path();
    temp_path_differs(task.token_path);
    perform_answers(now, task.pending(), fault, env.encoded);
    assert(Seq::<char>::empty() + env.encoded =~= env.encoded);
    assert(framed(task, reaction.fs, before)) by {
        assert forall|path: Seq<char>|
            path != dir && path != temp && path != task.token_path implies #[trigger] left_alone(
            reaction.fs,
            before,
            dir,
            path,
        ) by {
            assert(left_alone(now, before, dir, path));
        }
    }
    match task.next(reaction.event) {
        StepView::Continue(next) => {
            assert(in_step(next, reaction.fs, before, env.encoded));
            save_run_keeps(next, reaction.fs, before, env, at + 1);
            let rest = run_save(next, reaction.fs, env, at + 1);
            assert(end == rest.preceded_by(reaction.fs));
            assert(end.trail.last() == rest.trail.last());
            assert forall|i: int| 0 <= i < end.trail.len() implies {
                &&& framed(task, #[trigger] end.trail[i], before)
                &&& record_apart(task, before) ==> old_or_new(task, end.trail[i], before, env.encoded)
            } by {
                if i > 0 {
                    assert(end.trail[i] == rest.trail[i - 1]);
                    assert(framed(next, rest.trail[i - 1], before));
                }
            }
            if unobstructed(task, now) && env.calm_from(at) {
                assert(!fault.strikes);
                assert forall|step: Seq<char>| #[trigger]
                    reaction.fs.chain(dir).contains(step) implies !reaction.fs.is_file(step) by {
                    assert(now.chain(dir).contains(step));
                }
                assert(unobstructed(next, reaction.fs));
                assert(env.calm_from((at + 1) as nat));
            }
        },
        StepView::Finished(result) => {
            assert(end.trail =~= seq![reaction.fs]);
            if unobstructed(task, now) && env.calm_from(at) {
                assert(!fault.strikes);
            }
        },
        StepView::Rejected(_) => {},
    }
}

} // verus!
