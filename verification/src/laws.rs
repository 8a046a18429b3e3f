//! What holds of the operations when they are run against the mathematical
//! file system, whatever that file system holds and whichever actions fail.

use vstd::prelude::*;

use crate::directory::{CacheLayoutView, EnsureCacheDirView};
use crate::error::{IoPhaseView, StorageErrorView};
use crate::load::LoadTokensView;
use crate::model::{owner_only, Environment, FileSystem, Node};
use crate::protocol::{ActionView, EventView, DIR_MODE, FILE_MODE};
use crate::remove::RemoveTokensView;
use crate::run::{run_ensure, run_load, run_remove, run_save};
use crate::save::SaveTokensView;
use crate::save_proof::save_run_keeps;

verus! {

/// Whether `path` stands in `now` as a path above a directory that was
/// created on `before` does: as the directory that it was, or, where nothing
/// stood, as a new directory with the bits that new directories get.
pub open spec fn parent_made(now: FileSystem, before: FileSystem, path: Seq<char>) -> bool {
    &&& now.occupied(path)
    &&& now.nodes[path] == if before.occupied(path) {
        before.nodes[path]
    } else {
        Node::Directory { mode: before.dir_default }
    }
}

/// Whether `path`, which does not belong to what an operation works on, is
/// in `now` as the operation may leave it. A path above `dir` is as it was
/// in `before`, or as [`parent_made`] says. Any other path is as it was.
pub open spec fn left_alone(now: FileSystem, before: FileSystem, dir: Seq<char>, path: Seq<char>)
    -> bool {
    if (before.above)(dir).contains(path) {
        now.same_at(before, path) || parent_made(now, before, path)
    } else {
        now.same_at(before, path)
    }
}

/// Whether the cache directory `dir` and what lies above it are in `now` as
/// making sure of the directory leaves them, when it succeeds on `before`.
///
/// A directory that stood is untouched, and so is all that lies above it. A
/// directory that did not stand is new, with the bits that `mode_bits` asks
/// for; each path above it is a directory, the one that stood or a new one,
/// and none of those has its bits changed.
pub open spec fn settled(now: FileSystem, before: FileSystem, dir: Seq<char>, mode_bits: bool)
    -> bool {
    if before.occupied(dir) {
        &&& now.same_at(before, dir)
        &&& forall|path: Seq<char>|
            #[trigger] (before.above)(dir).contains(path) && path != dir ==> now.same_at(
                before,
                path,
            )
    } else {
        &&& now.occupied(dir)
        &&& now.nodes[dir] == Node::Directory {
            mode: if mode_bits {
                DIR_MODE
            } else {
                before.dir_default
            },
        }
        &&& forall|path: Seq<char>|
            #[trigger] (before.above)(dir).contains(path) && path != dir ==> parent_made(
                now,
                before,
                path,
            )
    }
}

/// Whether the record file of `task` lies apart from its cache directory:
/// it is not that directory, and does not lie above it.
pub open spec fn record_apart(task: SaveTokensView, fs: FileSystem) -> bool {
    &&& task.layout.cache_dir != task.token_path
    &&& !(fs.above)(task.layout.cache_dir).contains(task.token_path)
}

/// Whether the temporary file of `task` lies apart from its cache
/// directory.
pub open spec fn temp_apart(task: SaveTokensView, fs: FileSystem) -> bool {
    &&& task.layout.cache_dir != task.temp_path()
    &&& !(fs.above)(task.layout.cache_dir).contains(task.temp_path())
}

/// Whether both files of `task` lie apart from its cache directory.
pub open spec fn apart(task: SaveTokensView, fs: FileSystem) -> bool {
    record_apart(task, fs) && temp_apart(task, fs)
}

/// Whether `now` differs from `before` only where a save may work: at the
/// cache directory, the temporary file and the record file, and, by a new
/// directory, at a path above the cache directory.
pub open spec fn framed(task: SaveTokensView, now: FileSystem, before: FileSystem) -> bool {
    &&& now.dir_default == before.dir_default
    &&& now.file_default == before.file_default
    &&& now.above == before.above
    &&& forall|path: Seq<char>|
        path != task.layout.cache_dir && path != task.temp_path() && path != task.token_path
            ==> #[trigger] left_alone(now, before, task.layout.cache_dir, path)
}

/// Whether the record path in `now` holds what it held in `before`, or else
/// the new record in full and durably: the two things that an observer may
/// ever see there.
pub open spec fn old_or_new(task: SaveTokensView, now: FileSystem, before: FileSystem, text: Seq<char>)
    -> bool {
    ||| now.same_at(before, task.token_path)
    ||| now.occupied(task.token_path) && now.nodes[task.token_path].is_record(
        text,
        task.layout.mode_bits,
    )
}

/// Whether the cache directory of `task` is in `now` as a finished directory
/// phase leaves it.
pub open spec fn directory_settled(task: SaveTokensView, now: FileSystem, before: FileSystem)
    -> bool {
    settled(now, before, task.layout.cache_dir, task.layout.mode_bits)
}

/// Whether nothing in `now` stands in the way of the save `task`: its files
/// lie apart from its directory, no directory stands where a file must go,
/// and no file stands where a directory must.
pub open spec fn unobstructed(task: SaveTokensView, now: FileSystem) -> bool {
    &&& apart(task, now)
    &&& !now.is_dir(task.temp_path())
    &&& !now.is_dir(task.token_path)
    &&& now.permits(ActionView::CreateDirAll { path: task.layout.cache_dir })
}

/// Loading where no record file stands returns `Ok(None)`: absence is the
/// ordinary state of a node that has no credentials, and no error. Nothing
/// can fail on the way, and the file system is left as it was.
pub proof fn load_of_absent_is_none(
    token_path: Seq<char>,
    node_name: Seq<char>,
    fs: FileSystem,
    env: Environment,
)
    requires
        !fs.occupied(token_path),
    ensures
        run_load(LoadTokensView::start(token_path, node_name), fs, env, 0).result == Ok::<
            Option<Seq<char>>,
            StorageErrorView,
        >(None),
        run_load(LoadTokensView::start(token_path, node_name), fs, env, 0).fs == fs,
{
}

/// Loading where something stands at the record path never returns
/// `Ok(None)`. It returns the whole text of the file, or the failure to read
/// it, or the error of decoding, each with the path and the node. The error
/// of decoding comes exactly where the file was read and holds no text, or
/// text that does not decode. The text is returned whenever a file with text
/// stands there and no fault strikes. The file system is left as it was in
/// every case.
pub proof fn load_of_present_is_text_or_error(
    token_path: Seq<char>,
    node_name: Seq<char>,
    fs: FileSystem,
    env: Environment,
)
    requires
        fs.occupied(token_path),
    ensures
        ({
            let end = run_load(LoadTokensView::start(token_path, node_name), fs, env, 0);
            &&& end.fs == fs
            &&& match end.result {
                Ok(found) => {
                    &&& fs.is_file(token_path)
                    &&& fs.nodes[token_path]->utf8
                    &&& found == Some(fs.nodes[token_path]->text)
                },
                Err(StorageErrorView::Io { phase, path, cause }) => {
                    &&& phase == IoPhaseView::Read { node: node_name }
                    &&& path == token_path
                    &&& cause == (env.faults)(1).cause
                    &&& (env.faults)(1).strikes || !fs.is_file(token_path)
                },
                Err(StorageErrorView::Deserialization { path, node, cause }) => {
                    &&& path == token_path
                    &&& node == node_name
                    &&& fs.is_file(token_path)
                    &&& !(env.faults)(1).strikes
                    &&& if fs.nodes[token_path]->utf8 {
                        (env.faults)(2).strikes && cause == (env.faults)(2).cause
                    } else {
                        cause == (env.faults)(1).cause
                    }
                },
                Err(StorageErrorView::Serialization { .. }) => false,
            }
            &&& fs.is_file(token_path) && fs.nodes[token_path]->utf8 && env.calm()
                ==> end.result is Ok
        }),
{
    reveal_with_fuel(run_load, 3);
}

/// A record file that is there and can be read, but holds no text at all,
/// makes the load fail with the error of decoding, which names the path and
/// the node. It is neither taken for an absent one nor reported as a failure
/// to read.
pub proof fn load_of_not_text_is_error(
    token_path: Seq<char>,
    node_name: Seq<char>,
    fs: FileSystem,
    env: Environment,
)
    requires
        fs.is_file(token_path),
        !fs.nodes[token_path]->utf8,
        !(env.faults)(1).strikes,
    ensures
        run_load(LoadTokensView::start(token_path, node_name), fs, env, 0).result == Err::<
            Option<Seq<char>>,
            StorageErrorView,
        >(
            StorageErrorView::Deserialization {
                path: token_path,
                node: node_name,
                cause: (env.faults)(1).cause,
            },
        ),
{
    reveal_with_fuel(run_load, 3);
}

/// A record file that is there and holds text that does not decode makes
/// the load fail with the error of decoding, which names the path and the
/// node. It is not taken for an absent one.
pub proof fn load_of_undecodable_is_error(
    token_path: Seq<char>,
    node_name: Seq<char>,
    fs: FileSystem,
    env: Environment,
)
    requires
        fs.is_file(token_path),
        fs.nodes[token_path]->utf8,
        !(env.faults)(1).strikes,
        (env.faults)(2).strikes,
    ensures
        run_load(LoadTokensView::start(token_path, node_name), fs, env, 0).result == Err::<
            Option<Seq<char>>,
            StorageErrorView,
        >(
            StorageErrorView::Deserialization {
                path: token_path,
                node: node_name,
                cause: (env.faults)(2).cause,
            },
        ),
{
    reveal_with_fuel(run_load, 3);
}

/// Removing where no record file stands succeeds and does nothing: removal
/// may be repeated.
pub proof fn remove_of_absent_is_ok(
    token_path: Seq<char>,
    node_name: Seq<char>,
    fs: FileSystem,
    env: Environment,
)
    requires
        !fs.occupied(token_path),
    ensures
        run_remove(RemoveTokensView::start(token_path, node_name), fs, env, 0).result == Ok::<
            (),
            StorageErrorView,
        >(()),
        run_remove(RemoveTokensView::start(token_path, node_name), fs, env, 0).fs == fs,
{
}

/// A removal that succeeds leaves nothing at the record path and touches no
/// other path; one that fails changes nothing at all. It succeeds whenever
/// no directory stands at the record path and no fault strikes.
pub proof fn remove_deletes_or_changes_nothing(
    token_path: Seq<char>,
    node_name: Seq<char>,
    fs: FileSystem,
    env: Environment,
)
    ensures
        ({
            let end = run_remove(RemoveTokensView::start(token_path, node_name), fs, env, 0);
            &&& end.result is Ok ==> end.fs == fs.without(token_path)
            &&& end.result is Err ==> {
                &&& end.fs == fs
                &&& end.result->Err_0 == (StorageErrorView::Io {
                    phase: IoPhaseView::Remove { node: node_name },
                    path: token_path,
                    cause: (env.faults)(1).cause,
                })
            }
            &&& !fs.is_dir(token_path) && env.calm() ==> end.result is Ok
        }),
{
    reveal_with_fuel(run_remove, 2);
    let end = run_remove(RemoveTokensView::start(token_path, node_name), fs, env, 0);
    if !fs.occupied(token_path) {
        assert(fs.nodes.remove(token_path) =~= fs.nodes);
    }
}

/// After a removal that succeeded, a load returns `Ok(None)`, whatever the
/// file system held before and whatever happens during the load.
pub proof fn load_after_remove_is_none(
    token_path: Seq<char>,
    node_name: Seq<char>,
    fs: FileSystem,
    removing: Environment,
    loading: Environment,
)
    requires
        run_remove(RemoveTokensView::start(token_path, node_name), fs, removing, 0).result is Ok,
    ensures
        run_load(
            LoadTokensView::start(token_path, node_name),
            run_remove(RemoveTokensView::start(token_path, node_name), fs, removing, 0).fs,
            loading,
            0,
        ).result == Ok::<Option<Seq<char>>, StorageErrorView>(None),
{
    remove_deletes_or_changes_nothing(token_path, node_name, fs, removing);
    let after = run_remove(RemoveTokensView::start(token_path, node_name), fs, removing, 0).fs;
    load_of_absent_is_none(token_path, node_name, after, loading);
}

/// Making sure of a cache directory that stands already does nothing and
/// succeeds: whatever permissions the directory has are left as they are.
pub proof fn ensure_of_present_does_nothing(
    layout: CacheLayoutView,
    fs: FileSystem,
    env: Environment,
)
    requires
        fs.occupied(layout.cache_dir),
    ensures
        run_ensure(EnsureCacheDirView::start(layout), fs, env, 0).result == Ok::<
            (),
            StorageErrorView,
        >(()),
        run_ensure(EnsureCacheDirView::start(layout), fs, env, 0).fs == fs,
{
}

/// Making sure of a cache directory that does not stand yet creates it,
/// with every directory above it that is missing, and restricts it, and it
/// alone, to its owner where the platform has permission bits.
///
/// When it succeeds, the directory stands with exactly those bits; each path
/// above it is a directory, the one that stood there or a new one; and every
/// other path is as it was: no file is created, changed or deleted. When it
/// fails, the error names the directory and the step that failed. It
/// succeeds whenever no fault strikes and no file stands at the directory's
/// path or above it.
pub proof fn ensure_of_absent_creates(layout: CacheLayoutView, fs: FileSystem, env: Environment)
    requires
        !fs.occupied(layout.cache_dir),
    ensures
        ({
            let dir = layout.cache_dir;
            let end = run_ensure(EnsureCacheDirView::start(layout), fs, env, 0);
            &&& end.fs.above == fs.above
            &&& end.fs.dir_default == fs.dir_default
            &&& end.fs.file_default == fs.file_default
            &&& forall|path: Seq<char>|
                path != dir ==> #[trigger] left_alone(end.fs, fs, dir, path)
            &&& end.result is Ok ==> settled(end.fs, fs, dir, layout.mode_bits)
            &&& end.result is Err ==> {
                &&& end.result->Err_0 matches StorageErrorView::Io { phase, path, .. }
                &&& path == dir
                &&& phase is CreateCacheDir || phase is SecureCacheDir
                &&& phase is CreateCacheDir ==> end.fs == fs
                &&& phase is SecureCacheDir ==> layout.mode_bits
            }
            &&& env.calm() && fs.permits(ActionView::CreateDirAll { path: dir })
                ==> end.result is Ok
        }),
{
    reveal_with_fuel(run_ensure, 3);
    let dir = layout.cache_dir;
    let end = run_ensure(EnsureCacheDirView::start(layout), fs, env, 0);
    let made = fs.with_dirs(fs.chain(dir));
    let secured = made.put(dir, made.nodes[dir].with_mode(DIR_MODE));
    assert(end.fs == fs || end.fs == made || end.fs == secured);
    assert forall|path: Seq<char>| path != dir implies #[trigger] left_alone(
        end.fs,
        fs,
        dir,
        path,
    ) by {
        assert(left_alone(made, fs, dir, path));
        assert(left_alone(secured, fs, dir, path));
    }
    if env.calm() {
        assert(!(env.faults)(1).strikes);
        assert(!(env.faults)(2).strikes);
    }
    if end.result is Ok {
        assert(end.fs == if layout.mode_bits {
            secured
        } else {
            made
        });
        assert(fs.chain(dir).contains(dir));
        assert forall|path: Seq<char>|
            #[trigger] (fs.above)(dir).contains(path) && path != dir implies parent_made(
            end.fs,
            fs,
            path,
        ) by {
            assert(fs.chain(dir).contains(path));
        }
    }
}

/// Where the platform has no permission bits, a save never comes to wait
/// for permissions to be set, neither on the directory nor on the temporary
/// file.
pub proof fn no_permissions_without_mode_bits(task: SaveTokensView, event: EventView)
    requires
        !task.layout.mode_bits,
        task.next(event) is Continue,
    ensures
        !(task.next(event)->Continue_0.pending() is SetPermissions),
{
}

/// The permission bits that the store sets grant nothing to anyone but the
/// owner.
pub proof fn modes_are_owner_only()
    ensures
        owner_only(DIR_MODE),
        owner_only(FILE_MODE),
{
    assert(0o700u32 & 0o077u32 == 0) by (bit_vector);
    assert(0o600u32 & 0o077u32 == 0) by (bit_vector);
}

/// A save that succeeds leaves the record file holding the encoded record,
/// in full and on stable storage, and leaves no temporary file behind. This
/// holds whatever stood at either path before.
pub proof fn save_installs_record(
    layout: CacheLayoutView,
    token_path: Seq<char>,
    fs: FileSystem,
    env: Environment,
)
    requires
        run_save(SaveTokensView::start(layout, token_path), fs, env, 0).result is Ok,
    ensures
        ({
            let task = SaveTokensView::start(layout, token_path);
            let end = run_save(task, fs, env, 0);
            &&& end.fs.is_file(token_path)
            &&& end.fs.nodes[token_path]->utf8
            &&& end.fs.nodes[token_path]->text == env.encoded
            &&& end.fs.nodes[token_path]->synced
            &&& !end.fs.occupied(task.temp_path())
        }),
{
    save_run_keeps(SaveTokensView::start(layout, token_path), fs, fs, env, 0);
}

/// At every moment of a save, whether it succeeds or fails and wherever it
/// fails, the record path holds either what it held before the save or the
/// new record in full and durably: never a part of one, never a mixture.
/// A save that fails leaves the record path as it was. This is said of a
/// record path that lies apart from the cache directory.
pub proof fn save_is_all_or_nothing(
    layout: CacheLayoutView,
    token_path: Seq<char>,
    fs: FileSystem,
    env: Environment,
)
    requires
        record_apart(SaveTokensView::start(layout, token_path), fs),
    ensures
        ({
            let task = SaveTokensView::start(layout, token_path);
            let end = run_save(task, fs, env, 0);
            &&& forall|i: int|
                0 <= i < end.trail.len() ==> old_or_new(
                    task,
                    #[trigger] end.trail[i],
                    fs,
                    env.encoded,
                )
            &&& end.result is Err ==> end.fs.same_at(fs, token_path)
        }),
{
    save_run_keeps(SaveTokensView::start(layout, token_path), fs, fs, env, 0);
}

/// A save works on three paths: the cache directory, the temporary file and
/// the record file. At every moment of it, every other path holds what it
/// held before, but that a path above the cache directory at which nothing
/// stood may have become a directory. A save ends after ten actions at the
/// most.
pub proof fn save_touches_nothing_else(
    layout: CacheLayoutView,
    token_path: Seq<char>,
    fs: FileSystem,
    env: Environment,
)
    ensures
        ({
            let task = SaveTokensView::start(layout, token_path);
            let end = run_save(task, fs, env, 0);
            &&& end.trail.len() <= 10
            &&& forall|i: int| 0 <= i < end.trail.len() ==> framed(task, #[trigger] end.trail[i], fs)
        }),
{
    save_run_keeps(SaveTokensView::start(layout, token_path), fs, fs, env, 0);
}

/// A save that succeeds leaves the cache directory as making sure of it
/// does: one that stood is untouched with all above it, and one that did not
/// is new with every missing directory above it, and it alone is restricted
/// to its owner.
pub proof fn save_settles_directory(
    layout: CacheLayoutView,
    token_path: Seq<char>,
    fs: FileSystem,
    env: Environment,
)
    requires
        apart(SaveTokensView::start(layout, token_path), fs),
        run_save(SaveTokensView::start(layout, token_path), fs, env, 0).result is Ok,
    ensures
        settled(
            run_save(SaveTokensView::start(layout, token_path), fs, env, 0).fs,
            fs,
            layout.cache_dir,
            layout.mode_bits,
        ),
{
    save_run_keeps(SaveTokensView::start(layout, token_path), fs, fs, env, 0);
}

/// On a platform with permission bits, a save that succeeds leaves the
/// record file open to its owner alone, and a cache directory that it had to
/// create likewise. A cache directory that stood before is left as it was.
pub proof fn save_restricts_to_owner(
    layout: CacheLayoutView,
    token_path: Seq<char>,
    fs: FileSystem,
    env: Environment,
)
    requires
        layout.mode_bits,
        apart(SaveTokensView::start(layout, token_path), fs),
        run_save(SaveTokensView::start(layout, token_path), fs, env, 0).result is Ok,
    ensures
        ({
            let end = run_save(SaveTokensView::start(layout, token_path), fs, env, 0);
            &&& end.fs.is_file(token_path)
            &&& end.fs.nodes[token_path]->File_mode == FILE_MODE
            &&& owner_only(end.fs.nodes[token_path]->File_mode)
            &&& !fs.occupied(layout.cache_dir) ==> {
                &&& end.fs.nodes[layout.cache_dir] == Node::Directory { mode: DIR_MODE }
                &&& owner_only(end.fs.nodes[layout.cache_dir]->Directory_mode)
            }
            &&& fs.occupied(layout.cache_dir) ==> end.fs.same_at(fs, layout.cache_dir)
        }),
{
    save_run_keeps(SaveTokensView::start(layout, token_path), fs, fs, env, 0);
    modes_are_owner_only();
}

/// A save succeeds whenever no fault strikes and nothing stands in its way:
/// the two files lie apart from the cache directory, no directory stands at
/// the record path or at the temporary path, and no file stands at the cache
/// directory's path or above it.
pub proof fn save_succeeds_when_nothing_fails(
    layout: CacheLayoutView,
    token_path: Seq<char>,
    fs: FileSystem,
    env: Environment,
)
    requires
        unobstructed(SaveTokensView::start(layout, token_path), fs),
        env.calm(),
    ensures
        run_save(SaveTokensView::start(layout, token_path), fs, env, 0).result is Ok,
{
    save_run_keeps(SaveTokensView::start(layout, token_path), fs, fs, env, 0);
}

/// A save whose record cannot be encoded ends with that error and has
/// written no file: the record file and the temporary file are as they were.
/// Only the cache directory may have been created, with what was missing
/// above it.
pub proof fn failed_encoding_writes_no_file(
    layout: CacheLayoutView,
    token_path: Seq<char>,
    fs: FileSystem,
    env: Environment,
)
    requires
        apart(SaveTokensView::start(layout, token_path), fs),
        run_save(SaveTokensView::start(layout, token_path), fs, env, 0).result is Err,
        run_save(
            SaveTokensView::start(layout, token_path),
            fs,
            env,
            0,
        ).result->Err_0 is Serialization,
    ensures
        ({
            let task = SaveTokensView::start(layout, token_path);
            let end = run_save(task, fs, env, 0);
            &&& end.fs.same_at(fs, token_path)
            &&& end.fs.same_at(fs, task.temp_path())
        }),
{
    save_run_keeps(SaveTokensView::start(layout, token_path), fs, fs, env, 0);
}

/// Round trip: after a save that succeeded, a load never reports the record
/// as absent and never returns another text. It returns the text that was
/// saved, unless reading or decoding fails; and it returns that text
/// whenever no fault strikes during the load.
pub proof fn load_after_save_returns_saved(
    layout: CacheLayoutView,
    token_path: Seq<char>,
    node_name: Seq<char>,
    fs: FileSystem,
    saving: Environment,
    loading: Environment,
)
    requires
        run_save(SaveTokensView::start(layout, token_path), fs, saving, 0).result is Ok,
    ensures
        ({
            let saved = run_save(SaveTokensView::start(layout, token_path), fs, saving, 0).fs;
            let end = run_load(LoadTokensView::start(token_path, node_name), saved, loading, 0);
            &&& end.result is Ok ==> end.result->Ok_0 == Some(saving.encoded)
            &&& loading.calm() ==> end.result is Ok
        }),
{
    save_installs_record(layout, token_path, fs, saving);
    let saved = run_save(SaveTokensView::start(layout, token_path), fs, saving, 0).fs;
    load_of_present_is_text_or_error(token_path, node_name, saved, loading);
}

/// Overwriting: after two saves that succeeded, the record file holds the
/// record of the second and nothing of the first, no temporary file is
/// left, and nothing has changed but where a save may work.
pub proof fn second_save_overwrites(
    layout: CacheLayoutView,
    token_path: Seq<char>,
    fs: FileSystem,
    first: Environment,
    second: Environment,
)
    requires
        run_save(SaveTokensView::start(layout, token_path), fs, first, 0).result is Ok,
        run_save(
            SaveTokensView::start(layout, token_path),
            run_save(SaveTokensView::start(layout, token_path), fs, first, 0).fs,
            second,
            0,
        ).result is Ok,
    ensures
        ({
            let task = SaveTokensView::start(layout, token_path);
            let once = run_save(task, fs, first, 0).fs;
            let twice = run_save(task, once, second, 0).fs;
            &&& twice.is_file(token_path)
            &&& twice.nodes[token_path]->text == second.encoded
            &&& !twice.occupied(task.temp_path())
            &&& framed(task, twice, fs)
        }),
{
    let task = SaveTokensView::start(layout, token_path);
    let once = run_save(task, fs, first, 0);
    let twice = run_save(task, once.fs, second, 0);
    save_run_keeps(task, fs, fs, first, 0);
    save_run_keeps(task, once.fs, once.fs, second, 0);
    assert(framed(task, once.fs, fs));
    assert(framed(task, twice.fs, once.fs));
    assert forall|path: Seq<char>|
        path != task.layout.cache_dir && path != task.temp_path() && path != task.token_path
        implies #[trigger] left_alone(twice.fs, fs, task.layout.cache_dir, path) by {
        assert(left_alone(once.fs, fs, task.layout.cache_dir, path));
        assert(left_alone(twice.fs, once.fs, task.layout.cache_dir, path));
    }
}

/// After a save and then a removal, both of which succeeded, a load returns
/// `Ok(None)`.
pub proof fn load_after_save_and_remove_is_none(
    layout: CacheLayoutView,
    token_path: Seq<char>,
    node_name: Seq<char>,
    fs: FileSystem,
    saving: Environment,
    removing: Environment,
    loading: Environment,
)
    requires
        run_save(SaveTokensView::start(layout, token_path), fs, saving, 0).result is Ok,
        run_remove(
            RemoveTokensView::start(token_path, node_name),
            run_save(SaveTokensView::start(layout, token_path), fs, saving, 0).fs,
            removing,
            0,
        ).result is Ok,
    ensures
        ({
            let saved = run_save(SaveTokensView::start(layout, token_path), fs, saving, 0).fs;
            let removed = run_remove(
                RemoveTokensView::start(token_path, node_name),
                saved,
                removing,
                0,
            ).fs;
            run_load(LoadTokensView::start(token_path, node_name), removed, loading, 0).result
                == Ok::<Option<Seq<char>>, StorageErrorView>(None)
        }),
{
    let saved = run_save(SaveTokensView::start(layout, token_path), fs, saving, 0).fs;
    load_after_remove_is_none(token_path, node_name, saved, removing, loading);
}

/// A removal after a save that succeeded does succeed whenever no fault
/// strikes during it.
pub proof fn remove_after_save_succeeds(
    layout: CacheLayoutView,
    token_path: Seq<char>,
    node_name: Seq<char>,
    fs: FileSystem,
    saving: Environment,
    removing: Environment,
)
    requires
        run_save(SaveTokensView::start(layout, token_path), fs, saving, 0).result is Ok,
        removing.calm(),
    ensures
        run_remove(
            RemoveTokensView::start(token_path, node_name),
            run_save(SaveTokensView::start(layout, token_path), fs, saving, 0).fs,
            removing,
            0,
        ).result is Ok,
{
    save_installs_record(layout, token_path, fs, saving);
    let saved = run_save(SaveTokensView::start(layout, token_path), fs, saving, 0).fs;
    remove_deletes_or_changes_nothing(token_path, node_name, saved, removing);
}

} // verus!
