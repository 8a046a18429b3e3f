//! The storage handle: where each operation of the store begins.

use vstd::prelude::*;

use crate::directory::{CacheLayout, DirPhase, EnsureCacheDir, EnsureCacheDirView};
use crate::load::{LoadPhase, LoadTokens, LoadTokensView};
use crate::remove::{RemovePhase, RemoveTokens, RemoveTokensView};
use crate::save::{SavePhase, SaveTokens, SaveTokensView};

verus! {

/// Disk-backed storage for one credential record per node.
///
/// The handle keeps nothing between calls: the file system is the only
/// store. Its methods begin operations. An operation performs no I/O; it
/// names the next action through `pending`, and takes the report on it
/// through `advance`, until a step says that it is finished.
#[derive(Clone, Debug)]
pub struct MeroboxFileStorage;

impl MeroboxFileStorage {
    /// A storage handle.
    pub fn new() -> (storage: Self)
        ensures
            storage == MeroboxFileStorage,
    {
        MeroboxFileStorage
    }

    /// Begins the operation that makes sure the cache directory of `layout`
    /// exists.
    pub fn ensure_cache_dir_exists(&self, layout: &CacheLayout) -> (task: EnsureCacheDir)
        ensures
            task@ == EnsureCacheDirView::start(layout@),
    {
        EnsureCacheDir {
            layout: CacheLayout { cache_dir: layout.cache_dir.clone(), mode_bits: layout.mode_bits },
            phase: DirPhase::Probe,
        }
    }

    /// Begins the operation that saves a record into the record file
    /// `token_path`, in the cache of `layout`.
    pub fn save_tokens(&self, layout: &CacheLayout, token_path: &str) -> (task: SaveTokens)
        ensures
            task@ == SaveTokensView::start(layout@, token_path@),
    {
        SaveTokens {
            layout: CacheLayout { cache_dir: layout.cache_dir.clone(), mode_bits: layout.mode_bits },
            token_path: token_path.to_owned(),
            text: String::new(),
            phase: SavePhase::Directory(DirPhase::Probe),
        }
    }

    /// Begins the operation that loads the record of the node `node_name`
    /// from its record file `token_path`.
    pub fn load_tokens(&self, token_path: &str, node_name: &str) -> (task: LoadTokens)
        ensures
            task@ == LoadTokensView::start(token_path@, node_name@),
    {
        LoadTokens {
            token_path: token_path.to_owned(),
            node_name: node_name.to_owned(),
            text: String::new(),
            phase: LoadPhase::Probe,
        }
    }

    /// Begins the operation that removes the record of the node `node_name`
    /// by deleting its record file `token_path`.
    pub fn remove_tokens(&self, token_path: &str, node_name: &str) -> (task: RemoveTokens)
        ensures
            task@ == RemoveTokensView::start(token_path@, node_name@),
    {
        RemoveTokens {
            token_path: token_path.to_owned(),
            node_name: node_name.to_owned(),
            phase: RemovePhase::Probe,
        }
    }
}

impl Default for MeroboxFileStorage {
    fn default() -> (storage: Self)
        ensures
            storage == MeroboxFileStorage,
    {
        MeroboxFileStorage::new()
    }
}

} // verus!
