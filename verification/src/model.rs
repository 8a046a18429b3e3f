//! A mathematical file system, against which the operations are run in
//! proofs: what each action does when it succeeds, when it cannot succeed,
//! and what a failure leaves behind.
//!
//! The model is deliberately small. A path is its text: two texts are two
//! places. Which paths lie above a path is given with the file system and
//! never worked out from the text, so nothing here depends on how a path is
//! split into parts. The question whether a path exists is answered truly.
//! Any action that can fail may fail at any time.

use vstd::prelude::*;

use crate::error::CauseView;
use crate::protocol::{ActionView, EventView};

verus! {

/// Whether `mode` grants nothing to the group and nothing to others.
pub open spec fn owner_only(mode: u32) -> bool {
    mode & 0o077 == 0
}

/// What stands at a path.
pub enum Node {
    Directory { mode: u32 },
    /// A file: its content, its permission bits, and whether all of its
    /// content has reached stable storage. Where `utf8` is false the bytes
    /// of the file are no text, and `text` says nothing of them.
    File { text: Seq<char>, utf8: bool, mode: u32, synced: bool },
}

impl Node {
    /// This node with other permission bits.
    pub open spec fn with_mode(self, mode: u32) -> Node {
        match self {
            Node::Directory { .. } => Node::Directory { mode },
            Node::File { text, utf8, synced, .. } => Node::File { text, utf8, mode, synced },
        }
    }

    /// The file that holds `text` in full and durably, open to its owner
    /// alone where `mode_bits` says that the platform can express it. On a
    /// platform that cannot, the permission bits are whatever `mode` is.
    pub open spec fn is_record(self, text: Seq<char>, mode_bits: bool) -> bool {
        &&& self matches Node::File { text: content, utf8, mode, synced }
        &&& content == text
        &&& utf8
        &&& synced
        &&& mode_bits ==> mode == crate::protocol::FILE_MODE
    }
}

/// Something outside the operation's control that happens to one action.
pub struct Fault {
    /// Whether the action fails although it could have succeeded.
    pub strikes: bool,
    /// The cause reported if the action fails, for whichever reason.
    pub cause: CauseView,
    /// What a failed write has added to the file all the same.
    pub residue: Seq<char>,
    /// Whether a failed write stopped in the middle of a character, which
    /// leaves the file holding no text.
    pub torn: bool,
}

/// A file system.
pub struct FileSystem {
    pub nodes: Map<Seq<char>, Node>,
    /// The paths that lie above a path: its parent, the parent of that, and
    /// so on up.
    pub above: spec_fn(Seq<char>) -> Set<Seq<char>>,
    /// The permission bits that a new directory gets.
    pub dir_default: u32,
    /// The permission bits that a new file gets.
    pub file_default: u32,
}

/// What a file system has become through an action, and the report on it.
pub struct Reaction {
    pub fs: FileSystem,
    pub event: EventView,
}

impl FileSystem {
    pub open spec fn occupied(self, path: Seq<char>) -> bool {
        self.nodes.contains_key(path)
    }

    pub open spec fn is_file(self, path: Seq<char>) -> bool {
        self.occupied(path) && self.nodes[path] is File
    }

    pub open spec fn is_dir(self, path: Seq<char>) -> bool {
        self.occupied(path) && self.nodes[path] is Directory
    }

    /// The paths that must be directories for `path` to be one: `path`
    /// itself and all that lie above it.
    pub open spec fn chain(self, path: Seq<char>) -> Set<Seq<char>> {
        (self.above)(path).insert(path)
    }

    /// This file system with a new directory at each of `paths` at which
    /// nothing stood. What stood is left as it was.
    pub open spec fn with_dirs(self, paths: Set<Seq<char>>) -> FileSystem {
        FileSystem {
            nodes: Map::new(
                |path: Seq<char>| self.occupied(path) || paths.contains(path),
                |path: Seq<char>|
                    if self.occupied(path) {
                        self.nodes[path]
                    } else {
                        Node::Directory { mode: self.dir_default }
                    },
            ),
            ..self
        }
    }

    /// This file system with `node` at `path`.
    pub open spec fn put(self, path: Seq<char>, node: Node) -> FileSystem {
        FileSystem { nodes: self.nodes.insert(path, node), ..self }
    }

    /// This file system with nothing at `path`.
    pub open spec fn without(self, path: Seq<char>) -> FileSystem {
        FileSystem { nodes: self.nodes.remove(path), ..self }
    }

    /// Whether the two file systems have the same thing, or both nothing, at
    /// `path`.
    pub open spec fn same_at(self, other: FileSystem, path: Seq<char>) -> bool {
        &&& self.occupied(path) == other.occupied(path)
        &&& self.occupied(path) ==> self.nodes[path] == other.nodes[path]
    }

    /// Whether no file stands at `path` or above it.
    pub open spec fn clear_for_dirs(self, path: Seq<char>) -> bool {
        forall|step: Seq<char>| #[trigger] self.chain(path).contains(step) ==> !self.is_file(step)
    }

    /// Whether `action` can succeed here. A directory cannot be created
    /// where a file stands or below one, nor a file where a directory
    /// stands; what is written, synced, read or deleted must be a file;
    /// permissions are set on what exists; a file is moved, and not onto a
    /// directory.
    pub open spec fn permits(self, action: ActionView) -> bool {
        match action {
            ActionView::CreateDirAll { path } => self.clear_for_dirs(path),
            ActionView::SetPermissions { path, .. } => self.occupied(path),
            ActionView::CreateFile { path } => !self.is_dir(path),
            ActionView::WriteAll { path, .. }
            | ActionView::SyncAll { path }
            | ActionView::ReadToString { path }
            | ActionView::RemoveFile { path } => self.is_file(path),
            ActionView::Rename { from, to } => self.is_file(from) && !self.is_dir(to),
            _ => true,
        }
    }

    /// The file system after `action` has succeeded. Creating a directory
    /// creates every directory above it that is missing, too.
    pub open spec fn after(self, action: ActionView) -> FileSystem {
        match action {
            ActionView::CreateDirAll { path } => self.with_dirs(self.chain(path)),
            ActionView::SetPermissions { path, mode } => self.put(
                path,
                self.nodes[path].with_mode(mode),
            ),
            ActionView::CreateFile { path } => self.put(
                path,
                Node::File {
                    text: Seq::empty(),
                    utf8: true,
                    mode: if self.occupied(path) {
                        self.nodes[path]->File_mode
                    } else {
                        self.file_default
                    },
                    synced: false,
                },
            ),
            ActionView::WriteAll { path, text } => self.put(
                path,
                Node::File {
                    text: self.nodes[path]->text + text,
                    utf8: self.nodes[path]->utf8,
                    mode: self.nodes[path]->File_mode,
                    synced: false,
                },
            ),
            ActionView::SyncAll { path } => self.put(
                path,
                Node::File {
                    text: self.nodes[path]->text,
                    utf8: self.nodes[path]->utf8,
                    mode: self.nodes[path]->File_mode,
                    synced: true,
                },
            ),
            ActionView::Rename { from, to } => self.without(from).put(to, self.nodes[from]),
            ActionView::RemoveFile { path } => self.without(path),
            _ => self,
        }
    }

    /// The file system after `action` has failed. A failure changes nothing,
    /// but for a write: it may have written something before it failed, and
    /// may have stopped in the middle of a character.
    pub open spec fn after_failure(self, action: ActionView, fault: Fault) -> FileSystem {
        match action {
            ActionView::WriteAll { path, .. } => if self.is_file(path) {
                self.put(
                    path,
                    Node::File {
                        text: self.nodes[path]->text + fault.residue,
                        utf8: self.nodes[path]->utf8 && !fault.torn,
                        mode: self.nodes[path]->File_mode,
                        synced: false,
                    },
                )
            } else {
                self
            },
            _ => self,
        }
    }

    /// The report on `action` when it succeeds. `encoded` is the text that
    /// encoding the record yields. A file that holds no text is read all the
    /// same, and reported as such with the cause that `fault` names.
    pub open spec fn reply(self, action: ActionView, fault: Fault, encoded: Seq<char>)
        -> EventView {
        match action {
            ActionView::Serialize => EventView::Text(encoded),
            ActionView::ReadToString { path } => if self.nodes[path]->utf8 {
                EventView::Text(self.nodes[path]->text)
            } else {
                EventView::NotText(fault.cause)
            },
            _ => EventView::Done,
        }
    }

    /// What comes of performing `action` here under `fault`.
    ///
    /// The question whether a path exists is answered truly and cannot fail,
    /// nor can closing a file. Anything else fails if the fault strikes or
    /// the file system does not permit it, and succeeds otherwise.
    pub open spec fn perform(self, action: ActionView, fault: Fault, encoded: Seq<char>)
        -> Reaction {
        match action {
            ActionView::Exists { path } => Reaction {
                fs: self,
                event: EventView::Exists(self.occupied(path)),
            },
            ActionView::CloseFile { .. } => Reaction { fs: self, event: EventView::Done },
            _ => if fault.strikes || !self.permits(action) {
                Reaction {
                    fs: self.after_failure(action, fault),
                    event: EventView::Failed(fault.cause),
                }
            } else {
                Reaction { fs: self.after(action), event: self.reply(action, fault, encoded) }
            },
        }
    }
}

/// Everything outside an operation's control during one run of it.
pub struct Environment {
    /// What happens to the action with a given number, counted from 0.
    pub faults: spec_fn(nat) -> Fault,
    /// The text that encoding the record yields, if encoding succeeds.
    pub encoded: Seq<char>,
}

impl Environment {
    /// Whether no fault strikes from action `from` on.
    pub open spec fn calm_from(self, from: nat) -> bool {
        forall|at: nat| from <= at ==> !(#[trigger] (self.faults)(at)).strikes
    }

    /// Whether no fault ever strikes.
    pub open spec fn calm(self) -> bool {
        self.calm_from(0)
    }
}

/// The report that the model gives on an action is always one that the
/// action admits, so no operation ever rejects it.
pub proof fn perform_answers(fs: FileSystem, action: ActionView, fault: Fault, encoded: Seq<char>)
    ensures
        action.answered_by(fs.perform(action, fault, encoded).event),
{
}

} // verus!
