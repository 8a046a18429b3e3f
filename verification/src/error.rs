//! What can go wrong, and with how much context it is reported.

use vstd::prelude::*;
use vstd::string::*;

verus! {

/// Why a single action failed, as the party that performed it reported it:
/// the operating system's error number where there is one, and a
/// description.
#[derive(Clone, Debug, PartialEq, Eq)]
pub struct Cause {
    pub code: Option<i32>,
    pub message: String,
}

/// The mathematical value of a [`Cause`].
pub struct CauseView {
    pub code: Option<i32>,
    pub message: Seq<char>,
}

impl View for Cause {
    type V = CauseView;

    open spec fn view(&self) -> CauseView {
        CauseView { code: self.code, message: self.message@ }
    }
}

/// The file-system step that failed.
#[derive(Clone, Debug, PartialEq, Eq)]
pub enum IoPhase {
    /// Creating the cache directory and its missing ancestors.
    CreateCacheDir,
    /// Restricting the fresh cache directory to its owner.
    SecureCacheDir,
    /// Creating or truncating the temporary file.
    CreateTemp,
    /// Writing the encoded record into the temporary file.
    WriteTemp,
    /// Forcing the temporary file to stable storage.
    SyncTemp,
    /// Restricting the temporary file to its owner.
    SecureTemp,
    /// Moving the temporary file onto the record path `target`.
    Rename { target: String },
    /// Reading the record file of `node`.
    Read { node: String },
    /// Deleting the record file of `node`.
    Remove { node: String },
}

/// The mathematical value of an [`IoPhase`].
pub enum IoPhaseView {
    CreateCacheDir,
    SecureCacheDir,
    CreateTemp,
    WriteTemp,
    SyncTemp,
    SecureTemp,
    Rename { target: Seq<char> },
    Read { node: Seq<char> },
    Remove { node: Seq<char> },
}

impl View for IoPhase {
    type V = IoPhaseView;

    open spec fn view(&self) -> IoPhaseView {
        match self {
            IoPhase::CreateCacheDir => IoPhaseView::CreateCacheDir,
            IoPhase::SecureCacheDir => IoPhaseView::SecureCacheDir,
            IoPhase::CreateTemp => IoPhaseView::CreateTemp,
            IoPhase::WriteTemp => IoPhaseView::WriteTemp,
            IoPhase::SyncTemp => IoPhaseView::SyncTemp,
            IoPhase::SecureTemp => IoPhaseView::SecureTemp,
            IoPhase::Rename { target } => IoPhaseView::Rename { target: target@ },
            IoPhase::Read { node } => IoPhaseView::Read { node: node@ },
            IoPhase::Remove { node } => IoPhaseView::Remove { node: node@ },
        }
    }
}

/// An operation's failure. Nothing is retried and nothing is swallowed: the
/// first action that fails ends the operation with one of these.
#[derive(Clone, Debug, PartialEq, Eq)]
pub enum StorageError {
    /// A file-system action on `path` failed during `phase`.
    Io { phase: IoPhase, path: String, cause: Cause },
    /// The record could not be encoded.
    Serialization { cause: Cause },
    /// The record file at `path` exists and was read, but what it holds is
    /// not an encoded record.
    Deserialization { path: String, node: String, cause: Cause },
}

/// The mathematical value of a [`StorageError`].
pub enum StorageErrorView {
    Io { phase: IoPhaseView, path: Seq<char>, cause: CauseView },
    Serialization { cause: CauseView },
    Deserialization { path: Seq<char>, node: Seq<char>, cause: CauseView },
}

impl View for StorageError {
    type V = StorageErrorView;

    open spec fn view(&self) -> StorageErrorView {
        match self {
            StorageError::Io { phase, path, cause } => StorageErrorView::Io {
                phase: phase@,
                path: path@,
                cause: cause@,
            },
            StorageError::Serialization { cause } => StorageErrorView::Serialization {
                cause: cause@,
            },
            StorageError::Deserialization { path, node, cause } => {
                StorageErrorView::Deserialization { path: path@, node: node@, cause: cause@ }
            },
        }
    }
}

/// The text that Rust's `Debug` formatting writes for the string `text`: the
/// string between double quotes, with the characters that need it escaped.
pub uninterp spec fn debug_form(text: Seq<char>) -> Seq<char>;

/// Wraps `format!` with `{:?}` on a string slice, which is `Debug` for
/// `str`. Taken on trust: that what it writes depends on the characters of
/// `text` alone, which is what entitles the result to a name. Nothing is
/// claimed of what the result looks like.
#[verifier::external_body]
fn quoted(text: &str) -> (out: String)
    ensures
        out@ == debug_form(text@),
{
    format!("{:?}", text)
}

impl StorageErrorView {
    /// The path on which the failed action worked; empty where there is
    /// none.
    pub open spec fn path(self) -> Seq<char> {
        match self {
            StorageErrorView::Io { path, .. } => path,
            StorageErrorView::Serialization { .. } => Seq::empty(),
            StorageErrorView::Deserialization { path, .. } => path,
        }
    }

    /// The path onto which a failed move was to go; empty for every other
    /// failure.
    pub open spec fn target(self) -> Seq<char> {
        match self {
            StorageErrorView::Io { phase: IoPhaseView::Rename { target }, .. } => target,
            _ => Seq::empty(),
        }
    }

    /// Why the action failed.
    pub open spec fn cause(self) -> CauseView {
        match self {
            StorageErrorView::Io { cause, .. } => cause,
            StorageErrorView::Serialization { cause } => cause,
            StorageErrorView::Deserialization { cause, .. } => cause,
        }
    }

    /// One line that says what was being done, where, and for which node,
    /// where `path` and `target` are the texts to show for the error's path
    /// and target. The cause is not part of it.
    pub open spec fn message_around(self, path: Seq<char>, target: Seq<char>) -> Seq<char> {
        match self {
            StorageErrorView::Io { phase, .. } => match phase {
                IoPhaseView::CreateCacheDir => "Failed to create cache directory: "@ + path,
                IoPhaseView::SecureCacheDir => "Failed to set permissions on cache directory: "@
                    + path,
                IoPhaseView::CreateTemp => "Failed to create temp file: "@ + path,
                IoPhaseView::WriteTemp => "Failed to write to temp file: "@ + path,
                IoPhaseView::SyncTemp => "Failed to sync temp file: "@ + path,
                IoPhaseView::SecureTemp => "Failed to set permissions on temp file: "@ + path,
                IoPhaseView::Rename { .. } => "Failed to rename temp file "@ + path + " to "@
                    + target,
                IoPhaseView::Read { node } => "Failed to read token file: "@ + path
                    + " for node: "@ + node,
                IoPhaseView::Remove { node } => "Failed to remove token file: "@ + path
                    + " for node: "@ + node,
            },
            StorageErrorView::Serialization { .. } => "Failed to serialize JWT tokens to JSON"@,
            StorageErrorView::Deserialization { node, .. } =>
                "Failed to parse token JSON from file: "@ + path + " for node: "@ + node,
        }
    }

    /// The message with each path shown as [`debug_form`] writes it.
    pub open spec fn message(self) -> Seq<char> {
        self.message_around(debug_form(self.path()), debug_form(self.target()))
    }
}

/// `lead` followed by `rest`.
fn joined(lead: &str, rest: &str) -> (text: String)
    ensures
        text@ == lead@ + rest@,
{
    let mut text = lead.to_owned();
    text.append(rest);
    text
}

/// `lead`, `path`, `link` and `last`, one after another.
fn joined_four(lead: &str, path: &str, link: &str, last: &str) -> (text: String)
    ensures
        text@ == lead@ + path@ + link@ + last@,
{
    let mut text = joined(lead, path);
    text.append(link);
    text.append(last);
    text
}

impl StorageError {
    /// Why the action failed.
    pub fn cause(&self) -> (cause: &Cause)
        ensures
            cause@ == self@.cause(),
    {
        match self {
            StorageError::Io { cause, .. } => cause,
            StorageError::Serialization { cause } => cause,
            StorageError::Deserialization { cause, .. } => cause,
        }
    }

    /// One line that says what was being done, where, and for which node,
    /// with `path` and `target` shown in place of the error's path and
    /// target.
    pub fn message_around(&self, path: &str, target: &str) -> (text: String)
        ensures
            text@ == self@.message_around(path@, target@),
    {
        match self {
            StorageError::Io { phase, .. } => match phase {
                IoPhase::CreateCacheDir => joined("Failed to create cache directory: ", path),
                IoPhase::SecureCacheDir => joined(
                    "Failed to set permissions on cache directory: ",
                    path,
                ),
                IoPhase::CreateTemp => joined("Failed to create temp file: ", path),
                IoPhase::WriteTemp => joined("Failed to write to temp file: ", path),
                IoPhase::SyncTemp => joined("Failed to sync temp file: ", path),
                IoPhase::SecureTemp => joined("Failed to set permissions on temp file: ", path),
                IoPhase::Rename { .. } => joined_four(
                    "Failed to rename temp file ",
                    path,
                    " to ",
                    target,
                ),
                IoPhase::Read { node } => joined_four(
                    "Failed to read token file: ",
                    path,
                    " for node: ",
                    node,
                ),
                IoPhase::Remove { node } => joined_four(
                    "Failed to remove token file: ",
                    path,
                    " for node: ",
                    node,
                ),
            },
            StorageError::Serialization { .. } => "Failed to serialize JWT tokens to JSON".to_owned(),
            StorageError::Deserialization { node, .. } => joined_four(
                "Failed to parse token JSON from file: ",
                path,
                " for node: ",
                node,
            ),
        }
    }

    /// One line that says what was being done, where, and for which node.
    /// Each path stands in it between quotes, as `Debug` writes a string.
    pub fn message(&self) -> (text: String)
        ensures
            text@ == self@.message(),
    {
        let (path, target) = match self {
            StorageError::Io { phase: IoPhase::Rename { target }, path, .. } => (
                quoted(path),
                quoted(target),
            ),
            StorageError::Io { path, .. } => (quoted(path), quoted("")),
            StorageError::Serialization { .. } => (quoted(""), quoted("")),
            StorageError::Deserialization { path, .. } => (quoted(path), quoted("")),
        };
        self.message_around(path.as_str(), target.as_str())
    }
}

} // verus!
