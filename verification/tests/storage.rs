//! The operations driven against a small file system held in memory.

use std::collections::BTreeMap;

use merobox_storage::directory::{CacheLayout, DirPhase, EnsureCacheDir};
use merobox_storage::error::{Cause, IoPhase, StorageError};
use merobox_storage::load::{LoadPhase, LoadTokens};
use merobox_storage::protocol::{Action, Event, Step, DIR_MODE, FILE_MODE};
use merobox_storage::remove::{RemovePhase, RemoveTokens};
use merobox_storage::save::{temp_path, SavePhase, SaveTokens};
use merobox_storage::storage::MeroboxFileStorage;

const DIR: &str = "/home/u/.merobox/auth_cache";
const PATH: &str = "/home/u/.merobox/auth_cache/node-a.json";
const TEMP: &str = "/home/u/.merobox/auth_cache/node-a.json.tmp";

#[derive(Clone, Debug, PartialEq, Eq)]
enum Entry {
    Dir { mode: u32 },
    File { text: String, mode: u32, synced: bool },
    /// A file whose bytes are no text.
    Raw { bytes: Vec<u8> },
}

/// The paths above `path`, nearest first.
fn above(path: &str) -> Vec<String> {
    let mut found = Vec::new();
    let mut rest = path;
    while let Some(cut) = rest.rfind('/') {
        rest = &rest[..cut];
        if !rest.is_empty() {
            found.push(rest.to_string());
        }
    }
    found
}

/// A file system in memory. The action with the number `fail_at`, counted
/// from 0 over the disk's life, fails.
struct Disk {
    nodes: BTreeMap<String, Entry>,
    fail_at: Option<usize>,
    performed: Vec<Action>,
}

fn denied() -> Cause {
    Cause { code: Some(13), message: "Permission denied (os error 13)".to_string() }
}

impl Disk {
    fn new() -> Disk {
        Disk { nodes: BTreeMap::new(), fail_at: None, performed: Vec::new() }
    }

    fn failing_at(at: usize) -> Disk {
        Disk { nodes: BTreeMap::new(), fail_at: Some(at), performed: Vec::new() }
    }

    fn text_at(&self, path: &str) -> Option<String> {
        match self.nodes.get(path) {
            Some(Entry::File { text, .. }) => Some(text.clone()),
            _ => None,
        }
    }

    fn perform(&mut self, action: &Action, encoded: &Result<String, Cause>) -> Event {
        let number = self.performed.len();
        self.performed.push(action.clone());
        match action {
            Action::Exists { path } => return Event::Exists(self.nodes.contains_key(path)),
            Action::CloseFile { .. } => return Event::Done,
            _ => {},
        }
        if self.fail_at == Some(number) {
            return Event::Failed(denied());
        }
        match action {
            Action::CreateDirAll { path } => {
                let mut chain = above(path);
                chain.push(path.clone());
                if chain.iter().any(|step| !matches!(self.nodes.get(step), None | Some(Entry::Dir { .. }))) {
                    return Event::Failed(denied());
                }
                for step in chain {
                    self.nodes.entry(step).or_insert(Entry::Dir { mode: 0o755 });
                }
                Event::Done
            },
            Action::SetPermissions { path, mode } => match self.nodes.get_mut(path) {
                Some(Entry::Dir { mode: held }) => {
                    *held = *mode;
                    Event::Done
                },
                Some(Entry::File { mode: held, .. }) => {
                    *held = *mode;
                    Event::Done
                },
                _ => Event::Failed(denied()),
            },
            Action::Serialize => match encoded {
                Ok(text) => Event::Text(text.clone()),
                Err(cause) => Event::Failed(cause.clone()),
            },
            Action::CreateFile { path } => {
                let mode = match self.nodes.get(path) {
                    Some(Entry::File { mode, .. }) => *mode,
                    Some(Entry::Dir { .. }) => return Event::Failed(denied()),
                    _ => 0o644,
                };
                self.nodes.insert(
                    path.clone(),
                    Entry::File { text: String::new(), mode, synced: false },
                );
                Event::Done
            },
            Action::WriteAll { path, text } => match self.nodes.get_mut(path) {
                Some(Entry::File { text: held, synced, .. }) => {
                    held.push_str(text);
                    *synced = false;
                    Event::Done
                },
                _ => Event::Failed(denied()),
            },
            Action::SyncAll { path } => match self.nodes.get_mut(path) {
                Some(Entry::File { synced, .. }) => {
                    *synced = true;
                    Event::Done
                },
                _ => Event::Failed(denied()),
            },
            Action::Rename { from, to } => match self.nodes.remove(from) {
                Some(entry) => {
                    self.nodes.insert(to.clone(), entry);
                    Event::Done
                },
                None => Event::Failed(denied()),
            },
            Action::ReadToString { path } => match self.nodes.get(path) {
                Some(Entry::File { text, .. }) => Event::Text(text.clone()),
                Some(Entry::Raw { bytes }) => match String::from_utf8(bytes.clone()) {
                    Ok(text) => Event::Text(text),
                    Err(error) => Event::NotText(Cause { code: None, message: error.to_string() }),
                },
                _ => Event::Failed(denied()),
            },
            Action::Deserialize { text } => match serde_json::from_str::<serde_json::Value>(text) {
                Ok(_) => Event::Done,
                Err(error) => Event::Failed(Cause { code: None, message: error.to_string() }),
            },
            Action::RemoveFile { path } => match self.nodes.remove(path) {
                Some(_) => Event::Done,
                None => Event::Failed(denied()),
            },
            Action::Exists { .. } | Action::CloseFile { .. } => unreachable!(),
        }
    }
}

fn layout(mode_bits: bool) -> CacheLayout {
    CacheLayout { cache_dir: DIR.to_string(), mode_bits }
}

fn save(disk: &mut Disk, mode_bits: bool, encoded: Result<String, Cause>) -> Result<(), StorageError> {
    let mut task = MeroboxFileStorage::new().save_tokens(&layout(mode_bits), PATH);
    loop {
        let event = disk.perform(&task.pending(), &encoded);
        match task.advance(event) {
            Step::Continue(next) => task = next,
            Step::Finished(result) => return result,
            Step::Rejected(_) => panic!("the report was rejected"),
        }
    }
}

fn load(disk: &mut Disk) -> Result<Option<String>, StorageError> {
    let mut task = MeroboxFileStorage::new().load_tokens(PATH, "node-a");
    loop {
        let event = disk.perform(&task.pending(), &Ok(String::new()));
        match task.advance(event) {
            Step::Continue(next) => task = next,
            Step::Finished(result) => return result,
            Step::Rejected(_) => panic!("the report was rejected"),
        }
    }
}

fn remove(disk: &mut Disk) -> Result<(), StorageError> {
    let mut task = MeroboxFileStorage::new().remove_tokens(PATH, "node-a");
    loop {
        let event = disk.perform(&task.pending(), &Ok(String::new()));
        match task.advance(event) {
            Step::Continue(next) => task = next,
            Step::Finished(result) => return result,
            Step::Rejected(_) => panic!("the report was rejected"),
        }
    }
}

fn ensure(disk: &mut Disk, mode_bits: bool) -> Result<(), StorageError> {
    let mut task = MeroboxFileStorage::new().ensure_cache_dir_exists(&layout(mode_bits));
    loop {
        let event = disk.perform(&task.pending(), &Ok(String::new()));
        match task.advance(event) {
            Step::Continue(next) => task = next,
            Step::Finished(result) => return result,
            Step::Rejected(_) => panic!("the report was rejected"),
        }
    }
}

fn record_text() -> String {
    let mut fields = serde_json::Map::new();
    fields.insert("token".to_string(), serde_json::Value::String("abc".to_string()));
    serde_json::to_string_pretty(&serde_json::Value::Object(fields)).unwrap()
}

fn io(phase: IoPhase, path: &str) -> StorageError {
    StorageError::Io { phase, path: path.to_string(), cause: denied() }
}

#[test]
fn new_and_default_give_the_same_handle() {
    let made = MeroboxFileStorage::new();
    let by_default = MeroboxFileStorage::default();
    assert_eq!(format!("{:?}", made), format!("{:?}", by_default));
    assert_eq!(format!("{:?}", made.clone()), "MeroboxFileStorage");
}

#[test]
fn permission_constants_are_owner_only() {
    assert_eq!(DIR_MODE, 0o700);
    assert_eq!(FILE_MODE, 0o600);
    assert_eq!(DIR_MODE & 0o077, 0);
    assert_eq!(FILE_MODE & 0o077, 0);
}

#[test]
fn temp_path_appends_the_suffix() {
    assert_eq!(temp_path(PATH), TEMP);
    assert_eq!(temp_path("node-a.json"), "node-a.json.tmp");
    assert_eq!(temp_path("node.v1.json"), "node.v1.json.tmp");
    assert_eq!(temp_path(""), ".tmp");
}

#[test]
fn save_performs_its_actions_in_order() {
    let mut disk = Disk::new();
    assert_eq!(save(&mut disk, true, Ok("{}".to_string())), Ok(()));
    let expected = vec![
        Action::Exists { path: DIR.to_string() },
        Action::CreateDirAll { path: DIR.to_string() },
        Action::SetPermissions { path: DIR.to_string(), mode: 0o700 },
        Action::Serialize,
        Action::CreateFile { path: TEMP.to_string() },
        Action::WriteAll { path: TEMP.to_string(), text: "{}".to_string() },
        Action::SyncAll { path: TEMP.to_string() },
        Action::CloseFile { path: TEMP.to_string() },
        Action::SetPermissions { path: TEMP.to_string(), mode: 0o600 },
        Action::Rename { from: TEMP.to_string(), to: PATH.to_string() },
    ];
    assert_eq!(disk.performed, expected);
}

#[test]
fn save_into_an_existing_directory_leaves_it_alone() {
    let mut disk = Disk::new();
    disk.nodes.insert(DIR.to_string(), Entry::Dir { mode: 0o755 });
    assert_eq!(save(&mut disk, true, Ok("{}".to_string())), Ok(()));
    assert_eq!(disk.nodes.get(DIR), Some(&Entry::Dir { mode: 0o755 }));
    assert_eq!(disk.performed.len(), 8);
    assert_eq!(disk.performed[1], Action::Serialize);
}

#[test]
fn save_without_mode_bits_sets_no_permissions() {
    let mut disk = Disk::new();
    assert_eq!(save(&mut disk, false, Ok("{}".to_string())), Ok(()));
    let expected = vec![
        Action::Exists { path: DIR.to_string() },
        Action::CreateDirAll { path: DIR.to_string() },
        Action::Serialize,
        Action::CreateFile { path: TEMP.to_string() },
        Action::WriteAll { path: TEMP.to_string(), text: "{}".to_string() },
        Action::SyncAll { path: TEMP.to_string() },
        Action::CloseFile { path: TEMP.to_string() },
        Action::Rename { from: TEMP.to_string(), to: PATH.to_string() },
    ];
    assert_eq!(disk.performed, expected);
    assert_eq!(disk.nodes.get(DIR), Some(&Entry::Dir { mode: 0o755 }));
    assert_eq!(
        disk.nodes.get(PATH),
        Some(&Entry::File { text: "{}".to_string(), mode: 0o644, synced: true })
    );
}

#[test]
fn load_without_a_file_is_none() {
    let mut disk = Disk::new();
    assert_eq!(load(&mut disk), Ok(None));
    assert_eq!(disk.performed, vec![Action::Exists { path: PATH.to_string() }]);
}

#[test]
fn load_after_save_returns_what_was_saved() {
    let mut disk = Disk::new();
    let text = record_text();
    assert_eq!(save(&mut disk, true, Ok(text.clone())), Ok(()));
    assert_eq!(load(&mut disk), Ok(Some(text)));
}

#[test]
fn second_save_overwrites_the_first() {
    let mut disk = Disk::new();
    assert_eq!(save(&mut disk, true, Ok("\"first, and longer\"".to_string())), Ok(()));
    assert_eq!(save(&mut disk, true, Ok("\"second\"".to_string())), Ok(()));
    assert_eq!(disk.text_at(PATH), Some("\"second\"".to_string()));
    let paths: Vec<&str> = disk.nodes.keys().map(|path| path.as_str()).collect();
    assert_eq!(paths, vec!["/home", "/home/u", "/home/u/.merobox", DIR, PATH]);
    assert_eq!(load(&mut disk), Ok(Some("\"second\"".to_string())));
}

#[test]
fn load_after_remove_is_none() {
    let mut disk = Disk::new();
    assert_eq!(save(&mut disk, true, Ok(record_text())), Ok(()));
    assert_eq!(remove(&mut disk), Ok(()));
    assert_eq!(disk.text_at(PATH), None);
    assert_eq!(load(&mut disk), Ok(None));
}

#[test]
fn remove_without_a_file_is_ok() {
    let mut disk = Disk::new();
    assert_eq!(remove(&mut disk), Ok(()));
    assert_eq!(remove(&mut disk), Ok(()));
    assert_eq!(
        disk.performed,
        vec![Action::Exists { path: PATH.to_string() }, Action::Exists { path: PATH.to_string() }]
    );
    assert!(disk.nodes.is_empty());
}

#[test]
fn save_leaves_no_temp_file() {
    let mut disk = Disk::new();
    disk.nodes.insert(
        TEMP.to_string(),
        Entry::File { text: "left over".to_string(), mode: 0o644, synced: false },
    );
    assert_eq!(save(&mut disk, true, Ok(record_text())), Ok(()));
    assert!(!disk.nodes.contains_key(TEMP));
    assert_eq!(disk.text_at(PATH), Some(record_text()));
}

#[test]
fn save_restricts_directory_and_file_to_the_owner() {
    let mut disk = Disk::new();
    assert_eq!(save(&mut disk, true, Ok("{}".to_string())), Ok(()));
    assert_eq!(disk.nodes.get(DIR), Some(&Entry::Dir { mode: 0o700 }));
    assert_eq!(
        disk.nodes.get(PATH),
        Some(&Entry::File { text: "{}".to_string(), mode: 0o600, synced: true })
    );
}

#[test]
fn scenario_save_load_remove_load() {
    let mut disk = Disk::new();
    let text = record_text();
    assert_eq!(save(&mut disk, true, Ok(text.clone())), Ok(()));
    let on_disk = disk.text_at(PATH).unwrap();
    let parsed: serde_json::Value = serde_json::from_str(&on_disk).unwrap();
    assert_eq!(parsed.get("token").and_then(|token| token.as_str()), Some("abc"));
    assert_eq!(parsed.as_object().map(|fields| fields.len()), Some(1));
    let loaded = load(&mut disk).unwrap().unwrap();
    let record: serde_json::Value = serde_json::from_str(&loaded).unwrap();
    assert_eq!(record, parsed);
    assert_eq!(remove(&mut disk), Ok(()));
    assert_eq!(load(&mut disk), Ok(None));
}

#[test]
fn corrupt_file_is_a_deserialization_error() {
    let mut disk = Disk::new();
    assert_eq!(save(&mut disk, true, Ok(record_text())), Ok(()));
    disk.nodes.insert(
        PATH.to_string(),
        Entry::File { text: "{\"token\": ".to_string(), mode: 0o600, synced: true },
    );
    match load(&mut disk) {
        Err(StorageError::Deserialization { path, node, cause }) => {
            assert_eq!(path, PATH);
            assert_eq!(node, "node-a");
            assert_eq!(cause.code, None);
            assert!(!cause.message.is_empty());
        },
        other => panic!("expected a deserialization error, got {:?}", other),
    }
}

#[test]
fn unreadable_file_is_an_io_error() {
    let mut disk = Disk::failing_at(1);
    disk.nodes.insert(
        PATH.to_string(),
        Entry::File { text: "{}".to_string(), mode: 0o600, synced: true },
    );
    assert_eq!(load(&mut disk), Err(io(IoPhase::Read { node: "node-a".to_string() }, PATH)));
}

#[test]
fn undeletable_file_is_an_io_error() {
    let mut disk = Disk::failing_at(1);
    disk.nodes.insert(
        PATH.to_string(),
        Entry::File { text: "{}".to_string(), mode: 0o600, synced: true },
    );
    assert_eq!(remove(&mut disk), Err(io(IoPhase::Remove { node: "node-a".to_string() }, PATH)));
    assert_eq!(disk.text_at(PATH), Some("{}".to_string()));
}

#[test]
fn each_failing_action_of_a_save_gives_its_error() {
    let expected = vec![
        (1, io(IoPhase::CreateCacheDir, DIR)),
        (2, io(IoPhase::SecureCacheDir, DIR)),
        (3, StorageError::Serialization { cause: denied() }),
        (4, io(IoPhase::CreateTemp, TEMP)),
        (5, io(IoPhase::WriteTemp, TEMP)),
        (6, io(IoPhase::SyncTemp, TEMP)),
        (8, io(IoPhase::SecureTemp, TEMP)),
        (9, io(IoPhase::Rename { target: PATH.to_string() }, TEMP)),
    ];
    for (at, error) in expected {
        let mut disk = Disk::failing_at(at);
        assert_eq!(save(&mut disk, true, Ok("{}".to_string())), Err(error));
        assert_eq!(disk.performed.len(), at + 1);
    }
}

#[test]
fn failed_save_leaves_the_old_record() {
    for at in 1..10 {
        let mut disk = Disk::failing_at(at);
        disk.nodes.insert(
            PATH.to_string(),
            Entry::File { text: "\"old\"".to_string(), mode: 0o600, synced: true },
        );
        let result = save(&mut disk, true, Ok("\"new\"".to_string()));
        if at == 7 {
            // Closing a file cannot fail.
            assert_eq!(result, Ok(()));
            assert_eq!(disk.text_at(PATH), Some("\"new\"".to_string()));
        } else {
            assert!(result.is_err());
            assert_eq!(disk.text_at(PATH), Some("\"old\"".to_string()));
        }
    }
}

#[test]
fn failed_rename_leaves_the_temp_file() {
    let mut disk = Disk::failing_at(9);
    assert!(save(&mut disk, true, Ok("{}".to_string())).is_err());
    assert_eq!(
        disk.nodes.get(TEMP),
        Some(&Entry::File { text: "{}".to_string(), mode: 0o600, synced: true })
    );
    assert!(!disk.nodes.contains_key(PATH));
}

#[test]
fn failed_encoding_writes_no_file() {
    let mut disk = Disk::new();
    let cause = Cause { code: None, message: "key must be a string".to_string() };
    assert_eq!(
        save(&mut disk, true, Err(cause.clone())),
        Err(StorageError::Serialization { cause })
    );
    assert_eq!(disk.nodes.len(), 4);
    assert_eq!(disk.nodes.get(DIR), Some(&Entry::Dir { mode: 0o700 }));
    assert!(!disk.nodes.contains_key(PATH));
    assert!(!disk.nodes.contains_key(TEMP));
}

#[test]
fn ensure_creates_once_and_then_does_nothing() {
    let mut disk = Disk::new();
    assert_eq!(ensure(&mut disk, true), Ok(()));
    assert_eq!(disk.nodes.get(DIR), Some(&Entry::Dir { mode: 0o700 }));
    assert_eq!(disk.performed.len(), 3);
    assert_eq!(ensure(&mut disk, true), Ok(()));
    assert_eq!(disk.performed.len(), 4);
    assert_eq!(disk.performed[3], Action::Exists { path: DIR.to_string() });
}

#[test]
fn ensure_reports_the_step_that_failed() {
    let mut disk = Disk::failing_at(1);
    assert_eq!(ensure(&mut disk, true), Err(io(IoPhase::CreateCacheDir, DIR)));
    assert!(disk.nodes.is_empty());
    let mut disk = Disk::failing_at(2);
    assert_eq!(ensure(&mut disk, true), Err(io(IoPhase::SecureCacheDir, DIR)));
    let mut disk = Disk::failing_at(2);
    assert_eq!(ensure(&mut disk, false), Ok(()));
    assert_eq!(disk.performed.len(), 2);
}

#[test]
fn operations_start_in_their_first_phase() {
    let storage = MeroboxFileStorage::new();
    assert_eq!(
        storage.ensure_cache_dir_exists(&layout(true)),
        EnsureCacheDir { layout: layout(true), phase: DirPhase::Probe }
    );
    assert_eq!(
        storage.save_tokens(&layout(false), PATH),
        SaveTokens {
            layout: layout(false),
            token_path: PATH.to_string(),
            text: String::new(),
            phase: SavePhase::Directory(DirPhase::Probe),
        }
    );
    assert_eq!(
        storage.load_tokens(PATH, "node-a"),
        LoadTokens {
            token_path: PATH.to_string(),
            node_name: "node-a".to_string(),
            text: String::new(),
            phase: LoadPhase::Probe,
        }
    );
    assert_eq!(
        storage.remove_tokens(PATH, "node-a"),
        RemoveTokens {
            token_path: PATH.to_string(),
            node_name: "node-a".to_string(),
            phase: RemovePhase::Probe,
        }
    );
}

#[test]
fn a_report_of_the_wrong_kind_is_rejected() {
    let storage = MeroboxFileStorage::new();
    let task = storage.save_tokens(&layout(true), PATH);
    assert_eq!(task.clone().advance(Event::Done), Step::Rejected(task.clone()));
    assert_eq!(task.clone().advance(Event::Failed(denied())), Step::Rejected(task.clone()));
    assert_eq!(task.clone().advance(Event::Text("x".to_string())), Step::Rejected(task));

    let closing = SaveTokens {
        layout: layout(true),
        token_path: PATH.to_string(),
        text: "{}".to_string(),
        phase: SavePhase::CloseTemp,
    };
    assert_eq!(closing.clone().advance(Event::Failed(denied())), Step::Rejected(closing));

    let task = storage.load_tokens(PATH, "node-a");
    assert_eq!(task.clone().advance(Event::Done), Step::Rejected(task));
    let reading = LoadTokens {
        token_path: PATH.to_string(),
        node_name: "node-a".to_string(),
        text: String::new(),
        phase: LoadPhase::Read,
    };
    assert_eq!(reading.clone().advance(Event::Done), Step::Rejected(reading.clone()));
    assert_eq!(reading.clone().advance(Event::Exists(true)), Step::Rejected(reading));

    let task = storage.remove_tokens(PATH, "node-a");
    assert_eq!(task.clone().advance(Event::Text(String::new())), Step::Rejected(task));

    let task = storage.ensure_cache_dir_exists(&layout(true));
    assert_eq!(task.clone().advance(Event::Done), Step::Rejected(task));
}

#[test]
fn messages_say_what_where_and_for_whom() {
    let odd = "C:\\cache\\a \"b\".json";
    let cases = vec![
        (io(IoPhase::CreateCacheDir, DIR), format!("Failed to create cache directory: \"{}\"", DIR)),
        (
            io(IoPhase::SecureCacheDir, DIR),
            format!("Failed to set permissions on cache directory: \"{}\"", DIR),
        ),
        (io(IoPhase::CreateTemp, TEMP), format!("Failed to create temp file: \"{}\"", TEMP)),
        (io(IoPhase::WriteTemp, TEMP), format!("Failed to write to temp file: \"{}\"", TEMP)),
        (io(IoPhase::SyncTemp, TEMP), format!("Failed to sync temp file: \"{}\"", TEMP)),
        (
            io(IoPhase::SecureTemp, TEMP),
            format!("Failed to set permissions on temp file: \"{}\"", TEMP),
        ),
        (
            io(IoPhase::Rename { target: PATH.to_string() }, TEMP),
            format!("Failed to rename temp file \"{}\" to \"{}\"", TEMP, PATH),
        ),
        (
            io(IoPhase::Read { node: "node-a".to_string() }, PATH),
            format!("Failed to read token file: \"{}\" for node: node-a", PATH),
        ),
        (
            io(IoPhase::Remove { node: "node-a".to_string() }, PATH),
            format!("Failed to remove token file: \"{}\" for node: node-a", PATH),
        ),
        (
            StorageError::Serialization { cause: denied() },
            "Failed to serialize JWT tokens to JSON".to_string(),
        ),
        (
            StorageError::Deserialization {
                path: PATH.to_string(),
                node: "node-a".to_string(),
                cause: denied(),
            },
            format!("Failed to parse token JSON from file: \"{}\" for node: node-a", PATH),
        ),
        (
            io(IoPhase::CreateTemp, odd),
            "Failed to create temp file: \"C:\\\\cache\\\\a \\\"b\\\".json\"".to_string(),
        ),
    ];
    for (error, message) in cases {
        assert_eq!(error.message(), message);
        assert_eq!(error.cause(), &denied());
    }
}

#[test]
fn message_around_shows_the_texts_it_is_given() {
    assert_eq!(
        io(IoPhase::Rename { target: PATH.to_string() }, TEMP).message_around("<from>", "<to>"),
        "Failed to rename temp file <from> to <to>"
    );
    assert_eq!(
        io(IoPhase::Read { node: "n".to_string() }, PATH).message_around("<p>", ""),
        "Failed to read token file: <p> for node: n"
    );
    assert_eq!(
        StorageError::Serialization { cause: denied() }.message_around("<p>", "<t>"),
        "Failed to serialize JWT tokens to JSON"
    );
}

#[test]
fn ensure_creates_the_missing_directories_above() {
    let mut disk = Disk::new();
    disk.nodes.insert("/home".to_string(), Entry::Dir { mode: 0o711 });
    disk.nodes.insert(
        "/home/other.txt".to_string(),
        Entry::File { text: "kept".to_string(), mode: 0o644, synced: true },
    );
    assert_eq!(ensure(&mut disk, true), Ok(()));
    assert_eq!(disk.nodes.get("/home"), Some(&Entry::Dir { mode: 0o711 }));
    assert_eq!(disk.nodes.get("/home/u"), Some(&Entry::Dir { mode: 0o755 }));
    assert_eq!(disk.nodes.get("/home/u/.merobox"), Some(&Entry::Dir { mode: 0o755 }));
    assert_eq!(disk.nodes.get(DIR), Some(&Entry::Dir { mode: 0o700 }));
    assert_eq!(
        disk.nodes.get("/home/other.txt"),
        Some(&Entry::File { text: "kept".to_string(), mode: 0o644, synced: true })
    );
    assert_eq!(disk.nodes.len(), 5);
}

#[test]
fn ensure_fails_below_a_file() {
    let mut disk = Disk::new();
    disk.nodes.insert(
        "/home/u".to_string(),
        Entry::File { text: String::new(), mode: 0o644, synced: true },
    );
    assert_eq!(ensure(&mut disk, true), Err(io(IoPhase::CreateCacheDir, DIR)));
    assert_eq!(disk.nodes.len(), 1);
}

#[test]
fn file_that_is_no_text_is_a_deserialization_error() {
    let mut disk = Disk::new();
    disk.nodes.insert(PATH.to_string(), Entry::Raw { bytes: vec![0xFF, 0xFE] });
    match load(&mut disk) {
        Err(StorageError::Deserialization { path, node, cause }) => {
            assert_eq!(path, PATH);
            assert_eq!(node, "node-a");
            assert!(!cause.message.is_empty());
        },
        other => panic!("expected a deserialization error, got {:?}", other),
    }
    assert_eq!(
        disk.performed,
        vec![
            Action::Exists { path: PATH.to_string() },
            Action::ReadToString { path: PATH.to_string() },
        ]
    );
    assert_eq!(disk.nodes.get(PATH), Some(&Entry::Raw { bytes: vec![0xFF, 0xFE] }));
}

#[test]
fn not_text_answers_a_read_and_nothing_else() {
    let storage = MeroboxFileStorage::new();
    let reading = LoadTokens {
        token_path: PATH.to_string(),
        node_name: "node-a".to_string(),
        text: String::new(),
        phase: LoadPhase::Read,
    };
    assert_eq!(
        reading.advance(Event::NotText(denied())),
        Step::Finished(Err(StorageError::Deserialization {
            path: PATH.to_string(),
            node: "node-a".to_string(),
            cause: denied(),
        }))
    );
    let parsing = LoadTokens {
        token_path: PATH.to_string(),
        node_name: "node-a".to_string(),
        text: "{}".to_string(),
        phase: LoadPhase::Parse,
    };
    assert_eq!(parsing.clone().advance(Event::NotText(denied())), Step::Rejected(parsing));
    let task = storage.load_tokens(PATH, "node-a");
    assert_eq!(task.clone().advance(Event::NotText(denied())), Step::Rejected(task));
    let serializing = SaveTokens {
        layout: layout(true),
        token_path: PATH.to_string(),
        text: String::new(),
        phase: SavePhase::Serialize,
    };
    assert_eq!(serializing.clone().advance(Event::NotText(denied())), Step::Rejected(serializing));
    let task = storage.remove_tokens(PATH, "node-a");
    assert_eq!(task.clone().advance(Event::NotText(denied())), Step::Rejected(task));
    let task = storage.ensure_cache_dir_exists(&layout(true));
    assert_eq!(task.clone().advance(Event::NotText(denied())), Step::Rejected(task));
}
