//! Crash-safe, owner-only caching of per-node credential records on a local
//! file system, written as a protocol core that performs no I/O itself.
//!
//! Each operation of the store (save, load, remove) is a small state machine
//! that [`storage::MeroboxFileStorage`] begins. It names the next
//! [`protocol::Action`] to perform; whoever drives it performs the action and
//! reports the [`protocol::Event`]; the machine answers with the next
//! [`protocol::Step`]. The record itself never enters: it is encoded and
//! decoded by the driver, and only its text passes through.
//!
//! [`model`] is a mathematical file system, [`run`] runs the operations
//! against it, and [`laws`] states what then holds: that a load finds what a
//! save wrote, that a record file is replaced whole or not at all, that no
//! temporary file outlives a save that succeeded, and that what the store
//! creates is open to its owner alone.

pub mod directory;
pub mod error;
pub mod laws;
pub mod load;
pub mod model;
pub mod protocol;
pub mod remove;
pub mod run;
pub mod save;
pub mod save_proof;
pub mod storage;
