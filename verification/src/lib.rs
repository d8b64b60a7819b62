//! Row deltas: changes that add data files and delete files to a table in one
//! snapshot.
//!
//! A [`action::RowDeltaAction`] collects the files. Its `commit` decides whether a
//! table can take them, and hands what goes into the snapshot to a
//! [`producer::SnapshotProducer`]. The producer's `commit` takes what was read of
//! the table's current state and returns what is to be written and changed.
//! Reading and writing are left to the caller.

pub mod action;
pub mod error;
pub mod files;
pub mod guarantees;
pub mod laws;
pub mod manifest;
pub mod operation;
pub mod producer;
pub mod properties;
pub mod snapshot;
pub mod summary;
pub mod table;
pub mod uuids;
