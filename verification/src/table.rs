//! The part of a table that a commit depends on.

use uuid::Uuid;
use vstd::prelude::*;

verus! {

/// The version of the table format.
#[derive(Clone, Copy, Debug, PartialEq, Eq, Structural)]
pub enum FormatVersion {
    V1,
    V2,
    V3,
}

/// A table as a commit sees it.
#[derive(Clone, Copy, Debug, PartialEq, Eq)]
pub struct Table {
    /// Identifies the table.
    pub uuid: Uuid,
    /// The format that the table is written in.
    pub format_version: FormatVersion,
    /// The snapshot that the main branch stands at, if it has one.
    pub current_snapshot_id: Option<i64>,
}

} // verus!
