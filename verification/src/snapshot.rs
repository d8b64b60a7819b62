//! Snapshots, and the changes to a table's metadata that put one in force.

use crate::summary::{Summary, SummaryView};
use uuid::Uuid;
use vstd::prelude::*;

verus! {

/// The branch that commits go to.
pub const MAIN_BRANCH: &'static str = "main";

/// A state of a table.
#[derive(Debug)]
pub struct Snapshot {
    pub snapshot_id: i64,
    pub summary: Summary,
}

/// The mathematical content of a [`Snapshot`].
#[verifier::ext_equal]
pub struct SnapshotView {
    pub snapshot_id: i64,
    pub summary: SummaryView,
}

impl View for Snapshot {
    type V = SnapshotView;

    open spec fn view(&self) -> SnapshotView {
        SnapshotView { snapshot_id: self.snapshot_id, summary: self.summary@ }
    }
}

/// What a branch points at.
#[derive(Clone, Copy, Debug, PartialEq, Eq, Structural)]
pub struct SnapshotReference {
    pub snapshot_id: i64,
}

/// A change to a table's metadata.
#[derive(Debug)]
pub enum TableUpdate {
    /// The table gets a snapshot.
    AddSnapshot { snapshot: Snapshot },
    /// A branch points elsewhere.
    SetSnapshotRef { ref_name: String, reference: SnapshotReference },
}

/// The mathematical content of a [`TableUpdate`].
pub enum TableUpdateView {
    AddSnapshot { snapshot: SnapshotView },
    SetSnapshotRef { ref_name: Seq<char>, reference: SnapshotReference },
}

impl View for TableUpdate {
    type V = TableUpdateView;

    open spec fn view(&self) -> TableUpdateView {
        match self {
            TableUpdate::AddSnapshot { snapshot } => TableUpdateView::AddSnapshot {
                snapshot: snapshot@,
            },
            TableUpdate::SetSnapshotRef { ref_name, reference } => TableUpdateView::SetSnapshotRef {
                ref_name: ref_name@,
                reference: *reference,
            },
        }
    }
}

/// What has to hold of a table for changes to be applied to it.
#[derive(Debug, PartialEq, Eq)]
pub enum TableRequirement {
    /// The table is the one with this identifier.
    UuidMatch { uuid: Uuid },
    /// The branch points at this snapshot, or does not exist.
    RefSnapshotIdMatch { ref_name: String, snapshot_id: Option<i64> },
}

/// The mathematical content of a [`TableRequirement`].
pub enum TableRequirementView {
    UuidMatch { uuid: Uuid },
    RefSnapshotIdMatch { ref_name: Seq<char>, snapshot_id: Option<i64> },
}

impl View for TableRequirement {
    type V = TableRequirementView;

    open spec fn view(&self) -> TableRequirementView {
        match self {
            TableRequirement::UuidMatch { uuid } => TableRequirementView::UuidMatch { uuid: *uuid },
            TableRequirement::RefSnapshotIdMatch { ref_name, snapshot_id } => {
                TableRequirementView::RefSnapshotIdMatch {
                    ref_name: ref_name@,
                    snapshot_id: *snapshot_id,
                }
            },
        }
    }
}

/// Changes to a table's metadata, and what they require of it. They are applied
/// together or not at all.
#[derive(Debug)]
pub struct ActionCommit {
    pub updates: Vec<TableUpdate>,
    pub requirements: Vec<TableRequirement>,
}

/// The mathematical content of an [`ActionCommit`].
#[verifier::ext_equal]
pub struct ActionCommitView {
    pub updates: Seq<TableUpdateView>,
    pub requirements: Seq<TableRequirementView>,
}

impl View for ActionCommit {
    type V = ActionCommitView;

    open spec fn view(&self) -> ActionCommitView {
        ActionCommitView {
            updates: Seq::new(self.updates@.len(), |i: int| self.updates@[i]@),
            requirements: Seq::new(self.requirements@.len(), |i: int| self.requirements@[i]@),
        }
    }
}

/// The changes that make `snapshot` the head of the main branch of a table,
/// provided that the table is still the one with the identifier `table_uuid`
/// and its main branch still stands at `current_snapshot_id`.
pub open spec fn advance_main(
    snapshot: SnapshotView,
    table_uuid: Uuid,
    current_snapshot_id: Option<i64>,
) -> ActionCommitView {
    ActionCommitView {
        updates: seq![
            TableUpdateView::AddSnapshot { snapshot },
            TableUpdateView::SetSnapshotRef {
                ref_name: MAIN_BRANCH@,
                reference: SnapshotReference { snapshot_id: snapshot.snapshot_id },
            },
        ],
        requirements: seq![
            TableRequirementView::UuidMatch { uuid: table_uuid },
            TableRequirementView::RefSnapshotIdMatch {
                ref_name: MAIN_BRANCH@,
                snapshot_id: current_snapshot_id,
            },
        ],
    }
}

impl ActionCommit {
    /// Makes a snapshot the head of the main branch.
    pub fn advance_main(
        snapshot: Snapshot,
        table_uuid: Uuid,
        current_snapshot_id: Option<i64>,
    ) -> (commit: Self)
        ensures
            commit@ == advance_main(snapshot@, table_uuid, current_snapshot_id),
    {
        let reference = SnapshotReference { snapshot_id: snapshot.snapshot_id };
        let mut updates: Vec<TableUpdate> = Vec::new();
        updates.push(TableUpdate::AddSnapshot { snapshot });
        updates.push(TableUpdate::SetSnapshotRef { ref_name: MAIN_BRANCH.to_owned(), reference });
        let mut requirements: Vec<TableRequirement> = Vec::new();
        requirements.push(TableRequirement::UuidMatch { uuid: table_uuid });
        requirements.push(
            TableRequirement::RefSnapshotIdMatch {
                ref_name: MAIN_BRANCH.to_owned(),
                snapshot_id: current_snapshot_id,
            },
        );
        let commit = ActionCommit { updates, requirements };
        assert(commit@ =~= advance_main(snapshot@, table_uuid, current_snapshot_id));
        commit
    }

    /// Takes the updates out.
    pub fn take_updates(&mut self) -> (updates: Vec<TableUpdate>)
        ensures
            updates@ == old(self).updates@,
            final(self).updates@ == Seq::<TableUpdate>::empty(),
            final(self).requirements == old(self).requirements,
    {
        let mut updates: Vec<TableUpdate> = Vec::new();
        std::mem::swap(&mut updates, &mut self.updates);
        updates
    }

    /// Takes the requirements out.
    pub fn take_requirements(&mut self) -> (requirements: Vec<TableRequirement>)
        ensures
            requirements@ == old(self).requirements@,
            final(self).requirements@ == Seq::<TableRequirement>::empty(),
            final(self).updates == old(self).updates,
    {
        let mut requirements: Vec<TableRequirement> = Vec::new();
        std::mem::swap(&mut requirements, &mut self.requirements);
        requirements
    }
}

} // verus!
