//! The row delta action: collecting files, and deciding whether they can be
//! committed.

use crate::error::{Error, ErrorKind, ErrorView};
use crate::files::{clone_files, DataFile, DataFileView};
use crate::manifest::clone_key_metadata;
use crate::operation::RowDeltaOperation;
use crate::producer::{SnapshotProducer, SnapshotProducerView};
use crate::properties::Properties;
use crate::table::{FormatVersion, Table};
use crate::uuids::fresh_commit_uuid;
use uuid::Uuid;
use vstd::prelude::*;

verus! {

/// Adds data files and delete files to a table in a single atomic operation.
///
/// The snapshot it produces has the operation `Overwrite` when both data and
/// delete files are present, and `Delete` when only delete files are added.
pub struct RowDeltaAction {
    commit_uuid: Option<Uuid>,
    key_metadata: Option<Vec<u8>>,
    snapshot_properties: Properties,
    added_data_files: Vec<DataFile>,
    added_delete_files: Vec<DataFile>,
}

/// The mathematical content of a [`RowDeltaAction`].
#[verifier::ext_equal]
pub struct RowDeltaActionView {
    pub commit_uuid: Option<Uuid>,
    pub key_metadata: Option<Seq<u8>>,
    pub snapshot_properties: Map<Seq<char>, Seq<char>>,
    pub added_data_files: Seq<DataFileView>,
    pub added_delete_files: Seq<DataFileView>,
}

impl View for RowDeltaAction {
    type V = RowDeltaActionView;

    closed spec fn view(&self) -> RowDeltaActionView {
        RowDeltaActionView {
            commit_uuid: self.commit_uuid,
            key_metadata: crate::manifest::key_metadata_view(self.key_metadata),
            snapshot_properties: self.snapshot_properties@,
            added_data_files: crate::files::file_views(self.added_data_files@),
            added_delete_files: crate::files::file_views(self.added_delete_files@),
        }
    }
}

/// What the table's own rules on its files, such as those on partitions, find in
/// the added files.
#[derive(Debug)]
pub struct TableChecks {
    pub data_files: Result<(), Error>,
    pub delete_files: Result<(), Error>,
}

/// The answer to an action without files.
pub open spec fn no_files() -> ErrorView {
    ErrorView {
        kind: ErrorKind::DataInvalid,
        message: "Row delta requires at least one data file or delete file"@,
    }
}

/// The answer to delete files for a table whose format has none.
pub open spec fn no_delete_files_in_v1() -> ErrorView {
    ErrorView {
        kind: ErrorKind::FeatureUnsupported,
        message: "Delete files are not supported in format version 1"@,
    }
}

impl RowDeltaActionView {
    /// An action to which nothing was added and for which nothing was set.
    pub open spec fn empty() -> Self {
        RowDeltaActionView {
            commit_uuid: None,
            key_metadata: None,
            snapshot_properties: Map::empty(),
            added_data_files: Seq::empty(),
            added_delete_files: Seq::empty(),
        }
    }

    /// The action with more data files, behind those it has.
    pub open spec fn add_data_files(self, files: Seq<DataFileView>) -> Self {
        RowDeltaActionView { added_data_files: self.added_data_files + files, ..self }
    }

    /// The action with more delete files, behind those it has.
    pub open spec fn add_delete_files(self, files: Seq<DataFileView>) -> Self {
        RowDeltaActionView { added_delete_files: self.added_delete_files + files, ..self }
    }

    /// The action with a commit identifier of its own.
    pub open spec fn set_commit_uuid(self, commit_uuid: Uuid) -> Self {
        RowDeltaActionView { commit_uuid: Some(commit_uuid), ..self }
    }

    /// The action with key metadata for its manifests.
    pub open spec fn set_key_metadata(self, key_metadata: Seq<u8>) -> Self {
        RowDeltaActionView { key_metadata: Some(key_metadata), ..self }
    }

    /// The action with properties for the summary, in place of those it has.
    pub open spec fn set_snapshot_properties(self, properties: Map<Seq<char>, Seq<char>>) -> Self {
        RowDeltaActionView { snapshot_properties: properties, ..self }
    }

    /// Why the table cannot take the action, whatever its files hold.
    pub open spec fn format_refusal(self, table: Table) -> Option<ErrorView> {
        if self.added_data_files.len() == 0 && self.added_delete_files.len() == 0 {
            Some(no_files())
        } else if self.added_delete_files.len() > 0 && table.format_version == FormatVersion::V1 {
            Some(no_delete_files_in_v1())
        } else {
            None
        }
    }

    /// Why the added files are refused. The data files are looked at first.
    pub open spec fn files_refusal(self, checks: TableChecks) -> Option<ErrorView> {
        let data_files = if self.added_data_files.len() > 0 {
            crate::producer::data_files_refusal(
                self.added_data_files,
                crate::error::verdict_view(checks.data_files),
            )
        } else {
            None
        };
        if data_files is Some {
            data_files
        } else if self.added_delete_files.len() > 0 {
            crate::producer::delete_files_refusal(
                self.added_delete_files,
                crate::error::verdict_view(checks.delete_files),
            )
        } else {
            None
        }
    }

    /// Why the action is refused, if it is.
    pub open spec fn refusal(self, table: Table, checks: TableChecks) -> Option<ErrorView> {
        if self.format_refusal(table) is Some {
            self.format_refusal(table)
        } else {
            self.files_refusal(checks)
        }
    }

    /// What goes into the snapshot under the given commit identifier.
    pub open spec fn producer(self, table: Table, commit_uuid: Uuid) -> SnapshotProducerView {
        SnapshotProducerView {
            table,
            commit_uuid,
            key_metadata: self.key_metadata,
            snapshot_properties: self.snapshot_properties,
            added_data_files: self.added_data_files,
            added_delete_files: self.added_delete_files,
        }
    }

    /// What the action does to the state it starts from.
    pub open spec fn operation(self) -> RowDeltaOperation {
        RowDeltaOperation { has_data_files: self.added_data_files.len() > 0 }
    }

    /// The identifier may name a commit of the action: it is the one that was
    /// set, or a fresh one if none was.
    pub open spec fn may_be_named(self, commit_uuid: Uuid) -> bool {
        match self.commit_uuid {
            Some(set) => commit_uuid == set,
            None => crate::uuids::is_time_ordered(commit_uuid),
        }
    }
}

/// An action that was found fit to be committed: what goes into the snapshot, and
/// the operation that makes it.
pub struct PendingCommit {
    pub producer: SnapshotProducer,
    pub operation: RowDeltaOperation,
}

impl RowDeltaAction {
    /// An action that adds nothing yet.
    pub fn new() -> (action: Self)
        ensures
            action@ == RowDeltaActionView::empty(),
    {
        let action = RowDeltaAction {
            commit_uuid: None,
            key_metadata: None,
            snapshot_properties: Properties::new(),
            added_data_files: Vec::new(),
            added_delete_files: Vec::new(),
        };
        assert(action@ =~= RowDeltaActionView::empty());
        action
    }

    /// Adds data files to the snapshot.
    pub fn add_data_files(self, data_files: Vec<DataFile>) -> (action: Self)
        ensures
            action@ == self@.add_data_files(crate::files::file_views(data_files@)),
    {
        let mut action = self;
        let mut added = data_files;
        action.added_data_files.append(&mut added);
        assert(crate::files::file_views(action.added_data_files@) =~= self@.added_data_files
            + crate::files::file_views(data_files@));
        action
    }

    /// Adds delete files (equality or position) to the snapshot.
    pub fn add_delete_files(self, delete_files: Vec<DataFile>) -> (action: Self)
        ensures
            action@ == self@.add_delete_files(crate::files::file_views(delete_files@)),
    {
        let mut action = self;
        let mut added = delete_files;
        action.added_delete_files.append(&mut added);
        assert(crate::files::file_views(action.added_delete_files@) =~= self@.added_delete_files
            + crate::files::file_views(delete_files@));
        action
    }

    /// Sets the commit UUID for the snapshot.
    pub fn set_commit_uuid(self, commit_uuid: Uuid) -> (action: Self)
        ensures
            action@ == self@.set_commit_uuid(commit_uuid),
    {
        RowDeltaAction { commit_uuid: Some(commit_uuid), ..self }
    }

    /// Sets the key metadata for manifest files.
    pub fn set_key_metadata(self, key_metadata: Vec<u8>) -> (action: Self)
        ensures
            action@ == self@.set_key_metadata(key_metadata@),
    {
        RowDeltaAction { key_metadata: Some(key_metadata), ..self }
    }

    /// Sets the snapshot summary properties, in place of those set before.
    pub fn set_snapshot_properties(self, snapshot_properties: Properties) -> (action: Self)
        ensures
            action@ == self@.set_snapshot_properties(snapshot_properties@),
    {
        RowDeltaAction { snapshot_properties, ..self }
    }

    /// The data files to add.
    pub fn added_data_files(&self) -> (files: &Vec<DataFile>)
        ensures
            crate::files::file_views(files@) == self@.added_data_files,
    {
        &self.added_data_files
    }

    /// The delete files to add.
    pub fn added_delete_files(&self) -> (files: &Vec<DataFile>)
        ensures
            crate::files::file_views(files@) == self@.added_delete_files,
    {
        &self.added_delete_files
    }

    /// Checks that there is something to add and that the table's format has
    /// room for it.
    pub fn check_format(&self, table: &Table) -> (verdict: Result<(), Error>)
        ensures
            crate::error::verdict_view(verdict) == self@.format_refusal(*table),
    {
        if self.added_data_files.is_empty() && self.added_delete_files.is_empty() {
            return Err(
                Error::new(
                    ErrorKind::DataInvalid,
                    "Row delta requires at least one data file or delete file",
                ),
            );
        }
        // Delete files came with the second format version.
        if !self.added_delete_files.is_empty() && table.format_version == FormatVersion::V1 {
            return Err(
                Error::new(
                    ErrorKind::FeatureUnsupported,
                    "Delete files are not supported in format version 1",
                ),
            );
        }
        Ok(())
    }

    /// Hands everything to a producer, and lets it check the files.
    fn produce(&self, table: &Table, commit_uuid: Uuid, checks: TableChecks) -> (outcome: Result<
        PendingCommit,
        Error,
    >)
        ensures
            match outcome {
                Ok(pending) => {
                    &&& self@.files_refusal(checks) is None
                    &&& pending.producer@ == self@.producer(*table, commit_uuid)
                    &&& pending.operation == self@.operation()
                },
                Err(error) => self@.files_refusal(checks) == Some(error@),
            },
    {
        let producer = SnapshotProducer::new(
            table,
            commit_uuid,
            clone_key_metadata(&self.key_metadata),
            self.snapshot_properties.clone(),
            clone_files(&self.added_data_files),
        ).with_delete_files(clone_files(&self.added_delete_files));
        assert(producer@ =~= self@.producer(*table, commit_uuid));

        if !self.added_data_files.is_empty() {
            match producer.validate_added_data_files(checks.data_files) {
                Ok(_) => {},
                Err(error) => {
                    return Err(error);
                },
            }
        }
        if !self.added_delete_files.is_empty() {
            match producer.validate_added_delete_files(checks.delete_files) {
                Ok(_) => {},
                Err(error) => {
                    return Err(error);
                },
            }
        }
        let has_data_files = !self.added_data_files.is_empty();
        Ok(PendingCommit { producer, operation: RowDeltaOperation { has_data_files } })
    }

    /// Decides whether the action can be committed to the table under the given
    /// identifier.
    pub fn commit_as(&self, table: &Table, commit_uuid: Uuid, checks: TableChecks) -> (outcome:
        Result<PendingCommit, Error>)
        ensures
            match outcome {
                Ok(pending) => {
                    &&& self@.refusal(*table, checks) is None
                    &&& pending.producer@ == self@.producer(*table, commit_uuid)
                    &&& pending.operation == self@.operation()
                },
                Err(error) => self@.refusal(*table, checks) == Some(error@),
            },
    {
        match self.check_format(table) {
            Ok(_) => self.produce(table, commit_uuid, checks),
            Err(error) => Err(error),
        }
    }

    /// Decides whether the action can be committed to the table, under the
    /// identifier that was set or, if none was, a fresh one.
    pub fn commit(&self, table: &Table, checks: TableChecks) -> (outcome: Result<
        PendingCommit,
        Error,
    >)
        ensures
            match outcome {
                Ok(pending) => {
                    &&& self@.refusal(*table, checks) is None
                    &&& pending.producer@ == self@.producer(*table, pending.producer@.commit_uuid)
                    &&& self@.may_be_named(pending.producer@.commit_uuid)
                    &&& pending.operation == self@.operation()
                },
                Err(error) => self@.refusal(*table, checks) == Some(error@),
            },
    {
        match self.check_format(table) {
            Ok(_) => {},
            Err(error) => {
                return Err(error);
            },
        }
        let commit_uuid = match self.commit_uuid {
            Some(commit_uuid) => commit_uuid,
            None => fresh_commit_uuid(),
        };
        self.produce(table, commit_uuid, checks)
    }
}

} // verus!
