//! Producing a snapshot out of added files.

use crate::error::{Error, ErrorKind, ErrorView};
use crate::files::{clone_files, DataContentType, DataFile, DataFileView};
use crate::manifest::{
    clone_key_metadata, Manifest, ManifestContentType, ManifestEntry, ManifestEntryView,
    ManifestFile, ManifestStatus, ManifestView,
};
use crate::operation::RowDeltaOperation;
use crate::properties::Properties;
use crate::snapshot::{ActionCommit, ActionCommitView, Snapshot, SnapshotView};
use crate::summary::{count_added_files, Summary, SummaryView};
use crate::table::Table;
use uuid::Uuid;
use vstd::prelude::*;

verus! {

/// Everything that goes into a snapshot, before it is written.
pub struct SnapshotProducer {
    table: Table,
    commit_uuid: Uuid,
    key_metadata: Option<Vec<u8>>,
    snapshot_properties: Properties,
    added_data_files: Vec<DataFile>,
    added_delete_files: Vec<DataFile>,
}

/// The mathematical content of a [`SnapshotProducer`].
#[verifier::ext_equal]
pub struct SnapshotProducerView {
    pub table: Table,
    pub commit_uuid: Uuid,
    pub key_metadata: Option<Seq<u8>>,
    pub snapshot_properties: Map<Seq<char>, Seq<char>>,
    pub added_data_files: Seq<DataFileView>,
    pub added_delete_files: Seq<DataFileView>,
}

impl View for SnapshotProducer {
    type V = SnapshotProducerView;

    closed spec fn view(&self) -> SnapshotProducerView {
        SnapshotProducerView {
            table: self.table,
            commit_uuid: self.commit_uuid,
            key_metadata: crate::manifest::key_metadata_view(self.key_metadata),
            snapshot_properties: self.snapshot_properties@,
            added_data_files: crate::files::file_views(self.added_data_files@),
            added_delete_files: crate::files::file_views(self.added_delete_files@),
        }
    }
}

/// Every file holds rows of the table.
pub open spec fn all_data(files: Seq<DataFileView>) -> bool {
    forall|i: int| 0 <= i < files.len() ==> (#[trigger] files[i]).content == DataContentType::Data
}

/// Every file holds deletions.
pub open spec fn all_deletes(files: Seq<DataFileView>) -> bool {
    forall|i: int| 0 <= i < files.len() ==> (#[trigger] files[i]).content != DataContentType::Data
}

/// The answer to a delete file that was added as a data file.
pub open spec fn not_data_content() -> ErrorView {
    ErrorView {
        kind: ErrorKind::DataInvalid,
        message: "Only files with data content can be added as data files"@,
    }
}

/// The answer to a data file that was added as a delete file.
pub open spec fn not_delete_content() -> ErrorView {
    ErrorView {
        kind: ErrorKind::DataInvalid,
        message: "Files with data content cannot be added as delete files"@,
    }
}

/// Why data files are refused, if they are.
pub open spec fn data_files_refusal(
    files: Seq<DataFileView>,
    table_check: Option<ErrorView>,
) -> Option<ErrorView> {
    if all_data(files) {
        table_check
    } else {
        Some(not_data_content())
    }
}

/// Why delete files are refused, if they are.
pub open spec fn delete_files_refusal(
    files: Seq<DataFileView>,
    table_check: Option<ErrorView>,
) -> Option<ErrorView> {
    if all_deletes(files) {
        table_check
    } else {
        Some(not_delete_content())
    }
}

/// The entries by which a manifest adds files.
pub open spec fn added_entries(files: Seq<DataFileView>) -> Seq<ManifestEntryView> {
    Seq::new(
        files.len(),
        |i: int| ManifestEntryView { status: ManifestStatus::Added, data_file: files[i] },
    )
}

/// The manifest that adds files, or none where there are no files.
pub open spec fn manifest_for(
    content: ManifestContentType,
    key_metadata: Option<Seq<u8>>,
    files: Seq<DataFileView>,
) -> Seq<ManifestView> {
    if files.len() == 0 {
        Seq::empty()
    } else {
        seq![ManifestView { content, key_metadata, entries: added_entries(files) }]
    }
}

impl SnapshotProducerView {
    /// The manifests that the snapshot adds: one for the data files and one for
    /// the delete files, as far as there are any.
    pub open spec fn new_manifests(self) -> Seq<ManifestView> {
        manifest_for(ManifestContentType::Data, self.key_metadata, self.added_data_files)
            + manifest_for(ManifestContentType::Deletes, self.key_metadata, self.added_delete_files)
    }

    /// The properties of the snapshot's summary: the counts of added files, and
    /// over them the properties that the caller asked for.
    pub open spec fn summary_properties(self) -> Map<Seq<char>, Seq<char>> {
        crate::summary::file_counts(
            self.added_data_files,
            self.added_delete_files,
        ).union_prefer_right(self.snapshot_properties)
    }

    /// The snapshot, given its number and the operation that makes it.
    pub open spec fn snapshot(self, operation: RowDeltaOperation, snapshot_id: i64) -> SnapshotView {
        SnapshotView {
            snapshot_id,
            summary: SummaryView {
                operation: crate::operation::row_delta_operation(operation.has_data_files),
                additional_properties: self.summary_properties(),
            },
        }
    }

    /// What is to be written and changed for the snapshot to be in force, or why
    /// it cannot be.
    pub open spec fn commit(
        self,
        operation: RowDeltaOperation,
        loaded: Result<Vec<ManifestFile>, Error>,
        snapshot_id: i64,
    ) -> Result<SnapshotCommitView, ErrorView> {
        match crate::operation::carried_manifests(self.table.current_snapshot_id, loaded) {
            Ok(existing_manifests) => Ok(
                SnapshotCommitView {
                    commit_uuid: self.commit_uuid,
                    existing_manifests,
                    new_manifests: self.new_manifests(),
                    deleted_entries: Seq::empty(),
                    action_commit: crate::snapshot::advance_main(
                        self.snapshot(operation, snapshot_id),
                        self.table.uuid,
                        self.table.current_snapshot_id,
                    ),
                },
            ),
            Err(error) => Err(error),
        }
    }
}

/// What a commit writes to storage, and the changes to the table's metadata that
/// it asks for once that is written.
#[derive(Debug)]
pub struct SnapshotCommit {
    /// Names the commit, and so the files it writes.
    pub commit_uuid: Uuid,
    /// The manifests taken over from the current snapshot.
    pub existing_manifests: Vec<ManifestFile>,
    /// The manifests to write.
    pub new_manifests: Vec<Manifest>,
    /// The entries of earlier manifests to mark as deleted.
    pub deleted_entries: Vec<ManifestEntry>,
    /// The changes to the table's metadata.
    pub action_commit: ActionCommit,
}

/// The mathematical content of a [`SnapshotCommit`].
#[verifier::ext_equal]
pub struct SnapshotCommitView {
    pub commit_uuid: Uuid,
    pub existing_manifests: Seq<ManifestFile>,
    pub new_manifests: Seq<ManifestView>,
    pub deleted_entries: Seq<ManifestEntryView>,
    pub action_commit: ActionCommitView,
}

impl View for SnapshotCommit {
    type V = SnapshotCommitView;

    open spec fn view(&self) -> SnapshotCommitView {
        SnapshotCommitView {
            commit_uuid: self.commit_uuid,
            existing_manifests: self.existing_manifests@,
            new_manifests: crate::manifest::manifest_views(self.new_manifests@),
            deleted_entries: crate::manifest::entry_views(self.deleted_entries@),
            action_commit: self.action_commit@,
        }
    }
}

impl SnapshotCommit {
    /// The new snapshot's manifest list: the manifests taken over, then those
    /// that were written.
    pub fn manifest_list(&self, written: Vec<ManifestFile>) -> (list: Vec<ManifestFile>)
        ensures
            list@ == self@.existing_manifests + written@,
    {
        let mut list: Vec<ManifestFile> = self.existing_manifests.clone();
        assert(list@ =~= self.existing_manifests@);
        let mut written = written;
        list.append(&mut written);
        list
    }
}

impl SnapshotProducer {
    /// A producer of a snapshot that adds data files to a table.
    pub fn new(
        table: &Table,
        commit_uuid: Uuid,
        key_metadata: Option<Vec<u8>>,
        snapshot_properties: Properties,
        added_data_files: Vec<DataFile>,
    ) -> (producer: Self)
        ensures
            producer@ == (SnapshotProducerView {
                table: *table,
                commit_uuid,
                key_metadata: crate::manifest::key_metadata_view(key_metadata),
                snapshot_properties: snapshot_properties@,
                added_data_files: crate::files::file_views(added_data_files@),
                added_delete_files: Seq::empty(),
            }),
    {
        let producer = SnapshotProducer {
            table: *table,
            commit_uuid,
            key_metadata,
            snapshot_properties,
            added_data_files,
            added_delete_files: Vec::new(),
        };
        assert(producer@.added_delete_files =~= Seq::<DataFileView>::empty());
        producer
    }

    /// The same producer, with these delete files to add.
    pub fn with_delete_files(self, added_delete_files: Vec<DataFile>) -> (producer: Self)
        ensures
            producer@ == (SnapshotProducerView {
                added_delete_files: crate::files::file_views(added_delete_files@),
                ..self@
            }),
    {
        SnapshotProducer { added_delete_files, ..self }
    }

    /// The table that the snapshot is made for.
    pub fn table(&self) -> (table: &Table)
        ensures
            *table == self@.table,
    {
        &self.table
    }

    /// Checks the data files: each holds rows of the table, and the table's own
    /// rules on its files, whose finding is `table_check`, are met.
    pub fn validate_added_data_files(&self, table_check: Result<(), Error>) -> (verdict: Result<
        (),
        Error,
    >)
        ensures
            crate::error::verdict_view(verdict) == data_files_refusal(
                self@.added_data_files,
                crate::error::verdict_view(table_check),
            ),
    {
        for i in 0..self.added_data_files.len()
            invariant
                forall|j: int|
                    0 <= j < i ==> (#[trigger] self@.added_data_files[j]).content
                        == DataContentType::Data,
        {
            if self.added_data_files[i].content != DataContentType::Data {
                assert(self@.added_data_files[i as int].content != DataContentType::Data);
                return Err(
                    Error::new(
                        ErrorKind::DataInvalid,
                        "Only files with data content can be added as data files",
                    ),
                );
            }
        }
        table_check
    }

    /// Checks the delete files: each holds deletions, and the table's own rules
    /// on its files, whose finding is `table_check`, are met.
    pub fn validate_added_delete_files(&self, table_check: Result<(), Error>) -> (verdict: Result<
        (),
        Error,
    >)
        ensures
            crate::error::verdict_view(verdict) == delete_files_refusal(
                self@.added_delete_files,
                crate::error::verdict_view(table_check),
            ),
    {
        for i in 0..self.added_delete_files.len()
            invariant
                forall|j: int|
                    0 <= j < i ==> (#[trigger] self@.added_delete_files[j]).content
                        != DataContentType::Data,
        {
            if self.added_delete_files[i].content == DataContentType::Data {
                assert(self@.added_delete_files[i as int].content == DataContentType::Data);
                return Err(
                    Error::new(
                        ErrorKind::DataInvalid,
                        "Files with data content cannot be added as delete files",
                    ),
                );
            }
        }
        table_check
    }

    /// Puts the manifest that adds `files` behind `manifests`, if there are files.
    fn push_manifest(
        &self,
        manifests: &mut Vec<Manifest>,
        content: ManifestContentType,
        files: &Vec<DataFile>,
    )
        ensures
            crate::manifest::manifest_views(final(manifests)@)
                == crate::manifest::manifest_views(old(manifests)@) + manifest_for(
                content,
                self@.key_metadata,
                crate::files::file_views(files@),
            ),
    {
        let ghost before = crate::manifest::manifest_views(manifests@);
        if files.len() == 0 {
            assert(before + Seq::<ManifestView>::empty() =~= before);
            return;
        }
        let copies = clone_files(files);
        let ghost views = crate::files::file_views(files@);
        let mut entries: Vec<ManifestEntry> = Vec::new();
        for data_file in copied: copies
            invariant
                crate::files::file_views(copied.seq()) == views,
                crate::manifest::entry_views(entries@) == added_entries(views).take(
                    copied.index() as int,
                ),
        {
            let ghost prior = crate::manifest::entry_views(entries@);
            let entry = ManifestEntry { status: ManifestStatus::Added, data_file };
            entries.push(entry);
            proof {
                assert(views[copied.index() as int] == data_file@);
                assert(crate::manifest::entry_views(entries@) =~= prior.push(entry@));
                assert(crate::manifest::entry_views(entries@) =~= added_entries(views).take(
                    copied.index() + 1,
                ));
            }
        }
        let key_metadata = clone_key_metadata(&self.key_metadata);
        let manifest = Manifest { content, key_metadata, entries };
        assert(manifest@.entries =~= added_entries(views));
        manifests.push(manifest);
        assert(crate::manifest::manifest_views(manifests@) =~= before + seq![manifest@]);
    }

    /// Works out what is to be written and changed for the snapshot to be in
    /// force. `loaded` is what reading the manifest list of the table's current
    /// snapshot gave; `snapshot_id` is the number of the new snapshot.
    pub fn commit(
        &self,
        operation: &RowDeltaOperation,
        loaded: Result<Vec<ManifestFile>, Error>,
        snapshot_id: i64,
    ) -> (outcome: Result<SnapshotCommit, Error>)
        ensures
            match outcome {
                Ok(commit) => self@.commit(*operation, loaded, snapshot_id) == Ok::<
                    SnapshotCommitView,
                    ErrorView,
                >(commit@),
                Err(error) => self@.commit(*operation, loaded, snapshot_id) == Err::<
                    SnapshotCommitView,
                    ErrorView,
                >(error@),
            },
    {
        let existing_manifests = match operation.existing_manifest(self, loaded) {
            Ok(manifests) => manifests,
            Err(error) => {
                return Err(error);
            },
        };
        let deleted_entries = match operation.delete_entries(self) {
            Ok(entries) => entries,
            Err(error) => {
                return Err(error);
            },
        };
        let mut new_manifests: Vec<Manifest> = Vec::new();
        self.push_manifest(&mut new_manifests, ManifestContentType::Data, &self.added_data_files);
        self.push_manifest(
            &mut new_manifests,
            ManifestContentType::Deletes,
            &self.added_delete_files,
        );
        assert(crate::manifest::manifest_views(new_manifests@) =~= self@.new_manifests());

        let mut additional_properties = count_added_files(
            &self.added_data_files,
            &self.added_delete_files,
        );
        additional_properties.extend(&self.snapshot_properties);
        let summary = Summary { operation: operation.operation(), additional_properties };
        let snapshot = Snapshot { snapshot_id, summary };
        let action_commit = ActionCommit::advance_main(
            snapshot,
            self.table.uuid,
            self.table.current_snapshot_id,
        );
        let commit = SnapshotCommit {
            commit_uuid: self.commit_uuid,
            existing_manifests,
            new_manifests,
            deleted_entries,
            action_commit,
        };
        assert(commit@.deleted_entries =~= Seq::<ManifestEntryView>::empty());
        Ok(commit)
    }
}

} // verus!
