//! What each operation gives, said of its inputs and results field by field.
//!
//! The first part says what the view of each type holds. The second part says
//! what the building steps, the decision to commit, and a commit give.

use crate::action::{RowDeltaActionView, TableChecks};
use crate::error::{Error, ErrorKind};
use crate::files::{DataContentType, DataFile, DataFileView};
use crate::manifest::{
    Manifest, ManifestContentType, ManifestEntry, ManifestFile, ManifestStatus, ManifestView,
};
use crate::operation::RowDeltaOperation;
use crate::producer::{SnapshotCommit, SnapshotProducerView};
use crate::snapshot::{
    ActionCommit, SnapshotReference, SnapshotView, TableRequirement, TableRequirementView,
    TableUpdate, TableUpdateView,
};
use crate::summary::Operation;
use crate::table::{FormatVersion, Table};
use uuid::Uuid;
use vstd::prelude::*;

verus! {

/// The view of an error holds its class and its sentence.
pub proof fn law_error_view(error: Error)
    ensures
        error@.kind == error.kind,
        error@.message == error.message@,
        crate::error::verdict_view(Ok(())) is None,
        crate::error::verdict_view(Err(error)) is Some,
        crate::error::verdict_view(Err(error))->Some_0.kind == error.kind,
        crate::error::verdict_view(Err(error))->Some_0.message == error.message@,
{
}

/// The view of a file holds every field of it.
pub proof fn law_file_view(file: DataFile)
    ensures
        file@.content == file.content,
        file@.file_path == file.file_path@,
        file@.file_format == file.file_format,
        file@.file_size_in_bytes == file.file_size_in_bytes,
        file@.record_count == file.record_count,
        file@.partition_spec_id == file.partition_spec_id,
        file@.partition == file.partition@,
        match file.equality_ids {
            Some(ids) => file@.equality_ids == Some(ids@),
            None => file@.equality_ids is None,
        },
{
}

/// The views of a list of files are those of its files, one by one.
pub proof fn law_file_list_view(files: Seq<DataFile>)
    ensures
        crate::files::file_views(files).len() == files.len(),
        forall|i: int|
            0 <= i < files.len() ==> #[trigger] crate::files::file_views(files)[i] == files[i]@,
{
}

/// The files of a content are counted one by one: none in no files, and one more
/// exactly if the file that comes to the others has that content.
pub proof fn law_files_are_counted(
    files: Seq<DataFileView>,
    file: DataFileView,
    content: DataContentType,
)
    ensures
        crate::files::count_content(Seq::empty(), content) == 0,
        file.content == content ==> crate::files::count_content(files.push(file), content)
            == crate::files::count_content(files, content) + 1,
        file.content != content ==> crate::files::count_content(files.push(file), content)
            == crate::files::count_content(files, content),
{
    reveal(Seq::filter);
    assert(files.push(file).drop_last() =~= files);
}

/// The view of an entry holds its status and its file.
pub proof fn law_entry_view(entry: ManifestEntry)
    ensures
        entry@.status == entry.status,
        entry@.data_file == entry.data_file@,
{
}

/// The views of a list of entries are those of its entries, one by one.
pub proof fn law_entry_list_view(entries: Seq<ManifestEntry>)
    ensures
        crate::manifest::entry_views(entries).len() == entries.len(),
        forall|i: int|
            0 <= i < entries.len() ==> #[trigger] crate::manifest::entry_views(entries)[i]
                == entries[i]@,
{
}

/// Key metadata is viewed as its bytes.
pub proof fn law_key_metadata_view(key_metadata: Option<Vec<u8>>)
    ensures
        match key_metadata {
            Some(bytes) => crate::manifest::key_metadata_view(key_metadata) == Some(bytes@),
            None => crate::manifest::key_metadata_view(key_metadata) is None,
        },
{
}

/// The view of a manifest holds its content, its key metadata and its entries.
pub proof fn law_manifest_view(manifest: Manifest)
    ensures
        manifest@.content == manifest.content,
        match manifest.key_metadata {
            Some(bytes) => manifest@.key_metadata == Some(bytes@),
            None => manifest@.key_metadata is None,
        },
        manifest@.entries.len() == manifest.entries@.len(),
        forall|i: int|
            0 <= i < manifest.entries@.len() ==> {
                &&& (#[trigger] manifest@.entries[i]).status == manifest.entries@[i].status
                &&& manifest@.entries[i].data_file == manifest.entries@[i].data_file@
            },
{
}

/// The views of a list of manifests are those of its manifests, one by one.
pub proof fn law_manifest_list_view(manifests: Seq<Manifest>)
    ensures
        crate::manifest::manifest_views(manifests).len() == manifests.len(),
        forall|i: int|
            0 <= i < manifests.len() ==> #[trigger] crate::manifest::manifest_views(manifests)[i]
                == manifests[i]@,
{
}

/// The view of a change to metadata is of the same kind and holds its fields.
pub proof fn law_update_view(update: TableUpdate)
    ensures
        match update {
            TableUpdate::AddSnapshot { snapshot } => {
                &&& update@ matches TableUpdateView::AddSnapshot { snapshot: viewed }
                &&& viewed.snapshot_id == snapshot.snapshot_id
                &&& viewed.summary.operation == snapshot.summary.operation
                &&& viewed.summary.additional_properties == snapshot.summary.additional_properties@
                &&& snapshot@ == viewed
                &&& snapshot.summary@ == viewed.summary
            },
            TableUpdate::SetSnapshotRef { ref_name, reference } => update@
                == (TableUpdateView::SetSnapshotRef { ref_name: ref_name@, reference }),
        },
{
}

/// The view of a requirement is of the same kind and holds its fields.
pub proof fn law_requirement_view(requirement: TableRequirement)
    ensures
        match requirement {
            TableRequirement::UuidMatch { uuid } => requirement@
                == (TableRequirementView::UuidMatch { uuid }),
            TableRequirement::RefSnapshotIdMatch { ref_name, snapshot_id } => requirement@
                == (TableRequirementView::RefSnapshotIdMatch { ref_name: ref_name@, snapshot_id }),
        },
{
}

/// The view of the changes of a commit holds the updates and the requirements,
/// one by one.
pub proof fn law_changes_view(changes: ActionCommit)
    ensures
        changes@.updates.len() == changes.updates@.len(),
        forall|i: int|
            0 <= i < changes.updates@.len() ==> #[trigger] changes@.updates[i]
                == changes.updates@[i]@,
        changes@.requirements.len() == changes.requirements@.len(),
        forall|i: int|
            0 <= i < changes.requirements@.len() ==> #[trigger] changes@.requirements[i]
                == changes.requirements@[i]@,
{
}

/// The view of a commit holds every field of it.
pub proof fn law_commit_view(commit: SnapshotCommit)
    ensures
        commit@.commit_uuid == commit.commit_uuid,
        commit@.existing_manifests == commit.existing_manifests@,
        commit@.new_manifests.len() == commit.new_manifests@.len(),
        forall|i: int|
            0 <= i < commit.new_manifests@.len() ==> #[trigger] commit@.new_manifests[i]
                == commit.new_manifests@[i]@,
        commit@.deleted_entries.len() == commit.deleted_entries@.len(),
        forall|i: int|
            0 <= i < commit.deleted_entries@.len() ==> #[trigger] commit@.deleted_entries[i]
                == commit.deleted_entries@[i]@,
        commit@.action_commit == commit.action_commit@,
{
}

/// A new action has no files and no settings.
pub proof fn law_new_action_is_blank()
    ensures
        RowDeltaActionView::empty().commit_uuid is None,
        RowDeltaActionView::empty().key_metadata is None,
        forall|key: Seq<char>|
            !(#[trigger] RowDeltaActionView::empty().snapshot_properties.contains_key(key)),
        RowDeltaActionView::empty().added_data_files.len() == 0,
        RowDeltaActionView::empty().added_delete_files.len() == 0,
{
}

/// To add data files keeps the data files that are there, in their places, and
/// puts every one of the given files behind them, in order. All else stays.
pub proof fn law_every_data_file_is_added(action: RowDeltaActionView, files: Seq<DataFileView>)
    ensures
        ({
            let earlier = action.added_data_files;
            let after = action.add_data_files(files);
            &&& after.added_data_files.len() == earlier.len() + files.len()
            &&& forall|i: int|
                0 <= i < earlier.len() ==> #[trigger] after.added_data_files[i] == earlier[i]
            &&& forall|i: int|
                0 <= i < files.len() ==> after.added_data_files[earlier.len() + i]
                    == #[trigger] files[i]
            &&& after.added_delete_files == action.added_delete_files
            &&& after.commit_uuid == action.commit_uuid
            &&& after.key_metadata == action.key_metadata
            &&& after.snapshot_properties == action.snapshot_properties
        }),
{
}

/// To add delete files keeps the delete files that are there, in their places,
/// and puts every one of the given files behind them, in order. All else stays.
pub proof fn law_every_delete_file_is_added(action: RowDeltaActionView, files: Seq<DataFileView>)
    ensures
        ({
            let earlier = action.added_delete_files;
            let after = action.add_delete_files(files);
            &&& after.added_delete_files.len() == earlier.len() + files.len()
            &&& forall|i: int|
                0 <= i < earlier.len() ==> #[trigger] after.added_delete_files[i] == earlier[i]
            &&& forall|i: int|
                0 <= i < files.len() ==> after.added_delete_files[earlier.len() + i]
                    == #[trigger] files[i]
            &&& after.added_data_files == action.added_data_files
            &&& after.commit_uuid == action.commit_uuid
            &&& after.key_metadata == action.key_metadata
            &&& after.snapshot_properties == action.snapshot_properties
        }),
{
}

/// Each setting sets what it names, to the value given, and nothing else.
pub proof fn law_settings_set_one_thing(
    action: RowDeltaActionView,
    commit_uuid: Uuid,
    key_metadata: Seq<u8>,
    properties: Map<Seq<char>, Seq<char>>,
)
    ensures
        ({
            let named = action.set_commit_uuid(commit_uuid);
            &&& named.commit_uuid == Some(commit_uuid)
            &&& named.key_metadata == action.key_metadata
            &&& named.snapshot_properties == action.snapshot_properties
            &&& named.added_data_files == action.added_data_files
            &&& named.added_delete_files == action.added_delete_files
        }),
        ({
            let keyed = action.set_key_metadata(key_metadata);
            &&& keyed.key_metadata == Some(key_metadata)
            &&& keyed.commit_uuid == action.commit_uuid
            &&& keyed.snapshot_properties == action.snapshot_properties
            &&& keyed.added_data_files == action.added_data_files
            &&& keyed.added_delete_files == action.added_delete_files
        }),
        ({
            let described = action.set_snapshot_properties(properties);
            &&& described.snapshot_properties == properties
            &&& described.commit_uuid == action.commit_uuid
            &&& described.key_metadata == action.key_metadata
            &&& described.added_data_files == action.added_data_files
            &&& described.added_delete_files == action.added_delete_files
        }),
{
}

/// Of files said to be data files one without data content is refused, and where
/// there is none the table's own finding decides.
pub proof fn law_data_files_are_refused_exactly_when(
    files: Seq<DataFileView>,
    finding: Result<(), Error>,
)
    ensures
        ({
            let refusal = crate::producer::data_files_refusal(
                files,
                crate::error::verdict_view(finding),
            );
            let misplaced = exists|i: int|
                0 <= i < files.len() && (#[trigger] files[i]).content != DataContentType::Data;
            &&& misplaced ==> refusal is Some && refusal->Some_0.kind == ErrorKind::DataInvalid
                && refusal->Some_0.message
                == "Only files with data content can be added as data files"@
            &&& !misplaced ==> match finding {
                Ok(_) => refusal is None,
                Err(error) => refusal is Some && refusal->Some_0.kind == error.kind
                    && refusal->Some_0.message == error.message@,
            }
        }),
{
}

/// Of files said to be delete files one with data content is refused, and where
/// there is none the table's own finding decides.
pub proof fn law_delete_files_are_refused_exactly_when(
    files: Seq<DataFileView>,
    finding: Result<(), Error>,
)
    ensures
        ({
            let refusal = crate::producer::delete_files_refusal(
                files,
                crate::error::verdict_view(finding),
            );
            let misplaced = exists|i: int|
                0 <= i < files.len() && (#[trigger] files[i]).content == DataContentType::Data;
            &&& misplaced ==> refusal is Some && refusal->Some_0.kind == ErrorKind::DataInvalid
                && refusal->Some_0.message
                == "Files with data content cannot be added as delete files"@
            &&& !misplaced ==> match finding {
                Ok(_) => refusal is None,
                Err(error) => refusal is Some && refusal->Some_0.kind == error.kind
                    && refusal->Some_0.message == error.message@,
            }
        }),
{
}

/// Before the files are looked at, an action is refused if it has no files, and
/// if it has delete files and the table is of the first format version. It is
/// refused then only.
pub proof fn law_format_refuses_exactly_when(action: RowDeltaActionView, table: Table)
    ensures
        ({
            let refusal = action.format_refusal(table);
            let data = action.added_data_files.len();
            let deletes = action.added_delete_files.len();
            &&& data == 0 && deletes == 0 ==> refusal is Some && refusal->Some_0.kind
                == ErrorKind::DataInvalid && refusal->Some_0.message
                == "Row delta requires at least one data file or delete file"@
            &&& deletes > 0 && table.format_version == FormatVersion::V1 ==> refusal is Some
                && refusal->Some_0.kind == ErrorKind::FeatureUnsupported
                && refusal->Some_0.message == "Delete files are not supported in format version 1"@
            &&& deletes > 0 && table.format_version != FormatVersion::V1 ==> refusal is None
            &&& data > 0 && deletes == 0 ==> refusal is None
        }),
{
}

/// The answer to an action: what its format or its files are refused for, the
/// first of these that applies, and no refusal if none does.
pub proof fn law_first_objection_is_the_answer(
    action: RowDeltaActionView,
    table: Table,
    checks: TableChecks,
)
    ensures
        ({
            let refusal = action.refusal(table, checks);
            let data = action.added_data_files;
            let deletes = action.added_delete_files;
            let unfit = (data.len() == 0 && deletes.len() == 0) || (deletes.len() > 0
                && table.format_version == FormatVersion::V1);
            let not_data = exists|i: int|
                0 <= i < data.len() && (#[trigger] data[i]).content != DataContentType::Data;
            let not_delete = exists|i: int|
                0 <= i < deletes.len() && (#[trigger] deletes[i]).content == DataContentType::Data;
            &&& data.len() == 0 && deletes.len() == 0 ==> refusal is Some && refusal->Some_0.kind
                == ErrorKind::DataInvalid && refusal->Some_0.message
                == "Row delta requires at least one data file or delete file"@
            &&& deletes.len() > 0 && table.format_version == FormatVersion::V1 ==> refusal is Some
                && refusal->Some_0.kind == ErrorKind::FeatureUnsupported
                && refusal->Some_0.message == "Delete files are not supported in format version 1"@
            &&& !unfit && not_data ==> refusal is Some && refusal->Some_0.kind
                == ErrorKind::DataInvalid && refusal->Some_0.message
                == "Only files with data content can be added as data files"@
            &&& !unfit && !not_data && data.len() > 0 && checks.data_files is Err ==> refusal
                is Some && refusal->Some_0.kind == checks.data_files->Err_0.kind
                && refusal->Some_0.message == checks.data_files->Err_0.message@
            &&& !unfit && !not_data && (data.len() == 0 || checks.data_files is Ok) ==> {
                &&& not_delete ==> refusal is Some && refusal->Some_0.kind == ErrorKind::DataInvalid
                    && refusal->Some_0.message
                    == "Files with data content cannot be added as delete files"@
                &&& !not_delete && deletes.len() > 0 && checks.delete_files is Err ==> refusal
                    is Some && refusal->Some_0.kind == checks.delete_files->Err_0.kind
                    && refusal->Some_0.message == checks.delete_files->Err_0.message@
                &&& !not_delete && (deletes.len() == 0 || checks.delete_files is Ok) ==> refusal
                    is None
            }
        }),
{
}

/// Everything that the action holds goes to the producer, with the table and the
/// identifier, and the operation says whether there are data files.
pub proof fn law_producer_gets_everything(
    action: RowDeltaActionView,
    table: Table,
    commit_uuid: Uuid,
)
    ensures
        ({
            let producer = action.producer(table, commit_uuid);
            &&& producer.table == table
            &&& producer.commit_uuid == commit_uuid
            &&& producer.key_metadata == action.key_metadata
            &&& producer.snapshot_properties == action.snapshot_properties
            &&& producer.added_data_files == action.added_data_files
            &&& producer.added_delete_files == action.added_delete_files
        }),
        action.operation().has_data_files <==> action.added_data_files.len() > 0,
{
}

/// A fresh identifier is one built from bits with the version and variant of a
/// version 7 UUID.
pub proof fn law_fresh_identifiers(id: Uuid)
    ensures
        crate::uuids::is_time_ordered(id) <==> exists|bits: u128|
            id == #[trigger] crate::uuids::uuid_from_bits(bits) && (bits >> 76) & 0xf == 7 && (bits
                >> 62) & 0x3 == 2,
{
    if exists|bits: u128|
        id == #[trigger] crate::uuids::uuid_from_bits(bits) && (bits >> 76) & 0xf == 7 && (bits
            >> 62) & 0x3 == 2 {
        let bits = choose|bits: u128|
            id == #[trigger] crate::uuids::uuid_from_bits(bits) && (bits >> 76) & 0xf == 7 && (bits
                >> 62) & 0x3 == 2;
        assert(crate::uuids::is_version_7(bits));
    }
}

/// An identifier names a commit if it is the one that was set or, where none was,
/// one built from bits with the version and variant of a version 7 UUID.
pub proof fn law_names_of_a_commit(action: RowDeltaActionView, commit_uuid: Uuid)
    ensures
        match action.commit_uuid {
            Some(set) => action.may_be_named(commit_uuid) <==> commit_uuid == set,
            None => action.may_be_named(commit_uuid) <==> exists|bits: u128|
                commit_uuid == #[trigger] crate::uuids::uuid_from_bits(bits) && (bits >> 76) & 0xf
                    == 7 && (bits >> 62) & 0x3 == 2,
        },
{
    law_fresh_identifiers(commit_uuid);
}

/// A manifest of the current snapshot is taken over exactly if it has added files
/// or existing files, whether it lists data or deletes: of one manifest that is
/// all there is to say, and of a list it is said of each manifest in turn.
pub proof fn law_manifests_with_files_are_kept(
    list: Seq<ManifestFile>,
    more: Seq<ManifestFile>,
    manifest: ManifestFile,
)
    ensures
        manifest.has_added_files || manifest.has_existing_files
            ==> crate::manifest::live_manifests(seq![manifest]) == seq![manifest],
        !manifest.has_added_files && !manifest.has_existing_files
            ==> crate::manifest::live_manifests(seq![manifest]) == Seq::<ManifestFile>::empty(),
        crate::manifest::live_manifests(Seq::empty()) == Seq::<ManifestFile>::empty(),
        crate::manifest::live_manifests(list + more) == crate::manifest::live_manifests(list)
            + crate::manifest::live_manifests(more),
        crate::manifest::live_manifests(list) == list.filter(
            |m: ManifestFile| m.has_added_files || m.has_existing_files,
        ),
        crate::manifest::live_manifests(list).contains(manifest) <==> list.contains(manifest) && (
        manifest.has_added_files || manifest.has_existing_files),
        manifest.is_live() <==> manifest.has_added_files || manifest.has_existing_files,
{
    reveal(Seq::filter);
    crate::laws::law_live_manifests_are_taken_over(list, more, manifest);
    let live = |m: ManifestFile| m.is_live();
    let with_files = |m: ManifestFile| m.has_added_files || m.has_existing_files;
    assert(live =~= with_files);
    assert(seq![manifest].drop_last() =~= Seq::<ManifestFile>::empty());
    assert(Seq::<ManifestFile>::empty().push(manifest) =~= seq![manifest]);
    assert(Seq::<ManifestFile>::empty().filter(live) =~= Seq::<ManifestFile>::empty());
}

/// Where there is no current snapshot no manifest is taken over. Else those of
/// its list are that have added or existing files, in order, or the failure to
/// read the list is handed on.
pub proof fn law_carried_manifests(
    current_snapshot_id: Option<i64>,
    loaded: Result<Vec<ManifestFile>, Error>,
)
    ensures
        ({
            let carried = crate::operation::carried_manifests(current_snapshot_id, loaded);
            &&& current_snapshot_id is None ==> carried is Ok && carried->Ok_0.len() == 0
            &&& current_snapshot_id is Some ==> match loaded {
                Ok(list) => carried is Ok && carried->Ok_0 == list@.filter(
                    |m: ManifestFile| m.has_added_files || m.has_existing_files,
                ),
                Err(error) => carried is Err && carried->Err_0.kind == error.kind
                    && carried->Err_0.message == error.message@,
            }
        }),
{
    let live = |m: ManifestFile| m.is_live();
    let with_files = |m: ManifestFile| m.has_added_files || m.has_existing_files;
    assert(live =~= with_files);
}

/// The record of a manifest holds its path and content, and says whether some
/// entry is added and whether some entry is existing.
pub proof fn law_record_of_a_manifest(manifest: ManifestView, manifest_path: String)
    ensures
        ({
            let record = manifest.recorded_at(manifest_path);
            &&& record.manifest_path == manifest_path
            &&& record.content == manifest.content
            &&& record.has_added_files <==> exists|i: int|
                0 <= i < manifest.entries.len() && (#[trigger] manifest.entries[i]).status
                    == ManifestStatus::Added
            &&& record.has_existing_files <==> exists|i: int|
                0 <= i < manifest.entries.len() && (#[trigger] manifest.entries[i]).status
                    == ManifestStatus::Existing
        }),
        forall|status: ManifestStatus|
            #[trigger] manifest.has_status(status) <==> exists|i: int|
                0 <= i < manifest.entries.len() && (#[trigger] manifest.entries[i]).status
                    == status,
{
}

/// A commit goes through if there is no current snapshot or its manifest list was
/// read, and then takes over exactly the manifests of the list that have added or
/// existing files, of data and of deletes, in order. If not it fails with the
/// error of the reading.
pub proof fn law_commit_takes_over_manifests_with_files(
    producer: SnapshotProducerView,
    operation: RowDeltaOperation,
    loaded: Result<Vec<ManifestFile>, Error>,
    snapshot_id: i64,
)
    ensures
        ({
            let outcome = producer.commit(operation, loaded, snapshot_id);
            let taken = outcome->Ok_0.existing_manifests;
            &&& outcome is Ok <==> producer.table.current_snapshot_id is None || loaded is Ok
            &&& producer.table.current_snapshot_id is None ==> taken.len() == 0
            &&& producer.table.current_snapshot_id is Some ==> match loaded {
                Ok(list) => {
                    &&& taken == list@.filter(
                        |m: ManifestFile| m.has_added_files || m.has_existing_files,
                    )
                    &&& forall|m: ManifestFile| #[trigger]
                        taken.contains(m) <==> list@.contains(m) && (m.has_added_files
                            || m.has_existing_files)
                },
                Err(error) => outcome->Err_0.kind == error.kind && outcome->Err_0.message
                    == error.message@,
            }
        }),
{
    law_carried_manifests(producer.table.current_snapshot_id, loaded);
    if loaded is Ok {
        let list = loaded->Ok_0@;
        assert forall|m: ManifestFile| #[trigger]
            crate::manifest::live_manifests(list).contains(m) <==> list.contains(m) && (
            m.has_added_files || m.has_existing_files) by {
            law_manifests_with_files_are_kept(list, list, m);
        }
        law_manifests_with_files_are_kept(list, list, arbitrary());
    }
}

/// The new manifests of a commit are a data manifest that lists every added data
/// file, if there are any, and behind it a delete manifest that lists every added
/// delete file, if there are any. Each lists nothing else, in the order of the
/// files, as added, under the producer's key metadata. The commit bears the
/// producer's identifier and deletes no entry.
pub proof fn law_commit_writes_the_added_files(
    producer: SnapshotProducerView,
    operation: RowDeltaOperation,
    loaded: Result<Vec<ManifestFile>, Error>,
    snapshot_id: i64,
)
    requires
        producer.commit(operation, loaded, snapshot_id) is Ok,
    ensures
        ({
            let commit = producer.commit(operation, loaded, snapshot_id)->Ok_0;
            let manifests = commit.new_manifests;
            let data = producer.added_data_files;
            let deletes = producer.added_delete_files;
            let for_data = if data.len() > 0 {
                1int
            } else {
                0int
            };
            let for_deletes = if deletes.len() > 0 {
                1int
            } else {
                0int
            };
            &&& commit.commit_uuid == producer.commit_uuid
            &&& commit.deleted_entries.len() == 0
            &&& manifests.len() == for_data + for_deletes
            &&& data.len() > 0 ==> {
                let manifest = manifests[0];
                &&& manifest.content == ManifestContentType::Data
                &&& manifest.key_metadata == producer.key_metadata
                &&& manifest.entries.len() == data.len()
                &&& forall|i: int|
                    0 <= i < data.len() ==> (#[trigger] manifest.entries[i]).data_file == data[i]
                        && manifest.entries[i].status == ManifestStatus::Added
            }
            &&& deletes.len() > 0 ==> {
                let manifest = manifests[for_data];
                &&& manifest.content == ManifestContentType::Deletes
                &&& manifest.key_metadata == producer.key_metadata
                &&& manifest.entries.len() == deletes.len()
                &&& forall|i: int|
                    0 <= i < deletes.len() ==> (#[trigger] manifest.entries[i]).data_file
                        == deletes[i] && manifest.entries[i].status == ManifestStatus::Added
            }
        }),
{
}

/// The changes of a commit are two: the new snapshot is added under the given
/// number, and the main branch is set to it. They require that the table has the
/// identifier, and its main branch the snapshot, that the producer knows.
pub proof fn law_commit_changes_the_main_branch(
    producer: SnapshotProducerView,
    operation: RowDeltaOperation,
    loaded: Result<Vec<ManifestFile>, Error>,
    snapshot_id: i64,
)
    requires
        producer.commit(operation, loaded, snapshot_id) is Ok,
    ensures
        ({
            let changes = producer.commit(operation, loaded, snapshot_id)->Ok_0.action_commit;
            &&& changes.updates.len() == 2
            &&& changes.updates[0] is AddSnapshot
            &&& changes.updates[0]->AddSnapshot_snapshot.snapshot_id == snapshot_id
            &&& changes.updates[1] == (TableUpdateView::SetSnapshotRef {
                ref_name: "main"@,
                reference: SnapshotReference { snapshot_id },
            })
            &&& changes.requirements.len() == 2
            &&& changes.requirements[0] == (TableRequirementView::UuidMatch {
                uuid: producer.table.uuid,
            })
            &&& changes.requirements[1] == (TableRequirementView::RefSnapshotIdMatch {
                ref_name: "main"@,
                snapshot_id: producer.table.current_snapshot_id,
            })
        }),
{
}

/// To advance the main branch to a snapshot adds that snapshot and sets the branch
/// to its number, provided the table and the branch are as expected.
pub proof fn law_advancing_main(
    snapshot: SnapshotView,
    table_uuid: Uuid,
    current_snapshot_id: Option<i64>,
)
    ensures
        ({
            let changes = crate::snapshot::advance_main(snapshot, table_uuid, current_snapshot_id);
            &&& changes.updates.len() == 2
            &&& changes.updates[0] == (TableUpdateView::AddSnapshot { snapshot })
            &&& changes.updates[1] == (TableUpdateView::SetSnapshotRef {
                ref_name: "main"@,
                reference: SnapshotReference { snapshot_id: snapshot.snapshot_id },
            })
            &&& changes.requirements.len() == 2
            &&& changes.requirements[0] == (TableRequirementView::UuidMatch { uuid: table_uuid })
            &&& changes.requirements[1] == (TableRequirementView::RefSnapshotIdMatch {
                ref_name: "main"@,
                snapshot_id: current_snapshot_id,
            })
        }),
{
}

/// The snapshot that a commit adds is recorded as `Overwrite` if the operation has
/// data files and as `Delete` if not, whatever the table's state.
pub proof fn law_commit_records_the_operation(
    producer: SnapshotProducerView,
    operation: RowDeltaOperation,
    loaded: Result<Vec<ManifestFile>, Error>,
    snapshot_id: i64,
)
    requires
        producer.commit(operation, loaded, snapshot_id) is Ok,
    ensures
        ({
            let changes = producer.commit(operation, loaded, snapshot_id)->Ok_0.action_commit;
            let summary = changes.updates[0]->AddSnapshot_snapshot.summary;
            &&& operation.has_data_files ==> summary.operation == Operation::Overwrite
            &&& !operation.has_data_files ==> summary.operation == Operation::Delete
        }),
        crate::operation::row_delta_operation(true) == Operation::Overwrite,
        crate::operation::row_delta_operation(false) == Operation::Delete,
{
}

/// The snapshot that an action's commit adds is recorded as `Overwrite` if the
/// action adds data files and as `Delete` if not, whatever the table's state.
pub proof fn law_action_records_the_operation(
    action: RowDeltaActionView,
    table: Table,
    commit_uuid: Uuid,
    loaded: Result<Vec<ManifestFile>, Error>,
    snapshot_id: i64,
)
    requires
        action.producer(table, commit_uuid).commit(action.operation(), loaded, snapshot_id) is Ok,
    ensures
        ({
            let commit = action.producer(table, commit_uuid).commit(
                action.operation(),
                loaded,
                snapshot_id,
            )->Ok_0;
            let summary = commit.action_commit.updates[0]->AddSnapshot_snapshot.summary;
            &&& action.added_data_files.len() > 0 ==> summary.operation == Operation::Overwrite
            &&& action.added_data_files.len() == 0 ==> summary.operation == Operation::Delete
        }),
{
}

/// A number in decimal notation: its last digit is the remainder by ten, and what
/// stands before that, if the number has more digits, is its tenth.
pub proof fn law_decimal_notation(n: nat)
    ensures
        crate::summary::decimal(n).len() > 0,
        n % 10 == 0 ==> crate::summary::decimal(n).last() == '0',
        n % 10 == 1 ==> crate::summary::decimal(n).last() == '1',
        n % 10 == 2 ==> crate::summary::decimal(n).last() == '2',
        n % 10 == 3 ==> crate::summary::decimal(n).last() == '3',
        n % 10 == 4 ==> crate::summary::decimal(n).last() == '4',
        n % 10 == 5 ==> crate::summary::decimal(n).last() == '5',
        n % 10 == 6 ==> crate::summary::decimal(n).last() == '6',
        n % 10 == 7 ==> crate::summary::decimal(n).last() == '7',
        n % 10 == 8 ==> crate::summary::decimal(n).last() == '8',
        n % 10 == 9 ==> crate::summary::decimal(n).last() == '9',
        n < 10 ==> crate::summary::decimal(n).len() == 1,
        n >= 10 ==> crate::summary::decimal(n).drop_last() == crate::summary::decimal(n / 10),
{
    if n >= 10 {
        assert(crate::summary::decimal(n).drop_last() =~= crate::summary::decimal(n / 10));
    }
}

/// The keys under which files are counted are these, and they differ.
proof fn lemma_count_keys()
    ensures
        crate::summary::ADDED_DATA_FILES@ == "added-data-files"@,
        crate::summary::ADDED_DELETE_FILES@ == "added-delete-files"@,
        crate::summary::ADDED_EQUALITY_DELETE_FILES@ == "added-equality-delete-files"@,
        crate::summary::ADDED_POSITION_DELETE_FILES@ == "added-position-delete-files"@,
        "added-data-files"@ != "added-delete-files"@,
        "added-data-files"@ != "added-equality-delete-files"@,
        "added-data-files"@ != "added-position-delete-files"@,
        "added-delete-files"@ != "added-equality-delete-files"@,
        "added-delete-files"@ != "added-position-delete-files"@,
        "added-equality-delete-files"@ != "added-position-delete-files"@,
{
    reveal_strlit("added-data-files");
    reveal_strlit("added-delete-files");
    reveal_strlit("added-equality-delete-files");
    reveal_strlit("added-position-delete-files");
    assert("added-data-files"@.len() == 16);
    assert("added-delete-files"@.len() == 18);
    assert("added-equality-delete-files"@.len() == 27);
    assert("added-position-delete-files"@.len() == 27);
    assert("added-equality-delete-files"@[6] == 'e');
    assert("added-position-delete-files"@[6] == 'p');
}

/// The counts of added files stand under four keys, each left out where its count
/// is zero, and under no other key.
pub proof fn law_counts_of_added_files(data: Seq<DataFileView>, deletes: Seq<DataFileView>)
    ensures
        ({
            let counts = crate::summary::file_counts(data, deletes);
            let equality = deletes.filter(
                |f: DataFileView| f.content == DataContentType::EqualityDeletes,
            ).len();
            let position = deletes.filter(
                |f: DataFileView| f.content == DataContentType::PositionDeletes,
            ).len();
            &&& counts.contains_key("added-data-files"@) <==> data.len() > 0
            &&& data.len() > 0 ==> counts["added-data-files"@] == crate::summary::decimal(data.len())
            &&& counts.contains_key("added-delete-files"@) <==> deletes.len() > 0
            &&& deletes.len() > 0 ==> counts["added-delete-files"@] == crate::summary::decimal(
                deletes.len(),
            )
            &&& counts.contains_key("added-equality-delete-files"@) <==> equality > 0
            &&& equality > 0 ==> counts["added-equality-delete-files"@] == crate::summary::decimal(
                equality,
            )
            &&& counts.contains_key("added-position-delete-files"@) <==> position > 0
            &&& position > 0 ==> counts["added-position-delete-files"@] == crate::summary::decimal(
                position,
            )
            &&& forall|key: Seq<char>| #[trigger]
                counts.contains_key(key) ==> key == "added-data-files"@ || key
                    == "added-delete-files"@ || key == "added-equality-delete-files"@ || key
                    == "added-position-delete-files"@
        }),
{
    lemma_count_keys();
}

/// The summary of the snapshot that a commit adds maps every key that the caller
/// set to the value that was set, and each key that counts files, where the
/// caller did not set it, to its count, or leaves it out where the count is zero.
/// It has no other key. All this holds whatever the table's state.
pub proof fn law_commit_summarises_the_added_files(
    producer: SnapshotProducerView,
    operation: RowDeltaOperation,
    loaded: Result<Vec<ManifestFile>, Error>,
    snapshot_id: i64,
)
    requires
        producer.commit(operation, loaded, snapshot_id) is Ok,
    ensures
        ({
            let changes = producer.commit(operation, loaded, snapshot_id)->Ok_0.action_commit;
            let summary = changes.updates[0]->AddSnapshot_snapshot.summary.additional_properties;
            let set = producer.snapshot_properties;
            let data = producer.added_data_files;
            let deletes = producer.added_delete_files;
            let equality = deletes.filter(
                |f: DataFileView| f.content == DataContentType::EqualityDeletes,
            ).len();
            let position = deletes.filter(
                |f: DataFileView| f.content == DataContentType::PositionDeletes,
            ).len();
            &&& forall|key: Seq<char>| #[trigger]
                set.contains_key(key) ==> summary.contains_key(key) && summary[key] == set[key]
            &&& !set.contains_key("added-data-files"@) ==> {
                &&& summary.contains_key("added-data-files"@) <==> data.len() > 0
                &&& data.len() > 0 ==> summary["added-data-files"@] == crate::summary::decimal(
                    data.len(),
                )
            }
            &&& !set.contains_key("added-delete-files"@) ==> {
                &&& summary.contains_key("added-delete-files"@) <==> deletes.len() > 0
                &&& deletes.len() > 0 ==> summary["added-delete-files"@] == crate::summary::decimal(
                    deletes.len(),
                )
            }
            &&& !set.contains_key("added-equality-delete-files"@) ==> {
                &&& summary.contains_key("added-equality-delete-files"@) <==> equality > 0
                &&& equality > 0 ==> summary["added-equality-delete-files"@]
                    == crate::summary::decimal(equality)
            }
            &&& !set.contains_key("added-position-delete-files"@) ==> {
                &&& summary.contains_key("added-position-delete-files"@) <==> position > 0
                &&& position > 0 ==> summary["added-position-delete-files"@]
                    == crate::summary::decimal(position)
            }
            &&& forall|key: Seq<char>| #[trigger]
                summary.contains_key(key) ==> set.contains_key(key) || key == "added-data-files"@
                    || key == "added-delete-files"@ || key == "added-equality-delete-files"@ || key
                    == "added-position-delete-files"@
        }),
{
    law_counts_of_added_files(producer.added_data_files, producer.added_delete_files);
}

} // verus!
