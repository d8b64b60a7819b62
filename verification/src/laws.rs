//! What holds of row deltas as a whole, over several steps or for every input.

use crate::action::{RowDeltaActionView, TableChecks};
use crate::error::{Error, ErrorView};
use crate::files::{DataContentType, DataFileView};
use crate::manifest::{ManifestContentType, ManifestFile, ManifestStatus};
use crate::operation::RowDeltaOperation;
use crate::producer::{SnapshotCommitView, SnapshotProducerView};
use crate::snapshot::{TableRequirementView, TableUpdateView};
use crate::summary::Operation;
use crate::table::{FormatVersion, Table};
use uuid::Uuid;
use vstd::prelude::*;

verus! {

/// Files are added behind those that are there: to add two lists one after the
/// other is to add them joined, and to add no file changes nothing.
pub proof fn law_adding_accumulates(
    action: RowDeltaActionView,
    first: Seq<DataFileView>,
    second: Seq<DataFileView>,
)
    ensures
        action.add_data_files(first).add_data_files(second) == action.add_data_files(first + second),
        action.add_delete_files(first).add_delete_files(second) == action.add_delete_files(
            first + second,
        ),
        action.add_data_files(Seq::empty()) == action,
        action.add_delete_files(Seq::empty()) == action,
{
    assert(action.add_data_files(first).add_data_files(second) =~= action.add_data_files(
        first + second,
    ));
    assert(action.add_delete_files(first).add_delete_files(second) =~= action.add_delete_files(
        first + second,
    ));
    assert(action.add_data_files(Seq::empty()) =~= action);
    assert(action.add_delete_files(Seq::empty()) =~= action);
}

/// Data files and delete files may be added in either order, and settings before
/// or after files.
pub proof fn law_adding_commutes(
    action: RowDeltaActionView,
    data_files: Seq<DataFileView>,
    delete_files: Seq<DataFileView>,
    commit_uuid: Uuid,
    key_metadata: Seq<u8>,
    properties: Map<Seq<char>, Seq<char>>,
)
    ensures
        action.add_data_files(data_files).add_delete_files(delete_files)
            == action.add_delete_files(delete_files).add_data_files(data_files),
        action.add_data_files(data_files).set_commit_uuid(commit_uuid) == action.set_commit_uuid(
            commit_uuid,
        ).add_data_files(data_files),
        action.add_data_files(data_files).set_key_metadata(key_metadata)
            == action.set_key_metadata(key_metadata).add_data_files(data_files),
        action.add_data_files(data_files).set_snapshot_properties(properties)
            == action.set_snapshot_properties(properties).add_data_files(data_files),
        action.add_delete_files(delete_files).set_commit_uuid(commit_uuid)
            == action.set_commit_uuid(commit_uuid).add_delete_files(delete_files),
        action.add_delete_files(delete_files).set_key_metadata(key_metadata)
            == action.set_key_metadata(key_metadata).add_delete_files(delete_files),
        action.add_delete_files(delete_files).set_snapshot_properties(properties)
            == action.set_snapshot_properties(properties).add_delete_files(delete_files),
{
}

/// Of two settings of the same thing the later one counts, and settings of
/// different things do not touch each other.
pub proof fn law_last_setting_wins(
    action: RowDeltaActionView,
    earlier_uuid: Uuid,
    commit_uuid: Uuid,
    earlier_metadata: Seq<u8>,
    key_metadata: Seq<u8>,
    earlier_properties: Map<Seq<char>, Seq<char>>,
    properties: Map<Seq<char>, Seq<char>>,
)
    ensures
        action.set_commit_uuid(earlier_uuid).set_commit_uuid(commit_uuid)
            == action.set_commit_uuid(commit_uuid),
        action.set_key_metadata(earlier_metadata).set_key_metadata(key_metadata)
            == action.set_key_metadata(key_metadata),
        action.set_snapshot_properties(earlier_properties).set_snapshot_properties(properties)
            == action.set_snapshot_properties(properties),
        action.set_commit_uuid(commit_uuid).set_key_metadata(key_metadata)
            == action.set_key_metadata(key_metadata).set_commit_uuid(commit_uuid),
        action.set_commit_uuid(commit_uuid).set_snapshot_properties(properties)
            == action.set_snapshot_properties(properties).set_commit_uuid(commit_uuid),
        action.set_key_metadata(key_metadata).set_snapshot_properties(properties)
            == action.set_snapshot_properties(properties).set_key_metadata(key_metadata),
{
}

/// An action is taken exactly if it adds a file, the table's format has delete
/// files where it adds some, and the files of each kind that it adds have the
/// right content and meet the table's own rules.
pub proof fn law_accepted_exactly_when(
    action: RowDeltaActionView,
    table: Table,
    checks: TableChecks,
)
    ensures
        action.refusal(table, checks) is None <==> {
            &&& action.added_data_files.len() > 0 || action.added_delete_files.len() > 0
            &&& action.added_delete_files.len() > 0 ==> table.format_version != FormatVersion::V1
            &&& action.added_data_files.len() > 0 ==> crate::producer::all_data(
                action.added_data_files,
            ) && checks.data_files is Ok
            &&& action.added_delete_files.len() > 0 ==> crate::producer::all_deletes(
                action.added_delete_files,
            ) && checks.delete_files is Ok
        },
{
}

/// An action without files is refused, whatever the table and its rules.
pub proof fn law_empty_is_refused(
    action: RowDeltaActionView,
    table: Table,
    checks: TableChecks,
)
    requires
        action.added_data_files.len() == 0,
        action.added_delete_files.len() == 0,
    ensures
        action.refusal(table, checks) == Some(crate::action::no_files()),
{
}

/// In the first format version every action with delete files is refused as
/// unsupported, whatever the files hold. In the later versions none is.
pub proof fn law_delete_files_need_second_format(
    action: RowDeltaActionView,
    table: Table,
    checks: TableChecks,
)
    requires
        action.added_delete_files.len() > 0,
    ensures
        table.format_version == FormatVersion::V1 ==> action.refusal(table, checks) == Some(
            crate::action::no_delete_files_in_v1(),
        ),
        table.format_version != FormatVersion::V1 ==> action.format_refusal(table) is None,
{
}

/// An action with data files alone meets the same answer in every format version.
pub proof fn law_data_files_fit_every_format(
    action: RowDeltaActionView,
    table: Table,
    format_version: FormatVersion,
    checks: TableChecks,
)
    requires
        action.added_delete_files.len() == 0,
    ensures
        action.refusal(table, checks) == action.refusal(Table { format_version, ..table }, checks),
{
}

/// A file with data content among the delete files is never taken.
pub proof fn law_data_content_is_no_delete_file(
    action: RowDeltaActionView,
    table: Table,
    checks: TableChecks,
    i: int,
)
    requires
        0 <= i < action.added_delete_files.len(),
        action.added_delete_files[i].content == DataContentType::Data,
    ensures
        action.refusal(table, checks) is Some,
{
    assert(!crate::producer::all_deletes(action.added_delete_files));
}

/// The table's rules on files of a kind are consulted only if the action adds
/// files of that kind.
pub proof fn law_checks_concern_added_files(
    action: RowDeltaActionView,
    table: Table,
    checks: TableChecks,
    others: TableChecks,
)
    requires
        action.added_data_files.len() > 0 ==> checks.data_files == others.data_files,
        action.added_delete_files.len() > 0 ==> checks.delete_files == others.delete_files,
    ensures
        action.refusal(table, checks) == action.refusal(table, others),
{
}

/// An action that is taken is recorded as `Overwrite` if it adds data files. If
/// not it adds delete files alone, and is recorded as `Delete`.
pub proof fn law_operation_follows_files(
    action: RowDeltaActionView,
    table: Table,
    checks: TableChecks,
    commit_uuid: Uuid,
    snapshot_id: i64,
)
    requires
        action.refusal(table, checks) is None,
    ensures
        ({
            let snapshot = action.producer(table, commit_uuid).snapshot(
                action.operation(),
                snapshot_id,
            );
            &&& action.added_data_files.len() > 0 ==> snapshot.summary.operation
                == Operation::Overwrite
            &&& action.added_data_files.len() == 0 ==> action.added_delete_files.len() > 0
                && snapshot.summary.operation == Operation::Delete
        }),
{
}

/// A commit adds one manifest for the data files and one for the delete files,
/// the kinds without files left out. Each lists its files, all of them, in the
/// order in which they were added, and nothing else, as added.
pub proof fn law_manifests_list_the_added_files(producer: SnapshotProducerView)
    ensures
        ({
            let manifests = producer.new_manifests();
            let data = producer.added_data_files;
            let deletes = producer.added_delete_files;
            &&& manifests.len() == (if data.len() > 0 { 1int } else { 0 }) + (if deletes.len() > 0 {
                1int
            } else {
                0
            })
            &&& data.len() > 0 ==> manifests[0].content == ManifestContentType::Data
            &&& deletes.len() > 0 ==> manifests.last().content == ManifestContentType::Deletes
            &&& forall|i: int|
                0 <= i < manifests.len() ==> {
                    let files = if (#[trigger] manifests[i]).content == ManifestContentType::Data {
                        data
                    } else {
                        deletes
                    };
                    &&& manifests[i].entries.len() == files.len() > 0
                    &&& forall|j: int|
                        0 <= j < files.len() ==> (#[trigger] manifests[i].entries[j]).data_file
                            == files[j] && manifests[i].entries[j].status == ManifestStatus::Added
                }
        }),
{
}

/// A commit of an action that is taken adds at least one manifest. Its data
/// manifest lists files with data content only, its delete manifest files with
/// deletions only.
pub proof fn law_manifests_do_not_mix_content(
    action: RowDeltaActionView,
    table: Table,
    checks: TableChecks,
    commit_uuid: Uuid,
)
    requires
        action.refusal(table, checks) is None,
    ensures
        ({
            let manifests = action.producer(table, commit_uuid).new_manifests();
            &&& manifests.len() > 0
            &&& forall|i: int, j: int|
                0 <= i < manifests.len() && 0 <= j < manifests[i].entries.len() ==> (
                (#[trigger] manifests[i].entries[j]).data_file.content == DataContentType::Data
                    <==> manifests[i].content == ManifestContentType::Data)
        }),
{
}

/// The key metadata of the action is that of every manifest it adds.
pub proof fn law_key_metadata_reaches_manifests(
    action: RowDeltaActionView,
    table: Table,
    commit_uuid: Uuid,
    i: int,
)
    requires
        0 <= i < action.producer(table, commit_uuid).new_manifests().len(),
    ensures
        action.producer(table, commit_uuid).new_manifests()[i].key_metadata == action.key_metadata,
{
}

/// A list of live manifests is kept as it is.
proof fn lemma_all_live_are_kept(list: Seq<ManifestFile>)
    requires
        forall|i: int| 0 <= i < list.len() ==> (#[trigger] list[i]).is_live(),
    ensures
        crate::manifest::live_manifests(list) == list,
    decreases list.len(),
{
    reveal(Seq::filter);
    if list.len() > 0 {
        let shorter = list.drop_last();
        assert forall|i: int| 0 <= i < shorter.len() implies (#[trigger] shorter[i]).is_live() by {
            assert(list[i].is_live());
        }
        lemma_all_live_are_kept(shorter);
        assert(list[list.len() - 1].is_live());
        assert(shorter.push(list.last()) =~= list);
    } else {
        assert(crate::manifest::live_manifests(list) =~= list);
    }
}

/// The manifests that a snapshot takes over are those of the current one with a
/// live file: every such manifest is there, and no other. To take over twice is
/// to take over once, and the order stays.
pub proof fn law_live_manifests_are_taken_over(
    list: Seq<ManifestFile>,
    more: Seq<ManifestFile>,
    manifest: ManifestFile,
)
    ensures
        crate::manifest::live_manifests(list).contains(manifest) <==> list.contains(manifest)
            && manifest.is_live(),
        crate::manifest::live_manifests(crate::manifest::live_manifests(list))
            == crate::manifest::live_manifests(list),
        crate::manifest::live_manifests(list + more) == crate::manifest::live_manifests(list)
            + crate::manifest::live_manifests(more),
{
    let live = |m: ManifestFile| m.is_live();
    let kept = list.filter(live);
    assert(kept == crate::manifest::live_manifests(list));
    if list.contains(manifest) && manifest.is_live() {
        let i = choose|i: int| 0 <= i < list.len() && list[i] == manifest;
        list.lemma_filter_contains(live, i);
    }
    if kept.contains(manifest) {
        list.lemma_filter_contains_rev(live, manifest);
        let i = choose|i: int| 0 <= i < kept.len() && kept[i] == manifest;
        list.lemma_filter_pred(live, i);
    }
    assert forall|i: int| 0 <= i < kept.len() implies (#[trigger] kept[i]).is_live() by {
        list.lemma_filter_pred(live, i);
    }
    lemma_all_live_are_kept(kept);
    Seq::filter_distributes_over_add(list, more, live);
}

/// The first commit to a table takes nothing over, and goes through whatever was
/// read. A later one fails exactly if the manifest list could not be read, and
/// with that error.
pub proof fn law_reading_decides_later_commits_only(
    producer: SnapshotProducerView,
    operation: RowDeltaOperation,
    loaded: Result<Vec<ManifestFile>, Error>,
    snapshot_id: i64,
)
    ensures
        ({
            let outcome = producer.commit(operation, loaded, snapshot_id);
            &&& producer.table.current_snapshot_id is None ==> outcome is Ok
                && outcome->Ok_0.existing_manifests.len() == 0
            &&& producer.table.current_snapshot_id is Some ==> match loaded {
                Ok(list) => outcome is Ok && outcome->Ok_0.existing_manifests
                    == crate::manifest::live_manifests(list@),
                Err(error) => outcome == Err::<SnapshotCommitView, ErrorView>(error@),
            }
        }),
{
}

/// What a commit records, the next one takes over: the manifest list of a new
/// snapshot, made of the manifests taken over and the records of those written,
/// holds live manifests alone.
pub proof fn law_next_commit_takes_everything_over(
    producer: SnapshotProducerView,
    operation: RowDeltaOperation,
    loaded: Result<Vec<ManifestFile>, Error>,
    snapshot_id: i64,
    paths: Seq<String>,
)
    requires
        producer.commit(operation, loaded, snapshot_id) is Ok,
        paths.len() == producer.new_manifests().len(),
    ensures
        ({
            let commit = producer.commit(operation, loaded, snapshot_id)->Ok_0;
            let written = Seq::new(
                paths.len(),
                |i: int| commit.new_manifests[i].recorded_at(paths[i]),
            );
            let list = commit.existing_manifests + written;
            crate::manifest::live_manifests(list) == list
        }),
{
    let commit = producer.commit(operation, loaded, snapshot_id)->Ok_0;
    let written = Seq::new(paths.len(), |i: int| commit.new_manifests[i].recorded_at(paths[i]));
    let list = commit.existing_manifests + written;
    law_manifests_list_the_added_files(producer);
    assert forall|i: int| 0 <= i < list.len() implies (#[trigger] list[i]).is_live() by {
        let n = commit.existing_manifests.len();
        if i < n {
            let before = loaded->Ok_0@;
            before.lemma_filter_pred(|m: ManifestFile| m.is_live(), i);
        } else {
            let manifest = commit.new_manifests[i - n];
            assert(manifest.entries[0].status == ManifestStatus::Added);
            assert(manifest.has_status(ManifestStatus::Added));
        }
    }
    lemma_all_live_are_kept(list);
}

/// A row delta marks no entry of an earlier manifest as deleted.
pub proof fn law_no_entry_is_deleted(
    producer: SnapshotProducerView,
    operation: RowDeltaOperation,
    loaded: Result<Vec<ManifestFile>, Error>,
    snapshot_id: i64,
)
    requires
        producer.commit(operation, loaded, snapshot_id) is Ok,
    ensures
        producer.commit(operation, loaded, snapshot_id)->Ok_0.deleted_entries.len() == 0,
{
}

/// A commit adds its snapshot and moves the main branch to it, in that order and
/// nothing else. It requires that the table is the one it was made for and that
/// the main branch has not moved since.
pub proof fn law_main_branch_moves_to_the_new_snapshot(
    producer: SnapshotProducerView,
    operation: RowDeltaOperation,
    loaded: Result<Vec<ManifestFile>, Error>,
    snapshot_id: i64,
)
    requires
        producer.commit(operation, loaded, snapshot_id) is Ok,
    ensures
        ({
            let changes = producer.commit(operation, loaded, snapshot_id)->Ok_0.action_commit;
            &&& changes.updates.len() == 2
            &&& changes.updates[0] matches TableUpdateView::AddSnapshot { snapshot }
            &&& snapshot.snapshot_id == snapshot_id
            &&& changes.updates[1] matches TableUpdateView::SetSnapshotRef { ref_name, reference }
            &&& ref_name == crate::snapshot::MAIN_BRANCH@
            &&& reference.snapshot_id == snapshot.snapshot_id
            &&& changes.requirements == seq![
                TableRequirementView::UuidMatch { uuid: producer.table.uuid },
                TableRequirementView::RefSnapshotIdMatch {
                    ref_name: crate::snapshot::MAIN_BRANCH@,
                    snapshot_id: producer.table.current_snapshot_id,
                },
            ]
        }),
{
}

/// The keys under which files are counted differ.
proof fn lemma_count_keys_differ()
    ensures
        crate::summary::ADDED_DATA_FILES@ != crate::summary::ADDED_DELETE_FILES@,
        crate::summary::ADDED_DATA_FILES@ != crate::summary::ADDED_EQUALITY_DELETE_FILES@,
        crate::summary::ADDED_DATA_FILES@ != crate::summary::ADDED_POSITION_DELETE_FILES@,
        crate::summary::ADDED_DELETE_FILES@ != crate::summary::ADDED_EQUALITY_DELETE_FILES@,
        crate::summary::ADDED_DELETE_FILES@ != crate::summary::ADDED_POSITION_DELETE_FILES@,
        crate::summary::ADDED_EQUALITY_DELETE_FILES@
            != crate::summary::ADDED_POSITION_DELETE_FILES@,
{
    reveal_strlit("added-data-files");
    reveal_strlit("added-delete-files");
    reveal_strlit("added-equality-delete-files");
    reveal_strlit("added-position-delete-files");
    assert(crate::summary::ADDED_DATA_FILES@.len() == 16);
    assert(crate::summary::ADDED_DELETE_FILES@.len() == 18);
    assert(crate::summary::ADDED_EQUALITY_DELETE_FILES@.len() == 27);
    assert(crate::summary::ADDED_POSITION_DELETE_FILES@.len() == 27);
    assert(crate::summary::ADDED_EQUALITY_DELETE_FILES@[6] == 'e');
    assert(crate::summary::ADDED_POSITION_DELETE_FILES@[6] == 'p');
}

/// The properties that the caller set all stand in the summary as they were set.
/// Beside them stand only the counts of added files.
pub proof fn law_set_properties_reach_the_summary(
    producer: SnapshotProducerView,
    key: Seq<char>,
)
    ensures
        producer.snapshot_properties.contains_key(key) ==> {
            &&& producer.summary_properties().contains_key(key)
            &&& producer.summary_properties()[key] == producer.snapshot_properties[key]
        },
        producer.summary_properties().contains_key(key)
            && !producer.snapshot_properties.contains_key(key) ==> {
            ||| key == crate::summary::ADDED_DATA_FILES@
            ||| key == crate::summary::ADDED_DELETE_FILES@
            ||| key == crate::summary::ADDED_EQUALITY_DELETE_FILES@
            ||| key == crate::summary::ADDED_POSITION_DELETE_FILES@
        },
{
}

/// The summary records a count under a key, or leaves the key out if the count is
/// zero.
pub open spec fn records_count(
    properties: Map<Seq<char>, Seq<char>>,
    key: Seq<char>,
    count: nat,
) -> bool {
    &&& properties.contains_key(key) <==> count > 0
    &&& count > 0 ==> properties[key] == crate::summary::decimal(count)
}

/// The summary counts the added files: the data files, the delete files, and
/// those of each kind among them. A key that the caller set holds what the caller
/// set instead.
pub proof fn law_summary_counts_the_added_files(producer: SnapshotProducerView)
    ensures
        ({
            let set = producer.snapshot_properties;
            let summary = producer.summary_properties();
            let deletes = producer.added_delete_files;
            &&& !set.contains_key(crate::summary::ADDED_DATA_FILES@) ==> records_count(
                summary,
                crate::summary::ADDED_DATA_FILES@,
                producer.added_data_files.len(),
            )
            &&& !set.contains_key(crate::summary::ADDED_DELETE_FILES@) ==> records_count(
                summary,
                crate::summary::ADDED_DELETE_FILES@,
                deletes.len(),
            )
            &&& !set.contains_key(crate::summary::ADDED_EQUALITY_DELETE_FILES@) ==> records_count(
                summary,
                crate::summary::ADDED_EQUALITY_DELETE_FILES@,
                crate::files::count_content(deletes, DataContentType::EqualityDeletes),
            )
            &&& !set.contains_key(crate::summary::ADDED_POSITION_DELETE_FILES@) ==> records_count(
                summary,
                crate::summary::ADDED_POSITION_DELETE_FILES@,
                crate::files::count_content(deletes, DataContentType::PositionDeletes),
            )
        }),
{
    lemma_count_keys_differ();
}

/// The delete files of an action that is taken are its equality delete files and
/// its position delete files, counted together.
pub proof fn law_delete_counts_add_up(
    action: RowDeltaActionView,
    table: Table,
    checks: TableChecks,
)
    requires
        action.refusal(table, checks) is None,
    ensures
        action.added_delete_files.len() == crate::files::count_content(
            action.added_delete_files,
            DataContentType::EqualityDeletes,
        ) + crate::files::count_content(
            action.added_delete_files,
            DataContentType::PositionDeletes,
        ),
{
    lemma_deletes_split(action.added_delete_files);
}

/// Files with deletions are of one kind or the other.
proof fn lemma_deletes_split(files: Seq<DataFileView>)
    requires
        crate::producer::all_deletes(files),
    ensures
        files.len() == crate::files::count_content(files, DataContentType::EqualityDeletes)
            + crate::files::count_content(files, DataContentType::PositionDeletes),
    decreases files.len(),
{
    reveal(Seq::filter);
    if files.len() > 0 {
        let shorter = files.drop_last();
        assert forall|i: int| 0 <= i < shorter.len() implies (#[trigger] shorter[i]).content
            != DataContentType::Data by {
            assert(files[i].content != DataContentType::Data);
        }
        lemma_deletes_split(shorter);
        assert(files[files.len() - 1].content != DataContentType::Data);
    }
}

/// The commit identifier only names the commit: the same action under another one
/// makes the same snapshot of the same manifests.
pub proof fn law_identifier_only_names(
    action: RowDeltaActionView,
    table: Table,
    commit_uuid: Uuid,
    other_uuid: Uuid,
    loaded: Result<Vec<ManifestFile>, Error>,
    snapshot_id: i64,
)
    requires
        action.producer(table, commit_uuid).commit(action.operation(), loaded, snapshot_id) is Ok,
    ensures
        ({
            let commit = action.producer(table, commit_uuid).commit(
                action.operation(),
                loaded,
                snapshot_id,
            )->Ok_0;
            let renamed = SnapshotCommitView { commit_uuid: other_uuid, ..commit };
            &&& commit.commit_uuid == commit_uuid
            &&& action.producer(table, other_uuid).commit(action.operation(), loaded, snapshot_id)
                == Ok::<SnapshotCommitView, ErrorView>(renamed)
        }),
{
}

} // verus!
