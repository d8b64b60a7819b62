use row_delta::action::{PendingCommit, RowDeltaAction, TableChecks};
use row_delta::error::{Error, ErrorKind};
use row_delta::files::{DataContentType, DataFile, DataFileFormat, Literal};
use row_delta::manifest::{ManifestContentType, ManifestFile, ManifestStatus};
use row_delta::operation::RowDeltaOperation;
use row_delta::producer::SnapshotCommit;
use row_delta::properties::Properties;
use row_delta::snapshot::{TableRequirement, TableUpdate, MAIN_BRANCH};
use row_delta::summary::{decimal_text, Operation};
use row_delta::table::{FormatVersion, Table};
use row_delta::uuids::fresh_commit_uuid;
use uuid::{Uuid, Variant};

fn table(format_version: FormatVersion, current_snapshot_id: Option<i64>) -> Table {
    Table {
        uuid: Uuid::from_u128(0x5ca1ab1e),
        format_version,
        current_snapshot_id,
    }
}

fn file(content: DataContentType, path: &str) -> DataFile {
    DataFile {
        content,
        file_path: path.to_string(),
        file_format: DataFileFormat::Parquet,
        file_size_in_bytes: 10,
        record_count: 4,
        partition_spec_id: 2,
        partition: vec![Some(Literal::String("eu".to_string())), None],
        equality_ids: None,
    }
}

fn data(path: &str) -> DataFile {
    file(DataContentType::Data, path)
}

fn equality(path: &str) -> DataFile {
    file(DataContentType::EqualityDeletes, path)
}

fn position(path: &str) -> DataFile {
    file(DataContentType::PositionDeletes, path)
}

fn no_objection() -> TableChecks {
    TableChecks {
        data_files: Ok(()),
        delete_files: Ok(()),
    }
}

fn objections() -> TableChecks {
    TableChecks {
        data_files: Err(Error::new(ErrorKind::DataInvalid, "data partition")),
        delete_files: Err(Error::new(ErrorKind::DataInvalid, "delete partition")),
    }
}

fn refused(outcome: Result<PendingCommit, Error>) -> (ErrorKind, String) {
    match outcome {
        Ok(_) => panic!("expected a refusal"),
        Err(error) => (error.kind(), error.message().to_string()),
    }
}

fn accepted(outcome: Result<PendingCommit, Error>) -> PendingCommit {
    match outcome {
        Ok(pending) => pending,
        Err(error) => panic!("{}", error.message()),
    }
}

fn first_commit(action: &RowDeltaAction) -> SnapshotCommit {
    let pending = accepted(action.commit(&table(FormatVersion::V2, None), no_objection()));
    pending
        .producer
        .commit(&pending.operation, Ok(vec![]), 7)
        .unwrap()
}

fn paths(commit: &SnapshotCommit) -> Vec<Vec<&str>> {
    commit
        .new_manifests
        .iter()
        .map(|m| {
            m.entries
                .iter()
                .map(|e| e.data_file.file_path.as_str())
                .collect()
        })
        .collect()
}

fn record(path: &str, has_added_files: bool, has_existing_files: bool) -> ManifestFile {
    ManifestFile {
        manifest_path: path.to_string(),
        content: ManifestContentType::Data,
        has_added_files,
        has_existing_files,
    }
}

#[test]
fn empty_action_is_refused_everywhere() {
    for version in [FormatVersion::V1, FormatVersion::V2, FormatVersion::V3] {
        let answer = refused(RowDeltaAction::new().commit(&table(version, Some(1)), objections()));
        assert_eq!(
            (
                ErrorKind::DataInvalid,
                "Row delta requires at least one data file or delete file".to_string()
            ),
            answer
        );
    }
}

#[test]
fn adding_empty_lists_adds_nothing() {
    let action = RowDeltaAction::new()
        .add_data_files(vec![])
        .add_delete_files(vec![]);
    let answer = refused(action.commit(&table(FormatVersion::V2, None), no_objection()));
    assert_eq!(ErrorKind::DataInvalid, answer.0);
}

#[test]
fn first_format_refuses_delete_files_before_looking_at_them() {
    let action = RowDeltaAction::new()
        .add_data_files(vec![equality("a")])
        .add_delete_files(vec![data("b")]);
    let answer = refused(action.commit(&table(FormatVersion::V1, None), objections()));
    assert_eq!(
        (
            ErrorKind::FeatureUnsupported,
            "Delete files are not supported in format version 1".to_string()
        ),
        answer
    );
}

#[test]
fn data_files_alone_fit_every_format() {
    for version in [FormatVersion::V1, FormatVersion::V2, FormatVersion::V3] {
        let action = RowDeltaAction::new().add_data_files(vec![data("a")]);
        let pending = accepted(action.commit(&table(version, None), no_objection()));
        assert_eq!(Operation::Overwrite, pending.operation.operation());
    }
}

#[test]
fn third_format_takes_delete_files() {
    let action = RowDeltaAction::new().add_delete_files(vec![position("a")]);
    let pending = accepted(action.commit(&table(FormatVersion::V3, None), no_objection()));
    assert_eq!(Operation::Delete, pending.operation.operation());
}

#[test]
fn data_files_are_checked_before_delete_files() {
    let action = RowDeltaAction::new()
        .add_data_files(vec![data("a"), position("b")])
        .add_delete_files(vec![data("c")]);
    let answer = refused(action.commit(&table(FormatVersion::V2, None), no_objection()));
    assert_eq!(
        (
            ErrorKind::DataInvalid,
            "Only files with data content can be added as data files".to_string()
        ),
        answer
    );
}

#[test]
fn one_data_file_among_delete_files_is_refused() {
    let action = RowDeltaAction::new().add_delete_files(vec![equality("a"), data("b")]);
    let answer = refused(action.commit(&table(FormatVersion::V2, None), no_objection()));
    assert_eq!(
        (
            ErrorKind::DataInvalid,
            "Files with data content cannot be added as delete files".to_string()
        ),
        answer
    );
}

#[test]
fn objections_of_the_table_are_handed_on() {
    let v2 = table(FormatVersion::V2, None);
    let both = RowDeltaAction::new()
        .add_data_files(vec![data("a")])
        .add_delete_files(vec![equality("b")]);
    assert_eq!("data partition", refused(both.commit(&v2, objections())).1);
    let deletes = RowDeltaAction::new().add_delete_files(vec![equality("b")]);
    assert_eq!(
        "delete partition",
        refused(deletes.commit(&v2, objections())).1
    );
}

#[test]
fn objections_to_absent_files_do_not_count() {
    let v2 = table(FormatVersion::V2, None);
    let mut checks = objections();
    checks.delete_files = Ok(());
    accepted(
        RowDeltaAction::new()
            .add_delete_files(vec![equality("b")])
            .commit(&v2, checks),
    );
    let mut checks = objections();
    checks.data_files = Ok(());
    accepted(
        RowDeltaAction::new()
            .add_data_files(vec![data("a")])
            .commit(&v2, checks),
    );
}

#[test]
fn set_identifier_names_the_commit() {
    let id = Uuid::from_u128(0x0102_0304);
    let action = RowDeltaAction::new()
        .add_data_files(vec![data("a")])
        .set_commit_uuid(Uuid::nil())
        .set_commit_uuid(id);
    assert_eq!(id, first_commit(&action).commit_uuid);
}

#[test]
fn unset_identifier_is_a_fresh_version_7() {
    let action = RowDeltaAction::new().add_data_files(vec![data("a")]);
    let first = first_commit(&action).commit_uuid;
    let second = first_commit(&action).commit_uuid;
    assert_eq!(7, first.get_version_num());
    assert_eq!(Variant::RFC4122, first.get_variant());
    assert_eq!(7, second.get_version_num());
    assert_ne!(first, second);
}

#[test]
fn fresh_identifiers_have_the_version_and_variant_bits() {
    let bits = fresh_commit_uuid().as_u128();
    assert_eq!(7, (bits >> 76) & 0xf);
    assert_eq!(2, (bits >> 62) & 0x3);
}

#[test]
fn fresh_identifiers_follow_the_clock() {
    let first = fresh_commit_uuid();
    let second = fresh_commit_uuid();
    assert!(first < second);
}

#[test]
fn another_identifier_changes_nothing_else() {
    let v2 = table(FormatVersion::V2, None);
    let action = RowDeltaAction::new().add_delete_files(vec![equality("a"), position("b")]);
    let mut commits = Vec::new();
    for id in [Uuid::from_u128(1), Uuid::from_u128(2)] {
        let pending = accepted(action.commit_as(&v2, id, no_objection()));
        let commit = pending
            .producer
            .commit(&pending.operation, Ok(vec![]), 7)
            .unwrap();
        assert_eq!(id, commit.commit_uuid);
        commits.push(commit);
    }
    assert_eq!(commits[0].new_manifests, commits[1].new_manifests);
    assert_eq!(commits[0].existing_manifests, commits[1].existing_manifests);
    assert_eq!(
        commits[0].action_commit.requirements,
        commits[1].action_commit.requirements
    );
}

#[test]
fn files_accumulate_in_order() {
    let in_steps = RowDeltaAction::new()
        .add_data_files(vec![data("a")])
        .add_delete_files(vec![equality("x"), position("y")])
        .add_data_files(vec![data("b"), data("c")]);
    let expected = vec![vec!["a", "b", "c"], vec!["x", "y"]];
    assert_eq!(expected, paths(&first_commit(&in_steps)));
    let at_once = RowDeltaAction::new()
        .add_delete_files(vec![equality("x"), position("y")])
        .add_data_files(vec![data("a"), data("b"), data("c")]);
    assert_eq!(expected, paths(&first_commit(&at_once)));
    assert_eq!(3, at_once.added_data_files().len());
    assert_eq!(2, at_once.added_delete_files().len());
}

#[test]
fn copied_files_keep_every_field() {
    let mut added = equality("x");
    added.equality_ids = Some(vec![3, 5]);
    added.partition = vec![
        Some(Literal::Boolean(true)),
        Some(Literal::Int(-4)),
        Some(Literal::Long(300)),
        None,
    ];
    let commit = first_commit(&RowDeltaAction::new().add_delete_files(vec![added.clone()]));
    assert_eq!(added, commit.new_manifests[0].entries[0].data_file);
}

#[test]
fn new_entries_are_added_and_none_is_deleted() {
    let commit = first_commit(
        &RowDeltaAction::new()
            .add_data_files(vec![data("a")])
            .add_delete_files(vec![equality("b")]),
    );
    assert!(commit
        .new_manifests
        .iter()
        .all(|m| m.entries.iter().all(|e| e.status == ManifestStatus::Added)));
    assert!(commit.deleted_entries.is_empty());
}

#[test]
fn key_metadata_reaches_every_manifest() {
    let commit = first_commit(
        &RowDeltaAction::new()
            .set_key_metadata(vec![9])
            .set_key_metadata(vec![1, 2, 3])
            .add_data_files(vec![data("a")])
            .add_delete_files(vec![equality("b")]),
    );
    assert_eq!(2, commit.new_manifests.len());
    for manifest in &commit.new_manifests {
        assert_eq!(Some(vec![1, 2, 3]), manifest.key_metadata);
    }
    let plain = first_commit(&RowDeltaAction::new().add_data_files(vec![data("a")]));
    assert_eq!(None, plain.new_manifests[0].key_metadata);
}

#[test]
fn operation_depends_on_data_files_alone() {
    assert_eq!(
        Operation::Overwrite,
        RowDeltaOperation {
            has_data_files: true
        }
        .operation()
    );
    assert_eq!(
        Operation::Delete,
        RowDeltaOperation {
            has_data_files: false
        }
        .operation()
    );
}

#[test]
fn live_manifests_are_taken_over_in_order() {
    let action = RowDeltaAction::new().add_data_files(vec![data("a")]);
    let pending = accepted(action.commit(&table(FormatVersion::V2, Some(6)), no_objection()));
    let loaded = vec![
        record("m0", true, false),
        record("m1", false, false),
        record("m2", false, true),
        record("m3", true, true),
    ];
    let commit = pending
        .producer
        .commit(&pending.operation, Ok(loaded), 7)
        .unwrap();
    assert_eq!(
        vec![
            record("m0", true, false),
            record("m2", false, true),
            record("m3", true, true),
        ],
        commit.existing_manifests
    );
    assert_eq!(
        TableRequirement::RefSnapshotIdMatch {
            ref_name: MAIN_BRANCH.to_string(),
            snapshot_id: Some(6)
        },
        commit.action_commit.requirements[1]
    );
}

#[test]
fn first_commit_takes_nothing_over_and_needs_no_reading() {
    let action = RowDeltaAction::new().add_data_files(vec![data("a")]);
    let pending = accepted(action.commit(&table(FormatVersion::V2, None), no_objection()));
    let unread = Err(Error::new(ErrorKind::Unexpected, "not read"));
    let commit = pending
        .producer
        .commit(&pending.operation, unread, 7)
        .unwrap();
    assert!(commit.existing_manifests.is_empty());
    let commit = pending
        .producer
        .commit(
            &pending.operation,
            Ok(vec![record("m0", true, false)]),
            7,
        )
        .unwrap();
    assert!(commit.existing_manifests.is_empty());
}

#[test]
fn failed_reading_fails_the_commit() {
    let action = RowDeltaAction::new().add_data_files(vec![data("a")]);
    let pending = accepted(action.commit(&table(FormatVersion::V2, Some(6)), no_objection()));
    let failed = Err(Error::new(ErrorKind::Unexpected, "no such file"));
    let error = pending
        .producer
        .commit(&pending.operation, failed, 7)
        .unwrap_err();
    assert_eq!(Error::new(ErrorKind::Unexpected, "no such file"), error);
}

#[test]
fn next_commit_takes_everything_over() {
    let first = first_commit(
        &RowDeltaAction::new()
            .add_data_files(vec![data("a")])
            .add_delete_files(vec![equality("b")]),
    );
    let written = first
        .new_manifests
        .iter()
        .map(|m| m.recorded_at(format!("{:?}", m.content)))
        .collect();
    let list = first.manifest_list(written);
    assert_eq!(2, list.len());
    let action = RowDeltaAction::new().add_delete_files(vec![position("c")]);
    let pending = accepted(action.commit(&table(FormatVersion::V2, Some(7)), no_objection()));
    let second = pending
        .producer
        .commit(&pending.operation, Ok(list.clone()), 8)
        .unwrap();
    assert_eq!(list, second.existing_manifests);
    let longer = second.manifest_list(vec![second.new_manifests[0].recorded_at("c".to_string())]);
    assert_eq!(3, longer.len());
    assert_eq!("c", longer[2].manifest_path);
}

#[test]
fn summary_counts_each_kind() {
    let deletes = vec![
        equality("d0"),
        position("d1"),
        position("d2"),
        equality("d3"),
        position("d4"),
    ];
    let files = (0..12).map(|i| data(&format!("f{i}"))).collect();
    let mut commit = first_commit(
        &RowDeltaAction::new()
            .add_data_files(files)
            .add_delete_files(deletes),
    );
    let updates = commit.action_commit.take_updates();
    assert!(commit.action_commit.updates.is_empty());
    assert_eq!(2, updates.len());
    let TableUpdate::AddSnapshot { snapshot } = &updates[0] else {
        unreachable!()
    };
    let properties = &snapshot.summary.additional_properties;
    assert_eq!(Some(&"12".to_string()), properties.get("added-data-files"));
    assert_eq!(Some(&"5".to_string()), properties.get("added-delete-files"));
    assert_eq!(
        Some(&"2".to_string()),
        properties.get("added-equality-delete-files")
    );
    assert_eq!(
        Some(&"3".to_string()),
        properties.get("added-position-delete-files")
    );
}

#[test]
fn summary_leaves_out_zero_counts_and_prefers_set_properties() {
    let mut properties = Properties::new();
    properties.insert("added-delete-files".to_string(), "mine".to_string());
    properties.insert("owner".to_string(), "me".to_string());
    let mut earlier = Properties::new();
    earlier.insert("forgotten".to_string(), "yes".to_string());
    let mut commit = first_commit(
        &RowDeltaAction::new()
            .add_delete_files(vec![position("a")])
            .set_snapshot_properties(earlier)
            .set_snapshot_properties(properties),
    );
    let updates = commit.action_commit.take_updates();
    let TableUpdate::AddSnapshot { snapshot } = &updates[0] else {
        unreachable!()
    };
    let properties = &snapshot.summary.additional_properties;
    assert_eq!(None, properties.get("added-data-files"));
    assert_eq!(None, properties.get("added-equality-delete-files"));
    assert_eq!(None, properties.get("forgotten"));
    assert_eq!(
        Some(&"mine".to_string()),
        properties.get("added-delete-files")
    );
    assert_eq!(Some(&"me".to_string()), properties.get("owner"));
    assert_eq!(
        Some(&"1".to_string()),
        properties.get("added-position-delete-files")
    );
}

#[test]
fn properties_behave_like_a_map() {
    let mut left = Properties::new();
    assert_eq!(None, left.get(""));
    left.insert("a".to_string(), "1".to_string());
    left.insert("b".to_string(), "2".to_string());
    left.insert("a".to_string(), "3".to_string());
    let mut right = Properties::new();
    right.insert("b".to_string(), "4".to_string());
    right.insert("c".to_string(), "5".to_string());
    let copy = left.clone();
    left.extend(&right);
    assert_eq!(Some(&"3".to_string()), left.get("a"));
    assert_eq!(Some(&"4".to_string()), left.get("b"));
    assert_eq!(Some(&"5".to_string()), left.get("c"));
    assert_eq!(None, left.get("d"));
    assert_eq!(Some(&"2".to_string()), copy.get("b"));
    assert_eq!(None, copy.get("c"));
}

#[test]
fn decimal_notation() {
    for n in [0, 7, 10, 99, 100, 1234567890, usize::MAX] {
        assert_eq!(n.to_string(), decimal_text(n));
    }
}
