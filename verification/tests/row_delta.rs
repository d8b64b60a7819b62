use row_delta::action::{RowDeltaAction, TableChecks};
use row_delta::error::{Error, ErrorKind};
use row_delta::files::{DataContentType, DataFile, DataFileFormat, Literal};
use row_delta::manifest::{Manifest, ManifestContentType, ManifestFile};
use row_delta::producer::SnapshotCommit;
use row_delta::properties::Properties;
use row_delta::snapshot::{Snapshot, TableRequirement, TableUpdate, MAIN_BRANCH};
use row_delta::summary::Operation;
use row_delta::table::{FormatVersion, Table};
use uuid::Uuid;

const SNAPSHOT_ID: i64 = 3051729675574597004;

fn make_table(format_version: FormatVersion) -> Table {
    Table {
        uuid: Uuid::from_u128(0x9c12d441_03fe_4693_9a96_a0705ddf69c1),
        format_version,
        current_snapshot_id: None,
    }
}

fn make_v1_table() -> Table {
    make_table(FormatVersion::V1)
}

fn make_v2_minimal_table() -> Table {
    make_table(FormatVersion::V2)
}

fn make_data_file(path: &str) -> DataFile {
    DataFile {
        content: DataContentType::Data,
        file_path: path.to_string(),
        file_format: DataFileFormat::Parquet,
        file_size_in_bytes: 100,
        record_count: 1,
        partition_spec_id: 0,
        partition: vec![Some(Literal::Long(300))],
        equality_ids: None,
    }
}

fn make_equality_delete_file(path: &str) -> DataFile {
    DataFile {
        content: DataContentType::EqualityDeletes,
        file_path: path.to_string(),
        file_format: DataFileFormat::Parquet,
        file_size_in_bytes: 50,
        record_count: 2,
        partition_spec_id: 0,
        partition: vec![Some(Literal::Long(300))],
        equality_ids: Some(vec![1]),
    }
}

fn make_position_delete_file(path: &str) -> DataFile {
    DataFile {
        content: DataContentType::PositionDeletes,
        file_path: path.to_string(),
        file_format: DataFileFormat::Parquet,
        file_size_in_bytes: 50,
        record_count: 3,
        partition_spec_id: 0,
        partition: vec![Some(Literal::Long(300))],
        equality_ids: None,
    }
}

fn no_objection() -> TableChecks {
    TableChecks {
        data_files: Ok(()),
        delete_files: Ok(()),
    }
}

/// Commits to a table without a current snapshot.
fn commit(action: &RowDeltaAction, table: &Table) -> Result<SnapshotCommit, Error> {
    let pending = action.commit(table, no_objection())?;
    pending
        .producer
        .commit(&pending.operation, Ok(vec![]), SNAPSHOT_ID)
}

fn added_snapshot(updates: &[TableUpdate]) -> &Snapshot {
    if let TableUpdate::AddSnapshot { snapshot } = &updates[0] {
        snapshot
    } else {
        unreachable!()
    }
}

/// The manifest list of the commit's snapshot, its new manifests written.
fn manifest_list(commit: &SnapshotCommit) -> Vec<ManifestFile> {
    let written = commit
        .new_manifests
        .iter()
        .enumerate()
        .map(|(i, manifest)| manifest.recorded_at(format!("metadata/{i}.avro")))
        .collect();
    commit.manifest_list(written)
}

/// The new manifest behind a record of the manifest list.
fn load_manifest<'a>(commit: &'a SnapshotCommit, record: &ManifestFile) -> &'a Manifest {
    let found: Vec<&Manifest> = commit
        .new_manifests
        .iter()
        .filter(|manifest| manifest.content == record.content)
        .collect();
    assert_eq!(1, found.len());
    found[0]
}

#[test]
fn test_row_delta_empty_files() {
    let table = make_v2_minimal_table();
    let action = RowDeltaAction::new();
    assert!(commit(&action, &table).is_err());
}

#[test]
fn test_row_delta_delete_only() {
    let table = make_v2_minimal_table();

    let delete_file = make_equality_delete_file("test/eq-del-1.parquet");
    let action = RowDeltaAction::new().add_delete_files(vec![delete_file.clone()]);

    let mut snapshot_commit = commit(&action, &table).unwrap();
    let updates = snapshot_commit.action_commit.take_updates();
    let requirements = snapshot_commit.action_commit.take_requirements();

    // Check updates structure
    assert!(matches!((&updates[0], &updates[1]),
            (TableUpdate::AddSnapshot { snapshot }, TableUpdate::SetSnapshotRef { reference, ref_name })
            if snapshot.snapshot_id == reference.snapshot_id && ref_name == MAIN_BRANCH));

    // Check operation is Delete when only delete files present
    assert_eq!(
        added_snapshot(&updates).summary.operation,
        Operation::Delete
    );

    // Check requirements
    assert_eq!(
        vec![
            TableRequirement::UuidMatch { uuid: table.uuid },
            TableRequirement::RefSnapshotIdMatch {
                ref_name: MAIN_BRANCH.to_string(),
                snapshot_id: table.current_snapshot_id
            }
        ],
        requirements
    );

    // Check manifest list: should have 1 manifest (the delete manifest)
    let manifest_list = manifest_list(&snapshot_commit);
    assert_eq!(1, manifest_list.len());

    // The manifest should be a delete manifest
    assert_eq!(manifest_list[0].content, ManifestContentType::Deletes);

    // Check manifest entries
    let manifest = load_manifest(&snapshot_commit, &manifest_list[0]);
    assert_eq!(1, manifest.entries.len());
    assert_eq!(delete_file, manifest.entries[0].data_file);
}

#[test]
fn test_row_delta_data_and_delete() {
    let table = make_v2_minimal_table();

    let data_file = make_data_file("test/data-1.parquet");
    let delete_file = make_equality_delete_file("test/eq-del-1.parquet");

    let action = RowDeltaAction::new()
        .add_data_files(vec![data_file.clone()])
        .add_delete_files(vec![delete_file.clone()]);

    let mut snapshot_commit = commit(&action, &table).unwrap();
    let updates = snapshot_commit.action_commit.take_updates();

    // Check operation is Overwrite when both data and delete files present
    assert_eq!(
        added_snapshot(&updates).summary.operation,
        Operation::Overwrite
    );

    // Check manifest list: should have 2 manifests (data + delete)
    let manifest_list = manifest_list(&snapshot_commit);
    assert_eq!(2, manifest_list.len());

    // Find the data manifest and delete manifest
    let data_manifests: Vec<_> = manifest_list
        .iter()
        .filter(|e| e.content == ManifestContentType::Data)
        .collect();
    let delete_manifests: Vec<_> = manifest_list
        .iter()
        .filter(|e| e.content == ManifestContentType::Deletes)
        .collect();
    assert_eq!(1, data_manifests.len());
    assert_eq!(1, delete_manifests.len());

    // Verify data manifest contents
    let data_manifest = load_manifest(&snapshot_commit, data_manifests[0]);
    assert_eq!(1, data_manifest.entries.len());
    assert_eq!(data_file, data_manifest.entries[0].data_file);

    // Verify delete manifest contents
    let delete_manifest = load_manifest(&snapshot_commit, delete_manifests[0]);
    assert_eq!(1, delete_manifest.entries.len());
    assert_eq!(delete_file, delete_manifest.entries[0].data_file);
}

#[test]
fn test_row_delta_position_delete() {
    let table = make_v2_minimal_table();

    let delete_file = make_position_delete_file("test/pos-del-1.parquet");
    let action = RowDeltaAction::new().add_delete_files(vec![delete_file.clone()]);

    let snapshot_commit = commit(&action, &table).unwrap();

    let manifest_list = manifest_list(&snapshot_commit);
    assert_eq!(1, manifest_list.len());
    assert_eq!(manifest_list[0].content, ManifestContentType::Deletes);

    let manifest = load_manifest(&snapshot_commit, &manifest_list[0]);
    assert_eq!(1, manifest.entries.len());
    assert_eq!(
        manifest.entries[0].data_file.content,
        DataContentType::PositionDeletes
    );
}

#[test]
fn test_row_delta_v1_rejects_delete_files() {
    let table = make_v1_table();

    // V1 should reject delete files
    let delete_file = DataFile {
        content: DataContentType::EqualityDeletes,
        file_path: "test/eq-del-1.parquet".to_string(),
        file_format: DataFileFormat::Parquet,
        file_size_in_bytes: 50,
        record_count: 1,
        partition: vec![],
        partition_spec_id: 0,
        equality_ids: Some(vec![1]),
    };
    let action = RowDeltaAction::new().add_delete_files(vec![delete_file]);
    let result = commit(&action, &table);
    assert!(result.is_err());
    let err = match result {
        Err(e) => e,
        Ok(_) => panic!("Expected error for V1 delete files"),
    };
    assert!(err.message().contains("not supported in format version 1"));
    assert_eq!(ErrorKind::FeatureUnsupported, err.kind());
}

#[test]
fn test_row_delta_rejects_data_content_in_delete_files() {
    let table = make_v2_minimal_table();

    // Try to add a data file as a delete file: should fail validation
    let bad_delete_file = make_data_file("test/not-a-delete.parquet");
    let action = RowDeltaAction::new().add_delete_files(vec![bad_delete_file]);
    let result = commit(&action, &table);
    assert!(result.is_err());
}

#[test]
fn test_row_delta_snapshot_properties() {
    let table = make_v2_minimal_table();

    let mut props = Properties::new();
    props.insert("custom-key".to_string(), "custom-value".to_string());

    let delete_file = make_equality_delete_file("test/eq-del-1.parquet");
    let action = RowDeltaAction::new()
        .add_delete_files(vec![delete_file])
        .set_snapshot_properties(props);

    let mut snapshot_commit = commit(&action, &table).unwrap();
    let updates = snapshot_commit.action_commit.take_updates();

    assert_eq!(
        added_snapshot(&updates)
            .summary
            .additional_properties
            .get("custom-key")
            .unwrap(),
        "custom-value"
    );
}

#[test]
fn test_row_delta_multiple_delete_files() {
    let table = make_v2_minimal_table();

    let eq_del = make_equality_delete_file("test/eq-del-1.parquet");
    let pos_del = make_position_delete_file("test/pos-del-1.parquet");

    let action = RowDeltaAction::new().add_delete_files(vec![eq_del.clone(), pos_del.clone()]);

    let snapshot_commit = commit(&action, &table).unwrap();

    let manifest_list = manifest_list(&snapshot_commit);
    assert_eq!(1, manifest_list.len());
    assert_eq!(manifest_list[0].content, ManifestContentType::Deletes);

    let manifest = load_manifest(&snapshot_commit, &manifest_list[0]);
    assert_eq!(2, manifest.entries.len());
    assert_eq!(eq_del, manifest.entries[0].data_file);
    assert_eq!(pos_del, manifest.entries[1].data_file);
}

#[test]
fn test_row_delta_summary_metrics() {
    let table = make_v2_minimal_table();

    let data_file = make_data_file("test/data-1.parquet");
    let eq_del = make_equality_delete_file("test/eq-del-1.parquet");

    let action = RowDeltaAction::new()
        .add_data_files(vec![data_file])
        .add_delete_files(vec![eq_del]);

    let mut snapshot_commit = commit(&action, &table).unwrap();
    let updates = snapshot_commit.action_commit.take_updates();

    let props = &added_snapshot(&updates).summary.additional_properties;

    // Should have added-data-files = 1
    assert_eq!(props.get("added-data-files").unwrap(), "1");
    // Should have added-equality-delete-files = 1
    assert_eq!(props.get("added-equality-delete-files").unwrap(), "1");
    // Should have added-delete-files = 1
    assert_eq!(props.get("added-delete-files").unwrap(), "1");
}
