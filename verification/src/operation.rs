//! What a row delta does to the state it starts from.

use crate::error::{Error, ErrorView};
use crate::manifest::{retain_live, ManifestEntry, ManifestFile};
use crate::producer::SnapshotProducer;
use crate::summary::Operation;
use vstd::prelude::*;

verus! {

/// The operation of a row delta.
#[derive(Clone, Copy, Debug, PartialEq, Eq, Structural)]
pub struct RowDeltaOperation {
    /// Whether the delta adds data files.
    pub has_data_files: bool,
}

/// The operation under which a row delta is recorded.
pub open spec fn row_delta_operation(has_data_files: bool) -> Operation {
    if has_data_files {
        Operation::Overwrite
    } else {
        Operation::Delete
    }
}

/// The manifests that a new snapshot takes over from the current one: none where
/// there is no current snapshot, else the live ones of its manifest list.
pub open spec fn carried_manifests(
    current_snapshot_id: Option<i64>,
    loaded: Result<Vec<ManifestFile>, Error>,
) -> Result<Seq<ManifestFile>, ErrorView> {
    match (current_snapshot_id, loaded) {
        (None, _) => Ok(Seq::empty()),
        (Some(_), Ok(list)) => Ok(crate::manifest::live_manifests(list@)),
        (Some(_), Err(error)) => Err(error@),
    }
}

impl RowDeltaOperation {
    /// `Overwrite` where data files are added, `Delete` where only delete files
    /// are.
    pub fn operation(&self) -> (operation: Operation)
        ensures
            operation == row_delta_operation(self.has_data_files),
    {
        if self.has_data_files {
            Operation::Overwrite
        } else {
            Operation::Delete
        }
    }

    /// The entries that the delta marks as deleted: none. It removes rows by the
    /// delete files it adds.
    pub fn delete_entries(&self, _snapshot_produce: &SnapshotProducer) -> (entries: Result<
        Vec<ManifestEntry>,
        Error,
    >)
        ensures
            entries matches Ok(entries) && entries@ == Seq::<ManifestEntry>::empty(),
    {
        Ok(Vec::new())
    }

    /// The manifests, of data and of deletes, that the new snapshot takes over.
    ///
    /// `loaded` is what reading the manifest list of the current snapshot gave.
    /// It is not looked at where there is no current snapshot.
    pub fn existing_manifest(
        &self,
        snapshot_produce: &SnapshotProducer,
        loaded: Result<Vec<ManifestFile>, Error>,
    ) -> (manifests: Result<Vec<ManifestFile>, Error>)
        ensures
            match manifests {
                Ok(list) => carried_manifests(
                    snapshot_produce@.table.current_snapshot_id,
                    loaded,
                ) == Ok::<Seq<ManifestFile>, ErrorView>(list@),
                Err(error) => carried_manifests(
                    snapshot_produce@.table.current_snapshot_id,
                    loaded,
                ) == Err::<Seq<ManifestFile>, ErrorView>(error@),
            },
    {
        if snapshot_produce.table().current_snapshot_id.is_none() {
            return Ok(Vec::new());
        }
        match loaded {
            Ok(list) => Ok(retain_live(&list)),
            Err(error) => Err(error),
        }
    }
}

} // verus!
