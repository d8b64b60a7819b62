//! Manifests: lists of files, which a snapshot refers to.

use crate::files::{DataFile, DataFileView};
use vstd::prelude::*;

verus! {

/// What the files of a manifest hold.
#[derive(Clone, Copy, Debug, PartialEq, Eq, Structural)]
pub enum ManifestContentType {
    Data,
    Deletes,
}

/// How a snapshot stands to a file that it lists.
#[derive(Clone, Copy, Debug, PartialEq, Eq, Structural)]
pub enum ManifestStatus {
    /// An earlier snapshot added the file.
    Existing,
    /// The snapshot adds the file.
    Added,
    /// The snapshot takes the file out.
    Deleted,
}

/// A file's entry in a manifest.
#[derive(Debug, PartialEq, Eq)]
pub struct ManifestEntry {
    pub status: ManifestStatus,
    pub data_file: DataFile,
}

/// The mathematical content of a [`ManifestEntry`].
#[verifier::ext_equal]
pub struct ManifestEntryView {
    pub status: ManifestStatus,
    pub data_file: DataFileView,
}

impl View for ManifestEntry {
    type V = ManifestEntryView;

    open spec fn view(&self) -> ManifestEntryView {
        ManifestEntryView { status: self.status, data_file: self.data_file@ }
    }
}

/// The contents of a sequence of entries.
pub open spec fn entry_views(entries: Seq<ManifestEntry>) -> Seq<ManifestEntryView> {
    Seq::new(entries.len(), |i: int| entries[i]@)
}

/// A manifest list's record of a manifest.
#[derive(Debug, PartialEq, Eq)]
pub struct ManifestFile {
    pub manifest_path: String,
    pub content: ManifestContentType,
    /// Some entry of the manifest is [`ManifestStatus::Added`].
    pub has_added_files: bool,
    /// Some entry of the manifest is [`ManifestStatus::Existing`].
    pub has_existing_files: bool,
}

impl Clone for ManifestFile {
    fn clone(&self) -> (copy: Self)
        ensures
            copy == *self,
    {
        ManifestFile {
            manifest_path: self.manifest_path.clone(),
            content: self.content,
            has_added_files: self.has_added_files,
            has_existing_files: self.has_existing_files,
        }
    }
}

impl ManifestFile {
    /// The manifest lists at least one live file.
    pub open spec fn spec_is_live(&self) -> bool {
        self.has_added_files || self.has_existing_files
    }

    /// Whether the manifest lists at least one live file, one that its snapshot
    /// added or kept.
    #[verifier::when_used_as_spec(spec_is_live)]
    pub fn is_live(&self) -> (live: bool)
        ensures
            live == self.is_live(),
    {
        self.has_added_files || self.has_existing_files
    }
}

/// The records of live manifests, in their order.
pub open spec fn live_manifests(list: Seq<ManifestFile>) -> Seq<ManifestFile> {
    list.filter(|m: ManifestFile| m.is_live())
}

/// Copies the records of live manifests out of a list.
pub fn retain_live(list: &Vec<ManifestFile>) -> (live: Vec<ManifestFile>)
    ensures
        live@ == live_manifests(list@),
{
    let mut live: Vec<ManifestFile> = Vec::new();
    let ghost is_live = |m: ManifestFile| m.is_live();
    assert(list@.take(0).filter(is_live) =~= Seq::<ManifestFile>::empty()) by {
        reveal(Seq::filter);
    }
    for i in 0..list.len()
        invariant
            is_live == (|m: ManifestFile| m.is_live()),
            live@ == list@.take(i as int).filter(is_live),
    {
        proof {
            reveal(Seq::filter);
            assert(list@.take(i + 1).drop_last() =~= list@.take(i as int));
        }
        if list[i].is_live() {
            live.push(list[i].clone());
        }
    }
    assert(list@.take(list@.len() as int) =~= list@);
    live
}

/// A manifest that a commit writes.
#[derive(Debug, PartialEq, Eq)]
pub struct Manifest {
    pub content: ManifestContentType,
    /// How the manifest is encrypted, if it is.
    pub key_metadata: Option<Vec<u8>>,
    pub entries: Vec<ManifestEntry>,
}

/// The mathematical content of a [`Manifest`].
#[verifier::ext_equal]
pub struct ManifestView {
    pub content: ManifestContentType,
    pub key_metadata: Option<Seq<u8>>,
    pub entries: Seq<ManifestEntryView>,
}

impl View for Manifest {
    type V = ManifestView;

    open spec fn view(&self) -> ManifestView {
        ManifestView {
            content: self.content,
            key_metadata: key_metadata_view(self.key_metadata),
            entries: entry_views(self.entries@),
        }
    }
}

/// The contents of a sequence of manifests.
pub open spec fn manifest_views(manifests: Seq<Manifest>) -> Seq<ManifestView> {
    Seq::new(manifests.len(), |i: int| manifests[i]@)
}

/// The bytes of optional key metadata.
pub open spec fn key_metadata_view(key_metadata: Option<Vec<u8>>) -> Option<Seq<u8>> {
    match key_metadata {
        Some(bytes) => Some(bytes@),
        None => None,
    }
}

/// Copies optional key metadata.
pub fn clone_key_metadata(key_metadata: &Option<Vec<u8>>) -> (copy: Option<Vec<u8>>)
    ensures
        key_metadata_view(copy) == key_metadata_view(*key_metadata),
{
    match key_metadata {
        Some(bytes) => {
            let copied = bytes.clone();
            assert(copied@ =~= bytes@);
            Some(copied)
        },
        None => None,
    }
}

impl ManifestView {
    /// Some entry has the given status.
    pub open spec fn has_status(self, status: ManifestStatus) -> bool {
        exists|i: int| 0 <= i < self.entries.len() && (#[trigger] self.entries[i]).status == status
    }

    /// The record of the manifest, once it is written at the given path.
    pub open spec fn recorded_at(self, manifest_path: String) -> ManifestFile {
        ManifestFile {
            manifest_path,
            content: self.content,
            has_added_files: self.has_status(ManifestStatus::Added),
            has_existing_files: self.has_status(ManifestStatus::Existing),
        }
    }
}

impl Manifest {
    /// Whether some entry has the given status.
    pub fn has_status(&self, status: ManifestStatus) -> (found: bool)
        ensures
            found == self@.has_status(status),
    {
        for i in 0..self.entries.len()
            invariant
                forall|j: int| 0 <= j < i ==> (#[trigger] self@.entries[j]).status != status,
        {
            if self.entries[i].status == status {
                assert(self@.entries[i as int].status == status);
                return true;
            }
        }
        false
    }

    /// The record of this manifest, once it is written at the given path.
    pub fn recorded_at(&self, manifest_path: String) -> (record: ManifestFile)
        ensures
            record == self@.recorded_at(manifest_path),
    {
        ManifestFile {
            manifest_path,
            content: self.content,
            has_added_files: self.has_status(ManifestStatus::Added),
            has_existing_files: self.has_status(ManifestStatus::Existing),
        }
    }
}

} // verus!
