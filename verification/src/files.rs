//! The files that a row delta adds.

use vstd::prelude::*;

verus! {

/// What the rows of a file mean.
#[derive(Clone, Copy, Debug, PartialEq, Eq, Structural)]
pub enum DataContentType {
    /// Rows of the table.
    Data,
    /// Positions of deleted rows.
    PositionDeletes,
    /// Key values of deleted rows.
    EqualityDeletes,
}

/// How a file is encoded.
#[derive(Clone, Copy, Debug, PartialEq, Eq, Structural)]
pub enum DataFileFormat {
    Avro,
    Orc,
    Parquet,
}

/// A partition value.
#[derive(Debug, PartialEq, Eq)]
pub enum Literal {
    Boolean(bool),
    Int(i32),
    Long(i64),
    String(String),
}

impl Clone for Literal {
    fn clone(&self) -> (copy: Self)
        ensures
            copy == *self,
    {
        match self {
            Literal::Boolean(b) => Literal::Boolean(*b),
            Literal::Int(i) => Literal::Int(*i),
            Literal::Long(l) => Literal::Long(*l),
            Literal::String(s) => Literal::String(s.clone()),
        }
    }
}

/// A file of rows or of deletions, as a table tracks it.
#[derive(Debug, PartialEq, Eq)]
pub struct DataFile {
    pub content: DataContentType,
    pub file_path: String,
    pub file_format: DataFileFormat,
    pub file_size_in_bytes: u64,
    pub record_count: u64,
    pub partition_spec_id: i32,
    pub partition: Vec<Option<Literal>>,
    pub equality_ids: Option<Vec<i32>>,
}

/// The mathematical content of a [`DataFile`].
#[verifier::ext_equal]
pub struct DataFileView {
    pub content: DataContentType,
    pub file_path: Seq<char>,
    pub file_format: DataFileFormat,
    pub file_size_in_bytes: u64,
    pub record_count: u64,
    pub partition_spec_id: i32,
    pub partition: Seq<Option<Literal>>,
    pub equality_ids: Option<Seq<i32>>,
}

impl View for DataFile {
    type V = DataFileView;

    open spec fn view(&self) -> DataFileView {
        DataFileView {
            content: self.content,
            file_path: self.file_path@,
            file_format: self.file_format,
            file_size_in_bytes: self.file_size_in_bytes,
            record_count: self.record_count,
            partition_spec_id: self.partition_spec_id,
            partition: self.partition@,
            equality_ids: match self.equality_ids {
                Some(ids) => Some(ids@),
                None => None,
            },
        }
    }
}

impl Clone for DataFile {
    fn clone(&self) -> (copy: Self)
        ensures
            copy@ == self@,
    {
        let partition = self.partition.clone();
        assert(partition@ =~= self.partition@);
        let equality_ids = match &self.equality_ids {
            Some(ids) => {
                let copied = ids.clone();
                assert(copied@ =~= ids@);
                Some(copied)
            },
            None => None,
        };
        DataFile {
            content: self.content,
            file_path: self.file_path.clone(),
            file_format: self.file_format,
            file_size_in_bytes: self.file_size_in_bytes,
            record_count: self.record_count,
            partition_spec_id: self.partition_spec_id,
            partition,
            equality_ids,
        }
    }
}

/// The contents of a sequence of files.
pub open spec fn file_views(files: Seq<DataFile>) -> Seq<DataFileView> {
    Seq::new(files.len(), |i: int| files[i]@)
}

/// Copies a list of files.
pub fn clone_files(files: &Vec<DataFile>) -> (copy: Vec<DataFile>)
    ensures
        file_views(copy@) == file_views(files@),
{
    let copy = files.clone();
    assert(file_views(copy@) =~= file_views(files@));
    copy
}

/// How many of the files have the given content.
pub open spec fn count_content(files: Seq<DataFileView>, content: DataContentType) -> nat {
    files.filter(|f: DataFileView| f.content == content).len()
}

} // verus!
