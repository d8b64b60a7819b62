//! The summary of a snapshot: what it did, and how much.

use crate::files::{DataContentType, DataFile, DataFileView};
use crate::properties::Properties;
use vstd::prelude::*;
use vstd::string::StringExecFns;

verus! {

/// What a snapshot did to the rows of its table.
#[derive(Clone, Copy, Debug, PartialEq, Eq, Structural)]
pub enum Operation {
    /// Only added rows.
    Append,
    /// Only rewrote files; the rows stay.
    Replace,
    /// Added rows and may have taken rows away.
    Overwrite,
    /// Only took rows away.
    Delete,
}

/// A snapshot's operation and its properties.
#[derive(Debug)]
pub struct Summary {
    pub operation: Operation,
    pub additional_properties: Properties,
}

/// The mathematical content of a [`Summary`].
#[verifier::ext_equal]
pub struct SummaryView {
    pub operation: Operation,
    pub additional_properties: Map<Seq<char>, Seq<char>>,
}

impl View for Summary {
    type V = SummaryView;

    open spec fn view(&self) -> SummaryView {
        SummaryView {
            operation: self.operation,
            additional_properties: self.additional_properties@,
        }
    }
}

/// The property that counts the data files a snapshot adds.
pub const ADDED_DATA_FILES: &'static str = "added-data-files";

/// The property that counts the delete files a snapshot adds.
pub const ADDED_DELETE_FILES: &'static str = "added-delete-files";

/// The property that counts the equality delete files a snapshot adds.
pub const ADDED_EQUALITY_DELETE_FILES: &'static str = "added-equality-delete-files";

/// The property that counts the position delete files a snapshot adds.
pub const ADDED_POSITION_DELETE_FILES: &'static str = "added-position-delete-files";

/// The decimal digit of a number below ten.
pub open spec fn digit(d: nat) -> char {
    (48 + d) as char
}

/// A number in decimal notation.
pub open spec fn decimal(n: nat) -> Seq<char>
    decreases n,
{
    if n < 10 {
        seq![digit(n)]
    } else {
        decimal(n / 10).push(digit(n % 10))
    }
}

/// The decimal digit of a number below ten, as text.
fn digit_text(d: usize) -> (text: &'static str)
    requires
        d < 10,
    ensures
        text@ == seq![digit(d as nat)],
{
    proof {
        reveal_strlit("0");
        reveal_strlit("1");
        reveal_strlit("2");
        reveal_strlit("3");
        reveal_strlit("4");
        reveal_strlit("5");
        reveal_strlit("6");
        reveal_strlit("7");
        reveal_strlit("8");
        reveal_strlit("9");
    }
    match d {
        0 => "0",
        1 => "1",
        2 => "2",
        3 => "3",
        4 => "4",
        5 => "5",
        6 => "6",
        7 => "7",
        8 => "8",
        _ => "9",
    }
}

/// A number in decimal notation, as text.
pub fn decimal_text(n: usize) -> (text: String)
    ensures
        text@ == decimal(n as nat),
    decreases n,
{
    if n < 10 {
        digit_text(n).to_owned()
    } else {
        let mut text = decimal_text(n / 10);
        text.append(digit_text(n % 10));
        assert(text@ =~= decimal((n / 10) as nat).push(digit((n % 10) as nat)));
        text
    }
}

/// A count is recorded unless it is zero.
pub open spec fn with_count(
    properties: Map<Seq<char>, Seq<char>>,
    key: Seq<char>,
    count: nat,
) -> Map<Seq<char>, Seq<char>> {
    if count > 0 {
        properties.insert(key, decimal(count))
    } else {
        properties
    }
}

/// Records a count unless it is zero.
fn set_count(properties: &mut Properties, key: &str, count: usize)
    ensures
        final(properties)@ == with_count(old(properties)@, key@, count as nat),
{
    if count > 0 {
        properties.insert(key.to_owned(), decimal_text(count));
    }
}

/// Counts the files with the given content.
pub fn count_files(files: &Vec<DataFile>, content: DataContentType) -> (count: usize)
    ensures
        count == crate::files::count_content(crate::files::file_views(files@), content),
        count <= files@.len(),
{
    let ghost views = crate::files::file_views(files@);
    let ghost matching = |f: DataFileView| f.content == content;
    let mut count: usize = 0;
    assert(views.take(0).filter(matching).len() == 0) by {
        reveal(Seq::filter);
    }
    for i in 0..files.len()
        invariant
            views == crate::files::file_views(files@),
            matching == (|f: DataFileView| f.content == content),
            count == views.take(i as int).filter(matching).len(),
            count <= i,
    {
        proof {
            reveal(Seq::filter);
            assert(views.take(i + 1).drop_last() =~= views.take(i as int));
        }
        if files[i].content == content {
            count = count + 1;
        }
    }
    assert(views.take(views.len() as int) =~= views);
    count
}

/// The counts of the files that a snapshot adds.
pub open spec fn file_counts(
    data_files: Seq<DataFileView>,
    delete_files: Seq<DataFileView>,
) -> Map<Seq<char>, Seq<char>> {
    let equality = crate::files::count_content(delete_files, DataContentType::EqualityDeletes);
    let position = crate::files::count_content(delete_files, DataContentType::PositionDeletes);
    let data = with_count(Map::empty(), ADDED_DATA_FILES@, data_files.len());
    let deletes = with_count(data, ADDED_DELETE_FILES@, delete_files.len());
    let equality_deletes = with_count(deletes, ADDED_EQUALITY_DELETE_FILES@, equality);
    with_count(equality_deletes, ADDED_POSITION_DELETE_FILES@, position)
}

/// Counts the files that a snapshot adds.
pub fn count_added_files(
    data_files: &Vec<DataFile>,
    delete_files: &Vec<DataFile>,
) -> (properties: Properties)
    ensures
        properties@ == file_counts(
            crate::files::file_views(data_files@),
            crate::files::file_views(delete_files@),
        ),
{
    let mut properties = Properties::new();
    set_count(&mut properties, ADDED_DATA_FILES, data_files.len());
    set_count(&mut properties, ADDED_DELETE_FILES, delete_files.len());
    let equality: usize = count_files(delete_files, DataContentType::EqualityDeletes);
    set_count(&mut properties, ADDED_EQUALITY_DELETE_FILES, equality);
    let position: usize = count_files(delete_files, DataContentType::PositionDeletes);
    set_count(&mut properties, ADDED_POSITION_DELETE_FILES, position);
    properties
}

} // verus!
