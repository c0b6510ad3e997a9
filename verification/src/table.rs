//! A delimited text file as a header and rows of fields.
//!
//! The csv crate does the reading: quoting, line ends and the rule that no
//! row is longer or shorter than the one before are its business. What it
//! hands out is kept here as plain text, field by field. Where it gives up
//! in the middle of a file, the rows that it has read before are kept, so
//! that a fault in one of them is found first.

use vstd::prelude::*;
use vstd::string::*;
use crate::text::same_text;

verus! {

/// The csv crate's `Error`: why its reader gives up on a file. Nothing of
/// its inside is used here.
#[verifier::external_type_specification]
#[verifier::external_body]
pub struct ExCsvError(csv::Error);

/// What the csv crate reads from the bytes of a file: the fields of the
/// header, then row by row the fields of the records that a reader with the
/// crate's default settings hands out before its first error, and whether
/// it reaches the end of the file without one. Nothing where the header
/// itself cannot be read.
pub uninterp spec fn csv_table(data: Seq<u8>) -> Option<
    (Seq<Seq<char>>, Seq<Seq<Seq<char>>>, bool),
>;

/// Reads `data` with `csv::Reader::from_reader`: the header through
/// `Reader::headers`, then record after record through `Reader::records`,
/// each field copied out as a `String`. The reading stops at the first
/// error of the reader, which is handed back beside the rows read so far,
/// or in their place where it is the header that fails. The contract says
/// no more than that the outcome is the one [`csv_table`] names for these
/// bytes.
#[verifier::external_body]
fn read_csv(data: &[u8]) -> (table: Result<
    (Vec<String>, Vec<Vec<String>>, Option<csv::Error>),
    csv::Error,
>)
    ensures
        match table {
            Ok(t) => csv_table(data@) == Some((t.0.deep_view(), t.1.deep_view(), t.2 is None)),
            Err(_) => csv_table(data@) is None,
        },
{
    let mut reader = csv::Reader::from_reader(data);
    let header = reader.headers()?.iter().map(String::from).collect();
    let mut rows = Vec::new();
    for record in reader.records() {
        match record {
            Ok(fields) => rows.push(fields.iter().map(String::from).collect()),
            Err(error) => return Ok((header, rows, Some(error))),
        }
    }
    Ok((header, rows, None))
}

/// The header of a file and its rows, each a list of fields. Where
/// `complete` does not hold, the file goes on behind the last row with
/// something that is no row.
#[derive(Debug)]
pub struct Table {
    pub header: Vec<String>,
    pub rows: Vec<Vec<String>>,
    pub complete: bool,
}

/// A table as plain text.
pub struct TableView {
    pub header: Seq<Seq<char>>,
    pub rows: Seq<Seq<Seq<char>>>,
    pub complete: bool,
}

impl View for Table {
    type V = TableView;

    open spec fn view(&self) -> TableView {
        TableView {
            header: self.header.deep_view(),
            rows: self.rows.deep_view(),
            complete: self.complete,
        }
    }
}

/// The table that the csv crate's reading of a file amounts to.
pub open spec fn table_of(read: Option<(Seq<Seq<char>>, Seq<Seq<Seq<char>>>, bool)>) -> Option<
    TableView,
> {
    match read {
        Some((header, rows, complete)) => Some(TableView { header, rows, complete }),
        None => None,
    }
}

impl Table {
    /// Reads the bytes of a delimited text file, as far as the csv crate
    /// can read them. Nothing where it cannot read the header.
    pub fn read(data: &[u8]) -> (table: Option<Table>)
        ensures
            match table {
                Some(t) => table_of(csv_table(data@)) == Some(t@),
                None => table_of(csv_table(data@)) is None,
            },
    {
        match read_csv(data) {
            Ok((header, rows, fault)) => Some(Table { header, rows, complete: fault.is_none() }),
            Err(_) => None,
        }
    }
}

/// Where a header holds a name.
#[derive(Clone, Copy, Debug, PartialEq, Eq, Structural)]
pub enum Column {
    /// No field of the header is the name.
    Missing,
    /// More than one field of the header is the name.
    Repeated,
    /// The one field of the header that is the name.
    At(usize),
}

/// Where `header` holds `name`.
pub open spec fn column_of(header: Seq<Seq<char>>, name: Seq<char>) -> Column {
    if forall|i: int| 0 <= i < header.len() ==> header[i] != name {
        Column::Missing
    } else if exists|i: int, j: int|
        0 <= i < j < header.len() && header[i] == name && header[j] == name {
        Column::Repeated
    } else {
        Column::At((choose|i: int| 0 <= i < header.len() && header[i] == name) as usize)
    }
}

/// Looks a name up in a header.
pub fn find_column(header: &Vec<String>, name: &str) -> (column: Column)
    ensures
        column == column_of(header.deep_view(), name@),
        column matches Column::At(c) ==> c < header.len(),
{
    let ghost names = header.deep_view();
    let mut found: Option<usize> = None;
    let mut i: usize = 0;
    while i < header.len()
        invariant
            i <= header.len(),
            names == header.deep_view(),
            match found {
                Some(c) => c < i && names[c as int] == name@ && forall|k: int|
                    0 <= k < i && k != c ==> names[k] != name@,
                None => forall|k: int| 0 <= k < i ==> names[k] != name@,
            },
        decreases header.len() - i,
    {
        assert(names[i as int] == header[i as int]@);
        if same_text(header[i].as_str(), name) {
            match found {
                Some(c) => {
                    assert(0 <= c < i < names.len() && names[c as int] == name@ && names[i as int]
                        == name@);
                    return Column::Repeated;
                },
                None => {
                    found = Some(i);
                },
            }
        }
        i += 1;
    }
    match found {
        Some(c) => {
            assert(names[c as int] == name@);
            let ghost chosen = choose|i: int| 0 <= i < names.len() && names[i] == name@;
            assert(chosen == c);
            Column::At(c)
        },
        None => Column::Missing,
    }
}

} // verus!
