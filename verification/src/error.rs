//! What can go wrong in a load, and how a caller reports it.

use vstd::prelude::*;
use vstd::string::*;
use crate::source::{field_names, path_of, Source};
use crate::text::{decimal, push_decimal};

verus! {

/// What is wrong with the layout of a file.
#[derive(Clone, Copy, Debug, PartialEq, Eq, Structural)]
pub enum FormatFault {
    /// The file cannot be read as delimited text with rows of one length.
    Unreadable,
    /// The header lacks the column of a field.
    MissingColumn { field: usize },
    /// The header names the column of a field more than once.
    RepeatedColumn { field: usize },
    /// A row has more or fewer fields than the header.
    RowLength { row: usize },
}

/// Why a load failed. Rows are counted from zero, the header left out;
/// fields are counted as [`Source::field_names`] lists them.
#[derive(Clone, Copy, Debug, PartialEq, Eq, Structural)]
pub enum LoadError {
    /// The directory of the store was not given.
    Environment,
    /// The store refused an operation.
    Storage,
    /// A file of the schedule could not be opened.
    FileNotFound { file: Source },
    /// A file of the schedule is not laid out as it must be.
    Format { file: Source, fault: FormatFault },
    /// A field does not hold a value of its column's type.
    Parse { file: Source, row: usize, field: usize },
    /// A field does not hold a time of day.
    TimeFormat { file: Source, row: usize, field: usize },
}

impl LoadError {
    /// The status with which a program ends on this error: one for each
    /// kind of error, none of them zero.
    pub open spec fn status(self) -> u8 {
        match self {
            LoadError::Environment => 2,
            LoadError::Storage => 3,
            LoadError::FileNotFound { .. } => 4,
            LoadError::Format { .. } => 5,
            LoadError::Parse { .. } => 6,
            LoadError::TimeFormat { .. } => 7,
        }
    }

    /// Whether two errors are of one kind.
    pub open spec fn same_kind(self, other: LoadError) -> bool {
        match (self, other) {
            (LoadError::Environment, LoadError::Environment) => true,
            (LoadError::Storage, LoadError::Storage) => true,
            (LoadError::FileNotFound { .. }, LoadError::FileNotFound { .. }) => true,
            (LoadError::Format { .. }, LoadError::Format { .. }) => true,
            (LoadError::Parse { .. }, LoadError::Parse { .. }) => true,
            (LoadError::TimeFormat { .. }, LoadError::TimeFormat { .. }) => true,
            _ => false,
        }
    }

    /// The status with which a program ends on this error.
    pub fn exit_code(&self) -> (code: u8)
        ensures
            code == self.status(),
            code != 0,
    {
        match self {
            LoadError::Environment => 2,
            LoadError::Storage => 3,
            LoadError::FileNotFound { .. } => 4,
            LoadError::Format { .. } => 5,
            LoadError::Parse { .. } => 6,
            LoadError::TimeFormat { .. } => 7,
        }
    }

    /// The file at fault, where the error lies in a file.
    pub fn file(&self) -> (file: Option<Source>)
        ensures
            file == match *self {
                LoadError::FileNotFound { file } => Some(file),
                LoadError::Format { file, .. } => Some(file),
                LoadError::Parse { file, .. } => Some(file),
                LoadError::TimeFormat { file, .. } => Some(file),
                _ => None,
            },
    {
        match self {
            LoadError::FileNotFound { file } => Some(*file),
            LoadError::Format { file, .. } => Some(*file),
            LoadError::Parse { file, .. } => Some(*file),
            LoadError::TimeFormat { file, .. } => Some(*file),
            _ => None,
        }
    }
}

/// Two errors end a program with the same status exactly where they are of
/// the same kind.
pub proof fn lemma_status_tells_kind(a: LoadError, b: LoadError)
    ensures
        a.status() == b.status() <==> a.same_kind(b),
        a.status() != 0,
{
}

/// The name of a field of a file's records, or a question mark where the
/// file has no such field.
pub open spec fn field_name_of(file: Source, field: usize) -> Seq<char> {
    if field < field_names(file).len() {
        field_names(file)[field as int]
    } else {
        "?"@
    }
}

/// The place of a row in a message: the path of its file and the number of
/// the row, counted from one.
pub open spec fn row_place(file: Source, row: usize) -> Seq<char> {
    path_of(file) + ": row "@ + decimal((row + 1) as nat)
}

/// The one line that tells a user of an error: the file, the row and the
/// field at fault, as far as the error has them, and what is wrong.
pub open spec fn message_of(error: LoadError) -> Seq<char> {
    match error {
        LoadError::Environment => "DB_DIR is not set"@,
        LoadError::Storage => "the store refused an operation"@,
        LoadError::FileNotFound { file } => path_of(file) + ": cannot be opened"@,
        LoadError::Format { file, fault } => match fault {
            FormatFault::Unreadable => path_of(file)
                + ": not delimited text with rows of one length"@,
            FormatFault::MissingColumn { field } => path_of(file) + ": column "@ + field_name_of(
                file,
                field,
            ) + " is missing"@,
            FormatFault::RepeatedColumn { field } => path_of(file) + ": column "@ + field_name_of(
                file,
                field,
            ) + " stands more than once"@,
            FormatFault::RowLength { row } => row_place(file, row)
                + ": not as long as the header"@,
        },
        LoadError::Parse { file, row, field } => row_place(file, row) + ": field "@
            + field_name_of(file, field) + ": not a value of the column's type"@,
        LoadError::TimeFormat { file, row, field } => row_place(file, row) + ": field "@
            + field_name_of(file, field) + ": not a time of day"@,
    }
}

/// The name of a field of a file's records.
fn field_name(file: Source, field: usize) -> (name: &'static str)
    ensures
        name@ == field_name_of(file, field),
{
    let names = file.field_names();
    assert(names.deep_view().len() == names.len());
    if field < names.len() {
        assert(names.deep_view()[field as int] == names[field as int]@);
        names[field]
    } else {
        "?"
    }
}

/// Begins a message with the place of a row.
fn begin_at_row(file: Source, row: usize) -> (text: String)
    ensures
        text@ == row_place(file, row),
{
    let mut text = file.path().to_owned();
    text.append(": row ");
    push_decimal(&mut text, row as u128 + 1);
    text
}

impl LoadError {
    /// The one line that tells a user of the error.
    pub fn describe(&self) -> (message: String)
        ensures
            message@ == message_of(*self),
    {
        match *self {
            LoadError::Environment => "DB_DIR is not set".to_owned(),
            LoadError::Storage => "the store refused an operation".to_owned(),
            LoadError::FileNotFound { file } => {
                let mut text = file.path().to_owned();
                text.append(": cannot be opened");
                text
            },
            LoadError::Format { file, fault } => match fault {
                FormatFault::Unreadable => {
                    let mut text = file.path().to_owned();
                    text.append(": not delimited text with rows of one length");
                    text
                },
                FormatFault::MissingColumn { field } => {
                    let mut text = file.path().to_owned();
                    text.append(": column ");
                    text.append(field_name(file, field));
                    text.append(" is missing");
                    text
                },
                FormatFault::RepeatedColumn { field } => {
                    let mut text = file.path().to_owned();
                    text.append(": column ");
                    text.append(field_name(file, field));
                    text.append(" stands more than once");
                    text
                },
                FormatFault::RowLength { row } => {
                    let mut text = begin_at_row(file, row);
                    text.append(": not as long as the header");
                    text
                },
            },
            LoadError::Parse { file, row, field } => {
                let mut text = begin_at_row(file, row);
                text.append(": field ");
                text.append(field_name(file, field));
                text.append(": not a value of the column's type");
                text
            },
            LoadError::TimeFormat { file, row, field } => {
                let mut text = begin_at_row(file, row);
                text.append(": field ");
                text.append(field_name(file, field));
                text.append(": not a time of day");
                text
            },
        }
    }
}

} // verus!
