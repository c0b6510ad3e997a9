//! The steps of a load, one decision at a time.
//!
//! A load talks to a store and reads four files, and this crate does
//! neither. It decides instead. The caller begins with [`start`], which
//! tells it what to do first. It does that, reports how it went as an
//! [`Event`], and [`Phase::step`] tells it what to do next, until the answer
//! is [`Action::Finish`] or [`Action::Fail`].
//!
//! The order is fixed: open the store, create the four tables, begin one
//! transaction, then for each file in turn read it and insert its rows, and
//! commit once at the end. Whatever goes wrong after the transaction has
//! begun is answered with a rollback, and then with the error that caused
//! it. An answer that does not fit the request counts as a failure of the
//! request.

use vstd::prelude::*;
use vstd::string::*;
use crate::decode::{batch_for, load_service, load_stops, load_stoptimes, load_trips, rows};
use crate::record::{Service, Stop, StopTime, Trip};
use crate::error::LoadError;
use crate::source::{following, Source};
use crate::statement::{
    create_of,
    create_statement,
    field_of_value,
    insert_of,
    insert_statement,
    value_field,
    Value,
    ValueView,
};

verus! {

/// The name of the store's file. It is appended to the directory as it
/// stands: a directory that is to hold the file ends in a separator.
pub const DATABASE_FILE: &'static str = "database.db";

/// What a caller prints when a load is done.
pub const SUCCESS_MESSAGE: &'static str = "Database created successfully.";

/// The path of the store's file for a directory.
pub open spec fn path_in(directory: Seq<char>) -> Seq<char> {
    directory + DATABASE_FILE@
}

/// The path of the store's file: the directory, and the file's name right
/// behind it.
pub fn database_path(directory: &str) -> (path: String)
    ensures
        path@ == path_in(directory@),
{
    let mut path = directory.to_owned();
    path.append(DATABASE_FILE);
    path
}

/// Where a load stands: what the caller has been asked to do last.
#[derive(Clone, Copy, Debug, PartialEq, Eq, Structural)]
pub enum Phase {
    /// To open the store.
    Opening,
    /// To create the table of this file's records.
    Creating(Source),
    /// To begin the transaction.
    Beginning,
    /// To read this file.
    Reading(Source),
    /// To insert the rows of this file.
    Writing(Source),
    /// To commit the transaction.
    Committing,
    /// To roll the transaction back, because of this error.
    Undoing(LoadError),
    /// Nothing more: the load is done.
    Done,
    /// Nothing more: the load has failed with this error.
    Failed(LoadError),
}

/// How the caller fared with what it was asked to do.
#[derive(Clone, Debug, PartialEq, Eq)]
pub enum Event {
    /// The store did what it was asked.
    Completed,
    /// The store did not do what it was asked.
    Refused,
    /// The bytes of the file that was to be read.
    Contents(Vec<u8>),
    /// The file that was to be read could not be opened.
    Absent,
    /// A value of a row that was to be inserted could not be handed to the
    /// store: the text of a real number is no number. The row is counted
    /// from zero, and so is the value's position in it.
    BadValue { row: usize, position: usize },
}

/// An event as plain data.
pub enum EventView {
    Completed,
    Refused,
    Contents(Seq<u8>),
    Absent,
    BadValue { row: usize, position: usize },
}

impl View for Event {
    type V = EventView;

    open spec fn view(&self) -> EventView {
        match self {
            Event::Completed => EventView::Completed,
            Event::Refused => EventView::Refused,
            Event::Contents(data) => EventView::Contents(data@),
            Event::Absent => EventView::Absent,
            Event::BadValue { row, position } => EventView::BadValue {
                row: *row,
                position: *position,
            },
        }
    }
}

/// What the caller is to do next.
#[derive(Clone, Debug, PartialEq, Eq)]
pub enum Action {
    /// Open the store in the file at this path, or create it there.
    Open(String),
    /// Run this statement, which takes no values.
    Execute(&'static str),
    /// Begin a transaction.
    Begin,
    /// Read the whole of this file.
    Read(Source),
    /// Run this statement once for each row, in the order of the rows, with
    /// the values of the row.
    Insert { file: Source, statement: &'static str, rows: Vec<Vec<Value>> },
    /// Commit the transaction.
    Commit,
    /// Roll the transaction back.
    Rollback,
    /// Report success with this message and end.
    Finish(&'static str),
    /// Report this error and end.
    Fail(LoadError),
}

/// An action as plain data.
pub enum ActionView {
    Open(Seq<char>),
    Execute(Seq<char>),
    Begin,
    Read(Source),
    Insert { file: Source, statement: Seq<char>, rows: Seq<Seq<ValueView>> },
    Commit,
    Rollback,
    Finish(Seq<char>),
    Fail(LoadError),
}

impl View for Action {
    type V = ActionView;

    open spec fn view(&self) -> ActionView {
        match self {
            Action::Open(path) => ActionView::Open(path@),
            Action::Execute(statement) => ActionView::Execute(statement@),
            Action::Begin => ActionView::Begin,
            Action::Read(source) => ActionView::Read(*source),
            Action::Insert { file, statement, rows } => ActionView::Insert {
                file: *file,
                statement: statement@,
                rows: rows.deep_view(),
            },
            Action::Commit => ActionView::Commit,
            Action::Rollback => ActionView::Rollback,
            Action::Finish(message) => ActionView::Finish(message@),
            Action::Fail(error) => ActionView::Fail(*error),
        }
    }
}

/// The rows of values that the bytes of a file give, one for each row of
/// the file, or the error of the first fault in the file.
pub open spec fn batch_of(source: Source, data: Seq<u8>) -> Result<Seq<Seq<ValueView>>, LoadError> {
    match source {
        Source::Calendar => batch_for::<Service>(data),
        Source::Trips => batch_for::<Trip>(data),
        Source::StopTimes => batch_for::<StopTime>(data),
        Source::Stops => batch_for::<Stop>(data),
    }
}

/// Reads the bytes of a file into the rows of values that go into its
/// table.
pub fn batch(source: Source, data: &[u8]) -> (rows: Result<Vec<Vec<Value>>, LoadError>)
    ensures
        match rows {
            Ok(r) => batch_of(source, data@) == Ok::<_, LoadError>(r.deep_view()),
            Err(e) => batch_of(source, data@) == Err::<Seq<Seq<ValueView>>, _>(e),
        },
{
    match source {
        Source::Calendar => match load_service(data) {
            Ok(records) => Ok(rows(&records)),
            Err(error) => Err(error),
        },
        Source::Trips => match load_trips(data) {
            Ok(records) => Ok(rows(&records)),
            Err(error) => Err(error),
        },
        Source::StopTimes => match load_stoptimes(data) {
            Ok(records) => Ok(rows(&records)),
            Err(error) => Err(error),
        },
        Source::Stops => match load_stops(data) {
            Ok(records) => Ok(rows(&records)),
            Err(error) => Err(error),
        },
    }
}

/// The end of a load that fails before a transaction has begun.
pub open spec fn failed(error: LoadError) -> (Phase, ActionView) {
    (Phase::Failed(error), ActionView::Fail(error))
}

/// The rollback of a load that fails after the transaction has begun.
pub open spec fn undone(error: LoadError) -> (Phase, ActionView) {
    (Phase::Undoing(error), ActionView::Rollback)
}

/// The first phase of a load and what the caller is to do first, for the
/// directory that the environment names, if it names one.
pub open spec fn first(directory: Option<Seq<char>>) -> (Phase, ActionView) {
    match directory {
        Some(d) => (Phase::Opening, ActionView::Open(path_in(d))),
        None => failed(LoadError::Environment),
    }
}

/// The phase that follows `phase` on `event`, and what the caller is to do
/// next.
pub open spec fn next(phase: Phase, event: EventView) -> (Phase, ActionView) {
    match phase {
        Phase::Opening => if event is Completed {
            (Phase::Creating(Source::Calendar), ActionView::Execute(create_of(Source::Calendar)))
        } else {
            failed(LoadError::Storage)
        },
        Phase::Creating(source) => if event is Completed {
            match following(source) {
                Some(then) => (Phase::Creating(then), ActionView::Execute(create_of(then))),
                None => (Phase::Beginning, ActionView::Begin),
            }
        } else {
            failed(LoadError::Storage)
        },
        Phase::Beginning => if event is Completed {
            (Phase::Reading(Source::Calendar), ActionView::Read(Source::Calendar))
        } else {
            failed(LoadError::Storage)
        },
        Phase::Reading(source) => match event {
            EventView::Contents(data) => match batch_of(source, data) {
                Ok(rows) => (
                    Phase::Writing(source),
                    ActionView::Insert { file: source, statement: insert_of(source), rows },
                ),
                Err(error) => undone(error),
            },
            _ => undone(LoadError::FileNotFound { file: source }),
        },
        Phase::Writing(source) => match event {
            EventView::Completed => match following(source) {
                Some(then) => (Phase::Reading(then), ActionView::Read(then)),
                None => (Phase::Committing, ActionView::Commit),
            },
            EventView::BadValue { row, position } => undone(
                LoadError::Parse { file: source, row, field: field_of_value(source, position) },
            ),
            _ => undone(LoadError::Storage),
        },
        Phase::Committing => if event is Completed {
            (Phase::Done, ActionView::Finish(SUCCESS_MESSAGE@))
        } else {
            undone(LoadError::Storage)
        },
        Phase::Undoing(error) => failed(error),
        Phase::Done => (Phase::Done, ActionView::Finish(SUCCESS_MESSAGE@)),
        Phase::Failed(error) => failed(error),
    }
}

/// Begins a load. `directory` is what the environment holds under `DB_DIR`.
///
/// Without a directory the load fails at once: the caller is told to report
/// the error, and is never told to open a store, create a table or read a
/// file.
pub fn start(directory: Option<&str>) -> (turn: (Phase, Action))
    ensures
        (turn.0, turn.1@) == first(
            match directory {
                Some(d) => Some(d@),
                None => None,
            },
        ),
{
    match directory {
        Some(d) => (Phase::Opening, Action::Open(database_path(d))),
        None => (Phase::Failed(LoadError::Environment), Action::Fail(LoadError::Environment)),
    }
}

impl Phase {
    /// Takes the caller's report on what it was asked to do and says what
    /// it is to do next.
    pub fn step(self, event: Event) -> (turn: (Phase, Action))
        ensures
            (turn.0, turn.1@) == next(self, event@),
    {
        match self {
            Phase::Opening => match event {
                Event::Completed => (
                    Phase::Creating(Source::Calendar),
                    Action::Execute(create_statement(Source::Calendar)),
                ),
                _ => (Phase::Failed(LoadError::Storage), Action::Fail(LoadError::Storage)),
            },
            Phase::Creating(source) => match event {
                Event::Completed => match source.next() {
                    Some(then) => (Phase::Creating(then), Action::Execute(create_statement(then))),
                    None => (Phase::Beginning, Action::Begin),
                },
                _ => (Phase::Failed(LoadError::Storage), Action::Fail(LoadError::Storage)),
            },
            Phase::Beginning => match event {
                Event::Completed => (
                    Phase::Reading(Source::Calendar),
                    Action::Read(Source::Calendar),
                ),
                _ => (Phase::Failed(LoadError::Storage), Action::Fail(LoadError::Storage)),
            },
            Phase::Reading(source) => match event {
                Event::Contents(data) => match batch(source, data.as_slice()) {
                    Ok(rows) => (
                        Phase::Writing(source),
                        Action::Insert { file: source, statement: insert_statement(source), rows },
                    ),
                    Err(error) => (Phase::Undoing(error), Action::Rollback),
                },
                _ => (
                    Phase::Undoing(LoadError::FileNotFound { file: source }),
                    Action::Rollback,
                ),
            },
            Phase::Writing(source) => match event {
                Event::Completed => match source.next() {
                    Some(then) => (Phase::Reading(then), Action::Read(then)),
                    None => (Phase::Committing, Action::Commit),
                },
                Event::BadValue { row, position } => (
                    Phase::Undoing(
                        LoadError::Parse {
                            file: source,
                            row,
                            field: value_field(source, position),
                        },
                    ),
                    Action::Rollback,
                ),
                _ => (Phase::Undoing(LoadError::Storage), Action::Rollback),
            },
            Phase::Committing => match event {
                Event::Completed => (Phase::Done, Action::Finish(SUCCESS_MESSAGE)),
                _ => (Phase::Undoing(LoadError::Storage), Action::Rollback),
            },
            Phase::Undoing(error) => (Phase::Failed(error), Action::Fail(error)),
            Phase::Done => (Phase::Done, Action::Finish(SUCCESS_MESSAGE)),
            Phase::Failed(error) => (Phase::Failed(error), Action::Fail(error)),
        }
    }
}

} // verus!
