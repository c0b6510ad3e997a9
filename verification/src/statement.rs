//! What the store is told: the statements that create the four tables, the
//! statements that insert into them, and the values of each row.

use vstd::prelude::*;
use vstd::string::*;
use crate::record::{Service, StopTimeView, StopView, Trip};
use crate::source::Source;

verus! {

/// Creates the table of the service calendars.
pub const CREATE_SERVICE: &'static str =
    "CREATE TABLE IF NOT EXISTS service(mon int, tue int, wed int, thur int, fri int, sat int, sun int, start_date int, end_date int, service_id int)";

/// Creates the table of the trips.
pub const CREATE_TRIP: &'static str =
    "CREATE TABLE IF NOT EXISTS trip(route_id int, service_id int, trip_id int)";

/// Creates the table of the stop times.
pub const CREATE_STOPTIME: &'static str =
    "CREATE TABLE IF NOT EXISTS stoptime(trip_id int, arrival_time text, departure_time text, stop_id int, stop_sequence int)";

/// Creates the table of the stops.
pub const CREATE_STOPS: &'static str =
    "CREATE TABLE IF NOT EXISTS stops(stop_name text, longitude real, latitude real, stop_id int, location_type int)";

/// Inserts one service calendar, its values in the order of the table's
/// columns.
pub const INSERT_SERVICE: &'static str =
    "INSERT INTO service VALUES(?1, ?2, ?3, ?4, ?5, ?6, ?7, ?8, ?9, ?10)";

/// Inserts one trip, its values in the order of the table's columns.
pub const INSERT_TRIP: &'static str = "INSERT INTO trip VALUES(?1, ?2, ?3)";

/// Inserts one stop time, its values in the order of the table's columns.
pub const INSERT_STOPTIME: &'static str = "INSERT INTO stoptime VALUES(?1, ?2, ?3, ?4, ?5)";

/// Inserts one stop. The columns are named, and the values follow the
/// names.
pub const INSERT_STOPS: &'static str =
    "INSERT INTO stops(stop_name, longitude, latitude, stop_id, location_type) VALUES (?1, ?2, ?3, ?4, ?5)";

/// The statement that creates the table of a file's records where it is
/// not there yet.
pub open spec fn create_of(source: Source) -> Seq<char> {
    match source {
        Source::Calendar => CREATE_SERVICE@,
        Source::Trips => CREATE_TRIP@,
        Source::StopTimes => CREATE_STOPTIME@,
        Source::Stops => CREATE_STOPS@,
    }
}

/// The statements that create the tables, in the order in which they run.
pub open spec fn schema() -> Seq<Seq<char>> {
    seq![
        create_of(Source::Calendar),
        create_of(Source::Trips),
        create_of(Source::StopTimes),
        create_of(Source::Stops),
    ]
}

/// The statement that inserts one record of a file into its table.
pub open spec fn insert_of(source: Source) -> Seq<char> {
    match source {
        Source::Calendar => INSERT_SERVICE@,
        Source::Trips => INSERT_TRIP@,
        Source::StopTimes => INSERT_STOPTIME@,
        Source::Stops => INSERT_STOPS@,
    }
}

/// The statements that create the four tables where they are not there yet:
/// `service`, `trip`, `stoptime` and `stops`, in this order. Each one leaves
/// a table that exists as it is, so running them again changes nothing.
pub fn create_tables() -> (statements: Vec<&'static str>)
    ensures
        statements.deep_view() == schema(),
{
    let statements = vec![CREATE_SERVICE, CREATE_TRIP, CREATE_STOPTIME, CREATE_STOPS];
    assert(statements.deep_view() =~= schema());
    statements
}

/// The statement that creates the table of a file's records where it is
/// not there yet.
pub fn create_statement(source: Source) -> (statement: &'static str)
    ensures
        statement@ == create_of(source),
{
    match source {
        Source::Calendar => CREATE_SERVICE,
        Source::Trips => CREATE_TRIP,
        Source::StopTimes => CREATE_STOPTIME,
        Source::Stops => CREATE_STOPS,
    }
}

/// The statement that inserts one record of a file into its table.
pub fn insert_statement(source: Source) -> (statement: &'static str)
    ensures
        statement@ == insert_of(source),
{
    match source {
        Source::Calendar => INSERT_SERVICE,
        Source::Trips => INSERT_TRIP,
        Source::StopTimes => INSERT_STOPTIME,
        Source::Stops => INSERT_STOPS,
    }
}

/// One value of a row, as the store is to take it.
#[derive(Clone, Debug, PartialEq, Eq)]
pub enum Value {
    /// A whole number.
    Integer(i64),
    /// A piece of text.
    Text(String),
    /// A real number, written as the file writes it. The caller turns the
    /// text into the number when it hands the value to the store.
    Real(String),
}

/// A value as plain data.
pub enum ValueView {
    Integer(i64),
    Text(Seq<char>),
    Real(Seq<char>),
}

impl View for Value {
    type V = ValueView;

    open spec fn view(&self) -> ValueView {
        match self {
            Value::Integer(n) => ValueView::Integer(*n),
            Value::Text(text) => ValueView::Text(text@),
            Value::Real(text) => ValueView::Real(text@),
        }
    }
}

impl DeepView for Value {
    type V = ValueView;

    open spec fn deep_view(&self) -> ValueView {
        self@
    }
}

/// The values of a service calendar, in the order of the columns of
/// `service`.
pub open spec fn service_values(record: Service) -> Seq<ValueView> {
    seq![
        ValueView::Integer(record.mon as i64),
        ValueView::Integer(record.tue as i64),
        ValueView::Integer(record.wed as i64),
        ValueView::Integer(record.thu as i64),
        ValueView::Integer(record.fri as i64),
        ValueView::Integer(record.sat as i64),
        ValueView::Integer(record.sun as i64),
        ValueView::Integer(record.start_date as i64),
        ValueView::Integer(record.end_date as i64),
        ValueView::Integer(record.service_id as i64),
    ]
}

/// The values of a trip, in the order of the columns of `trip`.
pub open spec fn trip_values(record: Trip) -> Seq<ValueView> {
    seq![
        ValueView::Integer(record.route_id as i64),
        ValueView::Integer(record.service_id as i64),
        ValueView::Integer(record.trip_id as i64),
    ]
}

/// The values of a stop time, in the order of the columns of `stoptime`.
pub open spec fn stop_time_values(record: StopTimeView) -> Seq<ValueView> {
    seq![
        ValueView::Integer(record.trip_id as i64),
        ValueView::Text(record.arrival_time),
        ValueView::Text(record.departure_time),
        ValueView::Integer(record.stop_id as i64),
        ValueView::Integer(record.stop_sequence as i64),
    ]
}

/// The values of a stop, in the order in which the statement for `stops`
/// names the columns: name, longitude, latitude, number, `location_type`.
pub open spec fn stop_values(record: StopView) -> Seq<ValueView> {
    seq![
        ValueView::Text(record.stop_name),
        ValueView::Real(record.stop_lon),
        ValueView::Real(record.stop_lat),
        ValueView::Integer(record.stop_id as i64),
        ValueView::Integer(record.location_type as i64),
    ]
}

/// The field of a file's record that the value at `position` of a row is
/// made from. The values of a stop stand in the order of the statement
/// (name, longitude, latitude, number, `location_type`), those of the other
/// records in the order of their fields.
pub open spec fn field_of_value(source: Source, position: usize) -> usize {
    match source {
        Source::Stops => if position == 0 {
            1
        } else if position == 1 {
            3
        } else if position == 2 {
            2
        } else if position == 3 {
            0
        } else {
            position
        },
        _ => position,
    }
}

/// The field of a file's record that the value at `position` of a row is
/// made from.
pub fn value_field(source: Source, position: usize) -> (field: usize)
    ensures
        field == field_of_value(source, position),
{
    match source {
        Source::Stops => if position == 0 {
            1
        } else if position == 1 {
            3
        } else if position == 2 {
            2
        } else if position == 3 {
            0
        } else {
            position
        },
        _ => position,
    }
}

} // verus!
