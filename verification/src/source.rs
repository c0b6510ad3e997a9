//! The four files of a schedule: where they lie and which columns they have.

use vstd::prelude::*;
use vstd::string::*;

verus! {

/// One of the four files of a schedule, in the order in which they are
/// loaded.
#[derive(Clone, Copy, Debug, PartialEq, Eq, Structural)]
pub enum Source {
    Calendar,
    Trips,
    StopTimes,
    Stops,
}

/// The path of a file, from the directory in which the load runs.
pub open spec fn path_of(source: Source) -> Seq<char> {
    match source {
        Source::Calendar => "data/calendar.txt"@,
        Source::Trips => "data/trips.txt"@,
        Source::StopTimes => "data/stop_times.txt"@,
        Source::Stops => "data/stops.txt"@,
    }
}

/// The names of the columns that a file's records are read from, in the
/// order of the record's fields. Other columns of a file are passed over.
pub open spec fn field_names(source: Source) -> Seq<Seq<char>> {
    match source {
        Source::Calendar => seq![
            "monday"@,
            "tuesday"@,
            "wednesday"@,
            "thursday"@,
            "friday"@,
            "saturday"@,
            "sunday"@,
            "start_date"@,
            "end_date"@,
            "service_id"@,
        ],
        Source::Trips => seq!["route_id"@, "service_id"@, "trip_id"@],
        Source::StopTimes => seq![
            "trip_id"@,
            "arrival_time"@,
            "departure_time"@,
            "stop_id"@,
            "stop_sequence"@,
        ],
        Source::Stops => seq!["stop_id"@, "stop_name"@, "stop_lat"@, "stop_lon"@, "location_type"@],
    }
}

/// How many of a file's columns must be there: all of them, but for the
/// last column of the stops, which a file may leave out.
pub open spec fn required_fields(source: Source) -> nat {
    match source {
        Source::Calendar => 10,
        Source::Trips => 3,
        Source::StopTimes => 5,
        Source::Stops => 4,
    }
}

impl Source {
    /// The path of the file.
    pub fn path(self) -> (path: &'static str)
        ensures
            path@ == path_of(self),
    {
        match self {
            Source::Calendar => "data/calendar.txt",
            Source::Trips => "data/trips.txt",
            Source::StopTimes => "data/stop_times.txt",
            Source::Stops => "data/stops.txt",
        }
    }

    /// The names of the file's columns, in the order of the record's fields.
    pub fn field_names(self) -> (names: Vec<&'static str>)
        ensures
            names.deep_view() == field_names(self),
    {
        let names = match self {
            Source::Calendar => vec![
                "monday",
                "tuesday",
                "wednesday",
                "thursday",
                "friday",
                "saturday",
                "sunday",
                "start_date",
                "end_date",
                "service_id",
            ],
            Source::Trips => vec!["route_id", "service_id", "trip_id"],
            Source::StopTimes => vec![
                "trip_id",
                "arrival_time",
                "departure_time",
                "stop_id",
                "stop_sequence",
            ],
            Source::Stops => vec!["stop_id", "stop_name", "stop_lat", "stop_lon", "location_type"],
        };
        assert(names.deep_view() =~= field_names(self));
        names
    }

    /// The names of the columns that the file must have.
    pub fn required_names(self) -> (names: Vec<&'static str>)
        ensures
            names.deep_view() == field_names(self).take(required_fields(self) as int),
    {
        let mut names = self.field_names();
        if let Source::Stops = self {
            names.pop();
        }
        assert(names.deep_view() =~= field_names(self).take(required_fields(self) as int));
        names
    }

    /// The file that is loaded after this one, if any.
    pub fn next(self) -> (next: Option<Source>)
        ensures
            next == following(self),
    {
        match self {
            Source::Calendar => Some(Source::Trips),
            Source::Trips => Some(Source::StopTimes),
            Source::StopTimes => Some(Source::Stops),
            Source::Stops => None,
        }
    }
}

/// The file that is loaded after `source`, if any.
pub open spec fn following(source: Source) -> Option<Source> {
    match source {
        Source::Calendar => Some(Source::Trips),
        Source::Trips => Some(Source::StopTimes),
        Source::StopTimes => Some(Source::Stops),
        Source::Stops => None,
    }
}

} // verus!
