//! The four kinds of record of a schedule, as the store keeps them.

use vstd::prelude::*;

verus! {

/// A service calendar: the days of the week on which it runs, each 0 or 1
/// as the file has it, the first and last date as numbers in the form
/// YYYYMMDD, and the number that names it.
#[derive(Clone, Copy, Debug, PartialEq, Eq, Structural)]
pub struct Service {
    pub mon: u8,
    pub tue: u8,
    pub wed: u8,
    pub thu: u8,
    pub fri: u8,
    pub sat: u8,
    pub sun: u8,
    pub start_date: i32,
    pub end_date: i32,
    pub service_id: i32,
}

/// One run of a vehicle along a route, on the days of a service calendar.
#[derive(Clone, Copy, Debug, PartialEq, Eq, Structural)]
pub struct Trip {
    pub route_id: i32,
    pub service_id: i32,
    pub trip_id: i32,
}

/// One visit of a trip to a stop. The two times are kept as six digits,
/// `HHMMSS`.
#[derive(Clone, Debug, PartialEq, Eq)]
pub struct StopTime {
    pub trip_id: i32,
    pub arrival_time: String,
    pub departure_time: String,
    pub stop_id: i32,
    pub stop_sequence: i32,
}

/// A place where trips stop. Latitude and longitude are kept as the file
/// writes them; `location_type` is 0 where the file gives none.
#[derive(Clone, Debug, PartialEq, Eq)]
pub struct Stop {
    pub stop_id: i32,
    pub stop_name: String,
    pub stop_lat: String,
    pub stop_lon: String,
    pub location_type: i32,
}

/// A stop time as plain values.
pub struct StopTimeView {
    pub trip_id: i32,
    pub arrival_time: Seq<char>,
    pub departure_time: Seq<char>,
    pub stop_id: i32,
    pub stop_sequence: i32,
}

/// A stop as plain values.
pub struct StopView {
    pub stop_id: i32,
    pub stop_name: Seq<char>,
    pub stop_lat: Seq<char>,
    pub stop_lon: Seq<char>,
    pub location_type: i32,
}

impl View for Service {
    type V = Service;

    open spec fn view(&self) -> Service {
        *self
    }
}

impl DeepView for Service {
    type V = Service;

    open spec fn deep_view(&self) -> Service {
        *self
    }
}

impl View for Trip {
    type V = Trip;

    open spec fn view(&self) -> Trip {
        *self
    }
}

impl DeepView for Trip {
    type V = Trip;

    open spec fn deep_view(&self) -> Trip {
        *self
    }
}

impl View for StopTime {
    type V = StopTimeView;

    open spec fn view(&self) -> StopTimeView {
        StopTimeView {
            trip_id: self.trip_id,
            arrival_time: self.arrival_time@,
            departure_time: self.departure_time@,
            stop_id: self.stop_id,
            stop_sequence: self.stop_sequence,
        }
    }
}

impl DeepView for StopTime {
    type V = StopTimeView;

    open spec fn deep_view(&self) -> StopTimeView {
        self@
    }
}

impl View for Stop {
    type V = StopView;

    open spec fn view(&self) -> StopView {
        StopView {
            stop_id: self.stop_id,
            stop_name: self.stop_name@,
            stop_lat: self.stop_lat@,
            stop_lon: self.stop_lon@,
            location_type: self.location_type,
        }
    }
}

impl DeepView for Stop {
    type V = StopView;

    open spec fn deep_view(&self) -> StopView {
        self@
    }
}

} // verus!
