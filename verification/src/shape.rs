//! The four kinds of record, field by field: how each is read from a row
//! and which values it gives to the store.

use vstd::prelude::*;
use vstd::string::*;
use crate::clock::{chrono_clock, parse_time, stored_time};
use crate::decode::Row;
use crate::number::{field_i32, field_u8, parse_i32, parse_u8};
use crate::record::{Service, Stop, StopTime, StopTimeView, StopView, Trip};
use crate::source::Source;
use crate::statement::{
    service_values,
    stop_time_values,
    stop_values,
    trip_values,
    Value,
    ValueView,
};

verus! {

/// Whether field `j` fails and no failing field stands before it in the row.
/// Of two failing fields in one column the one with the lower number counts.
pub open spec fn is_earliest(cols: Seq<usize>, bad: Seq<bool>, j: int) -> bool {
    &&& 0 <= j < bad.len()
    &&& bad[j]
    &&& forall|k: int|
        0 <= k < bad.len() && #[trigger] bad[k] ==> cols[j] < cols[k] || (cols[j] == cols[k] && j
            <= k)
}

/// Of the fields that fail, the one that stands first in the row.
pub open spec fn earliest_fault(cols: Seq<usize>, bad: Seq<bool>) -> Option<usize> {
    if exists|j: int| is_earliest(cols, bad, j) {
        Some((choose|j: int| is_earliest(cols, bad, j)) as usize)
    } else {
        None
    }
}

/// Among the first `n` fields, one of which fails, the failing field that
/// stands first in the row.
proof fn lemma_earliest_among(cols: Seq<usize>, bad: Seq<bool>, n: int) -> (j: int)
    requires
        0 <= n <= bad.len(),
        exists|k: int| 0 <= k < n && bad[k],
    ensures
        0 <= j < n,
        bad[j],
        forall|k: int|
            0 <= k < n && #[trigger] bad[k] ==> cols[j] < cols[k] || (cols[j] == cols[k] && j <= k),
    decreases n,
{
    if exists|k: int| 0 <= k < n - 1 && bad[k] {
        let before = lemma_earliest_among(cols, bad, n - 1);
        if bad[n - 1] && cols[n - 1] < cols[before] {
            n - 1
        } else {
            before
        }
    } else {
        n - 1
    }
}

/// A row with a field that fails has a field at fault: no failing field
/// is hidden by the fields around it.
pub proof fn lemma_bad_field_is_reported(cols: Seq<usize>, bad: Seq<bool>, k: int)
    requires
        0 <= k < bad.len() <= usize::MAX,
        bad[k],
    ensures
        earliest_fault(cols, bad) matches Some(j) && j < bad.len() && bad[j as int],
{
    let j = lemma_earliest_among(cols, bad, bad.len() as int);
    assert(is_earliest(cols, bad, j));
    let c = choose|c: int| is_earliest(cols, bad, c);
    assert(is_earliest(cols, bad, c));
}

/// Picks, of the fields that fail, the one that stands first in the row.
fn first_fault(cols: &Vec<usize>, bad: &Vec<bool>) -> (fault: Option<usize>)
    requires
        cols.len() == bad.len(),
    ensures
        fault == earliest_fault(cols@, bad@),
        fault is None <==> forall|k: int| 0 <= k < bad.len() ==> !bad[k],
        fault matches Some(j) ==> j < bad.len() && bad[j as int],
{
    let mut best: Option<usize> = None;
    let mut k: usize = 0;
    while k < bad.len()
        invariant
            k <= bad.len(),
            cols.len() == bad.len(),
            match best {
                Some(j) => j < k && bad[j as int] && forall|i: int|
                    0 <= i < k && #[trigger] bad[i] ==> cols[j as int] < cols[i] || (cols[j as int]
                        == cols[i] && j <= i),
                None => forall|i: int| 0 <= i < k ==> !bad[i],
            },
        decreases bad.len() - k,
    {
        if bad[k] {
            match best {
                Some(j) => {
                    if cols[k] < cols[j] {
                        best = Some(k);
                    }
                },
                None => {
                    best = Some(k);
                },
            }
        }
        k += 1;
    }
    proof {
        match best {
            Some(j) => {
                assert(is_earliest(cols@, bad@, j as int));
                let c = choose|c: int| is_earliest(cols@, bad@, c);
                assert(bad@[c] && bad@[j as int]);
                assert(c == j);
            },
            None => {
                assert forall|c: int| !is_earliest(cols@, bad@, c) by {}
            },
        }
    }
    best
}

/// The text of a field of a row.
fn cell(row: &Vec<String>, column: usize) -> (text: &str)
    requires
        column < row.len(),
    ensures
        text@ == row.deep_view()[column as int],
{
    row[column].as_str()
}

/// What the store keeps for a time field of a stop-time file.
pub open spec fn field_time(text: Seq<char>) -> Option<Seq<char>> {
    stored_time(text, chrono_clock(text))
}

/// The whole number of a field that may be left empty: 0 where it is.
pub open spec fn field_code(text: Seq<char>) -> Option<i32> {
    if text.len() == 0 {
        Some(0i32)
    } else {
        field_i32(text)
    }
}

/// Reads a field that may be left empty.
pub fn parse_code(text: &str) -> (value: Option<i32>)
    ensures
        value == field_code(text@),
{
    if text.is_empty() {
        Some(0)
    } else {
        parse_i32(text)
    }
}

/// The `location_type` of a row: 0 where the file has no such column or the
/// row leaves it empty.
pub open spec fn location_type_of(row: Seq<Seq<char>>, extra: Option<usize>) -> Option<i32> {
    match extra {
        Some(c) => field_code(row[c as int]),
        None => Some(0i32),
    }
}

impl Row for Service {
    open spec fn source() -> Source {
        Source::Calendar
    }

    open spec fn of_row(row: Seq<Seq<char>>, cols: Seq<usize>, extra: Option<usize>) -> Result<
        Service,
        usize,
    > {
        let mon = field_u8(row[cols[0] as int]);
        let tue = field_u8(row[cols[1] as int]);
        let wed = field_u8(row[cols[2] as int]);
        let thu = field_u8(row[cols[3] as int]);
        let fri = field_u8(row[cols[4] as int]);
        let sat = field_u8(row[cols[5] as int]);
        let sun = field_u8(row[cols[6] as int]);
        let start_date = field_i32(row[cols[7] as int]);
        let end_date = field_i32(row[cols[8] as int]);
        let service_id = field_i32(row[cols[9] as int]);
        match earliest_fault(
            cols,
            seq![
                mon is None,
                tue is None,
                wed is None,
                thu is None,
                fri is None,
                sat is None,
                sun is None,
                start_date is None,
                end_date is None,
                service_id is None,
            ],
        ) {
            Some(field) => Err(field),
            None => Ok(
                Service {
                    mon: mon->0,
                    tue: tue->0,
                    wed: wed->0,
                    thu: thu->0,
                    fri: fri->0,
                    sat: sat->0,
                    sun: sun->0,
                    start_date: start_date->0,
                    end_date: end_date->0,
                    service_id: service_id->0,
                },
            ),
        }
    }

    open spec fn values_of(record: Service) -> Seq<ValueView> {
        service_values(record)
    }

    fn file() -> (file: Source) {
        Source::Calendar
    }

    fn values(&self) -> (values: Vec<Value>) {
        let values = vec![
            Value::Integer(self.mon as i64),
            Value::Integer(self.tue as i64),
            Value::Integer(self.wed as i64),
            Value::Integer(self.thu as i64),
            Value::Integer(self.fri as i64),
            Value::Integer(self.sat as i64),
            Value::Integer(self.sun as i64),
            Value::Integer(self.start_date as i64),
            Value::Integer(self.end_date as i64),
            Value::Integer(self.service_id as i64),
        ];
        assert(values.deep_view() =~= service_values(self.deep_view()));
        values
    }

    fn decode(row: &Vec<String>, cols: &Vec<usize>, extra: Option<usize>) -> (record: Result<
        Service,
        usize,
    >) {
        let mon = parse_u8(cell(row, cols[0]));
        let tue = parse_u8(cell(row, cols[1]));
        let wed = parse_u8(cell(row, cols[2]));
        let thu = parse_u8(cell(row, cols[3]));
        let fri = parse_u8(cell(row, cols[4]));
        let sat = parse_u8(cell(row, cols[5]));
        let sun = parse_u8(cell(row, cols[6]));
        let start_date = parse_i32(cell(row, cols[7]));
        let end_date = parse_i32(cell(row, cols[8]));
        let service_id = parse_i32(cell(row, cols[9]));
        let bad = vec![
            mon.is_none(),
            tue.is_none(),
            wed.is_none(),
            thu.is_none(),
            fri.is_none(),
            sat.is_none(),
            sun.is_none(),
            start_date.is_none(),
            end_date.is_none(),
            service_id.is_none(),
        ];
        proof {
            assert(bad@ =~= seq![
                mon is None,
                tue is None,
                wed is None,
                thu is None,
                fri is None,
                sat is None,
                sun is None,
                start_date is None,
                end_date is None,
                service_id is None,
            ]);
        }
        match first_fault(cols, &bad) {
            Some(field) => Err(field),
            None => {
                assert(!bad[0] && !bad[1] && !bad[2] && !bad[3] && !bad[4] && !bad[5] && !bad[6]
                    && !bad[7] && !bad[8] && !bad[9]);
                Ok(
                    Service {
                        mon: mon.unwrap(),
                        tue: tue.unwrap(),
                        wed: wed.unwrap(),
                        thu: thu.unwrap(),
                        fri: fri.unwrap(),
                        sat: sat.unwrap(),
                        sun: sun.unwrap(),
                        start_date: start_date.unwrap(),
                        end_date: end_date.unwrap(),
                        service_id: service_id.unwrap(),
                    },
                )
            },
        }
    }
}

impl Row for Trip {
    open spec fn source() -> Source {
        Source::Trips
    }

    open spec fn of_row(row: Seq<Seq<char>>, cols: Seq<usize>, extra: Option<usize>) -> Result<
        Trip,
        usize,
    > {
        let route_id = field_i32(row[cols[0] as int]);
        let service_id = field_i32(row[cols[1] as int]);
        let trip_id = field_i32(row[cols[2] as int]);
        match earliest_fault(cols, seq![route_id is None, service_id is None, trip_id is None]) {
            Some(field) => Err(field),
            None => Ok(
                Trip { route_id: route_id->0, service_id: service_id->0, trip_id: trip_id->0 },
            ),
        }
    }

    open spec fn values_of(record: Trip) -> Seq<ValueView> {
        trip_values(record)
    }

    fn file() -> (file: Source) {
        Source::Trips
    }

    fn values(&self) -> (values: Vec<Value>) {
        let values = vec![
            Value::Integer(self.route_id as i64),
            Value::Integer(self.service_id as i64),
            Value::Integer(self.trip_id as i64),
        ];
        assert(values.deep_view() =~= trip_values(self.deep_view()));
        values
    }

    fn decode(row: &Vec<String>, cols: &Vec<usize>, extra: Option<usize>) -> (record: Result<
        Trip,
        usize,
    >) {
        let route_id = parse_i32(cell(row, cols[0]));
        let service_id = parse_i32(cell(row, cols[1]));
        let trip_id = parse_i32(cell(row, cols[2]));
        let bad = vec![route_id.is_none(), service_id.is_none(), trip_id.is_none()];
        proof {
            assert(bad@ =~= seq![route_id is None, service_id is None, trip_id is None]);
        }
        match first_fault(cols, &bad) {
            Some(field) => Err(field),
            None => {
                assert(!bad[0] && !bad[1] && !bad[2]);
                Ok(
                    Trip {
                        route_id: route_id.unwrap(),
                        service_id: service_id.unwrap(),
                        trip_id: trip_id.unwrap(),
                    },
                )
            },
        }
    }
}

impl Row for StopTime {
    open spec fn source() -> Source {
        Source::StopTimes
    }

    open spec fn of_row(row: Seq<Seq<char>>, cols: Seq<usize>, extra: Option<usize>) -> Result<
        StopTimeView,
        usize,
    > {
        let trip_id = field_i32(row[cols[0] as int]);
        let arrival_time = field_time(row[cols[1] as int]);
        let departure_time = field_time(row[cols[2] as int]);
        let stop_id = field_i32(row[cols[3] as int]);
        let stop_sequence = field_i32(row[cols[4] as int]);
        match earliest_fault(
            cols,
            seq![
                trip_id is None,
                arrival_time is None,
                departure_time is None,
                stop_id is None,
                stop_sequence is None,
            ],
        ) {
            Some(field) => Err(field),
            None => Ok(
                StopTimeView {
                    trip_id: trip_id->0,
                    arrival_time: arrival_time->0,
                    departure_time: departure_time->0,
                    stop_id: stop_id->0,
                    stop_sequence: stop_sequence->0,
                },
            ),
        }
    }

    open spec fn values_of(record: StopTimeView) -> Seq<ValueView> {
        stop_time_values(record)
    }

    fn file() -> (file: Source) {
        Source::StopTimes
    }

    fn values(&self) -> (values: Vec<Value>) {
        let values = vec![
            Value::Integer(self.trip_id as i64),
            Value::Text(self.arrival_time.clone()),
            Value::Text(self.departure_time.clone()),
            Value::Integer(self.stop_id as i64),
            Value::Integer(self.stop_sequence as i64),
        ];
        assert(values.deep_view() =~= stop_time_values(self.deep_view()));
        values
    }

    fn decode(row: &Vec<String>, cols: &Vec<usize>, extra: Option<usize>) -> (record: Result<
        StopTime,
        usize,
    >) {
        let trip_id = parse_i32(cell(row, cols[0]));
        let arrival_time = parse_time(cell(row, cols[1]));
        let departure_time = parse_time(cell(row, cols[2]));
        let stop_id = parse_i32(cell(row, cols[3]));
        let stop_sequence = parse_i32(cell(row, cols[4]));
        let bad = vec![
            trip_id.is_none(),
            arrival_time.is_none(),
            departure_time.is_none(),
            stop_id.is_none(),
            stop_sequence.is_none(),
        ];
        proof {
            assert(bad@ =~= seq![
                trip_id is None,
                arrival_time.deep_view() is None,
                departure_time.deep_view() is None,
                stop_id is None,
                stop_sequence is None,
            ]);
        }
        match first_fault(cols, &bad) {
            Some(field) => Err(field),
            None => {
                assert(!bad[0] && !bad[1] && !bad[2] && !bad[3] && !bad[4]);
                Ok(
                    StopTime {
                        trip_id: trip_id.unwrap(),
                        arrival_time: arrival_time.unwrap(),
                        departure_time: departure_time.unwrap(),
                        stop_id: stop_id.unwrap(),
                        stop_sequence: stop_sequence.unwrap(),
                    },
                )
            },
        }
    }
}

impl Row for Stop {
    open spec fn source() -> Source {
        Source::Stops
    }

    /// Name, latitude and longitude are taken as they are written.
    open spec fn of_row(row: Seq<Seq<char>>, cols: Seq<usize>, extra: Option<usize>) -> Result<
        StopView,
        usize,
    > {
        let stop_id = field_i32(row[cols[0] as int]);
        let location_type = location_type_of(row, extra);
        let last: usize = match extra {
            Some(c) => c,
            None => 0,
        };
        match earliest_fault(
            seq![cols[0], cols[1], cols[2], cols[3], last],
            seq![stop_id is None, false, false, false, location_type is None],
        ) {
            Some(field) => Err(field),
            None => Ok(
                StopView {
                    stop_id: stop_id->0,
                    stop_name: row[cols[1] as int],
                    stop_lat: row[cols[2] as int],
                    stop_lon: row[cols[3] as int],
                    location_type: location_type->0,
                },
            ),
        }
    }

    open spec fn values_of(record: StopView) -> Seq<ValueView> {
        stop_values(record)
    }

    fn file() -> (file: Source) {
        Source::Stops
    }

    fn values(&self) -> (values: Vec<Value>) {
        let values = vec![
            Value::Text(self.stop_name.clone()),
            Value::Real(self.stop_lon.clone()),
            Value::Real(self.stop_lat.clone()),
            Value::Integer(self.stop_id as i64),
            Value::Integer(self.location_type as i64),
        ];
        assert(values.deep_view() =~= stop_values(self.deep_view()));
        values
    }

    fn decode(row: &Vec<String>, cols: &Vec<usize>, extra: Option<usize>) -> (record: Result<
        Stop,
        usize,
    >) {
        let stop_id = parse_i32(cell(row, cols[0]));
        let (last, location_type) = match extra {
            Some(c) => (c, parse_code(cell(row, c))),
            None => (0, Some(0)),
        };
        let places = vec![cols[0], cols[1], cols[2], cols[3], last];
        let bad = vec![stop_id.is_none(), false, false, false, location_type.is_none()];
        proof {
            assert(places@ =~= seq![cols[0], cols[1], cols[2], cols[3], last]);
            assert(bad@ =~= seq![stop_id is None, false, false, false, location_type is None]);
        }
        match first_fault(&places, &bad) {
            Some(field) => Err(field),
            None => {
                assert(!bad[0] && !bad[4]);
                Ok(
                    Stop {
                        stop_id: stop_id.unwrap(),
                        stop_name: row[cols[1]].clone(),
                        stop_lat: row[cols[2]].clone(),
                        stop_lon: row[cols[3]].clone(),
                        location_type: location_type.unwrap(),
                    },
                )
            },
        }
    }
}

} // verus!
