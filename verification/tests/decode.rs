use gtfs_loader::columns::{columns, resolve};
use gtfs_loader::decode::{
    load, load_service, load_stops, load_stoptimes, load_trips, records_from,
};
use gtfs_loader::shape::parse_code;
use gtfs_loader::error::{FormatFault, LoadError};
use gtfs_loader::record::{Service, Stop, StopTime, Trip};
use gtfs_loader::source::Source;
use gtfs_loader::table::{find_column, Column, Table};

fn texts(fields: &[&str]) -> Vec<String> {
    fields.iter().map(|f| f.to_string()).collect()
}

fn table(header: &[&str], rows: &[&[&str]]) -> Table {
    Table { header: texts(header), rows: rows.iter().map(|r| texts(r)).collect(), complete: true }
}

#[test]
fn trips_are_read_in_file_order() {
    let data = b"route_id,service_id,trip_id\n1,2,3\n4,5,6\n7,8,9\n";
    assert_eq!(
        load_trips(data),
        Ok(vec![
            Trip { route_id: 1, service_id: 2, trip_id: 3 },
            Trip { route_id: 4, service_id: 5, trip_id: 6 },
            Trip { route_id: 7, service_id: 8, trip_id: 9 },
        ])
    );
}

#[test]
fn as_many_records_as_rows_below_the_header() {
    let mut data = String::from("route_id,service_id,trip_id\n");
    for i in 0..250 {
        data.push_str(&format!("{},{},{}\n", i, i + 1, i + 2));
    }
    let trips = load_trips(data.as_bytes()).unwrap();
    assert_eq!(trips.len(), 250);
    assert_eq!(trips[249], Trip { route_id: 249, service_id: 250, trip_id: 251 });
    assert_eq!(load_trips(b"route_id,service_id,trip_id\n"), Ok(vec![]));
}

#[test]
fn rows_are_neither_dropped_nor_merged_when_equal() {
    let data = b"route_id,service_id,trip_id\n1,1,1\n1,1,1\n1,1,1\n";
    let trip = Trip { route_id: 1, service_id: 1, trip_id: 1 };
    assert_eq!(load_trips(data), Ok(vec![trip, trip, trip]));
}

#[test]
fn columns_are_found_by_name_and_others_passed_over() {
    let data = b"trip_headsign,trip_id,route_id,direction_id,service_id\nDowntown,30,10,0,20\n";
    assert_eq!(load_trips(data), Ok(vec![Trip { route_id: 10, service_id: 20, trip_id: 30 }]));
}

#[test]
fn malformed_number_in_the_middle_fails_the_file() {
    let data = b"route_id,service_id,trip_id\n1,2,3\n4,x5,6\n7,8,9\n";
    assert_eq!(load_trips(data), Err(LoadError::Parse { file: Source::Trips, row: 1, field: 1 }));
}

#[test]
fn the_field_that_stands_first_in_the_row_is_reported() {
    let data = b"trip_id,service_id,route_id\nbad,2,worse\n";
    assert_eq!(load_trips(data), Err(LoadError::Parse { file: Source::Trips, row: 0, field: 2 }));
    let data = b"route_id,service_id,trip_id\nbad,2,worse\n";
    assert_eq!(load_trips(data), Err(LoadError::Parse { file: Source::Trips, row: 0, field: 0 }));
}

#[test]
fn the_first_failing_row_is_reported() {
    let data = b"route_id,service_id,trip_id\n1,2,3\n4,5,\n7,,9\n";
    assert_eq!(load_trips(data), Err(LoadError::Parse { file: Source::Trips, row: 1, field: 2 }));
}

#[test]
fn missing_column_is_a_format_error() {
    let data = b"route_id,trip_id\n1,3\n";
    assert_eq!(
        load_trips(data),
        Err(LoadError::Format {
            file: Source::Trips,
            fault: FormatFault::MissingColumn { field: 1 }
        })
    );
    assert_eq!(
        load_trips(b""),
        Err(LoadError::Format {
            file: Source::Trips,
            fault: FormatFault::MissingColumn { field: 0 }
        })
    );
}

#[test]
fn repeated_column_is_a_format_error() {
    let data = b"route_id,service_id,trip_id,route_id\n1,2,3,4\n";
    assert_eq!(
        load_trips(data),
        Err(LoadError::Format {
            file: Source::Trips,
            fault: FormatFault::RepeatedColumn { field: 0 }
        })
    );
}

#[test]
fn rows_of_unequal_length_are_a_format_error() {
    let data = b"route_id,service_id,trip_id\n1,2,3\n4,5\n";
    assert_eq!(
        load_trips(data),
        Err(LoadError::Format { file: Source::Trips, fault: FormatFault::Unreadable })
    );
    let data = b"route_id,service_id,trip_id\n1,2,3,4\n";
    assert_eq!(
        load_trips(data),
        Err(LoadError::Format { file: Source::Trips, fault: FormatFault::Unreadable })
    );
}

#[test]
fn bytes_that_are_no_text_are_a_format_error() {
    let data = b"route_id,service_id,trip_id\n1,\xff\xfe,3\n";
    assert_eq!(
        load_trips(data),
        Err(LoadError::Format { file: Source::Trips, fault: FormatFault::Unreadable })
    );
}

#[test]
fn short_row_of_a_table_is_a_format_error() {
    let t = table(&["route_id", "service_id", "trip_id"], &[&["1", "2", "3"], &["4", "5"]]);
    assert_eq!(
        records_from::<Trip>(&t),
        Err(LoadError::Format { file: Source::Trips, fault: FormatFault::RowLength { row: 1 } })
    );
    let t = table(&["trip_id", "arrival_time", "departure_time", "stop_id", "stop_sequence"], &[&[]]);
    assert_eq!(
        records_from::<StopTime>(&t),
        Err(LoadError::Format {
            file: Source::StopTimes,
            fault: FormatFault::RowLength { row: 0 }
        })
    );
}

#[test]
fn quoted_fields_are_unquoted() {
    let data = b"route_id,service_id,trip_id\r\n\"1\",\"2\",\"3\"\r\n";
    assert_eq!(load_trips(data), Ok(vec![Trip { route_id: 1, service_id: 2, trip_id: 3 }]));
}

#[test]
fn service_calendar_is_read() {
    let data = b"service_id,monday,tuesday,wednesday,thursday,friday,saturday,sunday,start_date,end_date\n\
7,1,1,1,1,1,0,0,20240101,20241231\n";
    assert_eq!(
        load_service(data),
        Ok(vec![Service {
            mon: 1,
            tue: 1,
            wed: 1,
            thu: 1,
            fri: 1,
            sat: 0,
            sun: 0,
            start_date: 20240101,
            end_date: 20241231,
            service_id: 7,
        }])
    );
}

#[test]
fn day_flag_out_of_range_fails_the_calendar() {
    let data = b"monday,tuesday,wednesday,thursday,friday,saturday,sunday,start_date,end_date,service_id\n\
1,1,1,1,1,0,0,20240101,20241231,7\n1,1,256,1,1,0,0,20240101,20241231,8\n";
    assert_eq!(
        load_service(data),
        Err(LoadError::Parse { file: Source::Calendar, row: 1, field: 2 })
    );
    let t = table(
        &[
            "monday", "tuesday", "wednesday", "thursday", "friday", "saturday", "sunday",
            "start_date", "end_date", "service_id",
        ],
        &[&["1", "0", "1", "0", "1", "0", "-1", "1", "2", "3"]],
    );
    assert_eq!(
        records_from::<Service>(&t),
        Err(LoadError::Parse { file: Source::Calendar, row: 0, field: 6 })
    );
}

#[test]
fn stop_times_keep_their_times_as_six_digits() {
    let data = b"trip_id,arrival_time,departure_time,stop_id,stop_sequence\n\
11,06:05:00,06:07:00,501,1\n11,25:30:00,25:31:30,502,2\n";
    assert_eq!(
        load_stoptimes(data),
        Ok(vec![
            StopTime {
                trip_id: 11,
                arrival_time: String::from("060500"),
                departure_time: String::from("060700"),
                stop_id: 501,
                stop_sequence: 1,
            },
            StopTime {
                trip_id: 11,
                arrival_time: String::from("253000"),
                departure_time: String::from("253130"),
                stop_id: 502,
                stop_sequence: 2,
            },
        ])
    );
}

#[test]
fn stop_time_with_other_columns_between() {
    let data = b"trip_id,arrival_time,departure_time,stop_id,stop_sequence,pickup_type,drop_off_type\n\
11,6:05:00,06:07,501,1,0,0\n";
    assert_eq!(
        load_stoptimes(data),
        Ok(vec![StopTime {
            trip_id: 11,
            arrival_time: String::from("060500"),
            departure_time: String::from("060700"),
            stop_id: 501,
            stop_sequence: 1,
        }])
    );
}

#[test]
fn text_that_is_no_time_is_a_time_format_error() {
    let data = b"trip_id,arrival_time,departure_time,stop_id,stop_sequence\n\
11,06:05:00,06:07:00,501,1\n11,07:00:00,soon,502,2\n";
    assert_eq!(
        load_stoptimes(data),
        Err(LoadError::TimeFormat { file: Source::StopTimes, row: 1, field: 2 })
    );
    let data = b"trip_id,arrival_time,departure_time,stop_id,stop_sequence\n\
11,,06:07:00,501,1\n";
    assert_eq!(
        load_stoptimes(data),
        Err(LoadError::TimeFormat { file: Source::StopTimes, row: 0, field: 1 })
    );
    let data = b"trip_id,arrival_time,departure_time,stop_id,stop_sequence\n\
x,06:05:00,06:07:00,501,1\n";
    assert_eq!(
        load_stoptimes(data),
        Err(LoadError::Parse { file: Source::StopTimes, row: 0, field: 0 })
    );
}

#[test]
fn empty_location_type_is_stored_as_zero() {
    let data = b"stop_id,stop_name,stop_lat,stop_lon,location_type\n\
501,Main St,45.5017,-73.5673,\n502,\"Central, North\",45.51,-73.57,1\n";
    assert_eq!(
        load_stops(data),
        Ok(vec![
            Stop {
                stop_id: 501,
                stop_name: String::from("Main St"),
                stop_lat: String::from("45.5017"),
                stop_lon: String::from("-73.5673"),
                location_type: 0,
            },
            Stop {
                stop_id: 502,
                stop_name: String::from("Central, North"),
                stop_lat: String::from("45.51"),
                stop_lon: String::from("-73.57"),
                location_type: 1,
            },
        ])
    );
}

#[test]
fn absent_location_type_column_is_stored_as_zero() {
    let data = b"stop_lat,stop_lon,stop_name,stop_id\n45.5,-73.5,Main St,501\n";
    assert_eq!(
        load_stops(data),
        Ok(vec![Stop {
            stop_id: 501,
            stop_name: String::from("Main St"),
            stop_lat: String::from("45.5"),
            stop_lon: String::from("-73.5"),
            location_type: 0,
        }])
    );
}

#[test]
fn malformed_location_type_fails_the_stops() {
    let data = b"stop_id,stop_name,stop_lat,stop_lon,location_type\n501,Main St,45.5,-73.5,station\n";
    assert_eq!(load_stops(data), Err(LoadError::Parse { file: Source::Stops, row: 0, field: 4 }));
    let data = b"location_type,stop_id,stop_name,stop_lat,stop_lon\nstation,five,Main St,45.5,-73.5\n";
    assert_eq!(load_stops(data), Err(LoadError::Parse { file: Source::Stops, row: 0, field: 4 }));
    let data = b"stop_id,stop_name,stop_lat,stop_lon,location_type\nfive,Main St,45.5,-73.5,station\n";
    assert_eq!(load_stops(data), Err(LoadError::Parse { file: Source::Stops, row: 0, field: 0 }));
}

#[test]
fn stops_header_faults() {
    let data = b"stop_id,stop_name,stop_lat\n501,Main St,45.5\n";
    assert_eq!(
        load_stops(data),
        Err(LoadError::Format {
            file: Source::Stops,
            fault: FormatFault::MissingColumn { field: 3 }
        })
    );
    let t = table(
        &["stop_id", "stop_name", "stop_lat", "stop_lon", "location_type", "location_type"],
        &[],
    );
    assert_eq!(
        records_from::<Stop>(&t),
        Err(LoadError::Format {
            file: Source::Stops,
            fault: FormatFault::RepeatedColumn { field: 4 }
        })
    );
}

#[test]
fn optional_code_is_zero_when_empty() {
    assert_eq!(parse_code(""), Some(0));
    assert_eq!(parse_code("2"), Some(2));
    assert_eq!(parse_code(" "), None);
}

#[test]
fn table_is_read_field_by_field() {
    let t = Table::read(b"a,b\n1,\"x,y\"\n\"\",2\n").unwrap();
    assert_eq!(t.header, texts(&["a", "b"]));
    assert_eq!(t.rows, vec![texts(&["1", "x,y"]), texts(&["", "2"])]);
    assert!(t.complete);
    let t = Table::read(b"a,b\n1,2\n3\n4,5\n").unwrap();
    assert_eq!(t.header, texts(&["a", "b"]));
    assert_eq!(t.rows, vec![texts(&["1", "2"])]);
    assert!(!t.complete);
    assert!(Table::read(b"a,\xff\n1,2\n").is_none());
    let t = Table::read(b"").unwrap();
    assert!(t.header.is_empty() && t.rows.is_empty() && t.complete);
}

#[test]
fn fault_in_an_earlier_row_comes_before_a_broken_file() {
    let data = b"route_id,service_id,trip_id\n1,2,3\n4,five,6\n7,8\n";
    assert_eq!(load_trips(data), Err(LoadError::Parse { file: Source::Trips, row: 1, field: 1 }));
    let data = b"route_id,service_id,trip_id\n1,2,3\n4,5,6\n7,8\n9,10,eleven\n";
    assert_eq!(
        load_trips(data),
        Err(LoadError::Format { file: Source::Trips, fault: FormatFault::Unreadable })
    );
    let mut cut = table(&["route_id", "service_id", "trip_id"], &[&["1", "2", "3"]]);
    cut.complete = false;
    assert_eq!(
        records_from::<Trip>(&cut),
        Err(LoadError::Format { file: Source::Trips, fault: FormatFault::Unreadable })
    );
}

#[test]
fn columns_are_looked_up_by_exact_name() {
    let header = texts(&["stop_id", "Stop_Id", "stop_name", "stop_id "]);
    assert_eq!(find_column(&header, "stop_id"), Column::At(0));
    assert_eq!(find_column(&header, "stop_name"), Column::At(2));
    assert_eq!(find_column(&header, "stop_lat"), Column::Missing);
    let header = texts(&["a", "b", "a"]);
    assert_eq!(find_column(&header, "a"), Column::Repeated);
    assert_eq!(
        resolve(&header, &vec!["b", "a"]),
        Err(FormatFault::RepeatedColumn { field: 1 })
    );
    assert_eq!(resolve(&header, &vec!["b"]), Ok(vec![1]));
    assert_eq!(resolve(&header, &vec!["b", "c"]), Err(FormatFault::MissingColumn { field: 1 }));
}

#[test]
fn columns_of_a_file_are_found_in_its_header() {
    let header = texts(&["stop_name", "stop_id", "zone", "stop_lon", "stop_lat"]);
    assert_eq!(columns(&header, Source::Stops), Ok((vec![1, 0, 4, 3], None)));
    let header = texts(&["location_type", "stop_name", "stop_id", "stop_lon", "stop_lat"]);
    assert_eq!(columns(&header, Source::Stops), Ok((vec![2, 1, 4, 3], Some(0))));
    let header = texts(&["trip_id", "route_id", "service_id", "location_type"]);
    assert_eq!(columns(&header, Source::Trips), Ok((vec![1, 2, 0], None)));
    assert_eq!(
        columns(&header, Source::StopTimes),
        Err(FormatFault::MissingColumn { field: 1 })
    );
}

#[test]
fn records_of_one_kind_are_loaded_by_their_type() {
    let data = b"route_id,service_id,trip_id\n1,2,3\n";
    assert_eq!(load::<Trip>(data), load_trips(data));
    assert_eq!(
        load::<Stop>(data),
        Err(LoadError::Format {
            file: Source::Stops,
            fault: FormatFault::MissingColumn { field: 0 }
        })
    );
}
