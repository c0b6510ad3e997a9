use gtfs_loader::error::{FormatFault, LoadError};
use gtfs_loader::source::Source;

#[test]
fn each_kind_of_error_has_its_own_status() {
    let errors = vec![
        LoadError::Environment,
        LoadError::Storage,
        LoadError::FileNotFound { file: Source::Trips },
        LoadError::Format { file: Source::Trips, fault: FormatFault::Unreadable },
        LoadError::Parse { file: Source::Trips, row: 3, field: 1 },
        LoadError::TimeFormat { file: Source::StopTimes, row: 3, field: 1 },
    ];
    let codes: Vec<u8> = errors.iter().map(|e| e.exit_code()).collect();
    assert_eq!(codes, vec![2, 3, 4, 5, 6, 7]);
    assert_eq!(
        LoadError::Parse { file: Source::Stops, row: 0, field: 0 }.exit_code(),
        LoadError::Parse { file: Source::Trips, row: 9, field: 2 }.exit_code()
    );
}

#[test]
fn errors_name_their_file() {
    assert_eq!(LoadError::Environment.file(), None);
    assert_eq!(LoadError::Storage.file(), None);
    assert_eq!(LoadError::FileNotFound { file: Source::Stops }.file(), Some(Source::Stops));
    assert_eq!(
        LoadError::TimeFormat { file: Source::StopTimes, row: 1, field: 2 }.file(),
        Some(Source::StopTimes)
    );
}

#[test]
fn files_have_fixed_paths_and_columns() {
    assert_eq!(Source::Calendar.path(), "data/calendar.txt");
    assert_eq!(Source::Trips.path(), "data/trips.txt");
    assert_eq!(Source::StopTimes.path(), "data/stop_times.txt");
    assert_eq!(Source::Stops.path(), "data/stops.txt");
    assert_eq!(Source::Trips.field_names(), vec!["route_id", "service_id", "trip_id"]);
    assert_eq!(Source::Calendar.field_names().len(), 10);
    assert_eq!(
        Source::Stops.field_names(),
        vec!["stop_id", "stop_name", "stop_lat", "stop_lon", "location_type"]
    );
    assert_eq!(
        Source::Stops.required_names(),
        vec!["stop_id", "stop_name", "stop_lat", "stop_lon"]
    );
    assert_eq!(Source::StopTimes.required_names(), Source::StopTimes.field_names());
    assert_eq!(Source::Calendar.next(), Some(Source::Trips));
    assert_eq!(Source::Stops.next(), None);
}

#[test]
fn messages_name_file_row_and_field() {
    assert_eq!(LoadError::Environment.describe(), "DB_DIR is not set");
    assert_eq!(LoadError::Storage.describe(), "the store refused an operation");
    assert_eq!(
        LoadError::FileNotFound { file: Source::Stops }.describe(),
        "data/stops.txt: cannot be opened"
    );
    assert_eq!(
        LoadError::Format { file: Source::Trips, fault: FormatFault::Unreadable }.describe(),
        "data/trips.txt: not delimited text with rows of one length"
    );
    assert_eq!(
        LoadError::Format { file: Source::Trips, fault: FormatFault::MissingColumn { field: 2 } }
            .describe(),
        "data/trips.txt: column trip_id is missing"
    );
    assert_eq!(
        LoadError::Format {
            file: Source::Stops,
            fault: FormatFault::RepeatedColumn { field: 4 }
        }
        .describe(),
        "data/stops.txt: column location_type stands more than once"
    );
    assert_eq!(
        LoadError::Format { file: Source::Calendar, fault: FormatFault::RowLength { row: 9 } }
            .describe(),
        "data/calendar.txt: row 10: not as long as the header"
    );
    assert_eq!(
        LoadError::Parse { file: Source::Trips, row: 0, field: 0 }.describe(),
        "data/trips.txt: row 1: field route_id: not a value of the column's type"
    );
    assert_eq!(
        LoadError::TimeFormat { file: Source::StopTimes, row: 1233, field: 1 }.describe(),
        "data/stop_times.txt: row 1234: field arrival_time: not a time of day"
    );
    assert_eq!(
        LoadError::Parse { file: Source::Trips, row: usize::MAX, field: 7 }.describe(),
        format!(
            "data/trips.txt: row {}: field ?: not a value of the column's type",
            usize::MAX as u128 + 1
        )
    );
}
