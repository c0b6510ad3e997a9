use gtfs_loader::record::{Service, Stop, StopTime, Trip};
use gtfs_loader::source::Source;
use gtfs_loader::decode::{rows, Row};
use gtfs_loader::statement::{
    create_statement, create_tables, insert_statement, value_field, Value,
};

#[test]
fn four_tables_are_created_in_order() {
    let statements = create_tables();
    assert_eq!(statements.len(), 4);
    assert!(statements[0].starts_with("CREATE TABLE IF NOT EXISTS service("));
    assert!(statements[1].starts_with("CREATE TABLE IF NOT EXISTS trip("));
    assert!(statements[2].starts_with("CREATE TABLE IF NOT EXISTS stoptime("));
    assert!(statements[3].starts_with("CREATE TABLE IF NOT EXISTS stops("));
    assert_eq!(statements[0], create_statement(Source::Calendar));
    assert_eq!(statements[1], create_statement(Source::Trips));
    assert_eq!(statements[2], create_statement(Source::StopTimes));
    assert_eq!(statements[3], create_statement(Source::Stops));
    assert_eq!(
        statements[1],
        "CREATE TABLE IF NOT EXISTS trip(route_id int, service_id int, trip_id int)"
    );
}

#[test]
fn insert_statements_name_their_tables() {
    assert_eq!(
        insert_statement(Source::Calendar),
        "INSERT INTO service VALUES(?1, ?2, ?3, ?4, ?5, ?6, ?7, ?8, ?9, ?10)"
    );
    assert_eq!(insert_statement(Source::Trips), "INSERT INTO trip VALUES(?1, ?2, ?3)");
    assert_eq!(
        insert_statement(Source::StopTimes),
        "INSERT INTO stoptime VALUES(?1, ?2, ?3, ?4, ?5)"
    );
    assert_eq!(
        insert_statement(Source::Stops),
        "INSERT INTO stops(stop_name, longitude, latitude, stop_id, location_type) VALUES (?1, ?2, ?3, ?4, ?5)"
    );
}

#[test]
fn values_follow_the_columns() {
    let service = Service {
        mon: 1,
        tue: 0,
        wed: 1,
        thu: 0,
        fri: 1,
        sat: 0,
        sun: 1,
        start_date: 20240101,
        end_date: 20240630,
        service_id: -3,
    };
    assert_eq!(
        service.values(),
        vec![
            Value::Integer(1),
            Value::Integer(0),
            Value::Integer(1),
            Value::Integer(0),
            Value::Integer(1),
            Value::Integer(0),
            Value::Integer(1),
            Value::Integer(20240101),
            Value::Integer(20240630),
            Value::Integer(-3),
        ]
    );
    let trip = Trip { route_id: 1, service_id: 2, trip_id: 3 };
    assert_eq!(trip.values(), vec![Value::Integer(1), Value::Integer(2), Value::Integer(3)]);
    let stop_time = StopTime {
        trip_id: 3,
        arrival_time: String::from("060500"),
        departure_time: String::from("060700"),
        stop_id: 9,
        stop_sequence: 4,
    };
    assert_eq!(
        stop_time.values(),
        vec![
            Value::Integer(3),
            Value::Text(String::from("060500")),
            Value::Text(String::from("060700")),
            Value::Integer(9),
            Value::Integer(4),
        ]
    );
}

#[test]
fn stop_values_put_longitude_before_latitude() {
    let stop = Stop {
        stop_id: 501,
        stop_name: String::from("Main St"),
        stop_lat: String::from("45.5"),
        stop_lon: String::from("-73.5"),
        location_type: 0,
    };
    let expected = vec![
        Value::Text(String::from("Main St")),
        Value::Real(String::from("-73.5")),
        Value::Real(String::from("45.5")),
        Value::Integer(501),
        Value::Integer(0),
    ];
    assert_eq!(stop.values(), expected);
    assert_eq!(rows(&vec![stop.clone(), stop]), vec![expected.clone(), expected]);
    assert_eq!(rows::<Stop>(&Vec::new()), Vec::<Vec<Value>>::new());
}

#[test]
fn positions_of_values_map_to_fields() {
    assert_eq!(value_field(Source::Stops, 0), 1);
    assert_eq!(value_field(Source::Stops, 1), 3);
    assert_eq!(value_field(Source::Stops, 2), 2);
    assert_eq!(value_field(Source::Stops, 3), 0);
    assert_eq!(value_field(Source::Stops, 4), 4);
    assert_eq!(value_field(Source::Trips, 2), 2);
    let names = Source::Stops.field_names();
    assert_eq!(names[value_field(Source::Stops, 1)], "stop_lon");
    assert_eq!(names[value_field(Source::Stops, 2)], "stop_lat");
}
