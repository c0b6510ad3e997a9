//! From the bytes of a file to its records, and on to the rows of values
//! that the store takes.
//!
//! A file is read in three steps. The header is searched for the columns of
//! the record's fields. Then each row is taken in turn: it must be as long
//! as the header, and each of its fields must hold a value of its column's
//! type. The first row that fails ends the reading, and nothing of the file
//! is kept. Where several fields of a row fail, the one that stands first in
//! the row is reported. A file that breaks off in the middle fails after
//! the rows before the break have been found good.

use vstd::prelude::*;
use vstd::string::*;
use crate::columns::{columns, columns_of};
use crate::error::{FormatFault, LoadError};
use crate::gather::{
    gathered,
    lemma_failure_has_first,
    lemma_gathered_err,
    lemma_gathered_len,
    lemma_gathered_ok,
};
use crate::record::{Service, Stop, StopTime, StopTimeView, StopView, Trip};
use crate::source::{required_fields, Source};
use crate::statement::{Value, ValueView};
use crate::table::{csv_table, table_of, Table, TableView};

verus! {

/// The error for a field of a row that does not hold what it must.
pub open spec fn field_error(file: Source, row: usize, field: usize) -> LoadError {
    if file == Source::StopTimes && (field == 1 || field == 2) {
        LoadError::TimeFormat { file, row, field }
    } else {
        LoadError::Parse { file, row, field }
    }
}

/// The error for a field of a row that does not hold what it must.
pub fn field_failure(file: Source, row: usize, field: usize) -> (error: LoadError)
    ensures
        error == field_error(file, row, field),
{
    match file {
        Source::StopTimes => {
            if field == 1 || field == 2 {
                LoadError::TimeFormat { file, row, field }
            } else {
                LoadError::Parse { file, row, field }
            }
        },
        _ => LoadError::Parse { file, row, field },
    }
}

/// The error for a row that is longer or shorter than the header.
pub open spec fn length_error(file: Source, row: usize) -> LoadError {
    LoadError::Format { file, fault: FormatFault::RowLength { row } }
}

/// The error for a file that breaks off in something that is no row.
pub open spec fn broken(file: Source) -> LoadError {
    LoadError::Format { file, fault: FormatFault::Unreadable }
}

/// A kind of record that a file gives, one for each of its rows.
pub trait Row: Sized + DeepView {
    /// The file that holds the records of this kind.
    spec fn source() -> Source;

    /// The record of a row whose fields stand in the columns `cols`, and in
    /// `extra` the one that may be left out; or the field at fault.
    spec fn of_row(row: Seq<Seq<char>>, cols: Seq<usize>, extra: Option<usize>) -> Result<
        Self::V,
        usize,
    >;

    /// The values of a record, in the order in which the insert statement
    /// of its table takes them.
    spec fn values_of(record: Self::V) -> Seq<ValueView>;

    /// The file that holds the records of this kind.
    fn file() -> (file: Source)
        ensures
            file == Self::source(),
    ;

    /// The values that the insert statement of the record's table takes.
    fn values(&self) -> (values: Vec<Value>)
        ensures
            values.deep_view() == Self::values_of(self.deep_view()),
    ;

    /// Reads one row.
    fn decode(row: &Vec<String>, cols: &Vec<usize>, extra: Option<usize>) -> (record: Result<
        Self,
        usize,
    >)
        requires
            cols.len() == required_fields(Self::source()),
            forall|j: int| 0 <= j < cols.len() ==> cols[j] < row.len(),
            extra matches Some(c) ==> c < row.len(),
        ensures
            match record {
                Ok(r) => Self::of_row(row.deep_view(), cols@, extra) == Ok::<_, usize>(
                    r.deep_view(),
                ),
                Err(field) => Self::of_row(row.deep_view(), cols@, extra) == Err::<Self::V, _>(
                    field,
                ),
            },
    ;
}

/// What row `i` of a table gives.
pub open spec fn row_outcome<R: Row>(
    table: TableView,
    cols: Seq<usize>,
    extra: Option<usize>,
    i: int,
) -> Result<R::V, LoadError> {
    if table.rows[i].len() != table.header.len() {
        Err(length_error(R::source(), i as usize))
    } else {
        match R::of_row(table.rows[i], cols, extra) {
            Ok(record) => Ok(record),
            Err(field) => Err(field_error(R::source(), i as usize, field)),
        }
    }
}

/// The records of a table: one for each row, in the order of the rows. The
/// header is looked at first, then the rows in turn, and at the end whether
/// the file was read to its end; the first fault found is the error.
pub open spec fn records_of<R: Row>(table: TableView) -> Result<Seq<R::V>, LoadError> {
    match columns_of(table.header, R::source()) {
        Err(fault) => Err(LoadError::Format { file: R::source(), fault }),
        Ok((cols, extra)) => match gathered(
            Seq::new(table.rows.len(), |i: int| row_outcome::<R>(table, cols, extra, i)),
        ) {
            Err(error) => Err(error),
            Ok(records) => if table.complete {
                Ok(records)
            } else {
                Err(broken(R::source()))
            },
        },
    }
}

/// The records that the bytes of a file hold.
pub open spec fn loaded<R: Row>(data: Seq<u8>) -> Result<Seq<R::V>, LoadError> {
    match table_of(csv_table(data)) {
        None => Err(broken(R::source())),
        Some(table) => records_of::<R>(table),
    }
}

/// A file that gives records gives one for each of its rows.
pub proof fn lemma_one_record_for_each_row<R: Row>(table: TableView)
    ensures
        records_of::<R>(table) matches Ok(records) ==> records.len() == table.rows.len()
            && table.complete,
{
    if records_of::<R>(table) is Ok {
        let (cols, extra) = columns_of(table.header, R::source())->Ok_0;
        lemma_gathered_len(
            Seq::new(table.rows.len(), |i: int| row_outcome::<R>(table, cols, extra, i)),
        );
    }
}

/// One row that cannot be read fails the whole file, wherever in the file
/// it stands and whatever the other rows hold.
pub proof fn lemma_one_bad_row_fails_the_file<R: Row>(table: TableView, i: int)
    requires
        0 <= i < table.rows.len(),
        columns_of(table.header, R::source()) matches Ok(found) && row_outcome::<R>(
            table,
            found.0,
            found.1,
            i,
        ) is Err,
    ensures
        records_of::<R>(table) is Err,
{
    let (cols, extra) = columns_of(table.header, R::source())->Ok_0;
    lemma_failure_has_first(
        Seq::new(table.rows.len(), |i: int| row_outcome::<R>(table, cols, extra, i)),
        i,
    );
}

/// Reads the records of a table.
pub fn records_from<R: Row>(table: &Table) -> (records: Result<Vec<R>, LoadError>)
    ensures
        match records {
            Ok(r) => records_of::<R>(table@) == Ok::<_, LoadError>(r.deep_view()),
            Err(e) => records_of::<R>(table@) == Err::<Seq<R::V>, _>(e),
        },
        records matches Ok(r) ==> r.len() == table.rows.len(),
{
    let file = R::file();
    let (cols, extra) = match columns(&table.header, file) {
        Ok(found) => found,
        Err(fault) => {
            return Err(LoadError::Format { file, fault });
        },
    };
    let ghost outcomes = Seq::new(
        table@.rows.len(),
        |i: int| row_outcome::<R>(table@, cols@, extra, i),
    );
    let mut records: Vec<R> = Vec::new();
    let mut i: usize = 0;
    while i < table.rows.len()
        invariant
            i <= table.rows.len(),
            records.len() == i,
            file == R::source(),
            cols.len() == required_fields(R::source()),
            forall|j: int| 0 <= j < cols.len() ==> cols[j] < table.header.len(),
            extra matches Some(c) ==> c < table.header.len(),
            columns_of(table@.header, R::source()) == Ok::<_, FormatFault>((cols@, extra)),
            outcomes == Seq::new(
                table@.rows.len(),
                |i: int| row_outcome::<R>(table@, cols@, extra, i),
            ),
            forall|k: int|
                0 <= k < i ==> (#[trigger] outcomes[k]) == Ok::<R::V, LoadError>(
                    records.deep_view()[k],
                ),
        decreases table.rows.len() - i,
    {
        let row = &table.rows[i];
        assert(table@.rows[i as int] == row.deep_view());
        if row.len() != table.header.len() {
            proof {
                lemma_gathered_err(outcomes, i as int);
            }
            return Err(LoadError::Format { file, fault: FormatFault::RowLength { row: i } });
        }
        match R::decode(row, &cols, extra) {
            Ok(record) => {
                let ghost before = records.deep_view();
                records.push(record);
                assert(forall|k: int| 0 <= k < i ==> records.deep_view()[k] == before[k]);
            },
            Err(field) => {
                proof {
                    lemma_gathered_err(outcomes, i as int);
                }
                return Err(field_failure(file, i, field));
            },
        }
        i += 1;
    }
    proof {
        lemma_gathered_ok(outcomes, records.deep_view());
    }
    if !table.complete {
        return Err(LoadError::Format { file, fault: FormatFault::Unreadable });
    }
    Ok(records)
}

/// Reads the records of one kind from the bytes of their file.
pub fn load<R: Row>(data: &[u8]) -> (records: Result<Vec<R>, LoadError>)
    ensures
        match records {
            Ok(r) => loaded::<R>(data@) == Ok::<_, LoadError>(r.deep_view()),
            Err(e) => loaded::<R>(data@) == Err::<Seq<R::V>, _>(e),
        },
{
    match Table::read(data) {
        Some(table) => records_from::<R>(&table),
        None => Err(LoadError::Format { file: R::file(), fault: FormatFault::Unreadable }),
    }
}

/// The rows of values of a list of records.
pub open spec fn rows_of<R: Row>(records: Seq<R::V>) -> Seq<Seq<ValueView>> {
    Seq::new(records.len(), |i: int| R::values_of(records[i]))
}

/// The rows of values of a list of records, one for each record and in the
/// order of the records.
pub fn rows<R: Row>(records: &Vec<R>) -> (rows: Vec<Vec<Value>>)
    ensures
        rows.deep_view() == rows_of::<R>(records.deep_view()),
{
    let mut rows: Vec<Vec<Value>> = Vec::new();
    let mut i: usize = 0;
    while i < records.len()
        invariant
            i <= records.len(),
            rows.len() == i,
            forall|k: int|
                0 <= k < i ==> (#[trigger] rows[k]).deep_view() == R::values_of(
                    records[k].deep_view(),
                ),
        decreases records.len() - i,
    {
        rows.push(records[i].values());
        i += 1;
    }
    assert(rows.deep_view() =~= rows_of::<R>(records.deep_view()));
    rows
}

/// The rows of values that the bytes of a file give for its table.
pub open spec fn batch_for<R: Row>(data: Seq<u8>) -> Result<Seq<Seq<ValueView>>, LoadError> {
    match loaded::<R>(data) {
        Ok(records) => Ok(rows_of::<R>(records)),
        Err(error) => Err(error),
    }
}

/// Reads the service calendars from the bytes of `data/calendar.txt`.
///
/// Each row gives one record: the seven days of the week as numbers of
/// eight bits, the two dates and the number of the calendar as whole
/// numbers of 32 bits. No row is left out and none is changed in its place.
/// The first row that cannot be read fails the whole file.
pub fn load_service(data: &[u8]) -> (records: Result<Vec<Service>, LoadError>)
    ensures
        match records {
            Ok(r) => loaded::<Service>(data@) == Ok::<_, LoadError>(r.deep_view()),
            Err(e) => loaded::<Service>(data@) == Err::<Seq<Service>, _>(e),
        },
{
    load::<Service>(data)
}

/// Reads the trips from the bytes of `data/trips.txt`.
///
/// Each row gives one record of three whole numbers: route, service
/// calendar and trip. Columns beyond these three are passed over. No row is
/// left out and none is changed in its place. The first row that cannot be
/// read fails the whole file.
pub fn load_trips(data: &[u8]) -> (records: Result<Vec<Trip>, LoadError>)
    ensures
        match records {
            Ok(r) => loaded::<Trip>(data@) == Ok::<_, LoadError>(r.deep_view()),
            Err(e) => loaded::<Trip>(data@) == Err::<Seq<Trip>, _>(e),
        },
{
    load::<Trip>(data)
}

/// Reads the stop times from the bytes of `data/stop_times.txt`.
///
/// Each row gives one record: the trip, the stop and the place in the
/// trip's order as whole numbers, the arrival and the departure as six
/// digits, `HHMMSS`. No row is left out and none is changed in its place.
/// The first row that cannot be read fails the whole file.
pub fn load_stoptimes(data: &[u8]) -> (records: Result<Vec<StopTime>, LoadError>)
    ensures
        match records {
            Ok(r) => loaded::<StopTime>(data@) == Ok::<_, LoadError>(r.deep_view()),
            Err(e) => loaded::<StopTime>(data@) == Err::<Seq<StopTimeView>, _>(e),
        },
{
    load::<StopTime>(data)
}

/// Reads the stops from the bytes of `data/stops.txt`.
///
/// Each row gives one record: the number of the stop, its name, latitude
/// and longitude as the file writes them, and the `location_type`, which is
/// 0 where the file has no such column or leaves the field empty. No row is
/// left out and none is changed in its place. The first row that cannot be
/// read fails the whole file.
pub fn load_stops(data: &[u8]) -> (records: Result<Vec<Stop>, LoadError>)
    ensures
        match records {
            Ok(r) => loaded::<Stop>(data@) == Ok::<_, LoadError>(r.deep_view()),
            Err(e) => loaded::<Stop>(data@) == Err::<Seq<StopView>, _>(e),
        },
{
    load::<Stop>(data)
}

} // verus!
