//! What a load does to a store.
//!
//! The store itself is out of this crate's reach, so it is described here:
//! four tables of rows, and at most one open transaction. A store does what
//! it is asked when it says so; when it reports a failure, nothing is known
//! of the rows that the failed request has left behind. Against this
//! description the steps of [`crate::driver`] are shown to keep the load
//! whole: a store holds either what it held before, or that and every row
//! of all four files.

use vstd::prelude::*;
use crate::driver::{
    batch_of,
    first,
    next,
    path_in,
    ActionView,
    EventView,
    Phase,
    SUCCESS_MESSAGE,
};
use crate::error::LoadError;
use crate::decode::lemma_one_record_for_each_row;
use crate::record::{Service, Stop, StopTime, Trip};
use crate::source::Source;
use crate::statement::{create_of, insert_of, ValueView};
use crate::table::{csv_table, table_of};

verus! {

/// The rows of the four tables.
pub struct Store {
    pub service: Seq<Seq<ValueView>>,
    pub trip: Seq<Seq<ValueView>>,
    pub stoptime: Seq<Seq<ValueView>>,
    pub stops: Seq<Seq<ValueView>>,
}

impl Store {
    /// The rows of the table that takes the records of a file.
    pub open spec fn table(self, source: Source) -> Seq<Seq<ValueView>> {
        match source {
            Source::Calendar => self.service,
            Source::Trips => self.trip,
            Source::StopTimes => self.stoptime,
            Source::Stops => self.stops,
        }
    }

    /// The store with `rows` added at the end of a file's table. No row
    /// that is there is looked at, changed or dropped.
    pub open spec fn with_rows(self, source: Source, rows: Seq<Seq<ValueView>>) -> Store {
        match source {
            Source::Calendar => Store { service: self.service + rows, ..self },
            Source::Trips => Store { trip: self.trip + rows, ..self },
            Source::StopTimes => Store { stoptime: self.stoptime + rows, ..self },
            Source::Stops => Store { stops: self.stops + rows, ..self },
        }
    }
}

/// A store between two requests: what it keeps for good, and what its open
/// transaction holds, if one is open.
pub struct Session {
    pub kept: Store,
    pub held: Option<Store>,
}

/// A store to which nothing has been done yet.
pub open spec fn fresh(store: Store) -> Session {
    Session { kept: store, held: None }
}

/// The store after it has answered `answer` to the request `action`.
///
/// A request that the store reports as completed has been carried out. An
/// insert that it reports otherwise leaves rows of which nothing is known,
/// in the transaction if one is open and in the store itself if none is.
pub open spec fn settle(session: Session, action: ActionView, answer: EventView) -> Session {
    let done = answer is Completed;
    match action {
        ActionView::Begin => if done && session.held is None {
            Session { kept: session.kept, held: Some(session.kept) }
        } else {
            session
        },
        ActionView::Insert { file, rows, .. } => match session.held {
            Some(held) => Session {
                kept: session.kept,
                held: Some(
                    if done {
                        held.with_rows(file, rows)
                    } else {
                        arbitrary()
                    },
                ),
            },
            None => Session {
                kept: if done {
                    session.kept.with_rows(file, rows)
                } else {
                    arbitrary()
                },
                held: None,
            },
        },
        ActionView::Commit => match session.held {
            Some(held) => if done {
                Session { kept: held, held: None }
            } else {
                session
            },
            None => session,
        },
        ActionView::Rollback => if done {
            Session { kept: session.kept, held: None }
        } else {
            session
        },
        _ => session,
    }
}

/// A load at one moment: its phase, the request that the caller has in
/// hand, and the store.
pub struct Moment {
    pub phase: Phase,
    pub action: ActionView,
    pub session: Session,
}

/// A load as it begins on a store.
pub open spec fn begun(store: Store, directory: Option<Seq<char>>) -> Moment {
    Moment { phase: first(directory).0, action: first(directory).1, session: fresh(store) }
}

/// The moment after the store or the file system has answered the request
/// in hand.
pub open spec fn advance(moment: Moment, answer: EventView) -> Moment {
    Moment {
        phase: next(moment.phase, answer).0,
        action: next(moment.phase, answer).1,
        session: settle(moment.session, moment.action, answer),
    }
}

/// The moment after the first `n` of the answers.
pub open spec fn after(
    store: Store,
    directory: Option<Seq<char>>,
    answers: Seq<EventView>,
    n: nat,
) -> Moment
    decreases n,
{
    if n == 0 {
        begun(store, directory)
    } else {
        advance(after(store, directory, answers, (n - 1) as nat), answers[n - 1])
    }
}

/// The moment after all the answers.
pub open spec fn outcome(
    store: Store,
    directory: Option<Seq<char>>,
    answers: Seq<EventView>,
) -> Moment {
    after(store, directory, answers, answers.len())
}

/// What holds of a load on `store` at every moment: the store keeps what
/// it kept at the start until the load is done, rows are inserted and
/// committed only inside the transaction, and the request in hand is the
/// one of the phase.
pub open spec fn sound(moment: Moment, store: Store) -> bool {
    match moment.phase {
        Phase::Opening => moment.session == fresh(store) && moment.action is Open,
        Phase::Creating(_) => moment.session == fresh(store) && moment.action is Execute,
        Phase::Beginning => moment.session == fresh(store) && moment.action is Begin,
        Phase::Reading(_) => moment.session.kept == store && moment.session.held is Some
            && moment.action is Read,
        Phase::Writing(_) => moment.session.kept == store && moment.session.held is Some
            && moment.action is Insert,
        Phase::Committing => moment.session.kept == store && moment.session.held is Some
            && moment.action is Commit,
        Phase::Undoing(_) => moment.session.kept == store && moment.action is Rollback,
        Phase::Done => moment.session.held is None && moment.action is Finish,
        Phase::Failed(_) => moment.session.kept == store && moment.action is Fail,
    }
}

/// Whatever the answers are, a load stays sound.
pub proof fn lemma_load_is_sound(
    store: Store,
    directory: Option<Seq<char>>,
    answers: Seq<EventView>,
    n: nat,
)
    ensures
        sound(after(store, directory, answers, n), store),
    decreases n,
{
    if n > 0 {
        lemma_load_is_sound(store, directory, answers, (n - 1) as nat);
    }
}

/// A load is all or nothing: whatever the store and the files answer, and
/// wherever the load stands, the store keeps exactly what it kept before
/// the load unless the load is done.
pub proof fn lemma_nothing_kept_unless_done(
    store: Store,
    directory: Option<Seq<char>>,
    answers: Seq<EventView>,
)
    ensures
        outcome(store, directory, answers).phase != Phase::Done ==> outcome(
            store,
            directory,
            answers,
        ).session.kept == store,
{
    lemma_load_is_sound(store, directory, answers, answers.len());
}

/// Without a directory a load fails at once and stays failed: the one
/// request the caller ever gets is to report the error. It is never asked to
/// open a store, to create a table or to read a file, and the store is left
/// alone.
pub proof fn lemma_no_directory_no_work(store: Store, answers: Seq<EventView>, n: nat)
    ensures
        after(store, None, answers, n) == (Moment {
            phase: Phase::Failed(LoadError::Environment),
            action: ActionView::Fail(LoadError::Environment),
            session: fresh(store),
        }),
    decreases n,
{
    if n > 0 {
        lemma_no_directory_no_work(store, answers, (n - 1) as nat);
    }
}

/// The place of a file in the order of a load.
pub open spec fn position(source: Source) -> int {
    match source {
        Source::Calendar => 0,
        Source::Trips => 1,
        Source::StopTimes => 2,
        Source::Stops => 3,
    }
}

/// The bytes that were answered when a file was to be read. A load asks
/// for its first file with its seventh request, and for each file after it
/// two requests later.
pub open spec fn file_read(answers: Seq<EventView>, source: Source) -> Seq<u8> {
    match answers[6 + 2 * position(source)] {
        EventView::Contents(data) => data,
        _ => Seq::empty(),
    }
}

/// The rows that the file read for `source` gives.
pub open spec fn rows_read(answers: Seq<EventView>, source: Source) -> Seq<Seq<ValueView>> {
    match batch_of(source, file_read(answers, source)) {
        Ok(rows) => rows,
        Err(_) => Seq::empty(),
    }
}

/// The store with the rows of the first `files` files added, each to its
/// own table.
pub open spec fn grown(store: Store, answers: Seq<EventView>, files: int) -> Store {
    let one = if files >= 1 {
        store.with_rows(Source::Calendar, rows_read(answers, Source::Calendar))
    } else {
        store
    };
    let two = if files >= 2 {
        one.with_rows(Source::Trips, rows_read(answers, Source::Trips))
    } else {
        one
    };
    let three = if files >= 3 {
        two.with_rows(Source::StopTimes, rows_read(answers, Source::StopTimes))
    } else {
        two
    };
    if files >= 4 {
        three.with_rows(Source::Stops, rows_read(answers, Source::Stops))
    } else {
        three
    }
}

/// Whether the file for `source` was answered with bytes that could be
/// read.
pub open spec fn was_read(answers: Seq<EventView>, source: Source) -> bool {
    answers[6 + 2 * position(source)] is Contents && batch_of(
        source,
        file_read(answers, source),
    ) is Ok
}

/// What holds after `n` answers of a load on `store`, phase by phase: how
/// many answers it takes to get there, and what the transaction holds.
pub open spec fn exact(moment: Moment, store: Store, answers: Seq<EventView>, n: nat) -> bool {
    match moment.phase {
        Phase::Opening => n == 0,
        Phase::Creating(source) => n == 1 + position(source),
        Phase::Beginning => n == 5,
        Phase::Reading(source) => {
            &&& n == 6 + 2 * position(source)
            &&& moment.session.held == Some(grown(store, answers, position(source)))
            &&& forall|before: Source|
                position(before) < position(source) ==> was_read(answers, before)
        },
        Phase::Writing(source) => {
            &&& n == 7 + 2 * position(source)
            &&& moment.session.held == Some(grown(store, answers, position(source)))
            &&& moment.action matches ActionView::Insert { file, rows, .. }
            &&& file == source
            &&& rows == rows_read(answers, source)
            &&& forall|before: Source|
                position(before) <= position(source) ==> was_read(answers, before)
        },
        Phase::Committing => {
            &&& n == 14
            &&& moment.session.held == Some(grown(store, answers, 4))
            &&& forall|source: Source| was_read(answers, source)
        },
        Phase::Done => {
            &&& n >= 15
            &&& moment.session.kept == grown(store, answers, 4)
            &&& forall|source: Source| was_read(answers, source)
        },
        _ => true,
    }
}

/// Whatever the answers are, a load is where its phase says.
pub proof fn lemma_load_is_exact(
    store: Store,
    directory: Option<Seq<char>>,
    answers: Seq<EventView>,
    n: nat,
)
    ensures
        exact(after(store, directory, answers, n), store, answers, n),
        sound(after(store, directory, answers, n), store),
    decreases n,
{
    if n > 0 {
        lemma_load_is_exact(store, directory, answers, (n - 1) as nat);
        let before = after(store, directory, answers, (n - 1) as nat);
        let now = after(store, directory, answers, n);
        assert(now == advance(before, answers[n - 1]));
    }
}

/// A load that is done has added to each table the rows of the file that
/// was read for it, one for each row of the file and in the file's order,
/// behind the rows that the table held. Nothing else in the store has
/// changed.
pub proof fn lemma_done_has_every_row(
    store: Store,
    directory: Option<Seq<char>>,
    answers: Seq<EventView>,
    source: Source,
)
    requires
        outcome(store, directory, answers).phase == Phase::Done,
    ensures
        batch_of(source, file_read(answers, source)) is Ok,
        outcome(store, directory, answers).session.kept.table(source) == store.table(source)
            + batch_of(source, file_read(answers, source))->Ok_0,
        outcome(store, directory, answers).session.held is None,
{
    lemma_load_is_exact(store, directory, answers, answers.len());
    assert(was_read(answers, source));
}

/// The rows that a file gives are as many as the rows of the file, the
/// header not counted, and the file has been read to its end.
pub proof fn lemma_batch_has_every_row(source: Source, data: Seq<u8>)
    ensures
        batch_of(source, data) matches Ok(rows) ==> csv_table(data) matches Some(read) && read.2
            && rows.len() == read.1.len(),
{
    if batch_of(source, data) is Ok {
        let table = table_of(csv_table(data))->0;
        match source {
            Source::Calendar => lemma_one_record_for_each_row::<Service>(table),
            Source::Trips => lemma_one_record_for_each_row::<Trip>(table),
            Source::StopTimes => lemma_one_record_for_each_row::<StopTime>(table),
            Source::Stops => lemma_one_record_for_each_row::<Stop>(table),
        }
    }
}

/// After a load that is done, each table has grown by as many rows as its
/// file has rows below the header.
pub proof fn lemma_done_counts_rows(
    store: Store,
    directory: Option<Seq<char>>,
    answers: Seq<EventView>,
    source: Source,
)
    requires
        outcome(store, directory, answers).phase == Phase::Done,
    ensures
        csv_table(file_read(answers, source)) matches Some(read) && read.2 && outcome(
            store,
            directory,
            answers,
        ).session.kept.table(source).len() == store.table(source).len() + read.1.len(),
{
    lemma_done_has_every_row(store, directory, answers, source);
    lemma_batch_has_every_row(source, file_read(answers, source));
}

/// A second load of the same files adds their rows a second time: the
/// store is not asked what it holds, and no row is left out because it is
/// there already.
pub proof fn lemma_second_load_adds_again(
    store: Store,
    directory: Option<Seq<char>>,
    first_answers: Seq<EventView>,
    second_answers: Seq<EventView>,
    source: Source,
)
    requires
        outcome(store, directory, first_answers).phase == Phase::Done,
        outcome(
            outcome(store, directory, first_answers).session.kept,
            directory,
            second_answers,
        ).phase == Phase::Done,
        file_read(first_answers, source) == file_read(second_answers, source),
    ensures
        ({
            let rows = batch_of(source, file_read(first_answers, source))->Ok_0;
            let once = outcome(store, directory, first_answers).session.kept;
            let twice = outcome(once, directory, second_answers).session.kept;
            &&& twice.table(source) == store.table(source) + rows + rows
            &&& twice.table(source).len() == store.table(source).len() + 2 * rows.len()
        }),
{
    let once = outcome(store, directory, first_answers).session.kept;
    lemma_done_has_every_row(store, directory, first_answers, source);
    lemma_done_has_every_row(once, directory, second_answers, source);
}

/// Once a load has failed it stays failed, with the same error to report.
pub proof fn lemma_failed_stays_failed(
    store: Store,
    directory: Option<Seq<char>>,
    answers: Seq<EventView>,
    n: nat,
    m: nat,
    error: LoadError,
)
    requires
        n <= m,
        after(store, directory, answers, n).phase == Phase::Failed(error),
    ensures
        after(store, directory, answers, m).phase == Phase::Failed(error),
        after(store, directory, answers, m).action == ActionView::Fail(error),
    decreases m,
{
    if m > n {
        lemma_failed_stays_failed(store, directory, answers, n, (m - 1) as nat, error);
    } else {
        lemma_load_is_sound(store, directory, answers, n);
        if n > 0 {
            let before = after(store, directory, answers, (n - 1) as nat);
            assert(after(store, directory, answers, n) == advance(before, answers[n - 1]));
        }
    }
}

/// A file that cannot be read ends the load with nothing kept. The caller
/// is asked to roll the transaction back and then, whatever comes of that,
/// to report the error of the file. The store keeps what it kept before the
/// load, whichever files were inserted before this one.
pub proof fn lemma_unreadable_file_keeps_nothing(
    store: Store,
    directory: Option<Seq<char>>,
    answers: Seq<EventView>,
    n: nat,
    m: nat,
    source: Source,
    data: Seq<u8>,
    error: LoadError,
)
    requires
        after(store, directory, answers, n).phase == Phase::Reading(source),
        answers[n as int] == EventView::Contents(data),
        batch_of(source, data) == Err::<Seq<Seq<ValueView>>, _>(error),
        m > n,
    ensures
        after(store, directory, answers, n + 1).phase == Phase::Undoing(error),
        after(store, directory, answers, n + 1).action == ActionView::Rollback,
        m > n + 1 ==> after(store, directory, answers, m).phase == Phase::Failed(error) && after(
            store,
            directory,
            answers,
            m,
        ).action == ActionView::Fail(error),
        after(store, directory, answers, m).session.kept == store,
{
    let here = after(store, directory, answers, n);
    let one = after(store, directory, answers, n + 1);
    assert(one == advance(here, answers[n as int]));
    let two = after(store, directory, answers, n + 2);
    assert(two == advance(one, answers[n as int + 1]));
    if m > n + 1 {
        lemma_failed_stays_failed(store, directory, answers, n + 2, m, error);
    }
    lemma_load_is_sound(store, directory, answers, m);
}

/// The answers of a load in which the store does all it is asked and the
/// four files are there.
pub open spec fn smooth(
    calendar: Seq<u8>,
    trips: Seq<u8>,
    stop_times: Seq<u8>,
    stops: Seq<u8>,
) -> Seq<EventView> {
    seq![
        EventView::Completed,
        EventView::Completed,
        EventView::Completed,
        EventView::Completed,
        EventView::Completed,
        EventView::Completed,
        EventView::Contents(calendar),
        EventView::Completed,
        EventView::Contents(trips),
        EventView::Completed,
        EventView::Contents(stop_times),
        EventView::Completed,
        EventView::Contents(stops),
        EventView::Completed,
        EventView::Completed,
    ]
}

/// The request to insert the rows of a file that can be read.
pub open spec fn insert_request(source: Source, data: Seq<u8>) -> ActionView {
    ActionView::Insert {
        file: source,
        statement: insert_of(source),
        rows: batch_of(source, data)->Ok_0,
    }
}

/// What the caller is asked to do in a load in which nothing fails, from
/// the first request to the last: open the store, create the four tables,
/// begin the transaction, read and insert each file in turn, commit, and
/// report success.
pub open spec fn smooth_requests(
    directory: Seq<char>,
    calendar: Seq<u8>,
    trips: Seq<u8>,
    stop_times: Seq<u8>,
    stops: Seq<u8>,
) -> Seq<ActionView> {
    seq![
        ActionView::Open(path_in(directory)),
        ActionView::Execute(create_of(Source::Calendar)),
        ActionView::Execute(create_of(Source::Trips)),
        ActionView::Execute(create_of(Source::StopTimes)),
        ActionView::Execute(create_of(Source::Stops)),
        ActionView::Begin,
        ActionView::Read(Source::Calendar),
        insert_request(Source::Calendar, calendar),
        ActionView::Read(Source::Trips),
        insert_request(Source::Trips, trips),
        ActionView::Read(Source::StopTimes),
        insert_request(Source::StopTimes, stop_times),
        ActionView::Read(Source::Stops),
        insert_request(Source::Stops, stops),
        ActionView::Commit,
        ActionView::Finish(SUCCESS_MESSAGE@),
    ]
}

/// Where the store does all it is asked and all four files can be read,
/// the caller gets the requests of [`smooth_requests`] one after another,
/// and the load is done after the commit.
pub proof fn lemma_smooth_load_is_done(
    store: Store,
    directory: Seq<char>,
    calendar: Seq<u8>,
    trips: Seq<u8>,
    stop_times: Seq<u8>,
    stops: Seq<u8>,
)
    requires
        batch_of(Source::Calendar, calendar) is Ok,
        batch_of(Source::Trips, trips) is Ok,
        batch_of(Source::StopTimes, stop_times) is Ok,
        batch_of(Source::Stops, stops) is Ok,
    ensures
        outcome(store, Some(directory), smooth(calendar, trips, stop_times, stops)).phase
            == Phase::Done,
        forall|n: nat|
            n <= 15 ==> (#[trigger] after(
                store,
                Some(directory),
                smooth(calendar, trips, stop_times, stops),
                n,
            )).action == smooth_requests(directory, calendar, trips, stop_times, stops)[n as int],
{
    let answers = smooth(calendar, trips, stop_times, stops);
    let requests = smooth_requests(directory, calendar, trips, stop_times, stops);
    let d = Some(directory);
    assert(after(store, d, answers, 0).phase == Phase::Opening);
    assert(after(store, d, answers, 1).phase == Phase::Creating(Source::Calendar));
    assert(after(store, d, answers, 2).phase == Phase::Creating(Source::Trips));
    assert(after(store, d, answers, 3).phase == Phase::Creating(Source::StopTimes));
    assert(after(store, d, answers, 4).phase == Phase::Creating(Source::Stops));
    assert(after(store, d, answers, 5).phase == Phase::Beginning);
    assert(after(store, d, answers, 6).phase == Phase::Reading(Source::Calendar));
    assert(after(store, d, answers, 7).phase == Phase::Writing(Source::Calendar));
    assert(after(store, d, answers, 8).phase == Phase::Reading(Source::Trips));
    assert(after(store, d, answers, 9).phase == Phase::Writing(Source::Trips));
    assert(after(store, d, answers, 10).phase == Phase::Reading(Source::StopTimes));
    assert(after(store, d, answers, 11).phase == Phase::Writing(Source::StopTimes));
    assert(after(store, d, answers, 12).phase == Phase::Reading(Source::Stops));
    assert(after(store, d, answers, 13).phase == Phase::Writing(Source::Stops));
    assert(after(store, d, answers, 14).phase == Phase::Committing);
    assert(after(store, d, answers, 15).phase == Phase::Done);
    assert forall|n: nat| n <= 15 implies (#[trigger] after(store, d, answers, n)).action
        == requests[n as int] by {
        assert(after(store, d, answers, 0).action == requests[0]);
        assert(after(store, d, answers, 1).action == requests[1]);
        assert(after(store, d, answers, 2).action == requests[2]);
        assert(after(store, d, answers, 3).action == requests[3]);
        assert(after(store, d, answers, 4).action == requests[4]);
        assert(after(store, d, answers, 5).action == requests[5]);
        assert(after(store, d, answers, 6).action == requests[6]);
        assert(after(store, d, answers, 7).action == requests[7]);
        assert(after(store, d, answers, 8).action == requests[8]);
        assert(after(store, d, answers, 9).action == requests[9]);
        assert(after(store, d, answers, 10).action == requests[10]);
        assert(after(store, d, answers, 11).action == requests[11]);
        assert(after(store, d, answers, 12).action == requests[12]);
        assert(after(store, d, answers, 13).action == requests[13]);
        assert(after(store, d, answers, 14).action == requests[14]);
        assert(after(store, d, answers, 15).action == requests[15]);
    }
}

} // verus!
