//! What goes into a statement and what comes out of a query, as plain values.

use crate::backend::ident::{parse_id, uuid_parse};
use crate::backend::model::{Event, Record};
use crate::backend::sqlite::Error;
use rusqlite::Error as SqliteError;
use vstd::prelude::*;

verus! {

/// One value bound to a placeholder of a statement.
#[derive(Debug)]
pub enum SqlValue {
    Integer(i64),
    Text(String),
    Blob(Vec<u8>),
}

/// What a `SqlValue` stands for in contracts.
pub enum Datum {
    Integer(int),
    Text(Seq<char>),
    Blob(Seq<u8>),
}

impl View for SqlValue {
    type V = Datum;

    open spec fn view(&self) -> Datum {
        match *self {
            SqlValue::Integer(i) => Datum::Integer(i as int),
            SqlValue::Text(s) => Datum::Text(s@),
            SqlValue::Blob(b) => Datum::Blob(b@),
        }
    }
}

/// One row of the event table or of the snapshot table as it was read: each
/// of the three columns either holds a value of the expected type or the
/// reason why it could not be read.
#[derive(Debug)]
pub struct StoredRow {
    /// Column `aggregate_id`.
    pub id: Result<String, SqliteError>,
    /// Column `data`.
    pub data: Result<Vec<u8>, SqliteError>,
    /// Column `version`.
    pub version: Result<u32, SqliteError>,
}

/// The values bound to a statement that names one aggregate.
pub fn id_params(text: &str) -> (params: Vec<SqlValue>)
    ensures
        params@.len() == 1,
        params[0]@ == Datum::Text(text@),
{
    let mut params: Vec<SqlValue> = Vec::new();
    params.push(SqlValue::Text(text.to_owned()));
    params
}

/// The values bound to a statement that names one aggregate and a version:
/// the identifier first.
pub fn id_version_params(text: &str, version: u32) -> (params: Vec<SqlValue>)
    ensures
        params@.len() == 2,
        params[0]@ == Datum::Text(text@),
        params[1]@ == Datum::Integer(version as int),
{
    let mut params: Vec<SqlValue> = Vec::new();
    params.push(SqlValue::Text(text.to_owned()));
    params.push(SqlValue::Integer(version as i64));
    params
}

/// The values bound to a statement that writes an event or a snapshot:
/// identifier, version, payload.
pub fn event_params(text: &str, event: &Event) -> (params: Vec<SqlValue>)
    ensures
        params@.len() == 3,
        params[0]@ == Datum::Text(text@),
        params[1]@ == Datum::Integer(event.version as int),
        params[2]@ == Datum::Blob(event.data@),
{
    let mut params: Vec<SqlValue> = Vec::new();
    params.push(SqlValue::Text(text.to_owned()));
    params.push(SqlValue::Integer(event.version as i64));
    let payload = event.data.clone();
    assert(payload@ =~= event.data@);
    params.push(SqlValue::Blob(payload));
    params
}

/// The event that a stored row holds, where all three columns could be read
/// and the identifier is a UUID.
pub open spec fn decoded(row: StoredRow) -> Option<Record> {
    if row.id is Ok && uuid_parse(row.id->Ok_0@) is Some && row.data is Ok && row.version is Ok {
        Some(
            Record {
                id: uuid_parse(row.id->Ok_0@)->Some_0,
                version: row.version->Ok_0,
                payload: row.data->Ok_0@,
            },
        )
    } else {
        None
    }
}

/// The event that one entry of a query's answer holds: none where stepping
/// to the row failed, or where the row cannot be decoded.
pub open spec fn decoded_entry(entry: Result<StoredRow, SqliteError>) -> Option<Record> {
    match entry {
        Ok(row) => decoded(row),
        Err(_) => None,
    }
}

/// The events of an answer: those of the entries that hold one, in the order
/// of the entries.
pub open spec fn decoded_all(rows: Seq<Result<StoredRow, SqliteError>>) -> Seq<Record> {
    rows.filter_map(|entry: Result<StoredRow, SqliteError>| decoded_entry(entry))
}

/// What a sequence of events stands for in contracts.
pub open spec fn records(events: Seq<Event>) -> Seq<Record> {
    events.map_values(|event: Event| event@)
}

/// Turns one stored row into an event. The columns are looked at in the
/// order identifier, payload, version, and the first one that fails decides
/// the error.
pub fn decode_row(row: StoredRow) -> (r: Result<Event, Error>)
    ensures
        match r {
            Ok(event) => decoded(row) == Some(event@),
            Err(Error::Generic(message)) => row.id is Err && message@ == "could not read uuid from row"@,
            Err(Error::IdentifierDecodeFailure) => row.id is Ok && uuid_parse(row.id->Ok_0@) is None,
            Err(Error::QueryFailure(cause)) => {
                &&& row.id is Ok
                &&& uuid_parse(row.id->Ok_0@) is Some
                &&& if row.data is Err {
                    cause == row.data->Err_0
                } else {
                    row.version is Err && cause == row.version->Err_0
                }
            },
            Err(_) => false,
        },
{
    let StoredRow { id, data, version } = row;
    let text = match id {
        Ok(text) => text,
        Err(_) => {
            return Err(Error::Generic("could not read uuid from row".to_owned()));
        },
    };
    let id = match parse_id(text.as_str()) {
        Some(id) => id,
        None => {
            return Err(Error::IdentifierDecodeFailure);
        },
    };
    let data = match data {
        Ok(data) => data,
        Err(cause) => {
            return Err(Error::QueryFailure(cause));
        },
    };
    let version = match version {
        Ok(version) => version,
        Err(cause) => {
            return Err(Error::QueryFailure(cause));
        },
    };
    Ok(Event { id, version, data })
}

/// Turns the rows of a query's answer into events, in the order of the rows.
/// A row that cannot be decoded is dropped without a trace, and so is an
/// entry that is an error: the answer is never refused as a whole.
pub fn decode_rows(rows: Vec<Result<StoredRow, SqliteError>>) -> (events: Vec<Event>)
    ensures
        records(events@) == decoded_all(rows@),
{
    let mut events: Vec<Event> = Vec::new();
    let ghost all = rows@;
    for entry in it: rows.into_iter()
        invariant
            it.seq() == all,
            records(events@) == decoded_all(all.take(it.index() as int)),
    {
        let ghost k = it.index() as int;
        let ghost before = events@;
        proof {
            all.lemma_filter_map_take_succ(|entry: Result<StoredRow, SqliteError>| decoded_entry(entry), k);
            assert(entry == all[k]);
        }
        match entry {
            Ok(row) => match decode_row(row) {
                Ok(event) => {
                    events.push(event);
                    assert(records(events@) =~= records(before).push(event@));
                },
                Err(_) => {},
            },
            Err(_) => {},
        }
        assert(records(events@) =~= decoded_all(all.take(k + 1)));
    }
    proof {
        assert(all.take(all.len() as int) =~= all);
    }
    events
}

/// Whether `events` can be the answer of a read: the events of the rows of
/// some answer of the database, in the order of the rows, without the rows
/// that hold no event.
pub open spec fn is_reading(events: Seq<Event>) -> bool {
    exists|rows: Seq<Result<StoredRow, SqliteError>>| records(events) == #[trigger] decoded_all(rows)
}

/// Whether `r` is what a read makes of the answer to its query. Where the
/// query was answered, the read gives the events of the rows and never
/// fails, whatever the rows hold. Where the query could not be started, the
/// read fails with the cause.
pub open spec fn is_read_of(
    answer: Result<Vec<Result<StoredRow, SqliteError>>, SqliteError>,
    r: Result<Vec<Event>, Error>,
) -> bool {
    match answer {
        Ok(rows) => r matches Ok(events) && records(events@) == decoded_all(rows@),
        Err(cause) => r matches Err(Error::QueryFailure(found)) && found == cause,
    }
}

/// Makes the answer of a read out of the answer to its query.
pub fn events_of_answer(answer: Result<Vec<Result<StoredRow, SqliteError>>, SqliteError>) -> (r:
    Result<Vec<Event>, Error>)
    ensures
        is_read_of(answer, r),
        r matches Ok(events) ==> is_reading(events@),
{
    match answer {
        Ok(rows) => Ok(decode_rows(rows)),
        Err(cause) => Err(Error::QueryFailure(cause)),
    }
}

} // verus!
