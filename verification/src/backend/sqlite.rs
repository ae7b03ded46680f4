//! The event store on SQLite: the append protocol, the snapshot store and the
//! read paths.

use crate::backend::engine::{
    begin, checkout, commit, connection, execute, open_pool, prepare, query_rows, query_u32,
    transaction_connection, ConnectionPool,
};
use crate::backend::ident::format_id;
use crate::backend::model::Event;
use crate::backend::row::{
    events_of_answer, event_params, id_params, id_version_params, is_reading, SqlValue,
};
use crate::backend::statements::{
    CREATE_AGGREGATE_INDEX_STMT, CREATE_AGGREGATE_OVERVIEW_TABLE_STMT,
    CREATE_AGGREGATE_TABLE_STMT, CREATE_SNAPSHOT_INDEX_STMT, CREATE_SNAPSHOT_OVERVIEW_TABLE_STMT,
    CREATE_SNAPSHOT_TABLE_STMT, CREATE_SNAPSHOT_UNIQUE_INDEX_STMT, INSERT_EVENT_STMT,
    SELECT_EVENTS_SINCE_STMT, SELECT_EVENTS_STMT, SELECT_MAX_VERSION_STMT,
    SELECT_SNAPSHOTS_STMT, SELECT_SNAPSHOT_AT_STMT, UPSERT_AGGREGATE_INDEX_STMT,
    UPSERT_SNAPSHOT_INDEX_STMT, UPSERT_SNAPSHOT_STMT,
};
use r2d2::Error as PoolError;
use r2d2_sqlite::SqliteConnectionManager;
use rusqlite::Error as SqliteError;
use rusqlite::{Statement, Transaction};
use vstd::prelude::*;
use vstd::string::{to_string_from_display_ensures, StringExecFns};

verus! {

/// Why an operation of the store failed.
#[derive(Debug)]
pub enum Error {
    /// The event's version is not the one that the aggregate expects next.
    /// The fields are the expected version and the version that was given.
    VersionConflict(u64, u32),
    /// The pool gave no connection.
    ConnectionAcquisitionFailure(PoolError),
    /// A transaction could not be begun, carried through or committed.
    TransactionFailure(SqliteError),
    /// A statement outside a transaction failed, or a column could not be
    /// read.
    QueryFailure(SqliteError),
    /// A stored identifier is no UUID.
    IdentifierDecodeFailure,
    /// Any other failure, with its message.
    Generic(String),
}

impl Error {
    /// The words that the error's message begins with.
    pub open spec fn label(self) -> Seq<char> {
        match self {
            Error::VersionConflict(_, _) => "version conflict: expected "@,
            Error::ConnectionAcquisitionFailure(_) => "r2d2_sqlite: "@,
            Error::TransactionFailure(_) => "sqlite: "@,
            Error::QueryFailure(_) => "sqlite: "@,
            Error::IdentifierDecodeFailure => "could not parse uuid"@,
            Error::Generic(_) => "plain error: "@,
        }
    }

    /// Whether `text` is the error in words: its label, then the cause as
    /// the cause prints itself. For a version conflict the two versions
    /// follow the label, the expected one first.
    pub open spec fn is_message(self, text: Seq<char>) -> bool {
        match self {
            Error::VersionConflict(expected, given) => exists|first: String, second: String|
                {
                    &&& #[trigger] to_string_from_display_ensures::<u64>(&expected, first)
                    &&& #[trigger] to_string_from_display_ensures::<u32>(&given, second)
                    &&& text == self.label() + first@ + ", actual "@ + second@
                },
            Error::ConnectionAcquisitionFailure(cause) => exists|detail: String|
                {
                    &&& #[trigger] to_string_from_display_ensures::<PoolError>(&cause, detail)
                    &&& text == self.label() + detail@
                },
            Error::TransactionFailure(cause) => exists|detail: String|
                {
                    &&& #[trigger] to_string_from_display_ensures::<SqliteError>(&cause, detail)
                    &&& text == self.label() + detail@
                },
            Error::QueryFailure(cause) => exists|detail: String|
                {
                    &&& #[trigger] to_string_from_display_ensures::<SqliteError>(&cause, detail)
                    &&& text == self.label() + detail@
                },
            Error::IdentifierDecodeFailure => text == self.label(),
            Error::Generic(detail) => text == self.label() + detail@,
        }
    }

    /// The error in words.
    pub fn message(&self) -> (text: String)
        ensures
            self.is_message(text@),
            self.label().is_prefix_of(text@),
    {
        match self {
            Error::VersionConflict(expected, given) => {
                let text = "version conflict: expected ".to_owned();
                let text = text.concat(expected.to_string().as_str());
                let text = text.concat(", actual ");
                text.concat(given.to_string().as_str())
            },
            Error::ConnectionAcquisitionFailure(cause) => {
                "r2d2_sqlite: ".to_owned().concat(cause.to_string().as_str())
            },
            Error::TransactionFailure(cause) => {
                "sqlite: ".to_owned().concat(cause.to_string().as_str())
            },
            Error::QueryFailure(cause) => {
                "sqlite: ".to_owned().concat(cause.to_string().as_str())
            },
            Error::IdentifierDecodeFailure => "could not parse uuid".to_owned(),
            Error::Generic(detail) => "plain error: ".to_owned().concat(detail.as_str()),
        }
    }
}

impl From<SqliteError> for Error {
    /// An error of SQLite, met outside a transaction, is a failed query.
    fn from(value: SqliteError) -> (error: Error) {
        Error::QueryFailure(value)
    }
}

impl vstd::std_specs::convert::FromSpecImpl<SqliteError> for Error {
    open spec fn obeys_from_spec() -> bool {
        true
    }

    open spec fn from_spec(value: SqliteError) -> Error {
        Error::QueryFailure(value)
    }
}

impl From<PoolError> for Error {
    /// An error of the pool means that no connection could be had.
    fn from(value: PoolError) -> (error: Error) {
        Error::ConnectionAcquisitionFailure(value)
    }
}

impl vstd::std_specs::convert::FromSpecImpl<PoolError> for Error {
    open spec fn obeys_from_spec() -> bool {
        true
    }

    open spec fn from_spec(value: PoolError) -> Error {
        Error::ConnectionAcquisitionFailure(value)
    }
}

/// What an answer of the pool means to the store: a connection, or the
/// failure to acquire one.
pub fn acquired<T>(answer: Result<T, PoolError>) -> (r: Result<T, Error>)
    ensures
        r == match answer {
            Ok(value) => Ok::<T, Error>(value),
            Err(cause) => Err(Error::ConnectionAcquisitionFailure(cause)),
        },
{
    match answer {
        Ok(value) => Ok(value),
        Err(cause) => Err(Error::ConnectionAcquisitionFailure(cause)),
    }
}

/// What an answer of SQLite means to the store outside a transaction: the
/// answer, or a failed query.
pub fn queried<T>(answer: Result<T, SqliteError>) -> (r: Result<T, Error>)
    ensures
        r == match answer {
            Ok(value) => Ok::<T, Error>(value),
            Err(cause) => Err(Error::QueryFailure(cause)),
        },
{
    match answer {
        Ok(value) => Ok(value),
        Err(cause) => Err(Error::QueryFailure(cause)),
    }
}

/// What an answer of SQLite means to the store inside a transaction, and at
/// its begin and commit: the answer, or a failed transaction.
pub fn transacted<T>(answer: Result<T, SqliteError>) -> (r: Result<T, Error>)
    ensures
        r == match answer {
            Ok(value) => Ok::<T, Error>(value),
            Err(cause) => Err(Error::TransactionFailure(cause)),
        },
{
    match answer {
        Ok(value) => Ok(value),
        Err(cause) => Err(Error::TransactionFailure(cause)),
    }
}

/// The version that an aggregate expects next, given its current one.
pub open spec fn expected_version(current: u32) -> u64 {
    (current + 1) as u64
}

/// The rule of optimistic concurrency: an event is accepted exactly when its
/// version is one past the aggregate's current version.
pub open spec fn version_check(current: u32, version: u32) -> Result<(), Error> {
    if version == current + 1 {
        Ok(())
    } else {
        Err(Error::VersionConflict(expected_version(current), version))
    }
}

/// Decides whether an event with this version may be appended to an
/// aggregate whose current version is `current` (0 for an aggregate without
/// events).
pub fn check_version(current: u32, version: u32) -> (r: Result<(), Error>)
    ensures
        r == version_check(current, version),
{
    let expected: u64 = current as u64 + 1;
    if version as u64 == expected {
        Ok(())
    } else {
        Err(Error::VersionConflict(expected, version))
    }
}

/// An event store whose four tables live in one SQLite database, reached
/// through a pool of connections.
#[derive(Debug)]
pub struct SqliteBackend {
    pool: ConnectionPool,
}

/// The options of a read: the version after which events are wanted.
#[derive(Debug)]
pub struct GetAggOpts {
    pub agg_id: u128,
    pub since_version: u32,
}

impl SqliteBackend {
    /// Runs one statement without placeholders on a connection of the pool.
    fn run(&self, sql: &str) -> (r: Result<(), Error>)
        ensures
            r matches Err(e) ==> e is ConnectionAcquisitionFailure || e is QueryFailure,
    {
        let handle = acquired(checkout(&self.pool))?;
        let none: Vec<SqlValue> = Vec::new();
        queried(execute(connection(&handle), sql, &none))?;
        Ok(())
    }

    /// Creates the four tables where they do not exist yet.
    fn init_tables(&self) -> (r: Result<(), Error>)
        ensures
            r matches Err(e) ==> e is ConnectionAcquisitionFailure || e is QueryFailure,
    {
        let statements: [&'static str; 4] = [
            CREATE_AGGREGATE_TABLE_STMT,
            CREATE_AGGREGATE_OVERVIEW_TABLE_STMT,
            CREATE_SNAPSHOT_TABLE_STMT,
            CREATE_SNAPSHOT_OVERVIEW_TABLE_STMT,
        ];
        let mut i: usize = 0;
        while i < 4
            invariant
                i <= 4,
            decreases 4 - i,
        {
            self.run(statements[i])?;
            i = i + 1;
        }
        Ok(())
    }

    /// Creates the indices where they do not exist yet.
    fn init_indices(&self) -> (r: Result<(), Error>)
        ensures
            r matches Err(e) ==> e is ConnectionAcquisitionFailure || e is QueryFailure,
    {
        self.run(CREATE_AGGREGATE_INDEX_STMT)?;
        self.run(CREATE_SNAPSHOT_INDEX_STMT)?;
        self.run(CREATE_SNAPSHOT_UNIQUE_INDEX_STMT)
    }

    /// Opens a pool on the database that `manager` names and makes sure that
    /// the tables and indices are there.
    pub fn new(manager: SqliteConnectionManager) -> (r: Result<SqliteBackend, Error>)
        ensures
            r matches Err(e) ==> e is ConnectionAcquisitionFailure || e is QueryFailure,
    {
        let pool = acquired(open_pool(manager))?;
        let backend = SqliteBackend { pool };
        backend.init_tables()?;
        backend.init_indices()?;
        Ok(backend)
    }

    /// Reads the current version of the aggregate with this identifier text,
    /// as the transaction sees it: 0 where the index has no row for it.
    pub fn get_agg_max_version(&self, tx: &Transaction, agg_id_str: &str) -> (r: Result<u32, Error>)
        ensures
            r matches Err(e) ==> e is QueryFailure,
    {
        let mut stmt = queried(prepare(transaction_connection(tx), SELECT_MAX_VERSION_STMT))?;
        queried(query_u32(&mut stmt, &id_params(agg_id_str)))
    }

    /// Saves a snapshot of an aggregate at a version. One that is already
    /// stored for that aggregate and version is overwritten. No order is asked
    /// of the versions. Both writes are made in one transaction.
    pub fn save_snapshot(&self, event: &Event) -> (r: Result<(), Error>)
        ensures
            r matches Err(e) ==> e is ConnectionAcquisitionFailure || e is TransactionFailure,
    {
        let mut handle = acquired(checkout(&self.pool))?;
        let tx = transacted(begin(&mut handle))?;
        let text = format_id(event.id);
        let snapshot = event_params(text.as_str(), event);
        transacted(execute(transaction_connection(&tx), UPSERT_SNAPSHOT_STMT, &snapshot))?;
        let latest = id_version_params(text.as_str(), event.version);
        transacted(execute(transaction_connection(&tx), UPSERT_SNAPSHOT_INDEX_STMT, &latest))?;
        transacted(commit(tx))
    }

    /// The part of an append that follows the read of the current version,
    /// inside the append's transaction. An event whose version is not one
    /// past `current` is refused before anything is written. Any other event
    /// is written to the log, and the aggregate's index row is set to its
    /// version.
    pub fn append_at_version(&self, tx: &Transaction, current: u32, event: &Event) -> (r: Result<
        (),
        Error,
    >)
        ensures
            version_check(current, event.version) is Err ==> r == version_check(
                current,
                event.version,
            ),
            version_check(current, event.version) is Ok ==> r is Ok || r matches Err(
                Error::TransactionFailure(_),
            ),
    {
        check_version(current, event.version)?;
        let text = format_id(event.id);
        let row = event_params(text.as_str(), event);
        transacted(execute(transaction_connection(tx), INSERT_EVENT_STMT, &row))?;
        let index = id_version_params(text.as_str(), event.version);
        transacted(execute(transaction_connection(tx), UPSERT_AGGREGATE_INDEX_STMT, &index))?;
        Ok(())
    }

    /// Appends an event to its aggregate's log. In one transaction the
    /// aggregate's current version is read, the event's version is held
    /// against it, and only where it is the next one the event is written and
    /// the index is moved on. A transaction that is left early is rolled
    /// back, so a refused event changes nothing.
    pub fn append_event(&self, event: &Event) -> (r: Result<(), Error>)
        ensures
            match r {
                Ok(()) => event.version >= 1,
                Err(Error::VersionConflict(expected, given)) => {
                    &&& given == event.version
                    &&& expected != given
                    &&& 1 <= expected <= u32::MAX + 1
                },
                Err(Error::ConnectionAcquisitionFailure(_)) => true,
                Err(Error::TransactionFailure(_)) => true,
                Err(_) => false,
            },
    {
        let mut handle = acquired(checkout(&self.pool))?;
        let tx = transacted(begin(&mut handle))?;
        let text = format_id(event.id);
        let current = match self.get_agg_max_version(&tx, text.as_str()) {
            Ok(current) => current,
            Err(Error::QueryFailure(cause)) => {
                return Err(Error::TransactionFailure(cause));
            },
            Err(other) => {
                return Err(other);
            },
        };
        self.append_at_version(&tx, current, event)?;
        transacted(commit(tx))
    }

    /// Runs a prepared query that names one aggregate and decodes its rows.
    fn result_from_stmt(stmt: &mut Statement, agg_id_str: &str) -> (r: Result<Vec<Event>, Error>)
        ensures
            r matches Ok(events) ==> is_reading(events@),
            r matches Err(e) ==> e is QueryFailure,
    {
        let params = id_params(agg_id_str);
        Self::result_from_stmt_with_params(stmt, &params)
    }

    /// Runs a prepared query and decodes its rows. Rows that cannot be
    /// decoded are dropped; only a query that cannot be started is an error.
    fn result_from_stmt_with_params(stmt: &mut Statement, params: &Vec<SqlValue>) -> (r: Result<
        Vec<Event>,
        Error,
    >)
        ensures
            r matches Ok(events) ==> is_reading(events@),
            r matches Err(e) ==> e is QueryFailure,
    {
        events_of_answer(query_rows(stmt, params))
    }

    /// All events of an aggregate, oldest first. An aggregate that the store
    /// has never seen has none.
    pub fn get_aggretate(&self, aggregate_id: u128) -> (r: Result<Vec<Event>, Error>)
        ensures
            r matches Ok(events) ==> is_reading(events@),
            r matches Err(e) ==> e is ConnectionAcquisitionFailure || e is QueryFailure,
    {
        let agg_id_str = format_id(aggregate_id);
        let handle = acquired(checkout(&self.pool))?;
        let mut stmt = queried(prepare(connection(&handle), SELECT_EVENTS_STMT))?;
        Self::result_from_stmt(&mut stmt, agg_id_str.as_str())
    }

    /// All snapshots of an aggregate, oldest first.
    pub fn get_snapshots(&self, aggregate_id: u128) -> (r: Result<Vec<Event>, Error>)
        ensures
            r matches Ok(events) ==> is_reading(events@),
            r matches Err(e) ==> e is ConnectionAcquisitionFailure || e is QueryFailure,
    {
        let agg_id_str = format_id(aggregate_id);
        let handle = acquired(checkout(&self.pool))?;
        let mut stmt = queried(prepare(connection(&handle), SELECT_SNAPSHOTS_STMT))?;
        Self::result_from_stmt(&mut stmt, agg_id_str.as_str())
    }

    /// The snapshot of an aggregate at a version: one event, or none.
    pub fn get_snapshot_by_version(&self, aggregate_id: u128, version: u32) -> (r: Result<
        Vec<Event>,
        Error,
    >)
        ensures
            r matches Ok(events) ==> is_reading(events@),
            r matches Err(e) ==> e is ConnectionAcquisitionFailure || e is QueryFailure,
    {
        let agg_id_str = format_id(aggregate_id);
        let handle = acquired(checkout(&self.pool))?;
        let mut stmt = queried(prepare(connection(&handle), SELECT_SNAPSHOT_AT_STMT))?;
        let params = id_version_params(agg_id_str.as_str(), version);
        Self::result_from_stmt_with_params(&mut stmt, &params)
    }

    /// The events of an aggregate whose version is above
    /// `opts.since_version`, oldest first: what has to be replayed on top of
    /// a snapshot taken at that version.
    pub fn get_aggretate_with_opts(&self, aggregate_id: u128, opts: &GetAggOpts) -> (r: Result<
        Vec<Event>,
        Error,
    >)
        ensures
            r matches Ok(events) ==> is_reading(events@),
            r matches Err(e) ==> e is ConnectionAcquisitionFailure || e is QueryFailure,
    {
        let agg_id_str = format_id(aggregate_id);
        let handle = acquired(checkout(&self.pool))?;
        let mut stmt = queried(prepare(connection(&handle), SELECT_EVENTS_SINCE_STMT))?;
        let params = id_version_params(agg_id_str.as_str(), opts.since_version);
        Self::result_from_stmt_with_params(&mut stmt, &params)
    }
}

} // verus!
