use crate::error::DatabaseError;
use vstd::prelude::*;
use vstd::string::StringExecFns;

verus! {

/// The most connections a pool opened for a facade holds at once.
pub const MAX_CONNECTIONS: u32 = 10;

/// The reserved path that selects an in-memory database.
pub open spec fn memory_path() -> Seq<char> {
    ":memory:"@
}

/// `s` with every backslash turned into a forward slash.
pub open spec fn forward_slashes(s: Seq<char>) -> Seq<char> {
    Seq::new(s.len(), |i: int| if s[i] == '\\' { '/' } else { s[i] })
}

/// The connection URL the driver is given for a database path.
pub open spec fn url_for(path: Seq<char>) -> Seq<char> {
    if path == memory_path() {
        "sqlite::memory:"@
    } else {
        "sqlite://"@ + forward_slashes(path) + "?mode=rwc"@
    }
}

/// Relies on `str::replace`, which replaces every match of the pattern.
#[verifier::external_body]
fn backslashes_to_slashes(s: &str) -> (r: String)
    ensures
        r@ == forward_slashes(s@),
{
    s.replace('\\', "/")
}

/// A handle to an open connection pool of the driver, of type `P`.
#[derive(Clone)]
pub struct DatabaseConnection<P> {
    pool: P,
}

impl<P> DatabaseConnection<P> {
    pub closed spec fn spec_pool(&self) -> P {
        self.pool
    }

    /// Wraps a pool that the driver has opened.
    pub fn from_pool(pool: P) -> (r: DatabaseConnection<P>)
        ensures
            r.spec_pool() == pool,
    {
        DatabaseConnection { pool }
    }

    pub fn pool(&self) -> (r: &P)
        ensures
            *r == self.spec_pool(),
    {
        &self.pool
    }

    /// Gives the pool back, for closing.
    pub fn into_pool(self) -> (r: P)
        ensures
            r == self.spec_pool(),
    {
        self.pool
    }
}

/// The facade: a database path and, once initialized, a connection to it
/// through a pool handle of type `P`.
pub struct Database<P> {
    connection: Option<DatabaseConnection<P>>,
    database_path: String,
}

impl<P> Database<P> {
    pub closed spec fn path(&self) -> Seq<char> {
        self.database_path@
    }

    pub closed spec fn held(&self) -> Option<DatabaseConnection<P>> {
        self.connection
    }

    pub open spec fn initialized(&self) -> bool {
        self.held() is Some
    }

    /// A facade for the database at `path`, not yet initialized.
    pub fn new_with_path(path: &str) -> (r: Database<P>)
        ensures
            r.path() == path@,
            !r.initialized(),
    {
        Database { connection: None, database_path: String::from_str(path) }
    }

    pub fn database_path(&self) -> (r: &str)
        ensures
            r@ == self.path(),
    {
        self.database_path.as_str()
    }

    pub fn is_initialized(&self) -> (r: bool)
        ensures
            r == self.initialized(),
    {
        self.connection.is_some()
    }

    /// The URL to open the pool with: an in-memory database for the reserved
    /// path, otherwise a file created on demand, with forward slashes.
    pub fn database_url(&self) -> (r: String)
        ensures
            r@ == url_for(self.path()),
    {
        let memory = String::from_str(":memory:");
        if self.database_path == memory {
            String::from_str("sqlite::memory:")
        } else {
            let normalized = backslashes_to_slashes(self.database_path.as_str());
            String::from_str("sqlite://").concat(normalized.as_str()).concat("?mode=rwc")
        }
    }

    /// The held connection, or `NotInitialized` when there is none.
    pub fn connection(&self) -> (r: Result<&DatabaseConnection<P>, DatabaseError>)
        ensures
            match self.held() {
                Some(c) => r matches Ok(h) && *h == c,
                None => r matches Err(e) && e is NotInitialized,
            },
    {
        match &self.connection {
            Some(c) => Ok(c),
            None => Err(DatabaseError::NotInitialized),
        }
    }

    /// Moves the facade to the initialized state with a freshly opened
    /// connection. A connection held before is handed back, for closing.
    pub fn attach(&mut self, connection: DatabaseConnection<P>) -> (r: Option<DatabaseConnection<P>>)
        ensures
            final(self).path() == old(self).path(),
            final(self).held() == Some(connection),
            r == old(self).held(),
    {
        let previous = self.connection.take();
        self.connection = Some(connection);
        previous
    }

    /// Consumes the facade, giving up the connection it held, for closing.
    pub fn detach(self) -> (r: Option<DatabaseConnection<P>>)
        ensures
            r == self.held(),
    {
        self.connection
    }

    /// Sets up the schema. The facade owns no tables of its own, so this
    /// only demands a connection.
    pub fn create_tables(&self) -> (r: Result<(), DatabaseError>)
        ensures
            r is Ok <==> self.initialized(),
            r matches Err(e) ==> e is NotInitialized,
    {
        let _conn = self.connection()?;
        Ok(())
    }
}

/// Relies on `sqlx::Error::RowNotFound`, the driver's error for a query
/// that was expected to return a row and returned none.
#[verifier::external_body]
fn row_not_found() -> (r: sqlx::Error) {
    sqlx::Error::RowNotFound
}

/// Relies on `sqlx::Error::Protocol`, the driver's error for an unexpected
/// exchange, here one that returned too many rows.
#[verifier::external_body]
fn unexpected_rows(reason: String) -> (r: sqlx::Error) {
    sqlx::Error::Protocol(reason)
}

/// The record of a query that must match exactly one row: that row, or a
/// driver error when the query matched none or several.
pub fn single_row<T>(rows: Vec<T>) -> (r: Result<T, DatabaseError>)
    ensures
        r is Ok <==> rows@.len() == 1,
        r matches Ok(v) ==> v == rows@[0],
        r matches Err(e) ==> e is Connection,
{
    let mut rows = rows;
    if rows.len() == 1 {
        Ok(rows.remove(0))
    } else if rows.len() == 0 {
        Err(DatabaseError::Connection(row_not_found()))
    } else {
        Err(
            DatabaseError::Connection(
                unexpected_rows(String::from_str("query returned more than one row")),
            ),
        )
    }
}

/// The record of a query that may match no row: the first row, or `None`
/// when there is none. An empty result is never an error.
pub fn optional_row<T>(rows: Vec<T>) -> (r: Option<T>)
    ensures
        r is None <==> rows@.len() == 0,
        r matches Some(v) ==> v == rows@[0],
{
    let mut rows = rows;
    if rows.len() == 0 {
        None
    } else {
        Some(rows.remove(0))
    }
}

} // verus!
