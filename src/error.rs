use vstd::prelude::*;
use vstd::string::StringExecFns;

verus! {

#[verifier::external_type_specification]
#[verifier::external_body]
pub struct ExSqlxError(sqlx::Error);

/// The failures this library reports.
#[derive(Debug)]
pub enum DatabaseError {
    /// The default database path could not be computed.
    PathResolution(String),
    /// The parent directory of the database file could not be created.
    DirectoryCreation(String),
    /// A query was attempted before a connection was established.
    NotInitialized,
    /// The database driver reported a failure.
    Connection(sqlx::Error),
}

pub open spec fn path_resolution_prefix() -> Seq<char> {
    "Failed to resolve default database path: "@
}

pub open spec fn directory_creation_prefix() -> Seq<char> {
    "Failed to create database directory: "@
}

pub open spec fn not_initialized_text() -> Seq<char> {
    "Database not initialized"@
}

pub open spec fn connection_prefix() -> Seq<char> {
    "Database connection error: "@
}

/// Relies on `sqlx::Error`'s `Display` impl for the driver's own wording.
#[verifier::external_body]
fn driver_error_text(e: &sqlx::Error) -> (r: String) {
    e.to_string()
}

impl DatabaseError {
    /// A human-readable description of the failure.
    pub fn message(&self) -> (r: String)
        ensures
            match self {
                DatabaseError::PathResolution(m) => r@ == path_resolution_prefix() + m@,
                DatabaseError::DirectoryCreation(m) => r@ == directory_creation_prefix() + m@,
                DatabaseError::NotInitialized => r@ == not_initialized_text(),
                DatabaseError::Connection(_) => r@.len() >= connection_prefix().len()
                    && r@.subrange(0, connection_prefix().len() as int) == connection_prefix(),
            },
    {
        match self {
            DatabaseError::PathResolution(m) => {
                String::from_str("Failed to resolve default database path: ").concat(m.as_str())
            },
            DatabaseError::DirectoryCreation(m) => {
                String::from_str("Failed to create database directory: ").concat(m.as_str())
            },
            DatabaseError::NotInitialized => String::from_str("Database not initialized"),
            DatabaseError::Connection(e) => {
                let detail = driver_error_text(e);
                let r = String::from_str("Database connection error: ").concat(detail.as_str());
                assert(r@.subrange(0, connection_prefix().len() as int) =~= connection_prefix());
                r
            },
        }
    }

    /// Whether this is the error for use of a facade that has no connection.
    pub fn is_not_initialized(&self) -> (r: bool)
        ensures
            r == (self is NotInitialized),
    {
        matches!(self, DatabaseError::NotInitialized)
    }
}

impl From<sqlx::Error> for DatabaseError {
    fn from(e: sqlx::Error) -> (r: DatabaseError) {
        DatabaseError::Connection(e)
    }
}

impl vstd::std_specs::convert::FromSpecImpl<sqlx::Error> for DatabaseError {
    open spec fn obeys_from_spec() -> bool {
        true
    }

    open spec fn from_spec(e: sqlx::Error) -> DatabaseError {
        DatabaseError::Connection(e)
    }
}

} // verus!
