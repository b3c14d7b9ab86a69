//! Database configuration: the connection URL and the error taxonomy.
//!
//! Opening the connection, validating it and running queries belong to the
//! persistence layer outside the library; what is verified here is the exact
//! text of the URL that layer opens, and the errors it reports.

use vstd::prelude::*;

verus! {

use crate::text::{append, dec_digits, u64_to_string};

/// How the database is opened.
#[derive(Clone, Debug)]
pub struct DatabaseConfig {
    /// Path of the database file.
    pub path: String,
    /// SQLite busy timeout, in milliseconds.
    pub busy_timeout: u64,
    /// Connection pool size; two connections when absent.
    pub max_connections: Option<u32>,
}

/// Why the database layer failed.
#[derive(Debug, Clone, PartialEq, Eq)]
pub enum DatabaseError {
    ConnectionFailed(String),
    InvalidConfig(String),
    MigrationFailed(String),
    Timeout(String),
}

impl DatabaseError {
    /// The human-readable description of the error.
    pub open spec fn message_spec(&self) -> Seq<char> {
        match self {
            DatabaseError::ConnectionFailed(m) => "Database connection failed: "@ + m@,
            DatabaseError::InvalidConfig(m) => "Invalid database configuration: "@ + m@,
            DatabaseError::MigrationFailed(m) => "Database migration failed: "@ + m@,
            DatabaseError::Timeout(m) => "Database operation timed out: "@ + m@,
        }
    }

    /// Renders the error for display.
    pub fn message(&self) -> (text: String)
        ensures
            text@ == self.message_spec(),
    {
        match self {
            DatabaseError::ConnectionFailed(m) => {
                let mut text = "Database connection failed: ".to_owned();
                append(&mut text, m.as_str());
                text
            },
            DatabaseError::InvalidConfig(m) => {
                let mut text = "Invalid database configuration: ".to_owned();
                append(&mut text, m.as_str());
                text
            },
            DatabaseError::MigrationFailed(m) => {
                let mut text = "Database migration failed: ".to_owned();
                append(&mut text, m.as_str());
                text
            },
            DatabaseError::Timeout(m) => {
                let mut text = "Database operation timed out: ".to_owned();
                append(&mut text, m.as_str());
                text
            },
        }
    }
}

/// The pool size a configuration asks for: two connections by default.
pub open spec fn pool_size_of(config: DatabaseConfig) -> nat {
    if config.max_connections is Some {
        config.max_connections.unwrap() as nat
    } else {
        2
    }
}

/// The SQLite connection URL a configuration opens: read-write-create mode,
/// the configured busy timeout and pool size, write-ahead-log journal.
pub open spec fn db_url_spec(config: DatabaseConfig) -> Seq<char> {
    "sqlite:"@ + config.path@ + "?mode=rwc&busy_timeout="@ + dec_digits(
        config.busy_timeout as nat,
    ) + "&max_connections="@ + dec_digits(pool_size_of(config)) + "&journal_mode=WAL"@
}

/// Builds the connection URL for a configuration.
pub fn build_db_url(config: &DatabaseConfig) -> (url: String)
    ensures
        url@ == db_url_spec(*config),
{
    let mut url = "sqlite:".to_owned();
    append(&mut url, config.path.as_str());
    append(&mut url, "?mode=rwc&busy_timeout=");
    let busy = u64_to_string(config.busy_timeout);
    append(&mut url, busy.as_str());
    append(&mut url, "&max_connections=");
    let pool: u32 = match config.max_connections {
        Some(n) => n,
        None => 2,
    };
    let pool_text = u64_to_string(pool as u64);
    append(&mut url, pool_text.as_str());
    append(&mut url, "&journal_mode=WAL");
    proof {
        assert(url@ =~= db_url_spec(*config));
    }
    url
}

} // verus!
