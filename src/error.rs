use vstd::prelude::*;

use crate::pg_error::PgError;
use crate::sqlite::SqliteError;

verus! {

/// One of the three fields that every error or notice message must carry.
#[derive(Debug, Clone, Copy, PartialEq, Eq, Structural)]
pub enum RequiredField {
    Severity,
    Code,
    Message,
}

/// A message on the wire that could not be understood.
#[derive(Debug, Clone, PartialEq, Eq)]
pub enum ProtocolError {
    /// The bytes ended before the terminating zero tag, or inside a field value.
    UnexpectedEof,
    /// A field value is not valid UTF-8.
    InvalidUtf8,
    /// The terminator was reached without one of the required fields.
    MissingField(RequiredField),
    /// The severity text is not one of the known severities.
    UnexpectedSeverity(String),
}


#[verifier::external_type_specification]
#[verifier::external_body]
pub struct ExParseError(url::ParseError);

/// Any error of the driver.
#[derive(Debug)]
pub enum Error {
    /// Bytes from the server that could not be understood.
    Protocol(ProtocolError),
    /// An error reported by the network-protocol server.
    Postgres(PgError),
    /// An error of the embedded engine, or of decoding one of its values.
    Sqlite(SqliteError),
    /// The connection URL could not be parsed.
    UrlParse(url::ParseError),
}

impl Error {
    /// Records the query that caused a server error, where none is recorded
    /// yet; the query is produced only in that case.
    pub fn pg_err_attach_query<F: FnOnce() -> String>(self, get_query: F) -> (r: Error)
        requires
            get_query.requires(()),
        ensures
            match self {
                Error::Postgres(e) => if e.spec_query() is None {
                    r matches Error::Postgres(e2) && (e2.spec_response() == e.spec_response() && (
                    e2.spec_query() matches Some(q) && exists|s: String| #[trigger]
                        get_query.ensures((), s) && s@ == q))
                } else {
                    r == self
                },
                _ => r == self,
            },
    {
        match self {
            Error::Postgres(e) => {
                if e.query().is_none() {
                    let q = get_query();
                    Error::Postgres(e.with_query(q))
                } else {
                    Error::Postgres(e)
                }
            },
            other => other,
        }
    }
}

} // verus!
