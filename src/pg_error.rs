//! The structured error that the network-protocol backend reports.
use vstd::prelude::*;

use crate::response::{opt_str, Response, TAG_CODE, TAG_MESSAGE};

verus! {

/// Tag of the detail field, `D`.
pub const TAG_DETAIL: u8 = 68;

/// Tag of the hint field, `H`.
pub const TAG_HINT: u8 = 72;

/// Tag of the table name field, `t`.
pub const TAG_TABLE: u8 = 116;

/// Tag of the column name field, `c`.
pub const TAG_COLUMN: u8 = 99;

/// Tag of the constraint name field, `n`.
pub const TAG_CONSTRAINT: u8 = 110;

/// An error reported by the server, with the query that caused it once known.
#[derive(Debug)]
pub struct PgError {
    response: Response,
    query: Option<String>,
}

impl PgError {
    pub closed spec fn spec_response(&self) -> Response {
        self.response
    }

    pub closed spec fn spec_query(&self) -> Option<Seq<char>> {
        match self.query {
            Some(q) => Some(q@),
            None => None,
        }
    }

    /// The error carried by a decoded response, with no query yet.
    pub fn new(response: Response) -> (r: PgError)
        ensures
            r.spec_response() == response,
            r.spec_query() is None,
    {
        PgError { response, query: None }
    }

    /// Records the query that caused the error.
    pub fn with_query(self, query: String) -> (r: PgError)
        ensures
            r.spec_response() == self.spec_response(),
            r.spec_query() == Some(query@),
    {
        PgError { response: self.response, query: Some(query) }
    }

    /// The query that caused the error, if it is known.
    pub fn query(&self) -> (r: Option<&str>)
        ensures
            opt_str(r) == self.spec_query(),
    {
        match &self.query {
            Some(q) => Some(q.as_str()),
            None => None,
        }
    }

    /// The primary message.
    pub fn message(&self) -> (r: &str)
        ensures
            self.spec_response().field_view(TAG_MESSAGE) == Some(r@),
    {
        self.response.message()
    }

    /// The SQLSTATE code.
    pub fn code(&self) -> (r: Option<&str>)
        ensures
            r is Some,
            opt_str(r) == self.spec_response().field_view(TAG_CODE),
    {
        Some(self.response.code())
    }

    pub fn details(&self) -> (r: Option<&str>)
        ensures
            opt_str(r) == self.spec_response().field_view(TAG_DETAIL),
    {
        self.field(TAG_DETAIL)
    }

    pub fn hint(&self) -> (r: Option<&str>)
        ensures
            opt_str(r) == self.spec_response().field_view(TAG_HINT),
    {
        self.field(TAG_HINT)
    }

    pub fn table_name(&self) -> (r: Option<&str>)
        ensures
            opt_str(r) == self.spec_response().field_view(TAG_TABLE),
    {
        self.field(TAG_TABLE)
    }

    pub fn column_name(&self) -> (r: Option<&str>)
        ensures
            opt_str(r) == self.spec_response().field_view(TAG_COLUMN),
    {
        self.field(TAG_COLUMN)
    }

    pub fn constraint_name(&self) -> (r: Option<&str>)
        ensures
            opt_str(r) == self.spec_response().field_view(TAG_CONSTRAINT),
    {
        self.field(TAG_CONSTRAINT)
    }

    /// Any field of the error by its tag.
    pub fn field(&self, tag: u8) -> (r: Option<&str>)
        ensures
            opt_str(r) == self.spec_response().field_view(tag),
    {
        self.response.field(tag)
    }

    /// The text shown for the error: the primary message alone.
    pub fn to_string(&self) -> (r: String)
        ensures
            self.spec_response().field_view(TAG_MESSAGE) == Some(r@),
    {
        self.response.message().to_owned()
    }
}

} // verus!
