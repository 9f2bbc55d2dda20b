//! The embedded-engine backend: its witness type, its argument and raw
//! values, rows and cursors, and the value types it can bind and read.
use vstd::prelude::*;

use crate::database::{Arguments, Cursor, Database, HasCursor, HasRawValue, HasRow, Row, TypeInfo};
use crate::types::{Decode, Encode, Type};

verus! {

/// The embedded-engine database driver.
#[derive(Debug, Clone, Copy, PartialEq, Eq, Structural)]
pub struct Sqlite;

/// The declared SQL type of a value.
#[derive(Debug, Clone, Copy, PartialEq, Eq, Structural)]
pub enum SqliteType {
    Null,
    Integer,
    Float,
    Text,
    Blob,
    Boolean,
}

/// The type affinity of a column, which governs how values convert.
#[derive(Debug, Clone, Copy, PartialEq, Eq, Structural)]
pub enum SqliteTypeAffinity {
    Text,
    Numeric,
    Integer,
    Real,
    Blob,
}

/// Type information for an embedded-engine SQL type.
#[derive(Debug, Clone, Copy, PartialEq, Eq, Structural)]
pub struct SqliteTypeInfo {
    pub kind: SqliteType,
    pub affinity: SqliteTypeAffinity,
}

impl SqliteTypeInfo {
    pub fn new(kind: SqliteType, affinity: SqliteTypeAffinity) -> (r: SqliteTypeInfo)
        ensures
            r.kind == kind,
            r.affinity == affinity,
    {
        SqliteTypeInfo { kind, affinity }
    }
}

impl TypeInfo for SqliteTypeInfo {
    /// Two types are compatible when they share an affinity.
    open spec fn spec_compatible(&self, other: &Self) -> bool {
        self.affinity == other.affinity
    }

    fn compatible(&self, other: &Self) -> (r: bool) {
        self.affinity == other.affinity
    }
}

/// A value bound as an argument of a statement.
#[derive(Debug, Clone, PartialEq)]
pub enum SqliteArgumentValue {
    Null,
    Text(String),
    Blob(Vec<u8>),
    /// A double, as its IEEE-754 bit pattern.
    Double(u64),
    Int(i32),
    Int64(i64),
}

/// The arguments bound to one statement, in order.
#[derive(Debug, Clone)]
pub struct SqliteArguments {
    pub values: Vec<SqliteArgumentValue>,
}

impl SqliteArguments {
    pub fn new() -> (r: SqliteArguments)
        ensures
            r.values@.len() == 0,
    {
        SqliteArguments { values: Vec::new() }
    }

    /// Binds one more value.
    pub fn add<T: Encode<Sqlite>>(&mut self, value: T)
        ensures
            value.spec_encoded(old(self).values, final(self).values),
    {
        value.encode(&mut self.values);
    }
}

impl Arguments for SqliteArguments {
    type Database = Sqlite;
}

/// The error type of this backend.
#[derive(Debug, Clone, Copy, PartialEq, Eq, Structural)]
pub enum SqliteError {
    /// The engine returned this non-zero result code.
    Engine { code: i32 },
    /// A `NULL` was read where a value was required.
    UnexpectedNull,
    /// The stored value has a storage class, or a magnitude, that the
    /// requested Rust type cannot hold.
    TypeMismatch,
}

/// A value as stored in a result row.
#[derive(Debug, Clone, PartialEq)]
pub enum SqliteColumnValue {
    Null,
    Integer(i64),
    /// A double, as its IEEE-754 bit pattern.
    Double(u64),
    Text(String),
    Blob(Vec<u8>),
}

/// A non-`NULL` raw value of one column, borrowed from its row.
#[derive(Debug, Clone, Copy, PartialEq)]
pub enum SqliteResultValue<'c> {
    Integer(i64),
    /// A double, as its IEEE-754 bit pattern.
    Double(u64),
    Text(&'c str),
    Blob(&'c [u8]),
}

/// Whether `v` is the raw value read from the stored value `c` (`None` for
/// `NULL`).
pub open spec fn reads_as(c: SqliteColumnValue, v: Option<SqliteResultValue>) -> bool {
    match c {
        SqliteColumnValue::Null => v is None,
        SqliteColumnValue::Integer(i) => v == Some(SqliteResultValue::Integer(i)),
        SqliteColumnValue::Double(d) => v == Some(SqliteResultValue::Double(d)),
        SqliteColumnValue::Text(s) => v matches Some(SqliteResultValue::Text(t)) && t@ == s@,
        SqliteColumnValue::Blob(b) => v matches Some(SqliteResultValue::Blob(x)) && x@ == b@,
    }
}

/// The integer that a raw value holds. A value of another storage class
/// holds none: reading it as an integer would approximate it.
pub open spec fn integer_value(v: Option<SqliteResultValue>) -> Option<i64> {
    match v {
        Some(SqliteResultValue::Integer(i)) => Some(i),
        _ => None,
    }
}

/// One row of a result, borrowed from the cursor that produced it.
#[derive(Debug, Clone, Copy)]
pub struct SqliteRow<'c> {
    pub values: &'c [SqliteColumnValue],
}

impl<'c> SqliteRow<'c> {
    /// The number of columns.
    pub fn len(&self) -> (r: usize)
        ensures
            r == self.values@.len(),
    {
        self.values.len()
    }

    /// The raw value of column `index`; `None` for `NULL`.
    pub fn get(&self, index: usize) -> (r: Option<SqliteResultValue<'c>>)
        requires
            index < self.values@.len(),
        ensures
            reads_as(self.values@[index as int], r),
    {
        match &self.values[index] {
            SqliteColumnValue::Null => None,
            SqliteColumnValue::Integer(i) => Some(SqliteResultValue::Integer(*i)),
            SqliteColumnValue::Double(d) => Some(SqliteResultValue::Double(*d)),
            SqliteColumnValue::Text(s) => Some(SqliteResultValue::Text(s.as_str())),
            SqliteColumnValue::Blob(b) => Some(SqliteResultValue::Blob(b.as_slice())),
        }
    }
}

impl<'c> Row<'c> for SqliteRow<'c> {
    type Database = Sqlite;
}

/// The rows of one query, handed out one at a time.
#[derive(Debug)]
pub struct SqliteCursor<'c, 'q> {
    query: &'q str,
    rows: &'c [Vec<SqliteColumnValue>],
    position: usize,
}

impl<'c, 'q> SqliteCursor<'c, 'q> {
    pub closed spec fn spec_query(&self) -> Seq<char> {
        self.query@
    }

    pub closed spec fn spec_rows(&self) -> Seq<Vec<SqliteColumnValue>> {
        self.rows@
    }

    /// How many rows have been handed out.
    pub closed spec fn spec_position(&self) -> nat {
        self.position as nat
    }

    pub closed spec fn wf(&self) -> bool {
        self.position <= self.rows@.len()
    }

    pub fn new(query: &'q str, rows: &'c [Vec<SqliteColumnValue>]) -> (r: SqliteCursor<'c, 'q>)
        ensures
            r.wf(),
            r.spec_query() == query@,
            r.spec_rows() == rows@,
            r.spec_position() == 0,
    {
        SqliteCursor { query, rows, position: 0 }
    }

    /// The text of the query.
    pub fn query(&self) -> (r: &'q str)
        ensures
            r@ == self.spec_query(),
    {
        self.query
    }

    /// The next row, in order, or `None` once all have been handed out.
    pub fn next(&mut self) -> (r: Option<SqliteRow<'c>>)
        requires
            old(self).wf(),
        ensures
            final(self).wf(),
            final(self).spec_query() == old(self).spec_query(),
            final(self).spec_rows() == old(self).spec_rows(),
            old(self).spec_position() < old(self).spec_rows().len() ==> {
                &&& final(self).spec_position() == old(self).spec_position() + 1
                &&& r matches Some(row) && row.values@ == old(self).spec_rows()[old(
                    self,
                ).spec_position() as int]@
            },
            old(self).spec_position() == old(self).spec_rows().len() ==> {
                &&& final(self).spec_position() == old(self).spec_position()
                &&& r is None
            },
    {
        if self.position < self.rows.len() {
            let row = SqliteRow { values: self.rows[self.position].as_slice() };
            self.position = self.position + 1;
            Some(row)
        } else {
            None
        }
    }
}

impl<'c, 'q> Cursor<'c, 'q> for SqliteCursor<'c, 'q> {
    type Database = Sqlite;
}

impl Database for Sqlite {
    type Arguments = SqliteArguments;

    type TypeInfo = SqliteTypeInfo;

    type TableId = String;

    type RawBuffer = Vec<SqliteArgumentValue>;

    type Error = SqliteError;
}

impl<'c> HasRow<'c> for Sqlite {
    type Database = Sqlite;

    type Row = SqliteRow<'c>;
}

impl<'c, 'q> HasCursor<'c, 'q> for Sqlite {
    type Database = Sqlite;

    type Cursor = SqliteCursor<'c, 'q>;
}

impl<'c> HasRawValue<'c> for Sqlite {
    type RawValue = SqliteResultValue<'c>;
}

impl Type<Sqlite> for bool {
    open spec fn spec_type_info() -> SqliteTypeInfo {
        SqliteTypeInfo { kind: SqliteType::Boolean, affinity: SqliteTypeAffinity::Numeric }
    }

    fn type_info() -> (r: SqliteTypeInfo) {
        SqliteTypeInfo::new(SqliteType::Boolean, SqliteTypeAffinity::Numeric)
    }
}

impl Encode<Sqlite> for bool {
    /// `true` is bound as the integer 1, `false` as 0.
    open spec fn spec_encoded(&self, before: Vec<SqliteArgumentValue>, after: Vec<SqliteArgumentValue>) -> bool {
        after@ == before@.push(SqliteArgumentValue::Int(if *self { 1 } else { 0 }))
    }

    fn encode(&self, buf: &mut Vec<SqliteArgumentValue>) {
        buf.push(SqliteArgumentValue::Int(if *self { 1 } else { 0 }));
    }
}

impl<'a> Decode<'a, Sqlite> for bool {
    /// Any non-zero integer reads as `true`.
    open spec fn spec_decode(value: Option<SqliteResultValue<'a>>) -> Result<bool, SqliteError> {
        match value {
            None => Err(SqliteError::UnexpectedNull),
            Some(SqliteResultValue::Integer(i)) => Ok(i != 0),
            Some(_) => Err(SqliteError::TypeMismatch),
        }
    }

    fn decode(value: Option<SqliteResultValue<'a>>) -> (r: Result<bool, SqliteError>) {
        match value {
            None => Err(SqliteError::UnexpectedNull),
            Some(SqliteResultValue::Integer(i)) => Ok(i != 0),
            Some(_) => Err(SqliteError::TypeMismatch),
        }
    }
}

impl Type<Sqlite> for i32 {
    open spec fn spec_type_info() -> SqliteTypeInfo {
        SqliteTypeInfo { kind: SqliteType::Integer, affinity: SqliteTypeAffinity::Integer }
    }

    fn type_info() -> (r: SqliteTypeInfo) {
        SqliteTypeInfo::new(SqliteType::Integer, SqliteTypeAffinity::Integer)
    }
}

impl Encode<Sqlite> for i32 {
    open spec fn spec_encoded(&self, before: Vec<SqliteArgumentValue>, after: Vec<SqliteArgumentValue>) -> bool {
        after@ == before@.push(SqliteArgumentValue::Int(*self))
    }

    fn encode(&self, buf: &mut Vec<SqliteArgumentValue>) {
        buf.push(SqliteArgumentValue::Int(*self));
    }
}

impl<'a> Decode<'a, Sqlite> for i32 {
    /// An integer outside the range of `i32` is refused, never truncated.
    open spec fn spec_decode(value: Option<SqliteResultValue<'a>>) -> Result<i32, SqliteError> {
        match value {
            None => Err(SqliteError::UnexpectedNull),
            Some(SqliteResultValue::Integer(i)) => if i32::MIN <= i <= i32::MAX {
                Ok(i as i32)
            } else {
                Err(SqliteError::TypeMismatch)
            },
            Some(_) => Err(SqliteError::TypeMismatch),
        }
    }

    fn decode(value: Option<SqliteResultValue<'a>>) -> (r: Result<i32, SqliteError>) {
        match value {
            None => Err(SqliteError::UnexpectedNull),
            Some(SqliteResultValue::Integer(i)) => if i32::MIN as i64 <= i && i <= i32::MAX as i64 {
                Ok(i as i32)
            } else {
                Err(SqliteError::TypeMismatch)
            },
            Some(_) => Err(SqliteError::TypeMismatch),
        }
    }
}

impl Type<Sqlite> for i64 {
    open spec fn spec_type_info() -> SqliteTypeInfo {
        SqliteTypeInfo { kind: SqliteType::Integer, affinity: SqliteTypeAffinity::Integer }
    }

    fn type_info() -> (r: SqliteTypeInfo) {
        SqliteTypeInfo::new(SqliteType::Integer, SqliteTypeAffinity::Integer)
    }
}

impl Encode<Sqlite> for i64 {
    open spec fn spec_encoded(&self, before: Vec<SqliteArgumentValue>, after: Vec<SqliteArgumentValue>) -> bool {
        after@ == before@.push(SqliteArgumentValue::Int64(*self))
    }

    fn encode(&self, buf: &mut Vec<SqliteArgumentValue>) {
        buf.push(SqliteArgumentValue::Int64(*self));
    }
}

impl<'a> Decode<'a, Sqlite> for i64 {
    open spec fn spec_decode(value: Option<SqliteResultValue<'a>>) -> Result<i64, SqliteError> {
        match value {
            None => Err(SqliteError::UnexpectedNull),
            Some(SqliteResultValue::Integer(i)) => Ok(i),
            Some(_) => Err(SqliteError::TypeMismatch),
        }
    }

    fn decode(value: Option<SqliteResultValue<'a>>) -> (r: Result<i64, SqliteError>) {
        match value {
            None => Err(SqliteError::UnexpectedNull),
            Some(SqliteResultValue::Integer(i)) => Ok(i),
            Some(_) => Err(SqliteError::TypeMismatch),
        }
    }
}


/// Binding a boolean appends the integer 1 or 0, and any raw value that holds
/// that integer reads back as the same boolean.
pub proof fn lemma_bool_round_trip(
    b: bool,
    before: Vec<SqliteArgumentValue>,
    after: Vec<SqliteArgumentValue>,
    read: Option<SqliteResultValue>,
)
    requires
        b.spec_encoded(before, after),
    ensures
        after@.last() matches SqliteArgumentValue::Int(i) && (integer_value(read) == Some(
            i as i64,
        ) ==> <bool as Decode<Sqlite>>::spec_decode(read) == Ok::<bool, SqliteError>(b)),
{
}

/// Binding an `i32` appends it unchanged, and any raw value that holds it
/// reads back as the same integer.
pub proof fn lemma_i32_round_trip(
    n: i32,
    before: Vec<SqliteArgumentValue>,
    after: Vec<SqliteArgumentValue>,
    read: Option<SqliteResultValue>,
)
    requires
        n.spec_encoded(before, after),
    ensures
        after@.last() == SqliteArgumentValue::Int(n),
        integer_value(read) == Some(n as i64) ==> <i32 as Decode<Sqlite>>::spec_decode(read)
            == Ok::<i32, SqliteError>(n),
{
}

/// Binding an `i64` appends it unchanged, and any raw value that holds it
/// reads back as the same integer.
pub proof fn lemma_i64_round_trip(
    n: i64,
    before: Vec<SqliteArgumentValue>,
    after: Vec<SqliteArgumentValue>,
    read: Option<SqliteResultValue>,
)
    requires
        n.spec_encoded(before, after),
    ensures
        after@.last() == SqliteArgumentValue::Int64(n),
        integer_value(read) == Some(n) ==> <i64 as Decode<Sqlite>>::spec_decode(read) == Ok::<
            i64,
            SqliteError,
        >(n),
{
}

} // verus!
