//! The backend witness traits: a zero-sized type per backend binds together
//! the types that one generic execution path needs for that backend.
use vstd::prelude::*;

verus! {

/// The descriptor of a column's or parameter's SQL type.
pub trait TypeInfo: Sized {
    /// Whether a value of one type may stand where the other is expected.
    spec fn spec_compatible(&self, other: &Self) -> bool;

    fn compatible(&self, other: &Self) -> (r: bool)
        ensures
            r == self.spec_compatible(other),
    ;
}

/// A database driver.
pub trait Database: Sized + for <'c>HasRow<'c, Database = Self> + for <'c>HasRawValue<'c> + for <'c, 'q>HasCursor<
    'c,
    'q,
    Database = Self,
> {
    /// The arguments bound to a query.
    type Arguments: Arguments<Database = Self>;

    /// The descriptor of SQL types.
    type TypeInfo: TypeInfo;

    /// Table identifiers.
    type TableId: Clone;

    /// The buffer that encoded values are appended to.
    type RawBuffer;

    /// The error that decoding reports.
    type Error;
}

/// The raw value of one column, borrowed for `'c`.
pub trait HasRawValue<'c> {
    type RawValue;
}

/// The cursor type, borrowing the connection for `'c` and the query for `'q`.
pub trait HasCursor<'c, 'q> {
    type Database;

    type Cursor: Cursor<'c, 'q, Database = Self::Database>;
}

/// The row type, borrowing its data for `'c`.
pub trait HasRow<'c> {
    type Database;

    type Row: Row<'c, Database = Self::Database>;
}

/// Arguments of a query.
pub trait Arguments {
    type Database;
}

/// One row of a result.
pub trait Row<'c> {
    type Database;
}

/// A stream of rows.
pub trait Cursor<'c, 'q> {
    type Database;
}

} // verus!
