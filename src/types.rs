//! The contracts that a Rust value type implements to be sent to, and read
//! from, a backend.
use vstd::prelude::*;

use crate::database::{Database, HasRawValue};

verus! {

/// A Rust type with a native SQL representation in the backend `DB`.
pub trait Type<DB: Database> {
    spec fn spec_type_info() -> DB::TypeInfo;

    /// The descriptor of this type's SQL representation.
    fn type_info() -> (r: DB::TypeInfo)
        ensures
            r == Self::spec_type_info(),
    ;
}

/// A value that can be bound as an argument of a query in the backend `DB`.
pub trait Encode<DB: Database> {
    /// How encoding this value changes the buffer.
    spec fn spec_encoded(&self, before: DB::RawBuffer, after: DB::RawBuffer) -> bool;

    /// Appends the representation of this value to the buffer.
    fn encode(&self, buf: &mut DB::RawBuffer)
        ensures
            self.spec_encoded(*old(buf), *final(buf)),
    ;
}

/// A value that can be read from a raw value of the backend `DB`; `None`
/// stands for SQL `NULL`.
pub trait Decode<'de, DB: Database>: Sized {
    spec fn spec_decode(value: Option<<DB as HasRawValue<'de>>::RawValue>) -> Result<
        Self,
        DB::Error,
    >;

    fn decode(value: Option<<DB as HasRawValue<'de>>::RawValue>) -> (r: Result<Self, DB::Error>)
        ensures
            r == Self::spec_decode(value),
    ;
}

/// A nullable value: `NULL` reads as `None`, anything else as `Some` of what
/// the inner type reads, with its failures passed on unchanged.
impl<'de, DB: Database, T: Decode<'de, DB>> Decode<'de, DB> for Option<T> {
    open spec fn spec_decode(value: Option<<DB as HasRawValue<'de>>::RawValue>) -> Result<
        Self,
        DB::Error,
    > {
        match value {
            None => Ok(None),
            Some(v) => match T::spec_decode(Some(v)) {
                Ok(x) => Ok(Some(x)),
                Err(e) => Err(e),
            },
        }
    }

    fn decode(value: Option<<DB as HasRawValue<'de>>::RawValue>) -> (r: Result<Self, DB::Error>) {
        match value {
            None => Ok(None),
            Some(v) => match T::decode(Some(v)) {
                Ok(x) => Ok(Some(x)),
                Err(e) => Err(e),
            },
        }
    }
}


/// Reading a nullable value: `NULL` gives `None`; any other raw value gives
/// `Some` of what the inner type reads from it, or exactly the inner type's
/// failure.
pub proof fn lemma_option_decode<'de, DB: Database, T: Decode<'de, DB>>(
    value: Option<<DB as HasRawValue<'de>>::RawValue>,
)
    ensures
        value is None ==> <Option<T> as Decode<'de, DB>>::spec_decode(value) == Ok::<
            Option<T>,
            DB::Error,
        >(None),
        value is Some ==> match T::spec_decode(value) {
            Ok(x) => <Option<T> as Decode<'de, DB>>::spec_decode(value) == Ok::<
                Option<T>,
                DB::Error,
            >(Some(x)),
            Err(e) => <Option<T> as Decode<'de, DB>>::spec_decode(value) == Err::<
                Option<T>,
                DB::Error,
            >(e),
        },
{
}

} // verus!
