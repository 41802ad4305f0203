//! `OPTIONAL`: a value that may be absent.

use crate::syn::{read_element, write_element, ReadableType, Reader, WritableType, Writer};
use vstd::prelude::*;

verus! {

impl<T: WritableType> WritableType for Option<T> {
    type Type = Option<T::Type>;

    /// Writes the value with the format's operation for what may be absent,
    /// which is handed the value, where there is one, and `write_element`
    /// for it: result and writer are those of `write_opt`.
    fn write_value<W: Writer>(writer: &mut W, value: &Option<T::Type>) -> (r: Result<(), W::Error>)
        ensures
            exists|s: &mut W, handed: Option<&T::Type>|
                *s == *old(writer) && *final(s) == *final(writer) && (handed is Some <==> *value
                    is Some) && (handed is Some ==> value->0 == handed->0)
                    && #[trigger] call_ensures(
                    W::write_opt::<T::Type, _>,
                    (s, handed, write_element::<T, W>),
                    r,
                ),
    {
        writer.write_opt::<T::Type, _>(value.as_ref(), write_element::<T, W>)
    }
}

impl<T: ReadableType> ReadableType for Option<T> {
    type Type = Option<T::Type>;

    /// Reads the value with the format's operation for what may be absent,
    /// which is handed `read_element`: result and reader are those of
    /// `read_opt`.
    fn read_value<R: Reader>(reader: &mut R) -> (r: Result<Option<T::Type>, R::Error>)
        ensures
            exists|s: &mut R|
                *s == *old(reader) && *final(s) == *final(reader) && #[trigger] call_ensures(
                    R::read_opt::<T::Type, _>,
                    (s, read_element::<T, R>),
                    r,
                ),
    {
        reader.read_opt::<T::Type, _>(read_element::<T, R>)
    }
}

} // verus!
