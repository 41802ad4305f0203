//! A value of a generated type, which reads and writes itself.

use crate::syn::common;
use crate::syn::{KeyedReadable, KeyedReadableType, Readable, ReadableType, Reader};
use crate::syn::{Writable, WritableType, Writer};
use core::marker::PhantomData;
use vstd::prelude::*;

verus! {

/// The metadata of a generated type that is used as a field.
pub trait Constraint: common::Constraint {

}

/// The construct of the values of `V`, with the metadata `T`.
pub struct Complex<V, T: Constraint>(PhantomData<T>, PhantomData<V>, Option<usize>);

impl<V: Writable, C: Constraint> WritableType for Complex<V, C> {
    type Type = V;

    /// Writes the value as it writes itself: result and writer are those of
    /// `V::write`.
    fn write_value<W: Writer>(writer: &mut W, value: &V) -> (r: Result<(), W::Error>)
        ensures
            exists|s: &mut W|
                *s == *old(writer) && *final(s) == *final(writer) && #[trigger] call_ensures(
                    V::write::<W>,
                    (value, s),
                    r,
                ),
    {
        value.write(writer)
    }
}

impl<V: Readable, C: Constraint> ReadableType for Complex<V, C> {
    type Type = V;

    /// Reads the value as the type reads itself: result and reader are those
    /// of `V::read`.
    fn read_value<R: Reader>(reader: &mut R) -> (r: Result<V, R::Error>)
        ensures
            exists|s: &mut R|
                *s == *old(reader) && *final(s) == *final(reader) && #[trigger] call_ensures(
                    V::read::<R>,
                    (s,),
                    r,
                ),
    {
        V::read(reader)
    }
}

impl<V: KeyedReadable, C: Constraint> KeyedReadableType for Complex<V, C> {
    type Type = V;

    /// Reads the value as the type reads itself for the key: result and
    /// reader are those of `V::read_by_key`.
    fn read_value_by_key<R: Reader>(reader: &mut R, key: usize) -> (r: Result<V, R::Error>)
        ensures
            exists|s: &mut R|
                *s == *old(reader) && *final(s) == *final(reader) && #[trigger] call_ensures(
                    V::read_by_key::<R>,
                    (s, key),
                    r,
                ),
    {
        V::read_by_key(reader, key)
    }
}

} // verus!
