//! `SET`: fields in the canonical order of their tags.

use crate::syn::sequence;
use crate::syn::{ReadableType, Reader, WritableType, Writer};
use core::marker::PhantomData;
use vstd::prelude::*;

verus! {

/// The metadata of a set: that of a sequence.
pub trait Constraint: sequence::Constraint {

}

/// A set that reads and writes its own fields at the place that the format
/// gives them.
pub trait Fields: Constraint + Sized {
    fn read_set<R: Reader>(reader: &mut R) -> Result<Self, R::Error>;

    fn write_set<W: Writer>(&self, writer: &mut W) -> Result<(), W::Error>;
}

/// The construct `SET` with the fields of `C`.
pub struct SetT<C: Fields>(PhantomData<C>);

impl<C: Fields> WritableType for SetT<C> {
    type Type = C;

    /// Writes the value with the format's operation for sets, which is handed
    /// the value and `C::write_set` for its fields: result and writer are those
    /// of `write_set`.
    fn write_value<W: Writer>(writer: &mut W, value: &C) -> (r: Result<(), W::Error>)
        ensures
            exists|s: &mut W|
                *s == *old(writer) && *final(s) == *final(writer) && #[trigger] call_ensures(
                    W::write_set::<C, _>,
                    (s, value, C::write_set::<W>),
                    r,
                ),
    {
        writer.write_set::<C, _>(value, C::write_set::<W>)
    }
}

impl<C: Fields> ReadableType for SetT<C> {
    type Type = C;

    /// Reads the value with the format's operation for sets, which is handed
    /// `C::read_set` for the fields: result and reader are those of
    /// `read_set`.
    fn read_value<R: Reader>(reader: &mut R) -> (r: Result<C, R::Error>)
        ensures
            exists|s: &mut R|
                *s == *old(reader) && *final(s) == *final(reader) && #[trigger] call_ensures(
                    R::read_set::<C, C, _>,
                    (s, C::read_set::<R>),
                    r,
                ),
    {
        reader.read_set::<C, C, _>(C::read_set::<R>)
    }
}

} // verus!
