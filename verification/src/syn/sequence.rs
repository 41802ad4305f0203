//! `SEQUENCE`: fields in the order of their declaration.

use crate::syn::common;
use crate::syn::{ReadableType, Reader, WritableType, Writer};
use core::marker::PhantomData;
use vstd::prelude::*;

verus! {

/// The metadata of a sequence.
pub trait Constraint: common::Constraint {
    const NAME: &'static str;

    /// The number of fields before the extension marker that may be absent.
    const STD_OPTIONAL_FIELDS: u64;

    /// The number of all fields.
    const FIELD_COUNT: u64;

    /// The index of the last field before the extension marker, where the
    /// sequence has a marker.
    const EXTENDED_AFTER_FIELD: Option<u64>;
}

/// A sequence that reads and writes its own fields, in the order of their
/// declaration, at the place that the format gives them.
pub trait Fields: Constraint + Sized {
    fn read_seq<R: Reader>(reader: &mut R) -> Result<Self, R::Error>;

    fn write_seq<W: Writer>(&self, writer: &mut W) -> Result<(), W::Error>;
}

/// The construct `SEQUENCE` with the fields of `C`.
pub struct Sequence<C: Fields>(PhantomData<C>);

impl<C: Fields> WritableType for Sequence<C> {
    type Type = C;

    /// Writes the value with the format's operation for sequences, which is handed
    /// the value and `C::write_seq` for its fields: result and writer are those
    /// of `write_sequence`.
    fn write_value<W: Writer>(writer: &mut W, value: &C) -> (r: Result<(), W::Error>)
        ensures
            exists|s: &mut W|
                *s == *old(writer) && *final(s) == *final(writer) && #[trigger] call_ensures(
                    W::write_sequence::<C, _>,
                    (s, value, C::write_seq::<W>),
                    r,
                ),
    {
        writer.write_sequence::<C, _>(value, C::write_seq::<W>)
    }
}

impl<C: Fields> ReadableType for Sequence<C> {
    type Type = C;

    /// Reads the value with the format's operation for sequences, which is handed
    /// `C::read_seq` for the fields: result and reader are those of
    /// `read_sequence`.
    fn read_value<R: Reader>(reader: &mut R) -> (r: Result<C, R::Error>)
        ensures
            exists|s: &mut R|
                *s == *old(reader) && *final(s) == *final(reader) && #[trigger] call_ensures(
                    R::read_sequence::<C, C, _>,
                    (s, C::read_seq::<R>),
                    r,
                ),
    {
        reader.read_sequence::<C, C, _>(C::read_seq::<R>)
    }
}

} // verus!
