//! `ENUMERATED`: one of a set of names.

use crate::syn::common;
use crate::syn::{ReadableType, Reader, WritableType, Writer};
use core::marker::PhantomData;
use vstd::prelude::*;

verus! {

/// The metadata of an enumerated type, and the index of each of its values.
pub trait Constraint: common::Constraint + Sized {
    const NAME: &'static str;

    /// The number of all variants.
    const VARIANT_COUNT: u64;

    /// The number of variants before the extension marker.
    const STD_VARIANT_COUNT: u64;

    const EXTENSIBLE: bool = false;

    /// The index of the variant that `self` is.
    spec fn index_of(&self) -> u64;

    /// The index of the variant that `self` is.
    fn to_choice_index(&self) -> (index: u64)
        ensures
            index == self.index_of(),
            index < Self::VARIANT_COUNT,
    ;

    /// The variant of the given index: each index below the number of
    /// variants has one, and no other index has.
    fn from_choice_index(index: u64) -> (r: Option<Self>)
        ensures
            r.is_some() == (index < Self::VARIANT_COUNT),
            r matches Some(value) ==> value.index_of() == index,
    ;
}

/// The construct `ENUMERATED` of the variants of `C`.
pub struct Enumerated<C: Constraint>(PhantomData<C>);

impl<C: Constraint> WritableType for Enumerated<C> {
    type Type = C;

    /// Writes the variant with the format's operation for enumerated types:
    /// result and writer are those of `write_enumerated`.
    fn write_value<W: Writer>(writer: &mut W, value: &C) -> (r: Result<(), W::Error>)
        ensures
            exists|s: &mut W|
                *s == *old(writer) && *final(s) == *final(writer) && #[trigger] call_ensures(
                    W::write_enumerated::<C>,
                    (s, value),
                    r,
                ),
    {
        writer.write_enumerated::<C>(value)
    }
}

impl<C: Constraint> ReadableType for Enumerated<C> {
    type Type = C;

    /// Reads the variant with the format's operation for enumerated types:
    /// result and reader are those of `read_enumerated`.
    fn read_value<R: Reader>(reader: &mut R) -> (r: Result<C, R::Error>)
        ensures
            exists|s: &mut R|
                *s == *old(reader) && *final(s) == *final(reader) && #[trigger] call_ensures(
                    R::read_enumerated::<C>,
                    (s,),
                    r,
                ),
    {
        reader.read_enumerated::<C>()
    }
}

} // verus!
