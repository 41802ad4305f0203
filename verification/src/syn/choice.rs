//! `CHOICE`: a value of one of several types, which the value itself tells.

use crate::syn::common;
use crate::syn::{ReadableType, Reader, WritableType, Writer};
use core::marker::PhantomData;
use vstd::prelude::*;

verus! {

/// The metadata of a choice, and the index of the variant that a value holds.
pub trait Constraint: common::Constraint + Sized {
    const NAME: &'static str;

    /// The number of all variants.
    const VARIANT_COUNT: u64;

    /// The number of variants before the extension marker.
    const STD_VARIANT_COUNT: u64;

    const EXTENSIBLE: bool = false;

    /// The index of the variant that `self` holds.
    spec fn index_of(&self) -> u64;

    /// The index of the variant that `self` holds.
    fn to_choice_index(&self) -> (index: u64)
        ensures
            index == self.index_of(),
            index < Self::VARIANT_COUNT,
    ;
}

/// Whether `index` is that of a variant of the choice `C`.
pub open spec fn declares<C: Constraint>(index: int) -> bool {
    0 <= index < C::VARIANT_COUNT
}

/// A choice that reads and writes what its variants hold.
pub trait Content: Constraint {
    /// Writes what the variant of `self` holds.
    fn write_content<W: Writer>(&self, writer: &mut W) -> Result<(), W::Error>;

    /// Reads what the variant of the given index holds. An index at or beyond
    /// the number of variants is no variant: that is no error.
    fn read_content<R: Reader>(index: u64, reader: &mut R) -> (r: Result<Option<Self>, R::Error>)
        ensures
            index >= Self::VARIANT_COUNT ==> r matches Ok(None),
            index < Self::VARIANT_COUNT ==> !(r matches Ok(None)),
            r matches Ok(Some(value)) ==> value.index_of() == index,
    ;
}

/// The construct `CHOICE` of the variants of `C`.
pub struct Choice<C: Content>(PhantomData<C>);

impl<C: Content> WritableType for Choice<C> {
    type Type = C;

    /// Writes the value with the format's operation for choices, which is
    /// handed the value and `C::write_content` for what it holds: result and
    /// writer are those of `write_choice`.
    fn write_value<W: Writer>(writer: &mut W, value: &C) -> (r: Result<(), W::Error>)
        ensures
            exists|s: &mut W|
                *s == *old(writer) && *final(s) == *final(writer) && #[trigger] call_ensures(
                    W::write_choice::<C, _>,
                    (s, value, C::write_content::<W>),
                    r,
                ),
    {
        writer.write_choice::<C, _>(value, C::write_content::<W>)
    }
}

impl<C: Content> ReadableType for Choice<C> {
    type Type = C;

    /// Reads the value with the format's operation for choices, which is
    /// handed `C::read_content`: result and reader are those of
    /// `read_choice`. A value that comes back is of a variant that the choice
    /// declares.
    fn read_value<R: Reader>(reader: &mut R) -> (r: Result<C, R::Error>)
        ensures
            r matches Ok(value) ==> declares::<C>(value.index_of() as int),
            exists|s: &mut R|
                *s == *old(reader) && *final(s) == *final(reader) && #[trigger] call_ensures(
                    R::read_choice::<C, _>,
                    (s, C::read_content::<R>),
                    r,
                ),
    {
        reader.read_choice::<C, _>(C::read_content::<R>)
    }
}

} // verus!
