//! `SET OF`: any number of values of one type.

use crate::schema::Tag;
use crate::syn::common;
use crate::syn::{read_element, write_element, ReadableType, Reader, WritableType, Writer};
use core::marker::PhantomData;
use vstd::prelude::*;

verus! {

/// The metadata of a set-of: the bounds of the number of its values, and
/// whether a later version of the schema may widen them.
pub trait Constraint: common::Constraint {
    const MIN: Option<u64> = None;

    const MAX: Option<u64> = None;

    const EXTENSIBLE: bool = false;
}

/// Any number of values.
pub struct NoConstraint;

impl common::Constraint for NoConstraint {
    fn tag() -> (t: Tag)
        ensures
            t == Tag::Universal(17),
    {
        Tag::default_set_of()
    }
}

impl Constraint for NoConstraint {

}

/// The construct `SET OF` of values of `T`, with the metadata `C`.
pub struct SetOf<T, C: Constraint = NoConstraint>(PhantomData<T>, PhantomData<C>);

impl<T: WritableType, C: Constraint> WritableType for SetOf<T, C> {
    type Type = Vec<T::Type>;

    /// Writes the values with the format's operation for a set-of, which is
    /// handed the values and `write_element` for each of them: result and
    /// writer are those of `write_set_of`.
    fn write_value<W: Writer>(writer: &mut W, value: &Vec<T::Type>) -> (r: Result<(), W::Error>)
        ensures
            exists|s: &mut W, values: &[T::Type]|
                *s == *old(writer) && *final(s) == *final(writer) && values@ == value@
                    && #[trigger] call_ensures(
                    W::write_set_of::<C, T::Type, _>,
                    (s, values, write_element::<T, W>),
                    r,
                ),
    {
        writer.write_set_of::<C, T::Type, _>(value.as_slice(), write_element::<T, W>)
    }
}

impl<T: ReadableType, C: Constraint> ReadableType for SetOf<T, C> {
    type Type = Vec<T::Type>;

    /// Reads the values with the format's operation for a set-of, which is
    /// handed `read_element` for each of them: result and reader are those
    /// of `read_set_of`.
    fn read_value<R: Reader>(reader: &mut R) -> (r: Result<Vec<T::Type>, R::Error>)
        ensures
            exists|s: &mut R|
                *s == *old(reader) && *final(s) == *final(reader) && #[trigger] call_ensures(
                    R::read_set_of::<C, T::Type, _>,
                    (s, read_element::<T, R>),
                    r,
                ),
    {
        reader.read_set_of::<C, T::Type, _>(read_element::<T, R>)
    }
}

} // verus!
