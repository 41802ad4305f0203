//! `BOOLEAN`.

use crate::schema::Tag;
use crate::syn::common;
use crate::syn::{ReadableType, Reader, WritableType, Writer};
use core::marker::PhantomData;
use vstd::prelude::*;

verus! {

/// The metadata of a boolean.
pub trait Constraint: common::Constraint {

}

/// A boolean with the tag of its kind.
pub struct NoConstraint;

impl common::Constraint for NoConstraint {
    fn tag() -> (t: Tag)
        ensures
            t == Tag::Universal(1),
    {
        Tag::default_boolean()
    }
}

impl Constraint for NoConstraint {

}

/// The construct `BOOLEAN` with the metadata `C`.
pub struct Boolean<C: Constraint = NoConstraint>(PhantomData<C>);

impl<C: Constraint> WritableType for Boolean<C> {
    type Type = bool;

    /// Writes the value with the format's operation for booleans: result and
    /// writer are those of `write_boolean`.
    fn write_value<W: Writer>(writer: &mut W, value: &bool) -> (r: Result<(), W::Error>)
        ensures
            exists|s: &mut W|
                *s == *old(writer) && *final(s) == *final(writer) && #[trigger] call_ensures(
                    W::write_boolean::<C>,
                    (s, *value),
                    r,
                ),
    {
        writer.write_boolean::<C>(*value)
    }
}

impl<C: Constraint> ReadableType for Boolean<C> {
    type Type = bool;

    /// Reads the value with the format's operation for booleans: result and
    /// reader are those of `read_boolean`.
    fn read_value<R: Reader>(reader: &mut R) -> (r: Result<bool, R::Error>)
        ensures
            exists|s: &mut R|
                *s == *old(reader) && *final(s) == *final(reader) && #[trigger] call_ensures(
                    R::read_boolean::<C>,
                    (s,),
                    r,
                ),
    {
        reader.read_boolean::<C>()
    }
}

} // verus!
