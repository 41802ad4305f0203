//! `NULL`.

use crate::schema::Tag;
use crate::syn::common;
use crate::syn::{ReadableType, Reader, WritableType, Writer};
use core::marker::PhantomData;
use vstd::prelude::*;

verus! {

/// The one value of `NULL`.
#[derive(Debug, Clone, Copy, PartialEq, Eq, Structural)]
pub struct Null;

/// The metadata of a null.
pub trait Constraint: common::Constraint {

}

/// A null with the tag of its kind.
pub struct NoConstraint;

impl common::Constraint for NoConstraint {
    fn tag() -> (t: Tag)
        ensures
            t == Tag::Universal(5),
    {
        Tag::Universal(5)
    }
}

impl Constraint for NoConstraint {

}

/// The construct `NULL` with the metadata `C`.
pub struct NullT<C: Constraint = NoConstraint>(PhantomData<C>);

impl<C: Constraint> WritableType for NullT<C> {
    type Type = Null;

    /// Writes with the format's operation for null: result and writer are
    /// those of `write_null`.
    fn write_value<W: Writer>(writer: &mut W, value: &Null) -> (r: Result<(), W::Error>)
        ensures
            exists|s: &mut W|
                *s == *old(writer) && *final(s) == *final(writer) && #[trigger] call_ensures(
                    W::write_null::<C>,
                    (s, value),
                    r,
                ),
    {
        writer.write_null::<C>(value)
    }
}

impl<C: Constraint> ReadableType for NullT<C> {
    type Type = Null;

    /// Reads with the format's operation for null: result and reader are
    /// those of `read_null`.
    fn read_value<R: Reader>(reader: &mut R) -> (r: Result<Null, R::Error>)
        ensures
            exists|s: &mut R|
                *s == *old(reader) && *final(s) == *final(reader) && #[trigger] call_ensures(
                    R::read_null::<C>,
                    (s,),
                    r,
                ),
    {
        reader.read_null::<C>()
    }
}

} // verus!
