//! `OCTET STRING`.

use crate::schema::Tag;
use crate::syn::common;
use crate::syn::{ReadableType, Reader, WritableType, Writer};
use core::marker::PhantomData;
use vstd::prelude::*;

verus! {

/// The metadata of an octet string: the bounds of its length, and whether a
/// later version of the schema may widen them.
pub trait Constraint: common::Constraint {
    const MIN: Option<u64> = None;

    const MAX: Option<u64> = None;

    const EXTENSIBLE: bool = false;
}

/// An octet string of any length.
pub struct NoConstraint;

impl common::Constraint for NoConstraint {
    fn tag() -> (t: Tag)
        ensures
            t == Tag::Universal(4),
    {
        Tag::default_octet_string()
    }
}

impl Constraint for NoConstraint {

}

/// The construct `OCTET STRING` with the metadata `C`.
pub struct OctetString<C: Constraint = NoConstraint>(PhantomData<C>);

impl<C: Constraint> WritableType for OctetString<C> {
    type Type = Vec<u8>;

    /// Writes the bytes with the format's operation for octet strings:
    /// result and writer are those of `write_octet_string`.
    fn write_value<W: Writer>(writer: &mut W, value: &Vec<u8>) -> (r: Result<(), W::Error>)
        ensures
            exists|s: &mut W, bytes: &[u8]|
                *s == *old(writer) && *final(s) == *final(writer) && bytes@ == value@
                    && #[trigger] call_ensures(W::write_octet_string::<C>, (s, bytes), r),
    {
        writer.write_octet_string::<C>(value.as_slice())
    }
}

impl<C: Constraint> ReadableType for OctetString<C> {
    type Type = Vec<u8>;

    /// Reads the bytes with the format's operation for octet strings:
    /// result and reader are those of `read_octet_string`.
    fn read_value<R: Reader>(reader: &mut R) -> (r: Result<Vec<u8>, R::Error>)
        ensures
            exists|s: &mut R|
                *s == *old(reader) && *final(s) == *final(reader) && #[trigger] call_ensures(
                    R::read_octet_string::<C>,
                    (s,),
                    r,
                ),
    {
        reader.read_octet_string::<C>()
    }
}

} // verus!
