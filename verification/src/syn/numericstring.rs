//! `NumericString`.

use crate::schema::Tag;
use crate::syn::common;
use crate::syn::{ReadableType, Reader, WritableType, Writer};
use core::marker::PhantomData;
use vstd::prelude::*;

verus! {

/// The metadata of a string: the bounds of its length, and whether a later
/// version of the schema may widen them.
pub trait Constraint: common::Constraint {
    const MIN: Option<u64> = None;

    const MAX: Option<u64> = None;

    const EXTENSIBLE: bool = false;
}

/// A string of any length.
pub struct NoConstraint;

impl common::Constraint for NoConstraint {
    fn tag() -> (t: Tag)
        ensures
            t == Tag::Universal(18),
    {
        Tag::default_numeric_string()
    }
}

impl Constraint for NoConstraint {

}

/// The construct `NumericString` with the metadata `C`.
pub struct NumericString<C: Constraint = NoConstraint>(PhantomData<C>);

impl<C: Constraint> WritableType for NumericString<C> {
    type Type = String;

    /// Writes the text with the format's operation for this kind of string:
    /// result and writer are those of `write_numeric_string`.
    fn write_value<W: Writer>(writer: &mut W, value: &String) -> (r: Result<(), W::Error>)
        ensures
            exists|s: &mut W, text: &str|
                *s == *old(writer) && *final(s) == *final(writer) && text@ == value@
                    && #[trigger] call_ensures(W::write_numeric_string::<C>, (s, text), r),
    {
        writer.write_numeric_string::<C>(value.as_str())
    }
}

impl<C: Constraint> ReadableType for NumericString<C> {
    type Type = String;

    /// Reads the text with the format's operation for this kind of string:
    /// result and reader are those of `read_numeric_string`.
    fn read_value<R: Reader>(reader: &mut R) -> (r: Result<String, R::Error>)
        ensures
            exists|s: &mut R|
                *s == *old(reader) && *final(s) == *final(reader) && #[trigger] call_ensures(
                    R::read_numeric_string::<C>,
                    (s,),
                    r,
                ),
    {
        reader.read_numeric_string::<C>()
    }
}

} // verus!
