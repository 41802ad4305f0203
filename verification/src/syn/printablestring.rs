//! `PrintableString`.

use crate::schema::Tag;
use crate::syn::common;
use crate::syn::{ReadableType, Reader, WritableType, Writer};
use core::marker::PhantomData;
use vstd::prelude::*;

verus! {

/// The metadata of a string: the bounds of its length, and whether a later
/// version of the schema may widen them.
pub trait Constraint: common::Constraint {
    const MIN: Option<u64> = None;

    const MAX: Option<u64> = None;

    const EXTENSIBLE: bool = false;
}

/// A string of any length.
pub struct NoConstraint;

impl common::Constraint for NoConstraint {
    fn tag() -> (t: Tag)
        ensures
            t == Tag::Universal(19),
    {
        Tag::default_printable_string()
    }
}

impl Constraint for NoConstraint {

}

/// The construct `PrintableString` with the metadata `C`.
pub struct PrintableString<C: Constraint = NoConstraint>(PhantomData<C>);

impl<C: Constraint> WritableType for PrintableString<C> {
    type Type = String;

    /// Writes the text with the format's operation for this kind of string:
    /// result and writer are those of `write_printable_string`.
    fn write_value<W: Writer>(writer: &mut W, value: &String) -> (r: Result<(), W::Error>)
        ensures
            exists|s: &mut W, text: &str|
                *s == *old(writer) && *final(s) == *final(writer) && text@ == value@
                    && #[trigger] call_ensures(W::write_printable_string::<C>, (s, text), r),
    {
        writer.write_printable_string::<C>(value.as_str())
    }
}

impl<C: Constraint> ReadableType for PrintableString<C> {
    type Type = String;

    /// Reads the text with the format's operation for this kind of string:
    /// result and reader are those of `read_printable_string`.
    fn read_value<R: Reader>(reader: &mut R) -> (r: Result<String, R::Error>)
        ensures
            exists|s: &mut R|
                *s == *old(reader) && *final(s) == *final(reader) && #[trigger] call_ensures(
                    R::read_printable_string::<C>,
                    (s,),
                    r,
                ),
    {
        reader.read_printable_string::<C>()
    }
}

} // verus!
