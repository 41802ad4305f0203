//! Open types at run time: a value of one of a fixed set of variants, which
//! a value that stands elsewhere tells.
//!
//! A reader cannot tell from the bytes of an open type which variant they
//! hold. Whoever reads one has the index of the variant already, from a
//! field read before, and hands it in.

use crate::syn::common;
use crate::syn::{KeyedReadableType, Reader, WritableType, Writer};
use core::marker::PhantomData;
use vstd::prelude::*;

verus! {

/// The metadata of an open type, and the index of the variant that a value
/// holds.
pub trait Constraint: common::Constraint + Sized {
    const NAME: &'static str;

    /// The number of all variants.
    const VARIANT_COUNT: u64;

    /// The number of variants before the extension marker.
    const STD_VARIANT_COUNT: u64;

    /// Whether a later version of the schema may add variants.
    const EXTENSIBLE: bool = false;

    /// The index of the variant that `self` holds.
    spec fn index_of(&self) -> usize;

    /// The index of the variant that `self` holds.
    fn to_choice_index(&self) -> (index: usize)
        ensures
            index == self.index_of(),
            index < Self::VARIANT_COUNT,
    ;
}

/// Whether `index` is that of a variant of the open type `C`.
pub open spec fn declares<C: Constraint>(index: int) -> bool {
    0 <= index < C::VARIANT_COUNT
}

/// An open type that reads and writes what its variants hold.
pub trait Content: Constraint {
    /// Writes what the variant of `self` holds.
    fn write_content<W: Writer>(&self, writer: &mut W) -> Result<(), W::Error>;

    /// Reads what the variant of the given index holds. An index at or beyond
    /// the number of variants is no variant: that is no error, and a declared
    /// variant never reads as none.
    fn read_content<R: Reader>(index: usize, reader: &mut R) -> (r: Result<Option<Self>, R::Error>)
        ensures
            index >= Self::VARIANT_COUNT ==> r matches Ok(None),
            index < Self::VARIANT_COUNT ==> !(r matches Ok(None)),
            r matches Ok(Some(value)) ==> value.index_of() == index,
    ;
}

/// What reading an open type by its index came to.
#[derive(Debug, PartialEq)]
pub enum Presence<C> {
    /// The value of the variant of that index.
    Parsed(C),
    /// The index is that of no variant the reader knows.
    UnknownVariant,
}

/// Why an open type could not be read.
#[derive(Debug, PartialEq)]
pub enum Error<E> {
    /// The format failed.
    Codec(E),
    /// The index is that of no variant, and the open type declares that none
    /// will be added.
    UnknownVariant(usize),
}

/// What the content that was read for `index` comes to: a value is handed
/// on, and so is the format's error. No variant is tolerated where the open
/// type is extensible, and is an error where it is not.
pub open spec fn outcome<C, E>(content: Result<Option<C>, E>, index: usize, extensible: bool)
    -> Result<Presence<C>, Error<E>> {
    match content {
        Ok(Some(value)) => Ok(Presence::Parsed(value)),
        Ok(None) => if extensible {
            Ok(Presence::UnknownVariant)
        } else {
            Err(Error::UnknownVariant(index))
        },
        Err(e) => Err(Error::Codec(e)),
    }
}

/// Decides what the content that was read for `index` comes to.
pub fn present<C, E>(content: Result<Option<C>, E>, index: usize, extensible: bool) -> (r: Result<
    Presence<C>,
    Error<E>,
>)
    ensures
        r == outcome(content, index, extensible),
{
    match content {
        Ok(Some(value)) => Ok(Presence::Parsed(value)),
        Ok(None) => if extensible {
            Ok(Presence::UnknownVariant)
        } else {
            Err(Error::UnknownVariant(index))
        },
        Err(e) => Err(Error::Codec(e)),
    }
}

/// Reads the variant of the given index of the open type `C`.
///
/// An index that matches no variant of `C` reads nothing: the result is
/// `UnknownVariant` where `C` is extensible, and the error of that name where
/// it is not. An index that matches a variant gives its value or the
/// format's error.
pub fn read_by_key<C: Content, R: Reader>(reader: &mut R, index: usize) -> (r: Result<
    Presence<C>,
    Error<R::Error>,
>)
    ensures
        index >= C::VARIANT_COUNT ==> r == if C::EXTENSIBLE {
            Ok::<Presence<C>, Error<R::Error>>(Presence::UnknownVariant)
        } else {
            Err::<Presence<C>, Error<R::Error>>(Error::UnknownVariant(index))
        },
        index < C::VARIANT_COUNT ==> (r matches Ok(Presence::Parsed(_))) || (r matches Err(
            Error::Codec(_),
        )),
        r matches Ok(Presence::Parsed(value)) ==> value.index_of() == index,
{
    present(C::read_content(index, reader), index, C::EXTENSIBLE)
}

/// The construct of the open type `C`.
pub struct OpenType<C: Content>(PhantomData<C>);

impl<C: Content> WritableType for OpenType<C> {
    type Type = C;

    /// Writes the value with the format's operation for open types, which
    /// is handed the value and `C::write_content` for what it holds: result
    /// and writer are those of `write_open_type`.
    fn write_value<W: Writer>(writer: &mut W, value: &C) -> (r: Result<(), W::Error>)
        ensures
            exists|s: &mut W|
                *s == *old(writer) && *final(s) == *final(writer) && #[trigger] call_ensures(
                    W::write_open_type::<C, _>,
                    (s, value, C::write_content::<W>),
                    r,
                ),
    {
        writer.write_open_type::<C, _>(value, C::write_content::<W>)
    }
}

impl<C: Content> KeyedReadableType for OpenType<C> {
    type Type = C;

    /// Reads the value with the format's operation for open types, which is
    /// handed the key and `C::read_content`: result and reader are those of
    /// `read_open_type`. A value that comes back is one that the content of
    /// the open type was read as, for that key: a key that matches no variant
    /// gives none.
    fn read_value_by_key<R: Reader>(reader: &mut R, key: usize) -> (r: Result<C, R::Error>)
        ensures
            !declares::<C>(key as int) ==> r is Err,
            r matches Ok(value) ==> value.index_of() == key,
            exists|s: &mut R|
                *s == *old(reader) && *final(s) == *final(reader) && #[trigger] call_ensures(
                    R::read_open_type::<C, _>,
                    (s, key, C::read_content::<R>),
                    r,
                ),
    {
        reader.read_open_type::<C, _>(key, C::read_content::<R>)
    }
}

} // verus!
