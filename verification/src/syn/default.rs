//! `DEFAULT`: a value that, where absent, is a constant.

use crate::syn::common;
use crate::syn::{read_element, write_element, ReadableType, Reader, WritableType, Writer};
use core::marker::PhantomData;
use vstd::prelude::*;

verus! {

/// The metadata of a default: the constant.
pub trait Constraint: common::Constraint {
    type Owned;

    fn default_value() -> Self::Owned;
}

/// The construct `T DEFAULT` with the constant of `C`.
pub struct DefaultValue<T, C>(PhantomData<T>, PhantomData<C>);

impl<T: WritableType, C: Constraint<Owned = T::Type>> WritableType for DefaultValue<T, C> {
    type Type = T::Type;

    /// Writes the value with the format's operation for a value with a
    /// default, which is handed the value and `write_element` for it: result
    /// and writer are those of `write_default`.
    fn write_value<W: Writer>(writer: &mut W, value: &T::Type) -> (r: Result<(), W::Error>)
        ensures
            exists|s: &mut W|
                *s == *old(writer) && *final(s) == *final(writer) && #[trigger] call_ensures(
                    W::write_default::<C, T::Type, _>,
                    (s, value, write_element::<T, W>),
                    r,
                ),
    {
        writer.write_default::<C, T::Type, _>(value, write_element::<T, W>)
    }
}

impl<T: ReadableType, C: Constraint<Owned = T::Type>> ReadableType for DefaultValue<T, C> {
    type Type = T::Type;

    /// Reads the value with the format's operation for a value with a
    /// default, which is handed `read_element`: result and reader are those
    /// of `read_default`.
    fn read_value<R: Reader>(reader: &mut R) -> (r: Result<T::Type, R::Error>)
        ensures
            exists|s: &mut R|
                *s == *old(reader) && *final(s) == *final(reader) && #[trigger] call_ensures(
                    R::read_default::<C, T::Type, _>,
                    (s, read_element::<T, R>),
                    r,
                ),
    {
        reader.read_default::<C, T::Type, _>(read_element::<T, R>)
    }
}

} // verus!
