//! `INTEGER`, held in one of Rust's integer types.

use crate::schema::Tag;
use crate::syn::common;
use crate::syn::{ReadableType, Reader, WritableType, Writer};
use core::marker::PhantomData;
use vstd::prelude::*;

verus! {

/// An integer type that goes through `i64` on its way to and from a format.
pub trait Number: Copy {
    /// The number that the value stands for.
    spec fn value_of(self) -> int;

    /// Whether the type holds the number `value`.
    spec fn holds(value: int) -> bool;

    fn to_i64(self) -> (r: i64)
        ensures
            r == self.value_of(),
            Self::holds(r as int),
    ;

    /// The value of the type for `value`. A number that the type does not
    /// hold loses its upper bits.
    fn from_i64(value: i64) -> (r: Self)
        ensures
            Self::holds(value as int) ==> r.value_of() == value,
    ;
}

impl Number for i8 {
    open spec fn value_of(self) -> int {
        self as int
    }

    open spec fn holds(value: int) -> bool {
        i8::MIN <= value <= i8::MAX
    }

    fn to_i64(self) -> (r: i64) {
        self as i64
    }

    fn from_i64(value: i64) -> (r: Self) {
        #[verifier::truncate] (value as i8)
    }
}

impl Number for i16 {
    open spec fn value_of(self) -> int {
        self as int
    }

    open spec fn holds(value: int) -> bool {
        i16::MIN <= value <= i16::MAX
    }

    fn to_i64(self) -> (r: i64) {
        self as i64
    }

    fn from_i64(value: i64) -> (r: Self) {
        #[verifier::truncate] (value as i16)
    }
}

impl Number for i32 {
    open spec fn value_of(self) -> int {
        self as int
    }

    open spec fn holds(value: int) -> bool {
        i32::MIN <= value <= i32::MAX
    }

    fn to_i64(self) -> (r: i64) {
        self as i64
    }

    fn from_i64(value: i64) -> (r: Self) {
        #[verifier::truncate] (value as i32)
    }
}

impl Number for i64 {
    open spec fn value_of(self) -> int {
        self as int
    }

    open spec fn holds(value: int) -> bool {
        i64::MIN <= value <= i64::MAX
    }

    fn to_i64(self) -> (r: i64) {
        self
    }

    fn from_i64(value: i64) -> (r: Self) {
        value
    }
}

impl Number for u8 {
    open spec fn value_of(self) -> int {
        self as int
    }

    open spec fn holds(value: int) -> bool {
        0 <= value <= u8::MAX
    }

    fn to_i64(self) -> (r: i64) {
        self as i64
    }

    fn from_i64(value: i64) -> (r: Self) {
        #[verifier::truncate] (value as u8)
    }
}

impl Number for u16 {
    open spec fn value_of(self) -> int {
        self as int
    }

    open spec fn holds(value: int) -> bool {
        0 <= value <= u16::MAX
    }

    fn to_i64(self) -> (r: i64) {
        self as i64
    }

    fn from_i64(value: i64) -> (r: Self) {
        #[verifier::truncate] (value as u16)
    }
}

impl Number for u32 {
    open spec fn value_of(self) -> int {
        self as int
    }

    open spec fn holds(value: int) -> bool {
        0 <= value <= u32::MAX
    }

    fn to_i64(self) -> (r: i64) {
        self as i64
    }

    fn from_i64(value: i64) -> (r: Self) {
        #[verifier::truncate] (value as u32)
    }
}

/// The metadata of an integer: the first and the last of its values, and
/// whether a later version of the schema may widen the range.
pub trait Constraint<T: Number>: common::Constraint {
    const MIN: Option<i64> = None;

    const MAX: Option<i64> = None;

    const EXTENSIBLE: bool = false;
}

/// An integer of any value.
pub struct NoConstraint;

impl common::Constraint for NoConstraint {
    fn tag() -> (t: Tag)
        ensures
            t == Tag::Universal(2),
    {
        Tag::default_integer()
    }
}

impl<T: Number> Constraint<T> for NoConstraint {

}

/// The construct `INTEGER` held in `T`, with the metadata `C`.
pub struct Integer<T: Number, C: Constraint<T> = NoConstraint>(PhantomData<T>, PhantomData<C>);

impl<T: Number, C: Constraint<T>> WritableType for Integer<T, C> {
    type Type = T;

    /// Writes the number with the format's operation for integers: result
    /// and writer are those of `write_number`.
    fn write_value<W: Writer>(writer: &mut W, value: &T) -> (r: Result<(), W::Error>)
        ensures
            exists|s: &mut W|
                *s == *old(writer) && *final(s) == *final(writer) && #[trigger] call_ensures(
                    W::write_number::<T, C>,
                    (s, *value),
                    r,
                ),
    {
        writer.write_number::<T, C>(*value)
    }
}

impl<T: Number, C: Constraint<T>> ReadableType for Integer<T, C> {
    type Type = T;

    /// Reads the number with the format's operation for integers: result
    /// and reader are those of `read_number`.
    fn read_value<R: Reader>(reader: &mut R) -> (r: Result<T, R::Error>)
        ensures
            exists|s: &mut R|
                *s == *old(reader) && *final(s) == *final(reader) && #[trigger] call_ensures(
                    R::read_number::<T, C>,
                    (s,),
                    r,
                ),
    {
        reader.read_number::<T, C>()
    }
}

} // verus!
