//! The protocol between generated types and wire formats.
//!
//! A format implements `Reader` and `Writer`, which have one pair of
//! operations for each construct. A generated type implements `Readable` and
//! `Writable` and, for its construct, the metadata that a format asks for.
//! Neither knows the other.
//!
//! Where a construct holds other values, the operation takes a procedure for
//! them, and the format calls it at the place where they stand.

pub mod bitstring;
pub mod boolean;
pub mod choice;
pub mod common;
pub mod complex;
pub mod default;
pub mod enumerated;
pub mod ia5string;
pub mod null;
pub mod numbers;
pub mod numericstring;
pub mod octetstring;
pub mod opentype;
pub mod optional;
pub mod printablestring;
pub mod sequence;
pub mod sequenceof;
pub mod set;
pub mod setof;
pub mod utf8string;
pub mod visiblestring;

pub use bitstring::{BitString, BitVec};
pub use boolean::Boolean;
pub use choice::Choice;
pub use complex::Complex;
pub use default::DefaultValue;
pub use enumerated::Enumerated;
pub use ia5string::Ia5String;
pub use null::{Null, NullT};
pub use numbers::Integer;
pub use numericstring::NumericString;
pub use octetstring::OctetString;
pub use opentype::OpenType;
pub use printablestring::PrintableString;
pub use sequence::Sequence;
pub use sequenceof::SequenceOf;
pub use set::SetT;
pub use setof::SetOf;
pub use utf8string::Utf8String;
pub use visiblestring::VisibleString;

use vstd::prelude::*;

verus! {

/// Whether `value` is a value that the procedure `f` reads, from some state
/// of the reader.
pub open spec fn read_by<R, T, E, F: Fn(&mut R) -> Result<T, E>>(f: F, value: T) -> bool {
    exists|reader: &mut R| #[trigger] call_ensures(f, (reader,), Ok::<T, E>(value))
}

/// Whether `value` is a value that the procedure `f` reads for the index
/// `key`, from some state of the reader.
pub open spec fn read_for<R, K, T, E, F: Fn(K, &mut R) -> Result<Option<T>, E>>(
    f: F,
    key: K,
    value: T,
) -> bool {
    exists|reader: &mut R| #[trigger] call_ensures(f, (key, reader), Ok::<Option<T>, E>(Some(value)))
}

/// Whether the procedure `f` writes what `value` holds, from some state of
/// the writer, without an error.
pub open spec fn written_by<W, T, E, F: Fn(&T, &mut W) -> Result<(), E>>(f: F, value: &T) -> bool {
    exists|writer: &mut W| #[trigger] call_ensures(f, (value, writer), Ok::<(), E>(()))
}

/// What a format reads with. It owns the position in the input.
///
/// A value that an operation hands out for a construct that holds other
/// values is one that the procedure for them gave.
pub trait Reader: Sized {
    type Error;

    fn read_sequence<C: sequence::Constraint, S: Sized, F: Fn(&mut Self) -> Result<S, Self::Error>>(
        &mut self,
        f: F,
    ) -> (r: Result<S, Self::Error>)
        requires
            forall|reader: &mut Self| call_requires(f, (reader,)),
        ensures
            r matches Ok(s) ==> read_by(f, s),
    ;

    fn read_sequence_of<
        C: sequenceof::Constraint,
        T: Sized,
        F: Fn(&mut Self) -> Result<T, Self::Error>,
    >(&mut self, f: F) -> (r: Result<Vec<T>, Self::Error>)
        requires
            forall|reader: &mut Self| call_requires(f, (reader,)),
        ensures
            r matches Ok(values) ==> forall|i: int|
                0 <= i < values@.len() ==> read_by(f, #[trigger] values@[i]),
    ;

    fn read_set<C: set::Constraint, S: Sized, F: Fn(&mut Self) -> Result<S, Self::Error>>(
        &mut self,
        f: F,
    ) -> (r: Result<S, Self::Error>)
        requires
            forall|reader: &mut Self| call_requires(f, (reader,)),
        ensures
            r matches Ok(s) ==> read_by(f, s),
    ;

    fn read_set_of<C: setof::Constraint, T: Sized, F: Fn(&mut Self) -> Result<T, Self::Error>>(
        &mut self,
        f: F,
    ) -> (r: Result<Vec<T>, Self::Error>)
        requires
            forall|reader: &mut Self| call_requires(f, (reader,)),
        ensures
            r matches Ok(values) ==> forall|i: int|
                0 <= i < values@.len() ==> read_by(f, #[trigger] values@[i]),
    ;

    fn read_enumerated<C: enumerated::Constraint>(&mut self) -> Result<C, Self::Error>;

    /// Reads the index of the variant, and with `f` what the variant holds.
    fn read_choice<
        C: choice::Constraint,
        F: Fn(u64, &mut Self) -> Result<Option<C>, Self::Error>,
    >(&mut self, f: F) -> (r: Result<C, Self::Error>)
        requires
            forall|reader: &mut Self, index: u64| call_requires(f, (index, reader)),
        ensures
            r matches Ok(c) ==> exists|index: u64| #[trigger] read_for(f, index, c),
    ;

    /// Reads with `f` what the variant of the index `key` holds. The index is
    /// not in the input: the caller has it from elsewhere.
    fn read_open_type<
        C: opentype::Constraint,
        F: Fn(usize, &mut Self) -> Result<Option<C>, Self::Error>,
    >(&mut self, key: usize, f: F) -> (r: Result<C, Self::Error>)
        requires
            forall|reader: &mut Self| call_requires(f, (key, reader)),
        ensures
            r matches Ok(c) ==> read_for(f, key, c),
    ;

    fn read_opt<T: Sized, F: Fn(&mut Self) -> Result<T, Self::Error>>(&mut self, f: F) -> (r:
        Result<Option<T>, Self::Error>)
        requires
            forall|reader: &mut Self| call_requires(f, (reader,)),
        ensures
            r matches Ok(Some(t)) ==> read_by(f, t),
    ;

    fn read_default<
        C: default::Constraint<Owned = T>,
        T: Sized,
        F: Fn(&mut Self) -> Result<T, Self::Error>,
    >(&mut self, f: F) -> (r: Result<T, Self::Error>)
        requires
            forall|reader: &mut Self| call_requires(f, (reader,)),
        ensures
            r matches Ok(t) ==> read_by(f, t) || call_ensures(C::default_value, (), t),
    ;

    fn read_number<T: numbers::Number, C: numbers::Constraint<T>>(&mut self) -> Result<
        T,
        Self::Error,
    >;

    fn read_utf8string<C: utf8string::Constraint>(&mut self) -> Result<String, Self::Error>;

    fn read_ia5string<C: ia5string::Constraint>(&mut self) -> Result<String, Self::Error>;

    fn read_numeric_string<C: numericstring::Constraint>(&mut self) -> Result<String, Self::Error>;

    fn read_visible_string<C: visiblestring::Constraint>(&mut self) -> Result<String, Self::Error>;

    fn read_printable_string<C: printablestring::Constraint>(&mut self) -> Result<
        String,
        Self::Error,
    >;

    fn read_octet_string<C: octetstring::Constraint>(&mut self) -> Result<Vec<u8>, Self::Error>;

    /// The bytes that hold the bits, and the number of bits.
    fn read_bit_string<C: bitstring::Constraint>(&mut self) -> Result<(Vec<u8>, u64), Self::Error>;

    fn read_boolean<C: boolean::Constraint>(&mut self) -> Result<bool, Self::Error>;

    fn read_null<C: null::Constraint>(&mut self) -> Result<Null, Self::Error>;
}

/// What a format writes with. It owns what has been written so far.
///
/// A construct that always holds other values is written only if the
/// procedure for them succeeded.
pub trait Writer: Sized {
    type Error;

    /// Writes a sequence. The format calls `f` on `value` where the fields
    /// belong.
    fn write_sequence<C: sequence::Constraint, F: Fn(&C, &mut Self) -> Result<(), Self::Error>>(
        &mut self,
        value: &C,
        f: F,
    ) -> (r: Result<(), Self::Error>)
        requires
            forall|writer: &mut Self| call_requires(f, (value, writer)),
        ensures
            r is Ok ==> written_by(f, value),
    ;

    fn write_sequence_of<
        C: sequenceof::Constraint,
        T,
        F: Fn(&mut Self, &T) -> Result<(), Self::Error>,
    >(&mut self, slice: &[T], f: F) -> (r: Result<(), Self::Error>)
        requires
            forall|writer: &mut Self, value: &T| call_requires(f, (writer, value)),
    ;

    /// Writes a set. The format calls `f` on `value` where the fields belong.
    fn write_set<C: set::Constraint, F: Fn(&C, &mut Self) -> Result<(), Self::Error>>(
        &mut self,
        value: &C,
        f: F,
    ) -> (r: Result<(), Self::Error>)
        requires
            forall|writer: &mut Self| call_requires(f, (value, writer)),
        ensures
            r is Ok ==> written_by(f, value),
    ;

    fn write_set_of<C: setof::Constraint, T, F: Fn(&mut Self, &T) -> Result<(), Self::Error>>(
        &mut self,
        slice: &[T],
        f: F,
    ) -> (r: Result<(), Self::Error>)
        requires
            forall|writer: &mut Self, value: &T| call_requires(f, (writer, value)),
    ;

    fn write_enumerated<C: enumerated::Constraint>(&mut self, enumerated: &C) -> Result<
        (),
        Self::Error,
    >;

    /// Writes the index of the variant of `choice`, and with `f` what the
    /// variant holds.
    fn write_choice<C: choice::Constraint, F: Fn(&C, &mut Self) -> Result<(), Self::Error>>(
        &mut self,
        choice: &C,
        f: F,
    ) -> (r: Result<(), Self::Error>)
        requires
            forall|writer: &mut Self| call_requires(f, (choice, writer)),
        ensures
            r is Ok ==> written_by(f, choice),
    ;

    /// Writes with `f` what the variant of `opentype` holds.
    fn write_open_type<C: opentype::Constraint, F: Fn(&C, &mut Self) -> Result<(), Self::Error>>(
        &mut self,
        opentype: &C,
        f: F,
    ) -> (r: Result<(), Self::Error>)
        requires
            forall|writer: &mut Self| call_requires(f, (opentype, writer)),
        ensures
            r is Ok ==> written_by(f, opentype),
    ;

    fn write_opt<T, F: Fn(&mut Self, &T) -> Result<(), Self::Error>>(
        &mut self,
        value: Option<&T>,
        f: F,
    ) -> (r: Result<(), Self::Error>)
        requires
            forall|writer: &mut Self, value: &T| call_requires(f, (writer, value)),
    ;

    fn write_default<
        C: default::Constraint<Owned = T>,
        T,
        F: Fn(&mut Self, &T) -> Result<(), Self::Error>,
    >(&mut self, value: &T, f: F) -> (r: Result<(), Self::Error>)
        requires
            forall|writer: &mut Self, value: &T| call_requires(f, (writer, value)),
    ;

    fn write_number<T: numbers::Number, C: numbers::Constraint<T>>(&mut self, value: T) -> Result<
        (),
        Self::Error,
    >;

    fn write_utf8string<C: utf8string::Constraint>(&mut self, value: &str) -> Result<
        (),
        Self::Error,
    >;

    fn write_ia5string<C: ia5string::Constraint>(&mut self, value: &str) -> Result<(), Self::Error>;

    fn write_numeric_string<C: numericstring::Constraint>(&mut self, value: &str) -> Result<
        (),
        Self::Error,
    >;

    fn write_visible_string<C: visiblestring::Constraint>(&mut self, value: &str) -> Result<
        (),
        Self::Error,
    >;

    fn write_printable_string<C: printablestring::Constraint>(&mut self, value: &str) -> Result<
        (),
        Self::Error,
    >;

    fn write_octet_string<C: octetstring::Constraint>(&mut self, value: &[u8]) -> Result<
        (),
        Self::Error,
    >;

    /// Writes the first `bit_len` bits of `value`.
    fn write_bit_string<C: bitstring::Constraint>(&mut self, value: &[u8], bit_len: u64) -> Result<
        (),
        Self::Error,
    >;

    fn write_boolean<C: boolean::Constraint>(&mut self, value: bool) -> Result<(), Self::Error>;

    fn write_null<C: null::Constraint>(&mut self, value: &Null) -> Result<(), Self::Error>;
}

/// A value that can be read with any format.
pub trait Readable: Sized {
    fn read<R: Reader>(reader: &mut R) -> Result<Self, R::Error>;
}

/// A value that can be read with any format once the caller has the index of
/// its variant: what stands inside an open type.
pub trait KeyedReadable: Sized {
    fn read_by_key<R: Reader>(reader: &mut R, key: usize) -> Result<Self, R::Error>;
}

/// A value that can be written with any format.
pub trait Writable {
    fn write<W: Writer>(&self, writer: &mut W) -> Result<(), W::Error>;
}

/// A construct whose values can be read with any format.
pub trait ReadableType {
    type Type: Sized;

    fn read_value<R: Reader>(reader: &mut R) -> Result<Self::Type, R::Error>;
}

/// A construct whose values can be read with any format once the caller has
/// the index of the variant.
pub trait KeyedReadableType {
    type Type: Sized;

    fn read_value_by_key<R: Reader>(reader: &mut R, key: usize) -> Result<Self::Type, R::Error>;
}

/// A construct whose values can be written with any format.
pub trait WritableType {
    type Type;

    fn write_value<W: Writer>(writer: &mut W, value: &Self::Type) -> Result<(), W::Error>;
}

impl<T: Readable> ReadableType for T {
    type Type = T;

    /// Reads the value as the type reads itself: result and reader are those
    /// of `T::read`.
    fn read_value<R: Reader>(reader: &mut R) -> (r: Result<T, R::Error>)
        ensures
            exists|s: &mut R|
                *s == *old(reader) && *final(s) == *final(reader) && #[trigger] call_ensures(
                    T::read::<R>,
                    (s,),
                    r,
                ),
    {
        T::read(reader)
    }
}

/// Reads one value of the construct `T`, as `T::read_value` does. This is
/// the procedure that a construct of other values hands to the format.
pub fn read_element<T: ReadableType, R: Reader>(reader: &mut R) -> Result<T::Type, R::Error> {
    T::read_value(reader)
}

/// Writes one value of the construct `T`, as `T::write_value` does. This is
/// the procedure that a construct of other values hands to the format.
pub fn write_element<T: WritableType, W: Writer>(writer: &mut W, value: &T::Type) -> Result<
    (),
    W::Error,
> {
    T::write_value(writer, value)
}

/// Reading a value with a method of the reader.
pub trait ReadValue: Reader {
    /// Reads a value: result and reader are those of `T::read`.
    fn read<T: Readable>(&mut self) -> (r: Result<T, Self::Error>)
        ensures
            exists|s: &mut Self|
                *s == *old(self) && *final(s) == *final(self) && #[trigger] call_ensures(
                    T::read::<Self>,
                    (s,),
                    r,
                ),
    {
        T::read(self)
    }
}

impl<R: Reader> ReadValue for R {

}

/// Writing a value with a method of the writer.
pub trait WriteValue: Writer {
    /// Writes a value: result and writer are those of `T::write`.
    fn write<T: Writable>(&mut self, value: &T) -> (r: Result<(), Self::Error>)
        ensures
            exists|s: &mut Self|
                *s == *old(self) && *final(s) == *final(self) && #[trigger] call_ensures(
                    T::write::<Self>,
                    (value, s),
                    r,
                ),
    {
        value.write(self)
    }
}

impl<W: Writer> WriteValue for W {

}

} // verus!
