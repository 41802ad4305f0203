//! `BIT STRING`.

use crate::schema::Tag;
use crate::syn::common;
use crate::syn::{ReadableType, Reader, WritableType, Writer};
use core::marker::PhantomData;
use vstd::prelude::*;

verus! {

/// The metadata of a bit string: the bounds of its length in bits, and
/// whether a later version of the schema may widen them.
pub trait Constraint: common::Constraint {
    const MIN: Option<u64> = None;

    const MAX: Option<u64> = None;

    const EXTENSIBLE: bool = false;
}

/// A bit string of any length.
pub struct NoConstraint;

impl common::Constraint for NoConstraint {
    fn tag() -> (t: Tag)
        ensures
            t == Tag::Universal(3),
    {
        Tag::default_bit_string()
    }
}

impl Constraint for NoConstraint {

}

/// Bits: the bytes that hold them, the first bit in the highest place of the
/// first byte, and their number.
#[derive(Debug, PartialEq)]
pub struct BitVec {
    pub bytes: Vec<u8>,
    pub bit_len: u64,
}

/// What was read as bytes and a number of bits, as one value.
pub open spec fn bits_of<E>(read: Result<(Vec<u8>, u64), E>) -> Result<BitVec, E> {
    match read {
        Ok((bytes, bit_len)) => Ok(BitVec { bytes, bit_len }),
        Err(e) => Err(e),
    }
}

/// The construct `BIT STRING` with the metadata `C`.
pub struct BitString<C: Constraint = NoConstraint>(PhantomData<C>);

impl<C: Constraint> WritableType for BitString<C> {
    type Type = BitVec;

    /// Writes the bytes and the number of bits with the format's operation
    /// for bit strings: result and writer are those of `write_bit_string`.
    fn write_value<W: Writer>(writer: &mut W, value: &BitVec) -> (r: Result<(), W::Error>)
        ensures
            exists|s: &mut W, bytes: &[u8]|
                *s == *old(writer) && *final(s) == *final(writer) && bytes@ == value.bytes@
                    && #[trigger] call_ensures(
                    W::write_bit_string::<C>,
                    (s, bytes, value.bit_len),
                    r,
                ),
    {
        writer.write_bit_string::<C>(value.bytes.as_slice(), value.bit_len)
    }
}

impl<C: Constraint> ReadableType for BitString<C> {
    type Type = BitVec;

    /// Reads with the format's operation for bit strings: the reader is that
    /// of `read_bit_string`, and the result is its result, the bytes and the
    /// number of bits put into one value.
    fn read_value<R: Reader>(reader: &mut R) -> (r: Result<BitVec, R::Error>)
        ensures
            exists|s: &mut R, read: Result<(Vec<u8>, u64), R::Error>|
                *s == *old(reader) && *final(s) == *final(reader) && r == bits_of(read)
                    && #[trigger] call_ensures(R::read_bit_string::<C>, (s,), read),
    {
        match reader.read_bit_string::<C>() {
            Ok((bytes, bit_len)) => Ok(BitVec { bytes, bit_len }),
            Err(e) => Err(e),
        }
    }
}

} // verus!
