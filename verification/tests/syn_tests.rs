use asn1rs::schema::Tag;
use asn1rs::syn::numbers::Number;
use asn1rs::syn::opentype::{present, read_by_key, Error as OpenTypeError, Presence};
use asn1rs::syn::{bitstring, boolean, choice, common, complex, enumerated, ia5string};
use asn1rs::syn::{null, numbers, numericstring, octetstring, opentype, printablestring, sequence};
use asn1rs::syn::{sequenceof, setof, utf8string, visiblestring};
use asn1rs::syn::{BitString, BitVec, Boolean, Choice, Complex, DefaultValue, Enumerated, Integer};
use asn1rs::syn::{KeyedReadable, KeyedReadableType, Null, NullT, OctetString, OpenType};
use asn1rs::syn::{ReadValue, Readable, ReadableType, Reader, Sequence, SequenceOf, Utf8String};
use asn1rs::syn::{Writable, WritableType, WriteValue, Writer};

// A format that packs values one behind the other: a length before what
// varies in length, one byte for what is present or absent.

#[derive(Default)]
struct PackedWriter {
    bytes: Vec<u8>,
}

struct PackedReader {
    bytes: Vec<u8>,
    at: usize,
}

impl PackedWriter {
    fn as_reader(&self) -> PackedReader {
        PackedReader { bytes: self.bytes.clone(), at: 0 }
    }

    fn length(&mut self, n: usize) {
        self.bytes.extend_from_slice(&(n as u32).to_be_bytes());
    }
}

impl PackedReader {
    fn take(&mut self, n: usize) -> Result<Vec<u8>, String> {
        if self.at + n > self.bytes.len() {
            return Err("premature end".to_string());
        }
        let out = self.bytes[self.at..self.at + n].to_vec();
        self.at += n;
        Ok(out)
    }

    fn length(&mut self) -> Result<usize, String> {
        let b = self.take(4)?;
        Ok(u32::from_be_bytes([b[0], b[1], b[2], b[3]]) as usize)
    }

    fn string(&mut self) -> Result<String, String> {
        let n = self.length()?;
        String::from_utf8(self.take(n)?).map_err(|_| "no utf8".to_string())
    }
}

impl Writer for PackedWriter {
    type Error = String;

    fn write_sequence<C: sequence::Constraint, F: Fn(&C, &mut Self) -> Result<(), Self::Error>>(
        &mut self,
        value: &C,
        f: F,
    ) -> Result<(), Self::Error> {
        f(value, self)
    }

    fn write_sequence_of<C: sequenceof::Constraint, T, F: Fn(&mut Self, &T) -> Result<(), Self::Error>>(
        &mut self,
        slice: &[T],
        f: F,
    ) -> Result<(), Self::Error> {
        self.length(slice.len());
        for value in slice {
            f(self, value)?;
        }
        Ok(())
    }

    fn write_set<C: asn1rs::syn::set::Constraint, F: Fn(&C, &mut Self) -> Result<(), Self::Error>>(
        &mut self,
        value: &C,
        f: F,
    ) -> Result<(), Self::Error> {
        f(value, self)
    }

    fn write_set_of<C: setof::Constraint, T, F: Fn(&mut Self, &T) -> Result<(), Self::Error>>(
        &mut self,
        slice: &[T],
        f: F,
    ) -> Result<(), Self::Error> {
        self.write_sequence_of::<sequenceof::NoConstraint, T, F>(slice, f)
    }

    fn write_enumerated<C: enumerated::Constraint>(&mut self, enumerated: &C) -> Result<(), Self::Error> {
        self.bytes.push(enumerated.to_choice_index() as u8);
        Ok(())
    }

    fn write_choice<C: choice::Constraint, F: Fn(&C, &mut Self) -> Result<(), Self::Error>>(
        &mut self,
        choice: &C,
        f: F,
    ) -> Result<(), Self::Error> {
        self.bytes.push(choice.to_choice_index() as u8);
        f(choice, self)
    }

    fn write_open_type<C: opentype::Constraint, F: Fn(&C, &mut Self) -> Result<(), Self::Error>>(
        &mut self,
        opentype: &C,
        f: F,
    ) -> Result<(), Self::Error> {
        f(opentype, self)
    }

    fn write_opt<T, F: Fn(&mut Self, &T) -> Result<(), Self::Error>>(
        &mut self,
        value: Option<&T>,
        f: F,
    ) -> Result<(), Self::Error> {
        match value {
            Some(value) => {
                self.bytes.push(1);
                f(self, value)
            }
            None => {
                self.bytes.push(0);
                Ok(())
            }
        }
    }

    fn write_default<C: asn1rs::syn::default::Constraint<Owned = T>, T, F: Fn(&mut Self, &T) -> Result<(), Self::Error>>(
        &mut self,
        value: &T,
        f: F,
    ) -> Result<(), Self::Error> {
        f(self, value)
    }

    fn write_number<T: numbers::Number, C: numbers::Constraint<T>>(&mut self, value: T) -> Result<(), Self::Error> {
        self.bytes.extend_from_slice(&value.to_i64().to_be_bytes());
        Ok(())
    }

    fn write_utf8string<C: utf8string::Constraint>(&mut self, value: &str) -> Result<(), Self::Error> {
        self.length(value.len());
        self.bytes.extend_from_slice(value.as_bytes());
        Ok(())
    }

    fn write_ia5string<C: ia5string::Constraint>(&mut self, value: &str) -> Result<(), Self::Error> {
        self.write_utf8string::<utf8string::NoConstraint>(value)
    }

    fn write_numeric_string<C: numericstring::Constraint>(&mut self, value: &str) -> Result<(), Self::Error> {
        self.write_utf8string::<utf8string::NoConstraint>(value)
    }

    fn write_visible_string<C: visiblestring::Constraint>(&mut self, value: &str) -> Result<(), Self::Error> {
        self.write_utf8string::<utf8string::NoConstraint>(value)
    }

    fn write_printable_string<C: printablestring::Constraint>(&mut self, value: &str) -> Result<(), Self::Error> {
        self.write_utf8string::<utf8string::NoConstraint>(value)
    }

    fn write_octet_string<C: octetstring::Constraint>(&mut self, value: &[u8]) -> Result<(), Self::Error> {
        self.length(value.len());
        self.bytes.extend_from_slice(value);
        Ok(())
    }

    fn write_bit_string<C: bitstring::Constraint>(&mut self, value: &[u8], bit_len: u64) -> Result<(), Self::Error> {
        self.bytes.extend_from_slice(&bit_len.to_be_bytes());
        self.write_octet_string::<octetstring::NoConstraint>(value)
    }

    fn write_boolean<C: boolean::Constraint>(&mut self, value: bool) -> Result<(), Self::Error> {
        self.bytes.push(if value { 1 } else { 0 });
        Ok(())
    }

    fn write_null<C: null::Constraint>(&mut self, _value: &Null) -> Result<(), Self::Error> {
        Ok(())
    }
}

impl Reader for PackedReader {
    type Error = String;

    fn read_sequence<C: sequence::Constraint, S: Sized, F: Fn(&mut Self) -> Result<S, Self::Error>>(
        &mut self,
        f: F,
    ) -> Result<S, Self::Error> {
        f(self)
    }

    fn read_sequence_of<C: sequenceof::Constraint, T: Sized, F: Fn(&mut Self) -> Result<T, Self::Error>>(
        &mut self,
        f: F,
    ) -> Result<Vec<T>, Self::Error> {
        let n = self.length()?;
        let mut out = Vec::new();
        for _ in 0..n {
            out.push(f(self)?);
        }
        Ok(out)
    }

    fn read_set<C: asn1rs::syn::set::Constraint, S: Sized, F: Fn(&mut Self) -> Result<S, Self::Error>>(
        &mut self,
        f: F,
    ) -> Result<S, Self::Error> {
        f(self)
    }

    fn read_set_of<C: setof::Constraint, T: Sized, F: Fn(&mut Self) -> Result<T, Self::Error>>(
        &mut self,
        f: F,
    ) -> Result<Vec<T>, Self::Error> {
        self.read_sequence_of::<sequenceof::NoConstraint, T, F>(f)
    }

    fn read_enumerated<C: enumerated::Constraint>(&mut self) -> Result<C, Self::Error> {
        let index = self.take(1)?[0] as u64;
        C::from_choice_index(index).ok_or_else(|| "no such variant".to_string())
    }

    fn read_choice<C: choice::Constraint, F: Fn(u64, &mut Self) -> Result<Option<C>, Self::Error>>(
        &mut self,
        f: F,
    ) -> Result<C, Self::Error> {
        let index = self.take(1)?[0] as u64;
        f(index, self)?.ok_or_else(|| "no such variant".to_string())
    }

    fn read_open_type<C: opentype::Constraint, F: Fn(usize, &mut Self) -> Result<Option<C>, Self::Error>>(
        &mut self,
        key: usize,
        f: F,
    ) -> Result<C, Self::Error> {
        f(key, self)?.ok_or_else(|| format!("no variant {}", key))
    }

    fn read_opt<T: Sized, F: Fn(&mut Self) -> Result<T, Self::Error>>(
        &mut self,
        f: F,
    ) -> Result<Option<T>, Self::Error> {
        if self.take(1)?[0] == 1 {
            Ok(Some(f(self)?))
        } else {
            Ok(None)
        }
    }

    fn read_default<C: asn1rs::syn::default::Constraint<Owned = T>, T: Sized, F: Fn(&mut Self) -> Result<T, Self::Error>>(
        &mut self,
        f: F,
    ) -> Result<T, Self::Error> {
        f(self)
    }

    fn read_number<T: numbers::Number, C: numbers::Constraint<T>>(&mut self) -> Result<T, Self::Error> {
        let b = self.take(8)?;
        Ok(T::from_i64(i64::from_be_bytes([b[0], b[1], b[2], b[3], b[4], b[5], b[6], b[7]])))
    }

    fn read_utf8string<C: utf8string::Constraint>(&mut self) -> Result<String, Self::Error> {
        self.string()
    }

    fn read_ia5string<C: ia5string::Constraint>(&mut self) -> Result<String, Self::Error> {
        self.string()
    }

    fn read_numeric_string<C: numericstring::Constraint>(&mut self) -> Result<String, Self::Error> {
        self.string()
    }

    fn read_visible_string<C: visiblestring::Constraint>(&mut self) -> Result<String, Self::Error> {
        self.string()
    }

    fn read_printable_string<C: printablestring::Constraint>(&mut self) -> Result<String, Self::Error> {
        self.string()
    }

    fn read_octet_string<C: octetstring::Constraint>(&mut self) -> Result<Vec<u8>, Self::Error> {
        let n = self.length()?;
        self.take(n)
    }

    fn read_bit_string<C: bitstring::Constraint>(&mut self) -> Result<(Vec<u8>, u64), Self::Error> {
        let b = self.take(8)?;
        let bit_len = u64::from_be_bytes([b[0], b[1], b[2], b[3], b[4], b[5], b[6], b[7]]);
        Ok((self.read_octet_string::<octetstring::NoConstraint>()?, bit_len))
    }

    fn read_boolean<C: boolean::Constraint>(&mut self) -> Result<bool, Self::Error> {
        Ok(self.take(1)?[0] != 0)
    }

    fn read_null<C: null::Constraint>(&mut self) -> Result<Null, Self::Error> {
        Ok(Null)
    }
}

// A format of tags and lengths: each value is the number of its tag, the
// length of its content, and the content. An absent value is an empty NULL.

#[derive(Default)]
struct TaggedWriter {
    bytes: Vec<u8>,
}

struct TaggedReader {
    bytes: Vec<u8>,
    at: usize,
}

impl TaggedWriter {
    fn as_reader(&self) -> TaggedReader {
        TaggedReader { bytes: self.bytes.clone(), at: 0 }
    }

    fn value(&mut self, tag: Tag, content: &[u8]) {
        self.bytes.push(tag.number() as u8);
        self.bytes.extend_from_slice(&(content.len() as u32).to_be_bytes());
        self.bytes.extend_from_slice(content);
    }

    fn nested<F: Fn(&mut Self) -> Result<(), String>>(&mut self, tag: Tag, f: F) -> Result<(), String> {
        let mut inner = TaggedWriter::default();
        f(&mut inner)?;
        self.value(tag, &inner.bytes);
        Ok(())
    }
}

impl TaggedReader {
    fn value(&mut self, tag: Tag) -> Result<Vec<u8>, String> {
        if self.at + 5 > self.bytes.len() {
            return Err("premature end".to_string());
        }
        if self.bytes[self.at] != tag.number() as u8 {
            return Err(format!("tag {} where {} was expected", self.bytes[self.at], tag.number()));
        }
        let b = &self.bytes[self.at + 1..self.at + 5];
        let n = u32::from_be_bytes([b[0], b[1], b[2], b[3]]) as usize;
        if self.at + 5 + n > self.bytes.len() {
            return Err("premature end".to_string());
        }
        let out = self.bytes[self.at + 5..self.at + 5 + n].to_vec();
        self.at += 5 + n;
        Ok(out)
    }

    fn nested<S, F: Fn(&mut Self) -> Result<S, String>>(&mut self, tag: Tag, f: F) -> Result<S, String> {
        let mut inner = TaggedReader { bytes: self.value(tag)?, at: 0 };
        let out = f(&mut inner)?;
        if inner.at != inner.bytes.len() {
            return Err("content left over".to_string());
        }
        Ok(out)
    }

    fn string(&mut self, tag: Tag) -> Result<String, String> {
        String::from_utf8(self.value(tag)?).map_err(|_| "no utf8".to_string())
    }
}

const PRESENT: Tag = Tag::ContextSpecific(160);
const ABSENT: Tag = Tag::Universal(5);

impl Writer for TaggedWriter {
    type Error = String;

    fn write_sequence<C: sequence::Constraint, F: Fn(&C, &mut Self) -> Result<(), Self::Error>>(
        &mut self,
        value: &C,
        f: F,
    ) -> Result<(), Self::Error> {
        self.nested(C::tag(), |w| f(value, w))
    }

    fn write_sequence_of<C: sequenceof::Constraint, T, F: Fn(&mut Self, &T) -> Result<(), Self::Error>>(
        &mut self,
        slice: &[T],
        f: F,
    ) -> Result<(), Self::Error> {
        self.nested(C::tag(), |w| {
            for value in slice {
                f(w, value)?;
            }
            Ok(())
        })
    }

    fn write_set<C: asn1rs::syn::set::Constraint, F: Fn(&C, &mut Self) -> Result<(), Self::Error>>(
        &mut self,
        value: &C,
        f: F,
    ) -> Result<(), Self::Error> {
        self.nested(C::tag(), |w| f(value, w))
    }

    fn write_set_of<C: setof::Constraint, T, F: Fn(&mut Self, &T) -> Result<(), Self::Error>>(
        &mut self,
        slice: &[T],
        f: F,
    ) -> Result<(), Self::Error> {
        self.nested(C::tag(), |w| {
            for value in slice {
                f(w, value)?;
            }
            Ok(())
        })
    }

    fn write_enumerated<C: enumerated::Constraint>(&mut self, enumerated: &C) -> Result<(), Self::Error> {
        self.value(C::tag(), &[enumerated.to_choice_index() as u8]);
        Ok(())
    }

    fn write_choice<C: choice::Constraint, F: Fn(&C, &mut Self) -> Result<(), Self::Error>>(
        &mut self,
        choice: &C,
        f: F,
    ) -> Result<(), Self::Error> {
        self.nested(Tag::ContextSpecific(choice.to_choice_index() as usize), |w| f(choice, w))
    }

    fn write_open_type<C: opentype::Constraint, F: Fn(&C, &mut Self) -> Result<(), Self::Error>>(
        &mut self,
        opentype: &C,
        f: F,
    ) -> Result<(), Self::Error> {
        self.nested(C::tag(), |w| f(opentype, w))
    }

    fn write_opt<T, F: Fn(&mut Self, &T) -> Result<(), Self::Error>>(
        &mut self,
        value: Option<&T>,
        f: F,
    ) -> Result<(), Self::Error> {
        match value {
            Some(value) => self.nested(PRESENT, |w| f(w, value)),
            None => {
                self.value(ABSENT, &[]);
                Ok(())
            }
        }
    }

    fn write_default<C: asn1rs::syn::default::Constraint<Owned = T>, T, F: Fn(&mut Self, &T) -> Result<(), Self::Error>>(
        &mut self,
        value: &T,
        f: F,
    ) -> Result<(), Self::Error> {
        f(self, value)
    }

    fn write_number<T: numbers::Number, C: numbers::Constraint<T>>(&mut self, value: T) -> Result<(), Self::Error> {
        self.value(C::tag(), &value.to_i64().to_be_bytes());
        Ok(())
    }

    fn write_utf8string<C: utf8string::Constraint>(&mut self, value: &str) -> Result<(), Self::Error> {
        self.value(C::tag(), value.as_bytes());
        Ok(())
    }

    fn write_ia5string<C: ia5string::Constraint>(&mut self, value: &str) -> Result<(), Self::Error> {
        self.value(C::tag(), value.as_bytes());
        Ok(())
    }

    fn write_numeric_string<C: numericstring::Constraint>(&mut self, value: &str) -> Result<(), Self::Error> {
        self.value(C::tag(), value.as_bytes());
        Ok(())
    }

    fn write_visible_string<C: visiblestring::Constraint>(&mut self, value: &str) -> Result<(), Self::Error> {
        self.value(C::tag(), value.as_bytes());
        Ok(())
    }

    fn write_printable_string<C: printablestring::Constraint>(&mut self, value: &str) -> Result<(), Self::Error> {
        self.value(C::tag(), value.as_bytes());
        Ok(())
    }

    fn write_octet_string<C: octetstring::Constraint>(&mut self, value: &[u8]) -> Result<(), Self::Error> {
        self.value(C::tag(), value);
        Ok(())
    }

    fn write_bit_string<C: bitstring::Constraint>(&mut self, value: &[u8], bit_len: u64) -> Result<(), Self::Error> {
        let mut content = bit_len.to_be_bytes().to_vec();
        content.extend_from_slice(value);
        self.value(C::tag(), &content);
        Ok(())
    }

    fn write_boolean<C: boolean::Constraint>(&mut self, value: bool) -> Result<(), Self::Error> {
        self.value(C::tag(), &[if value { 255 } else { 0 }]);
        Ok(())
    }

    fn write_null<C: null::Constraint>(&mut self, _value: &Null) -> Result<(), Self::Error> {
        self.value(C::tag(), &[]);
        Ok(())
    }
}

impl Reader for TaggedReader {
    type Error = String;

    fn read_sequence<C: sequence::Constraint, S: Sized, F: Fn(&mut Self) -> Result<S, Self::Error>>(
        &mut self,
        f: F,
    ) -> Result<S, Self::Error> {
        self.nested(C::tag(), f)
    }

    fn read_sequence_of<C: sequenceof::Constraint, T: Sized, F: Fn(&mut Self) -> Result<T, Self::Error>>(
        &mut self,
        f: F,
    ) -> Result<Vec<T>, Self::Error> {
        self.nested(C::tag(), |r| {
            let mut out = Vec::new();
            while r.at < r.bytes.len() {
                out.push(f(r)?);
            }
            Ok(out)
        })
    }

    fn read_set<C: asn1rs::syn::set::Constraint, S: Sized, F: Fn(&mut Self) -> Result<S, Self::Error>>(
        &mut self,
        f: F,
    ) -> Result<S, Self::Error> {
        self.nested(C::tag(), f)
    }

    fn read_set_of<C: setof::Constraint, T: Sized, F: Fn(&mut Self) -> Result<T, Self::Error>>(
        &mut self,
        f: F,
    ) -> Result<Vec<T>, Self::Error> {
        self.nested(C::tag(), |r| {
            let mut out = Vec::new();
            while r.at < r.bytes.len() {
                out.push(f(r)?);
            }
            Ok(out)
        })
    }

    fn read_enumerated<C: enumerated::Constraint>(&mut self) -> Result<C, Self::Error> {
        let content = self.value(C::tag())?;
        if content.len() != 1 {
            return Err("one byte expected".to_string());
        }
        C::from_choice_index(content[0] as u64).ok_or_else(|| "no such variant".to_string())
    }

    fn read_choice<C: choice::Constraint, F: Fn(u64, &mut Self) -> Result<Option<C>, Self::Error>>(
        &mut self,
        f: F,
    ) -> Result<C, Self::Error> {
        if self.at >= self.bytes.len() {
            return Err("premature end".to_string());
        }
        let index = self.bytes[self.at] as u64;
        self.nested(Tag::ContextSpecific(index as usize), |r| f(index, r))?
            .ok_or_else(|| "no such variant".to_string())
    }

    fn read_open_type<C: opentype::Constraint, F: Fn(usize, &mut Self) -> Result<Option<C>, Self::Error>>(
        &mut self,
        key: usize,
        f: F,
    ) -> Result<C, Self::Error> {
        self.nested(C::tag(), |r| f(key, r))?.ok_or_else(|| format!("no variant {}", key))
    }

    fn read_opt<T: Sized, F: Fn(&mut Self) -> Result<T, Self::Error>>(
        &mut self,
        f: F,
    ) -> Result<Option<T>, Self::Error> {
        if self.at < self.bytes.len() && self.bytes[self.at] == ABSENT.number() as u8 {
            self.value(ABSENT)?;
            Ok(None)
        } else {
            Ok(Some(self.nested(PRESENT, f)?))
        }
    }

    fn read_default<C: asn1rs::syn::default::Constraint<Owned = T>, T: Sized, F: Fn(&mut Self) -> Result<T, Self::Error>>(
        &mut self,
        f: F,
    ) -> Result<T, Self::Error> {
        f(self)
    }

    fn read_number<T: numbers::Number, C: numbers::Constraint<T>>(&mut self) -> Result<T, Self::Error> {
        let b = self.value(C::tag())?;
        if b.len() != 8 {
            return Err("eight bytes expected".to_string());
        }
        Ok(T::from_i64(i64::from_be_bytes([b[0], b[1], b[2], b[3], b[4], b[5], b[6], b[7]])))
    }

    fn read_utf8string<C: utf8string::Constraint>(&mut self) -> Result<String, Self::Error> {
        self.string(C::tag())
    }

    fn read_ia5string<C: ia5string::Constraint>(&mut self) -> Result<String, Self::Error> {
        self.string(C::tag())
    }

    fn read_numeric_string<C: numericstring::Constraint>(&mut self) -> Result<String, Self::Error> {
        self.string(C::tag())
    }

    fn read_visible_string<C: visiblestring::Constraint>(&mut self) -> Result<String, Self::Error> {
        self.string(C::tag())
    }

    fn read_printable_string<C: printablestring::Constraint>(&mut self) -> Result<String, Self::Error> {
        self.string(C::tag())
    }

    fn read_octet_string<C: octetstring::Constraint>(&mut self) -> Result<Vec<u8>, Self::Error> {
        self.value(C::tag())
    }

    fn read_bit_string<C: bitstring::Constraint>(&mut self) -> Result<(Vec<u8>, u64), Self::Error> {
        let b = self.value(C::tag())?;
        if b.len() < 8 {
            return Err("eight bytes expected".to_string());
        }
        let bit_len = u64::from_be_bytes([b[0], b[1], b[2], b[3], b[4], b[5], b[6], b[7]]);
        Ok((b[8..].to_vec(), bit_len))
    }

    fn read_boolean<C: boolean::Constraint>(&mut self) -> Result<bool, Self::Error> {
        let b = self.value(C::tag())?;
        if b.len() != 1 {
            return Err("one byte expected".to_string());
        }
        Ok(b[0] != 0)
    }

    fn read_null<C: null::Constraint>(&mut self) -> Result<Null, Self::Error> {
        self.value(C::tag())?;
        Ok(Null)
    }
}

// The generated type of the sequence `Whatever`.

#[derive(Debug, PartialEq)]
struct Whatever {
    name: String,
    opt: Option<String>,
    some: Option<String>,
}

type AsnDefWhatever = Sequence<Whatever>;
type AsnDefWhateverName = Utf8String;
type AsnDefWhateverOpt = Option<Utf8String>;
type AsnDefWhateverSome = Option<Utf8String>;

impl common::Constraint for Whatever {
    fn tag() -> Tag {
        Tag::default_sequence()
    }
}

impl sequence::Constraint for Whatever {
    const NAME: &'static str = "Whatever";
    const STD_OPTIONAL_FIELDS: u64 = 2;
    const FIELD_COUNT: u64 = 3;
    const EXTENDED_AFTER_FIELD: Option<u64> = None;
}

impl sequence::Fields for Whatever {
    fn read_seq<R: Reader>(reader: &mut R) -> Result<Self, <R as Reader>::Error>
    where
        Self: Sized,
    {
        Ok(Self {
            name: AsnDefWhateverName::read_value(reader)?,
            opt: AsnDefWhateverOpt::read_value(reader)?,
            some: AsnDefWhateverSome::read_value(reader)?,
        })
    }

    fn write_seq<W: Writer>(&self, writer: &mut W) -> Result<(), <W as Writer>::Error> {
        AsnDefWhateverName::write_value(writer, &self.name)?;
        AsnDefWhateverOpt::write_value(writer, &self.opt)?;
        AsnDefWhateverSome::write_value(writer, &self.some)?;
        Ok(())
    }
}

impl Writable for Whatever {
    fn write<W: Writer>(&self, writer: &mut W) -> Result<(), <W as Writer>::Error> {
        AsnDefWhatever::write_value(writer, self)
    }
}

impl Readable for Whatever {
    fn read<R: Reader>(reader: &mut R) -> Result<Self, <R as Reader>::Error> {
        AsnDefWhatever::read_value(reader)
    }
}

#[test]
fn test_compilable() {
    let value = Whatever {
        name: "SeGreatName".to_string(),
        opt: None,
        some: Some("Lorem Ipsum".to_string()),
    };

    //
    //    Showcase: a packed format
    //
    let mut writer = PackedWriter::default();
    writer.write(&value).expect("Writing to UPER failed");

    let mut reader = writer.as_reader();
    let read_value = reader.read::<Whatever>().expect("Reading from UPER failed");

    assert_eq!(value, read_value);

    //
    //    Showcase: a format of tags and lengths
    //
    let mut writer = TaggedWriter::default();
    writer.write(&value).expect("Writing to PROTO failed");

    let mut reader = writer.as_reader();
    let read_value = reader
        .read::<Whatever>()
        .expect("Reading from PROTO failed");

    assert_eq!(value, read_value);
}

#[test]
fn sequence_metadata() {
    assert_eq!(<Whatever as sequence::Constraint>::NAME, "Whatever");
    assert_eq!(<Whatever as sequence::Constraint>::FIELD_COUNT, 3);
    assert_eq!(<Whatever as sequence::Constraint>::STD_OPTIONAL_FIELDS, 2);
    assert_eq!(<Whatever as sequence::Constraint>::EXTENDED_AFTER_FIELD, None);
    assert_eq!(<Whatever as common::Constraint>::tag(), Tag::Universal(16));
    assert_eq!(<utf8string::NoConstraint as utf8string::Constraint>::MIN, None);
    assert_eq!(<utf8string::NoConstraint as utf8string::Constraint>::MAX, None);
    assert!(!<utf8string::NoConstraint as utf8string::Constraint>::EXTENSIBLE);
    assert_eq!(<utf8string::NoConstraint as common::Constraint>::tag(), Tag::Universal(12));
    assert_eq!(<ia5string::NoConstraint as common::Constraint>::tag(), Tag::Universal(22));
    assert_eq!(<numericstring::NoConstraint as common::Constraint>::tag(), Tag::Universal(18));
    assert_eq!(<visiblestring::NoConstraint as common::Constraint>::tag(), Tag::Universal(26));
    assert_eq!(<printablestring::NoConstraint as common::Constraint>::tag(), Tag::Universal(19));
    assert_eq!(<octetstring::NoConstraint as common::Constraint>::tag(), Tag::Universal(4));
    assert_eq!(<bitstring::NoConstraint as common::Constraint>::tag(), Tag::Universal(3));
    assert_eq!(<boolean::NoConstraint as common::Constraint>::tag(), Tag::Universal(1));
    assert_eq!(<null::NoConstraint as common::Constraint>::tag(), Tag::Universal(5));
    assert_eq!(<numbers::NoConstraint as common::Constraint>::tag(), Tag::Universal(2));
    assert_eq!(<sequenceof::NoConstraint as common::Constraint>::tag(), Tag::Universal(16));
    assert_eq!(<setof::NoConstraint as common::Constraint>::tag(), Tag::Universal(17));
}

#[test]
fn a_truncated_input_is_an_error_in_both_formats() {
    let value = Whatever { name: "n".to_string(), opt: Some("o".to_string()), some: None };
    let mut writer = PackedWriter::default();
    writer.write(&value).unwrap();
    let mut reader = writer.as_reader();
    reader.bytes.pop();
    assert!(reader.read::<Whatever>().is_err());

    let mut writer = TaggedWriter::default();
    writer.write(&value).unwrap();
    let mut reader = writer.as_reader();
    reader.bytes.pop();
    assert!(reader.read::<Whatever>().is_err());
}

// An open type of two variants, and the sequence that holds it behind the
// field that tells the variant.

#[derive(Debug, PartialEq)]
enum Payload {
    Flag(bool),
    Text(String),
}

impl common::Constraint for Payload {
    fn tag() -> Tag {
        Tag::ContextSpecific(7)
    }
}

impl opentype::Constraint for Payload {
    const NAME: &'static str = "Payload";
    const VARIANT_COUNT: u64 = 2;
    const STD_VARIANT_COUNT: u64 = 2;
    const EXTENSIBLE: bool = true;

    fn index_of(&self) -> usize {
        self.to_choice_index()
    }

    fn to_choice_index(&self) -> usize {
        match self {
            Payload::Flag(_) => 0,
            Payload::Text(_) => 1,
        }
    }
}

impl opentype::Content for Payload {
    fn write_content<W: Writer>(&self, writer: &mut W) -> Result<(), W::Error> {
        match self {
            Payload::Flag(b) => Boolean::<boolean::NoConstraint>::write_value(writer, b),
            Payload::Text(t) => Utf8String::<utf8string::NoConstraint>::write_value(writer, t),
        }
    }

    fn read_content<R: Reader>(index: usize, reader: &mut R) -> Result<Option<Self>, R::Error> {
        match index {
            0 => Ok(Some(Payload::Flag(Boolean::<boolean::NoConstraint>::read_value(reader)?))),
            1 => Ok(Some(Payload::Text(Utf8String::<utf8string::NoConstraint>::read_value(reader)?))),
            _ => Ok(None),
        }
    }
}

/// The same variants in an open type that declares no extension.
#[derive(Debug, PartialEq)]
struct Closed(Payload);

impl common::Constraint for Closed {
    fn tag() -> Tag {
        Tag::ContextSpecific(8)
    }
}

impl opentype::Constraint for Closed {
    const NAME: &'static str = "Closed";
    const VARIANT_COUNT: u64 = 2;
    const STD_VARIANT_COUNT: u64 = 2;

    fn index_of(&self) -> usize {
        self.to_choice_index()
    }

    fn to_choice_index(&self) -> usize {
        self.0.to_choice_index()
    }
}

impl opentype::Content for Closed {
    fn write_content<W: Writer>(&self, writer: &mut W) -> Result<(), W::Error> {
        self.0.write_content(writer)
    }

    fn read_content<R: Reader>(index: usize, reader: &mut R) -> Result<Option<Self>, R::Error> {
        Ok(Payload::read_content(index, reader)?.map(Closed))
    }
}

fn written(value: &Payload) -> PackedReader {
    let mut writer = PackedWriter::default();
    OpenType::<Payload>::write_value(&mut writer, value).unwrap();
    writer.as_reader()
}

#[test]
fn an_open_type_is_read_by_the_index_of_its_variant() {
    let flag = Payload::Flag(true);
    let text = Payload::Text("abc".to_string());
    assert_eq!(opentype::Constraint::to_choice_index(&flag), 0);
    assert_eq!(opentype::Constraint::to_choice_index(&text), 1);

    assert_eq!(
        read_by_key::<Payload, _>(&mut written(&flag), 0),
        Ok(Presence::Parsed(Payload::Flag(true)))
    );
    assert_eq!(
        read_by_key::<Payload, _>(&mut written(&text), 1),
        Ok(Presence::Parsed(Payload::Text("abc".to_string())))
    );
    assert_eq!(
        OpenType::<Payload>::read_value_by_key(&mut written(&text), 1),
        Ok(Payload::Text("abc".to_string()))
    );

    let mut writer = TaggedWriter::default();
    OpenType::<Payload>::write_value(&mut writer, &text).unwrap();
    assert_eq!(
        OpenType::<Payload>::read_value_by_key(&mut writer.as_reader(), 1),
        Ok(Payload::Text("abc".to_string()))
    );
    // the wrong index reads the bytes as another variant, and the format fails
    assert!(OpenType::<Payload>::read_value_by_key(&mut writer.as_reader(), 0).is_err());
}

#[test]
fn an_unknown_index_is_no_variant_where_the_open_type_is_extensible() {
    let mut reader = written(&Payload::Flag(true));
    assert_eq!(
        read_by_key::<Payload, _>(&mut reader, 2),
        Ok(Presence::UnknownVariant)
    );
    // nothing was read
    assert_eq!(reader.at, 0);
    assert_eq!(
        read_by_key::<Payload, _>(&mut reader, usize::MAX),
        Ok(Presence::UnknownVariant)
    );
}

#[test]
fn an_unknown_index_is_an_error_where_the_open_type_is_not_extensible() {
    let mut reader = written(&Payload::Flag(true));
    assert_eq!(
        read_by_key::<Closed, _>(&mut reader, 2),
        Err(OpenTypeError::UnknownVariant(2))
    );
    assert_eq!(reader.at, 0);
    assert_eq!(
        read_by_key::<Closed, _>(&mut reader, 0),
        Ok(Presence::Parsed(Closed(Payload::Flag(true))))
    );
    // a reader hands out values only: an unknown index is its error
    assert!(OpenType::<Closed>::read_value_by_key(&mut written(&Payload::Flag(true)), 9).is_err());
    assert!(OpenType::<Payload>::read_value_by_key(&mut written(&Payload::Flag(true)), 9).is_err());
}

#[test]
fn what_was_read_decides_what_is_present() {
    let value: Result<Option<u8>, String> = Ok(Some(7));
    assert_eq!(present(value, 3, false), Ok(Presence::Parsed(7)));
    let value: Result<Option<u8>, String> = Ok(Some(7));
    assert_eq!(present(value, 3, true), Ok(Presence::Parsed(7)));
    let none: Result<Option<u8>, String> = Ok(None);
    assert_eq!(present(none, 3, true), Ok(Presence::UnknownVariant));
    let none: Result<Option<u8>, String> = Ok(None);
    assert_eq!(present(none, 3, false), Err(OpenTypeError::UnknownVariant(3)));
    let failed: Result<Option<u8>, String> = Err("broken".to_string());
    assert_eq!(present(failed, 3, true), Err(OpenTypeError::Codec("broken".to_string())));
    let failed: Result<Option<u8>, String> = Err("broken".to_string());
    assert_eq!(present(failed, 3, false), Err(OpenTypeError::Codec("broken".to_string())));
}

#[test]
fn a_failing_format_is_an_error_of_the_format() {
    let mut reader = PackedReader { bytes: vec![], at: 0 };
    assert_eq!(
        read_by_key::<Payload, _>(&mut reader, 0),
        Err(OpenTypeError::Codec("premature end".to_string()))
    );
}

// A sequence with every kind of field, to go through both formats.

#[derive(Debug, PartialEq, Clone, Copy)]
enum Colour {
    Red,
    Green,
}

impl common::Constraint for Colour {
    fn tag() -> Tag {
        Tag::default_enumerated()
    }
}

impl enumerated::Constraint for Colour {
    const NAME: &'static str = "Colour";
    const VARIANT_COUNT: u64 = 2;
    const STD_VARIANT_COUNT: u64 = 2;

    fn index_of(&self) -> u64 {
        self.to_choice_index()
    }

    fn to_choice_index(&self) -> u64 {
        match self {
            Colour::Red => 0,
            Colour::Green => 1,
        }
    }

    fn from_choice_index(index: u64) -> Option<Self> {
        match index {
            0 => Some(Colour::Red),
            1 => Some(Colour::Green),
            _ => None,
        }
    }
}

#[derive(Debug, PartialEq)]
enum Either {
    Number(i32),
    Word(String),
}

impl common::Constraint for Either {
    fn tag() -> Tag {
        Tag::ContextSpecific(1)
    }
}

impl choice::Constraint for Either {
    const NAME: &'static str = "Either";
    const VARIANT_COUNT: u64 = 2;
    const STD_VARIANT_COUNT: u64 = 2;

    fn index_of(&self) -> u64 {
        self.to_choice_index()
    }

    fn to_choice_index(&self) -> u64 {
        match self {
            Either::Number(_) => 0,
            Either::Word(_) => 1,
        }
    }
}

impl choice::Content for Either {
    fn write_content<W: Writer>(&self, writer: &mut W) -> Result<(), W::Error> {
        match self {
            Either::Number(n) => Integer::<i32>::write_value(writer, n),
            Either::Word(w) => Utf8String::<utf8string::NoConstraint>::write_value(writer, w),
        }
    }

    fn read_content<R: Reader>(index: u64, reader: &mut R) -> Result<Option<Self>, R::Error> {
        match index {
            0 => Ok(Some(Either::Number(Integer::<i32>::read_value(reader)?))),
            1 => Ok(Some(Either::Word(Utf8String::<utf8string::NoConstraint>::read_value(reader)?))),
            _ => Ok(None),
        }
    }
}

struct Five;

impl common::Constraint for Five {
    fn tag() -> Tag {
        Tag::default_integer()
    }
}

impl asn1rs::syn::default::Constraint for Five {
    type Owned = u8;

    fn default_value() -> u8 {
        5
    }
}

struct AsField;

impl common::Constraint for AsField {
    fn tag() -> Tag {
        Tag::default_sequence()
    }
}

impl complex::Constraint for AsField {}

#[derive(Debug, PartialEq)]
struct Everything {
    kind: u8,
    payload: Payload,
    colour: Colour,
    either: Either,
    numbers: Vec<i64>,
    none: Vec<bool>,
    bytes: Vec<u8>,
    bits: BitVec,
    null: Null,
    level: u8,
    inner: Whatever,
    small: i8,
}

impl common::Constraint for Everything {
    fn tag() -> Tag {
        Tag::default_sequence()
    }
}

impl sequence::Constraint for Everything {
    const NAME: &'static str = "Everything";
    const STD_OPTIONAL_FIELDS: u64 = 0;
    const FIELD_COUNT: u64 = 12;
    const EXTENDED_AFTER_FIELD: Option<u64> = Some(9);
}

impl sequence::Fields for Everything {
    fn read_seq<R: Reader>(reader: &mut R) -> Result<Self, R::Error> {
        let kind = Integer::<u8>::read_value(reader)?;
        Ok(Everything {
            kind,
            payload: OpenType::<Payload>::read_value_by_key(reader, kind as usize)?,
            colour: Enumerated::<Colour>::read_value(reader)?,
            either: Choice::<Either>::read_value(reader)?,
            numbers: SequenceOf::<Integer<i64>>::read_value(reader)?,
            none: SequenceOf::<Boolean>::read_value(reader)?,
            bytes: OctetString::<octetstring::NoConstraint>::read_value(reader)?,
            bits: BitString::<bitstring::NoConstraint>::read_value(reader)?,
            null: NullT::<null::NoConstraint>::read_value(reader)?,
            level: DefaultValue::<Integer<u8>, Five>::read_value(reader)?,
            inner: Complex::<Whatever, AsField>::read_value(reader)?,
            small: Integer::<i8>::read_value(reader)?,
        })
    }

    fn write_seq<W: Writer>(&self, writer: &mut W) -> Result<(), W::Error> {
        Integer::<u8>::write_value(writer, &self.kind)?;
        OpenType::<Payload>::write_value(writer, &self.payload)?;
        Enumerated::<Colour>::write_value(writer, &self.colour)?;
        Choice::<Either>::write_value(writer, &self.either)?;
        SequenceOf::<Integer<i64>>::write_value(writer, &self.numbers)?;
        SequenceOf::<Boolean>::write_value(writer, &self.none)?;
        OctetString::<octetstring::NoConstraint>::write_value(writer, &self.bytes)?;
        BitString::<bitstring::NoConstraint>::write_value(writer, &self.bits)?;
        NullT::<null::NoConstraint>::write_value(writer, &self.null)?;
        DefaultValue::<Integer<u8>, Five>::write_value(writer, &self.level)?;
        Complex::<Whatever, AsField>::write_value(writer, &self.inner)?;
        Integer::<i8>::write_value(writer, &self.small)?;
        Ok(())
    }
}

impl Writable for Everything {
    fn write<W: Writer>(&self, writer: &mut W) -> Result<(), W::Error> {
        Sequence::<Everything>::write_value(writer, self)
    }
}

impl Readable for Everything {
    fn read<R: Reader>(reader: &mut R) -> Result<Self, R::Error> {
        Sequence::<Everything>::read_value(reader)
    }
}

impl KeyedReadable for Payload {
    fn read_by_key<R: Reader>(reader: &mut R, key: usize) -> Result<Self, R::Error> {
        OpenType::<Payload>::read_value_by_key(reader, key)
    }
}

fn everything() -> Everything {
    Everything {
        kind: 1,
        payload: Payload::Text("inside".to_string()),
        colour: Colour::Green,
        either: Either::Number(-7),
        numbers: vec![i64::MIN, 0, i64::MAX],
        none: vec![],
        bytes: vec![0, 255, 7],
        bits: BitVec { bytes: vec![0b1010_0000], bit_len: 3 },
        null: Null,
        level: 5,
        inner: Whatever { name: "in".to_string(), opt: Some("o".to_string()), some: None },
        small: -128,
    }
}

#[test]
fn every_construct_comes_back_from_both_formats() {
    let value = everything();

    let mut writer = PackedWriter::default();
    writer.write(&value).unwrap();
    assert_eq!(writer.as_reader().read::<Everything>(), Ok(everything()));

    let mut writer = TaggedWriter::default();
    writer.write(&value).unwrap();
    assert_eq!(writer.as_reader().read::<Everything>(), Ok(everything()));
}

#[test]
fn a_key_of_no_variant_fails_the_sequence_around_it() {
    let mut value = everything();
    value.kind = 9;
    let mut writer = PackedWriter::default();
    writer.write(&value).unwrap();
    assert_eq!(
        writer.as_reader().read::<Everything>(),
        Err("no variant 9".to_string())
    );
}

#[test]
fn a_complex_value_is_read_by_key_through_its_type() {
    let mut writer = PackedWriter::default();
    OpenType::<Payload>::write_value(&mut writer, &Payload::Flag(false)).unwrap();
    assert_eq!(
        Complex::<Payload, AsField>::read_value_by_key(&mut writer.as_reader(), 0),
        Ok(Payload::Flag(false))
    );
}

#[test]
fn numbers_go_through_i64() {
    assert_eq!(200u8.to_i64(), 200);
    assert_eq!((-128i8).to_i64(), -128);
    assert_eq!(u32::MAX.to_i64(), 4294967295);
    assert_eq!(i64::MIN.to_i64(), i64::MIN);
    assert_eq!(<u8 as Number>::from_i64(200), 200u8);
    assert_eq!(<i8 as Number>::from_i64(-128), -128i8);
    assert_eq!(<i16 as Number>::from_i64(-32768), i16::MIN);
    assert_eq!(<u16 as Number>::from_i64(65535), u16::MAX);
    assert_eq!(<i32 as Number>::from_i64(2147483647), i32::MAX);
    assert_eq!(<u32 as Number>::from_i64(4294967295), u32::MAX);
    assert_eq!(<i64 as Number>::from_i64(i64::MAX), i64::MAX);
    // beyond the type the upper bits are lost
    assert_eq!(<u8 as Number>::from_i64(256), 0u8);
    assert_eq!(<i8 as Number>::from_i64(128), -128i8);
}

#[test]
fn enumerated_indices() {
    assert_eq!(enumerated::Constraint::to_choice_index(&Colour::Green), 1);
    assert_eq!(<Colour as enumerated::Constraint>::from_choice_index(0), Some(Colour::Red));
    assert_eq!(<Colour as enumerated::Constraint>::from_choice_index(2), None);
    assert!(!<Colour as enumerated::Constraint>::EXTENSIBLE);
    assert!(<Payload as opentype::Constraint>::EXTENSIBLE);
    assert!(!<Closed as opentype::Constraint>::EXTENSIBLE);
    assert_eq!(<Five as asn1rs::syn::default::Constraint>::default_value(), 5);
}
