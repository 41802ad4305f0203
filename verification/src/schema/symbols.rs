//! A table of the declarations of a schema, by name.

use crate::schema::lor::{Error, LiteralValue, Resolved, Resolver};
use crate::schema::types::{Bounds, Type};
use vstd::prelude::*;

verus! {

/// The value that `entries` gives to `name`: that of the last entry of this
/// name, so that a later declaration replaces an earlier one.
pub open spec fn lookup<T>(entries: Seq<(String, T)>, name: Seq<char>) -> Option<T>
    decreases entries.len(),
{
    if entries.len() == 0 {
        None
    } else if entries.last().0@ == name {
        Some(entries.last().1)
    } else {
        lookup(entries.drop_last(), name)
    }
}

/// The index of the last entry of `entries` with the name `name`.
fn position<T>(entries: &Vec<(String, T)>, name: &String) -> (r: Option<usize>)
    ensures
        match r {
            Some(i) => i < entries@.len() && lookup(entries@, name@) == Some(entries@[i as int].1),
            None => lookup(entries@, name@).is_none(),
        },
{
    let mut i: usize = entries.len();
    assert(entries@.take(i as int) =~= entries@);
    while i > 0
        invariant
            i <= entries@.len(),
            lookup(entries@, name@) == lookup(entries@.take(i as int), name@),
        decreases i,
    {
        proof {
            assert(entries@.take(i as int).drop_last() =~= entries@.take(i - 1));
        }
        i -= 1;
        if entries[i].0 == *name {
            return Some(i);
        }
    }
    None
}

impl Type<Resolved> {
    /// Whether the type names no other type.
    pub fn linked(&self) -> (r: bool)
        ensures
            r == self.is_linked(),
        decreases *self,
    {
        match self {
            Type::Optional(inner) => inner.linked(),
            Type::Default(inner, _) => inner.linked(),
            Type::TypeReference(_) => false,
            _ => true,
        }
    }

    /// A second value of the same type.
    pub fn duplicate(&self) -> (r: Self)
        ensures
            r == *self,
        decreases *self,
    {
        match self {
            Type::Boolean => Type::Boolean,
            Type::Null => Type::Null,
            Type::Integer(None) => Type::Integer(None),
            Type::Integer(Some(b)) => Type::Integer(Some(Bounds { lower: b.lower, upper: b.upper })),
            Type::Utf8String(None) => Type::Utf8String(None),
            Type::Utf8String(Some(b)) => Type::Utf8String(
                Some(Bounds { lower: b.lower, upper: b.upper }),
            ),
            Type::OctetString(None) => Type::OctetString(None),
            Type::OctetString(Some(b)) => Type::OctetString(
                Some(Bounds { lower: b.lower, upper: b.upper }),
            ),
            Type::Optional(inner) => Type::Optional(Box::new(inner.duplicate())),
            Type::Default(inner, value) => Type::Default(Box::new(inner.duplicate()), *value),
            Type::TypeReference(name) => Type::TypeReference(name.clone()),
        }
    }
}

/// The sizes, bounds of ranges, constants and types that a schema declares,
/// each under its name. Of two declarations of one name the later one counts.
pub struct SymbolTable {
    pub sizes: Vec<(String, usize)>,
    pub ranges: Vec<(String, i64)>,
    pub consts: Vec<(String, LiteralValue)>,
    pub types: Vec<(String, Type<Resolved>)>,
}

impl SymbolTable {
    /// A table without declarations.
    pub fn new() -> (r: Self)
        ensures
            r.sizes@.len() == 0,
            r.ranges@.len() == 0,
            r.consts@.len() == 0,
            r.types@.len() == 0,
    {
        SymbolTable { sizes: Vec::new(), ranges: Vec::new(), consts: Vec::new(), types: Vec::new() }
    }
}

impl Resolver for SymbolTable {
    open spec fn size_for(&self, name: String) -> Result<usize, Error> {
        match lookup(self.sizes@, name@) {
            Some(v) => Ok(v),
            None => Err(Error::FailedToResolveReference(name)),
        }
    }

    open spec fn range_for(&self, name: String) -> Result<i64, Error> {
        match lookup(self.ranges@, name@) {
            Some(v) => Ok(v),
            None => Err(Error::FailedToResolveReference(name)),
        }
    }

    open spec fn const_for(&self, name: String) -> Result<LiteralValue, Error> {
        match lookup(self.consts@, name@) {
            Some(v) => Ok(v),
            None => Err(Error::FailedToResolveReference(name)),
        }
    }

    /// The type declared under `name`, where it names no other type in turn.
    open spec fn type_for(&self, name: String) -> Result<Type<Resolved>, Error> {
        match lookup(self.types@, name@) {
            Some(t) => if t.is_linked() {
                Ok(t)
            } else {
                Err(Error::FailedToResolveType(name))
            },
            None => Err(Error::FailedToResolveType(name)),
        }
    }

    fn resolve_size(&self, name: &String) -> (r: Result<usize, Error>) {
        match position(&self.sizes, name) {
            Some(i) => Ok(self.sizes[i].1),
            None => Err(Error::FailedToResolveReference(name.clone())),
        }
    }

    fn resolve_range(&self, name: &String) -> (r: Result<i64, Error>) {
        match position(&self.ranges, name) {
            Some(i) => Ok(self.ranges[i].1),
            None => Err(Error::FailedToResolveReference(name.clone())),
        }
    }

    fn resolve_const(&self, name: &String) -> (r: Result<LiteralValue, Error>) {
        match position(&self.consts, name) {
            Some(i) => Ok(self.consts[i].1),
            None => Err(Error::FailedToResolveReference(name.clone())),
        }
    }

    fn resolve_type(&self, name: &String) -> (r: Result<Type<Resolved>, Error>) {
        match position(&self.types, name) {
            Some(i) => if self.types[i].1.linked() {
                Ok(self.types[i].1.duplicate())
            } else {
                Err(Error::FailedToResolveType(name.clone()))
            },
            None => Err(Error::FailedToResolveType(name.clone())),
        }
    }
}

} // verus!
