//! The two shapes of the model, and what turns the first into the second.

use crate::schema::types::Type;
use vstd::prelude::*;
use vstd::string::StringExecFns;

verus! {

/// A value that is written out, or the name of one declared elsewhere.
#[derive(Debug, Clone, PartialEq)]
pub enum LitOrRef<T> {
    Lit(T),
    Ref(String),
}

/// A constant as a schema writes it.
#[derive(Debug, Clone, Copy, PartialEq, Eq, Structural)]
pub enum LiteralValue {
    Boolean(bool),
    Integer(i64),
}

/// The shape a model is in: what stands for a size, for a bound of a range and
/// for a constant.
pub trait ResolveState {
    type SizeType: core::fmt::Debug + PartialEq;

    type RangeType: core::fmt::Debug + PartialEq;

    type ConstType: core::fmt::Debug + PartialEq;
}

/// The shape after resolution: every size, bound and constant is a value.
#[derive(Debug, Clone, Copy, PartialEq, Eq, Structural)]
pub struct Resolved;

/// The shape after parsing: sizes, bounds and constants may still be names.
#[derive(Debug, Clone, Copy, PartialEq, Eq, Structural)]
pub struct Unresolved;

impl ResolveState for Resolved {
    type SizeType = usize;

    type RangeType = i64;

    type ConstType = LiteralValue;
}

impl ResolveState for Unresolved {
    type SizeType = LitOrRef<usize>;

    type RangeType = LitOrRef<i64>;

    type ConstType = LitOrRef<LiteralValue>;
}

/// Why a resolution failed. Each error carries the name that stands for
/// nothing.
#[derive(Debug, Clone, PartialEq)]
pub enum Error {
    FailedToResolveType(String),
    FailedToResolveReference(String),
}

impl Error {
    /// The name that could not be resolved.
    pub open spec fn symbol_of(self) -> Seq<char> {
        match self {
            Error::FailedToResolveType(name) => name@,
            Error::FailedToResolveReference(name) => name@,
        }
    }

    /// The name that could not be resolved.
    pub fn symbol(&self) -> (r: &str)
        ensures
            r@ == self.symbol_of(),
    {
        match self {
            Error::FailedToResolveType(name) => name.as_str(),
            Error::FailedToResolveReference(name) => name.as_str(),
        }
    }

    /// A short description of the error, for a person to read.
    pub open spec fn description(self) -> Seq<char> {
        match self {
            Error::FailedToResolveType(_) => "failed to resolve type"@,
            Error::FailedToResolveReference(_) => "failed to resolve reference"@,
        }
    }

    /// A short description of the error, for a person to read.
    pub fn to_string(&self) -> (r: String)
        ensures
            r@ == self.description(),
    {
        match self {
            Error::FailedToResolveType(_) => String::from_str("failed to resolve type"),
            Error::FailedToResolveReference(_) => String::from_str("failed to resolve reference"),
        }
    }
}

/// What knows the declarations of a schema by name: sizes, bounds of ranges,
/// constants and types. Each lookup is a function of the name alone; a name
/// that stands for nothing is an error that carries it.
pub trait Resolver {
    spec fn size_for(&self, name: String) -> Result<usize, Error>;

    spec fn range_for(&self, name: String) -> Result<i64, Error>;

    spec fn const_for(&self, name: String) -> Result<LiteralValue, Error>;

    spec fn type_for(&self, name: String) -> Result<Type<Resolved>, Error>;

    fn resolve_size(&self, name: &String) -> (r: Result<usize, Error>)
        ensures
            r == self.size_for(*name),
            r matches Err(e) ==> e is FailedToResolveReference && e.symbol_of() == name@,
    ;

    fn resolve_range(&self, name: &String) -> (r: Result<i64, Error>)
        ensures
            r == self.range_for(*name),
            r matches Err(e) ==> e is FailedToResolveReference && e.symbol_of() == name@,
    ;

    fn resolve_const(&self, name: &String) -> (r: Result<LiteralValue, Error>)
        ensures
            r == self.const_for(*name),
            r matches Err(e) ==> e is FailedToResolveReference && e.symbol_of() == name@,
    ;

    fn resolve_type(&self, name: &String) -> (r: Result<Type<Resolved>, Error>)
        ensures
            r == self.type_for(*name),
            r matches Ok(t) ==> t.is_linked(),
            r matches Err(e) ==> e is FailedToResolveType && e.symbol_of() == name@,
    ;
}

} // verus!
