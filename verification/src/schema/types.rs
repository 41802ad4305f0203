//! The types that a declaration can name.

use crate::parser::{eq_ignore_ascii_case, i64_literal, parse_i64, parse_usize};
use crate::parser::{text_eq_ignore_ascii_case, usize_literal, Token};
use crate::schema::err::Error;
use crate::schema::lor::{Error as ResolveError, LitOrRef, LiteralValue};
use crate::schema::tokens::{expect_keyword, expect_separator, expect_text};
use crate::schema::tokens::{is_keyword_at, is_separator_at, PeekableTokens, Step};
use crate::schema::lor::{ResolveState, Resolved, Resolver, Unresolved};
use vstd::prelude::*;

verus! {

/// The two ends of a range or of a size constraint, both included.
#[derive(Debug, Clone, PartialEq)]
pub struct Bounds<T> {
    pub lower: T,
    pub upper: T,
}

/// A type as a declaration names it, in one of the two shapes of the model.
#[derive(Debug, PartialEq)]
pub enum Type<RS: ResolveState> {
    Boolean,
    Null,
    /// `INTEGER`, with the range of its values where one is given.
    Integer(Option<Bounds<RS::RangeType>>),
    /// `UTF8String`, with the bounds of its length where they are given.
    Utf8String(Option<Bounds<RS::SizeType>>),
    /// `OCTET STRING`, with the bounds of its length where they are given.
    OctetString(Option<Bounds<RS::SizeType>>),
    /// A type whose value may be absent.
    Optional(Box<Type<RS>>),
    /// A type whose value, where absent, is the constant.
    Default(Box<Type<RS>>, RS::ConstType),
    /// A type declared elsewhere, by its name.
    TypeReference(String),
}

impl<RS: ResolveState> Type<RS> {
    /// Whether the type names no other type: nothing in it is left to look up.
    pub open spec fn is_linked(self) -> bool
        decreases self,
    {
        match self {
            Type::Optional(inner) => inner.is_linked(),
            Type::Default(inner, _) => inner.is_linked(),
            Type::TypeReference(_) => false,
            _ => true,
        }
    }
}

/// The size that `lor` stands for with `resolver`.
pub open spec fn resolved_size<R: Resolver>(lor: LitOrRef<usize>, resolver: &R) -> Result<
    usize,
    ResolveError,
> {
    match lor {
        LitOrRef::Lit(v) => Ok(v),
        LitOrRef::Ref(name) => resolver.size_for(name),
    }
}

/// The bound of a range that `lor` stands for with `resolver`.
pub open spec fn resolved_range<R: Resolver>(lor: LitOrRef<i64>, resolver: &R) -> Result<
    i64,
    ResolveError,
> {
    match lor {
        LitOrRef::Lit(v) => Ok(v),
        LitOrRef::Ref(name) => resolver.range_for(name),
    }
}

/// The constant that `lor` stands for with `resolver`.
pub open spec fn resolved_const<R: Resolver>(lor: LitOrRef<LiteralValue>, resolver: &R) -> Result<
    LiteralValue,
    ResolveError,
> {
    match lor {
        LitOrRef::Lit(v) => Ok(v),
        LitOrRef::Ref(name) => resolver.const_for(name),
    }
}

/// The bounds of a size with both ends resolved, the lower end first.
pub open spec fn resolved_size_bounds<R: Resolver>(
    bounds: Option<Bounds<LitOrRef<usize>>>,
    resolver: &R,
) -> Result<Option<Bounds<usize>>, ResolveError> {
    match bounds {
        None => Ok(None),
        Some(b) => match resolved_size(b.lower, resolver) {
            Err(e) => Err(e),
            Ok(lower) => match resolved_size(b.upper, resolver) {
                Err(e) => Err(e),
                Ok(upper) => Ok(Some(Bounds { lower, upper })),
            },
        },
    }
}

/// The bounds of a range with both ends resolved, the lower end first.
pub open spec fn resolved_range_bounds<R: Resolver>(
    bounds: Option<Bounds<LitOrRef<i64>>>,
    resolver: &R,
) -> Result<Option<Bounds<i64>>, ResolveError> {
    match bounds {
        None => Ok(None),
        Some(b) => match resolved_range(b.lower, resolver) {
            Err(e) => Err(e),
            Ok(lower) => match resolved_range(b.upper, resolver) {
                Err(e) => Err(e),
                Ok(upper) => Ok(Some(Bounds { lower, upper })),
            },
        },
    }
}

/// The resolved shape of `t` with `resolver`: every size, bound and constant
/// is looked up where it is a name, and a reference gives way to the type that
/// it names. The first lookup that fails, in the order of the text, is the
/// error of the whole.
pub open spec fn resolved_type<R: Resolver>(t: Type<Unresolved>, resolver: &R) -> Result<
    Type<Resolved>,
    ResolveError,
>
    decreases t,
{
    match t {
        Type::Boolean => Ok(Type::Boolean),
        Type::Null => Ok(Type::Null),
        Type::Integer(range) => match resolved_range_bounds(range, resolver) {
            Ok(range) => Ok(Type::Integer(range)),
            Err(e) => Err(e),
        },
        Type::Utf8String(size) => match resolved_size_bounds(size, resolver) {
            Ok(size) => Ok(Type::Utf8String(size)),
            Err(e) => Err(e),
        },
        Type::OctetString(size) => match resolved_size_bounds(size, resolver) {
            Ok(size) => Ok(Type::OctetString(size)),
            Err(e) => Err(e),
        },
        Type::Optional(inner) => match resolved_type(*inner, resolver) {
            Ok(inner) => Ok(Type::Optional(Box::new(inner))),
            Err(e) => Err(e),
        },
        Type::Default(inner, value) => match resolved_type(*inner, resolver) {
            Ok(inner) => match resolved_const(value, resolver) {
                Ok(value) => Ok(Type::Default(Box::new(inner), value)),
                Err(e) => Err(e),
            },
            Err(e) => Err(e),
        },
        Type::TypeReference(name) => resolver.type_for(name),
    }
}

fn resolve_size<R: Resolver>(lor: &LitOrRef<usize>, resolver: &R) -> (r: Result<
    usize,
    ResolveError,
>)
    ensures
        r == resolved_size(*lor, resolver),
{
    match lor {
        LitOrRef::Lit(v) => Ok(*v),
        LitOrRef::Ref(name) => resolver.resolve_size(name),
    }
}

fn resolve_range<R: Resolver>(lor: &LitOrRef<i64>, resolver: &R) -> (r: Result<i64, ResolveError>)
    ensures
        r == resolved_range(*lor, resolver),
{
    match lor {
        LitOrRef::Lit(v) => Ok(*v),
        LitOrRef::Ref(name) => resolver.resolve_range(name),
    }
}

fn resolve_const<R: Resolver>(lor: &LitOrRef<LiteralValue>, resolver: &R) -> (r: Result<
    LiteralValue,
    ResolveError,
>)
    ensures
        r == resolved_const(*lor, resolver),
{
    match lor {
        LitOrRef::Lit(v) => Ok(*v),
        LitOrRef::Ref(name) => resolver.resolve_const(name),
    }
}

fn resolve_size_bounds<R: Resolver>(bounds: &Option<Bounds<LitOrRef<usize>>>, resolver: &R) -> (r:
    Result<Option<Bounds<usize>>, ResolveError>)
    ensures
        r == resolved_size_bounds(*bounds, resolver),
{
    match bounds {
        None => Ok(None),
        Some(b) => {
            let lower: usize = match resolve_size(&b.lower, resolver) {
                Ok(v) => v,
                Err(e) => {
                    return Err(e);
                },
            };
            match resolve_size(&b.upper, resolver) {
                Ok(upper) => Ok(Some(Bounds { lower, upper })),
                Err(e) => Err(e),
            }
        },
    }
}

fn resolve_range_bounds<R: Resolver>(bounds: &Option<Bounds<LitOrRef<i64>>>, resolver: &R) -> (r:
    Result<Option<Bounds<i64>>, ResolveError>)
    ensures
        r == resolved_range_bounds(*bounds, resolver),
{
    match bounds {
        None => Ok(None),
        Some(b) => {
            let lower: i64 = match resolve_range(&b.lower, resolver) {
                Ok(v) => v,
                Err(e) => {
                    return Err(e);
                },
            };
            match resolve_range(&b.upper, resolver) {
                Ok(upper) => Ok(Some(Bounds { lower, upper })),
                Err(e) => Err(e),
            }
        },
    }
}

impl Type<Unresolved> {
    /// Resolves the type: the result is the resolved shape of `self`, in which
    /// no reference is left, or the error of the first lookup that failed.
    pub fn try_resolve<R: Resolver>(&self, resolver: &R) -> (r: Result<Type<Resolved>, ResolveError>)
        ensures
            r == resolved_type(*self, resolver),
            r matches Ok(t) ==> t.is_linked(),
        decreases *self,
    {
        match self {
            Type::Boolean => Ok(Type::Boolean),
            Type::Null => Ok(Type::Null),
            Type::Integer(range) => match resolve_range_bounds(range, resolver) {
                Ok(range) => Ok(Type::Integer(range)),
                Err(e) => Err(e),
            },
            Type::Utf8String(size) => match resolve_size_bounds(size, resolver) {
                Ok(size) => Ok(Type::Utf8String(size)),
                Err(e) => Err(e),
            },
            Type::OctetString(size) => match resolve_size_bounds(size, resolver) {
                Ok(size) => Ok(Type::OctetString(size)),
                Err(e) => Err(e),
            },
            Type::Optional(inner) => match inner.try_resolve(resolver) {
                Ok(inner) => Ok(Type::Optional(Box::new(inner))),
                Err(e) => Err(e),
            },
            Type::Default(inner, value) => match inner.try_resolve(resolver) {
                Ok(inner) => match resolve_const(value, resolver) {
                    Ok(value) => Ok(Type::Default(Box::new(inner), value)),
                    Err(e) => Err(e),
                },
                Err(e) => Err(e),
            },
            Type::TypeReference(name) => resolver.resolve_type(name),
        }
    }
}

/// What a word stands for where a size belongs: the number that it spells,
/// or else the name of a size.
pub open spec fn size_bound(word: String) -> LitOrRef<usize> {
    match usize_literal(word@) {
        Some(v) => LitOrRef::Lit(v),
        None => LitOrRef::Ref(word),
    }
}

/// What a word stands for where a bound of a range belongs: the number that
/// it spells, or else the name of a bound.
pub open spec fn range_bound(word: String) -> LitOrRef<i64> {
    match i64_literal(word@) {
        Some(v) => LitOrRef::Lit(v),
        None => LitOrRef::Ref(word),
    }
}

/// What a word stands for where a constant belongs: `TRUE` or `FALSE` in any
/// case, the number that it spells, or else the name of a constant.
pub open spec fn const_value(word: String) -> LitOrRef<LiteralValue> {
    if eq_ignore_ascii_case(word@, "TRUE"@) {
        LitOrRef::Lit(LiteralValue::Boolean(true))
    } else if eq_ignore_ascii_case(word@, "FALSE"@) {
        LitOrRef::Lit(LiteralValue::Boolean(false))
    } else {
        match i64_literal(word@) {
            Some(v) => LitOrRef::Lit(LiteralValue::Integer(v)),
            None => LitOrRef::Ref(word),
        }
    }
}

/// The two words of `( lower .. upper )`, read from `at` on.
pub open spec fn parse_interval(ts: Seq<Token>, at: int) -> Step<Bounds<String>> {
    match expect_separator(ts, at, '(') {
        (Err(e), p) => (Err(e), p),
        (Ok(_), p) => match expect_text(ts, p) {
            (Err(e), p) => (Err(e), p),
            (Ok(lower), p) => match expect_separator(ts, p, '.') {
                (Err(e), p) => (Err(e), p),
                (Ok(_), p) => match expect_separator(ts, p, '.') {
                    (Err(e), p) => (Err(e), p),
                    (Ok(_), p) => match expect_text(ts, p) {
                        (Err(e), p) => (Err(e), p),
                        (Ok(upper), p) => match expect_separator(ts, p, ')') {
                            (Err(e), p) => (Err(e), p),
                            (Ok(_), p) => (Ok(Bounds { lower, upper }), p),
                        },
                    },
                },
            },
        },
    }
}

/// The range that may follow `INTEGER`: `( lower .. upper )` where the token
/// at `at` is `(`, and none otherwise.
pub open spec fn parse_opt_range(ts: Seq<Token>, at: int) -> Step<Option<Bounds<LitOrRef<i64>>>> {
    if is_separator_at(ts, at, '(') {
        match parse_interval(ts, at) {
            (Err(e), p) => (Err(e), p),
            (Ok(words), p) => (
                Ok(Some(Bounds { lower: range_bound(words.lower), upper: range_bound(words.upper) })),
                p,
            ),
        }
    } else {
        (Ok(None), at)
    }
}

/// The size that may follow a string type: `( SIZE ( lower .. upper ) )`
/// where the token at `at` is `(`, and none otherwise.
pub open spec fn parse_opt_size(ts: Seq<Token>, at: int) -> Step<Option<Bounds<LitOrRef<usize>>>> {
    if is_separator_at(ts, at, '(') {
        match expect_keyword(ts, at + 1, "SIZE"@) {
            (Err(e), p) => (Err(e), p),
            (Ok(_), p) => match parse_interval(ts, p) {
                (Err(e), p) => (Err(e), p),
                (Ok(words), p) => match expect_separator(ts, p, ')') {
                    (Err(e), p) => (Err(e), p),
                    (Ok(_), p) => (
                        Ok(
                            Some(
                                Bounds {
                                    lower: size_bound(words.lower),
                                    upper: size_bound(words.upper),
                                },
                            ),
                        ),
                        p,
                    ),
                },
            },
        }
    } else {
        (Ok(None), at)
    }
}

/// The type that begins with the word `word`, which stood just before `at`:
/// one of the built-in types by its keyword in any case, with its constraint
/// where one follows, and a reference to a type of that name otherwise.
pub open spec fn parse_plain_type(ts: Seq<Token>, at: int, word: String) -> Step<Type<Unresolved>> {
    if eq_ignore_ascii_case(word@, "BOOLEAN"@) {
        (Ok(Type::Boolean), at)
    } else if eq_ignore_ascii_case(word@, "NULL"@) {
        (Ok(Type::Null), at)
    } else if eq_ignore_ascii_case(word@, "INTEGER"@) {
        match parse_opt_range(ts, at) {
            (Err(e), p) => (Err(e), p),
            (Ok(range), p) => (Ok(Type::Integer(range)), p),
        }
    } else if eq_ignore_ascii_case(word@, "UTF8String"@) {
        match parse_opt_size(ts, at) {
            (Err(e), p) => (Err(e), p),
            (Ok(size), p) => (Ok(Type::Utf8String(size)), p),
        }
    } else if eq_ignore_ascii_case(word@, "OCTET"@) {
        match expect_keyword(ts, at, "STRING"@) {
            (Err(e), p) => (Err(e), p),
            (Ok(_), p) => match parse_opt_size(ts, p) {
                (Err(e), p) => (Err(e), p),
                (Ok(size), p) => (Ok(Type::OctetString(size)), p),
            },
        }
    } else {
        (Ok(Type::TypeReference(word)), at)
    }
}

/// The type that begins with the word `word`, which stood just before `at`,
/// together with what may follow it: `OPTIONAL`, or `DEFAULT` and a constant.
pub open spec fn parse_type(ts: Seq<Token>, at: int, word: String) -> Step<Type<Unresolved>> {
    match parse_plain_type(ts, at, word) {
        (Err(e), p) => (Err(e), p),
        (Ok(plain), p) => if is_keyword_at(ts, p, "OPTIONAL"@) {
            (Ok(Type::Optional(Box::new(plain))), p + 1)
        } else if is_keyword_at(ts, p, "DEFAULT"@) {
            match expect_text(ts, p + 1) {
                (Err(e), p) => (Err(e), p),
                (Ok(value), p) => (Ok(Type::Default(Box::new(plain), const_value(value))), p),
            }
        } else {
            (Ok(plain), p)
        },
    }
}

fn size_bound_of(word: String) -> (r: LitOrRef<usize>)
    ensures
        r == size_bound(word),
{
    match parse_usize(word.as_str()) {
        Some(v) => LitOrRef::Lit(v),
        None => LitOrRef::Ref(word),
    }
}

fn range_bound_of(word: String) -> (r: LitOrRef<i64>)
    ensures
        r == range_bound(word),
{
    match parse_i64(word.as_str()) {
        Some(v) => LitOrRef::Lit(v),
        None => LitOrRef::Ref(word),
    }
}

fn const_value_of(word: String) -> (r: LitOrRef<LiteralValue>)
    ensures
        r == const_value(word),
{
    if text_eq_ignore_ascii_case(word.as_str(), "TRUE") {
        LitOrRef::Lit(LiteralValue::Boolean(true))
    } else if text_eq_ignore_ascii_case(word.as_str(), "FALSE") {
        LitOrRef::Lit(LiteralValue::Boolean(false))
    } else {
        match parse_i64(word.as_str()) {
            Some(v) => LitOrRef::Lit(LiteralValue::Integer(v)),
            None => LitOrRef::Ref(word),
        }
    }
}

fn read_interval(tokens: &mut PeekableTokens) -> (r: Result<Bounds<String>, Error>)
    ensures
        final(tokens)@ == old(tokens)@,
        0 <= old(tokens).consumed() <= final(tokens).consumed() <= old(tokens)@.len(),
        (r, final(tokens).consumed()) == parse_interval(old(tokens)@, old(tokens).consumed()),
{
    tokens.next_separator_eq_or_err('(')?;
    let lower = tokens.next_text_or_err()?;
    tokens.next_separator_eq_or_err('.')?;
    tokens.next_separator_eq_or_err('.')?;
    let upper = tokens.next_text_or_err()?;
    tokens.next_separator_eq_or_err(')')?;
    Ok(Bounds { lower, upper })
}

fn read_opt_range(tokens: &mut PeekableTokens) -> (r: Result<Option<Bounds<LitOrRef<i64>>>, Error>)
    ensures
        final(tokens)@ == old(tokens)@,
        0 <= old(tokens).consumed() <= final(tokens).consumed() <= old(tokens)@.len(),
        (r, final(tokens).consumed()) == parse_opt_range(old(tokens)@, old(tokens).consumed()),
{
    if tokens.next_is_separator_and_eq('(') {
        let words = read_interval(tokens)?;
        Ok(Some(Bounds { lower: range_bound_of(words.lower), upper: range_bound_of(words.upper) }))
    } else {
        Ok(None)
    }
}

fn read_opt_size(tokens: &mut PeekableTokens) -> (r: Result<Option<Bounds<LitOrRef<usize>>>, Error>)
    ensures
        final(tokens)@ == old(tokens)@,
        0 <= old(tokens).consumed() <= final(tokens).consumed() <= old(tokens)@.len(),
        (r, final(tokens).consumed()) == parse_opt_size(old(tokens)@, old(tokens).consumed()),
{
    if tokens.next_if_separator_and_eq('(').is_some() {
        tokens.next_text_eq_ignore_case_or_err("SIZE")?;
        let words = read_interval(tokens)?;
        tokens.next_separator_eq_or_err(')')?;
        Ok(Some(Bounds { lower: size_bound_of(words.lower), upper: size_bound_of(words.upper) }))
    } else {
        Ok(None)
    }
}

fn read_plain_type(tokens: &mut PeekableTokens, word: String) -> (r: Result<Type<Unresolved>, Error>)
    ensures
        final(tokens)@ == old(tokens)@,
        0 <= old(tokens).consumed() <= final(tokens).consumed() <= old(tokens)@.len(),
        (r, final(tokens).consumed()) == parse_plain_type(
            old(tokens)@,
            old(tokens).consumed(),
            word,
        ),
{
    if text_eq_ignore_ascii_case(word.as_str(), "BOOLEAN") {
        proof {
            tokens.lemma_consumed_in_bounds();
        }
        Ok(Type::Boolean)
    } else if text_eq_ignore_ascii_case(word.as_str(), "NULL") {
        proof {
            tokens.lemma_consumed_in_bounds();
        }
        Ok(Type::Null)
    } else if text_eq_ignore_ascii_case(word.as_str(), "INTEGER") {
        Ok(Type::Integer(read_opt_range(tokens)?))
    } else if text_eq_ignore_ascii_case(word.as_str(), "UTF8String") {
        Ok(Type::Utf8String(read_opt_size(tokens)?))
    } else if text_eq_ignore_ascii_case(word.as_str(), "OCTET") {
        tokens.next_text_eq_ignore_case_or_err("STRING")?;
        Ok(Type::OctetString(read_opt_size(tokens)?))
    } else {
        proof {
            tokens.lemma_consumed_in_bounds();
        }
        Ok(Type::TypeReference(word))
    }
}

impl Type<Unresolved> {
    /// Reads the type that begins with the word `word`, which the caller has
    /// consumed already, and what may follow the type: `OPTIONAL`, or
    /// `DEFAULT` and a constant.
    pub fn read_role_given_text(tokens: &mut PeekableTokens, word: String) -> (r: Result<
        Type<Unresolved>,
        Error,
    >)
        ensures
            final(tokens)@ == old(tokens)@,
            0 <= old(tokens).consumed() <= final(tokens).consumed() <= old(tokens)@.len(),
            (r, final(tokens).consumed()) == parse_type(old(tokens)@, old(tokens).consumed(), word),
    {
        let plain = read_plain_type(tokens, word)?;
        if tokens.next_is_text_and_eq_ignore_case("OPTIONAL") {
            let _ = tokens.next();
            Ok(Type::Optional(Box::new(plain)))
        } else if tokens.next_is_text_and_eq_ignore_case("DEFAULT") {
            let _ = tokens.next();
            let value = tokens.next_text_or_err()?;
            Ok(Type::Default(Box::new(plain), const_value_of(value)))
        } else {
            Ok(plain)
        }
    }
}

} // verus!
