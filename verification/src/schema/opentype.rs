//! Open types: a value whose type is one of a set of variants, picked by a
//! value that stands elsewhere.

use crate::parser::Token;
use crate::schema::err::Error;
use crate::schema::lor::{Error as ResolveError, ResolveState, Resolved, Resolver, Unresolved};
use crate::schema::tag::{parse_tag, Tag, TagProperty};
use crate::schema::tokens::{expect_separator, expect_text, expect_token};
use crate::schema::tokens::{is_separator_at, PeekableTokens, Step};
use crate::schema::types::{parse_type, resolved_type, Type};
use vstd::prelude::*;
use vstd::std_specs::convert::FromSpecImpl;

verus! {

/// One alternative of an open type.
///
/// The key is the index by which a reader picks the variant. Neither parsing
/// nor resolution sets it.
#[derive(Debug, PartialEq)]
pub struct OpenTypeVariant<RS: ResolveState = Resolved> {
    pub name: String,
    pub tag: Option<Tag>,
    pub ty: Type<RS>,
    pub key: Option<usize>,
}

/// The variants of an open type in the order of their declaration, and the
/// index of the last variant that stands before the extension marker, where
/// there is a marker.
#[derive(Debug, PartialEq)]
pub struct OpenType<RS: ResolveState = Resolved> {
    variants: Vec<OpenTypeVariant<RS>>,
    extension_after: Option<usize>,
}

impl<RS: ResolveState> OpenTypeVariant<RS> {
    /// A variant of the given name and type, without a tag and without a key.
    pub fn name_type(name: String, ty: Type<RS>) -> (r: Self)
        ensures
            r == (OpenTypeVariant { name, tag: None, ty, key: None }),
    {
        OpenTypeVariant { name, tag: None, ty, key: None }
    }

    pub fn name(&self) -> (r: &str)
        ensures
            r@ == self.name@,
    {
        self.name.as_str()
    }

    pub fn ty(&self) -> (r: &Type<RS>)
        ensures
            *r == self.ty,
    {
        &self.ty
    }
}

impl<RS: ResolveState> TagProperty for OpenTypeVariant<RS> {
    open spec fn tag_of(&self) -> Option<Tag> {
        self.tag
    }

    open spec fn same_but_tag(&self, other: &Self) -> bool {
        self.name == other.name && self.ty == other.ty && self.key == other.key
    }

    fn tag(&self) -> (t: Option<Tag>) {
        self.tag
    }

    fn set_tag(&mut self, tag: Tag) {
        self.tag = Some(tag)
    }

    fn reset_tag(&mut self) {
        self.tag = None
    }
}

/// The resolved shape of a variant: its type resolved, its name and tag as
/// they were, no key.
pub open spec fn resolved_variant<R: Resolver>(
    variant: OpenTypeVariant<Unresolved>,
    resolver: &R,
) -> Result<OpenTypeVariant<Resolved>, ResolveError> {
    match resolved_type(variant.ty, resolver) {
        Ok(ty) => Ok(OpenTypeVariant { name: variant.name, tag: variant.tag, ty, key: None }),
        Err(e) => Err(e),
    }
}

/// The resolved shapes of the first `n` variants, in their order; where one
/// of them cannot be resolved, the error of the first such variant.
pub open spec fn resolved_variants<R: Resolver>(
    variants: Seq<OpenTypeVariant<Unresolved>>,
    n: int,
    resolver: &R,
) -> Result<Seq<OpenTypeVariant<Resolved>>, ResolveError>
    decreases n,
{
    if n <= 0 {
        Ok(Seq::empty())
    } else {
        match resolved_variants(variants, n - 1, resolver) {
            Err(e) => Err(e),
            Ok(before) => match resolved_variant(variants[n - 1], resolver) {
                Ok(variant) => Ok(before.push(variant)),
                Err(e) => Err(e),
            },
        }
    }
}

/// Resolution keeps number and order: the result holds the resolved shape of
/// each variant at the variant's index. It fails as a whole: the error is
/// that of a variant before which every variant can be resolved.
pub proof fn lemma_resolution_keeps_order<R: Resolver>(
    variants: Seq<OpenTypeVariant<Unresolved>>,
    n: int,
    resolver: &R,
)
    requires
        0 <= n <= variants.len(),
    ensures
        match resolved_variants(variants, n, resolver) {
            Ok(resolved) => {
                &&& resolved.len() == n
                &&& forall|i: int|
                    0 <= i < n ==> resolved_variant(#[trigger] variants[i], resolver) == Ok::<
                        OpenTypeVariant<Resolved>,
                        ResolveError,
                    >(resolved[i])
            },
            Err(e) => exists|k: int|
                {
                    &&& 0 <= k < n
                    &&& #[trigger] resolved_variant(variants[k], resolver) == Err::<
                        OpenTypeVariant<Resolved>,
                        ResolveError,
                    >(e)
                    &&& forall|j: int|
                        0 <= j < k ==> (#[trigger] resolved_variant(variants[j], resolver)) is Ok
                },
        },
    decreases n,
{
    if n > 0 {
        lemma_resolution_keeps_order(variants, n - 1, resolver);
    }
}

/// Once a variant cannot be resolved, no later variant changes the error.
pub proof fn lemma_resolution_stays_failed<R: Resolver>(
    variants: Seq<OpenTypeVariant<Unresolved>>,
    k: int,
    n: int,
    resolver: &R,
)
    requires
        0 <= k <= n,
        resolved_variants(variants, k, resolver) is Err,
    ensures
        resolved_variants(variants, n, resolver) == resolved_variants(variants, k, resolver),
    decreases n - k,
{
    if k < n {
        lemma_resolution_stays_failed(variants, k, n - 1, resolver);
    }
}

/// Resolution is a function of the variants and of what the resolver knows:
/// two resolvers that agree on every variant give the same result.
pub proof fn lemma_resolution_is_determined<R: Resolver, S: Resolver>(
    variants: Seq<OpenTypeVariant<Unresolved>>,
    n: int,
    first: &R,
    second: &S,
)
    requires
        0 <= n <= variants.len(),
        forall|i: int|
            0 <= i < n ==> resolved_variant(#[trigger] variants[i], first) == resolved_variant(
                variants[i],
                second,
            ),
    ensures
        resolved_variants(variants, n, first) == resolved_variants(variants, n, second),
    decreases n,
{
    if n > 0 {
        lemma_resolution_is_determined(variants, n - 1, first, second);
    }
}

impl OpenTypeVariant<Unresolved> {
    /// Resolves the variant's type. Name and tag are carried over.
    pub fn try_resolve<R: Resolver>(&self, resolver: &R) -> (r: Result<
        OpenTypeVariant<Resolved>,
        ResolveError,
    >)
        ensures
            r == resolved_variant(*self, resolver),
            r matches Ok(v) ==> v.ty.is_linked(),
    {
        match self.ty.try_resolve(resolver) {
            Ok(ty) => Ok(OpenTypeVariant { name: self.name.clone(), tag: self.tag, ty, key: None }),
            Err(e) => Err(e),
        }
    }
}

impl<RS: ResolveState> OpenType<RS> {
    /// The variants in the order of their declaration.
    pub closed spec fn view(&self) -> Seq<OpenTypeVariant<RS>> {
        self.variants@
    }

    /// The index of the last variant before the extension marker, where the
    /// open type has a marker.
    pub closed spec fn extension_of(&self) -> Option<usize> {
        self.extension_after
    }

    /// Whether the extension marker, where there is one, follows a variant.
    pub open spec fn wf(&self) -> bool {
        self.extension_of() matches Some(index) ==> index < self@.len()
    }

    /// The open type of the given variants, without an extension marker.
    pub fn from_variants(variants: Vec<OpenTypeVariant<RS>>) -> (r: Self)
        ensures
            r@ == variants@,
            r.extension_of().is_none(),
            r.wf(),
    {
        OpenType { variants, extension_after: None }
    }

    pub fn with_extension_after(self, extension_after: usize) -> (r: Self)
        ensures
            r@ == self@,
            r.extension_of() == Some(extension_after),
    {
        let mut open_type = self;
        open_type.extension_after = Some(extension_after);
        open_type
    }

    pub fn with_maybe_extension_after(self, extension_after: Option<usize>) -> (r: Self)
        ensures
            r@ == self@,
            r.extension_of() == extension_after,
    {
        let mut open_type = self;
        open_type.extension_after = extension_after;
        open_type
    }

    pub fn len(&self) -> (r: usize)
        ensures
            r == self@.len(),
    {
        self.variants.len()
    }

    pub fn is_empty(&self) -> (r: bool)
        ensures
            r == (self@.len() == 0),
    {
        self.variants.len() == 0
    }

    pub fn variants(&self) -> (r: &Vec<OpenTypeVariant<RS>>)
        ensures
            r@ == self@,
    {
        &self.variants
    }

    pub fn is_extensible(&self) -> (r: bool)
        ensures
            r == self.extension_of().is_some(),
    {
        self.extension_after.is_some()
    }

    pub fn extension_after_index(&self) -> (r: Option<usize>)
        ensures
            r == self.extension_of(),
    {
        self.extension_after
    }
}

impl<RS: ResolveState> From<Vec<OpenTypeVariant<RS>>> for OpenType<RS> {
    /// The open type of the given variants, without an extension marker.
    fn from(variants: Vec<OpenTypeVariant<RS>>) -> (r: Self)
        ensures
            r@ == variants@,
            r.extension_of().is_none(),
            r.wf(),
    {
        OpenType { variants, extension_after: None }
    }
}

impl<RS: ResolveState> FromSpecImpl<Vec<OpenTypeVariant<RS>>> for OpenType<RS> {
    open spec fn obeys_from_spec() -> bool {
        true
    }

    closed spec fn from_spec(variants: Vec<OpenTypeVariant<RS>>) -> Self {
        OpenType { variants, extension_after: None }
    }
}

/// The token that begins a type and the tag in square brackets that may stand
/// before it, read from `at` on.
pub open spec fn parse_with_opt_tag(ts: Seq<Token>, at: int) -> Step<(Token, Option<Tag>)> {
    match expect_token(ts, at) {
        (Err(e), p) => (Err(e), p),
        (Ok(first), p) => if first == Token::Separator('[') {
            match parse_tag(ts, p) {
                (Err(e), p) => (Err(e), p),
                (Ok(tag), p) => match expect_separator(ts, p, ']') {
                    (Err(e), p) => (Err(e), p),
                    (Ok(_), p) => match expect_token(ts, p) {
                        (Err(e), p) => (Err(e), p),
                        (Ok(token), p) => (Ok((token, Some(tag))), p),
                    },
                },
            }
        } else {
            (Ok((first, None)), p)
        },
    }
}

/// One variant, read from `at` on: its name, the tag that may follow, and its
/// type.
#[verifier::opaque]
pub open spec fn parse_variant(ts: Seq<Token>, at: int) -> Step<OpenTypeVariant<Unresolved>> {
    match expect_text(ts, at) {
        (Err(e), p) => (Err(e), p),
        (Ok(name), p) => match parse_with_opt_tag(ts, p) {
            (Err(e), p) => (Err(e), p),
            (Ok((token, tag)), p) => match token {
                Token::Text(word) => match parse_type(ts, p, word) {
                    (Err(e), p) => (Err(e), p),
                    (Ok(ty), p) => (Ok(OpenTypeVariant { name, tag, ty, key: None }), p),
                },
                Token::Separator(_) => (Err(Error::ExpectedText(token)), p),
            },
        },
    }
}

/// What the braces of an open type hold: the variants, and the index of the
/// last variant before the extension marker.
pub type Members = (Seq<OpenTypeVariant<Unresolved>>, Option<usize>);

/// What follows a member, read from `at` on: `,` and the members after it, or
/// the closing brace. The member began at `before`, which lies before `at`,
/// as a member holds a token at least.
pub open spec fn parse_after_member(ts: Seq<Token>, at: int, before: int, found: Members) -> Step<
    Members,
>
    decreases ts.len() - before, 0int,
{
    if 0 <= at < ts.len() {
        if ts[at] == Token::Separator(',') {
            if before < at {
                parse_members(ts, at + 1, found)
            } else {
                (Err(Error::UnexpectedToken(ts[at])), at + 1)
            }
        } else if ts[at] == Token::Separator('}') {
            (Ok(found), at + 1)
        } else {
            (Err(Error::UnexpectedToken(ts[at])), at + 1)
        }
    } else {
        (Err(Error::UnexpectedEndOfStream), at)
    }
}

/// The members from `at` on, after those in `found`. A member is a variant or
/// the extension marker `...`; the marker is accepted once, and not before
/// the first variant.
pub open spec fn parse_members(ts: Seq<Token>, at: int, found: Members) -> Step<Members>
    decreases ts.len() - at, 1int,
{
    if is_separator_at(ts, at, '.') {
        if found.0.len() == 0 || found.1.is_some() {
            (Err(Error::InvalidPositionForExtensionMarker(ts[at])), at + 1)
        } else {
            match expect_separator(ts, at + 1, '.') {
                (Err(e), p) => (Err(e), p),
                (Ok(_), p) => match expect_separator(ts, p, '.') {
                    (Err(e), p) => (Err(e), p),
                    (Ok(_), p) => parse_after_member(
                        ts,
                        p,
                        at,
                        (found.0, Some((found.0.len() - 1) as usize)),
                    ),
                },
            }
        }
    } else {
        match parse_variant(ts, at) {
            (Err(e), p) => (Err(e), p),
            (Ok(variant), p) => parse_after_member(ts, p, at, (found.0.push(variant), found.1)),
        }
    }
}

/// The open type that the tokens from `at` on spell: `{`, the members with
/// `,` between them, and `}`. Empty braces are an open type without variants.
pub open spec fn parse_open_type(ts: Seq<Token>, at: int) -> Step<Members> {
    match expect_separator(ts, at, '{') {
        (Err(e), p) => (Err(e), p),
        (Ok(_), p) => if is_separator_at(ts, p, '}') {
            (Ok((Seq::empty(), None)), p + 1)
        } else {
            parse_members(ts, p, (Seq::empty(), None))
        },
    }
}

/// Reads the token that begins a type, and before it the tag in square
/// brackets where there is one.
pub fn next_with_opt_tag(tokens: &mut PeekableTokens) -> (r: Result<(Token, Option<Tag>), Error>)
    ensures
        final(tokens)@ == old(tokens)@,
        0 <= old(tokens).consumed() <= final(tokens).consumed() <= old(tokens)@.len(),
        (r, final(tokens).consumed()) == parse_with_opt_tag(old(tokens)@, old(tokens).consumed()),
{
    let first = tokens.next_or_err()?;
    if first.eq_separator('[') {
        let tag = Tag::try_from(tokens)?;
        tokens.next_separator_eq_or_err(']')?;
        let token = tokens.next_or_err()?;
        Ok((token, Some(tag)))
    } else {
        Ok((first, None))
    }
}

fn read_variant(tokens: &mut PeekableTokens) -> (r: Result<OpenTypeVariant<Unresolved>, Error>)
    ensures
        final(tokens)@ == old(tokens)@,
        0 <= old(tokens).consumed() <= final(tokens).consumed() <= old(tokens)@.len(),
        (r, final(tokens).consumed()) == parse_variant(old(tokens)@, old(tokens).consumed()),
        r is Ok ==> old(tokens).consumed() < final(tokens).consumed(),
{
    reveal(parse_variant);
    let name = tokens.next_text_or_err()?;
    let (token, tag) = next_with_opt_tag(tokens)?;
    match token.into_text() {
        Ok(word) => {
            let ty = Type::read_role_given_text(tokens, word)?;
            Ok(OpenTypeVariant { name, tag, ty, key: None })
        },
        Err(token) => Err(Error::ExpectedText(token)),
    }
}

impl OpenType<Unresolved> {
    /// Reads an open type: `{`, its members with `,` between them, and `}`.
    ///
    /// A member is a variant (a name, a tag in square brackets where one is
    /// given, and a type) or the extension marker `...`. The marker is
    /// accepted once, and only after a variant. The first error ends the
    /// parse.
    pub fn try_from(tokens: &mut PeekableTokens) -> (r: Result<OpenType<Unresolved>, Error>)
        ensures
            final(tokens)@ == old(tokens)@,
            0 <= old(tokens).consumed() <= final(tokens).consumed() <= old(tokens)@.len(),
            match parse_open_type(old(tokens)@, old(tokens).consumed()) {
                (Ok(members), p) => r matches Ok(open_type) && open_type@ == members.0
                    && open_type.extension_of() == members.1 && open_type.wf() && final(tokens).consumed() == p,
                (Err(e), p) => r == Err::<OpenType<Unresolved>, Error>(e) && final(tokens).consumed() == p,
            },
    {
        let ghost ts = tokens@;
        let ghost start = tokens.consumed();
        tokens.next_separator_eq_or_err('{')?;
        let mut open_type = OpenType { variants: Vec::new(), extension_after: None };
        if tokens.next_if_separator_and_eq('}').is_some() {
            return Ok(open_type);
        }
        loop
            invariant
                ts == old(tokens)@,
                start == old(tokens).consumed(),
                tokens@ == ts,
                0 <= start <= tokens.consumed() <= ts.len(),
                parse_members(
                    ts,
                    tokens.consumed(),
                    (open_type.variants@, open_type.extension_after),
                ) == parse_open_type(ts, start),
                open_type.wf(),
            decreases ts.len() - tokens.consumed(),
        {
            let ghost at = tokens.consumed();
            match tokens.next_if_separator_and_eq('.') {
                Some(marker) => {
                    if open_type.variants.len() == 0 || open_type.extension_after.is_some() {
                        return Err(Error::InvalidPositionForExtensionMarker(marker));
                    }
                    tokens.next_separator_eq_or_err('.')?;
                    tokens.next_separator_eq_or_err('.')?;
                    open_type.extension_after = Some(open_type.variants.len() - 1);
                },
                None => {
                    let variant = read_variant(tokens)?;
                    open_type.variants.push(variant);
                },
            }
            assert(at < tokens.consumed());
            let token = tokens.next_or_err()?;
            if token.eq_separator('}') {
                return Ok(open_type);
            } else if !token.eq_separator(',') {
                return Err(Error::UnexpectedToken(token));
            }
        }
    }

    /// Resolves every variant, in the order of their declaration, and carries
    /// the extension marker over.
    ///
    /// The result is an open type of as many variants, each the resolved shape
    /// of the variant at its index. Where a variant cannot be resolved, the
    /// error of the first such variant is the result, and nothing else.
    pub fn try_resolve<R: Resolver>(&self, resolver: &R) -> (r: Result<
        OpenType<Resolved>,
        ResolveError,
    >)
        ensures
            match resolved_variants(self@, self@.len() as int, resolver) {
                Ok(variants) => r matches Ok(resolved) && resolved@ == variants
                    && resolved.extension_of() == self.extension_of(),
                Err(e) => r == Err::<OpenType<Resolved>, ResolveError>(e),
            },
            r matches Ok(resolved) ==> forall|i: int|
                0 <= i < resolved@.len() ==> (#[trigger] resolved@[i]).ty.is_linked(),
            r matches Ok(resolved) ==> (self.wf() ==> resolved.wf()),
    {
        let mut variants: Vec<OpenTypeVariant<Resolved>> = Vec::new();
        let mut i: usize = 0;
        while i < self.variants.len()
            invariant
                i <= self.variants@.len(),
                resolved_variants(self.variants@, i as int, resolver) == Ok::<
                    Seq<OpenTypeVariant<Resolved>>,
                    ResolveError,
                >(variants@),
                forall|j: int| 0 <= j < variants@.len() ==> (#[trigger] variants@[j]).ty.is_linked(),
            decreases self.variants@.len() - i,
        {
            match self.variants[i].try_resolve(resolver) {
                Ok(variant) => {
                    variants.push(variant);
                },
                Err(e) => {
                    proof {
                        lemma_resolution_stays_failed(
                            self.variants@,
                            i + 1,
                            self.variants@.len() as int,
                            resolver,
                        );
                    }
                    return Err(e);
                },
            }
            i += 1;
        }
        proof {
            lemma_resolution_keeps_order(self.variants@, self.variants@.len() as int, resolver);
        }
        Ok(OpenType { variants, extension_after: self.extension_after })
    }
}

/// Whether the extension marker of `members`, where there is one, follows a
/// variant.
pub open spec fn marker_in_range(members: Members) -> bool {
    members.1 matches Some(index) ==> index < members.0.len()
}

/// What follows a member keeps the marker behind a variant.
pub proof fn lemma_after_member_keeps_marker(ts: Seq<Token>, at: int, before: int, found: Members)
    requires
        marker_in_range(found),
    ensures
        parse_after_member(ts, at, before, found).0 matches Ok(members) ==> marker_in_range(
            members,
        ),
    decreases ts.len() - before, 0int,
{
    if 0 <= at < ts.len() && ts[at] == Token::Separator(',') && before < at {
        lemma_members_keep_marker(ts, at + 1, found);
    }
}

/// The members keep the marker behind a variant: the index that a parse
/// records is that of a variant of the result.
pub proof fn lemma_members_keep_marker(ts: Seq<Token>, at: int, found: Members)
    requires
        marker_in_range(found),
    ensures
        parse_members(ts, at, found).0 matches Ok(members) ==> marker_in_range(members),
    decreases ts.len() - at, 1int,
{
    if is_separator_at(ts, at, '.') {
        if !(found.0.len() == 0 || found.1.is_some()) {
            lemma_after_member_keeps_marker(
                ts,
                at + 3,
                at,
                (found.0, Some((found.0.len() - 1) as usize)),
            );
        }
    } else {
        match parse_variant(ts, at) {
            (Ok(variant), p) => {
                lemma_after_member_keeps_marker(ts, p, at, (found.0.push(variant), found.1));
            },
            _ => {},
        }
    }
}

/// In every open type that parses, the extension marker follows a variant.
pub proof fn lemma_parsed_marker_follows_variant(ts: Seq<Token>, at: int)
    ensures
        parse_open_type(ts, at).0 matches Ok(members) ==> marker_in_range(members),
{
    lemma_members_keep_marker(ts, at + 1, (Seq::empty(), None));
}

/// Empty braces are an open type without variants and without an extension
/// marker.
pub proof fn lemma_empty_braces(ts: Seq<Token>, at: int)
    requires
        is_separator_at(ts, at, '{'),
        is_separator_at(ts, at + 1, '}'),
    ensures
        parse_open_type(ts, at) == (Ok::<Members, Error>((Seq::empty(), None)), at + 2),
{
}

/// An extension marker that no variant precedes is refused, with the marker's
/// first token in the error, whatever follows it.
pub proof fn lemma_marker_needs_variant(ts: Seq<Token>, at: int)
    requires
        is_separator_at(ts, at, '{'),
        is_separator_at(ts, at + 1, '.'),
    ensures
        parse_open_type(ts, at) == (
            Err::<Members, Error>(Error::InvalidPositionForExtensionMarker(ts[at + 1])),
            at + 2,
        ),
{
}

/// A second extension marker is refused, with its first token in the error,
/// whatever came between the two and whatever follows.
pub proof fn lemma_marker_only_once(ts: Seq<Token>, at: int, found: Members)
    requires
        found.1.is_some(),
        is_separator_at(ts, at, '.'),
    ensures
        parse_members(ts, at, found) == (
            Err::<Members, Error>(Error::InvalidPositionForExtensionMarker(ts[at])),
            at + 1,
        ),
{
}

/// The first extension marker after a variant is recorded as the index of
/// that variant, the last one so far.
pub proof fn lemma_marker_records_last_variant(ts: Seq<Token>, at: int, found: Members)
    requires
        found.0.len() > 0,
        found.0.len() - 1 <= usize::MAX,
        found.1.is_none(),
        is_separator_at(ts, at, '.'),
        is_separator_at(ts, at + 1, '.'),
        is_separator_at(ts, at + 2, '.'),
    ensures
        parse_members(ts, at, found) == parse_after_member(
            ts,
            at + 3,
            at,
            (found.0, Some((found.0.len() - 1) as usize)),
        ),
{
}

} // verus!
