//! ASN.1 tags and their canonical order.

use crate::parser::{usize_literal, Token};
use crate::parser::{eq_ignore_ascii_case, parse_usize};
use crate::schema::err::Error;
use crate::schema::tokens::{PeekableTokens, Step};
use std::cmp::Ordering;
use vstd::prelude::*;
use vstd::seq_lib::{to_multiset_build, to_multiset_insert};
use vstd::std_specs::cmp::PartialOrdSpecImpl;

verus! {

/// A tag: one of four classes, and a number within the class.
///
/// Tags are ordered by class first, `Universal` before `Application` before
/// `ContextSpecific` before `Private`, and by number within a class.
#[derive(Debug, Clone, Copy, PartialEq, Eq, Structural, Ord, Hash)]
pub enum Tag {
    Universal(usize),
    Application(usize),
    ContextSpecific(usize),
    Private(usize),
}

impl Tag {
    /// The place of the tag's class among the four classes.
    pub open spec fn class_rank(self) -> int {
        match self {
            Tag::Universal(_) => 0,
            Tag::Application(_) => 1,
            Tag::ContextSpecific(_) => 2,
            Tag::Private(_) => 3,
        }
    }

    /// The tag's number within its class.
    pub open spec fn number_of(self) -> int {
        match self {
            Tag::Universal(n) => n as int,
            Tag::Application(n) => n as int,
            Tag::ContextSpecific(n) => n as int,
            Tag::Private(n) => n as int,
        }
    }

    /// The canonical order: `self` comes strictly before `other`.
    pub open spec fn precedes(self, other: Tag) -> bool {
        self.class_rank() < other.class_rank() || (self.class_rank() == other.class_rank()
            && self.number_of() < other.number_of())
    }

    /// Whether each tag of `tags` comes before or equals each later one.
    pub open spec fn ascending(tags: Seq<Tag>) -> bool {
        forall|i: int, j: int| 0 <= i < j < tags.len() ==> !(#[trigger] tags[j]).precedes(#[trigger] tags[i])
    }

    fn class_index(&self) -> (r: u8)
        ensures
            r == self.class_rank(),
    {
        match self {
            Tag::Universal(_) => 0,
            Tag::Application(_) => 1,
            Tag::ContextSpecific(_) => 2,
            Tag::Private(_) => 3,
        }
    }

    /// The tag's number within its class.
    pub fn number(&self) -> (r: usize)
        ensures
            r == self.number_of(),
    {
        match self {
            Tag::Universal(n) => *n,
            Tag::Application(n) => *n,
            Tag::ContextSpecific(n) => *n,
            Tag::Private(n) => *n,
        }
    }

    /// Whether `self` comes strictly before `other` in the canonical order.
    pub fn is_before(&self, other: &Tag) -> (r: bool)
        ensures
            r == self.precedes(*other),
    {
        let a: u8 = self.class_index();
        let b: u8 = other.class_index();
        a < b || (a == b && self.number() < other.number())
    }

    pub fn default_boolean() -> (t: Tag)
        ensures
            t == Tag::Universal(1),
    {
        Tag::Universal(1)
    }

    pub fn default_integer() -> (t: Tag)
        ensures
            t == Tag::Universal(2),
    {
        Tag::Universal(2)
    }

    pub fn default_bit_string() -> (t: Tag)
        ensures
            t == Tag::Universal(3),
    {
        Tag::Universal(3)
    }

    pub fn default_octet_string() -> (t: Tag)
        ensures
            t == Tag::Universal(4),
    {
        Tag::Universal(4)
    }

    pub fn default_enumerated() -> (t: Tag)
        ensures
            t == Tag::Universal(10),
    {
        Tag::Universal(10)
    }

    pub fn default_utf8_string() -> (t: Tag)
        ensures
            t == Tag::Universal(12),
    {
        Tag::Universal(12)
    }

    pub fn default_sequence() -> (t: Tag)
        ensures
            t == Tag::Universal(16),
    {
        Tag::Universal(16)
    }

    pub fn default_sequence_of() -> (t: Tag)
        ensures
            t == Tag::Universal(16),
    {
        Tag::Universal(16)
    }

    pub fn default_set() -> (t: Tag)
        ensures
            t == Tag::Universal(17),
    {
        Tag::Universal(17)
    }

    pub fn default_set_of() -> (t: Tag)
        ensures
            t == Tag::Universal(17),
    {
        Tag::Universal(17)
    }

    pub fn default_numeric_string() -> (t: Tag)
        ensures
            t == Tag::Universal(18),
    {
        Tag::Universal(18)
    }

    pub fn default_printable_string() -> (t: Tag)
        ensures
            t == Tag::Universal(19),
    {
        Tag::Universal(19)
    }

    pub fn default_teletext_string() -> (t: Tag)
        ensures
            t == Tag::Universal(20),
    {
        Tag::Universal(20)
    }

    pub fn default_videotext_string() -> (t: Tag)
        ensures
            t == Tag::Universal(21),
    {
        Tag::Universal(21)
    }

    pub fn default_ia5_string() -> (t: Tag)
        ensures
            t == Tag::Universal(22),
    {
        Tag::Universal(22)
    }

    pub fn default_graphic_string() -> (t: Tag)
        ensures
            t == Tag::Universal(25),
    {
        Tag::Universal(25)
    }

    pub fn default_visible_string() -> (t: Tag)
        ensures
            t == Tag::Universal(26),
    {
        Tag::Universal(26)
    }

    pub fn default_general_string() -> (t: Tag)
        ensures
            t == Tag::Universal(27),
    {
        Tag::Universal(27)
    }

    pub fn default_universal_string() -> (t: Tag)
        ensures
            t == Tag::Universal(28),
    {
        Tag::Universal(28)
    }

    pub fn default_bmp_string() -> (t: Tag)
        ensures
            t == Tag::Universal(30),
    {
        Tag::Universal(30)
    }
}

impl PartialOrd for Tag {
    fn partial_cmp(&self, other: &Self) -> (r: Option<Ordering>) {
        if self.is_before(other) {
            Some(Ordering::Less)
        } else if other.is_before(self) {
            Some(Ordering::Greater)
        } else {
            Some(Ordering::Equal)
        }
    }
}

impl PartialOrdSpecImpl for Tag {
    open spec fn obeys_partial_cmp_spec() -> bool {
        true
    }

    open spec fn partial_cmp_spec(&self, other: &Self) -> Option<Ordering> {
        if self.precedes(*other) {
            Some(Ordering::Less)
        } else if other.precedes(*self) {
            Some(Ordering::Greater)
        } else {
            Some(Ordering::Equal)
        }
    }
}

/// Of two tags exactly one holds: the first precedes the second, they are
/// equal, or the second precedes the first.
pub proof fn lemma_tag_order_total(a: Tag, b: Tag)
    ensures
        a.precedes(b) || a == b || b.precedes(a),
        !(a.precedes(b) && a == b),
        !(a.precedes(b) && b.precedes(a)),
        !(a == b && b.precedes(a)),
{
}

/// The canonical order is transitive.
pub proof fn lemma_tag_order_transitive(a: Tag, b: Tag, c: Tag)
    requires
        a.precedes(b),
        b.precedes(c),
    ensures
        a.precedes(c),
{
}

/// A tag of an earlier class precedes every tag of a later class, whatever
/// their numbers; within one class the smaller number precedes.
pub proof fn lemma_tag_order_class_major(a: Tag, b: Tag)
    ensures
        a.class_rank() < b.class_rank() ==> a.precedes(b),
        a.class_rank() == b.class_rank() ==> (a.precedes(b) <==> a.number_of() < b.number_of()),
        a.class_rank() > b.class_rank() ==> !a.precedes(b),
{
}

/// The number that a token spells where a tag's number belongs.
pub open spec fn tag_number_of(token: Token) -> Result<usize, Error> {
    match token.text_of() {
        Some(text) => match usize_literal(text) {
            Some(number) => Ok(number),
            None => Err(Error::InvalidTag(token)),
        },
        None => Err(Error::InvalidTag(token)),
    }
}

/// The tag of the class with the given rank and of the given number.
pub open spec fn tag_of_class(rank: int, number: usize) -> Tag {
    if rank == 0 {
        Tag::Universal(number)
    } else if rank == 1 {
        Tag::Application(number)
    } else if rank == 2 {
        Tag::ContextSpecific(number)
    } else {
        Tag::Private(number)
    }
}

/// The number that the token at `at` spells where a tag's number belongs.
pub open spec fn parse_number(ts: Seq<Token>, at: int) -> Step<usize> {
    if 0 <= at < ts.len() {
        (tag_number_of(ts[at]), at + 1)
    } else {
        (Err(Error::UnexpectedEndOfStream), at)
    }
}

/// The tag of the class with the given rank whose number was read as
/// `number`.
pub open spec fn in_class(rank: int, number: Step<usize>) -> Step<Tag> {
    match number {
        (Ok(n), p) => (Ok(tag_of_class(rank, n)), p),
        (Err(e), p) => (Err(e), p),
    }
}

/// The tag that the tokens from `at` on spell: `UNIVERSAL`, `APPLICATION` or
/// `PRIVATE` in any case and a number, or a number alone, which is a
/// context-specific tag.
pub open spec fn parse_tag(ts: Seq<Token>, at: int) -> Step<Tag> {
    if 0 <= at < ts.len() {
        match ts[at].text_of() {
            Some(word) => if eq_ignore_ascii_case(word, "UNIVERSAL"@) {
                in_class(0, parse_number(ts, at + 1))
            } else if eq_ignore_ascii_case(word, "APPLICATION"@) {
                in_class(1, parse_number(ts, at + 1))
            } else if eq_ignore_ascii_case(word, "PRIVATE"@) {
                in_class(3, parse_number(ts, at + 1))
            } else {
                in_class(2, parse_number(ts, at))
            },
            None => (Err(Error::InvalidTag(ts[at])), at + 1),
        }
    } else {
        (Err(Error::UnexpectedEndOfStream), at)
    }
}

fn number_of_token(token: Token) -> (r: Result<usize, Error>)
    ensures
        r == tag_number_of(token),
{
    let number = match token.text() {
        Some(text) => parse_usize(text),
        None => None,
    };
    match number {
        Some(number) => Ok(number),
        None => Err(Error::InvalidTag(token)),
    }
}

fn next_number(tokens: &mut PeekableTokens) -> (r: Result<usize, Error>)
    ensures
        final(tokens)@ == old(tokens)@,
        0 <= old(tokens).consumed() <= final(tokens).consumed() <= old(tokens)@.len(),
        (r, final(tokens).consumed()) == parse_number(old(tokens)@, old(tokens).consumed()),
{
    match tokens.next_or_err() {
        Ok(token) => number_of_token(token),
        Err(e) => Err(e),
    }
}

impl Tag {
    /// Reads one tag from the next one or two tokens.
    ///
    /// A first token without text, and a token that spells no number where the
    /// number belongs, are an invalid tag; each is handed back in the error.
    pub fn try_from(tokens: &mut PeekableTokens) -> (r: Result<Tag, Error>)
        ensures
            final(tokens)@ == old(tokens)@,
            0 <= old(tokens).consumed() <= final(tokens).consumed() <= old(tokens)@.len(),
            (r, final(tokens).consumed()) == parse_tag(old(tokens)@, old(tokens).consumed()),
    {
        let first = match tokens.next_or_err() {
            Ok(token) => token,
            Err(e) => {
                return Err(e);
            },
        };
        if first.eq_text_ignore_ascii_case("UNIVERSAL") {
            match next_number(tokens) {
                Ok(number) => Ok(Tag::Universal(number)),
                Err(e) => Err(e),
            }
        } else if first.eq_text_ignore_ascii_case("APPLICATION") {
            match next_number(tokens) {
                Ok(number) => Ok(Tag::Application(number)),
                Err(e) => Err(e),
            }
        } else if first.eq_text_ignore_ascii_case("PRIVATE") {
            match next_number(tokens) {
                Ok(number) => Ok(Tag::Private(number)),
                Err(e) => Err(e),
            }
        } else {
            match number_of_token(first) {
                Ok(number) => Ok(Tag::ContextSpecific(number)),
                Err(e) => Err(e),
            }
        }
    }
}

/// Puts the tags into the canonical order. Tags that are equal stay in the
/// order in which they came.
pub fn sort(tags: &mut Vec<Tag>)
    ensures
        Tag::ascending(final(tags)@),
        final(tags)@.to_multiset() == old(tags)@.to_multiset(),
{
    let mut sorted: Vec<Tag> = Vec::new();
    let mut i: usize = 0;
    assert(tags@.take(0) =~= sorted@);
    while i < tags.len()
        invariant
            tags@ == old(tags)@,
            i <= tags@.len(),
            Tag::ascending(sorted@),
            sorted@.to_multiset() == tags@.take(i as int).to_multiset(),
        decreases tags@.len() - i,
    {
        let tag: Tag = tags[i];
        let mut j: usize = 0;
        while j < sorted.len() && !tag.is_before(&sorted[j])
            invariant
                j <= sorted@.len(),
                forall|k: int| 0 <= k < j ==> !tag.precedes(#[trigger] sorted@[k]),
            decreases sorted@.len() - j,
        {
            j += 1;
        }
        let ghost before = sorted@;
        sorted.insert(j, tag);
        proof {
            to_multiset_insert(before, j as int, tag);
            to_multiset_build(tags@.take(i as int), tag);
            assert(tags@.take(i + 1) =~= tags@.take(i as int).push(tag));
            assert forall|a: int, b: int| 0 <= a < b < sorted@.len() implies !(#[trigger] sorted@[b]).precedes(
                #[trigger] sorted@[a],
            ) by {
                if b < j {
                    assert(sorted@[a] == before[a] && sorted@[b] == before[b]);
                } else if b == j {
                    assert(sorted@[a] == before[a]);
                } else if a < j {
                    assert(sorted@[a] == before[a] && sorted@[b] == before[b - 1]);
                } else if a == j {
                    assert(sorted@[b] == before[b - 1]);
                    assert(tag.precedes(before[j as int]));
                    assert(!before[b - 1].precedes(before[j as int]) || b - 1 == j);
                } else {
                    assert(sorted@[a] == before[a - 1] && sorted@[b] == before[b - 1]);
                }
            }
        }
        i += 1;
    }
    assert(tags@.take(tags@.len() as int) =~= tags@);
    *tags = sorted;
}

/// What can carry a tag of its own: the tag can be asked for, set and taken
/// away, in place or on the way to a new value.
pub trait TagProperty: Sized {
    /// The tag that the value carries.
    spec fn tag_of(&self) -> Option<Tag>;

    /// Whether `self` and `other` are the same in all but their tag.
    spec fn same_but_tag(&self, other: &Self) -> bool;

    fn tag(&self) -> (t: Option<Tag>)
        ensures
            t == self.tag_of(),
    ;

    fn set_tag(&mut self, tag: Tag)
        ensures
            final(self).tag_of() == Some(tag),
            final(self).same_but_tag(old(self)),
    ;

    fn reset_tag(&mut self)
        ensures
            final(self).tag_of().is_none(),
            final(self).same_but_tag(old(self)),
    ;

    fn with_tag_opt(self, tag: Option<Tag>) -> (r: Self)
        ensures
            r.tag_of() == tag,
            r.same_but_tag(&self),
    {
        match tag {
            Some(tag) => self.with_tag(tag),
            None => self.without_tag(),
        }
    }

    fn with_tag(self, tag: Tag) -> (r: Self)
        ensures
            r.tag_of() == Some(tag),
            r.same_but_tag(&self),
    {
        let mut tagged = self;
        tagged.set_tag(tag);
        tagged
    }

    fn without_tag(self) -> (r: Self)
        ensures
            r.tag_of().is_none(),
            r.same_but_tag(&self),
    {
        let mut untagged = self;
        untagged.reset_tag();
        untagged
    }
}

} // verus!
