//! A small reader for modules that hold `SEQUENCE` and `SEQUENCE OF`
//! definitions with boolean, integer and named fields.

use crate::parser::{ascii_fold, eq_ignore_ascii_case, i64_literal, parse_i64};
use crate::parser::{char_eq_ignore_ascii_case, text_eq_ignore_ascii_case, Token, TokenView};
use crate::schema::tokens::PeekableTokens;
use vstd::prelude::*;

verus! {

/// Why a module could not be read.
#[derive(Debug)]
pub enum Error {
    /// The first word was required, and the second one was found.
    ExpectedTextGot(String, String),
    /// The first character was required, and the second one was found.
    ExpectedSeparatorGot(char, char),
    UnexpectedToken(Token),
    MissingModuleName,
    UnexpectedEndOfStream,
    InvalidRangeValue,
}

/// An error with its words as plain text.
pub enum ErrorView {
    ExpectedTextGot(Seq<char>, Seq<char>),
    ExpectedSeparatorGot(char, char),
    UnexpectedToken(Token),
    MissingModuleName,
    UnexpectedEndOfStream,
    InvalidRangeValue,
}

impl View for Error {
    type V = ErrorView;

    open spec fn view(&self) -> ErrorView {
        match self {
            Error::ExpectedTextGot(expected, got) => ErrorView::ExpectedTextGot(expected@, got@),
            Error::ExpectedSeparatorGot(expected, got) => ErrorView::ExpectedSeparatorGot(
                *expected,
                *got,
            ),
            Error::UnexpectedToken(token) => ErrorView::UnexpectedToken(*token),
            Error::MissingModuleName => ErrorView::MissingModuleName,
            Error::UnexpectedEndOfStream => ErrorView::UnexpectedEndOfStream,
            Error::InvalidRangeValue => ErrorView::InvalidRangeValue,
        }
    }
}

/// What a field holds.
#[derive(Debug, PartialEq)]
pub enum Role {
    Boolean,
    /// An integer, with the first and the last value of its range.
    Integer(Option<(i64, i64)>),
    /// A value of the type of this name.
    Custom(String),
}

/// One field of a sequence.
#[derive(Debug, PartialEq)]
pub struct Field {
    pub name: String,
    pub role: Role,
    pub optional: bool,
}

/// A type that a module defines.
#[derive(Debug, PartialEq)]
pub enum Definition {
    SequenceOf(String, Role),
    Sequence(String, Vec<Field>),
}

/// A definition with its fields as a sequence.
pub enum DefinitionView {
    SequenceOf(String, Role),
    Sequence(String, Seq<Field>),
}

impl View for Definition {
    type V = DefinitionView;

    open spec fn view(&self) -> DefinitionView {
        match self {
            Definition::SequenceOf(name, role) => DefinitionView::SequenceOf(*name, *role),
            Definition::Sequence(name, fields) => DefinitionView::Sequence(*name, fields@),
        }
    }
}

/// The names that a module takes from another one.
#[derive(Debug, PartialEq)]
pub struct Import {
    pub what: Vec<String>,
    pub from: String,
}

/// An import with its names as a sequence.
pub struct ImportView {
    pub what: Seq<String>,
    pub from: String,
}

impl View for Import {
    type V = ImportView;

    open spec fn view(&self) -> ImportView {
        ImportView { what: self.what@, from: self.from }
    }
}

/// A module: its name, its imports and its definitions, in the order of the
/// text.
#[derive(Debug, PartialEq)]
pub struct Model {
    pub name: String,
    pub imports: Vec<Import>,
    pub definitions: Vec<Definition>,
}

impl Default for Import {
    /// An import of nothing, from a module without a name.
    fn default() -> (r: Self)
        ensures
            r.what@.len() == 0,
            r.from@.len() == 0,
    {
        Import { what: Vec::new(), from: String::new() }
    }
}

impl Default for Model {
    /// A module without a name, without imports and without definitions.
    fn default() -> (r: Self)
        ensures
            r.name@.len() == 0,
            r.imports@.len() == 0,
            r.definitions@.len() == 0,
    {
        Model { name: String::new(), imports: Vec::new(), definitions: Vec::new() }
    }
}

/// A module with its imports and definitions as sequences.
pub struct ModelView {
    pub name: String,
    pub imports: Seq<ImportView>,
    pub definitions: Seq<DefinitionView>,
}

/// The views of the imports in `imports`, in their order.
pub open spec fn import_views(imports: Seq<Import>) -> Seq<ImportView> {
    Seq::new(imports.len(), |i: int| imports[i]@)
}

/// The views of the definitions in `definitions`, in their order.
pub open spec fn definition_views(definitions: Seq<Definition>) -> Seq<DefinitionView> {
    Seq::new(definitions.len(), |i: int| definitions[i]@)
}

impl View for Model {
    type V = ModelView;

    open spec fn view(&self) -> ModelView {
        ModelView {
            name: self.name,
            imports: import_views(self.imports@),
            definitions: definition_views(self.definitions@),
        }
    }
}

/// What a step of the reader gives: its result, and the number of tokens
/// consumed once it is done.
pub type Read<T> = (Result<T, ErrorView>, int);

/// Whether a step that returned `r` and left `consumed` tokens consumed did
/// what `want` says.
pub open spec fn done<T>(r: Result<T, Error>, consumed: int, want: Read<T>) -> bool {
    consumed == want.1 && match want.0 {
        Ok(v) => r == Ok::<T, Error>(v),
        Err(e) => r matches Err(x) && x@ == e,
    }
}

/// Taking the token at `at`, which has to be a word.
pub open spec fn text_at(ts: Seq<Token>, at: int) -> Read<String> {
    if 0 <= at < ts.len() {
        match ts[at] {
            Token::Text(text) => (Ok(text), at + 1),
            Token::Separator(_) => (Err(ErrorView::UnexpectedToken(ts[at])), at + 1),
        }
    } else {
        (Err(ErrorView::UnexpectedEndOfStream), at)
    }
}

/// Taking the token at `at`, which has to be a punctuation character.
pub open spec fn separator_at(ts: Seq<Token>, at: int) -> Read<char> {
    if 0 <= at < ts.len() {
        match ts[at] {
            Token::Separator(c) => (Ok(c), at + 1),
            Token::Text(_) => (Err(ErrorView::UnexpectedToken(ts[at])), at + 1),
        }
    } else {
        (Err(ErrorView::UnexpectedEndOfStream), at)
    }
}

/// Taking the token at `at`, which has to be the word `word`, in any case.
pub open spec fn word_at(ts: Seq<Token>, at: int, word: Seq<char>) -> Read<()> {
    match text_at(ts, at) {
        (Err(e), p) => (Err(e), p),
        (Ok(text), p) => if eq_ignore_ascii_case(word, text@) {
            (Ok(()), p)
        } else {
            (Err(ErrorView::ExpectedTextGot(word, text@)), p)
        },
    }
}

/// Taking the token at `at`, which has to be the character `c`; a letter may
/// differ in case.
pub open spec fn char_at(ts: Seq<Token>, at: int, c: char) -> Read<()> {
    match separator_at(ts, at) {
        (Err(e), p) => (Err(e), p),
        (Ok(got), p) => if ascii_fold(got) == ascii_fold(c) {
            (Ok(()), p)
        } else {
            (Err(ErrorView::ExpectedSeparatorGot(c, got)), p)
        },
    }
}

/// The position after the first token from `at` on that is the same as
/// `token`.
pub open spec fn skip_after_at(ts: Seq<Token>, at: int, token: TokenView) -> Read<()>
    decreases ts.len() - at,
{
    if 0 <= at < ts.len() {
        if ts[at]@ == token {
            (Ok(()), at + 1)
        } else {
            skip_after_at(ts, at + 1, token)
        }
    } else {
        (Err(ErrorView::UnexpectedEndOfStream), at)
    }
}

/// The last value of a range as its word spells it: `MAX` in any case is the
/// largest value there is.
pub open spec fn range_end(word: Seq<char>) -> Option<i64> {
    if eq_ignore_ascii_case(word, "MAX"@) {
        Some(i64::MAX)
    } else {
        i64_literal(word)
    }
}

/// The role that the tokens from `at` on spell: `INTEGER ( first .. last )`,
/// `BOOLEAN`, or the name of another type. The keywords count in any case.
pub open spec fn role_at(ts: Seq<Token>, at: int) -> Read<Role> {
    match text_at(ts, at) {
        (Err(e), p) => (Err(e), p),
        (Ok(text), p) => if eq_ignore_ascii_case(text@, "INTEGER"@) {
            match char_at(ts, p, '(') {
                (Err(e), p) => (Err(e), p),
                (Ok(_), p) => match text_at(ts, p) {
                    (Err(e), p) => (Err(e), p),
                    (Ok(start), p) => match char_at(ts, p, '.') {
                        (Err(e), p) => (Err(e), p),
                        (Ok(_), p) => match char_at(ts, p, '.') {
                            (Err(e), p) => (Err(e), p),
                            (Ok(_), p) => match text_at(ts, p) {
                                (Err(e), p) => (Err(e), p),
                                (Ok(end), p) => match char_at(ts, p, ')') {
                                    (Err(e), p) => (Err(e), p),
                                    (Ok(_), p) => match (i64_literal(start@), range_end(end@)) {
                                        (Some(first), Some(last)) => (
                                            Ok(Role::Integer(Some((first, last)))),
                                            p,
                                        ),
                                        _ => (Err(ErrorView::InvalidRangeValue), p),
                                    },
                                },
                            },
                        },
                    },
                },
            }
        } else if eq_ignore_ascii_case(text@, "BOOLEAN"@) {
            (Ok(Role::Boolean), p)
        } else {
            (Ok(Role::Custom(text)), p)
        },
    }
}

/// Whether a field is followed by `,` and another field (`true`) or by `}`
/// (`false`), told by the token at `at`.
pub open spec fn field_end_at(ts: Seq<Token>, at: int) -> Read<bool> {
    if 0 <= at < ts.len() {
        if ts[at] == Token::Separator(',') {
            (Ok(true), at + 1)
        } else if ts[at] == Token::Separator('}') {
            (Ok(false), at + 1)
        } else {
            (Err(ErrorView::UnexpectedToken(ts[at])), at + 1)
        }
    } else {
        (Err(ErrorView::UnexpectedEndOfStream), at)
    }
}

/// One field, read from `at` on: its name, its role, a word after the role
/// that marks it optional, and whether another field follows.
#[verifier::opaque]
pub open spec fn field_at(ts: Seq<Token>, at: int) -> Read<(Field, bool)> {
    match text_at(ts, at) {
        (Err(e), p) => (Err(e), p),
        (Ok(name), p) => match role_at(ts, p) {
            (Err(e), p) => (Err(e), p),
            (Ok(role), p) => if 0 <= p < ts.len() {
                let optional = ts[p] is Text;
                match field_end_at(
                    ts,
                    if optional {
                        p + 1
                    } else {
                        p
                    },
                ) {
                    (Err(e), p) => (Err(e), p),
                    (Ok(continues), p) => (Ok((Field { name, role, optional }, continues)), p),
                }
            } else {
                (Err(ErrorView::UnexpectedEndOfStream), p)
            },
        },
    }
}

/// The fields from `at` on, after those in `found`, up to the closing brace.
pub open spec fn fields_at(ts: Seq<Token>, at: int, found: Seq<Field>) -> Read<Seq<Field>>
    decreases ts.len() - at,
{
    match field_at(ts, at) {
        (Err(e), p) => (Err(e), p),
        (Ok((field, continues)), p) => if continues && at < p <= ts.len() {
            fields_at(ts, p, found.push(field))
        } else {
            (Ok(found.push(field)), p)
        },
    }
}

/// The definition of the type `name`, read from `at` on: `::=`, `SEQUENCE`,
/// and then `OF` and a role, or the fields in braces.
pub open spec fn definition_at(ts: Seq<Token>, at: int, name: String) -> Read<DefinitionView> {
    match char_at(ts, at, ':') {
        (Err(e), p) => (Err(e), p),
        (Ok(_), p) => match char_at(ts, p, ':') {
            (Err(e), p) => (Err(e), p),
            (Ok(_), p) => match char_at(ts, p, '=') {
                (Err(e), p) => (Err(e), p),
                (Ok(_), p) => match word_at(ts, p, "SEQUENCE"@) {
                    (Err(e), p) => (Err(e), p),
                    (Ok(_), p) => if 0 <= p < ts.len() {
                        match ts[p] {
                            Token::Text(of) => if eq_ignore_ascii_case(of@, "OF"@) {
                                match role_at(ts, p + 1) {
                                    (Err(e), p) => (Err(e), p),
                                    (Ok(role), p) => (Ok(DefinitionView::SequenceOf(name, role)), p),
                                }
                            } else {
                                (Err(ErrorView::UnexpectedToken(ts[p])), p + 1)
                            },
                            Token::Separator(c) => if c == '{' {
                                match fields_at(ts, p + 1, Seq::empty()) {
                                    (Err(e), p) => (Err(e), p),
                                    (Ok(fields), p) => (
                                        Ok(DefinitionView::Sequence(name, fields)),
                                        p,
                                    ),
                                }
                            } else {
                                (Err(ErrorView::UnexpectedToken(ts[p])), p + 1)
                            },
                        }
                    } else {
                        (Err(ErrorView::UnexpectedEndOfStream), p)
                    },
                },
            },
        },
    }
}

/// The rest of an import, read from `at` on, after the names in `what`: more
/// names, each followed by `,` or by a word, and at last `FROM`, the name of
/// the module, and everything up to the next `;`.
pub open spec fn import_at(ts: Seq<Token>, at: int, what: Seq<String>) -> Read<ImportView>
    decreases ts.len() - at,
{
    match text_at(ts, at) {
        (Err(e), p) => (Err(e), p),
        (Ok(name), p) => if 0 <= p < ts.len() {
            match ts[p] {
                Token::Separator(c) => if c == ',' {
                    import_at(ts, p + 1, what.push(name))
                } else {
                    (Err(ErrorView::UnexpectedToken(ts[p])), p + 1)
                },
                Token::Text(word) => if eq_ignore_ascii_case(word@, "FROM"@) {
                    match text_at(ts, p + 1) {
                        (Err(e), q) => (Err(e), q),
                        (Ok(from), q) => match skip_after_at(ts, q, TokenView::Separator(';')) {
                            (Err(e), q) => (Err(e), q),
                            (Ok(_), q) => (Ok(ImportView { what: what.push(name), from }), q),
                        },
                    }
                } else {
                    import_at(ts, p + 1, what.push(name))
                },
            }
        } else {
            (Err(ErrorView::UnexpectedEndOfStream), p)
        },
    }
}

/// What remains of a module from `at` on, after the imports and definitions
/// found so far: more of them, each begun by `IMPORTS` or by the name of a
/// type, up to the word `END`. The keywords count in any case.
pub open spec fn items_at(
    ts: Seq<Token>,
    at: int,
    name: String,
    imports: Seq<ImportView>,
    definitions: Seq<DefinitionView>,
) -> Result<ModelView, ErrorView>
    decreases ts.len() - at,
{
    if 0 <= at < ts.len() {
        match ts[at] {
            Token::Separator(_) => Err(ErrorView::UnexpectedToken(ts[at])),
            Token::Text(text) => if eq_ignore_ascii_case(text@, "end"@) {
                Ok(ModelView { name, imports, definitions })
            } else if eq_ignore_ascii_case(text@, "imports"@) {
                match import_at(ts, at + 1, Seq::empty()) {
                    (Err(e), _) => Err(e),
                    (Ok(import), p) => if at < p <= ts.len() {
                        items_at(ts, p, name, imports.push(import), definitions)
                    } else {
                        Err(ErrorView::UnexpectedEndOfStream)
                    },
                }
            } else {
                match definition_at(ts, at + 1, text) {
                    (Err(e), _) => Err(e),
                    (Ok(definition), p) => if at < p <= ts.len() {
                        items_at(ts, p, name, imports, definitions.push(definition))
                    } else {
                        Err(ErrorView::UnexpectedEndOfStream)
                    },
                }
            },
        }
    } else {
        Err(ErrorView::UnexpectedEndOfStream)
    }
}

/// The module that the tokens spell: its name, everything up to the word
/// `BEGIN`, which is skipped, and its imports and definitions up to `END`.
pub open spec fn parse_model(ts: Seq<Token>) -> Result<ModelView, ErrorView> {
    if ts.len() > 0 && ts[0] is Text {
        match skip_after_at(ts, 1, TokenView::Text("BEGIN"@)) {
            (Err(e), _) => Err(e),
            (Ok(_), p) => items_at(ts, p, ts[0]->Text_0, Seq::empty(), Seq::empty()),
        }
    } else {
        Err(ErrorView::MissingModuleName)
    }
}

impl Model {
    /// Reads a module from its tokens. The first error ends the reading.
    pub fn try_from(value: Vec<Token>) -> (r: Result<Model, Error>)
        ensures
            match parse_model(value@) {
                Ok(model) => r matches Ok(m) && m@ == model,
                Err(e) => r matches Err(x) && x@ == e,
            },
    {
        let ghost ts = value@;
        let mut iter = PeekableTokens::new(value);
        let name = Self::read_name(&mut iter)?;
        Self::skip_after(&mut iter, &Token::Text("BEGIN".to_string()))?;
        let mut model = Model { name, imports: Vec::new(), definitions: Vec::new() };
        assert(import_views(model.imports@) =~= Seq::empty());
        assert(definition_views(model.definitions@) =~= Seq::empty());
        loop
            invariant
                ts == value@,
                iter@ == ts,
                0 <= iter.consumed() <= ts.len(),
                items_at(
                    ts,
                    iter.consumed(),
                    model.name,
                    import_views(model.imports@),
                    definition_views(model.definitions@),
                ) == parse_model(ts),
            decreases ts.len() - iter.consumed(),
        {
            let ghost at = iter.consumed();
            match iter.next() {
                None => {
                    return Err(Error::UnexpectedEndOfStream);
                },
                Some(token) => match token {
                    Token::Separator(c) => {
                        return Err(Error::UnexpectedToken(Token::Separator(c)));
                    },
                    Token::Text(text) => {
                        if text_eq_ignore_ascii_case(text.as_str(), "end") {
                            return Ok(model);
                        } else if text_eq_ignore_ascii_case(text.as_str(), "imports") {
                            let import = Self::read_imports(&mut iter)?;
                            assert(import_views(model.imports@.push(import)) =~= import_views(
                                model.imports@,
                            ).push(import@));
                            model.imports.push(import);
                        } else {
                            let definition = Self::read_definition(&mut iter, text)?;
                            assert(definition_views(model.definitions@.push(definition))
                                =~= definition_views(model.definitions@).push(definition@));
                            model.definitions.push(definition);
                        }
                    },
                },
            }
        }
    }

    fn read_name(iter: &mut PeekableTokens) -> (r: Result<String, Error>)
        requires
            old(iter).consumed() == 0,
        ensures
            final(iter)@ == old(iter)@,
            if old(iter)@.len() > 0 && old(iter)@[0] is Text {
                r == Ok::<String, Error>(old(iter)@[0]->Text_0) && final(iter).consumed() == 1
            } else {
                r matches Err(e) && e@ == ErrorView::MissingModuleName
            },
    {
        match iter.next() {
            Some(token) => match token {
                Token::Text(text) => Ok(text),
                Token::Separator(_) => Err(Error::MissingModuleName),
            },
            None => Err(Error::MissingModuleName),
        }
    }

    fn skip_after(iter: &mut PeekableTokens, token: &Token) -> (r: Result<(), Error>)
        ensures
            final(iter)@ == old(iter)@,
            0 <= old(iter).consumed() <= final(iter).consumed() <= old(iter)@.len(),
            done(r, final(iter).consumed(), skip_after_at(old(iter)@, old(iter).consumed(), token@)),
            r is Ok ==> old(iter).consumed() < final(iter).consumed(),
    {
        let ghost ts = iter@;
        let ghost start = iter.consumed();
        proof {
            iter.lemma_consumed_in_bounds();
        }
        loop
            invariant
                ts == old(iter)@,
                start == old(iter).consumed(),
                iter@ == ts,
                0 <= start <= iter.consumed() <= ts.len(),
                skip_after_at(ts, iter.consumed(), token@) == skip_after_at(ts, start, token@),
            decreases ts.len() - iter.consumed(),
        {
            match iter.next() {
                Some(t) => {
                    if t.same(token) {
                        return Ok(());
                    }
                },
                None => {
                    return Err(Error::UnexpectedEndOfStream);
                },
            }
        }
    }

    fn read_imports(iter: &mut PeekableTokens) -> (r: Result<Import, Error>)
        ensures
            final(iter)@ == old(iter)@,
            0 <= old(iter).consumed() <= final(iter).consumed() <= old(iter)@.len(),
            match import_at(old(iter)@, old(iter).consumed(), Seq::empty()) {
                (Ok(import), p) => r matches Ok(i) && i@ == import && final(iter).consumed() == p,
                (Err(e), p) => r matches Err(x) && x@ == e && final(iter).consumed() == p,
            },
            r is Ok ==> old(iter).consumed() < final(iter).consumed(),
    {
        let ghost ts = iter@;
        let ghost start = iter.consumed();
        let mut what: Vec<String> = Vec::new();
        proof {
            iter.lemma_consumed_in_bounds();
        }
        loop
            invariant
                ts == old(iter)@,
                start == old(iter).consumed(),
                iter@ == ts,
                0 <= start <= iter.consumed() <= ts.len(),
                import_at(ts, iter.consumed(), what@) == import_at(ts, start, Seq::empty()),
                what@.len() == 0 ==> iter.consumed() == start,
                what@.len() > 0 ==> iter.consumed() > start,
            decreases ts.len() - iter.consumed(),
        {
            let name = Self::next_text(iter)?;
            what.push(name);
            match iter.next() {
                None => {
                    return Err(Error::UnexpectedEndOfStream);
                },
                Some(token) => match token {
                    Token::Separator(c) => {
                        if c != ',' {
                            return Err(Error::UnexpectedToken(Token::Separator(c)));
                        }
                    },
                    Token::Text(word) => {
                        if text_eq_ignore_ascii_case(word.as_str(), "FROM") {
                            let from = Self::next_text(iter)?;
                            Self::skip_after(iter, &Token::Separator(';'))?;
                            return Ok(Import { what, from });
                        }
                    },
                },
            }
        }
    }

    fn read_definition(iter: &mut PeekableTokens, name: String) -> (r: Result<Definition, Error>)
        ensures
            final(iter)@ == old(iter)@,
            0 <= old(iter).consumed() <= final(iter).consumed() <= old(iter)@.len(),
            match definition_at(old(iter)@, old(iter).consumed(), name) {
                (Ok(definition), p) => r matches Ok(d) && d@ == definition && final(iter).consumed() == p,
                (Err(e), p) => r matches Err(x) && x@ == e && final(iter).consumed() == p,
            },
            r is Ok ==> old(iter).consumed() < final(iter).consumed(),
    {
        Self::next_separator_ignore_case(iter, ':')?;
        Self::next_separator_ignore_case(iter, ':')?;
        Self::next_separator_ignore_case(iter, '=')?;
        Self::next_text_ignore_case(iter, "SEQUENCE")?;
        match iter.next() {
            None => Err(Error::UnexpectedEndOfStream),
            Some(token) => match token {
                Token::Text(of) => {
                    if text_eq_ignore_ascii_case(of.as_str(), "OF") {
                        Ok(Definition::SequenceOf(name, Self::read_role(iter)?))
                    } else {
                        Err(Error::UnexpectedToken(Token::Text(of)))
                    }
                },
                Token::Separator(separator) => {
                    if separator == '{' {
                        Ok(Definition::Sequence(name, Self::read_fields(iter)?))
                    } else {
                        Err(Error::UnexpectedToken(Token::Separator(separator)))
                    }
                },
            },
        }
    }

    fn read_fields(iter: &mut PeekableTokens) -> (r: Result<Vec<Field>, Error>)
        ensures
            final(iter)@ == old(iter)@,
            0 <= old(iter).consumed() <= final(iter).consumed() <= old(iter)@.len(),
            match fields_at(old(iter)@, old(iter).consumed(), Seq::empty()) {
                (Ok(fields), p) => r matches Ok(f) && f@ == fields && final(iter).consumed() == p,
                (Err(e), p) => r matches Err(x) && x@ == e && final(iter).consumed() == p,
            },
    {
        let ghost ts = iter@;
        let ghost first = iter.consumed();
        let mut fields: Vec<Field> = Vec::new();
        proof {
            iter.lemma_consumed_in_bounds();
        }
        loop
            invariant
                ts == old(iter)@,
                first == old(iter).consumed(),
                iter@ == ts,
                0 <= first <= iter.consumed() <= ts.len(),
                fields_at(ts, iter.consumed(), fields@) == fields_at(ts, first, Seq::empty()),
            decreases ts.len() - iter.consumed(),
        {
            let (field, continues) = Self::read_field(iter)?;
            fields.push(field);
            if !continues {
                return Ok(fields);
            }
        }
    }

    fn read_role(iter: &mut PeekableTokens) -> (r: Result<Role, Error>)
        ensures
            final(iter)@ == old(iter)@,
            0 <= old(iter).consumed() <= final(iter).consumed() <= old(iter)@.len(),
            done(r, final(iter).consumed(), role_at(old(iter)@, old(iter).consumed())),
            r is Ok ==> old(iter).consumed() < final(iter).consumed(),
    {
        let text = Self::next_text(iter)?;
        if text_eq_ignore_ascii_case(text.as_str(), "INTEGER") {
            Self::next_separator_ignore_case(iter, '(')?;
            let start = Self::next_text(iter)?;
            Self::next_separator_ignore_case(iter, '.')?;
            Self::next_separator_ignore_case(iter, '.')?;
            let end = Self::next_text(iter)?;
            Self::next_separator_ignore_case(iter, ')')?;
            let first: i64 = match parse_i64(start.as_str()) {
                Some(v) => v,
                None => {
                    return Err(Error::InvalidRangeValue);
                },
            };
            let last: i64 = if text_eq_ignore_ascii_case(end.as_str(), "MAX") {
                i64::MAX
            } else {
                match parse_i64(end.as_str()) {
                    Some(v) => v,
                    None => {
                        return Err(Error::InvalidRangeValue);
                    },
                }
            };
            Ok(Role::Integer(Some((first, last))))
        } else if text_eq_ignore_ascii_case(text.as_str(), "BOOLEAN") {
            Ok(Role::Boolean)
        } else {
            Ok(Role::Custom(text))
        }
    }

    fn read_field(iter: &mut PeekableTokens) -> (r: Result<(Field, bool), Error>)
        ensures
            final(iter)@ == old(iter)@,
            0 <= old(iter).consumed() <= final(iter).consumed() <= old(iter)@.len(),
            done(r, final(iter).consumed(), field_at(old(iter)@, old(iter).consumed())),
            r is Ok ==> old(iter).consumed() < final(iter).consumed(),
    {
        reveal(field_at);
        let name = Self::next_text(iter)?;
        let role = Self::read_role(iter)?;
        let mut field = Field { name, role, optional: false };
        let mut token = match iter.next() {
            Some(token) => token,
            None => {
                return Err(Error::UnexpectedEndOfStream);
            },
        };
        if token.text().is_some() {
            field.optional = true;
            token = match iter.next() {
                Some(token) => token,
                None => {
                    return Err(Error::UnexpectedEndOfStream);
                },
            };
        }
        if token.eq_separator(',') {
            Ok((field, true))
        } else if token.eq_separator('}') {
            Ok((field, false))
        } else {
            Err(Error::UnexpectedToken(token))
        }
    }

    fn next_text(iter: &mut PeekableTokens) -> (r: Result<String, Error>)
        ensures
            final(iter)@ == old(iter)@,
            0 <= old(iter).consumed() <= final(iter).consumed() <= old(iter)@.len(),
            done(r, final(iter).consumed(), text_at(old(iter)@, old(iter).consumed())),
    {
        match iter.next() {
            None => Err(Error::UnexpectedEndOfStream),
            Some(token) => match token {
                Token::Text(text) => Ok(text),
                Token::Separator(c) => Err(Error::UnexpectedToken(Token::Separator(c))),
            },
        }
    }

    fn next_text_ignore_case(iter: &mut PeekableTokens, text: &str) -> (r: Result<(), Error>)
        ensures
            final(iter)@ == old(iter)@,
            0 <= old(iter).consumed() <= final(iter).consumed() <= old(iter)@.len(),
            done(r, final(iter).consumed(), word_at(old(iter)@, old(iter).consumed(), text@)),
    {
        let token = Self::next_text(iter)?;
        if text_eq_ignore_ascii_case(text, token.as_str()) {
            Ok(())
        } else {
            Err(Error::ExpectedTextGot(text.to_string(), token))
        }
    }

    fn next_seperator(iter: &mut PeekableTokens) -> (r: Result<char, Error>)
        ensures
            final(iter)@ == old(iter)@,
            0 <= old(iter).consumed() <= final(iter).consumed() <= old(iter)@.len(),
            done(r, final(iter).consumed(), separator_at(old(iter)@, old(iter).consumed())),
    {
        match iter.next() {
            None => Err(Error::UnexpectedEndOfStream),
            Some(token) => match token {
                Token::Separator(separator) => Ok(separator),
                Token::Text(text) => Err(Error::UnexpectedToken(Token::Text(text))),
            },
        }
    }

    fn next_separator_ignore_case(iter: &mut PeekableTokens, text: char) -> (r: Result<(), Error>)
        ensures
            final(iter)@ == old(iter)@,
            0 <= old(iter).consumed() <= final(iter).consumed() <= old(iter)@.len(),
            done(r, final(iter).consumed(), char_at(old(iter)@, old(iter).consumed(), text)),
    {
        let token = Self::next_seperator(iter)?;
        if char_eq_ignore_ascii_case(token, text) {
            Ok(())
        } else {
            Err(Error::ExpectedSeparatorGot(text, token))
        }
    }
}

} // verus!
