//! A cursor over tokens that looks one token ahead.

use crate::parser::{eq_ignore_ascii_case, Token};
use crate::schema::err::Error;
use vstd::prelude::*;

verus! {

/// What a parse step gives: its result, and the number of tokens consumed once
/// it is done.
pub type Step<T> = (Result<T, Error>, int);

/// Taking the token at `at`.
pub open spec fn expect_token(ts: Seq<Token>, at: int) -> Step<Token> {
    if 0 <= at < ts.len() {
        (Ok(ts[at]), at + 1)
    } else {
        (Err(Error::UnexpectedEndOfStream), at)
    }
}

/// Taking the token at `at`, which has to be a word.
pub open spec fn expect_text(ts: Seq<Token>, at: int) -> Step<String> {
    if 0 <= at < ts.len() {
        match ts[at] {
            Token::Text(t) => (Ok(t), at + 1),
            Token::Separator(_) => (Err(Error::ExpectedText(ts[at])), at + 1),
        }
    } else {
        (Err(Error::UnexpectedEndOfStream), at)
    }
}

/// Taking the token at `at`, which has to be the character `separator`.
pub open spec fn expect_separator(ts: Seq<Token>, at: int, separator: char) -> Step<()> {
    if 0 <= at < ts.len() {
        if ts[at] == Token::Separator(separator) {
            (Ok(()), at + 1)
        } else {
            (Err(Error::ExpectedSeparatorGot(separator, ts[at])), at + 1)
        }
    } else {
        (Err(Error::UnexpectedEndOfStream), at)
    }
}

/// Whether the token at `at` is the character `separator`.
pub open spec fn is_separator_at(ts: Seq<Token>, at: int, separator: char) -> bool {
    0 <= at < ts.len() && ts[at] == Token::Separator(separator)
}

/// Whether the token at `at` is the word `keyword`, in any case.
pub open spec fn is_keyword_at(ts: Seq<Token>, at: int, keyword: Seq<char>) -> bool {
    0 <= at < ts.len() && (ts[at].text_of() matches Some(t) && eq_ignore_ascii_case(t, keyword))
}

/// Taking the token at `at`, which has to be the word `keyword`, in any case.
pub open spec fn expect_keyword(ts: Seq<Token>, at: int, keyword: Seq<char>) -> Step<()> {
    if 0 <= at < ts.len() {
        if is_keyword_at(ts, at, keyword) {
            (Ok(()), at + 1)
        } else {
            (Err(Error::UnexpectedToken(ts[at])), at + 1)
        }
    } else {
        (Err(Error::UnexpectedEndOfStream), at)
    }
}

/// The tokens of one text, and how many of them have been consumed.
pub struct PeekableTokens {
    tokens: Vec<Token>,
    position: usize,
}

impl PeekableTokens {
    #[verifier::type_invariant]
    spec fn in_bounds(self) -> bool {
        self.position <= self.tokens@.len()
    }

    /// All the tokens, consumed or not.
    pub closed spec fn view(&self) -> Seq<Token> {
        self.tokens@
    }

    /// The number of tokens consumed so far.
    pub closed spec fn consumed(&self) -> int {
        if self.position <= self.tokens@.len() {
            self.position as int
        } else {
            self.tokens@.len() as int
        }
    }

    /// The consumed tokens are among the tokens.
    pub proof fn lemma_consumed_in_bounds(&self)
        ensures
            0 <= self.consumed() <= self@.len(),
    {
    }

    pub fn new(tokens: Vec<Token>) -> (r: Self)
        ensures
            r@ == tokens@,
            r.consumed() == 0,
    {
        PeekableTokens { tokens, position: 0 }
    }

    /// The number of tokens consumed so far.
    pub fn position(&self) -> (r: usize)
        ensures
            r == self.consumed(),
            r <= self@.len(),
    {
        proof {
            use_type_invariant(self);
        }
        self.position
    }

    /// The next token, which stays where it is.
    pub fn peek(&self) -> (r: Option<&Token>)
        ensures
            0 <= self.consumed() <= self@.len(),
            match r {
                Some(t) => self.consumed() < self@.len() && *t == self@[self.consumed()],
                None => self.consumed() == self@.len(),
            },
    {
        proof {
            use_type_invariant(self);
        }
        if self.position < self.tokens.len() {
            Some(&self.tokens[self.position])
        } else {
            None
        }
    }

    /// Consumes the next token.
    pub fn next(&mut self) -> (r: Option<Token>)
        ensures
            final(self)@ == old(self)@,
            0 <= old(self).consumed() <= old(self)@.len(),
            match r {
                Some(t) => old(self).consumed() < old(self)@.len() && t == old(self)@[old(
                    self,
                ).consumed()] && final(self).consumed() == old(self).consumed() + 1,
                None => old(self).consumed() == old(self)@.len() && final(self).consumed() == old(
                    self,
                ).consumed(),
            },
    {
        proof {
            use_type_invariant(&*self);
        }
        if self.position < self.tokens.len() {
            let token = self.tokens[self.position].clone();
            self.position = self.position + 1;
            Some(token)
        } else {
            None
        }
    }

    /// Consumes the next token; the end of the tokens is an error.
    pub fn next_or_err(&mut self) -> (r: Result<Token, Error>)
        ensures
            final(self)@ == old(self)@,
            0 <= old(self).consumed() <= final(self).consumed() <= old(self)@.len(),
            (r, final(self).consumed()) == expect_token(old(self)@, old(self).consumed()),
    {
        match self.next() {
            Some(token) => Ok(token),
            None => Err(Error::UnexpectedEndOfStream),
        }
    }

    /// Consumes the next token and hands out its word; a token without one is
    /// an error, and so is the end of the tokens.
    pub fn next_text_or_err(&mut self) -> (r: Result<String, Error>)
        ensures
            final(self)@ == old(self)@,
            0 <= old(self).consumed() <= final(self).consumed() <= old(self)@.len(),
            (r, final(self).consumed()) == expect_text(old(self)@, old(self).consumed()),
    {
        match self.next() {
            Some(token) => match token {
                Token::Text(text) => Ok(text),
                Token::Separator(c) => Err(Error::ExpectedText(Token::Separator(c))),
            },
            None => Err(Error::UnexpectedEndOfStream),
        }
    }

    /// Consumes the next token, which has to be the character `separator`.
    pub fn next_separator_eq_or_err(&mut self, separator: char) -> (r: Result<(), Error>)
        ensures
            final(self)@ == old(self)@,
            0 <= old(self).consumed() <= final(self).consumed() <= old(self)@.len(),
            (r, final(self).consumed()) == expect_separator(
                old(self)@,
                old(self).consumed(),
                separator,
            ),
    {
        match self.next() {
            Some(token) => match token {
                Token::Separator(c) => if c == separator {
                    Ok(())
                } else {
                    Err(Error::ExpectedSeparatorGot(separator, Token::Separator(c)))
                },
                Token::Text(t) => Err(Error::ExpectedSeparatorGot(separator, Token::Text(t))),
            },
            None => Err(Error::UnexpectedEndOfStream),
        }
    }

    /// Whether the next token is the character `separator`. Nothing is consumed.
    pub fn next_is_separator_and_eq(&self, separator: char) -> (r: bool)
        ensures
            0 <= self.consumed() <= self@.len(),
            r == is_separator_at(self@, self.consumed(), separator),
    {
        match self.peek() {
            Some(token) => token.eq_separator(separator),
            None => false,
        }
    }

    /// Consumes the next token if it is the character `separator`, and hands
    /// it out; otherwise nothing is consumed.
    pub fn next_if_separator_and_eq(&mut self, separator: char) -> (r: Option<Token>)
        ensures
            final(self)@ == old(self)@,
            0 <= old(self).consumed() <= final(self).consumed() <= old(self)@.len(),
            match r {
                Some(t) => is_separator_at(old(self)@, old(self).consumed(), separator) && t
                    == Token::Separator(separator) && final(self).consumed() == old(
                    self,
                ).consumed() + 1,
                None => !is_separator_at(old(self)@, old(self).consumed(), separator)
                    && final(self).consumed() == old(self).consumed(),
            },
    {
        if self.next_is_separator_and_eq(separator) {
            self.next()
        } else {
            None
        }
    }

    /// Whether the next token is the word `keyword`, in any case. Nothing is
    /// consumed.
    pub fn next_is_text_and_eq_ignore_case(&self, keyword: &str) -> (r: bool)
        ensures
            0 <= self.consumed() <= self@.len(),
            r == is_keyword_at(self@, self.consumed(), keyword@),
    {
        match self.peek() {
            Some(token) => token.eq_text_ignore_ascii_case(keyword),
            None => false,
        }
    }

    /// Consumes the next token, which has to be the word `keyword`, in any
    /// case.
    pub fn next_text_eq_ignore_case_or_err(&mut self, keyword: &str) -> (r: Result<(), Error>)
        ensures
            final(self)@ == old(self)@,
            0 <= old(self).consumed() <= final(self).consumed() <= old(self)@.len(),
            (r, final(self).consumed()) == expect_keyword(
                old(self)@,
                old(self).consumed(),
                keyword@,
            ),
    {
        match self.next() {
            Some(token) => if token.eq_text_ignore_ascii_case(keyword) {
                Ok(())
            } else {
                Err(Error::UnexpectedToken(token))
            },
            None => Err(Error::UnexpectedEndOfStream),
        }
    }
}

} // verus!
