//! What can go wrong while tokens are read into the schema model.

use crate::parser::Token;
use vstd::prelude::*;
use vstd::string::StringExecFns;

verus! {

/// A syntax error. Each one ends the parse it occurs in.
#[derive(Debug, Clone, PartialEq)]
pub enum Error {
    /// The tokens ended where one more was required.
    UnexpectedEndOfStream,
    /// A word was required, and this token is none.
    ExpectedText(Token),
    /// The first character was required, and the token is something else.
    ExpectedSeparatorGot(char, Token),
    /// The token fits nothing that may stand at its place.
    UnexpectedToken(Token),
    /// The token stands where a tag's number belongs and spells none.
    InvalidTag(Token),
    /// The extension marker that begins with this token stands before the
    /// first variant, or is the second one.
    InvalidPositionForExtensionMarker(Token),
}

impl Error {
    /// A short description of the error, for a person to read.
    pub open spec fn description(self) -> Seq<char> {
        match self {
            Error::UnexpectedEndOfStream => "unexpected end of stream"@,
            Error::ExpectedText(_) => "expected text"@,
            Error::ExpectedSeparatorGot(_, _) => "expected another separator"@,
            Error::UnexpectedToken(_) => "unexpected token"@,
            Error::InvalidTag(_) => "invalid tag"@,
            Error::InvalidPositionForExtensionMarker(_) => "invalid position for extension marker"@,
        }
    }

    /// The token that the error is about, where it is about one.
    pub open spec fn token_of(self) -> Option<Token> {
        match self {
            Error::UnexpectedEndOfStream => None,
            Error::ExpectedText(token) => Some(token),
            Error::ExpectedSeparatorGot(_, token) => Some(token),
            Error::UnexpectedToken(token) => Some(token),
            Error::InvalidTag(token) => Some(token),
            Error::InvalidPositionForExtensionMarker(token) => Some(token),
        }
    }

    /// The token that the error is about, where it is about one.
    pub fn token(&self) -> (r: Option<&Token>)
        ensures
            match r {
                Some(token) => self.token_of() == Some(*token),
                None => self.token_of().is_none(),
            },
    {
        match self {
            Error::UnexpectedEndOfStream => None,
            Error::ExpectedText(token) => Some(token),
            Error::ExpectedSeparatorGot(_, token) => Some(token),
            Error::UnexpectedToken(token) => Some(token),
            Error::InvalidTag(token) => Some(token),
            Error::InvalidPositionForExtensionMarker(token) => Some(token),
        }
    }

    /// A short description of the error, for a person to read.
    pub fn to_string(&self) -> (r: String)
        ensures
            r@ == self.description(),
    {
        match self {
            Error::UnexpectedEndOfStream => String::from_str("unexpected end of stream"),
            Error::ExpectedText(_) => String::from_str("expected text"),
            Error::ExpectedSeparatorGot(_, _) => String::from_str("expected another separator"),
            Error::UnexpectedToken(_) => String::from_str("unexpected token"),
            Error::InvalidTag(_) => String::from_str("invalid tag"),
            Error::InvalidPositionForExtensionMarker(_) => String::from_str(
                "invalid position for extension marker",
            ),
        }
    }
}

} // verus!
