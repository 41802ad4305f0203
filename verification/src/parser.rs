//! Tokens of ASN.1 module text, and the literals that a text token can spell.

use vstd::prelude::*;
use vstd::string::StrSliceExecFns;

verus! {

/// One token of the module text: a word, or a single punctuation character.
#[derive(Debug, PartialEq)]
pub enum Token {
    Text(String),
    Separator(char),
}

/// A token with its word as plain text.
pub enum TokenView {
    Text(Seq<char>),
    Separator(char),
}

impl View for Token {
    type V = TokenView;

    open spec fn view(&self) -> TokenView {
        match self {
            Token::Text(t) => TokenView::Text(t@),
            Token::Separator(c) => TokenView::Separator(*c),
        }
    }
}

/// The letter `c` with an ASCII capital replaced by its small letter.
pub open spec fn ascii_fold(c: char) -> char {
    if 'A' <= c && c <= 'Z' {
        ((c as u32) + 32) as char
    } else {
        c
    }
}

/// Equality of two texts up to the case of their ASCII letters.
pub open spec fn eq_ignore_ascii_case(a: Seq<char>, b: Seq<char>) -> bool {
    a.len() == b.len() && forall|i: int| 0 <= i < a.len() ==> ascii_fold(#[trigger] a[i]) == ascii_fold(b[i])
}

fn fold_code(c: char) -> (r: u32)
    ensures
        r == ascii_fold(c) as u32,
        ascii_fold(c) as u32 as char == ascii_fold(c),
{
    let code: u32 = c as u32;
    if 'A' <= c && c <= 'Z' {
        code + 32
    } else {
        code
    }
}

/// Compares two characters up to the case of an ASCII letter.
pub fn char_eq_ignore_ascii_case(a: char, b: char) -> (r: bool)
    ensures
        r == (ascii_fold(a) == ascii_fold(b)),
{
    fold_code(a) == fold_code(b)
}

/// Compares two texts up to the case of their ASCII letters.
pub fn text_eq_ignore_ascii_case(a: &str, b: &str) -> (r: bool)
    ensures
        r == eq_ignore_ascii_case(a@, b@),
{
    let n: usize = a.unicode_len();
    if n != b.unicode_len() {
        return false;
    }
    let mut i: usize = 0;
    while i < n
        invariant
            i <= n,
            n == a@.len(),
            n == b@.len(),
            forall|j: int| 0 <= j < i ==> ascii_fold(#[trigger] a@[j]) == ascii_fold(b@[j]),
        decreases n - i,
    {
        let x: u32 = fold_code(a.get_char(i));
        let y: u32 = fold_code(b.get_char(i));
        if x != y {
            return false;
        }
        i += 1;
    }
    true
}

impl Token {
    /// The text that the token carries, if it is a word.
    pub open spec fn text_of(self) -> Option<Seq<char>> {
        match self {
            Token::Text(t) => Some(t@),
            Token::Separator(_) => None,
        }
    }

    /// The punctuation character that the token carries, if it is one.
    pub open spec fn separator_of(self) -> Option<char> {
        match self {
            Token::Text(_) => None,
            Token::Separator(c) => Some(c),
        }
    }

    pub fn text(&self) -> (r: Option<&str>)
        ensures
            match r {
                Some(t) => self.text_of() == Some(t@),
                None => self.text_of().is_none(),
            },
    {
        match self {
            Token::Text(t) => Some(t.as_str()),
            Token::Separator(_) => None,
        }
    }

    pub fn separator(&self) -> (r: Option<char>)
        ensures
            r == self.separator_of(),
    {
        match self {
            Token::Text(_) => None,
            Token::Separator(c) => Some(*c),
        }
    }

    pub fn eq_text_ignore_ascii_case(&self, text: &str) -> (r: bool)
        ensures
            r == (self.text_of() matches Some(t) && eq_ignore_ascii_case(t, text@)),
    {
        match self {
            Token::Text(t) => text_eq_ignore_ascii_case(t.as_str(), text),
            Token::Separator(_) => false,
        }
    }

    pub fn eq_separator(&self, separator: char) -> (r: bool)
        ensures
            r == (self.separator_of() == Some(separator)),
    {
        match self {
            Token::Text(_) => false,
            Token::Separator(c) => *c == separator,
        }
    }

    /// Whether the two tokens are words of the same text, or the same
    /// character.
    pub fn same(&self, other: &Token) -> (r: bool)
        ensures
            r == (self@ == other@),
    {
        match self {
            Token::Text(a) => match other {
                Token::Text(b) => *a == *b,
                Token::Separator(_) => false,
            },
            Token::Separator(a) => match other {
                Token::Text(_) => false,
                Token::Separator(b) => *a == *b,
            },
        }
    }

    /// The word of a text token; the token itself comes back where it has none.
    pub fn into_text(self) -> (r: Result<String, Token>)
        ensures
            match r {
                Ok(t) => self == Token::Text(t),
                Err(other) => other == self && self is Separator,
            },
    {
        match self {
            Token::Text(t) => Ok(t),
            Token::Separator(c) => Err(Token::Separator(c)),
        }
    }
}

impl Clone for Token {
    fn clone(&self) -> (r: Self)
        ensures
            r == *self,
    {
        match self {
            Token::Text(t) => Token::Text(t.clone()),
            Token::Separator(c) => Token::Separator(*c),
        }
    }
}

/// Whether `c` is one of the ten decimal digits.
pub open spec fn is_digit(c: char) -> bool {
    '0' <= c && c <= '9'
}

/// The number that the digit `c` stands for.
pub open spec fn digit_value(c: char) -> nat {
    (c as u32 - '0' as u32) as nat
}

/// Whether `s` is made of decimal digits, and of at least one.
pub open spec fn is_digits(s: Seq<char>) -> bool {
    s.len() > 0 && forall|i: int| 0 <= i < s.len() ==> is_digit(#[trigger] s[i])
}

/// The number that a row of decimal digits spells, most significant digit first.
pub open spec fn decimal_value(s: Seq<char>) -> nat
    decreases s.len(),
{
    if s.len() == 0 {
        0
    } else {
        decimal_value(s.drop_last()) * 10 + digit_value(s.last())
    }
}

/// The number that `s` spells as an unsigned literal: decimal digits, which a
/// single `+` may precede. `None` where `s` has another shape.
pub open spec fn unsigned_literal(s: Seq<char>) -> Option<nat> {
    let digits = if s.len() > 0 && s[0] == '+' {
        s.drop_first()
    } else {
        s
    };
    if is_digits(digits) {
        Some(decimal_value(digits))
    } else {
        None
    }
}

/// The number that `s` spells as a signed literal: an unsigned literal, or `-`
/// and decimal digits. `None` where `s` has another shape.
pub open spec fn signed_literal(s: Seq<char>) -> Option<int> {
    if s.len() > 0 && s[0] == '-' {
        if is_digits(s.drop_first()) {
            Some(-(decimal_value(s.drop_first()) as int))
        } else {
            None
        }
    } else {
        match unsigned_literal(s) {
            Some(v) => Some(v as int),
            None => None,
        }
    }
}

/// What `s` spells as a `usize`: its unsigned literal, where that fits.
pub open spec fn usize_literal(s: Seq<char>) -> Option<usize> {
    match unsigned_literal(s) {
        Some(v) if v <= usize::MAX => Some(v as usize),
        _ => None,
    }
}

/// What `s` spells as an `i64`: its signed literal, where that fits.
pub open spec fn i64_literal(s: Seq<char>) -> Option<i64> {
    match signed_literal(s) {
        Some(v) if i64::MIN <= v <= i64::MAX => Some(v as i64),
        _ => None,
    }
}

/// A longer row of digits spells no smaller a number than its beginning.
pub proof fn lemma_decimal_value_prefix(s: Seq<char>, i: int)
    requires
        0 <= i <= s.len(),
    ensures
        decimal_value(s.take(i)) <= decimal_value(s),
    decreases s.len(),
{
    if i < s.len() {
        lemma_decimal_value_prefix(s.drop_last(), i);
        assert(s.drop_last().take(i) =~= s.take(i));
    } else {
        assert(s.take(i) =~= s);
    }
}

/// Reads the digits of `s` from position `from` on, as far as their number
/// stays at or below `limit`.
fn read_digits(s: &str, from: usize, limit: u64) -> (r: Option<u64>)
    requires
        from <= s@.len(),
    ensures
        match r {
            Some(v) => is_digits(s@.skip(from as int)) && v == decimal_value(s@.skip(from as int))
                && v <= limit,
            None => !is_digits(s@.skip(from as int)) || decimal_value(s@.skip(from as int))
                > limit,
        },
{
    let n: usize = s.unicode_len();
    let ghost digits = s@.skip(from as int);
    if from == n {
        return None;
    }
    let mut value: u64 = 0;
    let mut i: usize = from;
    while i < n
        invariant
            from <= i <= n,
            n == s@.len(),
            digits == s@.skip(from as int),
            forall|j: int| 0 <= j < i - from ==> is_digit(#[trigger] digits[j]),
            value == decimal_value(digits.take(i - from)),
            value <= limit,
        decreases n - i,
    {
        let c: char = s.get_char(i);
        assert(digits[i - from] == c);
        if !('0' <= c && c <= '9') {
            return None;
        }
        let d: u64 = (c as u32 - '0' as u32) as u64;
        proof {
            assert(digits.take(i - from + 1).drop_last() =~= digits.take(i - from));
            assert(digits.take(i - from + 1).last() == c);
            lemma_decimal_value_prefix(digits, i - from + 1);
        }
        if d > limit || value > (limit - d) / 10 {
            return None;
        }
        value = value * 10 + d;
        i += 1;
    }
    assert(digits.take(n - from) =~= digits);
    Some(value)
}

/// Reads `text` as a `usize`, as `str::parse` does: decimal digits, which a
/// single `+` may precede.
pub fn parse_usize(text: &str) -> (r: Option<usize>)
    ensures
        r == usize_literal(text@),
{
    let n: usize = text.unicode_len();
    let from: usize = if n > 0 && text.get_char(0) == '+' {
        1
    } else {
        0
    };
    assert(text@.skip(1) =~= text@.drop_first());
    assert(text@.skip(0) =~= text@);
    match read_digits(text, from, usize::MAX as u64) {
        Some(v) => Some(v as usize),
        None => None,
    }
}

/// Reads `text` as an `i64`, as `str::parse` does: decimal digits, which a
/// single `+` or `-` may precede.
pub fn parse_i64(text: &str) -> (r: Option<i64>)
    ensures
        r == i64_literal(text@),
{
    let n: usize = text.unicode_len();
    assert(text@.skip(1) =~= text@.drop_first());
    assert(text@.skip(0) =~= text@);
    if n > 0 && text.get_char(0) == '-' {
        match read_digits(text, 1, 0x8000_0000_0000_0000u64) {
            Some(v) => if v == 0x8000_0000_0000_0000u64 {
                Some(i64::MIN)
            } else {
                Some(-(v as i64))
            },
            None => None,
        }
    } else {
        let from: usize = if n > 0 && text.get_char(0) == '+' {
            1
        } else {
            0
        };
        match read_digits(text, from, 0x7fff_ffff_ffff_ffffu64) {
            Some(v) => Some(v as i64),
            None => None,
        }
    }
}

} // verus!
