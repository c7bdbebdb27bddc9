//! The token model shared by the two input grammars: the configuration-option
//! list handed to the attribute, and the annotated item itself.

use vstd::prelude::*;
use crate::text::str_eq;

verus! {

/// Delimiter of a group token.
#[derive(Clone, Copy, PartialEq, Eq, Structural, Debug)]
pub enum TokenDelimiter {
    Parenthesis,
    Bracket,
    Brace,
}

/// One token of an input sequence.
///
/// Identifiers and literals carry their text; punctuation carries its
/// character; a group carries its delimiter and the tokens inside it.
#[derive(Debug)]
pub enum Token {
    Ident(String),
    Punct(char),
    Literal(String),
    Group(TokenDelimiter, Vec<Token>),
}

impl Token {
    /// The token is an identifier whose text is `name`.
    pub open spec fn is_ident_named(&self, name: Seq<char>) -> bool {
        self matches Token::Ident(s) && s@ == name
    }

    /// The token is the punctuation character `c`.
    pub open spec fn is_punct_char(&self, c: char) -> bool {
        self matches Token::Punct(p) && p == c
    }
}

/// Text of an identifier token; the empty sequence for any other token.
pub open spec fn ident_text(t: Token) -> Seq<char> {
    match t {
        Token::Ident(s) => s@,
        _ => Seq::empty(),
    }
}

/// Tests whether `t` is an identifier whose text equals `name`.
pub fn token_is_ident_str(t: &Token, name: &str) -> (r: bool)
    ensures
        r == t.is_ident_named(name@),
{
    match t {
        Token::Ident(s) => str_eq(s.as_str(), name),
        _ => false,
    }
}

/// Tests whether `t` is the punctuation character `c`.
pub fn token_is_punct(t: &Token, c: char) -> (r: bool)
    ensures
        r == t.is_punct_char(c),
{
    match t {
        Token::Punct(p) => *p == c,
        _ => false,
    }
}

} // verus!
