//! Keywords: closed sets of identifiers, matched without regard to ASCII case.

use crate::cursor::{
    advance, advanced, current_location, location, peek, remaining, unmoved, Component, ErrorKind,
    Lexeme, ParseError, Token,
};
use crate::ascii::{eq_ignore_ascii_case, eq_ignore_case};
use vstd::prelude::*;

verus! {

/// A closed set of keywords, each with one lower-case spelling.
pub trait Keyword: Sized {
    /// The spelling of the keyword.
    spec fn name(self) -> Seq<char>;

    /// The keyword that `name` spells, up to ASCII case.
    spec fn from_name(name: Seq<char>) -> Option<Self>;

    /// The keyword that `ident` spells, up to ASCII case.
    fn from_ident(ident: &str) -> (k: Option<Self>)
        ensures
            k == Self::from_name(ident@),
    ;

    /// The spelling of the keyword.
    fn as_str(&self) -> (s: &'static str)
        ensures
            s@ == self.name(),
    ;

    /// Every keyword is read back from its own spelling.
    proof fn spelling_is_read_back(self)
        ensures
            Self::from_name(self.name()) == Some(self),
    ;
}

/// The keyword of `K` that the next component value is, if it is one.
pub open spec fn keyword_at<K: Keyword>(rest: Seq<Component>) -> Option<K> {
    if rest.len() > 0 {
        match rest[0].lexeme {
            Lexeme::Ident(name) => K::from_name(name),
            _ => None,
        }
    } else {
        None
    }
}

/// Whether the next component value is the identifier `keyword`, up to ASCII
/// case.
pub open spec fn is_ident(rest: Seq<Component>, keyword: Seq<char>) -> bool {
    &&& rest.len() > 0
    &&& rest[0].lexeme matches Lexeme::Ident(name)
    &&& eq_ignore_case(name, keyword)
}

/// A parse of one keyword of `K`: the keyword that the next component value
/// is, which is the one component taken.
pub open spec fn keyword_spec<K: Keyword>(rest: Seq<Component>) -> Option<(K, nat)> {
    match keyword_at::<K>(rest) {
        Some(k) => Some((k, 1)),
        None => None,
    }
}

/// Reads one keyword of `K` and moves past it. Where the next token is no
/// keyword of `K`, fails with `NoMatch` and leaves the cursor where it was.
pub fn parse_keyword<K: Keyword>(input: &mut cssparser::Parser) -> (r: Result<K, ParseError>)
    ensures
        match keyword_spec::<K>(remaining(old(input))) {
            Some((k, n)) => r == Ok::<K, ParseError>(k) && advanced(old(input), final(input), n),
            None => {
                &&& r == Err::<K, ParseError>(
                    ParseError { kind: ErrorKind::NoMatch, location: location(old(input)) },
                )
                &&& unmoved(old(input), final(input))
            },
        },
{
    let at = current_location(input);
    if let Some(Token::Ident(name)) = peek(input) {
        if let Some(k) = K::from_ident(name.as_str()) {
            advance(input);
            return Ok(k);
        }
    }
    Err(ParseError { kind: ErrorKind::NoMatch, location: at })
}

/// Moves past the next token if it is the identifier `keyword`, up to ASCII
/// case, and says whether it did.
pub fn try_ident_matching(input: &mut cssparser::Parser, keyword: &str) -> (found: bool)
    ensures
        found == is_ident(remaining(old(input)), keyword@),
        found ==> advanced(old(input), final(input), 1),
        !found ==> unmoved(old(input), final(input)),
{
    if let Some(Token::Ident(name)) = peek(input) {
        if eq_ignore_ascii_case(name.as_str(), keyword) {
            advance(input);
            return true;
        }
    }
    false
}

} // verus!
