//! The token cursor that the grammars read from.
//!
//! The cursor is `cssparser::Parser`. Verus sees nothing inside it, so this
//! module names what it holds (the component values still to come, and the
//! source location it stands at) and states, without proof, what the few
//! `Parser` methods that the grammars rely on do to them.

use crate::color::CssColor;
use cssparser::ToCss;
use cssparser::Token as Css;
use vstd::prelude::*;

verus! {

/// `cssparser::Parser`, declared so that it can stand in signatures. Nothing
/// is known of what is inside it but what the names below say.
#[verifier::external_type_specification]
#[verifier::external_body]
pub struct ExParser<'i, 't>(cssparser::Parser<'i, 't>);

/// `cssparser::ParserState`: a position of a parser, saved to go back to.
#[verifier::external_type_specification]
#[verifier::external_body]
pub struct ExParserState(cssparser::ParserState);

/// A line and a column of the source text.
#[derive(Clone, Copy, Debug, PartialEq, Eq, Structural)]
pub struct SourceLocation {
    /// The line, counted from 0.
    pub line: u32,
    /// The column, counted from 1.
    pub column: u32,
}

/// Why a parse failed.
#[derive(Clone, Copy, Debug, PartialEq, Eq, Structural)]
pub enum ErrorKind {
    /// The input does not start with this grammar.
    NoMatch,
    /// A flag set that must hold at least one flag found none.
    EmptyNotAllowed,
    /// A required component is missing, or input is left over that the
    /// grammar could not take.
    Invalid,
}

/// A failed parse: its kind, and the location at which the parse was started.
#[derive(Clone, Copy, Debug, PartialEq, Eq, Structural)]
pub struct ParseError {
    pub kind: ErrorKind,
    pub location: SourceLocation,
}

/// What a token is, lexically. Numbers are carried as the text that
/// `cssparser` serializes them to.
pub enum Lexeme {
    /// An identifier, by its unescaped name.
    Ident(Seq<char>),
    /// A number.
    Number(Seq<char>),
    /// A percentage; the text ends in `%`.
    Percentage(Seq<char>),
    /// A number and the unit that follows it.
    Dimension(Seq<char>, Seq<char>),
    /// Anything else; a function or a block counts as one, contents included.
    Other,
}

/// One component value of the input: a token, or a function or block with
/// all that is inside it.
pub struct Component {
    /// The token that begins the component.
    pub lexeme: Lexeme,
    /// The colour that the component denotes, if it denotes one.
    pub color: Option<CssColor>,
}

/// A token as the grammars read it.
#[derive(Clone, Debug, PartialEq, Eq)]
pub enum Token {
    /// An identifier, by its unescaped name.
    Ident(String),
    /// A number, as `cssparser` writes it.
    Number(String),
    /// A percentage, as `cssparser` writes it, `%` included.
    Percentage(String),
    /// A number, as `cssparser` writes it, and the unit as it was written.
    Dimension(String, String),
    /// Any other token.
    Other,
}

impl View for Token {
    type V = Lexeme;

    open spec fn view(&self) -> Lexeme {
        match self {
            Token::Ident(name) => Lexeme::Ident(name@),
            Token::Number(text) => Lexeme::Number(text@),
            Token::Percentage(text) => Lexeme::Percentage(text@),
            Token::Dimension(number, unit) => Lexeme::Dimension(number@, unit@),
            Token::Other => Lexeme::Other,
        }
    }
}

/// The component values that `input` has yet to yield, in order, white space
/// and comments left out.
pub uninterp spec fn remaining(input: &cssparser::Parser) -> Seq<Component>;

/// The source location that `input` stands at.
pub uninterp spec fn location(input: &cssparser::Parser) -> SourceLocation;

/// What `input` would have yet to yield once put back to `state`; `None`
/// where `state` was not saved from `input`.
pub uninterp spec fn rest_at(input: &cssparser::Parser, state: &cssparser::ParserState) -> Option<
    Seq<Component>,
>;

/// The source location that `state` was saved at.
pub uninterp spec fn state_location(state: &cssparser::ParserState) -> SourceLocation;

/// `after` reads the same source as `before`: every saved state means in one
/// what it means in the other.
pub open spec fn same_source(before: &cssparser::Parser, after: &cssparser::Parser) -> bool {
    forall|state: &cssparser::ParserState| #[trigger]
        rest_at(after, state) == rest_at(before, state)
}

/// `after` is `before`, not moved.
pub open spec fn unmoved(before: &cssparser::Parser, after: &cssparser::Parser) -> bool {
    &&& remaining(after) == remaining(before)
    &&& location(after) == location(before)
    &&& same_source(before, after)
}

/// `after` is `before` moved past its first `n` component values.
pub open spec fn advanced(before: &cssparser::Parser, after: &cssparser::Parser, n: nat) -> bool {
    &&& n <= remaining(before).len()
    &&& remaining(after) == remaining(before).skip(n as int)
    &&& same_source(before, after)
}

/// A cursor that has not moved has moved past no component value.
pub proof fn advanced_none(before: &cssparser::Parser, after: &cssparser::Parser)
    requires
        remaining(after) == remaining(before),
        same_source(before, after),
    ensures
        advanced(before, after, 0),
{
    assert(remaining(before).skip(0) =~= remaining(before));
}

/// Moving past `n` component values and then past `m` more moves past
/// `n + m`.
pub proof fn advanced_more(
    start: &cssparser::Parser,
    before: &cssparser::Parser,
    after: &cssparser::Parser,
    n: nat,
    m: nat,
)
    requires
        advanced(start, before, n),
        advanced(before, after, m),
    ensures
        advanced(start, after, n + m),
{
    assert(remaining(start).skip(n as int).skip(m as int) =~= remaining(start).skip(
        (n + m) as int,
    ));
}

/// `Parser::state`: the state that is captured stands for what the parser
/// has yet to yield now, and for the location it is at.
#[verifier::external_body]
pub(crate) fn save(input: &cssparser::Parser) -> (state: cssparser::ParserState)
    ensures
        rest_at(input, &state) == Some(remaining(input)),
        state_location(&state) == location(input),
{
    input.state()
}

/// `Parser::reset`: the parser is put back to a state saved from it, and
/// goes on to yield what it had yet to yield then.
#[verifier::external_body]
pub(crate) fn restore(input: &mut cssparser::Parser, state: &cssparser::ParserState)
    requires
        rest_at(old(input), state) is Some,
    ensures
        Some(remaining(final(input))) == rest_at(old(input), state),
        location(final(input)) == state_location(state),
        same_source(old(input), final(input)),
{
    input.reset(state)
}

/// `Parser::next`: skips white space and comments and yields the next token,
/// moving past it (and, at the following call, past the function or block
/// that it opens); at the end of the input it yields nothing and what
/// remains stays empty.
#[verifier::external_body]
pub(crate) fn next_token(input: &mut cssparser::Parser) -> (token: Option<Token>)
    ensures
        same_source(old(input), final(input)),
        match token {
            Some(t) => {
                &&& remaining(old(input)).len() > 0
                &&& t@ == remaining(old(input))[0].lexeme
                &&& remaining(final(input)) == remaining(old(input)).skip(1)
            },
            None => {
                &&& remaining(old(input)).len() == 0
                &&& remaining(final(input)) == remaining(old(input))
            },
        },
{
    match input.next() {
        Ok(Css::Ident(name)) => Some(Token::Ident(name.to_string())),
        Ok(t @ Css::Number { .. }) => Some(Token::Number(t.to_css_string())),
        Ok(t @ Css::Percentage { .. }) => Some(Token::Percentage(t.to_css_string())),
        Ok(Css::Dimension { has_sign, value, int_value, unit }) => {
            let n = Css::Number { has_sign: *has_sign, value: *value, int_value: *int_value };
            Some(Token::Dimension(n.to_css_string(), unit.to_string()))
        },
        Ok(_) => Some(Token::Other),
        Err(_) => None,
    }
}

/// `Parser::current_source_location`.
#[verifier::external_body]
pub(crate) fn current_location(input: &cssparser::Parser) -> (at: SourceLocation)
    ensures
        at == location(input),
{
    let at = input.current_source_location();
    SourceLocation { line: at.line, column: at.column }
}

/// The lexeme of the component value that comes next, if one does.
pub open spec fn first_lexeme(rest: Seq<Component>) -> Option<Lexeme> {
    if rest.len() > 0 {
        Some(rest[0].lexeme)
    } else {
        None
    }
}

/// Shows the next token and leaves the cursor where it was.
pub fn peek(input: &mut cssparser::Parser) -> (token: Option<Token>)
    ensures
        unmoved(old(input), final(input)),
        match token {
            Some(t) => Some(t@) == first_lexeme(remaining(old(input))),
            None => first_lexeme(remaining(old(input))) is None,
        },
{
    let start = save(input);
    let token = next_token(input);
    restore(input, &start);
    token
}

/// Moves past the next component value, if there is one.
pub fn advance(input: &mut cssparser::Parser)
    ensures
        remaining(old(input)).len() > 0 ==> advanced(old(input), final(input), 1),
        remaining(old(input)).len() == 0 ==> advanced(old(input), final(input), 0),
{
    let _ = next_token(input);
    proof {
        if remaining(old(input)).len() == 0 {
            advanced_none(old(input), input);
        }
    }
}

/// Whether no component value is left.
pub fn is_exhausted(input: &mut cssparser::Parser) -> (done: bool)
    ensures
        unmoved(old(input), final(input)),
        done == (remaining(old(input)).len() == 0),
{
    peek(input).is_none()
}

} // verus!
