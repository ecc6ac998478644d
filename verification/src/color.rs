//! Colour values, as `cssparser` reads and writes them.

use crate::cursor::{
    advanced, current_location, remaining, same_source, unmoved, Component, ErrorKind, Lexeme,
    ParseError,
};
use crate::printer::Printer;
use crate::traits::{Canonical, Parse, ToCss};
use vstd::prelude::*;

verus! {

/// A colour: the `currentcolor` keyword, or red, green, blue and alpha.
#[derive(Clone, Copy, Debug, PartialEq, Eq, Structural)]
pub enum CssColor {
    CurrentColor,
    Rgba { red: u8, green: u8, blue: u8, alpha: u8 },
}

/// The text that `cssparser` serializes a colour to.
pub uninterp spec fn color_text(color: CssColor) -> Seq<char>;

/// `Color::parse` under `Parser::try_parse`: where the next component value
/// denotes a colour, that colour, and the parser is moved past the
/// component; otherwise nothing, and the parser is where it was.
#[verifier::external_body]
pub(crate) fn try_color(input: &mut cssparser::Parser) -> (color: Option<CssColor>)
    ensures
        same_source(old(input), final(input)),
        match color {
            Some(c) => {
                &&& remaining(old(input)).len() > 0
                &&& remaining(old(input))[0].color == Some(c)
                &&& advanced(old(input), final(input), 1)
            },
            None => {
                &&& remaining(old(input)).len() > 0 ==> remaining(old(input))[0].color is None
                &&& unmoved(old(input), final(input))
            },
        },
{
    match input.try_parse(cssparser::Color::parse) {
        Ok(cssparser::Color::CurrentColor) => Some(CssColor::CurrentColor),
        Ok(cssparser::Color::RGBA(c)) => Some(
            CssColor::Rgba { red: c.red, green: c.green, blue: c.blue, alpha: c.alpha },
        ),
        Err(_) => None,
    }
}

/// `ToCss::to_css_string` on a `Color`.
#[verifier::external_body]
pub(crate) fn color_css(color: CssColor) -> (text: String)
    ensures
        text@ == color_text(color),
{
    let color = match color {
        CssColor::CurrentColor => cssparser::Color::CurrentColor,
        CssColor::Rgba { red, green, blue, alpha } => cssparser::Color::RGBA(
            cssparser::RGBA::new(red, green, blue, alpha),
        ),
    };
    cssparser::ToCss::to_css_string(&color)
}

impl View for CssColor {
    type V = CssColor;

    open spec fn view(&self) -> CssColor {
        *self
    }
}

impl CssColor {
    /// The colour of the text itself, which is the default.
    pub fn current_color() -> (c: CssColor)
        ensures
            c == CssColor::CurrentColor,
    {
        CssColor::CurrentColor
    }

    /// The component value that a colour is written as: the identifier
    /// `currentcolor`, or what `cssparser` writes for red, green, blue and
    /// alpha, which is a function with all that is inside it.
    pub open spec fn component(v: CssColor) -> Component {
        match v {
            CssColor::CurrentColor => Component {
                lexeme: Lexeme::Ident("currentcolor"@),
                color: Some(v),
            },
            CssColor::Rgba { .. } => Component { lexeme: Lexeme::Other, color: Some(v) },
        }
    }
}

impl Parse for CssColor {
    /// The colour that the next component value denotes.
    open spec fn parse_spec(rest: Seq<Component>) -> Option<(CssColor, nat)> {
        if rest.len() > 0 {
            match rest[0].color {
                Some(c) => Some((c, 1)),
                None => None,
            }
        } else {
            None
        }
    }

    open spec fn failure() -> ErrorKind {
        ErrorKind::NoMatch
    }

    fn parse(input: &mut cssparser::Parser) -> (r: Result<CssColor, ParseError>) {
        let at = current_location(input);
        match try_color(input) {
            Some(c) => Ok(c),
            None => Err(ParseError { kind: ErrorKind::NoMatch, location: at }),
        }
    }
}

impl ToCss for CssColor {
    /// One component value: the keyword `currentcolor`, or the colour as
    /// `cssparser` writes it.
    open spec fn canonical(v: CssColor) -> Seq<Component> {
        seq![CssColor::component(v)]
    }

    fn to_css(&self, dest: &mut Printer) {
        match self {
            CssColor::CurrentColor => dest.write_str("currentcolor"),
            CssColor::Rgba { .. } => {
                let text = color_css(*self);
                dest.write_str(text.as_str());
            },
        }
    }
}

impl Canonical for CssColor {
    open spec fn reads_back(v: CssColor) -> bool {
        true
    }

    proof fn canonical_is_read_back(v: CssColor) {
    }
}

} // verus!
