//! Lengths and percentages, read from dimension and percentage tokens.
//!
//! A number is held as the text that `cssparser` serializes it to.

use crate::ascii::{eq_ignore_ascii_case, eq_ignore_case, eq_ignore_case_refl, lower};
use crate::cursor::{
    advance, current_location, location, peek, Component, ErrorKind, Lexeme, ParseError, Token,
};
use crate::keyword::Keyword;
use crate::printer::{component_text, unbroken, unbroken_concat, Printer};
use crate::traits::{Canonical, Parse, ToCss};
use vstd::prelude::*;
use vstd::string::StrSliceExecFns;

verus! {

/// The units in which a length is given.
#[derive(Clone, Copy, Debug, PartialEq, Eq, Structural)]
pub enum LengthUnit {
    Px,
    In,
    Cm,
    Mm,
    Q,
    Pt,
    Pc,
    Em,
    Ex,
    Ch,
    Rem,
    Vw,
    Vh,
    Vmin,
    Vmax,
}

impl Keyword for LengthUnit {
    open spec fn name(self) -> Seq<char> {
        match self {
            LengthUnit::Px => "px"@,
            LengthUnit::In => "in"@,
            LengthUnit::Cm => "cm"@,
            LengthUnit::Mm => "mm"@,
            LengthUnit::Q => "q"@,
            LengthUnit::Pt => "pt"@,
            LengthUnit::Pc => "pc"@,
            LengthUnit::Em => "em"@,
            LengthUnit::Ex => "ex"@,
            LengthUnit::Ch => "ch"@,
            LengthUnit::Rem => "rem"@,
            LengthUnit::Vw => "vw"@,
            LengthUnit::Vh => "vh"@,
            LengthUnit::Vmin => "vmin"@,
            LengthUnit::Vmax => "vmax"@,
        }
    }

    open spec fn from_name(name: Seq<char>) -> Option<LengthUnit> {
        if eq_ignore_case(name, "px"@) {
            Some(LengthUnit::Px)
        } else if eq_ignore_case(name, "in"@) {
            Some(LengthUnit::In)
        } else if eq_ignore_case(name, "cm"@) {
            Some(LengthUnit::Cm)
        } else if eq_ignore_case(name, "mm"@) {
            Some(LengthUnit::Mm)
        } else if eq_ignore_case(name, "q"@) {
            Some(LengthUnit::Q)
        } else if eq_ignore_case(name, "pt"@) {
            Some(LengthUnit::Pt)
        } else if eq_ignore_case(name, "pc"@) {
            Some(LengthUnit::Pc)
        } else if eq_ignore_case(name, "em"@) {
            Some(LengthUnit::Em)
        } else if eq_ignore_case(name, "ex"@) {
            Some(LengthUnit::Ex)
        } else if eq_ignore_case(name, "ch"@) {
            Some(LengthUnit::Ch)
        } else if eq_ignore_case(name, "rem"@) {
            Some(LengthUnit::Rem)
        } else if eq_ignore_case(name, "vw"@) {
            Some(LengthUnit::Vw)
        } else if eq_ignore_case(name, "vh"@) {
            Some(LengthUnit::Vh)
        } else if eq_ignore_case(name, "vmin"@) {
            Some(LengthUnit::Vmin)
        } else if eq_ignore_case(name, "vmax"@) {
            Some(LengthUnit::Vmax)
        } else {
            None
        }
    }

    fn from_ident(ident: &str) -> (k: Option<LengthUnit>) {
        if eq_ignore_ascii_case(ident, "px") {
            Some(LengthUnit::Px)
        } else if eq_ignore_ascii_case(ident, "in") {
            Some(LengthUnit::In)
        } else if eq_ignore_ascii_case(ident, "cm") {
            Some(LengthUnit::Cm)
        } else if eq_ignore_ascii_case(ident, "mm") {
            Some(LengthUnit::Mm)
        } else if eq_ignore_ascii_case(ident, "q") {
            Some(LengthUnit::Q)
        } else if eq_ignore_ascii_case(ident, "pt") {
            Some(LengthUnit::Pt)
        } else if eq_ignore_ascii_case(ident, "pc") {
            Some(LengthUnit::Pc)
        } else if eq_ignore_ascii_case(ident, "em") {
            Some(LengthUnit::Em)
        } else if eq_ignore_ascii_case(ident, "ex") {
            Some(LengthUnit::Ex)
        } else if eq_ignore_ascii_case(ident, "ch") {
            Some(LengthUnit::Ch)
        } else if eq_ignore_ascii_case(ident, "rem") {
            Some(LengthUnit::Rem)
        } else if eq_ignore_ascii_case(ident, "vw") {
            Some(LengthUnit::Vw)
        } else if eq_ignore_ascii_case(ident, "vh") {
            Some(LengthUnit::Vh)
        } else if eq_ignore_ascii_case(ident, "vmin") {
            Some(LengthUnit::Vmin)
        } else if eq_ignore_ascii_case(ident, "vmax") {
            Some(LengthUnit::Vmax)
        } else {
            None
        }
    }

    fn as_str(&self) -> (s: &'static str) {
        match self {
            LengthUnit::Px => "px",
            LengthUnit::In => "in",
            LengthUnit::Cm => "cm",
            LengthUnit::Mm => "mm",
            LengthUnit::Q => "q",
            LengthUnit::Pt => "pt",
            LengthUnit::Pc => "pc",
            LengthUnit::Em => "em",
            LengthUnit::Ex => "ex",
            LengthUnit::Ch => "ch",
            LengthUnit::Rem => "rem",
            LengthUnit::Vw => "vw",
            LengthUnit::Vh => "vh",
            LengthUnit::Vmin => "vmin",
            LengthUnit::Vmax => "vmax",
        }
    }

    proof fn spelling_is_read_back(self) {
        reveal_strlit("px");
        reveal_strlit("in");
        reveal_strlit("cm");
        reveal_strlit("mm");
        reveal_strlit("q");
        reveal_strlit("pt");
        reveal_strlit("pc");
        reveal_strlit("em");
        reveal_strlit("ex");
        reveal_strlit("ch");
        reveal_strlit("rem");
        reveal_strlit("vw");
        reveal_strlit("vh");
        reveal_strlit("vmin");
        reveal_strlit("vmax");
        match self {
            LengthUnit::Px => {
                eq_ignore_case_refl("px"@);
            },
            LengthUnit::In => {
                assert(lower("in"@[0]) != lower("px"@[0]));
                eq_ignore_case_refl("in"@);
            },
            LengthUnit::Cm => {
                assert(lower("cm"@[0]) != lower("px"@[0]));
                assert(lower("cm"@[0]) != lower("in"@[0]));
                eq_ignore_case_refl("cm"@);
            },
            LengthUnit::Mm => {
                assert(lower("mm"@[0]) != lower("px"@[0]));
                assert(lower("mm"@[0]) != lower("in"@[0]));
                assert(lower("mm"@[0]) != lower("cm"@[0]));
                eq_ignore_case_refl("mm"@);
            },
            LengthUnit::Q => {
                eq_ignore_case_refl("q"@);
            },
            LengthUnit::Pt => {
                assert(lower("pt"@[1]) != lower("px"@[1]));
                assert(lower("pt"@[0]) != lower("in"@[0]));
                assert(lower("pt"@[0]) != lower("cm"@[0]));
                assert(lower("pt"@[0]) != lower("mm"@[0]));
                eq_ignore_case_refl("pt"@);
            },
            LengthUnit::Pc => {
                assert(lower("pc"@[1]) != lower("px"@[1]));
                assert(lower("pc"@[0]) != lower("in"@[0]));
                assert(lower("pc"@[0]) != lower("cm"@[0]));
                assert(lower("pc"@[0]) != lower("mm"@[0]));
                assert(lower("pc"@[1]) != lower("pt"@[1]));
                eq_ignore_case_refl("pc"@);
            },
            LengthUnit::Em => {
                assert(lower("em"@[0]) != lower("px"@[0]));
                assert(lower("em"@[0]) != lower("in"@[0]));
                assert(lower("em"@[0]) != lower("cm"@[0]));
                assert(lower("em"@[0]) != lower("mm"@[0]));
                assert(lower("em"@[0]) != lower("pt"@[0]));
                assert(lower("em"@[0]) != lower("pc"@[0]));
                eq_ignore_case_refl("em"@);
            },
            LengthUnit::Ex => {
                assert(lower("ex"@[0]) != lower("px"@[0]));
                assert(lower("ex"@[0]) != lower("in"@[0]));
                assert(lower("ex"@[0]) != lower("cm"@[0]));
                assert(lower("ex"@[0]) != lower("mm"@[0]));
                assert(lower("ex"@[0]) != lower("pt"@[0]));
                assert(lower("ex"@[0]) != lower("pc"@[0]));
                assert(lower("ex"@[1]) != lower("em"@[1]));
                eq_ignore_case_refl("ex"@);
            },
            LengthUnit::Ch => {
                assert(lower("ch"@[0]) != lower("px"@[0]));
                assert(lower("ch"@[0]) != lower("in"@[0]));
                assert(lower("ch"@[1]) != lower("cm"@[1]));
                assert(lower("ch"@[0]) != lower("mm"@[0]));
                assert(lower("ch"@[0]) != lower("pt"@[0]));
                assert(lower("ch"@[0]) != lower("pc"@[0]));
                assert(lower("ch"@[0]) != lower("em"@[0]));
                assert(lower("ch"@[0]) != lower("ex"@[0]));
                eq_ignore_case_refl("ch"@);
            },
            LengthUnit::Rem => {
                eq_ignore_case_refl("rem"@);
            },
            LengthUnit::Vw => {
                assert(lower("vw"@[0]) != lower("px"@[0]));
                assert(lower("vw"@[0]) != lower("in"@[0]));
                assert(lower("vw"@[0]) != lower("cm"@[0]));
                assert(lower("vw"@[0]) != lower("mm"@[0]));
                assert(lower("vw"@[0]) != lower("pt"@[0]));
                assert(lower("vw"@[0]) != lower("pc"@[0]));
                assert(lower("vw"@[0]) != lower("em"@[0]));
                assert(lower("vw"@[0]) != lower("ex"@[0]));
                assert(lower("vw"@[0]) != lower("ch"@[0]));
                eq_ignore_case_refl("vw"@);
            },
            LengthUnit::Vh => {
                assert(lower("vh"@[0]) != lower("px"@[0]));
                assert(lower("vh"@[0]) != lower("in"@[0]));
                assert(lower("vh"@[0]) != lower("cm"@[0]));
                assert(lower("vh"@[0]) != lower("mm"@[0]));
                assert(lower("vh"@[0]) != lower("pt"@[0]));
                assert(lower("vh"@[0]) != lower("pc"@[0]));
                assert(lower("vh"@[0]) != lower("em"@[0]));
                assert(lower("vh"@[0]) != lower("ex"@[0]));
                assert(lower("vh"@[0]) != lower("ch"@[0]));
                assert(lower("vh"@[1]) != lower("vw"@[1]));
                eq_ignore_case_refl("vh"@);
            },
            LengthUnit::Vmin => {
                eq_ignore_case_refl("vmin"@);
            },
            LengthUnit::Vmax => {
                assert(lower("vmax"@[2]) != lower("vmin"@[2]));
                eq_ignore_case_refl("vmax"@);
            },
        }
    }
}


/// A character of a number: a digit, a sign, the point, or the `e` of an
/// exponent.
pub open spec fn is_number_char(c: char) -> bool {
    ('0' <= c && c <= '9') || c == '+' || c == '-' || c == '.' || c == 'e'
}

/// The text of a number: at least one character, each a character of a
/// number.
pub open spec fn is_number_text(text: Seq<char>) -> bool {
    &&& text.len() > 0
    &&& forall|i: int| 0 <= i < text.len() ==> is_number_char(#[trigger] text[i])
}

/// The text of a percentage: the text of a number, then `%`.
pub open spec fn is_percentage_text(text: Seq<char>) -> bool {
    &&& text.len() > 0
    &&& text.last() == '%'
    &&& is_number_text(text.drop_last())
}

/// Whether the first `n` characters of `text` are the text of a number.
fn number_prefix(text: &str, n: usize) -> (r: bool)
    requires
        n <= text@.len(),
    ensures
        r == is_number_text(text@.take(n as int)),
{
    if n == 0 {
        return false;
    }
    let mut i: usize = 0;
    while i < n
        invariant
            i <= n,
            n <= text@.len(),
            forall|j: int| 0 <= j < i ==> is_number_char(#[trigger] text@[j]),
        decreases n - i,
    {
        let c = text.get_char(i);
        if !(('0' <= c && c <= '9') || c == '+' || c == '-' || c == '.' || c == 'e') {
            assert(text@.take(n as int)[i as int] == c);
            return false;
        }
        i += 1;
    }
    assert forall|j: int| 0 <= j < n implies is_number_char(
        #[trigger] text@.take(n as int)[j],
    ) by {
        assert(text@.take(n as int)[j] == text@[j]);
    }
    true
}

/// Whether `text` is the text of a number.
pub fn number_text(text: &str) -> (r: bool)
    ensures
        r == is_number_text(text@),
{
    let n = text.unicode_len();
    assert(text@.take(n as int) =~= text@);
    number_prefix(text, n)
}

/// Whether `text` is the text of a percentage.
pub fn percentage_text(text: &str) -> (r: bool)
    ensures
        r == is_percentage_text(text@),
{
    let n = text.unicode_len();
    if n == 0 {
        return false;
    }
    assert(text@.take(n - 1) =~= text@.drop_last());
    text.get_char(n - 1) == '%' && number_prefix(text, n - 1)
}

/// A length: a number and a unit.
#[derive(Clone, Debug, PartialEq, Eq)]
pub struct Length {
    /// The number, as `cssparser` writes it.
    pub value: String,
    pub unit: LengthUnit,
}

/// What a `Length` holds.
pub struct LengthView {
    pub value: Seq<char>,
    pub unit: LengthUnit,
}

impl LengthView {
    /// The value is the text of a number.
    pub open spec fn valid(self) -> bool {
        is_number_text(self.value)
    }
}

impl View for Length {
    type V = LengthView;

    open spec fn view(&self) -> LengthView {
        LengthView { value: self.value@, unit: self.unit }
    }
}

impl Length {
    /// The length that a token is, if it is one: a dimension of the text of
    /// a number and a unit of length.
    pub open spec fn of_lexeme(lexeme: Lexeme) -> Option<LengthView> {
        match lexeme {
            Lexeme::Dimension(number, unit) => match LengthUnit::from_name(unit) {
                Some(unit) => if is_number_text(number) {
                    Some(LengthView { value: number, unit })
                } else {
                    None
                },
                None => None,
            },
            _ => None,
        }
    }

    /// The component value that a length is written as.
    pub open spec fn component(v: LengthView) -> Component {
        Component { lexeme: Lexeme::Dimension(v.value, v.unit.name()), color: None }
    }

    /// The length that `token` is, if it is one.
    pub fn from_token(token: Token) -> (r: Option<Length>)
        ensures
            match Self::of_lexeme(token@) {
                Some(v) => r matches Some(l) && l@ == v,
                None => r is None,
            },
    {
        match token {
            Token::Dimension(number, unit) => match LengthUnit::from_ident(unit.as_str()) {
                Some(unit) => if number_text(number.as_str()) {
                    Some(Length { value: number, unit })
                } else {
                    None
                },
                None => None,
            },
            _ => None,
        }
    }

}

impl Parse for Length {
    /// The length that the next component value is: a dimension with a unit
    /// of length.
    open spec fn parse_spec(rest: Seq<Component>) -> Option<(LengthView, nat)> {
        if rest.len() > 0 {
            match Length::of_lexeme(rest[0].lexeme) {
                Some(v) => Some((v, 1)),
                None => None,
            }
        } else {
            None
        }
    }

    open spec fn failure() -> ErrorKind {
        ErrorKind::NoMatch
    }

    fn parse(input: &mut cssparser::Parser) -> (r: Result<Length, ParseError>) {
        let at = current_location(input);
        if let Some(token) = peek(input) {
            if let Some(length) = Length::from_token(token) {
                advance(input);
                return Ok(length);
            }
        }
        Err(ParseError { kind: ErrorKind::NoMatch, location: at })
    }
}

impl ToCss for Length {
    /// One dimension: the number, then the unit.
    open spec fn canonical(v: LengthView) -> Seq<Component> {
        seq![Length::component(v)]
    }

    fn to_css(&self, dest: &mut Printer) {
        dest.write_str(self.value.as_str());
        dest.write_str(self.unit.as_str());
        assert(old(dest)@ + self.value@ + self.unit.name() =~= old(dest)@ + (self.value@
            + self.unit.name()));
    }
}

impl Canonical for Length {
    /// The lengths whose value is the text of a number, as every length is
    /// that a parse gives.
    open spec fn reads_back(v: LengthView) -> bool {
        v.valid()
    }

    proof fn canonical_is_read_back(v: LengthView) {
        v.unit.spelling_is_read_back();
    }
}

/// A length or a percentage.
#[derive(Clone, Debug, PartialEq, Eq)]
pub enum LengthPercentage {
    Length(Length),
    /// The percentage, as `cssparser` writes it, `%` included.
    Percentage(String),
}

/// What a `LengthPercentage` holds.
pub enum LengthPercentageView {
    Length(LengthView),
    Percentage(Seq<char>),
}

impl LengthPercentageView {
    /// The length is valid, or the text is that of a percentage.
    pub open spec fn valid(self) -> bool {
        match self {
            LengthPercentageView::Length(length) => length.valid(),
            LengthPercentageView::Percentage(text) => is_percentage_text(text),
        }
    }
}

impl View for LengthPercentage {
    type V = LengthPercentageView;

    open spec fn view(&self) -> LengthPercentageView {
        match self {
            LengthPercentage::Length(l) => LengthPercentageView::Length(l@),
            LengthPercentage::Percentage(text) => LengthPercentageView::Percentage(text@),
        }
    }
}

impl LengthPercentage {
    /// A valid length or percentage is written with no space in it.
    pub proof fn written_unbroken(v: LengthPercentageView)
        requires
            v.valid(),
        ensures
            unbroken(component_text(Self::component(v))),
    {
        match v {
            LengthPercentageView::Length(length) => {
                reveal_strlit("px");
                reveal_strlit("in");
                reveal_strlit("cm");
                reveal_strlit("mm");
                reveal_strlit("q");
                reveal_strlit("pt");
                reveal_strlit("pc");
                reveal_strlit("em");
                reveal_strlit("ex");
                reveal_strlit("ch");
                reveal_strlit("rem");
                reveal_strlit("vw");
                reveal_strlit("vh");
                reveal_strlit("vmin");
                reveal_strlit("vmax");
                assert(unbroken(length.value));
                assert(unbroken(length.unit.name()));
                unbroken_concat(length.value, length.unit.name());
            },
            LengthPercentageView::Percentage(text) => {
                assert forall|i: int| 0 <= i < text.len() implies #[trigger] text[i] != ' ' by {
                    if i < text.len() - 1 {
                        assert(text.drop_last()[i] == text[i]);
                        assert(is_number_char(text.drop_last()[i]));
                    }
                }
            },
        }
    }

    /// Every length or percentage that a token is, is valid.
    pub proof fn read_is_valid(lexeme: Lexeme)
        ensures
            Self::of_lexeme(lexeme) matches Some(v) ==> v.valid(),
    {
    }

    /// The length or percentage that a token is, if it is one.
    pub open spec fn of_lexeme(lexeme: Lexeme) -> Option<LengthPercentageView> {
        match lexeme {
            Lexeme::Percentage(text) => if is_percentage_text(text) {
                Some(LengthPercentageView::Percentage(text))
            } else {
                None
            },
            _ => match Length::of_lexeme(lexeme) {
                Some(l) => Some(LengthPercentageView::Length(l)),
                None => None,
            },
        }
    }

    /// The component value that a length or percentage is written as.
    pub open spec fn component(v: LengthPercentageView) -> Component {
        match v {
            LengthPercentageView::Length(l) => Length::component(l),
            LengthPercentageView::Percentage(text) => Component {
                lexeme: Lexeme::Percentage(text),
                color: None,
            },
        }
    }

    /// The length or percentage that `token` is, if it is one.
    pub fn from_token(token: Token) -> (r: Option<LengthPercentage>)
        ensures
            match Self::of_lexeme(token@) {
                Some(v) => r matches Some(l) && l@ == v,
                None => r is None,
            },
    {
        match token {
            Token::Percentage(text) => if percentage_text(text.as_str()) {
                Some(LengthPercentage::Percentage(text))
            } else {
                None
            },
            token => match Length::from_token(token) {
                Some(l) => Some(LengthPercentage::Length(l)),
                None => None,
            },
        }
    }

}

impl Parse for LengthPercentage {
    /// The length or percentage that the next component value is.
    open spec fn parse_spec(rest: Seq<Component>) -> Option<(LengthPercentageView, nat)> {
        if rest.len() > 0 {
            match LengthPercentage::of_lexeme(rest[0].lexeme) {
                Some(v) => Some((v, 1)),
                None => None,
            }
        } else {
            None
        }
    }

    open spec fn failure() -> ErrorKind {
        ErrorKind::NoMatch
    }

    fn parse(input: &mut cssparser::Parser) -> (r: Result<LengthPercentage, ParseError>) {
        let at = current_location(input);
        if let Some(token) = peek(input) {
            if let Some(value) = LengthPercentage::from_token(token) {
                advance(input);
                return Ok(value);
            }
        }
        Err(ParseError { kind: ErrorKind::NoMatch, location: at })
    }
}

impl ToCss for LengthPercentage {
    /// One dimension, or one percentage.
    open spec fn canonical(v: LengthPercentageView) -> Seq<Component> {
        seq![LengthPercentage::component(v)]
    }

    fn to_css(&self, dest: &mut Printer) {
        match self {
            LengthPercentage::Length(l) => l.to_css(dest),
            LengthPercentage::Percentage(text) => dest.write_str(text.as_str()),
        }
    }
}

impl Canonical for LengthPercentage {
    /// The valid lengths and percentages, as every one is that a parse
    /// gives.
    open spec fn reads_back(v: LengthPercentageView) -> bool {
        v.valid()
    }

    proof fn canonical_is_read_back(v: LengthPercentageView) {
        match v {
            LengthPercentageView::Length(l) => Length::canonical_is_read_back(l),
            LengthPercentageView::Percentage(_) => {},
        }
    }
}

} // verus!
