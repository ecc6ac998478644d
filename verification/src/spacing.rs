//! The value of `word-spacing` and `letter-spacing`: the keyword `normal`,
//! or a length.

use crate::ascii::eq_ignore_case_refl;
use crate::cursor::{Component, ErrorKind, ParseError};
use crate::keyword::{is_ident, try_ident_matching};
use crate::length::{Length, LengthView};
use crate::printer::{word, Printer};
use crate::traits::{Canonical, Parse, ToCss};
use vstd::prelude::*;

verus! {

/// A spacing.
#[derive(Clone, Debug, PartialEq, Eq)]
pub enum Spacing {
    Normal,
    Length(Length),
}

/// What a `Spacing` holds.
pub enum SpacingView {
    Normal,
    Length(LengthView),
}

impl SpacingView {
    /// The length, where there is one, is valid.
    pub open spec fn valid(self) -> bool {
        match self {
            SpacingView::Normal => true,
            SpacingView::Length(length) => length.valid(),
        }
    }
}

impl View for Spacing {
    type V = SpacingView;

    open spec fn view(&self) -> SpacingView {
        match self {
            Spacing::Normal => SpacingView::Normal,
            Spacing::Length(length) => SpacingView::Length(length@),
        }
    }
}

impl Parse for Spacing {
    /// The keyword `normal`, or else a length.
    open spec fn parse_spec(rest: Seq<Component>) -> Option<(SpacingView, nat)> {
        if is_ident(rest, "normal"@) {
            Some((SpacingView::Normal, 1))
        } else {
            match Length::parse_spec(rest) {
                Some((length, n)) => Some((SpacingView::Length(length), n)),
                None => None,
            }
        }
    }

    open spec fn failure() -> ErrorKind {
        ErrorKind::NoMatch
    }

    fn parse(input: &mut cssparser::Parser) -> (r: Result<Spacing, ParseError>) {
        if try_ident_matching(input, "normal") {
            return Ok(Spacing::Normal);
        }
        let length = Length::parse(input)?;
        Ok(Spacing::Length(length))
    }
}

impl ToCss for Spacing {
    /// The keyword, or the length.
    open spec fn canonical(v: SpacingView) -> Seq<Component> {
        match v {
            SpacingView::Normal => seq![word("normal"@)],
            SpacingView::Length(length) => Length::canonical(length),
        }
    }

    fn to_css(&self, dest: &mut Printer) {
        match self {
            Spacing::Normal => dest.write_str("normal"),
            Spacing::Length(length) => length.to_css(dest),
        }
    }
}

impl Canonical for Spacing {
    /// The valid spacings, as every one is that a parse gives.
    open spec fn reads_back(v: SpacingView) -> bool {
        v.valid()
    }

    proof fn canonical_is_read_back(v: SpacingView) {
        match v {
            SpacingView::Normal => eq_ignore_case_refl("normal"@),
            SpacingView::Length(length) => Length::canonical_is_read_back(length),
        }
    }
}

} // verus!
