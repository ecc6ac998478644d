//! The keywords of the properties that align and justify text.

use crate::ascii::{eq_ignore_ascii_case, eq_ignore_case, eq_ignore_case_refl, lower};
use crate::cursor::{Component, ErrorKind, ParseError};
use crate::keyword::{keyword_spec, parse_keyword, Keyword};
use crate::printer::{word, Printer};
use crate::traits::{Canonical, Parse, ToCss};
use vstd::prelude::*;

verus! {

/// The values of `text-align`.
#[derive(Clone, Copy, Debug, PartialEq, Eq, Structural)]
pub enum TextAlign {
    Start,
    End,
    Left,
    Right,
    Center,
    Justify,
    MatchParent,
    JustifyAll,
}

impl Keyword for TextAlign {
    open spec fn name(self) -> Seq<char> {
        match self {
            TextAlign::Start => "start"@,
            TextAlign::End => "end"@,
            TextAlign::Left => "left"@,
            TextAlign::Right => "right"@,
            TextAlign::Center => "center"@,
            TextAlign::Justify => "justify"@,
            TextAlign::MatchParent => "match-parent"@,
            TextAlign::JustifyAll => "justify-all"@,
        }
    }

    open spec fn from_name(name: Seq<char>) -> Option<TextAlign> {
        if eq_ignore_case(name, "start"@) {
            Some(TextAlign::Start)
        } else if eq_ignore_case(name, "end"@) {
            Some(TextAlign::End)
        } else if eq_ignore_case(name, "left"@) {
            Some(TextAlign::Left)
        } else if eq_ignore_case(name, "right"@) {
            Some(TextAlign::Right)
        } else if eq_ignore_case(name, "center"@) {
            Some(TextAlign::Center)
        } else if eq_ignore_case(name, "justify"@) {
            Some(TextAlign::Justify)
        } else if eq_ignore_case(name, "match-parent"@) {
            Some(TextAlign::MatchParent)
        } else if eq_ignore_case(name, "justify-all"@) {
            Some(TextAlign::JustifyAll)
        } else {
            None
        }
    }

    fn from_ident(ident: &str) -> (k: Option<TextAlign>) {
        if eq_ignore_ascii_case(ident, "start") {
            Some(TextAlign::Start)
        } else if eq_ignore_ascii_case(ident, "end") {
            Some(TextAlign::End)
        } else if eq_ignore_ascii_case(ident, "left") {
            Some(TextAlign::Left)
        } else if eq_ignore_ascii_case(ident, "right") {
            Some(TextAlign::Right)
        } else if eq_ignore_ascii_case(ident, "center") {
            Some(TextAlign::Center)
        } else if eq_ignore_ascii_case(ident, "justify") {
            Some(TextAlign::Justify)
        } else if eq_ignore_ascii_case(ident, "match-parent") {
            Some(TextAlign::MatchParent)
        } else if eq_ignore_ascii_case(ident, "justify-all") {
            Some(TextAlign::JustifyAll)
        } else {
            None
        }
    }

    fn as_str(&self) -> (s: &'static str) {
        match self {
            TextAlign::Start => "start",
            TextAlign::End => "end",
            TextAlign::Left => "left",
            TextAlign::Right => "right",
            TextAlign::Center => "center",
            TextAlign::Justify => "justify",
            TextAlign::MatchParent => "match-parent",
            TextAlign::JustifyAll => "justify-all",
        }
    }

    proof fn spelling_is_read_back(self) {
        reveal_strlit("start");
        reveal_strlit("end");
        reveal_strlit("left");
        reveal_strlit("right");
        reveal_strlit("center");
        reveal_strlit("justify");
        reveal_strlit("match-parent");
        reveal_strlit("justify-all");
        match self {
            TextAlign::Start => {
                eq_ignore_case_refl("start"@);
            },
            TextAlign::End => {
                eq_ignore_case_refl("end"@);
            },
            TextAlign::Left => {
                eq_ignore_case_refl("left"@);
            },
            TextAlign::Right => {
                assert(lower("right"@[0]) != lower("start"@[0]));
                eq_ignore_case_refl("right"@);
            },
            TextAlign::Center => {
                eq_ignore_case_refl("center"@);
            },
            TextAlign::Justify => {
                eq_ignore_case_refl("justify"@);
            },
            TextAlign::MatchParent => {
                eq_ignore_case_refl("match-parent"@);
            },
            TextAlign::JustifyAll => {
                eq_ignore_case_refl("justify-all"@);
            },
        }
    }
}

impl View for TextAlign {
    type V = TextAlign;

    open spec fn view(&self) -> TextAlign {
        *self
    }
}

impl Parse for TextAlign {
    open spec fn parse_spec(rest: Seq<Component>) -> Option<(TextAlign, nat)> {
        keyword_spec::<TextAlign>(rest)
    }

    open spec fn failure() -> ErrorKind {
        ErrorKind::NoMatch
    }

    fn parse(input: &mut cssparser::Parser) -> (r: Result<TextAlign, ParseError>) {
        parse_keyword::<TextAlign>(input)
    }
}

impl ToCss for TextAlign {
    open spec fn canonical(v: TextAlign) -> Seq<Component> {
        seq![word(v.name())]
    }

    fn to_css(&self, dest: &mut Printer) {
        dest.write_str(self.as_str());
    }
}

impl Canonical for TextAlign {
    open spec fn reads_back(v: TextAlign) -> bool {
        true
    }

    proof fn canonical_is_read_back(v: TextAlign) {
        v.spelling_is_read_back();
    }
}

/// The values of `text-align-last`.
#[derive(Clone, Copy, Debug, PartialEq, Eq, Structural)]
pub enum TextAlignLast {
    Auto,
    Start,
    End,
    Left,
    Right,
    Center,
    Justify,
    MatchParent,
}

impl Keyword for TextAlignLast {
    open spec fn name(self) -> Seq<char> {
        match self {
            TextAlignLast::Auto => "auto"@,
            TextAlignLast::Start => "start"@,
            TextAlignLast::End => "end"@,
            TextAlignLast::Left => "left"@,
            TextAlignLast::Right => "right"@,
            TextAlignLast::Center => "center"@,
            TextAlignLast::Justify => "justify"@,
            TextAlignLast::MatchParent => "match-parent"@,
        }
    }

    open spec fn from_name(name: Seq<char>) -> Option<TextAlignLast> {
        if eq_ignore_case(name, "auto"@) {
            Some(TextAlignLast::Auto)
        } else if eq_ignore_case(name, "start"@) {
            Some(TextAlignLast::Start)
        } else if eq_ignore_case(name, "end"@) {
            Some(TextAlignLast::End)
        } else if eq_ignore_case(name, "left"@) {
            Some(TextAlignLast::Left)
        } else if eq_ignore_case(name, "right"@) {
            Some(TextAlignLast::Right)
        } else if eq_ignore_case(name, "center"@) {
            Some(TextAlignLast::Center)
        } else if eq_ignore_case(name, "justify"@) {
            Some(TextAlignLast::Justify)
        } else if eq_ignore_case(name, "match-parent"@) {
            Some(TextAlignLast::MatchParent)
        } else {
            None
        }
    }

    fn from_ident(ident: &str) -> (k: Option<TextAlignLast>) {
        if eq_ignore_ascii_case(ident, "auto") {
            Some(TextAlignLast::Auto)
        } else if eq_ignore_ascii_case(ident, "start") {
            Some(TextAlignLast::Start)
        } else if eq_ignore_ascii_case(ident, "end") {
            Some(TextAlignLast::End)
        } else if eq_ignore_ascii_case(ident, "left") {
            Some(TextAlignLast::Left)
        } else if eq_ignore_ascii_case(ident, "right") {
            Some(TextAlignLast::Right)
        } else if eq_ignore_ascii_case(ident, "center") {
            Some(TextAlignLast::Center)
        } else if eq_ignore_ascii_case(ident, "justify") {
            Some(TextAlignLast::Justify)
        } else if eq_ignore_ascii_case(ident, "match-parent") {
            Some(TextAlignLast::MatchParent)
        } else {
            None
        }
    }

    fn as_str(&self) -> (s: &'static str) {
        match self {
            TextAlignLast::Auto => "auto",
            TextAlignLast::Start => "start",
            TextAlignLast::End => "end",
            TextAlignLast::Left => "left",
            TextAlignLast::Right => "right",
            TextAlignLast::Center => "center",
            TextAlignLast::Justify => "justify",
            TextAlignLast::MatchParent => "match-parent",
        }
    }

    proof fn spelling_is_read_back(self) {
        reveal_strlit("auto");
        reveal_strlit("start");
        reveal_strlit("end");
        reveal_strlit("left");
        reveal_strlit("right");
        reveal_strlit("center");
        reveal_strlit("justify");
        reveal_strlit("match-parent");
        match self {
            TextAlignLast::Auto => {
                eq_ignore_case_refl("auto"@);
            },
            TextAlignLast::Start => {
                eq_ignore_case_refl("start"@);
            },
            TextAlignLast::End => {
                eq_ignore_case_refl("end"@);
            },
            TextAlignLast::Left => {
                assert(lower("left"@[0]) != lower("auto"@[0]));
                eq_ignore_case_refl("left"@);
            },
            TextAlignLast::Right => {
                assert(lower("right"@[0]) != lower("start"@[0]));
                eq_ignore_case_refl("right"@);
            },
            TextAlignLast::Center => {
                eq_ignore_case_refl("center"@);
            },
            TextAlignLast::Justify => {
                eq_ignore_case_refl("justify"@);
            },
            TextAlignLast::MatchParent => {
                eq_ignore_case_refl("match-parent"@);
            },
        }
    }
}

impl View for TextAlignLast {
    type V = TextAlignLast;

    open spec fn view(&self) -> TextAlignLast {
        *self
    }
}

impl Parse for TextAlignLast {
    open spec fn parse_spec(rest: Seq<Component>) -> Option<(TextAlignLast, nat)> {
        keyword_spec::<TextAlignLast>(rest)
    }

    open spec fn failure() -> ErrorKind {
        ErrorKind::NoMatch
    }

    fn parse(input: &mut cssparser::Parser) -> (r: Result<TextAlignLast, ParseError>) {
        parse_keyword::<TextAlignLast>(input)
    }
}

impl ToCss for TextAlignLast {
    open spec fn canonical(v: TextAlignLast) -> Seq<Component> {
        seq![word(v.name())]
    }

    fn to_css(&self, dest: &mut Printer) {
        dest.write_str(self.as_str());
    }
}

impl Canonical for TextAlignLast {
    open spec fn reads_back(v: TextAlignLast) -> bool {
        true
    }

    proof fn canonical_is_read_back(v: TextAlignLast) {
        v.spelling_is_read_back();
    }
}

/// The values of `text-justify`.
#[derive(Clone, Copy, Debug, PartialEq, Eq, Structural)]
pub enum TextJustify {
    Auto,
    NoJustify,
    InterWord,
    InterCharacter,
}

impl Keyword for TextJustify {
    open spec fn name(self) -> Seq<char> {
        match self {
            TextJustify::Auto => "auto"@,
            TextJustify::NoJustify => "none"@,
            TextJustify::InterWord => "inter-word"@,
            TextJustify::InterCharacter => "inter-character"@,
        }
    }

    open spec fn from_name(name: Seq<char>) -> Option<TextJustify> {
        if eq_ignore_case(name, "auto"@) {
            Some(TextJustify::Auto)
        } else if eq_ignore_case(name, "none"@) {
            Some(TextJustify::NoJustify)
        } else if eq_ignore_case(name, "inter-word"@) {
            Some(TextJustify::InterWord)
        } else if eq_ignore_case(name, "inter-character"@) {
            Some(TextJustify::InterCharacter)
        } else {
            None
        }
    }

    fn from_ident(ident: &str) -> (k: Option<TextJustify>) {
        if eq_ignore_ascii_case(ident, "auto") {
            Some(TextJustify::Auto)
        } else if eq_ignore_ascii_case(ident, "none") {
            Some(TextJustify::NoJustify)
        } else if eq_ignore_ascii_case(ident, "inter-word") {
            Some(TextJustify::InterWord)
        } else if eq_ignore_ascii_case(ident, "inter-character") {
            Some(TextJustify::InterCharacter)
        } else {
            None
        }
    }

    fn as_str(&self) -> (s: &'static str) {
        match self {
            TextJustify::Auto => "auto",
            TextJustify::NoJustify => "none",
            TextJustify::InterWord => "inter-word",
            TextJustify::InterCharacter => "inter-character",
        }
    }

    proof fn spelling_is_read_back(self) {
        reveal_strlit("auto");
        reveal_strlit("none");
        reveal_strlit("inter-word");
        reveal_strlit("inter-character");
        match self {
            TextJustify::Auto => {
                eq_ignore_case_refl("auto"@);
            },
            TextJustify::NoJustify => {
                assert(lower("none"@[0]) != lower("auto"@[0]));
                eq_ignore_case_refl("none"@);
            },
            TextJustify::InterWord => {
                eq_ignore_case_refl("inter-word"@);
            },
            TextJustify::InterCharacter => {
                eq_ignore_case_refl("inter-character"@);
            },
        }
    }
}

impl View for TextJustify {
    type V = TextJustify;

    open spec fn view(&self) -> TextJustify {
        *self
    }
}

impl Parse for TextJustify {
    open spec fn parse_spec(rest: Seq<Component>) -> Option<(TextJustify, nat)> {
        keyword_spec::<TextJustify>(rest)
    }

    open spec fn failure() -> ErrorKind {
        ErrorKind::NoMatch
    }

    fn parse(input: &mut cssparser::Parser) -> (r: Result<TextJustify, ParseError>) {
        parse_keyword::<TextJustify>(input)
    }
}

impl ToCss for TextJustify {
    open spec fn canonical(v: TextJustify) -> Seq<Component> {
        seq![word(v.name())]
    }

    fn to_css(&self, dest: &mut Printer) {
        dest.write_str(self.as_str());
    }
}

impl Canonical for TextJustify {
    open spec fn reads_back(v: TextJustify) -> bool {
        true
    }

    proof fn canonical_is_read_back(v: TextJustify) {
        v.spelling_is_read_back();
    }
}

} // verus!
