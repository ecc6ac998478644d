//! The keywords of the properties that govern white space and line breaking.

use crate::ascii::{eq_ignore_ascii_case, eq_ignore_case, eq_ignore_case_refl, lower};
use crate::cursor::{Component, ErrorKind, ParseError};
use crate::keyword::{keyword_spec, parse_keyword, Keyword};
use crate::printer::{word, Printer};
use crate::traits::{Canonical, Parse, ToCss};
use vstd::prelude::*;

verus! {

/// The values of `white-space`.
#[derive(Clone, Copy, Debug, PartialEq, Eq, Structural)]
pub enum WhiteSpace {
    Normal,
    Pre,
    NoWrap,
    PreWrap,
    BreakSpaces,
    PreLine,
}

impl Keyword for WhiteSpace {
    open spec fn name(self) -> Seq<char> {
        match self {
            WhiteSpace::Normal => "normal"@,
            WhiteSpace::Pre => "pre"@,
            WhiteSpace::NoWrap => "nowrap"@,
            WhiteSpace::PreWrap => "pre-wrap"@,
            WhiteSpace::BreakSpaces => "break-spaces"@,
            WhiteSpace::PreLine => "pre-line"@,
        }
    }

    open spec fn from_name(name: Seq<char>) -> Option<WhiteSpace> {
        if eq_ignore_case(name, "normal"@) {
            Some(WhiteSpace::Normal)
        } else if eq_ignore_case(name, "pre"@) {
            Some(WhiteSpace::Pre)
        } else if eq_ignore_case(name, "nowrap"@) {
            Some(WhiteSpace::NoWrap)
        } else if eq_ignore_case(name, "pre-wrap"@) {
            Some(WhiteSpace::PreWrap)
        } else if eq_ignore_case(name, "break-spaces"@) {
            Some(WhiteSpace::BreakSpaces)
        } else if eq_ignore_case(name, "pre-line"@) {
            Some(WhiteSpace::PreLine)
        } else {
            None
        }
    }

    fn from_ident(ident: &str) -> (k: Option<WhiteSpace>) {
        if eq_ignore_ascii_case(ident, "normal") {
            Some(WhiteSpace::Normal)
        } else if eq_ignore_ascii_case(ident, "pre") {
            Some(WhiteSpace::Pre)
        } else if eq_ignore_ascii_case(ident, "nowrap") {
            Some(WhiteSpace::NoWrap)
        } else if eq_ignore_ascii_case(ident, "pre-wrap") {
            Some(WhiteSpace::PreWrap)
        } else if eq_ignore_ascii_case(ident, "break-spaces") {
            Some(WhiteSpace::BreakSpaces)
        } else if eq_ignore_ascii_case(ident, "pre-line") {
            Some(WhiteSpace::PreLine)
        } else {
            None
        }
    }

    fn as_str(&self) -> (s: &'static str) {
        match self {
            WhiteSpace::Normal => "normal",
            WhiteSpace::Pre => "pre",
            WhiteSpace::NoWrap => "nowrap",
            WhiteSpace::PreWrap => "pre-wrap",
            WhiteSpace::BreakSpaces => "break-spaces",
            WhiteSpace::PreLine => "pre-line",
        }
    }

    proof fn spelling_is_read_back(self) {
        reveal_strlit("normal");
        reveal_strlit("pre");
        reveal_strlit("nowrap");
        reveal_strlit("pre-wrap");
        reveal_strlit("break-spaces");
        reveal_strlit("pre-line");
        match self {
            WhiteSpace::Normal => {
                eq_ignore_case_refl("normal"@);
            },
            WhiteSpace::Pre => {
                eq_ignore_case_refl("pre"@);
            },
            WhiteSpace::NoWrap => {
                assert(lower("nowrap"@[2]) != lower("normal"@[2]));
                eq_ignore_case_refl("nowrap"@);
            },
            WhiteSpace::PreWrap => {
                eq_ignore_case_refl("pre-wrap"@);
            },
            WhiteSpace::BreakSpaces => {
                eq_ignore_case_refl("break-spaces"@);
            },
            WhiteSpace::PreLine => {
                assert(lower("pre-line"@[4]) != lower("pre-wrap"@[4]));
                eq_ignore_case_refl("pre-line"@);
            },
        }
    }
}

impl View for WhiteSpace {
    type V = WhiteSpace;

    open spec fn view(&self) -> WhiteSpace {
        *self
    }
}

impl Parse for WhiteSpace {
    open spec fn parse_spec(rest: Seq<Component>) -> Option<(WhiteSpace, nat)> {
        keyword_spec::<WhiteSpace>(rest)
    }

    open spec fn failure() -> ErrorKind {
        ErrorKind::NoMatch
    }

    fn parse(input: &mut cssparser::Parser) -> (r: Result<WhiteSpace, ParseError>) {
        parse_keyword::<WhiteSpace>(input)
    }
}

impl ToCss for WhiteSpace {
    open spec fn canonical(v: WhiteSpace) -> Seq<Component> {
        seq![word(v.name())]
    }

    fn to_css(&self, dest: &mut Printer) {
        dest.write_str(self.as_str());
    }
}

impl Canonical for WhiteSpace {
    open spec fn reads_back(v: WhiteSpace) -> bool {
        true
    }

    proof fn canonical_is_read_back(v: WhiteSpace) {
        v.spelling_is_read_back();
    }
}

/// The values of `word-break`.
#[derive(Clone, Copy, Debug, PartialEq, Eq, Structural)]
pub enum WordBreak {
    Normal,
    KeepAll,
    BreakAll,
    BreakWord,
}

impl Keyword for WordBreak {
    open spec fn name(self) -> Seq<char> {
        match self {
            WordBreak::Normal => "normal"@,
            WordBreak::KeepAll => "keep-all"@,
            WordBreak::BreakAll => "break-all"@,
            WordBreak::BreakWord => "break-word"@,
        }
    }

    open spec fn from_name(name: Seq<char>) -> Option<WordBreak> {
        if eq_ignore_case(name, "normal"@) {
            Some(WordBreak::Normal)
        } else if eq_ignore_case(name, "keep-all"@) {
            Some(WordBreak::KeepAll)
        } else if eq_ignore_case(name, "break-all"@) {
            Some(WordBreak::BreakAll)
        } else if eq_ignore_case(name, "break-word"@) {
            Some(WordBreak::BreakWord)
        } else {
            None
        }
    }

    fn from_ident(ident: &str) -> (k: Option<WordBreak>) {
        if eq_ignore_ascii_case(ident, "normal") {
            Some(WordBreak::Normal)
        } else if eq_ignore_ascii_case(ident, "keep-all") {
            Some(WordBreak::KeepAll)
        } else if eq_ignore_ascii_case(ident, "break-all") {
            Some(WordBreak::BreakAll)
        } else if eq_ignore_ascii_case(ident, "break-word") {
            Some(WordBreak::BreakWord)
        } else {
            None
        }
    }

    fn as_str(&self) -> (s: &'static str) {
        match self {
            WordBreak::Normal => "normal",
            WordBreak::KeepAll => "keep-all",
            WordBreak::BreakAll => "break-all",
            WordBreak::BreakWord => "break-word",
        }
    }

    proof fn spelling_is_read_back(self) {
        reveal_strlit("normal");
        reveal_strlit("keep-all");
        reveal_strlit("break-all");
        reveal_strlit("break-word");
        match self {
            WordBreak::Normal => {
                eq_ignore_case_refl("normal"@);
            },
            WordBreak::KeepAll => {
                eq_ignore_case_refl("keep-all"@);
            },
            WordBreak::BreakAll => {
                eq_ignore_case_refl("break-all"@);
            },
            WordBreak::BreakWord => {
                eq_ignore_case_refl("break-word"@);
            },
        }
    }
}

impl View for WordBreak {
    type V = WordBreak;

    open spec fn view(&self) -> WordBreak {
        *self
    }
}

impl Parse for WordBreak {
    open spec fn parse_spec(rest: Seq<Component>) -> Option<(WordBreak, nat)> {
        keyword_spec::<WordBreak>(rest)
    }

    open spec fn failure() -> ErrorKind {
        ErrorKind::NoMatch
    }

    fn parse(input: &mut cssparser::Parser) -> (r: Result<WordBreak, ParseError>) {
        parse_keyword::<WordBreak>(input)
    }
}

impl ToCss for WordBreak {
    open spec fn canonical(v: WordBreak) -> Seq<Component> {
        seq![word(v.name())]
    }

    fn to_css(&self, dest: &mut Printer) {
        dest.write_str(self.as_str());
    }
}

impl Canonical for WordBreak {
    open spec fn reads_back(v: WordBreak) -> bool {
        true
    }

    proof fn canonical_is_read_back(v: WordBreak) {
        v.spelling_is_read_back();
    }
}

/// The values of `line-break`.
#[derive(Clone, Copy, Debug, PartialEq, Eq, Structural)]
pub enum LineBreak {
    Auto,
    Loose,
    Normal,
    Strict,
    Anywhere,
}

impl Keyword for LineBreak {
    open spec fn name(self) -> Seq<char> {
        match self {
            LineBreak::Auto => "auto"@,
            LineBreak::Loose => "loose"@,
            LineBreak::Normal => "normal"@,
            LineBreak::Strict => "strict"@,
            LineBreak::Anywhere => "anywhere"@,
        }
    }

    open spec fn from_name(name: Seq<char>) -> Option<LineBreak> {
        if eq_ignore_case(name, "auto"@) {
            Some(LineBreak::Auto)
        } else if eq_ignore_case(name, "loose"@) {
            Some(LineBreak::Loose)
        } else if eq_ignore_case(name, "normal"@) {
            Some(LineBreak::Normal)
        } else if eq_ignore_case(name, "strict"@) {
            Some(LineBreak::Strict)
        } else if eq_ignore_case(name, "anywhere"@) {
            Some(LineBreak::Anywhere)
        } else {
            None
        }
    }

    fn from_ident(ident: &str) -> (k: Option<LineBreak>) {
        if eq_ignore_ascii_case(ident, "auto") {
            Some(LineBreak::Auto)
        } else if eq_ignore_ascii_case(ident, "loose") {
            Some(LineBreak::Loose)
        } else if eq_ignore_ascii_case(ident, "normal") {
            Some(LineBreak::Normal)
        } else if eq_ignore_ascii_case(ident, "strict") {
            Some(LineBreak::Strict)
        } else if eq_ignore_ascii_case(ident, "anywhere") {
            Some(LineBreak::Anywhere)
        } else {
            None
        }
    }

    fn as_str(&self) -> (s: &'static str) {
        match self {
            LineBreak::Auto => "auto",
            LineBreak::Loose => "loose",
            LineBreak::Normal => "normal",
            LineBreak::Strict => "strict",
            LineBreak::Anywhere => "anywhere",
        }
    }

    proof fn spelling_is_read_back(self) {
        reveal_strlit("auto");
        reveal_strlit("loose");
        reveal_strlit("normal");
        reveal_strlit("strict");
        reveal_strlit("anywhere");
        match self {
            LineBreak::Auto => {
                eq_ignore_case_refl("auto"@);
            },
            LineBreak::Loose => {
                eq_ignore_case_refl("loose"@);
            },
            LineBreak::Normal => {
                eq_ignore_case_refl("normal"@);
            },
            LineBreak::Strict => {
                assert(lower("strict"@[0]) != lower("normal"@[0]));
                eq_ignore_case_refl("strict"@);
            },
            LineBreak::Anywhere => {
                eq_ignore_case_refl("anywhere"@);
            },
        }
    }
}

impl View for LineBreak {
    type V = LineBreak;

    open spec fn view(&self) -> LineBreak {
        *self
    }
}

impl Parse for LineBreak {
    open spec fn parse_spec(rest: Seq<Component>) -> Option<(LineBreak, nat)> {
        keyword_spec::<LineBreak>(rest)
    }

    open spec fn failure() -> ErrorKind {
        ErrorKind::NoMatch
    }

    fn parse(input: &mut cssparser::Parser) -> (r: Result<LineBreak, ParseError>) {
        parse_keyword::<LineBreak>(input)
    }
}

impl ToCss for LineBreak {
    open spec fn canonical(v: LineBreak) -> Seq<Component> {
        seq![word(v.name())]
    }

    fn to_css(&self, dest: &mut Printer) {
        dest.write_str(self.as_str());
    }
}

impl Canonical for LineBreak {
    open spec fn reads_back(v: LineBreak) -> bool {
        true
    }

    proof fn canonical_is_read_back(v: LineBreak) {
        v.spelling_is_read_back();
    }
}

/// The values of `hyphens`.
#[derive(Clone, Copy, Debug, PartialEq, Eq, Structural)]
pub enum Hyphens {
    NoHyphens,
    Manual,
    Auto,
}

impl Keyword for Hyphens {
    open spec fn name(self) -> Seq<char> {
        match self {
            Hyphens::NoHyphens => "none"@,
            Hyphens::Manual => "manual"@,
            Hyphens::Auto => "auto"@,
        }
    }

    open spec fn from_name(name: Seq<char>) -> Option<Hyphens> {
        if eq_ignore_case(name, "none"@) {
            Some(Hyphens::NoHyphens)
        } else if eq_ignore_case(name, "manual"@) {
            Some(Hyphens::Manual)
        } else if eq_ignore_case(name, "auto"@) {
            Some(Hyphens::Auto)
        } else {
            None
        }
    }

    fn from_ident(ident: &str) -> (k: Option<Hyphens>) {
        if eq_ignore_ascii_case(ident, "none") {
            Some(Hyphens::NoHyphens)
        } else if eq_ignore_ascii_case(ident, "manual") {
            Some(Hyphens::Manual)
        } else if eq_ignore_ascii_case(ident, "auto") {
            Some(Hyphens::Auto)
        } else {
            None
        }
    }

    fn as_str(&self) -> (s: &'static str) {
        match self {
            Hyphens::NoHyphens => "none",
            Hyphens::Manual => "manual",
            Hyphens::Auto => "auto",
        }
    }

    proof fn spelling_is_read_back(self) {
        reveal_strlit("none");
        reveal_strlit("manual");
        reveal_strlit("auto");
        match self {
            Hyphens::NoHyphens => {
                eq_ignore_case_refl("none"@);
            },
            Hyphens::Manual => {
                eq_ignore_case_refl("manual"@);
            },
            Hyphens::Auto => {
                assert(lower("auto"@[0]) != lower("none"@[0]));
                eq_ignore_case_refl("auto"@);
            },
        }
    }
}

impl View for Hyphens {
    type V = Hyphens;

    open spec fn view(&self) -> Hyphens {
        *self
    }
}

impl Parse for Hyphens {
    open spec fn parse_spec(rest: Seq<Component>) -> Option<(Hyphens, nat)> {
        keyword_spec::<Hyphens>(rest)
    }

    open spec fn failure() -> ErrorKind {
        ErrorKind::NoMatch
    }

    fn parse(input: &mut cssparser::Parser) -> (r: Result<Hyphens, ParseError>) {
        parse_keyword::<Hyphens>(input)
    }
}

impl ToCss for Hyphens {
    open spec fn canonical(v: Hyphens) -> Seq<Component> {
        seq![word(v.name())]
    }

    fn to_css(&self, dest: &mut Printer) {
        dest.write_str(self.as_str());
    }
}

impl Canonical for Hyphens {
    open spec fn reads_back(v: Hyphens) -> bool {
        true
    }

    proof fn canonical_is_read_back(v: Hyphens) {
        v.spelling_is_read_back();
    }
}

/// The values of `overflow-wrap`.
#[derive(Clone, Copy, Debug, PartialEq, Eq, Structural)]
pub enum OverflowWrap {
    Normal,
    BreakWord,
    Anywhere,
}

impl Keyword for OverflowWrap {
    open spec fn name(self) -> Seq<char> {
        match self {
            OverflowWrap::Normal => "normal"@,
            OverflowWrap::BreakWord => "break-word"@,
            OverflowWrap::Anywhere => "anywhere"@,
        }
    }

    open spec fn from_name(name: Seq<char>) -> Option<OverflowWrap> {
        if eq_ignore_case(name, "normal"@) {
            Some(OverflowWrap::Normal)
        } else if eq_ignore_case(name, "break-word"@) {
            Some(OverflowWrap::BreakWord)
        } else if eq_ignore_case(name, "anywhere"@) {
            Some(OverflowWrap::Anywhere)
        } else {
            None
        }
    }

    fn from_ident(ident: &str) -> (k: Option<OverflowWrap>) {
        if eq_ignore_ascii_case(ident, "normal") {
            Some(OverflowWrap::Normal)
        } else if eq_ignore_ascii_case(ident, "break-word") {
            Some(OverflowWrap::BreakWord)
        } else if eq_ignore_ascii_case(ident, "anywhere") {
            Some(OverflowWrap::Anywhere)
        } else {
            None
        }
    }

    fn as_str(&self) -> (s: &'static str) {
        match self {
            OverflowWrap::Normal => "normal",
            OverflowWrap::BreakWord => "break-word",
            OverflowWrap::Anywhere => "anywhere",
        }
    }

    proof fn spelling_is_read_back(self) {
        reveal_strlit("normal");
        reveal_strlit("break-word");
        reveal_strlit("anywhere");
        match self {
            OverflowWrap::Normal => {
                eq_ignore_case_refl("normal"@);
            },
            OverflowWrap::BreakWord => {
                eq_ignore_case_refl("break-word"@);
            },
            OverflowWrap::Anywhere => {
                eq_ignore_case_refl("anywhere"@);
            },
        }
    }
}

impl View for OverflowWrap {
    type V = OverflowWrap;

    open spec fn view(&self) -> OverflowWrap {
        *self
    }
}

impl Parse for OverflowWrap {
    open spec fn parse_spec(rest: Seq<Component>) -> Option<(OverflowWrap, nat)> {
        keyword_spec::<OverflowWrap>(rest)
    }

    open spec fn failure() -> ErrorKind {
        ErrorKind::NoMatch
    }

    fn parse(input: &mut cssparser::Parser) -> (r: Result<OverflowWrap, ParseError>) {
        parse_keyword::<OverflowWrap>(input)
    }
}

impl ToCss for OverflowWrap {
    open spec fn canonical(v: OverflowWrap) -> Seq<Component> {
        seq![word(v.name())]
    }

    fn to_css(&self, dest: &mut Printer) {
        dest.write_str(self.as_str());
    }
}

impl Canonical for OverflowWrap {
    open spec fn reads_back(v: OverflowWrap) -> bool {
        true
    }

    proof fn canonical_is_read_back(v: OverflowWrap) {
        v.spelling_is_read_back();
    }
}

} // verus!
