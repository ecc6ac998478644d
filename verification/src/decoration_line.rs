//! The lines of `text-decoration-line`: a set of flags, two of which stand
//! alone.

use crate::ascii::{eq_ignore_ascii_case, eq_ignore_case, eq_ignore_case_refl};
use crate::cursor::{
    advance, advanced, advanced_more, advanced_none, current_location, location, peek, remaining,
    restore, save, Component, ErrorKind, Lexeme, ParseError, Token,
};
use crate::printer::{
    all_well_spaced, all_well_spaced_push, space_between, text_of, text_of_is_well_spaced,
    text_of_push, unbroken, well_spaced, word, Printer,
};
use crate::traits::{Canonical, Parse, ToCss};
use vstd::prelude::*;

verus! {

/// A set of decoration lines, one bit to each.
#[derive(Clone, Copy, Debug, PartialEq, Eq, Structural)]
pub struct TextDecorationLine {
    pub bits: u8,
}

/// Which lines a `TextDecorationLine` holds.
pub struct LineFlags {
    pub underline: bool,
    pub overline: bool,
    pub line_through: bool,
    pub blink: bool,
    pub spelling_error: bool,
    pub grammar_error: bool,
    /// The bits that stand for no line: the two highest, as they are.
    pub unknown: u8,
}

impl LineFlags {
    /// No line.
    pub open spec fn empty() -> LineFlags {
        LineFlags {
            underline: false,
            overline: false,
            line_through: false,
            blink: false,
            spelling_error: false,
            grammar_error: false,
            unknown: 0,
        }
    }

    /// No line is set.
    pub open spec fn is_empty(self) -> bool {
        &&& !self.underline
        &&& !self.overline
        &&& !self.line_through
        &&& !self.blink
        &&& !self.spelling_error
        &&& !self.grammar_error
    }

    /// No bit is set but those of the six lines.
    pub open spec fn known(self) -> bool {
        self.unknown == 0
    }

    /// Every line of `self` or of `other`.
    pub open spec fn union(self, other: LineFlags) -> LineFlags {
        LineFlags {
            underline: self.underline || other.underline,
            overline: self.overline || other.overline,
            line_through: self.line_through || other.line_through,
            blink: self.blink || other.blink,
            spelling_error: self.spelling_error || other.spelling_error,
            grammar_error: self.grammar_error || other.grammar_error,
            unknown: if other.unknown == 0 {
                self.unknown
            } else if self.unknown == 0 {
                other.unknown
            } else {
                self.unknown | other.unknown
            },
        }
    }

    /// Every line of `self` is one of `other`.
    pub open spec fn subset_of(self, other: LineFlags) -> bool {
        &&& self.underline ==> other.underline
        &&& self.overline ==> other.overline
        &&& self.line_through ==> other.line_through
        &&& self.blink ==> other.blink
        &&& self.spelling_error ==> other.spelling_error
        &&& self.grammar_error ==> other.grammar_error
    }

    /// One of the two lines that stand alone is set.
    pub open spec fn exclusive(self) -> bool {
        self.spelling_error || self.grammar_error
    }

    /// The combinations that the grammar allows: no bit is set that stands
    /// for no line, and a line that stands alone is the only one set.
    pub open spec fn allowed(self) -> bool {
        &&& self.known()
        &&& self.spelling_error ==> self == LineFlags { spelling_error: true, ..Self::empty() }
        &&& self.grammar_error ==> self == LineFlags { grammar_error: true, ..Self::empty() }
    }

    /// What becomes of the set when the keyword `name` follows: the new set
    /// where the keyword is taken, `None` where it is not. `none` is taken
    /// while no line is set, and sets none. A line that stands alone is taken
    /// only while no line is set, and after it nothing is. Any other line is
    /// taken once.
    pub open spec fn accept(self, name: Seq<char>) -> Option<LineFlags> {
        if eq_ignore_case(name, "none"@) {
            if self.is_empty() {
                Some(self)
            } else {
                None
            }
        } else if self.exclusive() {
            None
        } else if eq_ignore_case(name, "underline"@) {
            if !self.underline {
                Some(LineFlags { underline: true, ..self })
            } else {
                None
            }
        } else if eq_ignore_case(name, "overline"@) {
            if !self.overline {
                Some(LineFlags { overline: true, ..self })
            } else {
                None
            }
        } else if eq_ignore_case(name, "line-through"@) {
            if !self.line_through {
                Some(LineFlags { line_through: true, ..self })
            } else {
                None
            }
        } else if eq_ignore_case(name, "blink"@) {
            if !self.blink {
                Some(LineFlags { blink: true, ..self })
            } else {
                None
            }
        } else if eq_ignore_case(name, "spelling-error"@) {
            if self.is_empty() {
                Some(LineFlags { spelling_error: true, ..self })
            } else {
                None
            }
        } else if eq_ignore_case(name, "grammar-error"@) {
            if self.is_empty() {
                Some(LineFlags { grammar_error: true, ..self })
            } else {
                None
            }
        } else {
            None
        }
    }

    /// What becomes of the set when `rest` follows: as `accept` says of the
    /// identifier that `rest` begins with.
    pub open spec fn step(self, rest: Seq<Component>) -> Option<LineFlags> {
        if rest.len() > 0 {
            match rest[0].lexeme {
                Lexeme::Ident(name) => self.accept(name),
                _ => None,
            }
        } else {
            None
        }
    }
}

impl View for TextDecorationLine {
    type V = LineFlags;

    open spec fn view(&self) -> LineFlags {
        LineFlags {
            underline: self.bits & 1 != 0,
            overline: self.bits & 2 != 0,
            line_through: self.bits & 4 != 0,
            blink: self.bits & 8 != 0,
            spelling_error: self.bits & 16 != 0,
            grammar_error: self.bits & 32 != 0,
            unknown: self.bits & 192,
        }
    }
}

/// How far a parse of the lines has come: the lines set, whether any
/// keyword was taken, and how many.
pub struct LineScan {
    pub flags: LineFlags,
    pub any: bool,
    pub taken: nat,
}

impl LineScan {
    /// The same outcome, reached after `n` more component values.
    pub open spec fn later(self, n: nat) -> LineScan {
        LineScan { taken: self.taken + n, ..self }
    }
}

impl Default for TextDecorationLine {
    /// No line.
    fn default() -> (r: TextDecorationLine)
        ensures
            r@ == LineFlags::empty(),
            r.bits == 0,
    {
        TextDecorationLine::empty()
    }
}

impl TextDecorationLine {
    /// The set that holds `underline` only.
    pub fn underline() -> (r: TextDecorationLine)
        ensures
            r@ == (LineFlags { underline: true, ..LineFlags::empty() }),
            r.bits == 1,
    {
        assert(1u8 & 1 != 0 && 1u8 & 2 == 0 && 1u8 & 4 == 0 && 1u8 & 8 == 0 && 1u8 & 16 == 0 && 1u8 & 32 == 0 && 1u8 & 192 == 0) by (bit_vector);
        TextDecorationLine { bits: 1 }
    }

    /// The set that holds `overline` only.
    pub fn overline() -> (r: TextDecorationLine)
        ensures
            r@ == (LineFlags { overline: true, ..LineFlags::empty() }),
            r.bits == 2,
    {
        assert(2u8 & 1 == 0 && 2u8 & 2 != 0 && 2u8 & 4 == 0 && 2u8 & 8 == 0 && 2u8 & 16 == 0 && 2u8 & 32 == 0 && 2u8 & 192 == 0) by (bit_vector);
        TextDecorationLine { bits: 2 }
    }

    /// The set that holds `line-through` only.
    pub fn line_through() -> (r: TextDecorationLine)
        ensures
            r@ == (LineFlags { line_through: true, ..LineFlags::empty() }),
            r.bits == 4,
    {
        assert(4u8 & 1 == 0 && 4u8 & 2 == 0 && 4u8 & 4 != 0 && 4u8 & 8 == 0 && 4u8 & 16 == 0 && 4u8 & 32 == 0 && 4u8 & 192 == 0) by (bit_vector);
        TextDecorationLine { bits: 4 }
    }

    /// The set that holds `blink` only.
    pub fn blink() -> (r: TextDecorationLine)
        ensures
            r@ == (LineFlags { blink: true, ..LineFlags::empty() }),
            r.bits == 8,
    {
        assert(8u8 & 1 == 0 && 8u8 & 2 == 0 && 8u8 & 4 == 0 && 8u8 & 8 != 0 && 8u8 & 16 == 0 && 8u8 & 32 == 0 && 8u8 & 192 == 0) by (bit_vector);
        TextDecorationLine { bits: 8 }
    }

    /// The set that holds `spelling-error` only. It stands alone.
    pub fn spelling_error() -> (r: TextDecorationLine)
        ensures
            r@ == (LineFlags { spelling_error: true, ..LineFlags::empty() }),
            r.bits == 16,
    {
        assert(16u8 & 1 == 0 && 16u8 & 2 == 0 && 16u8 & 4 == 0 && 16u8 & 8 == 0 && 16u8 & 16 != 0 && 16u8 & 32 == 0 && 16u8 & 192 == 0) by (bit_vector);
        TextDecorationLine { bits: 16 }
    }

    /// The set that holds `grammar-error` only. It stands alone.
    pub fn grammar_error() -> (r: TextDecorationLine)
        ensures
            r@ == (LineFlags { grammar_error: true, ..LineFlags::empty() }),
            r.bits == 32,
    {
        assert(32u8 & 1 == 0 && 32u8 & 2 == 0 && 32u8 & 4 == 0 && 32u8 & 8 == 0 && 32u8 & 16 == 0 && 32u8 & 32 != 0 && 32u8 & 192 == 0) by (bit_vector);
        TextDecorationLine { bits: 32 }
    }

    /// The set with no line.
    pub fn empty() -> (r: TextDecorationLine)
        ensures
            r@ == LineFlags::empty(),
            r.bits == 0,
    {
        assert(0u8 & 1 == 0 && 0u8 & 2 == 0 && 0u8 & 4 == 0 && 0u8 & 8 == 0 && 0u8 & 16 == 0 && 0u8
            & 32 == 0 && 0u8 & 192 == 0) by (bit_vector);
        TextDecorationLine { bits: 0 }
    }

    /// The bits of the set.
    pub fn bits(&self) -> (bits: u8)
        ensures
            bits == self.bits,
    {
        self.bits
    }

    /// Whether no line is set.
    pub fn is_empty(&self) -> (r: bool)
        ensures
            r == self@.is_empty(),
    {
        let bits = self.bits;
        assert((bits & 63 == 0) <==> (bits & 1 == 0 && bits & 2 == 0 && bits & 4 == 0 && bits & 8
            == 0 && bits & 16 == 0 && bits & 32 == 0)) by (bit_vector);
        self.bits & 63 == 0
    }

    /// Whether every line of `other` is set.
    pub fn contains(&self, other: TextDecorationLine) -> (r: bool)
        ensures
            r == other@.subset_of(self@),
    {
        let a = self.bits;
        let b = other.bits;
        assert((a & b & 63 == b & 63) <==> ((b & 1 != 0 ==> a & 1 != 0) && (b & 2 != 0 ==> a & 2
            != 0) && (b & 4 != 0 ==> a & 4 != 0) && (b & 8 != 0 ==> a & 8 != 0) && (b & 16 != 0
            ==> a & 16 != 0) && (b & 32 != 0 ==> a & 32 != 0))) by (bit_vector);
        self.bits & other.bits & 63 == other.bits & 63
    }

    /// The lines of both sets.
    pub fn union(self, other: TextDecorationLine) -> (r: TextDecorationLine)
        ensures
            r@ == self@.union(other@),
            r.bits == self.bits | other.bits,
    {
        let a = self.bits;
        let b = other.bits;
        assert(((a | b) & 1 != 0) == (a & 1 != 0 || b & 1 != 0) && ((a | b) & 2 != 0) == (a & 2 != 0
            || b & 2 != 0) && ((a | b) & 4 != 0) == (a & 4 != 0 || b & 4 != 0) && ((a | b) & 8
            != 0) == (a & 8 != 0 || b & 8 != 0) && ((a | b) & 16 != 0) == (a & 16 != 0 || b & 16
            != 0) && ((a | b) & 32 != 0) == (a & 32 != 0 || b & 32 != 0)) by (bit_vector);
        assert((a | b) & 192 == if b & 192 == 0 {
            a & 192
        } else if a & 192 == 0 {
            b & 192
        } else {
            (a & 192) | (b & 192)
        }) by (bit_vector);
        TextDecorationLine { bits: self.bits | other.bits }
    }

    /// The view says all there is: two sets with one view are one set.
    pub proof fn same_view_same_set(a: TextDecorationLine, b: TextDecorationLine)
        requires
            a@ == b@,
        ensures
            a == b,
    {
        let x = a.bits;
        let y = b.bits;
        assert((x & 1 != 0) == (y & 1 != 0) && (x & 2 != 0) == (y & 2 != 0) && (x & 4 != 0) == (y
            & 4 != 0) && (x & 8 != 0) == (y & 8 != 0) && (x & 16 != 0) == (y & 16 != 0) && (x
            & 32 != 0) == (y & 32 != 0) && x & 192 == y & 192 ==> x == y) by (bit_vector);
    }

    /// What becomes of the set when the keyword `name` follows.
    pub fn accept(self, name: &str) -> (r: Option<TextDecorationLine>)
        ensures
            match self@.accept(name@) {
                Some(flags) => r matches Some(t) && t@ == flags,
                None => r is None,
            },
    {
        if eq_ignore_ascii_case(name, "none") {
            if self.is_empty() {
                Some(self)
            } else {
                None
            }
        } else if self.contains(Self::spelling_error()) || self.contains(Self::grammar_error()) {
            None
        } else if eq_ignore_ascii_case(name, "underline") {
            if !self.contains(Self::underline()) {
                Some(self.union(Self::underline()))
            } else {
                None
            }
        } else if eq_ignore_ascii_case(name, "overline") {
            if !self.contains(Self::overline()) {
                Some(self.union(Self::overline()))
            } else {
                None
            }
        } else if eq_ignore_ascii_case(name, "line-through") {
            if !self.contains(Self::line_through()) {
                Some(self.union(Self::line_through()))
            } else {
                None
            }
        } else if eq_ignore_ascii_case(name, "blink") {
            if !self.contains(Self::blink()) {
                Some(self.union(Self::blink()))
            } else {
                None
            }
        } else if eq_ignore_ascii_case(name, "spelling-error") {
            if self.is_empty() {
                Some(self.union(Self::spelling_error()))
            } else {
                None
            }
        } else if eq_ignore_ascii_case(name, "grammar-error") {
            if self.is_empty() {
                Some(self.union(Self::grammar_error()))
            } else {
                None
            }
        } else {
            None
        }
    }

    /// Takes keywords from `rest` for as long as `accept` takes them.
    pub open spec fn scan(rest: Seq<Component>, flags: LineFlags, any: bool) -> LineScan
        decreases rest.len(),
    {
        match flags.step(rest) {
            Some(next) => Self::scan(rest.skip(1), next, true).later(1),
            None => LineScan { flags, any, taken: 0 },
        }
    }
}

impl Parse for TextDecorationLine {
    /// The lines that the keywords at the front of `rest` set; the parse
    /// fails where `rest` begins with no keyword that is taken.
    open spec fn parse_spec(rest: Seq<Component>) -> Option<(LineFlags, nat)> {
        let end = TextDecorationLine::scan(rest, LineFlags::empty(), false);
        if end.any {
            Some((end.flags, end.taken))
        } else {
            None
        }
    }

    open spec fn failure() -> ErrorKind {
        ErrorKind::EmptyNotAllowed
    }

    fn parse(input: &mut cssparser::Parser) -> (r: Result<TextDecorationLine, ParseError>) {
        let start = save(input);
        let at = current_location(input);
        let mut value = TextDecorationLine::empty();
        let mut any = false;
        let ghost mut taken: nat = 0;
        proof {
            advanced_none(old(input), input);
        }
        loop
            invariant
                advanced(old(input), input, taken),
                TextDecorationLine::scan(remaining(old(input)), LineFlags::empty(), false)
                    == TextDecorationLine::scan(remaining(input), value@, any).later(taken),
            ensures
                TextDecorationLine::scan(remaining(input), value@, any).taken == 0,
            decreases remaining(input).len(),
        {
            let ghost before = *input;
            if let Some(Token::Ident(name)) = peek(input) {
                if let Some(next) = value.accept(name.as_str()) {
                    advance(input);
                    value = next;
                    any = true;
                    proof {
                        advanced_more(old(input), &before, input, taken, 1);
                        taken = taken + 1;
                    }
                    continue ;
                }
            }
            break ;
        }
        if any {
            Ok(value)
        } else {
            restore(input, &start);
            Err(ParseError { kind: ErrorKind::EmptyNotAllowed, location: at })
        }
    }
}

impl ToCss for TextDecorationLine {
    /// `none` for no line; a line that stands alone, alone; otherwise the
    /// lines that are set, in the order underline, overline, line-through,
    /// blink.
    open spec fn canonical(v: LineFlags) -> Seq<Component> {
        if v.is_empty() {
            seq![word("none"@)]
        } else if v.spelling_error {
            seq![word("spelling-error"@)]
        } else if v.grammar_error {
            seq![word("grammar-error"@)]
        } else {
            let none = Seq::<Component>::empty();
            let underline = if v.underline {
                none.push(word("underline"@))
            } else {
                none
            };
            let overline = if v.overline {
                underline.push(word("overline"@))
            } else {
                underline
            };
            let line_through = if v.line_through {
                overline.push(word("line-through"@))
            } else {
                overline
            };
            if v.blink {
                line_through.push(word("blink"@))
            } else {
                line_through
            }
        }
    }

    fn to_css(&self, dest: &mut Printer) {
        if self.is_empty() {
            dest.write_str("none");
            return ;
        }
        if self.contains(TextDecorationLine::spelling_error()) {
            dest.write_str("spelling-error");
            return ;
        }
        if self.contains(TextDecorationLine::grammar_error()) {
            dest.write_str("grammar-error");
            return ;
        }
        let ghost none = Seq::<Component>::empty();
        let mut needs_space = false;
        if self.contains(TextDecorationLine::underline()) {
            dest.write_str("underline");
            needs_space = true;
        }
        let ghost underline = if self@.underline {
            none.push(word("underline"@))
        } else {
            none
        };
        if self.contains(TextDecorationLine::overline()) {
            if needs_space {
                dest.write_char(' ');
            }
            dest.write_str("overline");
            needs_space = true;
        }
        let ghost overline = if self@.overline {
            underline.push(word("overline"@))
        } else {
            underline
        };
        if self.contains(TextDecorationLine::line_through()) {
            if needs_space {
                dest.write_char(' ');
            }
            dest.write_str("line-through");
            needs_space = true;
        }
        let ghost line_through = if self@.line_through {
            overline.push(word("line-through"@))
        } else {
            overline
        };
        if self.contains(TextDecorationLine::blink()) {
            if needs_space {
                dest.write_char(' ');
            }
            dest.write_str("blink");
        }
        proof {
            text_of_push(none, word("underline"@));
            text_of_push(underline, word("overline"@));
            text_of_push(overline, word("line-through"@));
            text_of_push(line_through, word("blink"@));
            space_between();
        }
    }
}

impl TextDecorationLine {
    /// What `accept` makes of each keyword of the grammar.
    pub proof fn keywords(flags: LineFlags)
        ensures
            flags.accept("none"@) == if flags.is_empty() {
                Some(flags)
            } else {
                None
            },
            flags.accept("underline"@) == if flags.exclusive() || flags.underline {
                None
            } else {
                Some(LineFlags { underline: true, ..flags })
            },
            flags.accept("overline"@) == if flags.exclusive() || flags.overline {
                None
            } else {
                Some(LineFlags { overline: true, ..flags })
            },
            flags.accept("line-through"@) == if flags.exclusive() || flags.line_through {
                None
            } else {
                Some(LineFlags { line_through: true, ..flags })
            },
            flags.accept("blink"@) == if flags.exclusive() || flags.blink {
                None
            } else {
                Some(LineFlags { blink: true, ..flags })
            },
            flags.accept("spelling-error"@) == if flags.is_empty() {
                Some(LineFlags { spelling_error: true, ..flags })
            } else {
                None
            },
            flags.accept("grammar-error"@) == if flags.is_empty() {
                Some(LineFlags { grammar_error: true, ..flags })
            } else {
                None
            },
    {
        reveal_strlit("none");
        reveal_strlit("underline");
        reveal_strlit("overline");
        reveal_strlit("line-through");
        reveal_strlit("blink");
        reveal_strlit("spelling-error");
        reveal_strlit("grammar-error");
        eq_ignore_case_refl("none"@);
        eq_ignore_case_refl("underline"@);
        eq_ignore_case_refl("overline"@);
        eq_ignore_case_refl("line-through"@);
        eq_ignore_case_refl("blink"@);
        eq_ignore_case_refl("spelling-error"@);
        eq_ignore_case_refl("grammar-error"@);
    }

    /// The canonical form of a set with a line, or with none, is not empty,
    /// and each of its keywords is well spaced.
    pub proof fn written_well_spaced(v: LineFlags)
        ensures
            !v.is_empty() && !v.exclusive() ==> Self::canonical(v).len() > 0,
            v.is_empty() || v.exclusive() ==> Self::canonical(v).len() == 1,
            all_well_spaced(Self::canonical(v)),
    {
        reveal_strlit("none");
        reveal_strlit("underline");
        reveal_strlit("overline");
        reveal_strlit("line-through");
        reveal_strlit("blink");
        reveal_strlit("spelling-error");
        reveal_strlit("grammar-error");
        assert(unbroken("none"@));
        assert(unbroken("underline"@));
        assert(unbroken("overline"@));
        assert(unbroken("line-through"@));
        assert(unbroken("blink"@));
        assert(unbroken("spelling-error"@));
        assert(unbroken("grammar-error"@));
        let none = Seq::<Component>::empty();
        let underline = if v.underline {
            none.push(word("underline"@))
        } else {
            none
        };
        let overline = if v.overline {
            underline.push(word("overline"@))
        } else {
            underline
        };
        let line_through = if v.line_through {
            overline.push(word("line-through"@))
        } else {
            overline
        };
        all_well_spaced_push(none, word("none"@));
        all_well_spaced_push(none, word("spelling-error"@));
        all_well_spaced_push(none, word("grammar-error"@));
        all_well_spaced_push(none, word("underline"@));
        all_well_spaced_push(underline, word("overline"@));
        all_well_spaced_push(overline, word("line-through"@));
        all_well_spaced_push(line_through, word("blink"@));
        assert(none.push(word("none"@)) =~= seq![word("none"@)]);
        assert(none.push(word("spelling-error"@)) =~= seq![word("spelling-error"@)]);
        assert(none.push(word("grammar-error"@)) =~= seq![word("grammar-error"@)]);
    }

    /// The text of a set of lines neither begins nor ends with a space and
    /// has no two spaces in a row.
    pub proof fn text_is_well_spaced(v: LineFlags)
        ensures
            well_spaced(text_of(Self::canonical(v))),
    {
        Self::written_well_spaced(v);
        text_of_is_well_spaced(Self::canonical(v));
    }

    /// The set with no line is written as `none`.
    pub proof fn empty_is_written_as_none()
        ensures
            Self::canonical(LineFlags::empty()) == seq![word("none"@)],
            text_of(Self::canonical(LineFlags::empty())) == "none"@,
    {
    }

    /// Once a line that stands alone is set, no keyword is taken.
    pub proof fn alone_ends_the_parse(flags: LineFlags, name: Seq<char>)
        requires
            flags.exclusive(),
        ensures
            flags.accept(name) is None,
    {
    }

    /// A set that holds a line that stands alone is written as that line
    /// alone, whatever else it holds.
    pub proof fn alone_is_written_alone(v: LineFlags)
        requires
            v.exclusive(),
        ensures
            Self::canonical(v) == if v.spelling_error {
                seq![word("spelling-error"@)]
            } else {
                seq![word("grammar-error"@)]
            },
    {
    }

    /// Taking keywords never leads from an allowed combination to one that
    /// is not.
    pub proof fn scan_keeps_allowed(rest: Seq<Component>, flags: LineFlags, any: bool)
        requires
            flags.allowed(),
        ensures
            Self::scan(rest, flags, any).flags.allowed(),
        decreases rest.len(),
    {
        match flags.step(rest) {
            Some(next) => {
                Self::scan_keeps_allowed(rest.skip(1), next, true);
            },
            None => {},
        }
    }

    /// Every set that a parse gives is an allowed combination.
    pub proof fn parsed_is_allowed(rest: Seq<Component>)
        ensures
            Self::parse_spec(rest) matches Some((v, _)) ==> v.allowed(),
    {
        Self::scan_keeps_allowed(rest, LineFlags::empty(), false);
    }

    /// A successful parse takes at least one component value and no more
    /// than there are.
    pub proof fn parsed_takes_some(rest: Seq<Component>)
        ensures
            Self::parse_spec(rest) matches Some((_, n)) ==> 1 <= n <= rest.len(),
    {
        Self::scan_is_bounded(rest, LineFlags::empty(), false);
    }

    proof fn scan_is_bounded(rest: Seq<Component>, flags: LineFlags, any: bool)
        ensures
            Self::scan(rest, flags, any).taken <= rest.len(),
            Self::scan(rest, flags, any).any == (any || Self::scan(rest, flags, any).taken > 0),
        decreases rest.len(),
    {
        match flags.step(rest) {
            Some(next) => {
                Self::scan_is_bounded(rest.skip(1), next, true);
            },
            None => {},
        }
    }

    /// One keyword at the front that is taken, and what follows it.
    proof fn scan_front(name: Seq<char>, rest: Seq<Component>, flags: LineFlags, any: bool)
        requires
            flags.accept(name) is Some,
        ensures
            Self::scan(seq![word(name)] + rest, flags, any) == Self::scan(
                rest,
                flags.accept(name)->0,
                true,
            ).later(1),
    {
        let all = seq![word(name)] + rest;
        assert(all[0] == word(name));
        assert(all.skip(1) =~= rest);
    }

    /// The canonical form of an allowed set is read back as the set,
    /// whatever follows that the set, once read, takes nothing of.
    pub proof fn lines_are_read_back(v: LineFlags, tail: Seq<Component>)
        requires
            v.allowed(),
            v.step(tail) is None,
        ensures
            Self::parse_spec(Self::canonical(v) + tail) == Some((v, Self::canonical(v).len())),
    {
        let none = LineFlags::empty();
        Self::keywords(none);
        if v.is_empty() {
            Self::scan_front("none"@, tail, none, false);
        } else if v.spelling_error {
            Self::scan_front("spelling-error"@, tail, none, false);
        } else if v.grammar_error {
            Self::scan_front("grammar-error"@, tail, none, false);
        } else {
            let u = if v.underline {
                seq![word("underline"@)]
            } else {
                Seq::empty()
            };
            let o = if v.overline {
                seq![word("overline"@)]
            } else {
                Seq::empty()
            };
            let l = if v.line_through {
                seq![word("line-through"@)]
            } else {
                Seq::empty()
            };
            let b = if v.blink {
                seq![word("blink"@)]
            } else {
                Seq::empty()
            };
            assert(Self::canonical(v) + tail =~= u + (o + (l + (b + tail))));
            let after_u = LineFlags { underline: v.underline, ..none };
            let after_o = LineFlags { overline: v.overline, ..after_u };
            let after_l = LineFlags { line_through: v.line_through, ..after_o };
            assert(v == LineFlags { blink: v.blink, ..after_l });
            let any_u = v.underline;
            let any_o = any_u || v.overline;
            let any_l = any_o || v.line_through;
            Self::keywords(after_u);
            Self::keywords(after_o);
            Self::keywords(after_l);
            if v.blink {
                Self::scan_front("blink"@, tail, after_l, any_l);
            } else {
                assert(b + tail =~= tail);
            }
            if v.line_through {
                Self::scan_front("line-through"@, b + tail, after_o, any_o);
            } else {
                assert(l + (b + tail) =~= b + tail);
            }
            if v.overline {
                Self::scan_front("overline"@, l + (b + tail), after_u, any_u);
            } else {
                assert(o + (l + (b + tail)) =~= l + (b + tail));
            }
            if v.underline {
                Self::scan_front("underline"@, o + (l + (b + tail)), none, false);
            } else {
                assert(u + (o + (l + (b + tail))) =~= o + (l + (b + tail)));
            }
        }
    }
}

impl Canonical for TextDecorationLine {
    /// The allowed combinations.
    open spec fn reads_back(v: LineFlags) -> bool {
        v.allowed()
    }

    proof fn canonical_is_read_back(v: LineFlags) {
        let end = Seq::<Component>::empty();
        assert(TextDecorationLine::canonical(v) + end =~= TextDecorationLine::canonical(v));
        TextDecorationLine::lines_are_read_back(v, end);
    }
}

} // verus!
