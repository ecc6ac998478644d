//! The `text-transform` property: a case, and the flags `full-width` and
//! `full-size-kana`, in any order.

use crate::ascii::{eq_ignore_ascii_case, eq_ignore_case, eq_ignore_case_refl, lower};
use crate::cursor::{
    advance, advanced, advanced_more, advanced_none, current_location, location, peek, remaining,
    restore, save, Component, ErrorKind, Lexeme, ParseError, Token,
};
use crate::keyword::{keyword_at, keyword_spec, parse_keyword, Keyword};
use crate::printer::{space_between, text_of, text_of_concat, text_of_push, word, Printer};
use crate::traits::{slot_view, value_at, Canonical, Parse, ToCss};
use vstd::prelude::*;

verus! {

/// The case that `text-transform` sets.
#[derive(Clone, Copy, Debug, PartialEq, Eq, Structural)]
pub enum TextTransformCase {
    NoTransform,
    Uppercase,
    Lowercase,
    Capitalize,
}

impl Keyword for TextTransformCase {
    open spec fn name(self) -> Seq<char> {
        match self {
            TextTransformCase::NoTransform => "none"@,
            TextTransformCase::Uppercase => "uppercase"@,
            TextTransformCase::Lowercase => "lowercase"@,
            TextTransformCase::Capitalize => "capitalize"@,
        }
    }

    open spec fn from_name(name: Seq<char>) -> Option<TextTransformCase> {
        if eq_ignore_case(name, "none"@) {
            Some(TextTransformCase::NoTransform)
        } else if eq_ignore_case(name, "uppercase"@) {
            Some(TextTransformCase::Uppercase)
        } else if eq_ignore_case(name, "lowercase"@) {
            Some(TextTransformCase::Lowercase)
        } else if eq_ignore_case(name, "capitalize"@) {
            Some(TextTransformCase::Capitalize)
        } else {
            None
        }
    }

    fn from_ident(ident: &str) -> (k: Option<TextTransformCase>) {
        if eq_ignore_ascii_case(ident, "none") {
            Some(TextTransformCase::NoTransform)
        } else if eq_ignore_ascii_case(ident, "uppercase") {
            Some(TextTransformCase::Uppercase)
        } else if eq_ignore_ascii_case(ident, "lowercase") {
            Some(TextTransformCase::Lowercase)
        } else if eq_ignore_ascii_case(ident, "capitalize") {
            Some(TextTransformCase::Capitalize)
        } else {
            None
        }
    }

    fn as_str(&self) -> (s: &'static str) {
        match self {
            TextTransformCase::NoTransform => "none",
            TextTransformCase::Uppercase => "uppercase",
            TextTransformCase::Lowercase => "lowercase",
            TextTransformCase::Capitalize => "capitalize",
        }
    }

    proof fn spelling_is_read_back(self) {
        reveal_strlit("none");
        reveal_strlit("uppercase");
        reveal_strlit("lowercase");
        reveal_strlit("capitalize");
        match self {
            TextTransformCase::NoTransform => {
                eq_ignore_case_refl("none"@);
            },
            TextTransformCase::Uppercase => {
                eq_ignore_case_refl("uppercase"@);
            },
            TextTransformCase::Lowercase => {
                assert(lower("lowercase"@[0]) != lower("uppercase"@[0]));
                eq_ignore_case_refl("lowercase"@);
            },
            TextTransformCase::Capitalize => {
                eq_ignore_case_refl("capitalize"@);
            },
        }
    }
}

impl Default for TextTransformCase {
    /// No change of case.
    fn default() -> (k: TextTransformCase)
        ensures
            k == TextTransformCase::NoTransform,
    {
        TextTransformCase::NoTransform
    }
}

impl View for TextTransformCase {
    type V = TextTransformCase;

    open spec fn view(&self) -> TextTransformCase {
        *self
    }
}

impl Parse for TextTransformCase {
    open spec fn parse_spec(rest: Seq<Component>) -> Option<(TextTransformCase, nat)> {
        keyword_spec::<TextTransformCase>(rest)
    }

    open spec fn failure() -> ErrorKind {
        ErrorKind::NoMatch
    }

    fn parse(input: &mut cssparser::Parser) -> (r: Result<TextTransformCase, ParseError>) {
        parse_keyword::<TextTransformCase>(input)
    }
}

impl ToCss for TextTransformCase {
    open spec fn canonical(v: TextTransformCase) -> Seq<Component> {
        seq![word(v.name())]
    }

    fn to_css(&self, dest: &mut Printer) {
        dest.write_str(self.as_str());
    }
}

impl Canonical for TextTransformCase {
    open spec fn reads_back(v: TextTransformCase) -> bool {
        true
    }

    proof fn canonical_is_read_back(v: TextTransformCase) {
        v.spelling_is_read_back();
    }
}

/// The flags of `text-transform`, one bit to each.
#[derive(Clone, Copy, Debug, PartialEq, Eq, Structural)]
pub struct TextTransformOther {
    pub bits: u8,
}

/// Which flags a `TextTransformOther` holds.
pub struct OtherFlags {
    pub full_width: bool,
    pub full_size_kana: bool,
    /// The bits that stand for no flag: the six highest, as they are.
    pub unknown: u8,
}

impl OtherFlags {
    /// No flag.
    pub open spec fn empty() -> OtherFlags {
        OtherFlags { full_width: false, full_size_kana: false, unknown: 0 }
    }

    /// No flag is set.
    pub open spec fn is_empty(self) -> bool {
        !self.full_width && !self.full_size_kana
    }

    /// No bit is set but those of the two flags.
    pub open spec fn known(self) -> bool {
        self.unknown == 0
    }

    /// Every flag of `self` or of `other`.
    pub open spec fn union(self, other: OtherFlags) -> OtherFlags {
        OtherFlags {
            full_width: self.full_width || other.full_width,
            full_size_kana: self.full_size_kana || other.full_size_kana,
            unknown: if other.unknown == 0 {
                self.unknown
            } else if self.unknown == 0 {
                other.unknown
            } else {
                self.unknown | other.unknown
            },
        }
    }

    /// Every flag of `self` is one of `other`.
    pub open spec fn subset_of(self, other: OtherFlags) -> bool {
        &&& self.full_width ==> other.full_width
        &&& self.full_size_kana ==> other.full_size_kana
    }

    /// The one flag that the keyword `name` sets, if it is the keyword of a
    /// flag.
    pub open spec fn named(name: Seq<char>) -> Option<OtherFlags> {
        if eq_ignore_case(name, "full-width"@) {
            Some(OtherFlags { full_width: true, ..Self::empty() })
        } else if eq_ignore_case(name, "full-size-kana"@) {
            Some(OtherFlags { full_size_kana: true, ..Self::empty() })
        } else {
            None
        }
    }
}

impl View for TextTransformOther {
    type V = OtherFlags;

    open spec fn view(&self) -> OtherFlags {
        OtherFlags {
            full_width: self.bits & 1 != 0,
            full_size_kana: self.bits & 2 != 0,
            unknown: self.bits & 252,
        }
    }
}

impl TextTransformOther {
    /// The set that holds `full-width` only.
    pub fn full_width() -> (r: TextTransformOther)
        ensures
            r@ == (OtherFlags { full_width: true, ..OtherFlags::empty() }),
            r.bits == 1,
    {
        assert(1u8 & 1 != 0 && 1u8 & 2 == 0 && 1u8 & 252 == 0) by (bit_vector);
        TextTransformOther { bits: 1 }
    }

    /// The set that holds `full-size-kana` only.
    pub fn full_size_kana() -> (r: TextTransformOther)
        ensures
            r@ == (OtherFlags { full_size_kana: true, ..OtherFlags::empty() }),
            r.bits == 2,
    {
        assert(2u8 & 1 == 0 && 2u8 & 2 != 0 && 2u8 & 252 == 0) by (bit_vector);
        TextTransformOther { bits: 2 }
    }

    /// The set with no flag.
    pub fn empty() -> (r: TextTransformOther)
        ensures
            r@ == OtherFlags::empty(),
            r.bits == 0,
    {
        assert(0u8 & 1 == 0 && 0u8 & 2 == 0 && 0u8 & 252 == 0) by (bit_vector);
        TextTransformOther { bits: 0 }
    }

    /// The bits of the set.
    pub fn bits(&self) -> (bits: u8)
        ensures
            bits == self.bits,
    {
        self.bits
    }

    /// Whether no flag is set.
    pub fn is_empty(&self) -> (r: bool)
        ensures
            r == self@.is_empty(),
    {
        let bits = self.bits;
        assert((bits & 3 == 0) <==> (bits & 1 == 0 && bits & 2 == 0)) by (bit_vector);
        self.bits & 3 == 0
    }

    /// Whether every flag of `other` is set.
    pub fn contains(&self, other: TextTransformOther) -> (r: bool)
        ensures
            r == other@.subset_of(self@),
    {
        let a = self.bits;
        let b = other.bits;
        assert((a & b & 3 == b & 3) <==> ((b & 1 != 0 ==> a & 1 != 0) && (b & 2 != 0 ==> a & 2
            != 0))) by (bit_vector);
        self.bits & other.bits & 3 == other.bits & 3
    }

    /// The flags of both sets.
    pub fn union(self, other: TextTransformOther) -> (r: TextTransformOther)
        ensures
            r@ == self@.union(other@),
            r.bits == self.bits | other.bits,
    {
        let a = self.bits;
        let b = other.bits;
        assert(((a | b) & 1 != 0) == (a & 1 != 0 || b & 1 != 0) && ((a | b) & 2 != 0) == (a & 2 != 0
            || b & 2 != 0)) by (bit_vector);
        assert((a | b) & 252 == if b & 252 == 0 {
            a & 252
        } else if a & 252 == 0 {
            b & 252
        } else {
            (a & 252) | (b & 252)
        }) by (bit_vector);
        TextTransformOther { bits: self.bits | other.bits }
    }

    /// The view says all there is: two sets with one view are one set.
    pub proof fn same_view_same_set(a: TextTransformOther, b: TextTransformOther)
        requires
            a@ == b@,
        ensures
            a == b,
    {
        let x = a.bits;
        let y = b.bits;
        assert((x & 1 != 0) == (y & 1 != 0) && (x & 2 != 0) == (y & 2 != 0) && x & 252 == y & 252
            ==> x == y) by (bit_vector);
    }

    /// The one flag that the keyword `name` sets, if it is the keyword of a
    /// flag.
    pub fn from_ident(name: &str) -> (r: Option<TextTransformOther>)
        ensures
            match OtherFlags::named(name@) {
                Some(flag) => r matches Some(t) && t@ == flag,
                None => r is None,
            },
    {
        if eq_ignore_ascii_case(name, "full-width") {
            Some(Self::full_width())
        } else if eq_ignore_ascii_case(name, "full-size-kana") {
            Some(Self::full_size_kana())
        } else {
            None
        }
    }
}

impl Default for TextTransformOther {
    /// No flag.
    fn default() -> (r: TextTransformOther)
        ensures
            r@ == OtherFlags::empty(),
            r.bits == 0,
    {
        TextTransformOther::empty()
    }
}

impl Parse for TextTransformOther {
    /// The one flag whose keyword the next component value is.
    open spec fn parse_spec(rest: Seq<Component>) -> Option<(OtherFlags, nat)> {
        if rest.len() > 0 {
            match rest[0].lexeme {
                Lexeme::Ident(name) => match OtherFlags::named(name) {
                    Some(flag) => Some((flag, 1)),
                    None => None,
                },
                _ => None,
            }
        } else {
            None
        }
    }

    open spec fn failure() -> ErrorKind {
        ErrorKind::NoMatch
    }

    fn parse(input: &mut cssparser::Parser) -> (r: Result<TextTransformOther, ParseError>) {
        let at = current_location(input);
        if let Some(Token::Ident(name)) = peek(input) {
            if let Some(flag) = TextTransformOther::from_ident(name.as_str()) {
                advance(input);
                return Ok(flag);
            }
        }
        Err(ParseError { kind: ErrorKind::NoMatch, location: at })
    }
}

impl ToCss for TextTransformOther {
    /// The flags that are set, `full-width` before `full-size-kana`; nothing
    /// for no flag.
    open spec fn canonical(v: OtherFlags) -> Seq<Component> {
        let none = Seq::<Component>::empty();
        let full_width = if v.full_width {
            none.push(word("full-width"@))
        } else {
            none
        };
        if v.full_size_kana {
            full_width.push(word("full-size-kana"@))
        } else {
            full_width
        }
    }

    fn to_css(&self, dest: &mut Printer) {
        let ghost none = Seq::<Component>::empty();
        let mut needs_space = false;
        if self.contains(TextTransformOther::full_width()) {
            dest.write_str("full-width");
            needs_space = true;
        }
        let ghost full_width = if self@.full_width {
            none.push(word("full-width"@))
        } else {
            none
        };
        if self.contains(TextTransformOther::full_size_kana()) {
            if needs_space {
                dest.write_char(' ');
            }
            dest.write_str("full-size-kana");
        }
        proof {
            text_of_push(none, word("full-width"@));
            text_of_push(full_width, word("full-size-kana"@));
            space_between();
        }
    }
}

impl Canonical for TextTransformOther {
    /// The sets of one flag and of no bit that stands for none: a parse
    /// reads one flag.
    open spec fn reads_back(v: OtherFlags) -> bool {
        v.known() && v.full_width != v.full_size_kana
    }

    proof fn canonical_is_read_back(v: OtherFlags) {
        TextTransform::keywords();
    }
}

/// A value of `text-transform`.
#[derive(Clone, Copy, Debug, PartialEq, Eq)]
pub struct TextTransform {
    pub case: TextTransformCase,
    pub other: TextTransformOther,
}

/// What a `TextTransform` holds.
pub struct TextTransformView {
    pub case: TextTransformCase,
    pub other: OtherFlags,
}

impl View for TextTransform {
    type V = TextTransformView;

    open spec fn view(&self) -> TextTransformView {
        TextTransformView { case: self.case, other: self.other@ }
    }
}

/// How far a parse of `text-transform` has come: the case, if it is read,
/// the flags set, and how many component values were taken.
pub struct TransformScan {
    pub case: Option<TextTransformCase>,
    pub other: OtherFlags,
    pub taken: nat,
}

impl TransformScan {
    /// The same outcome, reached after `n` more component values.
    pub open spec fn later(self, n: nat) -> TransformScan {
        TransformScan { taken: self.taken + n, ..self }
    }
}

impl TextTransform {
    /// Reads the case and the flags from `rest`, the case offered first.
    /// The keyword `none` ends the parse at once and leaves no flag set; any
    /// other case is read once, and each flag once.
    pub open spec fn scan(rest: Seq<Component>, case: Option<TextTransformCase>, other: OtherFlags)
        -> TransformScan
        decreases rest.len(),
    {
        if case is None && keyword_at::<TextTransformCase>(rest) is Some {
            if keyword_at::<TextTransformCase>(rest) == Some(TextTransformCase::NoTransform) {
                TransformScan {
                    case: Some(TextTransformCase::NoTransform),
                    other: OtherFlags::empty(),
                    taken: 1,
                }
            } else {
                Self::scan(rest.skip(1), keyword_at::<TextTransformCase>(rest), other).later(1)
            }
        } else if value_at::<TextTransformOther>(rest) is Some && !value_at::<TextTransformOther>(
            rest,
        )->0.subset_of(other) {
            Self::scan(
                rest.skip(1),
                case,
                other.union(value_at::<TextTransformOther>(rest)->0),
            ).later(1)
        } else {
            TransformScan { case, other, taken: 0 }
        }
    }

    /// What the keywords of the grammar are read as: those of the flags are
    /// no keywords of the case.
    pub proof fn keywords()
        ensures
            OtherFlags::named("full-width"@) == Some(
                OtherFlags { full_width: true, ..OtherFlags::empty() },
            ),
            OtherFlags::named("full-size-kana"@) == Some(
                OtherFlags { full_size_kana: true, ..OtherFlags::empty() },
            ),
            TextTransformCase::from_name("full-width"@) is None,
            TextTransformCase::from_name("full-size-kana"@) is None,
            forall|c: TextTransformCase| OtherFlags::named(#[trigger] c.name()) is None,
    {
        reveal_strlit("full-width");
        reveal_strlit("full-size-kana");
        reveal_strlit("none");
        reveal_strlit("uppercase");
        reveal_strlit("lowercase");
        reveal_strlit("capitalize");
        eq_ignore_case_refl("full-width"@);
        eq_ignore_case_refl("full-size-kana"@);
        assert(lower("full-width"@[0]) != lower("capitalize"@[0]));
    }
}

impl Parse for TextTransform {
    /// The case and the flags may come in any order; a case that does not
    /// come is `none`. The parse never fails.
    open spec fn parse_spec(rest: Seq<Component>) -> Option<(TextTransformView, nat)> {
        let end = TextTransform::scan(rest, None, OtherFlags::empty());
        Some(
            (
                TextTransformView {
                    case: match end.case {
                        Some(case) => case,
                        None => TextTransformCase::NoTransform,
                    },
                    other: end.other,
                },
                end.taken,
            ),
        )
    }

    open spec fn failure() -> ErrorKind {
        ErrorKind::Invalid
    }

    fn parse(input: &mut cssparser::Parser) -> (r: Result<TextTransform, ParseError>) {
        let mut case: Option<TextTransformCase> = None;
        let mut other = TextTransformOther::empty();
        let ghost mut taken: nat = 0;
        proof {
            advanced_none(old(input), input);
        }
        loop
            invariant_except_break
                TextTransform::scan(remaining(old(input)), None, OtherFlags::empty())
                    == TextTransform::scan(remaining(input), slot_view(case), other@).later(taken),
            invariant
                advanced(old(input), input, taken),
            ensures
                TextTransform::scan(remaining(old(input)), None, OtherFlags::empty()) == (
                TransformScan { case: slot_view(case), other: other@, taken }),
            decreases remaining(input).len(),
        {
            let ghost before = *input;
            if case.is_none() {
                if let Ok(c) = TextTransformCase::parse(input) {
                    case = Some(c);
                    proof {
                        advanced_more(old(input), &before, input, taken, 1);
                        taken = taken + 1;
                    }
                    if c == TextTransformCase::NoTransform {
                        other = TextTransformOther::empty();
                        break ;
                    }
                    continue ;
                }
            }
            let start = save(input);
            if let Ok(flag) = TextTransformOther::parse(input) {
                if !other.contains(flag) {
                    other = other.union(flag);
                    proof {
                        advanced_more(old(input), &before, input, taken, 1);
                        taken = taken + 1;
                    }
                    continue ;
                }
                restore(input, &start);
            }
            break ;
        }
        Ok(
            TextTransform {
                case: match case {
                    Some(case) => case,
                    None => TextTransformCase::NoTransform,
                },
                other,
            },
        )
    }
}

impl ToCss for TextTransform {
    /// The case, unless it is `none` and a flag is set; then the flags.
    open spec fn canonical(v: TextTransformView) -> Seq<Component> {
        TextTransform::case_part(v) + TextTransformOther::canonical(v.other)
    }

    fn to_css(&self, dest: &mut Printer) {
        let mut needs_space = false;
        if self.case != TextTransformCase::NoTransform || self.other.is_empty() {
            self.case.to_css(dest);
            needs_space = true;
        }
        if !self.other.is_empty() {
            if needs_space {
                dest.write_char(' ');
            }
            self.other.to_css(dest);
        }
        proof {
            text_of_concat(
                TextTransform::case_part(self@),
                TextTransformOther::canonical(self.other@),
            );
            space_between();
        }
    }
}

impl TextTransform {
    /// The component values that the case of `v` is written as: none where
    /// the case is `none` and a flag is set.
    pub open spec fn case_part(v: TextTransformView) -> Seq<Component> {
        if v.case != TextTransformCase::NoTransform || v.other.is_empty() {
            seq![word(v.case.name())]
        } else {
            Seq::empty()
        }
    }
}

impl TextTransform {
    /// One step of a parse: a case other than `none`, at the front, is read
    /// while no case is.
    proof fn case_is_read(c: TextTransformCase, rest: Seq<Component>, other: OtherFlags)
        requires
            c != TextTransformCase::NoTransform,
        ensures
            Self::scan(seq![word(c.name())] + rest, None, other) == Self::scan(
                rest,
                Some(c),
                other,
            ).later(1),
    {
        let all = seq![word(c.name())] + rest;
        c.spelling_is_read_back();
        assert(all[0] == word(c.name()));
        assert(all.skip(1) =~= rest);
    }

    /// One step of a parse: the keyword of a flag that is not set, at the
    /// front, sets the flag.
    proof fn flag_is_read(
        name: Seq<char>,
        rest: Seq<Component>,
        case: Option<TextTransformCase>,
        other: OtherFlags,
    )
        requires
            OtherFlags::named(name) matches Some(flag) && !flag.subset_of(other),
            TextTransformCase::from_name(name) is None,
        ensures
            Self::scan(seq![word(name)] + rest, case, other) == Self::scan(
                rest,
                case,
                other.union(OtherFlags::named(name)->0),
            ).later(1),
    {
        let all = seq![word(name)] + rest;
        assert(all[0] == word(name));
        assert(all.skip(1) =~= rest);
    }

    /// The flags of `v`, at the front and none of them set, are all read.
    proof fn flags_are_read(
        v: OtherFlags,
        rest: Seq<Component>,
        case: Option<TextTransformCase>,
    )
        requires
            v.known(),
        ensures
            Self::scan(TextTransformOther::canonical(v) + rest, case, OtherFlags::empty())
                == Self::scan(rest, case, v).later(TextTransformOther::canonical(v).len()),
    {
        Self::keywords();
        let none = OtherFlags::empty();
        let w = if v.full_width {
            seq![word("full-width"@)]
        } else {
            Seq::empty()
        };
        let k = if v.full_size_kana {
            seq![word("full-size-kana"@)]
        } else {
            Seq::empty()
        };
        let after_w = OtherFlags { full_width: v.full_width, ..none };
        assert(v == OtherFlags { full_size_kana: v.full_size_kana, ..after_w });
        assert(TextTransformOther::canonical(v) + rest =~= w + (k + rest));
        if v.full_size_kana {
            Self::flag_is_read("full-size-kana"@, rest, case, after_w);
        } else {
            assert(k + rest =~= rest);
        }
        if v.full_width {
            Self::flag_is_read("full-width"@, k + rest, case, none);
        } else {
            assert(w + (k + rest) =~= k + rest);
        }
    }

    /// Once a case is read, it stays.
    proof fn case_stays(rest: Seq<Component>, c: TextTransformCase, other: OtherFlags)
        ensures
            Self::scan(rest, Some(c), other).case == Some(c),
        decreases rest.len(),
    {
        if value_at::<TextTransformOther>(rest) is Some && !value_at::<TextTransformOther>(
            rest,
        )->0.subset_of(other) {
            Self::case_stays(
                rest.skip(1),
                c,
                other.union(value_at::<TextTransformOther>(rest)->0),
            );
        }
    }

    /// Where a parse takes all of `before` and reads no case from it, a
    /// parse of `before` with more behind it goes on behind it with the
    /// flags that `before` set.
    proof fn flags_before(
        before: Seq<Component>,
        rest: Seq<Component>,
        other: OtherFlags,
        set: OtherFlags,
    )
        requires
            Self::scan(before, None, other) == (TransformScan {
                case: None,
                other: set,
                taken: before.len(),
            }),
        ensures
            Self::scan(before + rest, None, other) == Self::scan(rest, None, set).later(
                before.len(),
            ),
        decreases before.len(),
    {
        let all = before + rest;
        if before.len() == 0 {
            assert(all =~= rest);
        } else {
            assert(all[0] == before[0]);
            assert(all.skip(1) =~= before.skip(1) + rest);
            if keyword_at::<TextTransformCase>(before) is Some {
                if keyword_at::<TextTransformCase>(before) != Some(TextTransformCase::NoTransform) {
                    Self::case_stays(
                        before.skip(1),
                        keyword_at::<TextTransformCase>(before)->0,
                        other,
                    );
                }
            } else {
                let flag = value_at::<TextTransformOther>(before)->0;
                Self::flags_before(before.skip(1), rest, other.union(flag), set);
            }
        }
    }

    /// The keyword `none` of the case ends the parse: the flags read before
    /// it are dropped, and nothing that follows it is taken.
    pub proof fn reset_ends_the_parse(
        before: Seq<Component>,
        reset: Component,
        after: Seq<Component>,
    )
        requires
            Self::scan(before, None, OtherFlags::empty()).case is None,
            Self::scan(before, None, OtherFlags::empty()).taken == before.len(),
            reset.lexeme matches Lexeme::Ident(name) && eq_ignore_case(name, "none"@),
        ensures
            Self::parse_spec(before + seq![reset] + after) == Some(
                (
                    TextTransformView {
                        case: TextTransformCase::NoTransform,
                        other: OtherFlags::empty(),
                    },
                    before.len() + 1,
                ),
            ),
    {
        let end = Self::scan(before, None, OtherFlags::empty());
        let rest = seq![reset] + after;
        assert(before + seq![reset] + after =~= before + rest);
        Self::flags_before(before, rest, OtherFlags::empty(), end.other);
        assert(rest[0] == reset);
    }

    /// The value with no case and no flag is written as `none`.
    pub proof fn default_is_written_as_none(v: TextTransformView)
        requires
            v.case == TextTransformCase::NoTransform,
            v.other.is_empty(),
        ensures
            Self::canonical(v) == seq![word("none"@)],
            text_of(Self::canonical(v)) == "none"@,
    {
        assert(Self::canonical(v) =~= seq![word("none"@)]);
    }

    /// Every value that a parse gives is read back from its canonical form.
    pub proof fn parsed_reads_back(rest: Seq<Component>)
        ensures
            Self::parse_spec(rest) matches Some((v, _)) ==> Self::reads_back(v),
    {
        Self::scan_keeps_known(rest, None, OtherFlags::empty());
    }

    proof fn scan_keeps_known(
        rest: Seq<Component>,
        case: Option<TextTransformCase>,
        other: OtherFlags,
    )
        requires
            other.known(),
        ensures
            Self::scan(rest, case, other).other.known(),
        decreases rest.len(),
    {
        if case is None && keyword_at::<TextTransformCase>(rest) is Some {
            if keyword_at::<TextTransformCase>(rest) != Some(TextTransformCase::NoTransform) {
                Self::scan_keeps_known(rest.skip(1), keyword_at::<TextTransformCase>(rest), other);
            }
        } else if value_at::<TextTransformOther>(rest) is Some && !value_at::<TextTransformOther>(
            rest,
        )->0.subset_of(other) {
            Self::scan_keeps_known(
                rest.skip(1),
                case,
                other.union(value_at::<TextTransformOther>(rest)->0),
            );
        }
    }

    /// The case and the flags of a value may be written in either order:
    /// both are read as the same value.
    pub proof fn order_is_free(v: TextTransformView, case_first: bool)
        requires
            v.other.known(),
        ensures
            ({
                let text = if case_first {
                    Self::case_part(v) + TextTransformOther::canonical(v.other)
                } else {
                    TextTransformOther::canonical(v.other) + Self::case_part(v)
                };
                Self::parse_spec(text) == Some((v, text.len()))
            }),
    {
        Self::keywords();
        let none = OtherFlags::empty();
        let end = Seq::<Component>::empty();
        let case = Self::case_part(v);
        let flags = TextTransformOther::canonical(v.other);
        assert(flags + end =~= flags);
        assert(case + end =~= case);
        assert(end + flags =~= flags);
        assert(end + case =~= case);
        if case.len() > 0 {
            assert(case[0] == word(v.case.name()));
            v.case.spelling_is_read_back();
        }
        if case_first {
            if v.case != TextTransformCase::NoTransform {
                Self::case_is_read(v.case, flags, none);
                Self::flags_are_read(v.other, end, Some(v.case));
                assert(Self::scan(end, Some(v.case), v.other).taken == 0);
            } else if v.other.is_empty() {
                assert(flags =~= end);
            } else {
                Self::flags_are_read(v.other, end, None);
                assert(Self::scan(end, None, v.other).taken == 0);
            }
        } else {
            Self::flags_are_read(v.other, case, None);
            if v.case != TextTransformCase::NoTransform {
                Self::case_is_read(v.case, end, v.other);
                assert(Self::scan(end, Some(v.case), v.other).taken == 0);
            } else if v.other.is_empty() {
                assert(flags =~= end);
            } else {
                assert(Self::scan(end, None, v.other).taken == 0);
            }
        }
    }
}

impl Canonical for TextTransform {
    /// The values whose flags hold no bit that stands for no flag.
    open spec fn reads_back(v: TextTransformView) -> bool {
        v.other.known()
    }

    proof fn canonical_is_read_back(v: TextTransformView) {
        TextTransform::order_is_free(v, true);
    }
}

} // verus!
