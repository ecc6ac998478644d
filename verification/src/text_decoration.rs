//! The `text-decoration` shorthand: lines, thickness, style and colour, in
//! any order.

use crate::ascii::{eq_ignore_ascii_case, eq_ignore_case, eq_ignore_case_refl, lower};
use crate::color::{color_text, CssColor};
use crate::cursor::{
    advanced, advanced_more, advanced_none, current_location, location, remaining, Component,
    ErrorKind, ParseError,
};
use crate::decoration_line::{LineFlags, TextDecorationLine};
use crate::keyword::{is_ident, keyword_spec, parse_keyword, try_ident_matching, Keyword};
use crate::length::{LengthPercentage, LengthPercentageView};
use crate::printer::{
    all_well_spaced, all_well_spaced_concat, all_well_spaced_push, component_text, space_between,
    text_of, text_of_is_well_spaced, text_of_push, unbroken, well_spaced, word, Printer,
};
use crate::traits::{
    order_less_first, order_less_first_contains, slot_view, taken_at, value_at, Canonical, Parse,
    ToCss,
};
use vstd::prelude::*;

verus! {

/// The styles of `text-decoration-style`.
#[derive(Clone, Copy, Debug, PartialEq, Eq, Structural)]
pub enum TextDecorationStyle {
    Solid,
    Double,
    Dotted,
    Dashed,
    Wavy,
}

impl Keyword for TextDecorationStyle {
    open spec fn name(self) -> Seq<char> {
        match self {
            TextDecorationStyle::Solid => "solid"@,
            TextDecorationStyle::Double => "double"@,
            TextDecorationStyle::Dotted => "dotted"@,
            TextDecorationStyle::Dashed => "dashed"@,
            TextDecorationStyle::Wavy => "wavy"@,
        }
    }

    open spec fn from_name(name: Seq<char>) -> Option<TextDecorationStyle> {
        if eq_ignore_case(name, "solid"@) {
            Some(TextDecorationStyle::Solid)
        } else if eq_ignore_case(name, "double"@) {
            Some(TextDecorationStyle::Double)
        } else if eq_ignore_case(name, "dotted"@) {
            Some(TextDecorationStyle::Dotted)
        } else if eq_ignore_case(name, "dashed"@) {
            Some(TextDecorationStyle::Dashed)
        } else if eq_ignore_case(name, "wavy"@) {
            Some(TextDecorationStyle::Wavy)
        } else {
            None
        }
    }

    fn from_ident(ident: &str) -> (k: Option<TextDecorationStyle>) {
        if eq_ignore_ascii_case(ident, "solid") {
            Some(TextDecorationStyle::Solid)
        } else if eq_ignore_ascii_case(ident, "double") {
            Some(TextDecorationStyle::Double)
        } else if eq_ignore_ascii_case(ident, "dotted") {
            Some(TextDecorationStyle::Dotted)
        } else if eq_ignore_ascii_case(ident, "dashed") {
            Some(TextDecorationStyle::Dashed)
        } else if eq_ignore_ascii_case(ident, "wavy") {
            Some(TextDecorationStyle::Wavy)
        } else {
            None
        }
    }

    fn as_str(&self) -> (s: &'static str) {
        match self {
            TextDecorationStyle::Solid => "solid",
            TextDecorationStyle::Double => "double",
            TextDecorationStyle::Dotted => "dotted",
            TextDecorationStyle::Dashed => "dashed",
            TextDecorationStyle::Wavy => "wavy",
        }
    }

    proof fn spelling_is_read_back(self) {
        reveal_strlit("solid");
        reveal_strlit("double");
        reveal_strlit("dotted");
        reveal_strlit("dashed");
        reveal_strlit("wavy");
        match self {
            TextDecorationStyle::Solid => {
                eq_ignore_case_refl("solid"@);
            },
            TextDecorationStyle::Double => {
                eq_ignore_case_refl("double"@);
            },
            TextDecorationStyle::Dotted => {
                assert(lower("dotted"@[2]) != lower("double"@[2]));
                eq_ignore_case_refl("dotted"@);
            },
            TextDecorationStyle::Dashed => {
                assert(lower("dashed"@[1]) != lower("double"@[1]));
                assert(lower("dashed"@[1]) != lower("dotted"@[1]));
                eq_ignore_case_refl("dashed"@);
            },
            TextDecorationStyle::Wavy => {
                eq_ignore_case_refl("wavy"@);
            },
        }
    }
}

impl Default for TextDecorationStyle {
    /// A solid line.
    fn default() -> (k: TextDecorationStyle)
        ensures
            k == TextDecorationStyle::Solid,
    {
        TextDecorationStyle::Solid
    }
}

impl View for TextDecorationStyle {
    type V = TextDecorationStyle;

    open spec fn view(&self) -> TextDecorationStyle {
        *self
    }
}

impl Parse for TextDecorationStyle {
    open spec fn parse_spec(rest: Seq<Component>) -> Option<(TextDecorationStyle, nat)> {
        keyword_spec::<TextDecorationStyle>(rest)
    }

    open spec fn failure() -> ErrorKind {
        ErrorKind::NoMatch
    }

    fn parse(input: &mut cssparser::Parser) -> (r: Result<TextDecorationStyle, ParseError>) {
        parse_keyword::<TextDecorationStyle>(input)
    }
}

impl ToCss for TextDecorationStyle {
    open spec fn canonical(v: TextDecorationStyle) -> Seq<Component> {
        seq![word(v.name())]
    }

    fn to_css(&self, dest: &mut Printer) {
        dest.write_str(self.as_str());
    }
}

impl Canonical for TextDecorationStyle {
    open spec fn reads_back(v: TextDecorationStyle) -> bool {
        true
    }

    proof fn canonical_is_read_back(v: TextDecorationStyle) {
        v.spelling_is_read_back();
    }
}

/// The thickness of the decoration lines.
#[derive(Clone, Debug, PartialEq, Eq)]
pub enum TextDecorationThickness {
    Auto,
    FromFont,
    LengthPercentage(LengthPercentage),
}

/// What a `TextDecorationThickness` holds.
pub enum ThicknessView {
    Auto,
    FromFont,
    LengthPercentage(LengthPercentageView),
}

impl ThicknessView {
    /// The length or percentage, where there is one, is valid.
    pub open spec fn valid(self) -> bool {
        match self {
            ThicknessView::LengthPercentage(v) => v.valid(),
            _ => true,
        }
    }
}

impl View for TextDecorationThickness {
    type V = ThicknessView;

    open spec fn view(&self) -> ThicknessView {
        match self {
            TextDecorationThickness::Auto => ThicknessView::Auto,
            TextDecorationThickness::FromFont => ThicknessView::FromFont,
            TextDecorationThickness::LengthPercentage(v) => ThicknessView::LengthPercentage(v@),
        }
    }
}

impl Default for TextDecorationThickness {
    /// `auto`.
    fn default() -> (r: TextDecorationThickness)
        ensures
            r@ == ThicknessView::Auto,
    {
        TextDecorationThickness::Auto
    }
}

impl Parse for TextDecorationThickness {
    /// The keyword `auto`, the keyword `from-font`, or a length or
    /// percentage, tried in this order.
    open spec fn parse_spec(rest: Seq<Component>) -> Option<(ThicknessView, nat)> {
        if is_ident(rest, "auto"@) {
            Some((ThicknessView::Auto, 1))
        } else if is_ident(rest, "from-font"@) {
            Some((ThicknessView::FromFont, 1))
        } else {
            match LengthPercentage::parse_spec(rest) {
                Some((v, n)) => Some((ThicknessView::LengthPercentage(v), n)),
                None => None,
            }
        }
    }

    open spec fn failure() -> ErrorKind {
        ErrorKind::NoMatch
    }

    fn parse(input: &mut cssparser::Parser) -> (r: Result<TextDecorationThickness, ParseError>) {
        let at = current_location(input);
        if try_ident_matching(input, "auto") {
            return Ok(TextDecorationThickness::Auto);
        }
        if try_ident_matching(input, "from-font") {
            return Ok(TextDecorationThickness::FromFont);
        }
        match LengthPercentage::parse(input) {
            Ok(v) => Ok(TextDecorationThickness::LengthPercentage(v)),
            Err(_) => Err(ParseError { kind: ErrorKind::NoMatch, location: at }),
        }
    }
}

impl ToCss for TextDecorationThickness {
    /// The keyword, or the length or percentage.
    open spec fn canonical(v: ThicknessView) -> Seq<Component> {
        match v {
            ThicknessView::Auto => seq![word("auto"@)],
            ThicknessView::FromFont => seq![word("from-font"@)],
            ThicknessView::LengthPercentage(v) => LengthPercentage::canonical(v),
        }
    }

    fn to_css(&self, dest: &mut Printer) {
        match self {
            TextDecorationThickness::Auto => dest.write_str("auto"),
            TextDecorationThickness::FromFont => dest.write_str("from-font"),
            TextDecorationThickness::LengthPercentage(v) => v.to_css(dest),
        }
    }
}

impl Canonical for TextDecorationThickness {
    /// The valid thicknesses, as every one is that a parse gives.
    open spec fn reads_back(v: ThicknessView) -> bool {
        v.valid()
    }

    proof fn canonical_is_read_back(v: ThicknessView) {
        reveal_strlit("auto");
        reveal_strlit("from-font");
        match v {
            ThicknessView::Auto => eq_ignore_case_refl("auto"@),
            ThicknessView::FromFont => eq_ignore_case_refl("from-font"@),
            ThicknessView::LengthPercentage(v) => LengthPercentage::canonical_is_read_back(v),
        }
    }
}

/// A value of `text-decoration`.
#[derive(Clone, Debug, PartialEq, Eq)]
pub struct TextDecoration {
    pub line: TextDecorationLine,
    pub thickness: TextDecorationThickness,
    pub style: TextDecorationStyle,
    pub color: CssColor,
}

/// What a `TextDecoration` holds.
pub struct TextDecorationView {
    pub line: LineFlags,
    pub thickness: ThicknessView,
    pub style: TextDecorationStyle,
    pub color: CssColor,
}

impl TextDecorationView {
    /// The lines are an allowed combination and the thickness is valid.
    pub open spec fn valid(self) -> bool {
        self.line.allowed() && self.thickness.valid()
    }

    /// Only the lines are written: none is set, or one that stands alone.
    pub open spec fn lines_only(self) -> bool {
        self.line.is_empty() || self.line.exclusive()
    }

    /// Every part but the lines is at its default, as it is read where the
    /// lines alone are written.
    pub open spec fn plain(self) -> bool {
        &&& self.thickness is Auto
        &&& self.style == TextDecorationStyle::Solid
        &&& self.color == CssColor::CurrentColor
    }
}

impl View for TextDecoration {
    type V = TextDecorationView;

    open spec fn view(&self) -> TextDecorationView {
        TextDecorationView {
            line: self.line@,
            thickness: self.thickness@,
            style: self.style,
            color: self.color,
        }
    }
}

/// How far a parse of `text-decoration` has come: what each slot holds, if
/// it is filled, and how many component values were taken.
pub struct DecorationScan {
    pub line: Option<LineFlags>,
    pub thickness: Option<ThicknessView>,
    pub style: Option<TextDecorationStyle>,
    pub color: Option<CssColor>,
    pub taken: nat,
}

impl DecorationScan {
    /// The same outcome, reached after `n` more component values.
    pub open spec fn later(self, n: nat) -> DecorationScan {
        DecorationScan { taken: self.taken + n, ..self }
    }

    /// The number of slots that are not filled.
    pub open spec fn open_slots(self) -> nat {
        let line: nat = if self.line is None {
            1
        } else {
            0
        };
        let thickness: nat = if self.thickness is None {
            1
        } else {
            0
        };
        let style: nat = if self.style is None {
            1
        } else {
            0
        };
        let color: nat = if self.color is None {
            1
        } else {
            0
        };
        line + thickness + style + color
    }

    /// The value that the slots make up, each open slot at its default.
    pub open spec fn value(self) -> TextDecorationView {
        TextDecorationView {
            line: match self.line {
                Some(v) => v,
                None => LineFlags::empty(),
            },
            thickness: match self.thickness {
                Some(v) => v,
                None => ThicknessView::Auto,
            },
            style: match self.style {
                Some(v) => v,
                None => TextDecorationStyle::Solid,
            },
            color: match self.color {
                Some(v) => v,
                None => CssColor::CurrentColor,
            },
        }
    }
}

impl TextDecoration {
    /// Fills the slots from `rest`: the next component values go to the
    /// first open slot that takes them, in the order lines, thickness,
    /// style, colour; this repeats until no open slot takes what comes next.
    #[verifier::opaque]
    pub open spec fn scan(rest: Seq<Component>, slots: DecorationScan) -> DecorationScan
        decreases slots.open_slots(),
    {
        if slots.line is None && value_at::<TextDecorationLine>(rest) is Some {
            let n = taken_at::<TextDecorationLine>(rest);
            Self::scan(
                rest.skip(n as int),
                DecorationScan { line: value_at::<TextDecorationLine>(rest), ..slots },
            ).later(n)
        } else if slots.thickness is None && value_at::<TextDecorationThickness>(rest) is Some {
            let n = taken_at::<TextDecorationThickness>(rest);
            Self::scan(
                rest.skip(n as int),
                DecorationScan { thickness: value_at::<TextDecorationThickness>(rest), ..slots },
            ).later(n)
        } else if slots.style is None && value_at::<TextDecorationStyle>(rest) is Some {
            let n = taken_at::<TextDecorationStyle>(rest);
            Self::scan(
                rest.skip(n as int),
                DecorationScan { style: value_at::<TextDecorationStyle>(rest), ..slots },
            ).later(n)
        } else if slots.color is None && value_at::<CssColor>(rest) is Some {
            let n = taken_at::<CssColor>(rest);
            Self::scan(
                rest.skip(n as int),
                DecorationScan { color: value_at::<CssColor>(rest), ..slots },
            ).later(n)
        } else {
            DecorationScan { taken: 0, ..slots }
        }
    }

    /// The state of a parse that holds the given slots and has taken
    /// nothing since.
    pub open spec fn slots(
        line: Option<TextDecorationLine>,
        thickness: Option<TextDecorationThickness>,
        style: Option<TextDecorationStyle>,
        color: Option<CssColor>,
    ) -> DecorationScan {
        DecorationScan {
            line: slot_view(line),
            thickness: slot_view(thickness),
            style: slot_view(style),
            color: slot_view(color),
            taken: 0,
        }
    }

    /// The state in which every slot is open.
    pub open spec fn start() -> DecorationScan {
        DecorationScan { line: None, thickness: None, style: None, color: None, taken: 0 }
    }
}

impl Parse for TextDecoration {
    /// The four parts may come in any order, each at most once; a part that
    /// does not come is at its default. The parse never fails.
    open spec fn parse_spec(rest: Seq<Component>) -> Option<(TextDecorationView, nat)> {
        let end = TextDecoration::scan(rest, TextDecoration::start());
        Some((end.value(), end.taken))
    }

    open spec fn failure() -> ErrorKind {
        ErrorKind::Invalid
    }

    fn parse(input: &mut cssparser::Parser) -> (r: Result<TextDecoration, ParseError>) {
        let mut line: Option<TextDecorationLine> = None;
        let mut thickness: Option<TextDecorationThickness> = None;
        let mut style: Option<TextDecorationStyle> = None;
        let mut color: Option<CssColor> = None;
        let ghost mut taken: nat = 0;
        proof {
            advanced_none(old(input), input);
        }
        loop
            invariant
                advanced(old(input), input, taken),
                TextDecoration::scan(remaining(old(input)), TextDecoration::start())
                    == TextDecoration::scan(
                    remaining(input),
                    TextDecoration::slots(line, thickness, style, color),
                ).later(taken),
            ensures
                TextDecoration::scan(
                    remaining(input),
                    TextDecoration::slots(line, thickness, style, color),
                ) == TextDecoration::slots(line, thickness, style, color),
            decreases TextDecoration::slots(line, thickness, style, color).open_slots(),
        {
            let ghost before = *input;
            proof {
                reveal(TextDecoration::scan);
            }
            if line.is_none() {
                if let Ok(v) = TextDecorationLine::parse(input) {
                    line = Some(v);
                    proof {
                        let n = taken_at::<TextDecorationLine>(remaining(&before));
                        advanced_more(old(input), &before, input, taken, n);
                        taken = taken + n;
                    }
                    continue ;
                }
            }
            if thickness.is_none() {
                if let Ok(v) = TextDecorationThickness::parse(input) {
                    thickness = Some(v);
                    proof {
                        let n = taken_at::<TextDecorationThickness>(remaining(&before));
                        advanced_more(old(input), &before, input, taken, n);
                        taken = taken + n;
                    }
                    continue ;
                }
            }
            if style.is_none() {
                if let Ok(v) = TextDecorationStyle::parse(input) {
                    style = Some(v);
                    proof {
                        let n = taken_at::<TextDecorationStyle>(remaining(&before));
                        advanced_more(old(input), &before, input, taken, n);
                        taken = taken + n;
                    }
                    continue ;
                }
            }
            if color.is_none() {
                if let Ok(v) = CssColor::parse(input) {
                    color = Some(v);
                    proof {
                        let n = taken_at::<CssColor>(remaining(&before));
                        advanced_more(old(input), &before, input, taken, n);
                        taken = taken + n;
                    }
                    continue ;
                }
            }
            break ;
        }
        Ok(
            TextDecoration {
                line: match line {
                    Some(v) => v,
                    None => TextDecorationLine::empty(),
                },
                thickness: match thickness {
                    Some(v) => v,
                    None => TextDecorationThickness::Auto,
                },
                style: match style {
                    Some(v) => v,
                    None => TextDecorationStyle::Solid,
                },
                color: match color {
                    Some(v) => v,
                    None => CssColor::CurrentColor,
                },
            },
        )
    }
}

impl ToCss for TextDecoration {
    /// The lines; then, unless no line is set or one that stands alone, the
    /// thickness where it is not `auto`, the style whatever it is, and the
    /// colour where it is not `currentcolor`.
    open spec fn canonical(v: TextDecorationView) -> Seq<Component> {
        let line = TextDecorationLine::canonical(v.line);
        if v.lines_only() {
            line
        } else {
            let thickness = if v.thickness is Auto {
                line
            } else {
                line + TextDecorationThickness::canonical(v.thickness)
            };
            let style = thickness.push(word(v.style.name()));
            if v.color == CssColor::CurrentColor {
                style
            } else {
                style.push(CssColor::component(v.color))
            }
        }
    }

    fn to_css(&self, dest: &mut Printer) {
        self.line.to_css(dest);
        if self.line.is_empty() || self.line.contains(TextDecorationLine::spelling_error())
            || self.line.contains(TextDecorationLine::grammar_error()) {
            return ;
        }
        let ghost line = TextDecorationLine::canonical(self.line@);
        match &self.thickness {
            TextDecorationThickness::Auto => {},
            thickness => {
                dest.write_char(' ');
                thickness.to_css(dest);
            },
        }
        let ghost thickness = if self.thickness@ is Auto {
            line
        } else {
            line + TextDecorationThickness::canonical(self.thickness@)
        };
        dest.write_char(' ');
        self.style.to_css(dest);
        let ghost style = thickness.push(word(self.style.name()));
        match self.color {
            CssColor::CurrentColor => {},
            color => {
                dest.write_char(' ');
                color.to_css(dest);
            },
        }
        proof {
            let t = TextDecorationThickness::canonical(self.thickness@);
            assert(t.len() == 1);
            assert(line + t =~= line.push(t[0]));
            text_of_push(line, t[0]);
            text_of_push(thickness, word(self.style.name()));
            text_of_push(style, CssColor::component(self.color));
            space_between();
        }
    }
}

/// Which parts of a value are written out even where they are at their
/// default. The lines are always written.
pub struct Spelling {
    pub thickness: bool,
    pub style: bool,
    pub color: bool,
}

impl Spelling {
    /// The spelling of the canonical form where more than the lines is
    /// written: the style always, thickness and colour only where they are
    /// not at their default.
    pub open spec fn shortest() -> Spelling {
        Spelling { thickness: false, style: true, color: false }
    }

    /// The spelling that leaves every default out.
    pub open spec fn bare() -> Spelling {
        Spelling { thickness: false, style: false, color: false }
    }
}

/// One of the four parts of a value of `text-decoration`.
pub enum DecorationPart {
    Line,
    Thickness,
    Style,
    Color,
}

impl TextDecoration {
    /// Whether a part of `v` is written at all under `spelling`: the lines
    /// always, any other part where it is not at its default or the spelling
    /// writes it out.
    pub open spec fn written(v: TextDecorationView, part: DecorationPart, spelling: Spelling)
        -> bool {
        match part {
            DecorationPart::Line => true,
            DecorationPart::Thickness => !(v.thickness is Auto) || spelling.thickness,
            DecorationPart::Style => v.style != TextDecorationStyle::Solid || spelling.style,
            DecorationPart::Color => v.color != CssColor::CurrentColor || spelling.color,
        }
    }

    /// The component values that one part of `v` is written as by itself;
    /// none for a part that is not written.
    pub open spec fn part(v: TextDecorationView, part: DecorationPart, spelling: Spelling) -> Seq<
        Component,
    > {
        if !Self::written(v, part, spelling) {
            Seq::empty()
        } else {
            match part {
                DecorationPart::Line => TextDecorationLine::canonical(v.line),
                DecorationPart::Thickness => TextDecorationThickness::canonical(v.thickness),
                DecorationPart::Style => seq![word(v.style.name())],
                DecorationPart::Color => seq![CssColor::component(v.color)],
            }
        }
    }

    /// The parts of `v` written one after the other, in the order given.
    pub open spec fn arranged(
        v: TextDecorationView,
        order: Seq<DecorationPart>,
        spelling: Spelling,
    ) -> Seq<Component>
        decreases order.len(),
    {
        if order.len() == 0 {
            Seq::empty()
        } else {
            Self::part(v, order[0], spelling) + Self::arranged(v, order.skip(1), spelling)
        }
    }

    /// The slots of a parse that has read the parts of `v` marked as done: a
    /// part that is not written leaves its slot open.
    pub open spec fn progress(
        v: TextDecorationView,
        spelling: Spelling,
        line: bool,
        thickness: bool,
        style: bool,
        color: bool,
        taken: nat,
    ) -> DecorationScan {
        DecorationScan {
            line: if line {
                Some(v.line)
            } else {
                None
            },
            thickness: if thickness && Self::written(v, DecorationPart::Thickness, spelling) {
                Some(v.thickness)
            } else {
                None
            },
            style: if style && Self::written(v, DecorationPart::Style, spelling) {
                Some(v.style)
            } else {
                None
            },
            color: if color && Self::written(v, DecorationPart::Color, spelling) {
                Some(v.color)
            } else {
                None
            },
            taken,
        }
    }

    /// The keywords of the thickness and of the style are no keywords of the
    /// lines, and those of the style none of the thickness.
    proof fn keywords_are_apart(flags: LineFlags, style: TextDecorationStyle)
        ensures
            flags.accept("auto"@) is None,
            flags.accept("from-font"@) is None,
            flags.accept(style.name()) is None,
            flags.accept("currentcolor"@) is None,
            !eq_ignore_case(style.name(), "auto"@),
            !eq_ignore_case(style.name(), "from-font"@),
            !eq_ignore_case("currentcolor"@, "auto"@),
            !eq_ignore_case("currentcolor"@, "from-font"@),
            TextDecorationStyle::from_name("currentcolor"@) is None,
    {
        reveal_strlit("currentcolor");
        reveal_strlit("none");
        reveal_strlit("underline");
        reveal_strlit("overline");
        reveal_strlit("line-through");
        reveal_strlit("blink");
        reveal_strlit("spelling-error");
        reveal_strlit("grammar-error");
        reveal_strlit("auto");
        reveal_strlit("from-font");
        reveal_strlit("solid");
        reveal_strlit("double");
        reveal_strlit("dotted");
        reveal_strlit("dashed");
        reveal_strlit("wavy");
        assert(lower("from-font"@[0]) != lower("underline"@[0]));
        assert(lower("wavy"@[0]) != lower("none"@[0]));
        assert(lower("wavy"@[0]) != lower("auto"@[0]));
        assert(lower("solid"@[0]) != lower("blink"@[0]));
        assert(lower("currentcolor"@[0]) != lower("line-through"@[0]));
        assert(lower("auto"@[0]) != lower("none"@[0]));
    }

    /// What no parser of `text-decoration` takes anything from: the end of
    /// the input.
    proof fn nothing_is_read_at_the_end(rest: Seq<Component>)
        requires
            rest.len() == 0,
        ensures
            value_at::<TextDecorationLine>(rest) is None,
            value_at::<TextDecorationThickness>(rest) is None,
            value_at::<TextDecorationStyle>(rest) is None,
            value_at::<CssColor>(rest) is None,
    {
    }

    /// The first component value of a part other than the lines is taken by
    /// no parser that comes before the part's own, and by its own as the
    /// part's value.
    proof fn part_is_read_by_its_slot(
        v: TextDecorationView,
        part: DecorationPart,
        rest: Seq<Component>,
        spelling: Spelling,
    )
        requires
            v.thickness.valid(),
            !(part is Line),
            Self::part(v, part, spelling).len() > 0,
        ensures
            Self::part(v, part, spelling).len() == 1,
            v.line.step(Self::part(v, part, spelling) + rest) is None,
            value_at::<TextDecorationLine>(Self::part(v, part, spelling) + rest) is None,
            part is Thickness ==> TextDecorationThickness::parse_spec(Self::part(v, part, spelling) + rest)
                == Some((v.thickness, 1nat)),
            !(part is Thickness) ==> value_at::<TextDecorationThickness>(Self::part(v, part, spelling) + rest)
                is None,
            part is Style ==> TextDecorationStyle::parse_spec(Self::part(v, part, spelling) + rest) == Some(
                (v.style, 1nat),
            ),
            part is Color ==> value_at::<TextDecorationStyle>(Self::part(v, part, spelling) + rest) is None,
            part is Color ==> CssColor::parse_spec(Self::part(v, part, spelling) + rest) == Some(
                (v.color, 1nat),
            ),
    {
        let all = Self::part(v, part, spelling) + rest;
        assert(all[0] == Self::part(v, part, spelling)[0]);
        Self::keywords_are_apart(v.line, v.style);
        Self::keywords_are_apart(LineFlags::empty(), v.style);
        match part {
            DecorationPart::Line => {},
            DecorationPart::Thickness => {
                TextDecorationThickness::canonical_is_read_back(v.thickness);
            },
            DecorationPart::Style => {
                v.style.spelling_is_read_back();
            },
            DecorationPart::Color => {},
        }
    }

    /// Parts other than the lines begin with nothing that the lines take.
    proof fn lines_end_before_other_parts(
        v: TextDecorationView,
        order: Seq<DecorationPart>,
        spelling: Spelling,
    )
        requires
            v.thickness.valid(),
            !order.contains(DecorationPart::Line),
        ensures
            v.line.step(Self::arranged(v, order, spelling)) is None,
        decreases order.len(),
    {
        if order.len() > 0 {
            let tail = order.skip(1);
            let rest = Self::arranged(v, tail, spelling);
            order_less_first_contains(order, DecorationPart::Line);
            if Self::part(v, order[0], spelling).len() > 0 {
                Self::part_is_read_by_its_slot(v, order[0], rest, spelling);
            } else {
                assert(Self::arranged(v, order, spelling) =~= rest);
                Self::lines_end_before_other_parts(v, tail, spelling);
            }
        }
    }

    /// One step of a parse: the lines at the front fill their slot.
    proof fn lines_fill_their_slot(
        v: TextDecorationView,
        rest: Seq<Component>,
        spelling: Spelling,
        thickness: bool,
        style: bool,
        color: bool,
    )
        requires
            v.line.allowed(),
            v.line.step(rest) is None,
        ensures
            Self::scan(
                Self::part(v, DecorationPart::Line, spelling) + rest,
                Self::progress(v, spelling, false, thickness, style, color, 0),
            ) == Self::scan(rest, Self::progress(v, spelling, true, thickness, style, color, 0)).later(
                Self::part(v, DecorationPart::Line, spelling).len(),
            ),
    {
        reveal(TextDecoration::scan);
        let head = Self::part(v, DecorationPart::Line, spelling);
        let all = head + rest;
        TextDecorationLine::lines_are_read_back(v.line, rest);
        assert(all.skip(head.len() as int) =~= rest);
        let now = Self::progress(v, spelling, false, thickness, style, color, 0);
        assert(DecorationScan { line: Some(v.line), ..now } == Self::progress(
            v,
            spelling,
            true,
            thickness,
            style,
            color,
            0,
        ));
    }

    /// One step of a parse: a part other than the lines, at the front, fills
    /// its slot; a part at its default is not written and leaves its slot
    /// open.
    proof fn part_fills_its_slot(
        v: TextDecorationView,
        part: DecorationPart,
        rest: Seq<Component>,
        spelling: Spelling,
        line: bool,
        thickness: bool,
        style: bool,
        color: bool,
    )
        requires
            v.thickness.valid(),
            !(part is Line),
            part is Thickness ==> !thickness,
            part is Style ==> !style,
            part is Color ==> !color,
        ensures
            Self::scan(
                Self::part(v, part, spelling) + rest,
                Self::progress(v, spelling, line, thickness, style, color, 0),
            ) == Self::scan(
                rest,
                Self::progress(
                    v,
                    spelling,
                    line,
                    thickness || part is Thickness,
                    style || part is Style,
                    color || part is Color,
                    0,
                ),
            ).later(Self::part(v, part, spelling).len()),
    {
        reveal(TextDecoration::scan);
        let head = Self::part(v, part, spelling);
        let all = head + rest;
        let now = Self::progress(v, spelling, line, thickness, style, color, 0);
        let next = Self::progress(
            v,
            spelling,
            line,
            thickness || part is Thickness,
            style || part is Style,
            color || part is Color,
            0,
        );
        if head.len() == 0 {
            assert(all =~= rest);
            assert(now == next);
        } else {
            Self::part_is_read_by_its_slot(v, part, rest, spelling);
            assert(all.skip(1) =~= rest);
            match part {
                DecorationPart::Line => {},
                DecorationPart::Thickness => {
                    assert(DecorationScan { thickness: Some(v.thickness), ..now } == next);
                },
                DecorationPart::Style => {
                    assert(DecorationScan { style: Some(v.style), ..now } == next);
                },
                DecorationPart::Color => {
                    assert(DecorationScan { color: Some(v.color), ..now } == next);
                },
            }
        }
    }

    /// Reading parts of `v` that are still open, in whatever order they come,
    /// fills exactly their slots and takes all their component values.
    proof fn parts_fill_their_slots(
        v: TextDecorationView,
        order: Seq<DecorationPart>,
        spelling: Spelling,
        line: bool,
        thickness: bool,
        style: bool,
        color: bool,
    )
        requires
            v.valid(),
            order.no_duplicates(),
            line ==> !order.contains(DecorationPart::Line),
            thickness ==> !order.contains(DecorationPart::Thickness),
            style ==> !order.contains(DecorationPart::Style),
            color ==> !order.contains(DecorationPart::Color),
        ensures
            Self::scan(Self::arranged(v, order, spelling), Self::progress(v, spelling, line, thickness, style, color, 0))
                == Self::progress(
                v,
                spelling,
                line || order.contains(DecorationPart::Line),
                thickness || order.contains(DecorationPart::Thickness),
                style || order.contains(DecorationPart::Style),
                color || order.contains(DecorationPart::Color),
                Self::arranged(v, order, spelling).len(),
            ),
        decreases order.len(),
    {
        if order.len() == 0 {
            reveal(TextDecoration::scan);
            Self::nothing_is_read_at_the_end(Self::arranged(v, order, spelling));
        } else {
            let tail = order.skip(1);
            let rest = Self::arranged(v, tail, spelling);
            order_less_first(order);
            match order[0] {
                DecorationPart::Line => {
                    Self::lines_end_before_other_parts(v, tail, spelling);
                    Self::lines_fill_their_slot(v, rest, spelling, thickness, style, color);
                    Self::parts_fill_their_slots(v, tail, spelling, true, thickness, style, color);
                },
                DecorationPart::Thickness => {
                    Self::part_fills_its_slot(v, order[0], rest, spelling, line, thickness, style, color);
                    Self::parts_fill_their_slots(v, tail, spelling, line, true, style, color);
                },
                DecorationPart::Style => {
                    Self::part_fills_its_slot(v, order[0], rest, spelling, line, thickness, style, color);
                    Self::parts_fill_their_slots(v, tail, spelling, line, thickness, true, color);
                },
                DecorationPart::Color => {
                    Self::part_fills_its_slot(v, order[0], rest, spelling, line, thickness, style, color);
                    Self::parts_fill_their_slots(v, tail, spelling, line, thickness, style, true);
                },
            }
        }
    }

    /// A value with no line set is written as `none` and nothing more,
    /// whatever its other parts hold; so is the value with every part at its
    /// default.
    pub proof fn no_line_is_written_as_none(v: TextDecorationView)
        requires
            v.line.is_empty(),
        ensures
            Self::canonical(v) == seq![word("none"@)],
            text_of(Self::canonical(v)) == "none"@,
    {
    }

    /// The lines that a parse gives are an allowed combination and the
    /// thickness is valid, given that those it began with are.
    proof fn scan_keeps_valid(rest: Seq<Component>, slots: DecorationScan)
        requires
            slots.line matches Some(line) ==> line.allowed(),
            slots.thickness matches Some(thickness) ==> thickness.valid(),
        ensures
            Self::scan(rest, slots).line matches Some(line) ==> line.allowed(),
            Self::scan(rest, slots).thickness matches Some(thickness) ==> thickness.valid(),
        decreases slots.open_slots(),
    {
        reveal(TextDecoration::scan);
        if slots.line is None && value_at::<TextDecorationLine>(rest) is Some {
            let n = taken_at::<TextDecorationLine>(rest);
            TextDecorationLine::parsed_is_allowed(rest);
            Self::scan_keeps_valid(
                rest.skip(n as int),
                DecorationScan { line: value_at::<TextDecorationLine>(rest), ..slots },
            );
        } else if slots.thickness is None && value_at::<TextDecorationThickness>(rest) is Some {
            let n = taken_at::<TextDecorationThickness>(rest);
            LengthPercentage::read_is_valid(rest[0].lexeme);
            Self::scan_keeps_valid(
                rest.skip(n as int),
                DecorationScan { thickness: value_at::<TextDecorationThickness>(rest), ..slots },
            );
        } else if slots.style is None && value_at::<TextDecorationStyle>(rest) is Some {
            let n = taken_at::<TextDecorationStyle>(rest);
            Self::scan_keeps_valid(
                rest.skip(n as int),
                DecorationScan { style: value_at::<TextDecorationStyle>(rest), ..slots },
            );
        } else if slots.color is None && value_at::<CssColor>(rest) is Some {
            let n = taken_at::<CssColor>(rest);
            Self::scan_keeps_valid(
                rest.skip(n as int),
                DecorationScan { color: value_at::<CssColor>(rest), ..slots },
            );
        }
    }

    /// Every value that a parse gives is valid, and is read back from its
    /// canonical form unless only its lines are written and another part is
    /// not at its default.
    pub proof fn parsed_reads_back(rest: Seq<Component>)
        ensures
            Self::parse_spec(rest) matches Some((v, _)) ==> v.valid() && (!v.lines_only()
                || v.plain() ==> Self::reads_back(v)),
    {
        Self::scan_keeps_valid(rest, Self::start());
    }

    /// The text of a valid value neither begins nor ends with a space and
    /// has no two spaces in a row, given that the text of its colour, where
    /// that is written, is so.
    pub proof fn text_is_well_spaced(v: TextDecorationView)
        requires
            v.valid(),
            !v.lines_only() && v.color != CssColor::CurrentColor ==> well_spaced(
                color_text(v.color),
            ),
        ensures
            well_spaced(text_of(Self::canonical(v))),
    {
        let line = TextDecorationLine::canonical(v.line);
        TextDecorationLine::written_well_spaced(v.line);
        if !v.lines_only() {
            reveal_strlit("from-font");
            reveal_strlit("solid");
            reveal_strlit("double");
            reveal_strlit("dotted");
            reveal_strlit("dashed");
            reveal_strlit("wavy");
            assert(unbroken("from-font"@));
            assert(unbroken(v.style.name()));
            let thickness = if v.thickness is Auto {
                line
            } else {
                line + TextDecorationThickness::canonical(v.thickness)
            };
            let style = thickness.push(word(v.style.name()));
            if !(v.thickness is Auto) {
                let t = TextDecorationThickness::canonical(v.thickness);
                match v.thickness {
                    ThicknessView::LengthPercentage(length) => {
                        LengthPercentage::written_unbroken(length);
                    },
                    _ => {},
                }
                assert(unbroken(component_text(t[0])));
                assert(all_well_spaced(t));
                all_well_spaced_concat(line, t);
            }
            all_well_spaced_push(thickness, word(v.style.name()));
            if v.color != CssColor::CurrentColor {
                all_well_spaced_push(style, CssColor::component(v.color));
            }
        }
        text_of_is_well_spaced(Self::canonical(v));
    }

    /// A value with a line that stands alone is written as that line and
    /// nothing more, whatever its other parts hold.
    pub proof fn line_alone_is_written_alone(v: TextDecorationView)
        requires
            v.line.exclusive(),
        ensures
            Self::canonical(v) == if v.line.spelling_error {
                seq![word("spelling-error"@)]
            } else {
                seq![word("grammar-error"@)]
            },
    {
    }

    /// The four parts of a value may be written in any order, and a part at
    /// its default may be written out or left out: each of the twenty-four
    /// orders, under each spelling, is read as the same value.
    pub proof fn order_is_free(
        v: TextDecorationView,
        spelling: Spelling,
        first: DecorationPart,
        second: DecorationPart,
        third: DecorationPart,
        fourth: DecorationPart,
    )
        requires
            v.valid(),
            first != second,
            first != third,
            first != fourth,
            second != third,
            second != fourth,
            third != fourth,
        ensures
            ({
                let text = Self::arranged(v, seq![first, second, third, fourth], spelling);
                Self::parse_spec(text) == Some((v, text.len()))
            }),
    {
        let order = seq![first, second, third, fourth];
        assert(order[0] == first && order[1] == second && order[2] == third && order[3] == fourth);
        assert(order.contains(DecorationPart::Line) && order.contains(DecorationPart::Thickness)
            && order.contains(DecorationPart::Style) && order.contains(DecorationPart::Color));
        Self::parts_fill_their_slots(v, order, spelling, false, false, false, false);
    }
}

impl Canonical for TextDecoration {
    /// The valid values which, where only the lines are written, have every
    /// other part at its default.
    open spec fn reads_back(v: TextDecorationView) -> bool {
        &&& v.valid()
        &&& v.lines_only() ==> v.plain()
    }

    proof fn canonical_is_read_back(v: TextDecorationView) {
        let text = TextDecoration::canonical(v);
        let spelling = if v.lines_only() {
            Spelling::bare()
        } else {
            Spelling::shortest()
        };
        let order = seq![
            DecorationPart::Line,
            DecorationPart::Thickness,
            DecorationPart::Style,
            DecorationPart::Color,
        ];
        TextDecoration::order_is_free(
            v,
            spelling,
            DecorationPart::Line,
            DecorationPart::Thickness,
            DecorationPart::Style,
            DecorationPart::Color,
        );
        let end = Seq::<DecorationPart>::empty();
        let color = seq![DecorationPart::Color];
        let style = seq![DecorationPart::Style, DecorationPart::Color];
        let thickness = seq![DecorationPart::Thickness, DecorationPart::Style, DecorationPart::Color];
        assert(color.skip(1) =~= end);
        assert(style.skip(1) =~= color);
        assert(thickness.skip(1) =~= style);
        assert(order.skip(1) =~= thickness);
        assert(TextDecoration::arranged(v, end, spelling) =~= Seq::<Component>::empty());
        assert(TextDecoration::arranged(v, color, spelling) =~= TextDecoration::part(
            v,
            DecorationPart::Color,
            spelling,
        ));
        assert(TextDecoration::arranged(v, style, spelling) =~= TextDecoration::part(
            v,
            DecorationPart::Style,
            spelling,
        ) + TextDecoration::part(v, DecorationPart::Color, spelling));
        assert(TextDecoration::arranged(v, thickness, spelling) =~= TextDecoration::part(
            v,
            DecorationPart::Thickness,
            spelling,
        ) + TextDecoration::arranged(v, style, spelling));
        assert(TextDecoration::arranged(v, order, spelling) =~= TextDecoration::part(
            v,
            DecorationPart::Line,
            spelling,
        ) + TextDecoration::arranged(v, thickness, spelling));
        assert(TextDecorationThickness::canonical(v.thickness).len() == 1);
        assert(TextDecoration::arranged(v, order, spelling) =~= text);
    }
}

} // verus!
