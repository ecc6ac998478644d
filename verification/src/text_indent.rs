//! The `text-indent` property: a length or percentage, and the keywords
//! `hanging` and `each-line`, in any order.

use crate::cursor::{
    advanced, advanced_more, advanced_none, current_location, location, remaining, restore, save,
    Component, ErrorKind, ParseError,
};
use crate::keyword::{is_ident, try_ident_matching};
use crate::length::{LengthPercentage, LengthPercentageView};
use crate::printer::{text_of_push, word, Printer};
use crate::traits::{order_less_first, slot_view, value_at, Canonical, Parse, ToCss};
use vstd::prelude::*;

verus! {

/// A value of `text-indent`.
#[derive(Clone, Debug, PartialEq, Eq)]
pub struct TextIndent {
    pub value: LengthPercentage,
    pub hanging: bool,
    pub each_line: bool,
}

/// What a `TextIndent` holds.
pub struct TextIndentView {
    pub value: LengthPercentageView,
    pub hanging: bool,
    pub each_line: bool,
}

impl TextIndentView {
    /// The length or percentage is valid.
    pub open spec fn valid(self) -> bool {
        self.value.valid()
    }
}

impl View for TextIndent {
    type V = TextIndentView;

    open spec fn view(&self) -> TextIndentView {
        TextIndentView { value: self.value@, hanging: self.hanging, each_line: self.each_line }
    }
}

/// How far a parse of `text-indent` has come: what each slot holds, and how
/// many component values were taken.
pub struct IndentScan {
    pub value: Option<LengthPercentageView>,
    pub hanging: bool,
    pub each_line: bool,
    pub taken: nat,
}

impl IndentScan {
    /// The same outcome, reached after `n` more component values.
    pub open spec fn later(self, n: nat) -> IndentScan {
        IndentScan { taken: self.taken + n, ..self }
    }
}

impl TextIndent {
    /// Fills the slots from `rest` until no slot that is still open takes the
    /// next component value. The slots are offered it in the order value,
    /// `hanging`, `each-line`.
    pub open spec fn scan(
        rest: Seq<Component>,
        value: Option<LengthPercentageView>,
        hanging: bool,
        each_line: bool,
    ) -> IndentScan
        decreases rest.len(),
    {
        if value is None && value_at::<LengthPercentage>(rest) is Some {
            Self::scan(rest.skip(1), value_at::<LengthPercentage>(rest), hanging, each_line).later(
                1,
            )
        } else if !hanging && is_ident(rest, "hanging"@) {
            Self::scan(rest.skip(1), value, true, each_line).later(1)
        } else if !each_line && is_ident(rest, "each-line"@) {
            Self::scan(rest.skip(1), value, hanging, true).later(1)
        } else {
            IndentScan { value, hanging, each_line, taken: 0 }
        }
    }

}

impl Parse for TextIndent {
    /// The three parts may come in any order, each at most once; the parse
    /// fails where no length or percentage is among them.
    open spec fn parse_spec(rest: Seq<Component>) -> Option<(TextIndentView, nat)> {
        let end = TextIndent::scan(rest, None, false, false);
        match end.value {
            Some(value) => Some(
                (TextIndentView { value, hanging: end.hanging, each_line: end.each_line }, end.taken),
            ),
            None => None,
        }
    }

    open spec fn failure() -> ErrorKind {
        ErrorKind::Invalid
    }

    fn parse(input: &mut cssparser::Parser) -> (r: Result<TextIndent, ParseError>) {
        let start = save(input);
        let at = current_location(input);
        let mut value: Option<LengthPercentage> = None;
        let mut hanging = false;
        let mut each_line = false;
        let ghost mut taken: nat = 0;
        proof {
            advanced_none(old(input), input);
        }
        loop
            invariant
                advanced(old(input), input, taken),
                TextIndent::scan(remaining(old(input)), None, false, false) == TextIndent::scan(
                    remaining(input),
                    slot_view(value),
                    hanging,
                    each_line,
                ).later(taken),
            ensures
                TextIndent::scan(remaining(input), slot_view(value), hanging, each_line).taken == 0,
            decreases remaining(input).len(),
        {
            let ghost before = *input;
            if value.is_none() {
                if let Ok(v) = LengthPercentage::parse(input) {
                    value = Some(v);
                    proof {
                        advanced_more(old(input), &before, input, taken, 1);
                        taken = taken + 1;
                    }
                    continue ;
                }
            }
            if !hanging {
                if try_ident_matching(input, "hanging") {
                    hanging = true;
                    proof {
                        advanced_more(old(input), &before, input, taken, 1);
                        taken = taken + 1;
                    }
                    continue ;
                }
            }
            if !each_line {
                if try_ident_matching(input, "each-line") {
                    each_line = true;
                    proof {
                        advanced_more(old(input), &before, input, taken, 1);
                        taken = taken + 1;
                    }
                    continue ;
                }
            }
            break ;
        }
        match value {
            Some(value) => Ok(TextIndent { value, hanging, each_line }),
            None => {
                restore(input, &start);
                Err(ParseError { kind: ErrorKind::Invalid, location: at })
            },
        }
    }

}

impl ToCss for TextIndent {
    /// The length or percentage, then `hanging`, then `each-line`, each
    /// keyword only where it is set.
    open spec fn canonical(v: TextIndentView) -> Seq<Component> {
        let value = seq![LengthPercentage::component(v.value)];
        let hanging = if v.hanging {
            value.push(word("hanging"@))
        } else {
            value
        };
        if v.each_line {
            hanging.push(word("each-line"@))
        } else {
            hanging
        }
    }

    fn to_css(&self, dest: &mut Printer) {
        self.value.to_css(dest);
        let ghost value = seq![LengthPercentage::component(self.value@)];
        if self.hanging {
            dest.write_str(" hanging");
        }
        if self.each_line {
            dest.write_str(" each-line");
        }
        proof {
            reveal_strlit(" hanging");
            reveal_strlit("hanging");
            reveal_strlit(" each-line");
            reveal_strlit("each-line");
            assert(" hanging"@ =~= seq![' '] + "hanging"@);
            assert(" each-line"@ =~= seq![' '] + "each-line"@);
            let hanging = if self.hanging {
                value.push(word("hanging"@))
            } else {
                value
            };
            text_of_push(value, word("hanging"@));
            text_of_push(hanging, word("each-line"@));
        }
    }
}

/// One of the three parts of a value of `text-indent`.
pub enum IndentPart {
    Value,
    Hanging,
    EachLine,
}

impl TextIndent {
    /// The component values that one part of `v` is written as; none for a
    /// keyword that is not set.
    pub open spec fn part(v: TextIndentView, part: IndentPart) -> Seq<Component> {
        match part {
            IndentPart::Value => seq![LengthPercentage::component(v.value)],
            IndentPart::Hanging => if v.hanging {
                seq![word("hanging"@)]
            } else {
                Seq::empty()
            },
            IndentPart::EachLine => if v.each_line {
                seq![word("each-line"@)]
            } else {
                Seq::empty()
            },
        }
    }

    /// The parts of `v` written one after the other, in the order given.
    pub open spec fn arranged(v: TextIndentView, order: Seq<IndentPart>) -> Seq<Component>
        decreases order.len(),
    {
        if order.len() == 0 {
            Seq::empty()
        } else {
            Self::part(v, order[0]) + Self::arranged(v, order.skip(1))
        }
    }

    /// The slots of a parse that has read the parts of `v` marked as done.
    pub open spec fn progress(v: TextIndentView, value: bool, hanging: bool, each_line: bool, taken: nat)
        -> IndentScan {
        IndentScan {
            value: if value {
                Some(v.value)
            } else {
                None
            },
            hanging: hanging && v.hanging,
            each_line: each_line && v.each_line,
            taken,
        }
    }

    /// Reading parts of `v` that are still open, in whatever order they come,
    /// fills exactly their slots and takes all their component values.
    proof fn parts_fill_their_slots(
        v: TextIndentView,
        order: Seq<IndentPart>,
        value: bool,
        hanging: bool,
        each_line: bool,
    )
        requires
            v.valid(),
            order.no_duplicates(),
            value ==> !order.contains(IndentPart::Value),
            hanging ==> !order.contains(IndentPart::Hanging),
            each_line ==> !order.contains(IndentPart::EachLine),
        ensures
            ({
                let open = Self::progress(v, value, hanging, each_line, 0);
                Self::scan(Self::arranged(v, order), open.value, open.hanging, open.each_line)
            }) == Self::progress(
                v,
                value || order.contains(IndentPart::Value),
                hanging || order.contains(IndentPart::Hanging),
                each_line || order.contains(IndentPart::EachLine),
                Self::arranged(v, order).len(),
            ),
        decreases order.len(),
    {
        reveal_strlit("hanging");
        reveal_strlit("each-line");
        let all = Self::arranged(v, order);
        if order.len() == 0 {
        } else {
            let tail = order.skip(1);
            let rest = Self::arranged(v, tail);
            order_less_first(order);
            match order[0] {
                IndentPart::Value => {
                    LengthPercentage::canonical_is_read_back(v.value);
                    assert(all.skip(1) =~= rest);
                    Self::parts_fill_their_slots(v, tail, true, hanging, each_line);
                },
                IndentPart::Hanging => {
                    if v.hanging {
                        crate::ascii::eq_ignore_case_refl("hanging"@);
                        assert(all.skip(1) =~= rest);
                    } else {
                        assert(all =~= rest);
                    }
                    Self::parts_fill_their_slots(v, tail, value, true, each_line);
                },
                IndentPart::EachLine => {
                    if v.each_line {
                        crate::ascii::eq_ignore_case_refl("each-line"@);
                        assert(all.skip(1) =~= rest);
                    } else {
                        assert(all =~= rest);
                    }
                    Self::parts_fill_their_slots(v, tail, value, hanging, true);
                },
            }
        }
    }

    /// The length or percentage that a parse gives is valid, given that the
    /// one it began with is.
    proof fn scan_keeps_valid(
        rest: Seq<Component>,
        value: Option<LengthPercentageView>,
        hanging: bool,
        each_line: bool,
    )
        requires
            value matches Some(v) ==> v.valid(),
        ensures
            Self::scan(rest, value, hanging, each_line).value matches Some(v) ==> v.valid(),
        decreases rest.len(),
    {
        if value is None && value_at::<LengthPercentage>(rest) is Some {
            LengthPercentage::read_is_valid(rest[0].lexeme);
            Self::scan_keeps_valid(
                rest.skip(1),
                value_at::<LengthPercentage>(rest),
                hanging,
                each_line,
            );
        } else if !hanging && is_ident(rest, "hanging"@) {
            Self::scan_keeps_valid(rest.skip(1), value, true, each_line);
        } else if !each_line && is_ident(rest, "each-line"@) {
            Self::scan_keeps_valid(rest.skip(1), value, hanging, true);
        }
    }

    /// Every value that a parse gives is read back from its canonical form.
    pub proof fn parsed_reads_back(rest: Seq<Component>)
        ensures
            Self::parse_spec(rest) matches Some((v, _)) ==> Self::reads_back(v),
    {
        Self::scan_keeps_valid(rest, None, false, false);
    }

    /// The three parts of a value may be written in any order: each of the
    /// six orders is read as the same value.
    pub proof fn order_is_free(v: TextIndentView, first: IndentPart, second: IndentPart, third: IndentPart)
        requires
            v.valid(),
            first != second,
            first != third,
            second != third,
        ensures
            ({
                let text = Self::arranged(v, seq![first, second, third]);
                Self::parse_spec(text) == Some((v, text.len()))
            }),
    {
        let order = seq![first, second, third];
        assert(order[0] == first && order[1] == second && order[2] == third);
        assert(order.contains(IndentPart::Value) && order.contains(IndentPart::Hanging)
            && order.contains(IndentPart::EachLine));
        Self::parts_fill_their_slots(v, order, false, false, false);
    }
}

impl Canonical for TextIndent {
    /// The valid values, as every one is that a parse gives.
    open spec fn reads_back(v: TextIndentView) -> bool {
        v.valid()
    }

    proof fn canonical_is_read_back(v: TextIndentView) {
        let order = seq![IndentPart::Value, IndentPart::Hanging, IndentPart::EachLine];
        TextIndent::order_is_free(v, IndentPart::Value, IndentPart::Hanging, IndentPart::EachLine);
        reveal_with_fuel(TextIndent::arranged, 4);
        assert(TextIndent::arranged(v, order) =~= TextIndent::canonical(v));
    }
}

} // verus!
