//! The text sink that serializers write to.

use crate::color::color_text;
use crate::cursor::{Component, Lexeme};
use vstd::prelude::*;
use vstd::string::StringExecFns;

verus! {

/// The text of one component value.
pub open spec fn component_text(c: Component) -> Seq<char> {
    match c.lexeme {
        Lexeme::Ident(name) => name,
        Lexeme::Number(text) => text,
        Lexeme::Percentage(text) => text,
        Lexeme::Dimension(number, unit) => number + unit,
        Lexeme::Other => match c.color {
            Some(color) => color_text(color),
            None => Seq::empty(),
        },
    }
}

/// The text of a sequence of component values: the text of each, with one
/// space between any two.
pub open spec fn text_of(cs: Seq<Component>) -> Seq<char>
    decreases cs.len(),
{
    if cs.len() == 0 {
        Seq::empty()
    } else if cs.len() == 1 {
        component_text(cs[0])
    } else {
        text_of(cs.drop_last()) + seq![' '] + component_text(cs.last())
    }
}

/// The component value that is the identifier `name`, and no colour.
pub open spec fn word(name: Seq<char>) -> Component {
    Component { lexeme: Lexeme::Ident(name), color: None }
}

/// A space written behind a text and a text written behind that are the two
/// texts with a space between.
pub proof fn space_between()
    ensures
        forall|a: Seq<char>, b: Seq<char>| #[trigger] (a.push(' ') + b) == a + seq![' '] + b,
{
    assert forall|a: Seq<char>, b: Seq<char>| #[trigger] (a.push(' ') + b) == a + seq![' ']
        + b by {
        assert(a.push(' ') + b =~= a + seq![' '] + b);
    }
}

/// Appending one component appends its text, after a space unless it is the
/// first.
pub proof fn text_of_push(cs: Seq<Component>, c: Component)
    ensures
        text_of(cs.push(c)) == if cs.len() == 0 {
            component_text(c)
        } else {
            text_of(cs) + seq![' '] + component_text(c)
        },
{
    assert(cs.push(c).drop_last() =~= cs);
    assert(cs.push(c).last() == c);
}

/// The text of two sequences joined is the two texts with a space between,
/// where neither is empty.
pub proof fn text_of_concat(a: Seq<Component>, b: Seq<Component>)
    ensures
        text_of(a + b) == if a.len() == 0 {
            text_of(b)
        } else if b.len() == 0 {
            text_of(a)
        } else {
            text_of(a) + seq![' '] + text_of(b)
        },
    decreases b.len(),
{
    if a.len() == 0 {
        assert(a + b =~= b);
    } else if b.len() == 0 {
        assert(a + b =~= a);
    } else {
        let front = b.drop_last();
        assert((a + b).drop_last() =~= a + front);
        assert((a + b).last() == b.last());
        text_of_concat(a, front);
        if front.len() == 0 {
            assert(b.len() == 1);
            assert(b.last() == b[0]);
        } else {
            assert(text_of(a + b) =~= text_of(a) + seq![' '] + text_of(front) + seq![' ']
                + component_text(b.last()));
            assert(text_of(b) =~= text_of(front) + seq![' '] + component_text(b.last()));
            assert(text_of(a) + seq![' '] + text_of(b) =~= text_of(a) + seq![' '] + text_of(front)
                + seq![' '] + component_text(b.last()));
        }
    }
}

/// Accumulates the text of a serialized value.
pub struct Printer {
    text: String,
}

impl View for Printer {
    type V = Seq<char>;

    closed spec fn view(&self) -> Seq<char> {
        self.text@
    }
}

/// `String::push` appends the one character `c` to the string.
#[verifier::external_body]
fn push_char(text: &mut String, c: char)
    ensures
        final(text)@ == old(text)@.push(c),
{
    text.push(c)
}

impl Printer {
    /// A printer that holds no text yet.
    pub fn new() -> (p: Printer)
        ensures
            p@ == Seq::<char>::empty(),
    {
        Printer { text: String::new() }
    }

    /// Appends `s`.
    pub fn write_str(&mut self, s: &str)
        ensures
            final(self)@ == old(self)@ + s@,
    {
        self.text.append(s);
    }

    /// Appends the character `c`.
    pub fn write_char(&mut self, c: char)
        ensures
            final(self)@ == old(self)@.push(c),
    {
        push_char(&mut self.text, c);
    }

    /// The text written so far.
    pub fn as_str(&self) -> (s: &str)
        ensures
            s@ == self@,
    {
        self.text.as_str()
    }

    /// Hands the accumulated text over.
    pub fn into_string(self) -> (s: String)
        ensures
            s@ == self@,
    {
        self.text
    }
}

/// A text that is not empty and has no space in it.
pub open spec fn unbroken(text: Seq<char>) -> bool {
    &&& text.len() > 0
    &&& forall|i: int| 0 <= i < text.len() ==> #[trigger] text[i] != ' '
}

/// `text` has a space at `i` and another right behind it.
pub open spec fn doubled_at(text: Seq<char>, i: int) -> bool {
    text[i] == ' ' && text[i + 1] == ' '
}

/// A text that is not empty, neither begins nor ends with a space, and has
/// no two spaces in a row.
pub open spec fn well_spaced(text: Seq<char>) -> bool {
    &&& text.len() > 0
    &&& text[0] != ' '
    &&& text.last() != ' '
    &&& forall|i: int| 0 <= i < text.len() - 1 ==> !#[trigger] doubled_at(text, i)
}

/// The text of every one of `cs` is well spaced.
pub open spec fn all_well_spaced(cs: Seq<Component>) -> bool {
    forall|i: int| 0 <= i < cs.len() ==> well_spaced(component_text(#[trigger] cs[i]))
}

/// Two texts with no space in them, one behind the other, have no space in
/// them.
pub proof fn unbroken_concat(a: Seq<char>, b: Seq<char>)
    requires
        unbroken(a),
        unbroken(b),
    ensures
        unbroken(a + b),
{
}

/// Two well spaced texts with one space between them are well spaced.
pub proof fn well_spaced_join(a: Seq<char>, b: Seq<char>)
    requires
        well_spaced(a),
        well_spaced(b),
    ensures
        well_spaced(a + seq![' '] + b),
{
    let all = a + seq![' '] + b;
    assert(all[0] == a[0]);
    assert(all.last() == b.last());
    assert forall|i: int| 0 <= i < all.len() - 1 implies !#[trigger] doubled_at(all, i) by {
        if i < a.len() - 1 {
            assert(!doubled_at(a, i));
            assert(all[i] == a[i] && all[i + 1] == a[i + 1]);
        } else if i == a.len() - 1 {
            assert(all[i] == a.last());
        } else if i == a.len() {
            assert(all[i + 1] == b[0]);
        } else {
            let j = i - a.len() - 1;
            assert(!doubled_at(b, j));
            assert(all[i] == b[j] && all[i + 1] == b[j + 1]);
        }
    }
}

/// One more well spaced component keeps all of them well spaced.
pub proof fn all_well_spaced_push(cs: Seq<Component>, c: Component)
    requires
        all_well_spaced(cs),
        well_spaced(component_text(c)),
    ensures
        all_well_spaced(cs.push(c)),
{
    assert forall|i: int| 0 <= i < cs.push(c).len() implies well_spaced(
        component_text(#[trigger] cs.push(c)[i]),
    ) by {
        if i < cs.len() {
            assert(cs.push(c)[i] == cs[i]);
        }
    }
}

/// Components that are all well spaced, one behind the other, are all well
/// spaced.
pub proof fn all_well_spaced_concat(a: Seq<Component>, b: Seq<Component>)
    requires
        all_well_spaced(a),
        all_well_spaced(b),
    ensures
        all_well_spaced(a + b),
{
    assert forall|i: int| 0 <= i < (a + b).len() implies well_spaced(
        component_text(#[trigger] (a + b)[i]),
    ) by {
        if i < a.len() {
            assert((a + b)[i] == a[i]);
        } else {
            assert((a + b)[i] == b[i - a.len()]);
        }
    }
}

/// The text of component values that are each well spaced is well spaced:
/// it neither begins nor ends with a space and has no two in a row.
pub proof fn text_of_is_well_spaced(cs: Seq<Component>)
    requires
        cs.len() > 0,
        all_well_spaced(cs),
    ensures
        well_spaced(text_of(cs)),
    decreases cs.len(),
{
    if cs.len() == 1 {
        assert(well_spaced(component_text(cs[0])));
    } else {
        let front = cs.drop_last();
        assert forall|i: int| 0 <= i < front.len() implies well_spaced(
            component_text(#[trigger] front[i]),
        ) by {
            assert(front[i] == cs[i]);
        }
        text_of_is_well_spaced(front);
        assert(well_spaced(component_text(cs[cs.len() - 1])));
        well_spaced_join(text_of(front), component_text(cs.last()));
    }
}

} // verus!
