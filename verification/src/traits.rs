//! What every value grammar offers: a parser, a printer, and the law that
//! ties the two together.

use crate::cursor::{
    advanced, current_location, is_exhausted, location, remaining, restore, save, unmoved,
    Component, ErrorKind, ParseError,
};
use crate::printer::{text_of, Printer};
use vstd::prelude::*;

verus! {

/// A value that can be read from the cursor.
pub trait Parse: Sized + View {
    /// The value that `rest` begins with and the number of component values
    /// that make it up; `None` where `rest` does not begin with one.
    spec fn parse_spec(rest: Seq<Component>) -> Option<(Self::V, nat)>;

    /// The kind of the error that a failed parse reports.
    spec fn failure() -> ErrorKind;

    /// Reads one value and moves the cursor past it. On failure the cursor
    /// is left where it was, and the error carries the location at which
    /// the parse was started.
    fn parse(input: &mut cssparser::Parser) -> (r: Result<Self, ParseError>)
        ensures
            match Self::parse_spec(remaining(old(input))) {
                Some((v, n)) => r matches Ok(t) && t@ == v && advanced(old(input), final(input), n),
                None => {
                    &&& r matches Err(e)
                    &&& e == ParseError { kind: Self::failure(), location: location(old(input)) }
                    &&& unmoved(old(input), final(input))
                },
            },
    ;
}

/// The value that `rest` begins with, if it begins with one.
pub open spec fn value_at<T: Parse>(rest: Seq<Component>) -> Option<T::V> {
    match T::parse_spec(rest) {
        Some((v, _)) => Some(v),
        None => None,
    }
}

/// The number of component values that make up the value that `rest` begins
/// with; 0 where it begins with none.
pub open spec fn taken_at<T: Parse>(rest: Seq<Component>) -> nat {
    match T::parse_spec(rest) {
        Some((_, n)) => n,
        None => 0,
    }
}

/// The view of a slot that may hold a value.
pub open spec fn slot_view<T: View>(slot: Option<T>) -> Option<T::V> {
    match slot {
        Some(v) => Some(v@),
        None => None,
    }
}

/// An order without repeats, less its first: the rest has no repeats, lacks
/// the first, and holds whatever else the order holds.
pub proof fn order_less_first<A>(order: Seq<A>)
    requires
        order.len() > 0,
        order.no_duplicates(),
    ensures
        order.skip(1).no_duplicates(),
        order.contains(order[0]),
        !order.skip(1).contains(order[0]),
        forall|a: A| order.contains(a) <==> a == order[0] || order.skip(1).contains(a),
{
    let tail = order.skip(1);
    assert forall|a: A| tail.contains(a) implies order.contains(a) by {
        let i = choose|i: int| 0 <= i < tail.len() && tail[i] == a;
        assert(order[i + 1] == a);
    }
    assert(!tail.contains(order[0])) by {
        if tail.contains(order[0]) {
            let i = choose|i: int| 0 <= i < tail.len() && tail[i] == order[0];
            assert(order[i + 1] == order[0]);
        }
    }
    assert forall|a: A| order.contains(a) implies a == order[0] || tail.contains(a) by {
        let i = choose|i: int| 0 <= i < order.len() && order[i] == a;
        if i > 0 {
            assert(tail[i - 1] == a);
        }
    }
    assert(order[0] == order[0]);
}

/// What the first of an order is not, and the order does not hold, the rest
/// does not hold either.
pub proof fn order_less_first_contains<A>(order: Seq<A>, a: A)
    requires
        order.len() > 0,
        !order.contains(a),
    ensures
        !order.skip(1).contains(a),
        order[0] != a,
{
    let tail = order.skip(1);
    if tail.contains(a) {
        let i = choose|i: int| 0 <= i < tail.len() && tail[i] == a;
        assert(order[i + 1] == a);
    }
    assert(order[0] == order[0]);
}

/// A value that can be written in its canonical form.
pub trait ToCss: View {
    /// The component values that the canonical form of `v` consists of.
    spec fn canonical(v: Self::V) -> Seq<Component>;

    /// Writes the canonical form: its component values, one space between
    /// any two.
    fn to_css(&self, dest: &mut Printer)
        ensures
            final(dest)@ == old(dest)@ + text_of(Self::canonical(self@)),
    ;
}

/// A grammar whose printer and parser agree.
pub trait Canonical: Parse + ToCss {
    /// The values that are read back from their canonical form.
    spec fn reads_back(v: Self::V) -> bool;

    /// Parsing the canonical form of such a value takes all of it and gives
    /// the value back.
    proof fn canonical_is_read_back(v: Self::V)
        requires
            Self::reads_back(v),
        ensures
            Self::parse_spec(Self::canonical(v)) == Some((v, Self::canonical(v).len())),
    ;
}

/// What `parse_entirely` makes of `rest`: the value that a parse gives,
/// where it takes all of `rest`.
pub open spec fn entire<T: Parse>(rest: Seq<Component>) -> Result<T::V, ErrorKind> {
    match T::parse_spec(rest) {
        Some((v, n)) => if n == rest.len() {
            Ok(v)
        } else {
            Err(ErrorKind::Invalid)
        },
        None => Err(T::failure()),
    }
}

/// Reads one value that makes up all of the input. Where the value is
/// followed by anything that it could not take, fails with `Invalid`; on
/// every failure the cursor is left where it was, and the error carries the
/// location at which the parse was started.
pub fn parse_entirely<T: Parse>(input: &mut cssparser::Parser) -> (r: Result<T, ParseError>)
    ensures
        match entire::<T>(remaining(old(input))) {
            Ok(v) => {
                &&& r matches Ok(t)
                &&& t@ == v
                &&& advanced(old(input), final(input), remaining(old(input)).len())
            },
            Err(kind) => {
                &&& r matches Err(e)
                &&& e == ParseError { kind, location: location(old(input)) }
                &&& unmoved(old(input), final(input))
            },
        },
{
    let start = save(input);
    let at = current_location(input);
    let value = T::parse(input)?;
    if is_exhausted(input) {
        Ok(value)
    } else {
        restore(input, &start);
        Err(ParseError { kind: ErrorKind::Invalid, location: at })
    }
}

/// The canonical form of `value`, as a string.
pub fn to_css_string<T: ToCss>(value: &T) -> (text: String)
    ensures
        text@ == text_of(T::canonical(value@)),
{
    let mut dest = Printer::new();
    value.to_css(&mut dest);
    dest.into_string()
}

} // verus!
