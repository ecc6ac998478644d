use css_text::color::CssColor;
use css_text::cursor::{ErrorKind, ParseError, SourceLocation};
use css_text::decoration_line::TextDecorationLine;
use css_text::length::{Length, LengthPercentage, LengthUnit};
use css_text::text_decoration::{TextDecoration, TextDecorationStyle, TextDecorationThickness};
use css_text::text_indent::TextIndent;
use css_text::text_transform::{TextTransform, TextTransformCase, TextTransformOther};
use css_text::traits::{parse_entirely, to_css_string, Parse};
use cssparser::{Parser, ParserInput};

fn parse_all<T: Parse>(css: &str) -> Result<T, ParseError> {
    let mut input = ParserInput::new(css);
    let mut parser = Parser::new(&mut input);
    parse_entirely::<T>(&mut parser)
}

fn start() -> SourceLocation {
    SourceLocation { line: 0, column: 1 }
}

#[test]
fn flag_set_without_exclusive_flag() {
    let line = parse_all::<TextDecorationLine>("underline overline").unwrap();
    assert_eq!(line, TextDecorationLine::underline().union(TextDecorationLine::overline()));
    assert_eq!(line.bits(), 0b0000_0011);
    assert_eq!(to_css_string(&line), "underline overline");
}

#[test]
fn exclusive_flag_alone() {
    let line = parse_all::<TextDecorationLine>("spelling-error").unwrap();
    assert_eq!(line, TextDecorationLine::spelling_error());
    assert_eq!(to_css_string(&line), "spelling-error");
}

#[test]
fn exclusive_flag_after_another_flag_is_invalid() {
    assert_eq!(
        parse_all::<TextDecorationLine>("underline spelling-error"),
        Err(ParseError { kind: ErrorKind::Invalid, location: start() })
    );
    assert_eq!(
        parse_all::<TextDecoration>("underline spelling-error"),
        Err(ParseError { kind: ErrorKind::Invalid, location: start() })
    );
}

#[test]
fn composite_in_any_order() {
    let a = parse_all::<TextDecoration>("solid underline").unwrap();
    let b = parse_all::<TextDecoration>("underline solid").unwrap();
    assert_eq!(a, b);
    assert_eq!(
        a,
        TextDecoration {
            line: TextDecorationLine::underline(),
            thickness: TextDecorationThickness::Auto,
            style: TextDecorationStyle::Solid,
            color: CssColor::CurrentColor,
        }
    );
    // The lines come first, then the style; the auto thickness and the
    // current colour are left out.
    assert_eq!(to_css_string(&a), "underline solid");
    assert_eq!(to_css_string(&b), "underline solid");
    let wavy = parse_all::<TextDecoration>("wavy underline").unwrap();
    assert_eq!(wavy, parse_all::<TextDecoration>("underline wavy").unwrap());
    assert_eq!(wavy.style, TextDecorationStyle::Wavy);
    assert_eq!(to_css_string(&wavy), "underline wavy");
}

#[test]
fn empty_composite_is_none() {
    let none = TextDecoration {
        line: TextDecorationLine::empty(),
        thickness: TextDecorationThickness::Auto,
        style: TextDecorationStyle::Solid,
        color: CssColor::CurrentColor,
    };
    assert_eq!(to_css_string(&none), "none");
    assert_eq!(parse_all::<TextDecoration>("none"), Ok(none));
}

#[test]
fn reset_keyword_ends_the_parse_early() {
    let mut input = ParserInput::new("none full-width");
    let mut parser = Parser::new(&mut input);
    let value = TextTransform::parse(&mut parser).unwrap();
    assert_eq!(value.case, TextTransformCase::NoTransform);
    assert!(value.other.is_empty());
    assert!(!value.other.contains(TextTransformOther::full_width()));
    assert_eq!(parser.expect_ident_cloned().unwrap().as_ref(), "full-width");

    let both = parse_all::<TextTransform>("uppercase full-width").unwrap();
    assert_eq!(both.case, TextTransformCase::Uppercase);
    assert_eq!(both.other, TextTransformOther::full_width());
}

#[test]
fn required_slot_missing_is_invalid_at_the_start() {
    assert_eq!(
        parse_all::<TextIndent>("hanging each-line"),
        Err(ParseError { kind: ErrorKind::Invalid, location: SourceLocation { line: 0, column: 1 } })
    );
    let mut input = ParserInput::new("hanging each-line");
    let mut parser = Parser::new(&mut input);
    assert_eq!(
        TextIndent::parse(&mut parser),
        Err(ParseError { kind: ErrorKind::Invalid, location: start() })
    );
    // The cursor is where it was.
    assert_eq!(parser.current_source_location().column, 1);
    assert_eq!(parser.expect_ident_cloned().unwrap().as_ref(), "hanging");
}

#[test]
fn text_indent_with_its_length() {
    let value = parse_all::<TextIndent>("hanging 2em each-line").unwrap();
    assert_eq!(
        value,
        TextIndent {
            value: LengthPercentage::Length(Length { value: "2".to_string(), unit: LengthUnit::Em }),
            hanging: true,
            each_line: true,
        }
    );
    assert_eq!(to_css_string(&value), "2em hanging each-line");
}
