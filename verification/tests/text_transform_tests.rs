use css_text::cursor::{ErrorKind, ParseError, SourceLocation};
use css_text::text_transform::{TextTransform, TextTransformCase, TextTransformOther};
use css_text::traits::{parse_entirely, to_css_string, Parse};
use cssparser::{Parser, ParserInput};

fn whole<T: Parse>(css: &str) -> Result<T, ParseError> {
    let mut input = ParserInput::new(css);
    let mut parser = Parser::new(&mut input);
    parse_entirely::<T>(&mut parser)
}

fn invalid() -> ParseError {
    ParseError { kind: ErrorKind::Invalid, location: SourceLocation { line: 0, column: 1 } }
}

fn no_match() -> ParseError {
    ParseError { kind: ErrorKind::NoMatch, location: SourceLocation { line: 0, column: 1 } }
}

fn both_flags() -> TextTransformOther {
    TextTransformOther::full_width().union(TextTransformOther::full_size_kana())
}

#[test]
fn case_keywords() {
    assert_eq!(whole::<TextTransformCase>("none"), Ok(TextTransformCase::NoTransform));
    assert_eq!(whole::<TextTransformCase>("UPPERCASE"), Ok(TextTransformCase::Uppercase));
    assert_eq!(whole::<TextTransformCase>("lowercase"), Ok(TextTransformCase::Lowercase));
    assert_eq!(whole::<TextTransformCase>("Capitalize"), Ok(TextTransformCase::Capitalize));
    assert_eq!(whole::<TextTransformCase>("full-width"), Err(no_match()));
    assert_eq!(whole::<TextTransformCase>("12"), Err(no_match()));
    assert_eq!(TextTransformCase::default(), TextTransformCase::NoTransform);
    assert_eq!(to_css_string(&TextTransformCase::Capitalize), "capitalize");
    assert_eq!(to_css_string(&TextTransformCase::NoTransform), "none");
}

#[test]
fn one_flag_is_read_at_a_time() {
    assert_eq!(whole::<TextTransformOther>("full-width"), Ok(TextTransformOther::full_width()));
    assert_eq!(
        whole::<TextTransformOther>("Full-Size-Kana"),
        Ok(TextTransformOther::full_size_kana())
    );
    assert_eq!(whole::<TextTransformOther>("uppercase"), Err(no_match()));
    assert_eq!(whole::<TextTransformOther>("full-width full-size-kana"), Err(invalid()));
}

#[test]
fn flags_are_written_in_declared_order() {
    assert_eq!(to_css_string(&both_flags()), "full-width full-size-kana");
    assert_eq!(to_css_string(&TextTransformOther::full_size_kana()), "full-size-kana");
    assert_eq!(to_css_string(&TextTransformOther::empty()), "");
    assert_eq!(both_flags().bits(), 3);
    assert!(both_flags().contains(TextTransformOther::full_width()));
    assert!(!TextTransformOther::full_width().contains(both_flags()));
    assert!(TextTransformOther::default().is_empty());
    assert!(TextTransformOther { bits: 0b100 }.is_empty());
}

#[test]
fn case_and_flags_in_either_order() {
    let expected = TextTransform { case: TextTransformCase::Capitalize, other: both_flags() };
    assert_eq!(whole::<TextTransform>("capitalize full-width full-size-kana"), Ok(expected));
    assert_eq!(whole::<TextTransform>("full-width full-size-kana capitalize"), Ok(expected));
    assert_eq!(whole::<TextTransform>("full-size-kana capitalize full-width"), Ok(expected));
    assert_eq!(to_css_string(&expected), "capitalize full-width full-size-kana");
}

#[test]
fn none_is_written_only_where_no_flag_is_set() {
    let plain = TextTransform {
        case: TextTransformCase::NoTransform,
        other: TextTransformOther::empty(),
    };
    assert_eq!(to_css_string(&plain), "none");
    assert_eq!(whole::<TextTransform>("none"), Ok(plain));
    let wide = TextTransform {
        case: TextTransformCase::NoTransform,
        other: TextTransformOther::full_width(),
    };
    assert_eq!(to_css_string(&wide), "full-width");
    assert_eq!(whole::<TextTransform>("full-width"), Ok(wide));
}

#[test]
fn none_drops_the_flags_read_before_it() {
    let mut input = ParserInput::new("full-width none full-size-kana");
    let mut parser = Parser::new(&mut input);
    let value = TextTransform::parse(&mut parser).unwrap();
    assert_eq!(value.case, TextTransformCase::NoTransform);
    assert_eq!(value.other, TextTransformOther::empty());
    assert_eq!(parser.expect_ident_cloned().unwrap().as_ref(), "full-size-kana");
    assert_eq!(whole::<TextTransform>("full-width none"), Ok(value));
    assert_eq!(whole::<TextTransform>("none full-width"), Err(invalid()));
}

#[test]
fn case_and_each_flag_are_read_once() {
    assert_eq!(whole::<TextTransform>("uppercase lowercase"), Err(invalid()));
    assert_eq!(whole::<TextTransform>("full-width full-width"), Err(invalid()));
    let mut input = ParserInput::new("full-width full-width");
    let mut parser = Parser::new(&mut input);
    let value = TextTransform::parse(&mut parser).unwrap();
    assert_eq!(value.other, TextTransformOther::full_width());
    assert_eq!(parser.expect_ident_cloned().unwrap().as_ref(), "full-width");
}

#[test]
fn text_transform_of_nothing_is_the_default() {
    let mut input = ParserInput::new("12px");
    let mut parser = Parser::new(&mut input);
    let value = TextTransform::parse(&mut parser).unwrap();
    assert_eq!(value.case, TextTransformCase::NoTransform);
    assert!(value.other.is_empty());
    assert!(parser.expect_ident_cloned().is_err());
}

#[test]
fn bits_that_are_no_flag_are_kept_and_never_read() {
    let odd = TextTransformOther { bits: 0b1000_0000 };
    assert_eq!(odd.union(TextTransformOther::full_width()).bits(), 0b1000_0001);
    assert_eq!(whole::<TextTransform>("full-width uppercase").unwrap().other.bits(), 1);
    assert_eq!(whole::<TextTransform>("full-size-kana full-width").unwrap().other.bits(), 3);
    assert_eq!(whole::<TextTransform>("none").unwrap().other.bits(), 0);
}
