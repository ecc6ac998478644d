use css_text::color::CssColor;
use css_text::cursor::{ErrorKind, ParseError, SourceLocation};
use css_text::decoration_line::TextDecorationLine;
use css_text::length::{Length, LengthPercentage, LengthUnit};
use css_text::text_decoration::{TextDecoration, TextDecorationStyle, TextDecorationThickness};
use css_text::traits::{parse_entirely, to_css_string, Parse};
use cssparser::{Parser, ParserInput};

fn entire<T: Parse>(css: &str) -> Result<T, ParseError> {
    let mut input = ParserInput::new(css);
    let mut parser = Parser::new(&mut input);
    parse_entirely::<T>(&mut parser)
}

fn at_start(kind: ErrorKind) -> ParseError {
    ParseError { kind, location: SourceLocation { line: 0, column: 1 } }
}

fn full() -> TextDecoration {
    TextDecoration {
        line: TextDecorationLine::underline().union(TextDecorationLine::line_through()),
        thickness: TextDecorationThickness::LengthPercentage(LengthPercentage::Length(Length {
            value: "3".to_string(),
            unit: LengthUnit::Px,
        })),
        style: TextDecorationStyle::Wavy,
        color: CssColor::Rgba { red: 255, green: 0, blue: 0, alpha: 255 },
    }
}

#[test]
fn line_keywords_are_matched_without_regard_to_case() {
    let line = entire::<TextDecorationLine>("UnderLine BLINK").unwrap();
    assert_eq!(line, TextDecorationLine::underline().union(TextDecorationLine::blink()));
    assert_eq!(to_css_string(&line), "underline blink");
}

#[test]
fn lines_are_written_in_declared_order() {
    let line = entire::<TextDecorationLine>("blink line-through overline underline").unwrap();
    assert_eq!(line.bits(), 0b0000_1111);
    assert_eq!(to_css_string(&line), "underline overline line-through blink");
}

#[test]
fn line_that_is_set_is_not_taken_again() {
    let mut input = ParserInput::new("underline underline");
    let mut parser = Parser::new(&mut input);
    assert_eq!(TextDecorationLine::parse(&mut parser), Ok(TextDecorationLine::underline()));
    assert_eq!(parser.expect_ident_cloned().unwrap().as_ref(), "underline");
    assert_eq!(entire::<TextDecorationLine>("underline underline"), Err(at_start(ErrorKind::Invalid)));
}

#[test]
fn nothing_is_taken_after_a_line_that_stands_alone() {
    let mut input = ParserInput::new("grammar-error underline");
    let mut parser = Parser::new(&mut input);
    assert_eq!(TextDecorationLine::parse(&mut parser), Ok(TextDecorationLine::grammar_error()));
    assert_eq!(parser.expect_ident_cloned().unwrap().as_ref(), "underline");
    assert_eq!(
        entire::<TextDecorationLine>("spelling-error grammar-error"),
        Err(at_start(ErrorKind::Invalid))
    );
    assert_eq!(entire::<TextDecorationLine>("spelling-error none"), Err(at_start(ErrorKind::Invalid)));
}

#[test]
fn none_sets_no_line() {
    assert_eq!(entire::<TextDecorationLine>("none"), Ok(TextDecorationLine::empty()));
    assert_eq!(entire::<TextDecorationLine>("none underline"), Ok(TextDecorationLine::underline()));
    assert_eq!(entire::<TextDecorationLine>("underline none"), Err(at_start(ErrorKind::Invalid)));
    assert_eq!(to_css_string(&TextDecorationLine::empty()), "none");
}

#[test]
fn lines_need_one_keyword() {
    assert_eq!(entire::<TextDecorationLine>("solid"), Err(at_start(ErrorKind::EmptyNotAllowed)));
    assert_eq!(entire::<TextDecorationLine>(""), Err(at_start(ErrorKind::EmptyNotAllowed)));
    assert_eq!(entire::<TextDecorationLine>("12px"), Err(at_start(ErrorKind::EmptyNotAllowed)));
}

#[test]
fn exclusive_line_is_written_alone_whatever_else_is_set() {
    let mixed = TextDecorationLine::spelling_error().union(TextDecorationLine::underline());
    assert_eq!(to_css_string(&mixed), "spelling-error");
    let both = TextDecorationLine::spelling_error().union(TextDecorationLine::grammar_error());
    assert_eq!(to_css_string(&both), "spelling-error");
    let grammar = TextDecorationLine::grammar_error().union(TextDecorationLine::blink());
    assert_eq!(to_css_string(&grammar), "grammar-error");
}

#[test]
fn unknown_bits_are_not_lines() {
    let odd = TextDecorationLine { bits: 0b1100_0000 };
    assert!(odd.is_empty());
    assert_eq!(to_css_string(&odd), "none");
    assert!(odd.contains(TextDecorationLine::empty()));
    assert!(!odd.contains(TextDecorationLine::underline()));
}

#[test]
fn line_set_operations() {
    let set = TextDecorationLine::underline().union(TextDecorationLine::blink());
    assert!(set.contains(TextDecorationLine::underline()));
    assert!(set.contains(TextDecorationLine::blink()));
    assert!(!set.contains(TextDecorationLine::overline()));
    assert!(!set.is_empty());
    assert!(TextDecorationLine::default().is_empty());
    assert_eq!(TextDecorationLine::line_through().bits(), 4);
    assert_eq!(TextDecorationLine::spelling_error().bits(), 16);
    assert_eq!(TextDecorationLine::grammar_error().bits(), 32);
    assert_eq!(
        TextDecorationLine::underline().accept("OVERLINE"),
        Some(TextDecorationLine::underline().union(TextDecorationLine::overline()))
    );
    assert_eq!(TextDecorationLine::underline().accept("underline"), None);
    assert_eq!(TextDecorationLine::underline().accept("spelling-error"), None);
    assert_eq!(TextDecorationLine::empty().accept("solid"), None);
}

#[test]
fn thickness_keywords_and_lengths() {
    assert_eq!(entire::<TextDecorationThickness>("auto"), Ok(TextDecorationThickness::Auto));
    assert_eq!(entire::<TextDecorationThickness>("From-Font"), Ok(TextDecorationThickness::FromFont));
    let percent = entire::<TextDecorationThickness>("10%").unwrap();
    assert_eq!(
        percent,
        TextDecorationThickness::LengthPercentage(LengthPercentage::Percentage("10%".to_string()))
    );
    assert_eq!(to_css_string(&percent), "10%");
    assert_eq!(to_css_string(&TextDecorationThickness::Auto), "auto");
    assert_eq!(to_css_string(&TextDecorationThickness::FromFont), "from-font");
    assert_eq!(entire::<TextDecorationThickness>("thick"), Err(at_start(ErrorKind::NoMatch)));
    assert_eq!(entire::<TextDecorationThickness>("2s"), Err(at_start(ErrorKind::NoMatch)));
    assert_eq!(TextDecorationThickness::default(), TextDecorationThickness::Auto);
}

#[test]
fn style_keywords() {
    assert_eq!(entire::<TextDecorationStyle>("dotted"), Ok(TextDecorationStyle::Dotted));
    assert_eq!(entire::<TextDecorationStyle>("DASHED"), Ok(TextDecorationStyle::Dashed));
    assert_eq!(entire::<TextDecorationStyle>("double"), Ok(TextDecorationStyle::Double));
    assert_eq!(to_css_string(&TextDecorationStyle::Wavy), "wavy");
    assert_eq!(TextDecorationStyle::default(), TextDecorationStyle::Solid);
    assert_eq!(entire::<TextDecorationStyle>("underline"), Err(at_start(ErrorKind::NoMatch)));
}

#[test]
fn all_four_parts() {
    let value = entire::<TextDecoration>("red wavy 3px line-through underline").unwrap();
    assert_eq!(value, full());
    assert_eq!(to_css_string(&value), "underline line-through 3px wavy rgb(255, 0, 0)");
}

#[test]
fn all_orders_of_the_four_parts_are_read_alike() {
    let parts = ["underline line-through", "3px", "wavy", "rgb(255, 0, 0)"];
    let mut orders = 0;
    for a in 0..4 {
        for b in 0..4 {
            for c in 0..4 {
                for d in 0..4 {
                    if a == b || a == c || a == d || b == c || b == d || c == d {
                        continue;
                    }
                    let css = format!("{} {} {} {}", parts[a], parts[b], parts[c], parts[d]);
                    assert_eq!(entire::<TextDecoration>(&css), Ok(full()));
                    orders += 1;
                }
            }
        }
    }
    assert_eq!(orders, 24);
}

#[test]
fn canonical_form_is_read_back() {
    let css = to_css_string(&full());
    assert_eq!(entire::<TextDecoration>(&css), Ok(full()));
    let translucent = TextDecoration {
        line: TextDecorationLine::overline(),
        thickness: TextDecorationThickness::FromFont,
        style: TextDecorationStyle::Dotted,
        color: CssColor::Rgba { red: 0, green: 128, blue: 0, alpha: 128 },
    };
    let css = to_css_string(&translucent);
    assert_eq!(css, "overline from-font dotted rgba(0, 128, 0, 0.5)");
    assert_eq!(entire::<TextDecoration>(&css), Ok(translucent));
}

#[test]
fn line_that_stands_alone_is_all_that_is_written() {
    let wavy = TextDecoration {
        line: TextDecorationLine::spelling_error(),
        thickness: TextDecorationThickness::Auto,
        style: TextDecorationStyle::Wavy,
        color: CssColor::CurrentColor,
    };
    assert_eq!(to_css_string(&wavy), "spelling-error");
    let full = TextDecoration {
        line: TextDecorationLine::grammar_error(),
        thickness: TextDecorationThickness::FromFont,
        style: TextDecorationStyle::Dotted,
        color: CssColor::Rgba { red: 0, green: 128, blue: 0, alpha: 128 },
    };
    assert_eq!(to_css_string(&full), "grammar-error");
    let mixed = TextDecoration {
        line: TextDecorationLine::spelling_error().union(TextDecorationLine::underline()),
        thickness: TextDecorationThickness::Auto,
        style: TextDecorationStyle::Double,
        color: CssColor::CurrentColor,
    };
    assert_eq!(to_css_string(&mixed), "spelling-error");
    // The parts are still read where they are given.
    assert_eq!(entire::<TextDecoration>("wavy spelling-error"), Ok(wavy.clone()));
    let plain = TextDecoration {
        line: TextDecorationLine::spelling_error(),
        thickness: TextDecorationThickness::Auto,
        style: TextDecorationStyle::Solid,
        color: CssColor::CurrentColor,
    };
    assert_eq!(entire::<TextDecoration>(&to_css_string(&wavy)), Ok(plain.clone()));
    assert_eq!(entire::<TextDecoration>(&to_css_string(&plain)), Ok(plain.clone()));
}

#[test]
fn bits_that_are_no_line_are_kept_and_never_read() {
    let odd = TextDecorationLine { bits: 0b0100_0000 };
    assert_eq!(odd.union(TextDecorationLine::underline()).bits(), 0b0100_0001);
    assert_eq!(TextDecorationLine::underline().union(odd).bits(), 0b0100_0001);
    assert_eq!(odd.accept("blink"), Some(TextDecorationLine { bits: 0b0100_1000 }));
    for css in ["underline", "none", "solid underline", "underline solid", "wavy from-font line-through"] {
        let value = entire::<TextDecoration>(css).unwrap();
        assert_eq!(value.line.bits() & 0b1100_0000, 0);
    }
    assert_eq!(entire::<TextDecoration>("none").unwrap().line.bits(), 0);
    assert_eq!(entire::<TextDecoration>("solid underline").unwrap().line.bits(), 1);
    assert_eq!(entire::<TextDecoration>("wavy from-font line-through").unwrap().line.bits(), 4);
}

#[test]
fn filled_slot_is_not_offered_input_again() {
    let mut input = ParserInput::new("solid dotted");
    let mut parser = Parser::new(&mut input);
    let value = TextDecoration::parse(&mut parser).unwrap();
    assert_eq!(value.line.bits(), 0);
    assert_eq!(value.style, TextDecorationStyle::Solid);
    assert_eq!(parser.expect_ident_cloned().unwrap().as_ref(), "dotted");

    let mut input = ParserInput::new("underline solid overline");
    let mut parser = Parser::new(&mut input);
    let value = TextDecoration::parse(&mut parser).unwrap();
    assert_eq!(value.line, TextDecorationLine::underline());
    assert_eq!(parser.expect_ident_cloned().unwrap().as_ref(), "overline");
}

#[test]
fn default_thickness_and_colour_are_left_out_and_the_style_is_written() {
    let value = TextDecoration {
        line: TextDecorationLine::overline(),
        thickness: TextDecorationThickness::Auto,
        style: TextDecorationStyle::Solid,
        color: CssColor::current_color(),
    };
    assert_eq!(to_css_string(&value), "overline solid");
    assert_eq!(entire::<TextDecoration>("overline solid"), Ok(value.clone()));
    assert_eq!(entire::<TextDecoration>("overline"), Ok(value.clone()));
    assert_eq!(entire::<TextDecoration>("overline auto solid currentcolor"), Ok(value));
    let thick = TextDecoration {
        line: TextDecorationLine::blink(),
        thickness: TextDecorationThickness::FromFont,
        style: TextDecorationStyle::Solid,
        color: CssColor::Rgba { red: 0, green: 0, blue: 0, alpha: 255 },
    };
    assert_eq!(to_css_string(&thick), "blink from-font solid rgb(0, 0, 0)");
}

#[test]
fn defaults_that_are_spelled_out_are_read_in_every_order() {
    let value = TextDecoration {
        line: TextDecorationLine::underline(),
        thickness: TextDecorationThickness::Auto,
        style: TextDecorationStyle::Solid,
        color: CssColor::CurrentColor,
    };
    let parts = ["underline", "auto", "solid", "currentcolor"];
    for a in 0..4 {
        for b in 0..4 {
            for c in 0..4 {
                for d in 0..4 {
                    if a == b || a == c || a == d || b == c || b == d || c == d {
                        continue;
                    }
                    let css = format!("{} {} {} {}", parts[a], parts[b], parts[c], parts[d]);
                    assert_eq!(entire::<TextDecoration>(&css), Ok(value.clone()));
                }
            }
        }
    }
    assert_eq!(entire::<TextDecoration>("currentcolor underline"), Ok(value.clone()));
    assert_eq!(entire::<TextDecoration>("AUTO underline"), Ok(value));
}

#[test]
fn without_a_line_only_none_is_written() {
    let value = entire::<TextDecoration>("wavy").unwrap();
    assert!(value.line.is_empty());
    assert_eq!(value.style, TextDecorationStyle::Wavy);
    assert_eq!(to_css_string(&value), "none");
}

#[test]
fn each_part_is_read_once() {
    assert_eq!(entire::<TextDecoration>("underline wavy dotted"), Err(at_start(ErrorKind::Invalid)));
    assert_eq!(entire::<TextDecoration>("underline 2px 3px"), Err(at_start(ErrorKind::Invalid)));
    assert_eq!(entire::<TextDecoration>("underline red blue"), Err(at_start(ErrorKind::Invalid)));
    assert_eq!(entire::<TextDecoration>("underline wavy overline"), Err(at_start(ErrorKind::Invalid)));
    assert_eq!(entire::<TextDecoration>("underline bogus"), Err(at_start(ErrorKind::Invalid)));
}

#[test]
fn text_decoration_parse_never_fails_and_takes_what_it_can() {
    let mut input = ParserInput::new("bogus underline");
    let mut parser = Parser::new(&mut input);
    let value = TextDecoration::parse(&mut parser).unwrap();
    assert!(value.line.is_empty());
    assert_eq!(parser.expect_ident_cloned().unwrap().as_ref(), "bogus");
}

#[test]
fn white_space_and_comments_between_parts() {
    let value = entire::<TextDecoration>("  underline /* lines */\n  dashed\t").unwrap();
    assert_eq!(value.line, TextDecorationLine::underline());
    assert_eq!(value.style, TextDecorationStyle::Dashed);
}

#[test]
fn failure_reports_where_the_parse_started() {
    let mut input = ParserInput::new("underline ; solid");
    let mut parser = Parser::new(&mut input);
    assert_eq!(TextDecorationLine::parse(&mut parser), Ok(TextDecorationLine::underline()));
    assert!(parser.expect_semicolon().is_ok());
    // One space after the semicolon is not yet skipped: column 12.
    assert_eq!(
        TextDecorationLine::parse(&mut parser),
        Err(ParseError {
            kind: ErrorKind::EmptyNotAllowed,
            location: SourceLocation { line: 0, column: 12 },
        })
    );
    assert_eq!(parser.current_source_location().column, 12);
    assert_eq!(parser.expect_ident_cloned().unwrap().as_ref(), "solid");
}
