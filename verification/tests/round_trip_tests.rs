use css_text::color::CssColor;
use css_text::cursor::ParseError;
use css_text::decoration_line::TextDecorationLine;
use css_text::length::{Length, LengthPercentage, LengthUnit};
use css_text::spacing::Spacing;
use css_text::text_decoration::{TextDecoration, TextDecorationStyle, TextDecorationThickness};
use css_text::text_indent::TextIndent;
use css_text::text_transform::{TextTransform, TextTransformCase, TextTransformOther};
use css_text::traits::{parse_entirely, to_css_string, Parse, ToCss};
use cssparser::{Parser, ParserInput};

fn read<T: Parse>(css: &str) -> Result<T, ParseError> {
    let mut input = ParserInput::new(css);
    let mut parser = Parser::new(&mut input);
    parse_entirely::<T>(&mut parser)
}

fn reread<T: Parse + ToCss>(css: &str) -> (T, T) {
    let first = read::<T>(css).unwrap();
    let second = read::<T>(&to_css_string(&first)).unwrap();
    (first, second)
}

#[test]
fn every_line_set_that_a_parse_gives_is_read_back() {
    for css in [
        "none",
        "underline",
        "blink underline",
        "line-through OVERLINE",
        "blink line-through overline underline",
        "spelling-error",
        "grammar-error",
        "none blink",
    ] {
        let (first, second) = reread::<TextDecorationLine>(css);
        assert_eq!(first, second);
    }
}

#[test]
fn every_line_set_is_read_back_from_its_canonical_form() {
    for bits in 0u8..16 {
        let line = TextDecorationLine { bits };
        assert_eq!(read::<TextDecorationLine>(&to_css_string(&line)), Ok(line));
    }
    for line in [TextDecorationLine::spelling_error(), TextDecorationLine::grammar_error()] {
        assert_eq!(read::<TextDecorationLine>(&to_css_string(&line)), Ok(line));
    }
}

#[test]
fn every_text_transform_is_read_back_from_its_canonical_form() {
    let cases = [
        TextTransformCase::NoTransform,
        TextTransformCase::Uppercase,
        TextTransformCase::Lowercase,
        TextTransformCase::Capitalize,
    ];
    for case in cases {
        for bits in 0u8..4 {
            let value = TextTransform { case, other: TextTransformOther { bits } };
            assert_eq!(read::<TextTransform>(&to_css_string(&value)), Ok(value));
        }
    }
}

#[test]
fn text_indent_is_read_back() {
    for css in ["1.5em", "hanging -2px", "each-line 50% hanging", "+3pt each-line"] {
        let (first, second) = reread::<TextIndent>(css);
        assert_eq!(first, second);
    }
    let value = TextIndent {
        value: LengthPercentage::Length(Length { value: "0.5".to_string(), unit: LengthUnit::Ch }),
        hanging: false,
        each_line: true,
    };
    assert_eq!(to_css_string(&value), "0.5ch each-line");
    assert_eq!(read::<TextIndent>("0.5ch each-line"), Ok(value));
}

#[test]
fn spacing_is_read_back() {
    for css in ["normal", "0.1em", "2PX"] {
        let (first, second) = reread::<Spacing>(css);
        assert_eq!(first, second);
    }
}

#[test]
fn text_decoration_with_a_line_is_read_back() {
    for css in [
        "underline",
        "dotted overline blink",
        "#abc line-through 2px",
        "from-font blink rgba(1, 2, 3, 0.25) double",
        "spelling-error",
        "currentcolor auto solid grammar-error",
    ] {
        let (first, second) = reread::<TextDecoration>(css);
        assert_eq!(first, second);
    }
}

#[test]
fn text_decoration_without_a_line_is_read_back_as_none() {
    let value = read::<TextDecoration>("2px blue dashed").unwrap();
    assert_eq!(
        value,
        TextDecoration {
            line: TextDecorationLine::empty(),
            thickness: TextDecorationThickness::LengthPercentage(LengthPercentage::Length(
                Length { value: "2".to_string(), unit: LengthUnit::Px }
            )),
            style: TextDecorationStyle::Dashed,
            color: CssColor::Rgba { red: 0, green: 0, blue: 255, alpha: 255 },
        }
    );
    assert_eq!(to_css_string(&value), "none");
    let again = read::<TextDecoration>("none").unwrap();
    assert_eq!(again.style, TextDecorationStyle::Solid);
    assert_eq!(again.thickness, TextDecorationThickness::Auto);
    assert_eq!(again.color, CssColor::CurrentColor);
}
