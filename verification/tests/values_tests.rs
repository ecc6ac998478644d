use css_text::align::{TextAlign, TextAlignLast, TextJustify};
use css_text::ascii::{eq_ignore_ascii_case, to_lower};
use css_text::breaking::{Hyphens, LineBreak, OverflowWrap, WhiteSpace, WordBreak};
use css_text::color::CssColor;
use css_text::cursor::{advance, is_exhausted, peek, ErrorKind, ParseError, SourceLocation, Token};
use css_text::keyword::{parse_keyword, try_ident_matching, Keyword};
use css_text::length::{number_text, percentage_text, Length, LengthPercentage, LengthUnit};
use css_text::printer::Printer;
use css_text::spacing::Spacing;
use css_text::text_indent::TextIndent;
use css_text::traits::{parse_entirely, to_css_string, Parse, ToCss};
use cssparser::{Parser, ParserInput};

fn all_of<T: Parse>(css: &str) -> Result<T, ParseError> {
    let mut input = ParserInput::new(css);
    let mut parser = Parser::new(&mut input);
    parse_entirely::<T>(&mut parser)
}

fn miss() -> ParseError {
    ParseError { kind: ErrorKind::NoMatch, location: SourceLocation { line: 0, column: 1 } }
}

fn px(value: &str) -> Length {
    Length { value: value.to_string(), unit: LengthUnit::Px }
}

#[test]
fn ascii_case_is_ignored_and_nothing_else() {
    assert!(eq_ignore_ascii_case("Line-Through", "line-through"));
    assert!(eq_ignore_ascii_case("", ""));
    assert!(!eq_ignore_ascii_case("none", "non"));
    assert!(!eq_ignore_ascii_case("none", "nonf"));
    assert!(!eq_ignore_ascii_case("\u{c9}t\u{e9}", "\u{e9}t\u{e9}"));
    assert!(eq_ignore_ascii_case("\u{e9}T\u{e9}", "\u{e9}t\u{e9}"));
    assert_eq!(to_lower('A'), 'a');
    assert_eq!(to_lower('Z'), 'z');
    assert_eq!(to_lower('a'), 'a');
    assert_eq!(to_lower('@'), '@');
    assert_eq!(to_lower('['), '[');
    assert_eq!(to_lower('-'), '-');
}

#[test]
fn printer_appends() {
    let mut printer = Printer::new();
    assert_eq!(printer.as_str(), "");
    printer.write_str("under");
    printer.write_char('-');
    printer.write_str("line");
    assert_eq!(printer.as_str(), "under-line");
    assert_eq!(printer.into_string(), "under-line");
}

#[test]
fn tokens_are_read_as_lexemes() {
    let mut input = ParserInput::new("UnderLine 1.50PX +3em 25% 7 rgb(1, 2, 3) , x");
    let mut parser = Parser::new(&mut input);
    assert_eq!(peek(&mut parser), Some(Token::Ident("UnderLine".to_string())));
    assert_eq!(peek(&mut parser), Some(Token::Ident("UnderLine".to_string())));
    advance(&mut parser);
    assert_eq!(peek(&mut parser), Some(Token::Dimension("1.5".to_string(), "PX".to_string())));
    advance(&mut parser);
    assert_eq!(peek(&mut parser), Some(Token::Dimension("+3".to_string(), "em".to_string())));
    advance(&mut parser);
    assert_eq!(peek(&mut parser), Some(Token::Percentage("25%".to_string())));
    advance(&mut parser);
    assert_eq!(peek(&mut parser), Some(Token::Number("7".to_string())));
    advance(&mut parser);
    assert_eq!(peek(&mut parser), Some(Token::Other));
    advance(&mut parser);
    // The function and all that is inside it are one component value.
    assert_eq!(peek(&mut parser), Some(Token::Other));
    advance(&mut parser);
    assert!(!is_exhausted(&mut parser));
    assert_eq!(peek(&mut parser), Some(Token::Ident("x".to_string())));
    advance(&mut parser);
    assert_eq!(peek(&mut parser), None);
    assert!(is_exhausted(&mut parser));
}

#[test]
fn ident_is_taken_only_where_it_matches() {
    let mut input = ParserInput::new("Hanging 2px");
    let mut parser = Parser::new(&mut input);
    assert!(!try_ident_matching(&mut parser, "each-line"));
    assert!(try_ident_matching(&mut parser, "hanging"));
    assert!(!try_ident_matching(&mut parser, "hanging"));
    assert_eq!(Length::parse(&mut parser), Ok(px("2")));
    assert!(!try_ident_matching(&mut parser, "hanging"));
}

#[test]
fn lengths_have_a_unit_of_length() {
    assert_eq!(all_of::<Length>("12px"), Ok(px("12")));
    assert_eq!(
        all_of::<Length>("1.5EM"),
        Ok(Length { value: "1.5".to_string(), unit: LengthUnit::Em })
    );
    assert_eq!(
        all_of::<Length>("-0.25vmin"),
        Ok(Length { value: "-0.25".to_string(), unit: LengthUnit::Vmin })
    );
    assert_eq!(all_of::<Length>("2s"), Err(miss()));
    assert_eq!(all_of::<Length>("12"), Err(miss()));
    assert_eq!(all_of::<Length>("50%"), Err(miss()));
    assert_eq!(all_of::<Length>("px"), Err(miss()));
    assert_eq!(all_of::<Length>(""), Err(miss()));
    assert_eq!(to_css_string(&px("12")), "12px");
    assert_eq!(to_css_string(&all_of::<Length>("1.50REM").unwrap()), "1.5rem");
}

#[test]
fn every_unit_is_read_back_from_its_spelling() {
    let units = [
        (LengthUnit::Px, "px"),
        (LengthUnit::In, "in"),
        (LengthUnit::Cm, "cm"),
        (LengthUnit::Mm, "mm"),
        (LengthUnit::Q, "q"),
        (LengthUnit::Pt, "pt"),
        (LengthUnit::Pc, "pc"),
        (LengthUnit::Em, "em"),
        (LengthUnit::Ex, "ex"),
        (LengthUnit::Ch, "ch"),
        (LengthUnit::Rem, "rem"),
        (LengthUnit::Vw, "vw"),
        (LengthUnit::Vh, "vh"),
        (LengthUnit::Vmin, "vmin"),
        (LengthUnit::Vmax, "vmax"),
    ];
    for (unit, name) in units {
        assert_eq!(unit.as_str(), name);
        assert_eq!(LengthUnit::from_ident(name), Some(unit));
        assert_eq!(LengthUnit::from_ident(&name.to_uppercase()), Some(unit));
    }
    assert_eq!(LengthUnit::from_ident("deg"), None);
    assert_eq!(LengthUnit::from_ident(""), None);
}

#[test]
fn length_or_percentage() {
    assert_eq!(all_of::<LengthPercentage>("3px"), Ok(LengthPercentage::Length(px("3"))));
    assert_eq!(
        all_of::<LengthPercentage>("12.5%"),
        Ok(LengthPercentage::Percentage("12.5%".to_string()))
    );
    assert_eq!(all_of::<LengthPercentage>("auto"), Err(miss()));
    assert_eq!(all_of::<LengthPercentage>("3"), Err(miss()));
    assert_eq!(to_css_string(&LengthPercentage::Percentage("12.5%".to_string())), "12.5%");
    assert_eq!(LengthPercentage::from_token(Token::Other), None);
    assert_eq!(
        LengthPercentage::from_token(Token::Dimension("1".to_string(), "PT".to_string())),
        Some(LengthPercentage::Length(Length { value: "1".to_string(), unit: LengthUnit::Pt }))
    );
    assert_eq!(Length::from_token(Token::Percentage("1%".to_string())), None);
}

#[test]
fn colours_are_read_and_written_by_cssparser() {
    let red = CssColor::Rgba { red: 255, green: 0, blue: 0, alpha: 255 };
    assert_eq!(all_of::<CssColor>("red"), Ok(red));
    assert_eq!(all_of::<CssColor>("#f00"), Ok(red));
    assert_eq!(all_of::<CssColor>("rgb(255, 0, 0)"), Ok(red));
    assert_eq!(all_of::<CssColor>("CurrentColor"), Ok(CssColor::CurrentColor));
    assert_eq!(
        all_of::<CssColor>("#00ff0080"),
        Ok(CssColor::Rgba { red: 0, green: 255, blue: 0, alpha: 128 })
    );
    assert_eq!(all_of::<CssColor>("underline"), Err(miss()));
    assert_eq!(all_of::<CssColor>("bogus(1)"), Err(miss()));
    assert_eq!(all_of::<CssColor>("12px"), Err(miss()));
    assert_eq!(to_css_string(&red), "rgb(255, 0, 0)");
    assert_eq!(to_css_string(&CssColor::CurrentColor), "currentcolor");
    assert_eq!(
        to_css_string(&CssColor::Rgba { red: 1, green: 2, blue: 3, alpha: 0 }),
        "rgba(1, 2, 3, 0)"
    );
    assert_eq!(CssColor::current_color(), CssColor::CurrentColor);
}

#[test]
fn colour_that_fails_leaves_the_cursor() {
    let mut input = ParserInput::new("bogus(1) red");
    let mut parser = Parser::new(&mut input);
    assert_eq!(CssColor::parse(&mut parser), Err(miss()));
    assert_eq!(parser.expect_function().unwrap().as_ref(), "bogus");
}

#[test]
fn colour_function_is_one_component() {
    let mut input = ParserInput::new("rgb(0, 0, 255) hanging");
    let mut parser = Parser::new(&mut input);
    assert_eq!(
        CssColor::parse(&mut parser),
        Ok(CssColor::Rgba { red: 0, green: 0, blue: 255, alpha: 255 })
    );
    assert_eq!(parser.expect_ident_cloned().unwrap().as_ref(), "hanging");
}

#[test]
fn spacing_is_normal_or_a_length() {
    assert_eq!(all_of::<Spacing>("normal"), Ok(Spacing::Normal));
    assert_eq!(all_of::<Spacing>("NORMAL"), Ok(Spacing::Normal));
    assert_eq!(all_of::<Spacing>("2px"), Ok(Spacing::Length(px("2"))));
    assert_eq!(all_of::<Spacing>("10%"), Err(miss()));
    assert_eq!(all_of::<Spacing>("auto"), Err(miss()));
    assert_eq!(all_of::<Spacing>("normal 2px"), Err(ParseError {
        kind: ErrorKind::Invalid,
        location: SourceLocation { line: 0, column: 1 },
    }));
    assert_eq!(to_css_string(&Spacing::Normal), "normal");
    assert_eq!(to_css_string(&Spacing::Length(px("2"))), "2px");
}

#[test]
fn text_indent_in_every_order() {
    let expected = TextIndent {
        value: LengthPercentage::Percentage("5%".to_string()),
        hanging: true,
        each_line: true,
    };
    for css in [
        "5% hanging each-line",
        "5% each-line hanging",
        "hanging 5% each-line",
        "hanging each-line 5%",
        "each-line 5% hanging",
        "each-line hanging 5%",
    ] {
        assert_eq!(all_of::<TextIndent>(css), Ok(expected.clone()));
    }
    assert_eq!(to_css_string(&expected), "5% hanging each-line");
}

#[test]
fn text_indent_keywords_are_optional_and_read_once() {
    let plain = TextIndent { value: LengthPercentage::Length(px("4")), hanging: false, each_line: false };
    assert_eq!(all_of::<TextIndent>("4px"), Ok(plain.clone()));
    assert_eq!(to_css_string(&plain), "4px");
    let each = TextIndent { value: LengthPercentage::Length(px("4")), hanging: false, each_line: true };
    assert_eq!(all_of::<TextIndent>("Each-Line 4px"), Ok(each.clone()));
    assert_eq!(to_css_string(&each), "4px each-line");
    let invalid = ParseError {
        kind: ErrorKind::Invalid,
        location: SourceLocation { line: 0, column: 1 },
    };
    assert_eq!(all_of::<TextIndent>("4px 5px"), Err(invalid));
    assert_eq!(all_of::<TextIndent>("4px hanging hanging"), Err(invalid));
    assert_eq!(all_of::<TextIndent>(""), Err(invalid));
    assert_eq!(all_of::<TextIndent>("hanging"), Err(invalid));
}

#[test]
fn text_indent_stops_at_what_it_cannot_take() {
    let mut input = ParserInput::new("hanging 1in solid each-line");
    let mut parser = Parser::new(&mut input);
    let value = TextIndent::parse(&mut parser).unwrap();
    assert!(value.hanging);
    assert!(!value.each_line);
    assert_eq!(parser.expect_ident_cloned().unwrap().as_ref(), "solid");
}

#[test]
fn white_space_keywords() {
    let table = [
        (WhiteSpace::Normal, "normal"),
        (WhiteSpace::Pre, "pre"),
        (WhiteSpace::NoWrap, "nowrap"),
        (WhiteSpace::PreWrap, "pre-wrap"),
        (WhiteSpace::BreakSpaces, "break-spaces"),
        (WhiteSpace::PreLine, "pre-line"),
    ];
    for (value, name) in table {
        assert_eq!(all_of::<WhiteSpace>(name), Ok(value));
        assert_eq!(all_of::<WhiteSpace>(&name.to_uppercase()), Ok(value));
        assert_eq!(to_css_string(&value), name);
    }
    assert_eq!(all_of::<WhiteSpace>("pre-"), Err(miss()));
}

#[test]
fn word_break_keywords() {
    let table = [
        (WordBreak::Normal, "normal"),
        (WordBreak::KeepAll, "keep-all"),
        (WordBreak::BreakAll, "break-all"),
        (WordBreak::BreakWord, "break-word"),
    ];
    for (value, name) in table {
        assert_eq!(all_of::<WordBreak>(name), Ok(value));
        assert_eq!(to_css_string(&value), name);
    }
    assert_eq!(all_of::<WordBreak>("anywhere"), Err(miss()));
}

#[test]
fn line_break_keywords() {
    let table = [
        (LineBreak::Auto, "auto"),
        (LineBreak::Loose, "loose"),
        (LineBreak::Normal, "normal"),
        (LineBreak::Strict, "strict"),
        (LineBreak::Anywhere, "anywhere"),
    ];
    for (value, name) in table {
        assert_eq!(all_of::<LineBreak>(name), Ok(value));
        assert_eq!(to_css_string(&value), name);
    }
    assert_eq!(all_of::<LineBreak>("none"), Err(miss()));
}

#[test]
fn hyphens_keywords() {
    let table = [(Hyphens::NoHyphens, "none"), (Hyphens::Manual, "manual"), (Hyphens::Auto, "auto")];
    for (value, name) in table {
        assert_eq!(all_of::<Hyphens>(name), Ok(value));
        assert_eq!(to_css_string(&value), name);
    }
    assert_eq!(all_of::<Hyphens>("normal"), Err(miss()));
}

#[test]
fn overflow_wrap_keywords() {
    let table = [
        (OverflowWrap::Normal, "normal"),
        (OverflowWrap::BreakWord, "break-word"),
        (OverflowWrap::Anywhere, "anywhere"),
    ];
    for (value, name) in table {
        assert_eq!(all_of::<OverflowWrap>(name), Ok(value));
        assert_eq!(to_css_string(&value), name);
    }
    assert_eq!(all_of::<OverflowWrap>("break-all"), Err(miss()));
}

#[test]
fn text_align_keywords() {
    let table = [
        (TextAlign::Start, "start"),
        (TextAlign::End, "end"),
        (TextAlign::Left, "left"),
        (TextAlign::Right, "right"),
        (TextAlign::Center, "center"),
        (TextAlign::Justify, "justify"),
        (TextAlign::MatchParent, "match-parent"),
        (TextAlign::JustifyAll, "justify-all"),
    ];
    for (value, name) in table {
        assert_eq!(all_of::<TextAlign>(name), Ok(value));
        assert_eq!(to_css_string(&value), name);
    }
    assert_eq!(all_of::<TextAlign>("auto"), Err(miss()));
}

#[test]
fn text_align_last_keywords() {
    let table = [
        (TextAlignLast::Auto, "auto"),
        (TextAlignLast::Start, "start"),
        (TextAlignLast::End, "end"),
        (TextAlignLast::Left, "left"),
        (TextAlignLast::Right, "right"),
        (TextAlignLast::Center, "center"),
        (TextAlignLast::Justify, "justify"),
        (TextAlignLast::MatchParent, "match-parent"),
    ];
    for (value, name) in table {
        assert_eq!(all_of::<TextAlignLast>(name), Ok(value));
        assert_eq!(to_css_string(&value), name);
    }
    assert_eq!(all_of::<TextAlignLast>("justify-all"), Err(miss()));
}

#[test]
fn text_justify_keywords() {
    let table = [
        (TextJustify::Auto, "auto"),
        (TextJustify::NoJustify, "none"),
        (TextJustify::InterWord, "inter-word"),
        (TextJustify::InterCharacter, "inter-character"),
    ];
    for (value, name) in table {
        assert_eq!(all_of::<TextJustify>(name), Ok(value));
        assert_eq!(to_css_string(&value), name);
    }
    assert_eq!(all_of::<TextJustify>("inter"), Err(miss()));
}

#[test]
fn keyword_is_one_component_and_fails_without_moving() {
    let mut input = ParserInput::new("left 2px");
    let mut parser = Parser::new(&mut input);
    assert_eq!(parse_keyword::<TextJustify>(&mut parser), Err(miss()));
    assert_eq!(parse_keyword::<TextAlign>(&mut parser), Ok(TextAlign::Left));
    assert_eq!(
        parse_keyword::<TextAlign>(&mut parser),
        Err(ParseError { kind: ErrorKind::NoMatch, location: SourceLocation { line: 0, column: 5 } })
    );
    assert_eq!(Length::parse(&mut parser), Ok(px("2")));
    assert_eq!(TextAlign::Left.as_str(), "left");
    assert_eq!(TextAlign::from_ident("RIGHT"), Some(TextAlign::Right));
}

#[test]
fn to_css_appends_to_what_is_there() {
    let mut printer = Printer::new();
    printer.write_str("text-align: ");
    TextAlign::Center.to_css(&mut printer);
    assert_eq!(printer.as_str(), "text-align: center");
}

#[test]
fn locations_count_lines_from_zero() {
    let mut input = ParserInput::new("left\n  bogus");
    let mut parser = Parser::new(&mut input);
    assert_eq!(TextAlign::parse(&mut parser), Ok(TextAlign::Left));
    assert!(parser.expect_whitespace().is_ok());
    assert_eq!(
        TextAlign::parse(&mut parser),
        Err(ParseError { kind: ErrorKind::NoMatch, location: SourceLocation { line: 1, column: 3 } })
    );
}

#[test]
fn number_texts() {
    for text in ["0", "12", "-0.25", "+3", "1.5", "1e-7", "3.4e38", ".5"] {
        assert!(number_text(text), "{}", text);
    }
    for text in ["", " 1", "1 ", "inf", "NaN", "1px", "1%", "12a", "1E3"] {
        assert!(!number_text(text), "{}", text);
    }
    assert!(percentage_text("50%"));
    assert!(percentage_text("-1.5%"));
    assert!(!percentage_text("%"));
    assert!(!percentage_text("50"));
    assert!(!percentage_text(""));
    assert!(!percentage_text("5 0%"));
    assert!(!percentage_text("50%%"));
}

#[test]
fn token_with_no_number_text_is_no_length() {
    assert_eq!(Length::from_token(Token::Dimension("inf".to_string(), "px".to_string())), None);
    assert_eq!(Length::from_token(Token::Dimension("".to_string(), "px".to_string())), None);
    assert_eq!(Length::from_token(Token::Dimension("1 2".to_string(), "px".to_string())), None);
    assert_eq!(LengthPercentage::from_token(Token::Percentage("x%".to_string())), None);
    assert_eq!(LengthPercentage::from_token(Token::Percentage("12".to_string())), None);
    assert_eq!(
        LengthPercentage::from_token(Token::Percentage("12%".to_string())),
        Some(LengthPercentage::Percentage("12%".to_string()))
    );
    // A number too large for cssparser to hold is written as no number.
    assert_eq!(all_of::<Length>("1e99px").is_ok(), number_text(&first_number("1e99px")));
}

fn first_number(css: &str) -> String {
    let mut input = ParserInput::new(css);
    let mut parser = Parser::new(&mut input);
    match peek(&mut parser) {
        Some(Token::Dimension(number, _)) => number,
        _ => String::new(),
    }
}

#[test]
fn advance_at_the_end_stays_at_the_end() {
    let mut input = ParserInput::new("left  ");
    let mut parser = Parser::new(&mut input);
    advance(&mut parser);
    assert!(is_exhausted(&mut parser));
    advance(&mut parser);
    advance(&mut parser);
    assert!(is_exhausted(&mut parser));
    assert_eq!(peek(&mut parser), None);
}
