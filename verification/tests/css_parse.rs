use htmlarc_dom::css::error::{
    AttributeOperatorError, AttributePatternError, AttributeSelectorError, AttributeValueError, CaseIndicatorError,
    CharList, ClassSelectorError, ComplexRelativeSelectorError, ComplexSelectorError, CompoundSelectorError,
    ErrorKind, IdSelectorError, IntegerPatternError, OrdinalPatternError, ParenthesizedError, ParseError,
    PseudoClassSelectorError, QuotedStringError, RelativeSelectorError, RelativeSelectorListError, SelectorListError,
    TagSelectorError, TextPatternError,
};
use htmlarc_dom::css::patterns::attribute_operator::AttributeOperator;
use htmlarc_dom::css::patterns::attribute_pattern::{AttributeName, AttributePattern};
use htmlarc_dom::css::patterns::attribute_value::AttributeValue;
use htmlarc_dom::css::patterns::case_indicator::CaseIndicator;
use htmlarc_dom::css::patterns::combinator::Combinator;
use htmlarc_dom::css::patterns::ordinal_pattern::OrdinalPattern;
use htmlarc_dom::css::patterns::quoted_string::QuotedString;
use htmlarc_dom::css::selectors::attribute::AttributeSelector;
use htmlarc_dom::css::selectors::class::ClassSelector;
use htmlarc_dom::css::selectors::complex::{ComplexRelativeSelector, ComplexSelector};
use htmlarc_dom::css::selectors::compound::{CompoundSelector, RelativeSelector};
use htmlarc_dom::css::selectors::id::IdSelector;
use htmlarc_dom::css::selectors::list::{RelativeSelectorList, SelectorList};
use htmlarc_dom::css::selectors::pseudo_class::PseudoClassSelector;
use htmlarc_dom::css::selectors::tag::{ExtTagSelector, TagSelector};
use htmlarc_dom::css::parse::OwnedSelectorList;
use htmlarc_dom::css::parse_css;
use htmlarc_dom::css::patterns::integer_pattern::IntegerPattern;
use htmlarc_dom::css::CssChars;
use htmlarc_dom::css::patterns::text_pattern::{CssChar, TextPattern};
use htmlarc_dom::html::{HtmlAttr, HtmlTag};

/// A selector part that can be read from a cursor and written out again.
trait Pattern: Sized {
    fn read(chars: &mut CssChars) -> Result<Option<Self>, ParseError>;
    fn write(&self, out: &mut Vec<char>);
}

fn text_of<P: Pattern>(o: &Option<P>) -> String {
    match o {
        Some(v) => {
            let mut out = Vec::new();
            v.write(&mut out);
            out.into_iter().collect()
        }
        None => "None".to_string(),
    }
}

fn test_ok<P: Pattern>(string: &str, expected: Option<P>) {
    let mut chars = CssChars::new(string);
    let result = match P::read(&mut chars) {
        Ok(result) => result,
        Err(err) => panic!("{}", err.to_string()),
    };
    assert_eq!(text_of(&result), text_of(&expected));
}

fn test_err_of<P: Pattern>(string: &str, expected: ParseError) {
    let mut chars = CssChars::new(string);
    match P::read(&mut chars) {
        Ok(result) => panic!("{}", text_of(&result)),
        Err(e) => assert_eq!(e.to_string(), expected.to_string()),
    }
}

impl Pattern for AttributeOperator {
    fn read(chars: &mut CssChars) -> Result<Option<Self>, ParseError> {
        AttributeOperator::from_chars(chars)
    }
    fn write(&self, out: &mut Vec<char>) {
        self.push_text(out)
    }
}

impl Pattern for AttributePattern {
    fn read(chars: &mut CssChars) -> Result<Option<Self>, ParseError> {
        AttributePattern::from_chars(chars)
    }
    fn write(&self, out: &mut Vec<char>) {
        self.push_text(out)
    }
}

impl Pattern for AttributeValue {
    fn read(chars: &mut CssChars) -> Result<Option<Self>, ParseError> {
        AttributeValue::from_chars(chars)
    }
    fn write(&self, out: &mut Vec<char>) {
        self.push_text(out)
    }
}

impl Pattern for CaseIndicator {
    fn read(chars: &mut CssChars) -> Result<Option<Self>, ParseError> {
        CaseIndicator::from_chars(chars)
    }
    fn write(&self, out: &mut Vec<char>) {
        self.push_text(out)
    }
}

impl Pattern for OrdinalPattern {
    fn read(chars: &mut CssChars) -> Result<Option<Self>, ParseError> {
        OrdinalPattern::from_chars(chars)
    }
    fn write(&self, out: &mut Vec<char>) {
        self.push_text(out)
    }
}

impl Pattern for QuotedString {
    fn read(chars: &mut CssChars) -> Result<Option<Self>, ParseError> {
        QuotedString::from_chars(chars)
    }
    fn write(&self, out: &mut Vec<char>) {
        self.push_text(out)
    }
}

impl Pattern for AttributeSelector {
    fn read(chars: &mut CssChars) -> Result<Option<Self>, ParseError> {
        AttributeSelector::from_chars(chars)
    }
    fn write(&self, out: &mut Vec<char>) {
        self.push_text(out)
    }
}

impl Pattern for ClassSelector {
    fn read(chars: &mut CssChars) -> Result<Option<Self>, ParseError> {
        ClassSelector::from_chars(chars)
    }
    fn write(&self, out: &mut Vec<char>) {
        self.push_text(out)
    }
}

impl Pattern for ComplexSelector {
    fn read(chars: &mut CssChars) -> Result<Option<Self>, ParseError> {
        ComplexSelector::from_chars(chars)
    }
    fn write(&self, out: &mut Vec<char>) {
        self.push_text(out)
    }
}

impl Pattern for ComplexRelativeSelector {
    fn read(chars: &mut CssChars) -> Result<Option<Self>, ParseError> {
        ComplexRelativeSelector::from_chars(chars)
    }
    fn write(&self, out: &mut Vec<char>) {
        self.push_text(out)
    }
}

impl Pattern for CompoundSelector {
    fn read(chars: &mut CssChars) -> Result<Option<Self>, ParseError> {
        CompoundSelector::from_chars(chars)
    }
    fn write(&self, out: &mut Vec<char>) {
        self.push_text(out)
    }
}

impl Pattern for IdSelector {
    fn read(chars: &mut CssChars) -> Result<Option<Self>, ParseError> {
        IdSelector::from_chars(chars)
    }
    fn write(&self, out: &mut Vec<char>) {
        self.push_text(out)
    }
}

impl Pattern for SelectorList {
    fn read(chars: &mut CssChars) -> Result<Option<Self>, ParseError> {
        SelectorList::from_chars(chars)
    }
    fn write(&self, out: &mut Vec<char>) {
        self.push_text(out)
    }
}

impl Pattern for RelativeSelectorList {
    fn read(chars: &mut CssChars) -> Result<Option<Self>, ParseError> {
        RelativeSelectorList::from_chars(chars)
    }
    fn write(&self, out: &mut Vec<char>) {
        self.push_text(out)
    }
}

impl Pattern for PseudoClassSelector {
    fn read(chars: &mut CssChars) -> Result<Option<Self>, ParseError> {
        PseudoClassSelector::from_chars(chars)
    }
    fn write(&self, out: &mut Vec<char>) {
        self.push_text(out)
    }
}

impl Pattern for RelativeSelector {
    fn read(chars: &mut CssChars) -> Result<Option<Self>, ParseError> {
        RelativeSelector::from_chars(chars)
    }
    fn write(&self, out: &mut Vec<char>) {
        self.push_text(out)
    }
}

impl Pattern for TagSelector {
    fn read(chars: &mut CssChars) -> Result<Option<Self>, ParseError> {
        TagSelector::from_chars(chars)
    }
    fn write(&self, out: &mut Vec<char>) {
        self.push_text(out)
    }
}

impl Pattern for Combinator {
    fn read(chars: &mut CssChars) -> Result<Option<Self>, ParseError> {
        Ok(Combinator::from_chars(chars))
    }
    fn write(&self, out: &mut Vec<char>) {
        self.push_text(out)
    }
}

#[test]
fn test_css_chars() {
    let mut chars = CssChars::new("abc");

    assert_eq!(chars.current(), Some((0, 'a')));
    assert_eq!(chars.next(), Some((1, 'b')));
    assert_eq!(chars.current(), Some((1, 'b')));
    assert_eq!(chars.next(), Some((2, 'c')));

    let chars = CssChars::new("");

    assert_eq!(chars.current(), None);
}

#[test]
fn test_parse_integer_pattern() {
    fn test_ok(string: &str, expected: Option<usize>) {
        let mut chars = CssChars::new(string);
        let result = IntegerPattern::from_chars(&mut chars).unwrap();

        assert_eq!(result, expected);
    }

    test_ok("", None);
    test_ok("n", None);
    test_ok("123", Some(123));
    test_ok("456abc", Some(456));

    fn test_err(string: &str, expected: ParseError) {
        let mut chars = CssChars::new(string);
        let result = IntegerPattern::from_chars(&mut chars).unwrap_err();

        assert_eq!(result.to_string(), expected.to_string());
    }

    test_err(
        "18446744073709551616",
        IntegerPatternError::ParseFail(0, "number too large to fit in target type".to_string()).into_parse_error(),
    );
}

#[test]
fn test_parse_attribute_operator() {

    test_ok("=", Some(AttributeOperator::Exact));
    test_ok("^=", Some(AttributeOperator::Starts));
    test_ok("*=", Some(AttributeOperator::Includes));
    test_ok("$=", Some(AttributeOperator::Ends));
    test_ok("~=", Some(AttributeOperator::List));
    test_ok("|=", Some(AttributeOperator::DashMatch));
    test_ok("", None::<AttributeOperator>);

    fn test_err(string: &str, expected: ParseError) {
        test_err_of::<AttributeOperator>(string, expected);
    }

    test_err("^", AttributeOperatorError::MissingEqualSign(1).into_parse_error());
    test_err("*a", AttributeOperatorError::MissingEqualSign(1).into_parse_error());
}
#[test]
fn test_parse_attribute_pattern() {

    test_ok("", None::<AttributePattern>);
    test_ok("]", None::<AttributePattern>);
    test_ok(
        "text",
        Some(AttributePattern {
            name: AttributeName::Text,
            value: None,
        }),
    );
    test_ok(
        "src",
        Some(AttributePattern {
            name: AttributeName::Std(HtmlAttr::src),
            value: None,
        }),
    );
    test_ok(
        "data-name",
        Some(AttributePattern {
            name: AttributeName::Ext("data-name".to_string()),
            value: None,
        }),
    );
    test_ok(
        "data-name=\"custom\"",
        Some(AttributePattern {
            name: AttributeName::Ext("data-name".to_string()),
            value: Some(AttributeValue {
                operator: AttributeOperator::Exact,
                value: QuotedString("custom".into()),
                case: None,
            }),
        }),
    );
    test_ok(
        "href^=\"https://\" s",
        Some(AttributePattern {
            name: AttributeName::Std(HtmlAttr::href),
            value: Some(AttributeValue {
                operator: AttributeOperator::Starts,
                value: QuotedString("https://".into()),
                case: Some(CaseIndicator::Sensitive),
            }),
        }),
    );
    test_ok(
        "src='image'",
        Some(AttributePattern {
            name: AttributeName::Std(HtmlAttr::src),
            value: Some(AttributeValue {
                operator: AttributeOperator::Exact,
                value: QuotedString("image".into()),
                case: None,
            }),
        }),
    );

    fn test_err(string: &str, expected: ParseError) {
        test_err_of::<AttributePattern>(string, expected);
    }

    test_err(":", ParseError::Context(ErrorKind::AttributePattern(AttributePatternError::ParseName(0)), Box::new(TextPatternError::StartsWith(0, ':').into_parse_error())));


    test_err("src=", ParseError::Context(ErrorKind::AttributePattern(AttributePatternError::ParseValue(3)), Box::new(AttributeValueError::MissingValue(3).into_parse_error())));
}
#[test]
fn test_parse_attribute_value() {

    test_ok(
        "=\"href\" i",
        Some(AttributeValue {
            operator: AttributeOperator::Exact,
            value: QuotedString("href".into()),
            case: Some(CaseIndicator::Insensitive),
        }),
    );
    test_ok(
        "*=\"url\"",
        Some(AttributeValue {
            operator: AttributeOperator::Includes,
            value: QuotedString("url".into()),
            case: None,
        }),
    );

    fn test_err(string: &str, expected: ParseError) {
        test_err_of::<AttributeValue>(string, expected);
    }


    test_err("=", AttributeValueError::MissingValue(0).into_parse_error());
    test_err("+", ParseError::Context(ErrorKind::AttributeValue(AttributeValueError::InvalidOperator(0)), Box::new(ParseError::Parsing(ErrorKind::AttributeOperator(AttributeOperatorError::InvalidAttributeOperator(0))))));
    test_err("=\"some", ParseError::Context(ErrorKind::AttributeValue(AttributeValueError::InvalidValue(1)), Box::new(ParseError::Parsing(ErrorKind::QuotedString(QuotedStringError::Unterminated(5))))));
    test_err("=\"text\" x", ParseError::Context(ErrorKind::AttributeValue(AttributeValueError::InvalidCase(7)), Box::new(ParseError::Parsing(ErrorKind::CaseIndicator(CaseIndicatorError::InvalidCaseIndicator(8))))));
}
#[test]
fn test_parse_case_indicator() {

    test_ok(" i", Some(CaseIndicator::Insensitive));
    test_ok(" s", Some(CaseIndicator::Sensitive));
    test_ok("]", None::<CaseIndicator>);
    test_ok("", None::<CaseIndicator>);

    fn test_err(string: &str, expected: ParseError) {
        test_err_of::<CaseIndicator>(string, expected);
    }

    test_err(" x", CaseIndicatorError::InvalidCaseIndicator(1).into_parse_error());
    test_err(" ", CaseIndicatorError::MissingCaseIndicator(0).into_parse_error());
}
#[test]
fn test_parse_combinator() {

    test_ok("", None::<Combinator>);
    test_ok(" ", None::<Combinator>);
    test_ok("div", None::<Combinator>);
    test_ok("    a", Some(Combinator::Descendant));
    test_ok("   >", Some(Combinator::Child));
    test_ok("   ~", Some(Combinator::SubsequentSibling));
    test_ok("+", Some(Combinator::NextSibling));
}
#[test]
fn test_parse_ordinal_pattern() {

    test_ok("", None::<OrdinalPattern>);
    test_ok(
        "n",
        Some(OrdinalPattern::Formula {
            backward: false,
            a: 1,
            b: None,
        }),
    );
    test_ok("even", Some(OrdinalPattern::Even));
    test_ok("Odd", Some(OrdinalPattern::Odd));
    test_ok("2", Some(OrdinalPattern::N(2)));
    test_ok(
        "2n",
        Some(OrdinalPattern::Formula {
            backward: false,
            a: 2,
            b: None,
        }),
    );
    test_ok(
        "2n+4",
        Some(OrdinalPattern::Formula {
            backward: false,
            a: 2,
            b: Some(4),
        }),
    );
    test_ok(
        "-n+2",
        Some(OrdinalPattern::Formula {
            backward: true,
            a: 1,
            b: Some(2),
        }),
    );
    test_ok(
        "-3n+5",
        Some(OrdinalPattern::Formula {
            backward: true,
            a: 3,
            b: Some(5),
        }),
    );

    fn test_err(string: &str, expected: ParseError) {
        test_err_of::<OrdinalPattern>(string, expected);
    }

    test_err("n+", OrdinalPatternError::MissingOffset(1).into_parse_error());
    test_err("18446744073709551616n", ParseError::Context(ErrorKind::OrdinalPattern(OrdinalPatternError::InvalidStep(0)), Box::new(IntegerPatternError::ParseFail(
                0,
                "number too large to fit in target type".to_string(),
            ).into_parse_error())));
    test_err("+", OrdinalPatternError::Invalid(0).into_parse_error());
    test_err("2+", OrdinalPatternError::Invalid(1).into_parse_error());
    test_err("-3", OrdinalPatternError::Invalid(1).into_parse_error());
    test_err("-4n", OrdinalPatternError::Invalid(2).into_parse_error());
    test_err("2n-", OrdinalPatternError::MissingPlus(2).into_parse_error());
    test_err("2n+", OrdinalPatternError::MissingOffset(2).into_parse_error());
    test_err("2n+18446744073709551616", ParseError::Context(ErrorKind::OrdinalPattern(OrdinalPatternError::InvalidOffset(3)), Box::new(IntegerPatternError::ParseFail(
                3,
                "number too large to fit in target type".to_string(),
            ).into_parse_error())));
}
#[test]
fn test_ordinal_matching() {
    assert!(OrdinalPattern::Even.matches(0));
    assert!(!OrdinalPattern::Even.matches(1));
    assert!(OrdinalPattern::Even.matches(2));
    assert!(OrdinalPattern::Odd.matches(1));
    assert!(!OrdinalPattern::Odd.matches(2));
    assert!(OrdinalPattern::N(2).matches(2));
    assert!(!OrdinalPattern::N(2).matches(3));
    assert!(
        OrdinalPattern::Formula {
            backward: false,
            a: 2,
            b: None
        }
        .matches(2)
    );
    assert!(
        !OrdinalPattern::Formula {
            backward: false,
            a: 2,
            b: None
        }
        .matches(3)
    );
    assert!(
        OrdinalPattern::Formula {
            backward: false,
            a: 2,
            b: Some(4)
        }
        .matches(6)
    );
}
#[test]
fn test_parse_quoted_string() {

    test_ok("", None::<QuotedString>);
    test_ok("''", Some(QuotedString("".into())));
    test_ok("\"abc\"", Some(QuotedString("abc".into())));
    test_ok("'abc'", Some(QuotedString("abc".into())));
    test_ok("]", None::<QuotedString>);
    test_ok("\"\"", Some(QuotedString("".into())));
    test_ok("'hi'", Some(QuotedString("hi".into())));

    fn test_err(string: &str, expected: ParseError) {
        test_err_of::<QuotedString>(string, expected);
    }

    test_err("\"", QuotedStringError::Unterminated(0).into_parse_error());
    test_err("\"abc", QuotedStringError::Unterminated(3).into_parse_error());
}
#[test]
fn test_parse_attribute_selector() {

    test_ok("", None::<AttributeSelector>);
    test_ok(
        "[href]",
        Some(AttributeSelector::new(AttributePattern {
            name: AttributeName::Std(HtmlAttr::href),
            value: None,
        })),
    );
    test_ok(
        "[src*=\".png\"]",
        Some(AttributeSelector::new(AttributePattern {
            name: AttributeName::Std(HtmlAttr::src),
            value: Some(AttributeValue {
                operator: AttributeOperator::Includes,
                value: QuotedString(".png".into()),
                case: None,
            }),
        })),
    );
    test_ok(
        "[action=\"POST\" s]",
        Some(AttributeSelector::new(AttributePattern {
            name: AttributeName::Std(HtmlAttr::action),
            value: Some(AttributeValue {
                operator: AttributeOperator::Exact,
                value: QuotedString("POST".into()),
                case: Some(CaseIndicator::Sensitive),
            }),
        })),
    );
    test_ok(
        "[data-name]",
        Some(AttributeSelector::new(AttributePattern {
            name: AttributeName::Ext("data-name".to_string()),
            value: None,
        })),
    );
    // An unknown name is no longer a parse error: it is a valid extended-name selector
    // (ADR 0002 §3). `[srt]` and `[data-]` parse to `Ext` patterns.
    test_ok(
        "[srt]",
        Some(AttributeSelector::new(AttributePattern {
            name: AttributeName::Ext("srt".to_string()),
            value: None,
        })),
    );
    test_ok(
        "[data-]",
        Some(AttributeSelector::new(AttributePattern {
            name: AttributeName::Ext("data-".to_string()),
            value: None,
        })),
    );

    fn test_err(string: &str, expected: ParseError) {
        test_err_of::<AttributeSelector>(string, expected);
    }

    test_err("[]", AttributeSelectorError::EmptyBrackets(0).into_parse_error());
    // Missing the closing bracket is still an error (the name parses, the bracket doesn't).
    test_err("[srt", ParenthesizedError::MissingEndDelimiter(4, ']').into_parse_error().context(ErrorKind::AttributeSelector(AttributeSelectorError::ParseFail(0))));
    test_err("[src", ParenthesizedError::MissingEndDelimiter(4, ']').into_parse_error().context(ErrorKind::AttributeSelector(AttributeSelectorError::ParseFail(0))))
}
#[test]
fn test_parse_class_selector() {

    test_ok("", None::<ClassSelector>);
    test_ok("#", None::<ClassSelector>);
    test_ok(".-hyphen", Some(ClassSelector::new("-hyphen")));
    test_ok("._underscore", Some(ClassSelector::new("_underscore")));
    test_ok(".withdigit1", Some(ClassSelector::new("withdigit1")));
    test_ok(
        ".hyphen-_underscore",
        Some(ClassSelector::new("hyphen-_underscore")),
    );
    test_ok(".stop[", Some(ClassSelector::new("stop")));

    fn test_err(string: &str, expected: ParseError) {
        test_err_of::<ClassSelector>(string, expected);
    }

    test_err(".", ClassSelectorError::MissingClass(0).into_parse_error());
    test_err(".3", TextPatternError::StartsWith(1, '3').into_parse_error().context(ErrorKind::ClassSelector(ClassSelectorError::ParseFail(0))));
    test_err(".4Class", TextPatternError::StartsWith(1, '4').into_parse_error().context(ErrorKind::ClassSelector(ClassSelectorError::ParseFail(0))));
    test_err(".--", TextPatternError::Exclusively(1, CharList::from_chars(vec!['-', '_'])).into_parse_error().context(ErrorKind::ClassSelector(ClassSelectorError::ParseFail(0))));
}
#[test]
fn test_parse_complex_selector() {

    test_ok("", None::<ComplexSelector>);
    test_ok(
        "div    ",
        Some(ComplexSelector {
            first: CompoundSelector {
                element: Some(HtmlTag::div),
                ..Default::default()
            },
            selectors: Vec::new(),
        }),
    );
    test_ok(
        "a#selected > .icon",
        Some(ComplexSelector {
            first: CompoundSelector {
                element: Some(HtmlTag::a),
                id: Some(IdSelector::new("selected")),
                ..Default::default()
            },
            selectors: vec![RelativeSelector {
                combinator: Combinator::Child,
                selector: CompoundSelector {
                    classes: vec![ClassSelector::new("icon")],
                    ..Default::default()
                },
            }],
        }),
    );
    test_ok(
        ".box h2 + p",
        Some(ComplexSelector {
            first: CompoundSelector {
                classes: vec![ClassSelector::new("box")],
                ..Default::default()
            },
            selectors: vec![
                RelativeSelector {
                    combinator: Combinator::Descendant,
                    selector: CompoundSelector {
                        element: Some(HtmlTag::h2),
                        ..Default::default()
                    },
                },
                RelativeSelector {
                    combinator: Combinator::NextSibling,
                    selector: CompoundSelector {
                        element: Some(HtmlTag::p),
                        ..Default::default()
                    },
                },
            ],
        }),
    );

    fn test_err(string: &str, expected: ParseError) {
        test_err_of::<ComplexSelector>(string, expected);
    }

    test_err("[src]img", ParseError::Context(ErrorKind::ComplexSelector(ComplexSelectorError::ParseFail(0)), Box::new(CompoundSelectorError::UnexpectedChar(5).into_parse_error())));
    test_err("div [src]img", ParseError::Context(ErrorKind::ComplexSelector(ComplexSelectorError::ParseFail(0)), Box::new(ParseError::Context(ErrorKind::RelativeSelector(RelativeSelectorError::SelectorFail(4)), Box::new(CompoundSelectorError::UnexpectedChar(9).into_parse_error())))));
}
#[test]
fn test_parse_complex_relative_selector() {

    test_ok("", None::<ComplexRelativeSelector>);
    test_ok(
        "p",
        Some(ComplexRelativeSelector {
            selectors: vec![RelativeSelector {
                combinator: Combinator::Descendant,
                selector: CompoundSelector {
                    element: Some(HtmlTag::p),
                    ..Default::default()
                },
            }],
        }),
    );
    test_ok(
        "p + span",
        Some(ComplexRelativeSelector {
            selectors: vec![
                RelativeSelector {
                    combinator: Combinator::Descendant,
                    selector: CompoundSelector {
                        element: Some(HtmlTag::p),
                        ..Default::default()
                    },
                },
                RelativeSelector {
                    combinator: Combinator::NextSibling,
                    selector: CompoundSelector {
                        element: Some(HtmlTag::span),
                        ..Default::default()
                    },
                },
            ],
        }),
    );
    test_ok(
        "+ div",
        Some(ComplexRelativeSelector {
            selectors: vec![RelativeSelector {
                combinator: Combinator::NextSibling,
                selector: CompoundSelector {
                    element: Some(HtmlTag::div),
                    ..Default::default()
                },
            }],
        }),
    );
    test_ok(
        "+ h1 + h2 +h3",
        Some(ComplexRelativeSelector {
            selectors: vec![
                RelativeSelector {
                    combinator: Combinator::NextSibling,
                    selector: CompoundSelector {
                        element: Some(HtmlTag::h1),
                        ..Default::default()
                    },
                },
                RelativeSelector {
                    combinator: Combinator::NextSibling,
                    selector: CompoundSelector {
                        element: Some(HtmlTag::h2),
                        ..Default::default()
                    },
                },
                RelativeSelector {
                    combinator: Combinator::NextSibling,
                    selector: CompoundSelector {
                        element: Some(HtmlTag::h3),
                        ..Default::default()
                    },
                },
            ],
        }),
    );

    fn test_err(string: &str, expected: ParseError) {
        test_err_of::<ComplexRelativeSelector>(string, expected);
    }

    test_err("p +", ParseError::Context(ErrorKind::ComplexRelativeSelector(ComplexRelativeSelectorError::ParseFail(0)), Box::new(RelativeSelectorError::MissingSelector(2).into_parse_error())));
}
#[test]
fn test_parse_compound_selector() {

    test_ok("", None::<CompoundSelector>);
    test_ok(
        "div",
        Some(CompoundSelector {
            element: Some(HtmlTag::div),
            ..Default::default()
        }),
    );
    test_ok(
        "[text*=\"test\"]",
        Some(CompoundSelector {
            text: Some(AttributePattern {
                name: AttributeName::Text,
                value: Some(AttributeValue {
                    operator: AttributeOperator::Includes,
                    value: QuotedString("test".into()),
                    case: None,
                }),
            }),
            ..Default::default()
        }),
    );
    test_ok(
        "div#main",
        Some(CompoundSelector {
            element: Some(HtmlTag::div),
            id: Some(IdSelector::new("main")),
            ..Default::default()
        }),
    );
    test_ok(
        "div#footer.black",
        Some(CompoundSelector {
            element: Some(HtmlTag::div),
            id: Some(IdSelector::new("footer")),
            classes: vec![ClassSelector::new("black")],
            ..Default::default()
        }),
    );
    test_ok(
        "div.red#header.green",
        Some(CompoundSelector {
            element: Some(HtmlTag::div),
            id: Some(IdSelector::new("header")),
            classes: vec![ClassSelector::new("red"), ClassSelector::new("green")],
            ..Default::default()
        }),
    );
    test_ok(
        "div[class]",
        Some(CompoundSelector {
            element: Some(HtmlTag::div),
            class_attributes: vec![AttributeSelector::new(AttributePattern {
                name: AttributeName::Std(HtmlAttr::class),
                value: None,
            })],
            ..Default::default()
        }),
    );
    test_ok(
        "div.red[class][data-test]",
        Some(CompoundSelector {
            element: Some(HtmlTag::div),
            classes: vec![ClassSelector::new("red")],
            class_attributes: vec![AttributeSelector::new(AttributePattern {
                name: AttributeName::Std(HtmlAttr::class),
                value: None,
            })],
            attributes: vec![AttributeSelector::new(AttributePattern {
                name: AttributeName::Ext("data-test".to_string()),
                value: None,
            })],
            ..Default::default()
        }),
    );
    test_ok(
        "img[src=\"image.png\"]:last-child",
        Some(CompoundSelector {
            element: Some(HtmlTag::img),
            attributes: vec![AttributeSelector::new(AttributePattern {
                name: AttributeName::Std(HtmlAttr::src),
                value: Some(AttributeValue {
                    operator: AttributeOperator::Exact,
                    value: QuotedString("image.png".into()),
                    case: None,
                }),
            })],
            pseudo_classes: vec![PseudoClassSelector::LastChild],
            ..Default::default()
        }),
    );
    test_ok(
        "h1[id] ",
        Some(CompoundSelector {
            element: Some(HtmlTag::h1),
            attributes: vec![AttributeSelector::new(AttributePattern {
                name: AttributeName::Std(HtmlAttr::id),
                value: None,
            })],
            ..Default::default()
        }),
    );

    fn test_err(string: &str, expected: ParseError) {
        test_err_of::<CompoundSelector>(string, expected);
    }

    test_err(".", ParseError::Context(ErrorKind::CompoundSelector(CompoundSelectorError::ClassFail(0)), Box::new(ClassSelectorError::MissingClass(0).into_parse_error())));
    test_err("#", ParseError::Context(ErrorKind::CompoundSelector(CompoundSelectorError::IdFail(0)), Box::new(IdSelectorError::MissingId(0).into_parse_error())));
    test_err("[", ParseError::Context(ErrorKind::CompoundSelector(CompoundSelectorError::AttributeFail(0)), Box::new(ParseError::Context(ErrorKind::AttributeSelector(AttributeSelectorError::ParseFail(0)), Box::new(ParenthesizedError::MissingContent(0).into_parse_error())))));
    test_err(":", ParseError::Context(ErrorKind::CompoundSelector(CompoundSelectorError::PseudoClassFail(0)), Box::new(PseudoClassSelectorError::MissingKeyword(0).into_parse_error())));
    test_err("[src]a", CompoundSelectorError::UnexpectedChar(5).into_parse_error());
}
#[test]
fn test_parse_id_selector() {

    test_ok("", None::<IdSelector>);
    test_ok(".", None::<IdSelector>);
    test_ok("#-hyphen", Some(IdSelector::new("-hyphen")));
    test_ok("#_underscore", Some(IdSelector::new("_underscore")));
    test_ok("#withdigit1", Some(IdSelector::new("withdigit1")));
    test_ok(
        "#hyphen-_underscore",
        Some(IdSelector::new("hyphen-_underscore")),
    );
    test_ok("#stop[", Some(IdSelector::new("stop")));

    fn test_err(string: &str, expected: ParseError) {
        test_err_of::<IdSelector>(string, expected);
    }

    test_err("#", IdSelectorError::MissingId(0).into_parse_error());
    test_err("#3", TextPatternError::StartsWith(1, '3').into_parse_error().context(ErrorKind::IdSelector(IdSelectorError::ParseFail(0))));
    test_err("#4id", TextPatternError::StartsWith(1, '4').into_parse_error().context(ErrorKind::IdSelector(IdSelectorError::ParseFail(0))));
    test_err("#--", TextPatternError::Exclusively(1, CharList::from_chars(vec!['-', '_'])).into_parse_error().context(ErrorKind::IdSelector(IdSelectorError::ParseFail(0))));
}
#[test]
fn test_parse_selector_list() {

    test_ok("", None::<SelectorList>);
    test_ok(
        "div, a",
        Some(SelectorList {
            selectors: vec![
                ComplexSelector {
                    first: CompoundSelector {
                        element: Some(HtmlTag::div),
                        ..Default::default()
                    },
                    selectors: Vec::new(),
                },
                ComplexSelector {
                    first: CompoundSelector {
                        element: Some(HtmlTag::a),
                        ..Default::default()
                    },
                    selectors: Vec::new(),
                },
            ],
        }),
    );
    test_ok(
        "div#header > p   ,  span.blue",
        Some(SelectorList {
            selectors: vec![
                ComplexSelector {
                    first: CompoundSelector {
                        element: Some(HtmlTag::div),
                        id: Some(IdSelector::new("header")),
                        ..Default::default()
                    },
                    selectors: vec![RelativeSelector {
                        combinator: Combinator::Child,
                        selector: CompoundSelector {
                            element: Some(HtmlTag::p),
                            ..Default::default()
                        },
                    }],
                },
                ComplexSelector {
                    first: CompoundSelector {
                        element: Some(HtmlTag::span),
                        classes: vec![ClassSelector::new("blue")],
                        ..Default::default()
                    },
                    selectors: Vec::new(),
                },
            ],
        }),
    );

    fn test_err(string: &str, expected: ParseError) {
        test_err_of::<SelectorList>(string, expected);
    }

    test_err("div, ", SelectorListError::Unterminated(4).into_parse_error());
    test_err("div, [src]img", ParseError::Context(ErrorKind::SelectorList(SelectorListError::ParseFail(0)), Box::new(ParseError::Context(ErrorKind::ComplexSelector(ComplexSelectorError::ParseFail(5)), Box::new(CompoundSelectorError::UnexpectedChar(10).into_parse_error())))));
}
#[test]
fn test_parse_relative_selector_list() {

    test_ok("", None::<RelativeSelectorList>);
    test_ok(
        "p",
        Some(RelativeSelectorList {
            selectors: vec![ComplexRelativeSelector {
                selectors: vec![RelativeSelector {
                    combinator: Combinator::Descendant,
                    selector: CompoundSelector {
                        element: Some(HtmlTag::p),
                        ..Default::default()
                    },
                }],
            }],
        }),
    );
    test_ok(
        "p, +h1",
        Some(RelativeSelectorList {
            selectors: vec![
                ComplexRelativeSelector {
                    selectors: vec![RelativeSelector {
                        combinator: Combinator::Descendant,
                        selector: CompoundSelector {
                            element: Some(HtmlTag::p),
                            ..Default::default()
                        },
                    }],
                },
                ComplexRelativeSelector {
                    selectors: vec![RelativeSelector {
                        combinator: Combinator::NextSibling,
                        selector: CompoundSelector {
                            element: Some(HtmlTag::h1),
                            ..Default::default()
                        },
                    }],
                },
            ],
        }),
    );
    test_ok(
        "+ h1 > span, +h2 > i",
        Some(RelativeSelectorList {
            selectors: vec![
                ComplexRelativeSelector {
                    selectors: vec![
                        RelativeSelector {
                            combinator: Combinator::NextSibling,
                            selector: CompoundSelector {
                                element: Some(HtmlTag::h1),
                                ..Default::default()
                            },
                        },
                        RelativeSelector {
                            combinator: Combinator::Child,
                            selector: CompoundSelector {
                                element: Some(HtmlTag::span),
                                ..Default::default()
                            },
                        },
                    ],
                },
                ComplexRelativeSelector {
                    selectors: vec![
                        RelativeSelector {
                            combinator: Combinator::NextSibling,
                            selector: CompoundSelector {
                                element: Some(HtmlTag::h2),
                                ..Default::default()
                            },
                        },
                        RelativeSelector {
                            combinator: Combinator::Child,
                            selector: CompoundSelector {
                                element: Some(HtmlTag::i),
                                ..Default::default()
                            },
                        },
                    ],
                },
            ],
        }),
    );

    fn test_err(string: &str, expected: ParseError) {
        test_err_of::<RelativeSelectorList>(string, expected);
    }

    test_err("+div,", RelativeSelectorListError::Unterminated(4).into_parse_error());
    test_err("+div, [src]img", ParseError::Context(ErrorKind::RelativeSelectorList(RelativeSelectorListError::ParseFail(0)), Box::new(ParseError::Context(ErrorKind::ComplexRelativeSelector(ComplexRelativeSelectorError::ParseFail(6)), Box::new(ParseError::Context(ErrorKind::RelativeSelector(RelativeSelectorError::SelectorFail(6)), Box::new(CompoundSelectorError::UnexpectedChar(11).into_parse_error())))))));
}
#[test]
fn test_parse_pseudo_class_selector() {
    test_ok("", None::<PseudoClassSelector>);
    test_ok(":root", Some(PseudoClassSelector::Root));
    test_ok(":empty", Some(PseudoClassSelector::Empty));
    test_ok(
        ":nth-child(2n+1)",
        Some(PseudoClassSelector::NthChild(OrdinalPattern::Formula {
            backward: false,
            a: 2,
            b: Some(1),
        })),
    );
    test_ok(
        ":nth-last-child(n)",
        Some(PseudoClassSelector::NthLastChild(OrdinalPattern::Formula {
            backward: false,
            a: 1,
            b: None,
        })),
    );
    test_ok(":first-child", Some(PseudoClassSelector::FirstChild));
    test_ok(":last-child", Some(PseudoClassSelector::LastChild));
    test_ok(":only-child", Some(PseudoClassSelector::OnlyChild));
    test_ok(
        ":nth-of-type(3n)",
        Some(PseudoClassSelector::NthOfType(OrdinalPattern::Formula {
            backward: false,
            a: 3,
            b: None,
        })),
    );
    test_ok(
        ":nth-last-of-type(2n+1)",
        Some(PseudoClassSelector::NthLastOfType(
            OrdinalPattern::Formula {
                backward: false,
                a: 2,
                b: Some(1),
            },
        )),
    );
    test_ok(":first-of-type", Some(PseudoClassSelector::FirstOfType));
    test_ok(":last-of-type", Some(PseudoClassSelector::LastOfType));
    test_ok(":only-of-type", Some(PseudoClassSelector::OnlyOfType));
    test_ok(
        ":not(div,a, h1)",
        Some(PseudoClassSelector::Not(SelectorList {
            selectors: vec![
                ComplexSelector {
                    first: CompoundSelector {
                        element: Some(HtmlTag::div),
                        ..Default::default()
                    },
                    selectors: Vec::new(),
                },
                ComplexSelector {
                    first: CompoundSelector {
                        element: Some(HtmlTag::a),
                        ..Default::default()
                    },
                    selectors: Vec::new(),
                },
                ComplexSelector {
                    first: CompoundSelector {
                        element: Some(HtmlTag::h1),
                        ..Default::default()
                    },
                    selectors: Vec::new(),
                },
            ],
        })),
    );
    test_ok(
        ":has(+h1,+h2, +h3)",
        Some(PseudoClassSelector::Has(RelativeSelectorList {
            selectors: vec![
                ComplexRelativeSelector {
                    selectors: vec![RelativeSelector {
                        combinator: Combinator::NextSibling,
                        selector: CompoundSelector {
                            element: Some(HtmlTag::h1),
                            ..Default::default()
                        },
                    }],
                },
                ComplexRelativeSelector {
                    selectors: vec![RelativeSelector {
                        combinator: Combinator::NextSibling,
                        selector: CompoundSelector {
                            element: Some(HtmlTag::h2),
                            ..Default::default()
                        },
                    }],
                },
                ComplexRelativeSelector {
                    selectors: vec![RelativeSelector {
                        combinator: Combinator::NextSibling,
                        selector: CompoundSelector {
                            element: Some(HtmlTag::h3),
                            ..Default::default()
                        },
                    }],
                },
            ],
        })),
    );
    test_ok(
        ":is(div:first-child,span, i)",
        Some(PseudoClassSelector::Is(SelectorList {
            selectors: vec![
                ComplexSelector {
                    first: CompoundSelector {
                        element: Some(HtmlTag::div),
                        pseudo_classes: vec![PseudoClassSelector::FirstChild],
                        ..Default::default()
                    },
                    selectors: Vec::new(),
                },
                ComplexSelector {
                    first: CompoundSelector {
                        element: Some(HtmlTag::span),
                        id: None,
                        ..Default::default()
                    },
                    selectors: Vec::new(),
                },
                ComplexSelector {
                    first: CompoundSelector {
                        element: Some(HtmlTag::i),
                        ..Default::default()
                    },
                    selectors: Vec::new(),
                },
            ],
        })),
    );

    fn test_err(string: &str, expected: ParseError) {
        test_err_of::<PseudoClassSelector>(string, expected);
    }

    test_err(":", PseudoClassSelectorError::MissingKeyword(0).into_parse_error());
    test_err(":-", ParseError::Context(ErrorKind::PseudoClassSelector(PseudoClassSelectorError::ParseFail(1)), Box::new(TextPatternError::StartsWith(1, '-').into_parse_error())));
    test_err(":test", PseudoClassSelectorError::InvalidKeyword(1).into_parse_error());
    test_err(":nth-child", PseudoClassSelectorError::MissingParameter(9).into_parse_error());
    test_err(":nth-child()", PseudoClassSelectorError::EmptyParameter(11).into_parse_error());
    test_err(":nth-of-type(", ParseError::Context(ErrorKind::PseudoClassSelector(PseudoClassSelectorError::ParseParameter(12)), Box::new(ParenthesizedError::MissingContent(12).into_parse_error())));
}
#[test]
fn test_parse_relative_selector() {

    test_ok("", None::<RelativeSelector>);
    test_ok(
        "div",
        Some(RelativeSelector {
            combinator: Combinator::Descendant,
            selector: CompoundSelector {
                element: Some(HtmlTag::div),
                ..Default::default()
            },
        }),
    );
    test_ok(
        " >span",
        Some(RelativeSelector {
            combinator: Combinator::Child,
            selector: CompoundSelector {
                element: Some(HtmlTag::span),
                ..Default::default()
            },
        }),
    );
    test_ok(
        "+  p",
        Some(RelativeSelector {
            combinator: Combinator::NextSibling,
            selector: CompoundSelector {
                element: Some(HtmlTag::p),
                ..Default::default()
            },
        }),
    );

    fn test_err(string: &str, expected: ParseError) {
        test_err_of::<RelativeSelector>(string, expected);
    }

    test_err(">", RelativeSelectorError::MissingSelector(0).into_parse_error());
    test_err("+[src]h1", ParseError::Context(ErrorKind::RelativeSelector(RelativeSelectorError::SelectorFail(1)), Box::new(CompoundSelectorError::UnexpectedChar(6).into_parse_error())));
}
#[test]
fn test_parse_tag_selector() {

    test_ok("", None::<TagSelector>);
    test_ok("div", Some(TagSelector::Std(HtmlTag::div)));
    test_ok("h1", Some(TagSelector::Std(HtmlTag::h1)));
    // `figure-inline` and `hnan` were demoted from the enum (ADR 0002 §4) and now parse as
    // extended selectors, like any custom element.
    test_ok(
        "figure-inline",
        Some(TagSelector::Ext(ExtTagSelector::new("figure-inline"))),
    );
    // An unknown name is no longer a parse error — it is an extended selector (matches
    // nothing unless the document holds that custom element).
    test_ok("dib", Some(TagSelector::Ext(ExtTagSelector::new("dib"))));
    test_ok(
        "my-widget",
        Some(TagSelector::Ext(ExtTagSelector::new("my-widget"))),
    );
    // The `extended` marker spelling routes to an extended selector, never the enum variant.
    test_ok(
        "extended",
        Some(TagSelector::Ext(ExtTagSelector::new("extended"))),
    );
    test_ok("span.inline", Some(TagSelector::Std(HtmlTag::span)));

    fn test_err(string: &str, expected: ParseError) {
        test_err_of::<TagSelector>(string, expected);
    }

    test_err("1div", TextPatternError::StartsWith(0, '1').into_parse_error().context(ErrorKind::TagSelector(TagSelectorError::ParseFail(0))));
}
#[test]
fn test_parse_round_trip() {
    let css = "div#header.blue > p, h1.title + span, a:first-child.link input[type='text']";

    let selectors = parse_css(css).unwrap();

    assert_eq!(css, selectors.to_string());

    let spaced_css =
        "div#header.blue    > p, h1.title   + span   , a:first-child.link  input[type='text']";
    let spaced_selectors = parse_css(css).unwrap();
    let _ = spaced_css;

    assert_eq!(spaced_selectors.to_string(), selectors.to_string());

    let css = r#"a.button.active + .tooltip, [method='POST' s] ~ .message, :first-child.card > p:nth-child(2n+1).details"#;
    let selectors = parse_css(css).unwrap();

    assert_eq!(css, selectors.to_string());
}

#[test]
fn parse_error_surfaces() {
    assert!(OwnedSelectorList::parse("div,").is_err());
}

#[test]
fn test_parse_text_pattern() {
    fn test_ok(string: &str, expected: Option<&str>) {
        let mut chars = CssChars::new(string);
        let pattern = TextPattern::new()
            .allow_alphabetic()
            .allow_numeric()
            .start_with(CssChar::Digit)
            .allow_special('-')
            .not_exclusively(CssChar::Digit)
            .stop_at('r');
        let result = match pattern.validate(&mut chars) {
            Ok(r) => r,
            Err(e) => panic!("{}", e.to_string()),
        };
        assert_eq!(result.as_deref(), expected);
    }

    test_ok("", None);
    test_ok("1abc", Some("1abc"));
    test_ok("1data-attr", Some("1data-att"));
    test_ok("2list_id", Some("2list"));

    fn test_err(string: &str, expected: ParseError) {
        let mut chars = CssChars::new(string);
        let pattern = TextPattern::new()
            .allow_alphabetic()
            .allow_numeric()
            .start_with(CssChar::Digit)
            .not_exclusively(CssChar::Digit);
        match pattern.validate(&mut chars) {
            Ok(r) => panic!("{:?}", r),
            Err(e) => assert_eq!(e.to_string(), expected.to_string()),
        }
    }

    test_err("abc", TextPatternError::StartsWith(0, 'a').into_parse_error());
    test_err("123", TextPatternError::Exclusively(0, CharList([CssChar::Digit].to_vec())).into_parse_error());
}
