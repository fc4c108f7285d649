use htmlarc_dom::css::patterns::attribute_operator::AttributeOperator;
use htmlarc_dom::css::patterns::attribute_pattern::{AttributeName, AttributePattern};
use htmlarc_dom::css::patterns::attribute_value::AttributeValue;
use htmlarc_dom::css::patterns::case_indicator::CaseIndicator;
use htmlarc_dom::css::patterns::combinator::Combinator;
use htmlarc_dom::css::patterns::ordinal_pattern::OrdinalPattern;
use htmlarc_dom::css::patterns::quoted_string::QuotedString;
use htmlarc_dom::css::selectors::attribute::AttributeSelector;
use htmlarc_dom::css::selectors::class::ClassSelector;
use htmlarc_dom::css::selectors::complex::{ComplexRelativeSelector, ComplexSelector};
use htmlarc_dom::css::selectors::compound::{CompoundSelector, RelativeSelector};
use htmlarc_dom::css::selectors::id::IdSelector;
use htmlarc_dom::css::selectors::list::{RelativeSelectorList, SelectorList};
use htmlarc_dom::css::selectors::pseudo_class::PseudoClassSelector;
use htmlarc_dom::dom::Attribute;
use htmlarc_dom::html::{HtmlAttr, HtmlTag};
use htmlarc_dom::html_doc::HtmlDoc;

#[test]
fn test_data_attribute_matching_sensitive() {

    assert!((AttributePattern {
            name: AttributeName::Ext("data-name".to_string()),
            value: None,
        }).matches_attribute(&Attribute { name: AttributeName::Ext("data-name".to_string()), value: "custom".to_string() }));
    assert!((AttributePattern {
            name: AttributeName::Ext("data-name".to_string()),
            value: Some(AttributeValue {
                operator: AttributeOperator::Exact,
                value: QuotedString("Custom".into()),
                case: None,
            }),
        }).matches_attribute(&Attribute { name: AttributeName::Ext("data-name".to_string()), value: "Custom".to_string() }));
    assert!((AttributePattern {
            name: AttributeName::Ext("data-name".to_string()),
            value: Some(AttributeValue {
                operator: AttributeOperator::Exact,
                value: QuotedString("Custom".into()),
                case: Some(CaseIndicator::Sensitive),
            }),
        }).matches_attribute(&Attribute { name: AttributeName::Ext("data-name".to_string()), value: "Custom".to_string() }));
    assert!((AttributePattern {
            name: AttributeName::Ext("data-name".to_string()),
            value: Some(AttributeValue {
                operator: AttributeOperator::Starts,
                value: QuotedString("Cus".into()),
                case: None,
            }),
        }).matches_attribute(&Attribute { name: AttributeName::Ext("data-name".to_string()), value: "Custom".to_string() }));
    assert!((AttributePattern {
            name: AttributeName::Ext("data-name".to_string()),
            value: Some(AttributeValue {
                operator: AttributeOperator::Includes,
                value: QuotedString("uS".into()),
                case: None,
            }),
        }).matches_attribute(&Attribute { name: AttributeName::Ext("data-name".to_string()), value: "CuStom".to_string() }));
    assert!((AttributePattern {
            name: AttributeName::Ext("data-name".to_string()),
            value: Some(AttributeValue {
                operator: AttributeOperator::Ends,
                value: QuotedString("oM".into()),
                case: None,
            }),
        }).matches_attribute(&Attribute { name: AttributeName::Ext("data-name".to_string()), value: "CustoM".to_string() }));
    assert!((AttributePattern {
            name: AttributeName::Ext("data-name".to_string()),
            value: Some(AttributeValue {
                operator: AttributeOperator::List,
                value: QuotedString("Custom".into()),
                case: None,
            }),
        }).matches_attribute(&Attribute { name: AttributeName::Ext("data-name".to_string()), value: "test Custom foo bar".to_string() }));
    assert!((AttributePattern {
            name: AttributeName::Ext("data-name".to_string()),
            value: Some(AttributeValue {
                operator: AttributeOperator::DashMatch,
                value: QuotedString("Custom".into()),
                case: None,
            }),
        }).matches_attribute(&Attribute { name: AttributeName::Ext("data-name".to_string()), value: "Custom".to_string() }));
    assert!((AttributePattern {
            name: AttributeName::Ext("data-name".to_string()),
            value: Some(AttributeValue {
                operator: AttributeOperator::DashMatch,
                value: QuotedString("Custom".into()),
                case: None,
            }),
        }).matches_attribute(&Attribute { name: AttributeName::Ext("data-name".to_string()), value: "Custom-foo".to_string() }));
}
#[test]
fn test_data_attribute_matching_insensitive() {

    assert!((AttributePattern {
            name: AttributeName::Ext("data-name".to_string()),
            value: Some(AttributeValue {
                operator: AttributeOperator::Exact,
                value: QuotedString("Custom".into()),
                case: Some(CaseIndicator::Insensitive),
            }),
        }).matches_attribute(&Attribute { name: AttributeName::Ext("data-name".to_string()), value: "custom".to_string() }));
    assert!((AttributePattern {
            name: AttributeName::Ext("data-name".to_string()),
            value: Some(AttributeValue {
                operator: AttributeOperator::Starts,
                value: QuotedString("Cus".into()),
                case: Some(CaseIndicator::Insensitive),
            }),
        }).matches_attribute(&Attribute { name: AttributeName::Ext("data-name".to_string()), value: "custom".to_string() }));
    assert!((AttributePattern {
            name: AttributeName::Ext("data-name".to_string()),
            value: Some(AttributeValue {
                operator: AttributeOperator::Includes,
                value: QuotedString("uS".into()),
                case: Some(CaseIndicator::Insensitive),
            }),
        }).matches_attribute(&Attribute { name: AttributeName::Ext("data-name".to_string()), value: "Custom".to_string() }));
    assert!((AttributePattern {
            name: AttributeName::Ext("data-name".to_string()),
            value: Some(AttributeValue {
                operator: AttributeOperator::Ends,
                value: QuotedString("oM".into()),
                case: Some(CaseIndicator::Insensitive),
            }),
        }).matches_attribute(&Attribute { name: AttributeName::Ext("data-name".to_string()), value: "Custom".to_string() }));
    assert!((AttributePattern {
            name: AttributeName::Ext("data-name".to_string()),
            value: Some(AttributeValue {
                operator: AttributeOperator::List,
                value: QuotedString("Custom".into()),
                case: Some(CaseIndicator::Insensitive),
            }),
        }).matches_attribute(&Attribute { name: AttributeName::Ext("data-name".to_string()), value: "test custom foo bar".to_string() }));
    assert!((AttributePattern {
            name: AttributeName::Ext("data-name".to_string()),
            value: Some(AttributeValue {
                operator: AttributeOperator::DashMatch,
                value: QuotedString("Custom".into()),
                case: Some(CaseIndicator::Insensitive),
            }),
        }).matches_attribute(&Attribute { name: AttributeName::Ext("data-name".to_string()), value: "custom".to_string() }));
    assert!((AttributePattern {
            name: AttributeName::Ext("data-name".to_string()),
            value: Some(AttributeValue {
                operator: AttributeOperator::DashMatch,
                value: QuotedString("Custom".into()),
                case: Some(CaseIndicator::Insensitive),
            }),
        }).matches_attribute(&Attribute { name: AttributeName::Ext("data-name".to_string()), value: "custom-foo".to_string() }));
}
#[test]
fn test_class_matching_sensitive() {

    assert!((AttributePattern {
            name: AttributeName::Std(HtmlAttr::class),
            value: None,
        }).matches_class("custom"));
    assert!((AttributePattern {
            name: AttributeName::Std(HtmlAttr::class),
            value: Some(AttributeValue {
                operator: AttributeOperator::Exact,
                value: QuotedString("Custom".into()),
                case: None
            }),
        }).matches_class("Custom"));
    assert!((AttributePattern {
            name: AttributeName::Std(HtmlAttr::class),
            value: Some(AttributeValue {
                operator: AttributeOperator::Starts,
                value: QuotedString("Cus".into()),
                case: None
            }),
        }).matches_class("Custom"));
    assert!((AttributePattern {
            name: AttributeName::Std(HtmlAttr::class),
            value: Some(AttributeValue {
                operator: AttributeOperator::Includes,
                value: QuotedString("Us".into()),
                case: None
            }),
        }).matches_class("CUstom"));
    assert!((AttributePattern {
            name: AttributeName::Std(HtmlAttr::class),
            value: Some(AttributeValue {
                operator: AttributeOperator::Ends,
                value: QuotedString("Om".into()),
                case: None
            }),
        }).matches_class("CustOm"));
    assert!((AttributePattern {
            name: AttributeName::Std(HtmlAttr::class),
            value: Some(AttributeValue {
                operator: AttributeOperator::List,
                value: QuotedString("sTo".into()),
                case: None
            }),
        }).matches_class("CusTom"));
    assert!((AttributePattern {
            name: AttributeName::Std(HtmlAttr::class),
            value: Some(AttributeValue {
                operator: AttributeOperator::DashMatch,
                value: QuotedString("Custom".into()),
                case: None
            }),
        }).matches_class("Custom"));
    assert!((AttributePattern {
            name: AttributeName::Std(HtmlAttr::class),
            value: Some(AttributeValue {
                operator: AttributeOperator::DashMatch,
                value: QuotedString("Custom".into()),
                case: None
            }),
        }).matches_class("Custom-foo"));
}
#[test]
fn test_class_matching_insensitive() {

    assert!((AttributePattern {
            name: AttributeName::Std(HtmlAttr::class),
            value: Some(AttributeValue {
                operator: AttributeOperator::Exact,
                value: QuotedString("custom".into()),
                case: Some(CaseIndicator::Insensitive)
            }),
        }).matches_class("Custom"));
    assert!((AttributePattern {
            name: AttributeName::Std(HtmlAttr::class),
            value: Some(AttributeValue {
                operator: AttributeOperator::Starts,
                value: QuotedString("cus".into()),
                case: Some(CaseIndicator::Insensitive)
            }),
        }).matches_class("Custom"));
    assert!((AttributePattern {
            name: AttributeName::Std(HtmlAttr::class),
            value: Some(AttributeValue {
                operator: AttributeOperator::Includes,
                value: QuotedString("us".into()),
                case: Some(CaseIndicator::Insensitive)
            }),
        }).matches_class("CUstom"));
    assert!((AttributePattern {
            name: AttributeName::Std(HtmlAttr::class),
            value: Some(AttributeValue {
                operator: AttributeOperator::Ends,
                value: QuotedString("om".into()),
                case: Some(CaseIndicator::Insensitive)
            }),
        }).matches_class("CustOm"));
    assert!((AttributePattern {
            name: AttributeName::Std(HtmlAttr::class),
            value: Some(AttributeValue {
                operator: AttributeOperator::List,
                value: QuotedString("sto".into()),
                case: Some(CaseIndicator::Insensitive)
            }),
        }).matches_class("CUSTOM"));
    assert!((AttributePattern {
            name: AttributeName::Std(HtmlAttr::class),
            value: Some(AttributeValue {
                operator: AttributeOperator::DashMatch,
                value: QuotedString("custom".into()),
                case: Some(CaseIndicator::Insensitive)
            }),
        }).matches_class("Custom"));
    assert!((AttributePattern {
            name: AttributeName::Std(HtmlAttr::class),
            value: Some(AttributeValue {
                operator: AttributeOperator::DashMatch,
                value: QuotedString("custom".into()),
                case: Some(CaseIndicator::Insensitive)
            }),
        }).matches_class("Custom-foo"));
}
#[test]
fn test_attribute_matching() {
    assert!((AttributePattern {
            name: AttributeName::Std(HtmlAttr::width),
            value: None
        }).matches_attribute(&Attribute { name: AttributeName::Std(HtmlAttr::width), value: "".to_string() }));

    assert!((AttributePattern {
            name: AttributeName::Std(HtmlAttr::href),
            value: Some(AttributeValue {
                operator: AttributeOperator::Exact,
                value: QuotedString("http".into()),
                case: None
            }),
        }).matches_attribute(&Attribute { name: AttributeName::Std(HtmlAttr::href), value: "http".to_string() }));
    assert!(!(AttributePattern {
            name: AttributeName::Std(HtmlAttr::href),
            value: Some(AttributeValue {
                operator: AttributeOperator::Exact,
                value: QuotedString("httP".into()),
                case: Some(CaseIndicator::Sensitive)
            }),
        }).matches_attribute(&Attribute { name: AttributeName::Std(HtmlAttr::href), value: "http".to_string() }));

    assert!((AttributePattern {
            name: AttributeName::Std(HtmlAttr::href),
            value: Some(AttributeValue {
                operator: AttributeOperator::Starts,
                value: QuotedString("http".into()),
                case: None
            }),
        }).matches_attribute(&Attribute { name: AttributeName::Std(HtmlAttr::href), value: "http://".to_string() }));
    assert!(!(AttributePattern {
            name: AttributeName::Std(HtmlAttr::href),
            value: Some(AttributeValue {
                operator: AttributeOperator::Starts,
                value: QuotedString("httP".into()),
                case: Some(CaseIndicator::Sensitive)
            }),
        }).matches_attribute(&Attribute { name: AttributeName::Std(HtmlAttr::href), value: "http://".to_string() }));

    assert!((AttributePattern {
            name: AttributeName::Std(HtmlAttr::href),
            value: Some(AttributeValue {
                operator: AttributeOperator::Includes,
                value: QuotedString("tt".into()),
                case: None
            }),
        }).matches_attribute(&Attribute { name: AttributeName::Std(HtmlAttr::href), value: "http://".to_string() }));
    assert!(!(AttributePattern {
            name: AttributeName::Std(HtmlAttr::href),
            value: Some(AttributeValue {
                operator: AttributeOperator::Includes,
                value: QuotedString("tT".into()),
                case: Some(CaseIndicator::Sensitive)
            }),
        }).matches_attribute(&Attribute { name: AttributeName::Std(HtmlAttr::href), value: "http://".to_string() }));

    assert!((AttributePattern {
            name: AttributeName::Std(HtmlAttr::href),
            value: Some(AttributeValue {
                operator: AttributeOperator::Includes,
                value: QuotedString("tt".into()),
                case: None
            }),
        }).matches_attribute(&Attribute { name: AttributeName::Std(HtmlAttr::href), value: "http://".to_string() }));
    assert!(!(AttributePattern {
            name: AttributeName::Std(HtmlAttr::href),
            value: Some(AttributeValue {
                operator: AttributeOperator::Includes,
                value: QuotedString("tT".into()),
                case: Some(CaseIndicator::Sensitive)
            }),
        }).matches_attribute(&Attribute { name: AttributeName::Std(HtmlAttr::href), value: "http://".to_string() }));

    assert!((AttributePattern {
            name: AttributeName::Std(HtmlAttr::href),
            value: Some(AttributeValue {
                operator: AttributeOperator::Ends,
                value: QuotedString("tp".into()),
                case: None
            }),
        }).matches_attribute(&Attribute { name: AttributeName::Std(HtmlAttr::href), value: "http".to_string() }));
    assert!(!(AttributePattern {
            name: AttributeName::Std(HtmlAttr::href),
            value: Some(AttributeValue {
                operator: AttributeOperator::Ends,
                value: QuotedString("Tp".into()),
                case: Some(CaseIndicator::Sensitive)
            }),
        }).matches_attribute(&Attribute { name: AttributeName::Std(HtmlAttr::href), value: "http".to_string() }));

    assert!((AttributePattern {
            name: AttributeName::Std(HtmlAttr::lang),
            value: Some(AttributeValue {
                operator: AttributeOperator::List,
                value: QuotedString("en-Us".into()),
                case: None
            }),
        }).matches_attribute(&Attribute { name: AttributeName::Std(HtmlAttr::lang), value: "fr-Fr en-Us".to_string() }));
    assert!(!(AttributePattern {
            name: AttributeName::Std(HtmlAttr::lang),
            value: Some(AttributeValue {
                operator: AttributeOperator::List,
                value: QuotedString("en-us".into()),
                case: Some(CaseIndicator::Sensitive)
            }),
        }).matches_attribute(&Attribute { name: AttributeName::Std(HtmlAttr::lang), value: "fr-Fr en-Us".to_string() }));

    assert!((AttributePattern {
            name: AttributeName::Std(HtmlAttr::lang),
            value: Some(AttributeValue {
                operator: AttributeOperator::DashMatch,
                value: QuotedString("en".into()),
                case: None
            }),
        }).matches_attribute(&Attribute { name: AttributeName::Std(HtmlAttr::lang), value: "en".to_string() }));
    assert!((AttributePattern {
            name: AttributeName::Std(HtmlAttr::lang),
            value: Some(AttributeValue {
                operator: AttributeOperator::DashMatch,
                value: QuotedString("en".into()),
                case: None
            }),
        }).matches_attribute(&Attribute { name: AttributeName::Std(HtmlAttr::lang), value: "en-Us".to_string() }));
    assert!(!(AttributePattern {
            name: AttributeName::Std(HtmlAttr::lang),
            value: Some(AttributeValue {
                operator: AttributeOperator::DashMatch,
                value: QuotedString("en".into()),
                case: Some(CaseIndicator::Sensitive)
            }),
        }).matches_attribute(&Attribute { name: AttributeName::Std(HtmlAttr::lang), value: "EN-US".to_string() }));
}
#[test]
fn test_sensitive_attributes_matching() {
    const CASE_SENSITIVE_ATTRIBUTES: [HtmlAttr; 9] = [
        HtmlAttr::id,
        HtmlAttr::aria_controls,
        HtmlAttr::aria_expanded,
        HtmlAttr::aria_haspopup,
        HtmlAttr::aria_hidden,
        HtmlAttr::aria_label,
        HtmlAttr::aria_labelledby,
        HtmlAttr::aria_pressed,
        HtmlAttr::role,
    ];

    for attr in CASE_SENSITIVE_ATTRIBUTES {
        assert!((AttributePattern {
                name: AttributeName::Std(attr),
                value: Some(AttributeValue {
                    operator: AttributeOperator::Exact,
                    value: QuotedString("Test".into()),
                    case: None
                })
            }).matches_attribute(&Attribute { name: AttributeName::Std(attr), value: "Test".to_string() }));
        assert!(!(AttributePattern {
                name: AttributeName::Std(attr),
                value: Some(AttributeValue {
                    operator: AttributeOperator::Exact,
                    value: QuotedString("Test".into()),
                    case: None
                })
            }).matches_attribute(&Attribute { name: AttributeName::Std(attr), value: "test".to_string() }));
    }
}
#[test]
fn test_complex_match_ok() {
    fn test_match_ok(selector: ComplexSelector) {
        // <section>
        //   <div>
        //     <h1>Title</h1>
        //     <header>Header</header>
        //     <p id="content" class="red blue yellow" data-foo="bar" title="text">Paragraph</p>
        //     <span>Span</span>
        //   </div>
        // </section>
        let html = r#"<section><div><h1>Title</h1><header>Header</header><p id="content" class="red blue yellow" data-foo="bar" title="text">Paragraph</p><span>Span</span></div></section>
    "#;

        let doc = HtmlDoc::parse(html).unwrap().dom();
        let el = doc.root();
        let el = el.first_child().unwrap(); // section
        let el = el.first_child().unwrap(); // div
        let el = el.first_child().unwrap(); // h1
        let el = el.next_sibling().unwrap(); // header
        let el = el.next_sibling().unwrap(); // p

        assert!(selector.matches_at(el.dom(), el.index()));
    }

    // div > p
    test_match_ok(ComplexSelector {
        first: CompoundSelector {
            element: Some(HtmlTag::div),
            ..Default::default()
        },
        selectors: vec![RelativeSelector {
            combinator: Combinator::Child,
            selector: CompoundSelector {
                element: Some(HtmlTag::p),
                ..Default::default()
            },
        }],
    });

    // header + p
    test_match_ok(ComplexSelector {
        first: CompoundSelector {
            element: Some(HtmlTag::header),
            ..Default::default()
        },
        selectors: vec![RelativeSelector {
            combinator: Combinator::NextSibling,
            selector: CompoundSelector {
                element: Some(HtmlTag::p),
                ..Default::default()
            },
        }],
    });

    // div > h1 ~ p
    test_match_ok(ComplexSelector {
        first: CompoundSelector {
            element: Some(HtmlTag::div),
            ..Default::default()
        },
        selectors: vec![
            RelativeSelector {
                combinator: Combinator::Child,
                selector: CompoundSelector {
                    element: Some(HtmlTag::h1),
                    ..Default::default()
                },
            },
            RelativeSelector {
                combinator: Combinator::SubsequentSibling,
                selector: CompoundSelector {
                    element: Some(HtmlTag::p),
                    ..Default::default()
                },
            },
        ],
    });

    // section p
    test_match_ok(ComplexSelector {
        first: CompoundSelector {
            element: Some(HtmlTag::section),
            ..Default::default()
        },
        selectors: vec![RelativeSelector {
            combinator: Combinator::Descendant,
            selector: CompoundSelector {
                element: Some(HtmlTag::p),
                ..Default::default()
            },
        }],
    });
}
#[test]
fn test_complex_match_err() {
    fn test_match_err(selector: ComplexSelector) {
        // <section>
        //   <div>
        //     <h1>Title</h1>
        //     <header>Header</header>
        //     <p id="content" class="red blue yellow" data-foo="bar" title="text">Paragraph</p>
        //     <span>Span</span>
        //   </div>
        // </section>
        let html = r#"<section><div><h1>Title</h1><header>Header</header><p id="content" class="red blue yellow" data-foo="bar" title="text">Paragraph</p><span>Span</span></div></section>
    "#;

        let doc = HtmlDoc::parse(html).unwrap().dom();
        let el = doc.root();
        let el = el.first_child().unwrap(); // section
        let el = el.first_child().unwrap(); // div
        let el = el.first_child().unwrap(); // h1
        let el = el.next_sibling().unwrap(); // header
        let el = el.next_sibling().unwrap(); // p

        assert!(!selector.matches_at(el.dom(), el.index()));
    }

    // div > h1
    test_match_err(ComplexSelector {
        first: CompoundSelector {
            element: Some(HtmlTag::div),
            ..Default::default()
        },
        selectors: vec![RelativeSelector {
            combinator: Combinator::Child,
            selector: CompoundSelector {
                element: Some(HtmlTag::h1),
                ..Default::default()
            },
        }],
    });

    // header + span
    test_match_err(ComplexSelector {
        first: CompoundSelector {
            element: Some(HtmlTag::header),
            ..Default::default()
        },
        selectors: vec![RelativeSelector {
            combinator: Combinator::NextSibling,
            selector: CompoundSelector {
                element: Some(HtmlTag::span),
                ..Default::default()
            },
        }],
    });

    // section header ~ div > h1 ~ p
    test_match_err(ComplexSelector {
        first: CompoundSelector {
            element: Some(HtmlTag::section),
            ..Default::default()
        },
        selectors: vec![
            RelativeSelector {
                combinator: Combinator::SubsequentSibling,
                selector: CompoundSelector {
                    element: Some(HtmlTag::header),
                    ..Default::default()
                },
            },
            RelativeSelector {
                combinator: Combinator::Child,
                selector: CompoundSelector {
                    element: Some(HtmlTag::div),
                    ..Default::default()
                },
            },
            RelativeSelector {
                combinator: Combinator::Descendant,
                selector: CompoundSelector {
                    element: Some(HtmlTag::h1),
                    ..Default::default()
                },
            },
            RelativeSelector {
                combinator: Combinator::SubsequentSibling,
                selector: CompoundSelector {
                    element: Some(HtmlTag::p),
                    ..Default::default()
                },
            },
        ],
    });
}
#[test]
fn test_compound_matching_ok() {
    fn test_match(selector: CompoundSelector) {
        let html = r#"<div id="main" class="red blue" data-foo="bar" title="main content">Some<article>long<span>paragraph</span></article></div><p>another graph</p>"#;

        let doc = HtmlDoc::parse(html).unwrap().dom();
        let el = doc.root();
        let el = el.first_child().unwrap(); // div

        assert!(selector.matches_at(el.dom(), el.index()));
    }

    // div#main
    test_match(CompoundSelector {
        element: Some(HtmlTag::div),
        id: Some(IdSelector::new("main")),
        ..Default::default()
    });

    // div.red
    test_match(CompoundSelector {
        element: Some(HtmlTag::div),
        id: None,
        classes: vec![ClassSelector::new("red")],
        ..Default::default()
    });

    // div[text]
    test_match(CompoundSelector {
        element: Some(HtmlTag::div),
        text: Some(AttributePattern {
            name: AttributeName::Text,
            value: None,
        }),
        ..Default::default()
    });

    // div[text$="graph"]
    test_match(CompoundSelector {
        element: Some(HtmlTag::div),
        text: Some(AttributePattern {
            name: AttributeName::Text,
            value: Some(AttributeValue {
                operator: AttributeOperator::Ends,
                value: QuotedString("graph".into()),
                case: None,
            }),
        }),
        ..Default::default()
    });

    // [title^="main"]
    test_match(CompoundSelector {
        attributes: vec![AttributeSelector::new(AttributePattern {
            name: AttributeName::Std(HtmlAttr::title),
            value: Some(AttributeValue {
                operator: AttributeOperator::Starts,
                value: QuotedString("main".into()),
                case: None,
            }),
        })],
        ..Default::default()
    });

    // div[data-foo]
    test_match(CompoundSelector {
        element: Some(HtmlTag::div),
        attributes: vec![AttributeSelector::new(AttributePattern {
            name: AttributeName::Ext("data-foo".to_string()),
            value: None,
        })],
        ..Default::default()
    });

    // div.blue[title^="main"][data-foo][class="red"]
    test_match(CompoundSelector {
        element: Some(HtmlTag::div),
        classes: vec![ClassSelector::new("blue")],
        attributes: vec![
            AttributeSelector::new(AttributePattern {
                name: AttributeName::Std(HtmlAttr::title),
                value: Some(AttributeValue {
                    operator: AttributeOperator::Starts,
                    value: QuotedString("main".into()),
                    case: None,
                }),
            }),
            AttributeSelector::new(AttributePattern {
                name: AttributeName::Ext("data-foo".to_string()),
                value: None,
            }),
        ],
        class_attributes: vec![AttributeSelector::new(AttributePattern {
            name: AttributeName::Std(HtmlAttr::class),
            value: Some(AttributeValue {
                operator: AttributeOperator::Exact,
                value: QuotedString("red".into()),
                case: None,
            }),
        })],
        ..Default::default()
    });
}
#[test]
fn test_compound_matching_err() {
    fn test_match(selector: CompoundSelector) {
        let html = r#"<div id="main" class="red blue" data-foo="bar" title="main content"></div>"#;

        let doc = HtmlDoc::parse(html).unwrap().dom();
        let el = doc.root();
        let el = el.first_child().unwrap(); // div

        assert!(!selector.matches_at(el.dom(), el.index()));
    }

    // div#footer
    test_match(CompoundSelector {
        element: Some(HtmlTag::div),
        id: Some(IdSelector::new("footer")),
        ..Default::default()
    });

    // div[text]
    test_match(CompoundSelector {
        element: Some(HtmlTag::div),
        text: Some(AttributePattern {
            name: AttributeName::Text,
            value: None,
        }),
        ..Default::default()
    });

    // div.red.blue.green
    test_match(CompoundSelector {
        element: Some(HtmlTag::div),
        classes: vec![
            ClassSelector::new("red"),
            ClassSelector::new("blue"),
            ClassSelector::new("green"),
        ],
        ..Default::default()
    });

    // [title^="content"]
    test_match(CompoundSelector {
        attributes: vec![AttributeSelector::new(AttributePattern {
            name: AttributeName::Std(HtmlAttr::title),
            value: Some(AttributeValue {
                operator: AttributeOperator::Starts,
                value: QuotedString("content".into()),
                case: None,
            }),
        })],
        ..Default::default()
    });

    // div[data-bar]
    test_match(CompoundSelector {
        element: Some(HtmlTag::div),
        attributes: vec![AttributeSelector::new(AttributePattern {
            name: AttributeName::Ext("data-bar".to_string()),
            value: None,
        })],
        ..Default::default()
    });

    // section.blue[title^="main"][data-foo][class="red"]
    test_match(CompoundSelector {
        element: Some(HtmlTag::section),
        classes: vec![ClassSelector::new("blue")],
        attributes: vec![
            AttributeSelector::new(AttributePattern {
                name: AttributeName::Std(HtmlAttr::title),
                value: Some(AttributeValue {
                    operator: AttributeOperator::Starts,
                    value: QuotedString("main".into()),
                    case: None,
                }),
            }),
            AttributeSelector::new(AttributePattern {
                name: AttributeName::Ext("data-foo".to_string()),
                value: None,
            }),
        ],
        class_attributes: vec![AttributeSelector::new(AttributePattern {
            name: AttributeName::Std(HtmlAttr::class),
            value: Some(AttributeValue {
                operator: AttributeOperator::Exact,
                value: QuotedString("red".into()),
                case: None,
            }),
        })],
        ..Default::default()
    });
}
#[test]
fn test_selector_list_matching_ok() {
    fn test_match(selector: SelectorList) {
        // <section>
        //   <header>title</header>
        //   <div id="main">
        //     <p>content</p>
        //     <aside class="red">sidebar</aside>
        //   </div>
        // </section>
        let html = r#"<section><header>title</header><div id="main"><p>content</p><aside class="red">sidebar</aside></div></section>"#;

        let doc = HtmlDoc::parse(html).unwrap().dom();
        let el = doc.root();
        let el = el.first_child().unwrap(); // section

        assert!(selector.matches_at(el.dom(), el.index()));
    }

    // section, header, div, p, aside
    test_match(SelectorList {
        selectors: vec![
            ComplexSelector {
                first: CompoundSelector {
                    element: Some(HtmlTag::section),
                    ..Default::default()
                },
                selectors: Vec::new(),
            },
            ComplexSelector {
                first: CompoundSelector {
                    element: Some(HtmlTag::header),
                    ..Default::default()
                },
                selectors: Vec::new(),
            },
            ComplexSelector {
                first: CompoundSelector {
                    element: Some(HtmlTag::div),
                    ..Default::default()
                },
                selectors: Vec::new(),
            },
            ComplexSelector {
                first: CompoundSelector {
                    element: Some(HtmlTag::p),
                    ..Default::default()
                },
                selectors: Vec::new(),
            },
            ComplexSelector {
                first: CompoundSelector {
                    element: Some(HtmlTag::aside),
                    ..Default::default()
                },
                selectors: Vec::new(),
            },
        ],
    });
}
#[test]
fn test_selector_list_matching_err() {
    fn test_match(selector: SelectorList) {
        // <section>
        //   <header>title</header>
        //   <div id="main">
        //     <p>content</p>
        //     <aside class="red">sidebar</aside>
        //   </div>
        // </section>
        let html = r#"<section><header>title</header><div id="main"><p>content</p><aside class="red">sidebar</aside></div></section>"#;

        let doc = HtmlDoc::parse(html).unwrap().dom();
        let el = doc.root();
        let el = el.first_child().unwrap(); // section

        assert!(!selector.matches_at(el.dom(), el.index()));
    }

    // section.blue, header > h1, div[title], p.red, aside.blue
    test_match(SelectorList {
        selectors: vec![
            ComplexSelector {
                first: CompoundSelector {
                    element: Some(HtmlTag::section),
                    classes: vec![ClassSelector::new("blue")],
                    ..Default::default()
                },
                selectors: Vec::new(),
            },
            ComplexSelector {
                first: CompoundSelector {
                    element: Some(HtmlTag::header),
                    ..Default::default()
                },
                selectors: vec![RelativeSelector {
                    combinator: Combinator::Child,
                    selector: CompoundSelector {
                        element: Some(HtmlTag::h1),
                        ..Default::default()
                    },
                }],
            },
            ComplexSelector {
                first: CompoundSelector {
                    element: Some(HtmlTag::div),
                    attributes: vec![AttributeSelector::new(AttributePattern {
                        name: AttributeName::Std(HtmlAttr::title),
                        value: None,
                    })],
                    ..Default::default()
                },
                selectors: Vec::new(),
            },
            ComplexSelector {
                first: CompoundSelector {
                    element: Some(HtmlTag::p),
                    classes: vec![ClassSelector::new("red")],
                    ..Default::default()
                },
                selectors: Vec::new(),
            },
            ComplexSelector {
                first: CompoundSelector {
                    element: Some(HtmlTag::aside),
                    classes: vec![ClassSelector::new("blue")],
                    ..Default::default()
                },
                selectors: Vec::new(),
            },
        ],
    });
}
#[test]
fn test_pseudo_class_matching_ok() {
    let html = "<div></div>";
    let doc = HtmlDoc::parse(html).unwrap().dom();
    let el = doc.root();

    let selector = PseudoClassSelector::Root;
    assert!(selector.matches_at(el.dom(), el.index()));

    let el = el.first_child().unwrap(); // div
    let selector = PseudoClassSelector::Empty;
    assert!(selector.matches_at(el.dom(), el.index()));

    let selector = PseudoClassSelector::FirstChild;
    assert!(selector.matches_at(el.dom(), el.index()));

    let selector = PseudoClassSelector::LastChild;
    assert!(selector.matches_at(el.dom(), el.index()));

    let selector = PseudoClassSelector::FirstOfType;
    assert!(selector.matches_at(el.dom(), el.index()));

    let selector = PseudoClassSelector::LastOfType;
    assert!(selector.matches_at(el.dom(), el.index()));

    let selector = PseudoClassSelector::OnlyOfType;
    assert!(selector.matches_at(el.dom(), el.index()));

    // :not(p, a > span)
    let selector = PseudoClassSelector::Not(SelectorList {
        selectors: vec![
            ComplexSelector {
                first: CompoundSelector {
                    element: Some(HtmlTag::p),
                    ..Default::default()
                },
                selectors: Vec::new(),
            },
            ComplexSelector {
                first: CompoundSelector {
                    element: Some(HtmlTag::a),
                    ..Default::default()
                },
                selectors: vec![RelativeSelector {
                    combinator: Combinator::Child,
                    selector: CompoundSelector {
                        element: Some(HtmlTag::span),
                        ..Default::default()
                    },
                }],
            },
        ],
    });
    assert!(selector.matches_at(el.dom(), el.index()));

    // :is(p > span, div)
    let selector = PseudoClassSelector::Is(SelectorList {
        selectors: vec![
            ComplexSelector {
                first: CompoundSelector {
                    element: Some(HtmlTag::p),
                    ..Default::default()
                },
                selectors: vec![RelativeSelector {
                    combinator: Combinator::Child,
                    selector: CompoundSelector {
                        element: Some(HtmlTag::span),
                        ..Default::default()
                    },
                }],
            },
            ComplexSelector {
                first: CompoundSelector {
                    element: Some(HtmlTag::div),
                    ..Default::default()
                },
                selectors: Vec::new(),
            },
        ],
    });
    assert!(selector.matches_at(el.dom(), el.index()));

    // <section>
    //   <header>title</header>
    //   <div id="main">
    //     <p>content</p>
    //     <aside class="red">sidebar</aside>
    //   </div>
    // </section>
    let html = r#"<section><header>title</header><div id="main"><p>content</p><aside class="red">sidebar</aside></div></section>"#;

    let doc = HtmlDoc::parse(html).unwrap().dom();
    let el = doc.root();
    let el = el.first_child().unwrap(); // section

    // :has(>header)
    let selector = PseudoClassSelector::Has(RelativeSelectorList {
        selectors: vec![ComplexRelativeSelector {
            selectors: vec![RelativeSelector {
                combinator: Combinator::Child,
                selector: CompoundSelector {
                    element: Some(HtmlTag::header),
                    ..Default::default()
                },
            }],
        }],
    });
    assert!(selector.matches_at(el.dom(), el.index()));

    // :has(aside)
    let selector = PseudoClassSelector::Has(RelativeSelectorList {
        selectors: vec![ComplexRelativeSelector {
            selectors: vec![RelativeSelector {
                combinator: Combinator::Descendant,
                selector: CompoundSelector {
                    element: Some(HtmlTag::aside),
                    ..Default::default()
                },
            }],
        }],
    });
    let el = doc.root();
    let el = el.first_child().unwrap(); // section
    assert!(selector.matches_at(el.dom(), el.index()));

    // :has(+div > p)
    let selector = PseudoClassSelector::Has(RelativeSelectorList {
        selectors: vec![ComplexRelativeSelector {
            selectors: vec![
                RelativeSelector {
                    combinator: Combinator::NextSibling,
                    selector: CompoundSelector {
                        element: Some(HtmlTag::div),
                        ..Default::default()
                    },
                },
                RelativeSelector {
                    combinator: Combinator::Child,
                    selector: CompoundSelector {
                        element: Some(HtmlTag::p),
                        ..Default::default()
                    },
                },
            ],
        }],
    });
    let el = doc.root();
    let el = el.first_child().unwrap(); // section
    let el = el.first_child().unwrap(); // header
    assert!(selector.matches_at(el.dom(), el.index()));

    // :has(>:not(p))
    let selector = PseudoClassSelector::Has(RelativeSelectorList {
        selectors: vec![ComplexRelativeSelector {
            selectors: vec![RelativeSelector {
                combinator: Combinator::Child,
                selector: CompoundSelector {
                    pseudo_classes: vec![PseudoClassSelector::Not(SelectorList {
                        selectors: vec![ComplexSelector {
                            first: CompoundSelector {
                                element: Some(HtmlTag::p),
                                id: None,
                                ..Default::default()
                            },
                            selectors: Vec::new(),
                        }],
                    })],
                    ..Default::default()
                },
            }],
        }],
    });
    let el = doc.root();
    let el = el.first_child().unwrap(); // section
    assert!(selector.matches_at(el.dom(), el.index()));

    // <div>
    //  <h1>1</h1>
    //  <p>2</p>
    //  <span>3</span>
    // </div>
    let html = r#"<div><h1></h1><p></p><span></span></div>"#;
    let doc = HtmlDoc::parse(html).unwrap().dom();
    let el = doc.root();
    let el = el.first_child().unwrap(); // div
    let el = el.last_child_all().unwrap(); // span

    // :nth-child(3)
    let selector = PseudoClassSelector::NthChild(OrdinalPattern::N(3));
    println!("{:?}", selector);
    assert!(selector.matches_at(el.dom(), el.index()));

    // <dl>
    //   <dt>Vegetables:</dt>
    //   <dd>1. Tomatoes</dd>
    //   <dd>2. Cucumbers</dd>
    //   <dd>3. Mushrooms</dd>
    //   <dt>Fruits:</dt>
    //   <dd>4. Apples</dd>
    //   <dd>5. Mangos</dd>
    //   <dd>6. Pears</dd>
    //   <dd>7. Oranges</dd>
    // </dl>
    let html = r#"<dl><dt>Vegetables:</dt><dd>1. Tomatoes</dd><dd>2. Cucumbers</dd><dd>3. Mushrooms</dd><dt>Fruits:</dt><dd>4. Apples</dd><dd>5. Mangos</dd><dd>6. Pears</dd><dd>7. Oranges</dd></dl>"#;
    let doc = HtmlDoc::parse(html).unwrap().dom();
    let el = doc.root();
    let el = el.first_child().unwrap(); // dl
    let el = el.last_child_all().unwrap(); // dd 7
    let el = el.prev_sibling().unwrap(); // dd 6
    let el = el.prev_sibling().unwrap(); // dd 5

    // :nth-of-type(5)
    let selector = PseudoClassSelector::NthOfType(OrdinalPattern::N(5));
    assert!(selector.matches_at(el.dom(), el.index()));
}
#[test]
fn test_pseudo_class_matching_err() {
    let html = "<div><p>1</p><p>2</p><p>3</p></div>";
    let doc = HtmlDoc::parse(html).unwrap().dom();
    let el = doc.root();
    let el = el.first_child().unwrap(); // div

    let selector = PseudoClassSelector::Root;
    assert!(!selector.matches_at(el.dom(), el.index()));

    let selector = PseudoClassSelector::Empty;
    assert!(!selector.matches_at(el.dom(), el.index()));

    let el = el.first_child().unwrap(); // p 1
    let el = el.next_sibling().unwrap(); // p 2

    let selector = PseudoClassSelector::FirstChild;
    assert!(!selector.matches_at(el.dom(), el.index()));

    let selector = PseudoClassSelector::LastChild;
    assert!(!selector.matches_at(el.dom(), el.index()));

    let selector = PseudoClassSelector::FirstOfType;
    assert!(!selector.matches_at(el.dom(), el.index()));

    let selector = PseudoClassSelector::LastOfType;
    assert!(!selector.matches_at(el.dom(), el.index()));

    let selector = PseudoClassSelector::OnlyOfType;
    assert!(!selector.matches_at(el.dom(), el.index()));

    // :not(a > span, p)
    let selector = PseudoClassSelector::Not(SelectorList {
        selectors: vec![
            ComplexSelector {
                first: CompoundSelector {
                    element: Some(HtmlTag::a),
                    ..Default::default()
                },
                selectors: vec![RelativeSelector {
                    combinator: Combinator::Child,
                    selector: CompoundSelector {
                        element: Some(HtmlTag::span),
                        ..Default::default()
                    },
                }],
            },
            ComplexSelector {
                first: CompoundSelector {
                    element: Some(HtmlTag::p),
                    ..Default::default()
                },
                selectors: Vec::new(),
            },
        ],
    });
    assert!(!selector.matches_at(el.dom(), el.index()));

    // is:(div, span)
    let selector = PseudoClassSelector::Is(SelectorList {
        selectors: vec![
            ComplexSelector {
                first: CompoundSelector {
                    element: Some(HtmlTag::div),
                    ..Default::default()
                },
                selectors: Vec::new(),
            },
            ComplexSelector {
                first: CompoundSelector {
                    element: Some(HtmlTag::span),
                    ..Default::default()
                },
                selectors: Vec::new(),
            },
        ],
    });
    assert!(!selector.matches_at(el.dom(), el.index()));

    // :has(+header)
    let selector = PseudoClassSelector::Has(RelativeSelectorList {
        selectors: vec![ComplexRelativeSelector {
            selectors: vec![RelativeSelector {
                combinator: Combinator::NextSibling,
                selector: CompoundSelector {
                    element: Some(HtmlTag::header),
                    ..Default::default()
                },
            }],
        }],
    });
    assert!(!selector.matches_at(el.dom(), el.index()));

    // :has(span)
    let selector = PseudoClassSelector::Has(RelativeSelectorList {
        selectors: vec![ComplexRelativeSelector {
            selectors: vec![RelativeSelector {
                combinator: Combinator::Descendant,
                selector: CompoundSelector {
                    element: Some(HtmlTag::span),
                    ..Default::default()
                },
            }],
        }],
    });
    let el = doc.root();
    let el = el.first_child().unwrap(); // div
    assert!(!selector.matches_at(el.dom(), el.index()));

    // :has(>:not(p))
    let selector = PseudoClassSelector::Has(RelativeSelectorList {
        selectors: vec![ComplexRelativeSelector {
            selectors: vec![RelativeSelector {
                combinator: Combinator::Child,
                selector: CompoundSelector {
                    pseudo_classes: vec![PseudoClassSelector::Not(SelectorList {
                        selectors: vec![ComplexSelector {
                            first: CompoundSelector {
                                element: Some(HtmlTag::p),
                                ..Default::default()
                            },
                            selectors: Vec::new(),
                        }],
                    })],
                    ..Default::default()
                },
            }],
        }],
    });
    let el = doc.root();
    let el = el.first_child().unwrap(); // div
    assert!(!selector.matches_at(el.dom(), el.index()));

    // <div>
    //  <h1>1</h1>
    //  <p>2</p>
    //  <span>3</span>
    // </div>
    let html = r#"<div><h1></h1><p></p><span></span></div>"#;
    let doc = HtmlDoc::parse(html).unwrap().dom();
    let el = doc.root();
    let el = el.first_child().unwrap(); // div
    let el = el.last_child_all().unwrap(); // span

    // :nth-child(4)
    let selector = PseudoClassSelector::NthChild(OrdinalPattern::N(4));
    assert!(!selector.matches_at(el.dom(), el.index()));

    // <dl>
    //   <dt>Vegetables:</dt>
    //   <dd>1. Tomatoes</dd>
    //   <dd>2. Cucumbers</dd>
    //   <dd>3. Mushrooms</dd>
    //   <dt>Fruits:</dt>
    //   <dd>4. Apples</dd>
    //   <dd>5. Mangos</dd>
    //   <dd>6. Pears</dd>
    //   <dd>7. Oranges</dd>
    // </dl>
    let html = r#"<dl><dt>Vegetables:</dt><dd>1. Tomatoes</dd><dd>2. Cucumbers</dd><dd>3. Mushrooms</dd><dt>Fruits:</dt><dd>4. Apples</dd><dd>5. Mangos</dd><dd>6. Pears</dd><dd>7. Oranges</dd></dl>"#;
    let doc = HtmlDoc::parse(html).unwrap().dom();
    let el = doc.root();
    let el = el.first_child().unwrap(); // dl
    let el = el.last_child_all().unwrap(); // dd 7
    let el = el.prev_sibling().unwrap(); // dd 6
    let el = el.prev_sibling().unwrap(); // dd 5

    // :nth-of-type(6)
    let selector = PseudoClassSelector::NthOfType(OrdinalPattern::N(6));
    assert!(!selector.matches_at(el.dom(), el.index()));
}