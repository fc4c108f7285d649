use htmlarc_dom::css::patterns::attribute_pattern::AttributeName;
use htmlarc_dom::html::HtmlAttr;
use htmlarc_dom::html_doc::HtmlDoc;
use htmlarc_dom::dom::Attribute;
use htmlarc_dom::fmt::HtmlFormat;

#[test]
fn test_attr_iter() {
    const HTML: &str = r###"<body style="color: blue"></body>"###;

    let html = HtmlDoc::parse(HTML).unwrap();
    let dom = html.dom();
    let mut iter = dom.root().forwards().into_iter();
    let el = iter.next().unwrap(); // body
    let mut attrs = el.attributes().into_iter();

    let v = attrs
        .find(|a| matches!(a.name, AttributeName::Std(HtmlAttr::style)))
        .map(|a| a.value);
    assert_eq!(v.as_deref(), Some("color: blue"));
}

#[test]
fn attributes_test_data_attr_iter() {
    // `data-*` and unknown names are ordinary extended attributes now.
    const HTML: &str = r###"<body data-hi="ho" wonky="yes"></body>"###;

    let html = HtmlDoc::parse(HTML).unwrap();
    let dom = html.dom();
    let root = dom.root();
    let mut iter = root.forwards().into_iter();
    let el = iter.next().unwrap(); // body
    let mut attrs = el.attributes().into_iter();

    let v = attrs
        .find(|a| matches!(&a.name, AttributeName::Ext(n) if n == "data-hi"))
        .map(|a| a.value);
    assert_eq!(v.as_deref(), Some("ho"));
}

#[test]
fn test_classes_iter() {
    const HTML: &str = r###"<body class="mw-hi bla"></body>"###;

    let html = HtmlDoc::parse(HTML).unwrap();
    let dom = html.dom();
    let mut iter = dom.root().forwards().into_iter();
    let el = iter.next().unwrap(); // body
    let mut classes = el.classes().into_iter();

    let v = classes.find(|c| c.starts_with("mw"));
    assert_eq!(v.as_deref(), Some("mw-hi"));
}

#[test]
fn dataattributes_test_data_attr_iter() {
    const HTML: &str = r###"<body data-hi="ho"></body>"###;

    let html = HtmlDoc::parse(HTML).unwrap();
    let dom = html.dom();
    let root = dom.root();
    let mut iter = root.forwards().into_iter();
    let el = iter.next().unwrap(); // body
    let mut d_attrs = el.data_attributes().into_iter();

    let v = d_attrs.find(|a| a.tag == "hi").map(|a| a.val);
    assert_eq!(v.as_deref(), Some("ho"));
}

#[test]
fn attributes_test_attr_mut() {
    const HTML: &str = r###"<body style="color: blue"></body>"###;

    let mut dom = HtmlDoc::parse(HTML).unwrap().dom();
    let body = dom.root().first_child().unwrap().index();
    dom.remove_attributes(body, |a: &Attribute| matches!(a.name, AttributeName::Std(HtmlAttr::style)));

    assert_eq!(dom.to_html(HtmlFormat::Raw), "<body></body>");
}

#[test]
fn classes_test_attr_mut() {
    const HTML: &str = r###"<body class="mw-hi bla"></body>"###;

    let mut dom = HtmlDoc::parse(HTML).unwrap().dom();
    let body = dom.root().first_child().unwrap().index();
    dom.remove_classes(body, |c: &Vec<char>| c.iter().collect::<String>() == "mw-hi");

    assert_eq!(dom.to_html(HtmlFormat::Raw), r###"<body class="bla"></body>"###);
}

#[test]
fn dataattributes_test_attr_mut() {
    const HTML: &str = r###"<body data-hi="ho"></body>"###;

    let mut dom = HtmlDoc::parse(HTML).unwrap().dom();
    let body = dom.root().first_child().unwrap().index();
    dom.remove_attributes(body, |a: &Attribute| match &a.name {
        AttributeName::Ext(n) => n == "data-hi",
        _ => false,
    });

    assert_eq!(dom.to_html(HtmlFormat::Raw), "<body></body>");
}
