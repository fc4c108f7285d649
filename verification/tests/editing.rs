use htmlarc_dom::css::patterns::attribute_pattern::AttributeName;
use htmlarc_dom::dom::edit::reposition_cursor;
use htmlarc_dom::dom::{Attribute, DomInner};
use htmlarc_dom::fmt::HtmlFormat;
use htmlarc_dom::html::{HtmlAttr, HtmlTag};
use htmlarc_dom::html_doc::HtmlDoc;

fn parsed(html: &str) -> DomInner {
    HtmlDoc::parse(html).unwrap().dom()
}

/// The node reached from the root by taking, in turn, the first child (`'f'`), the
/// next sibling (`'n'`), the parent (`'p'`) or the last child of any kind (`'l'`).
fn walk(dom: &DomInner, steps: &str) -> u32 {
    let mut el = dom.root();
    for s in steps.chars() {
        el = match s {
            'f' => el.first_child(),
            'n' => el.next_sibling(),
            'p' => el.parent(),
            'l' => el.last_child_all(),
            _ => panic!("unknown step"),
        }
        .unwrap();
    }
    el.index()
}

fn raw(dom: &DomInner) -> String {
    dom.to_html(HtmlFormat::Raw)
}

#[test]
fn test_adding_space() {
    let mut html = parsed("<strong><b>a</b></strong><em><i>b</i></em>");
    let strong = walk(&html, "f");
    let em = walk(&html, "fn");
    html.insert_space_node_if_needed(Some(strong), Some(em));
    assert_eq!(
        raw(&html).trim(),
        "<strong><b>a</b></strong> <em><i>b</i></em>",
        "Should add space between inline elements"
    );

    let mut html = parsed("<strong><b>a </b></strong><em>b</em>");
    let strong = walk(&html, "f");
    let em = walk(&html, "fn");
    html.insert_space_node_if_needed(Some(strong), Some(em));
    assert_eq!(
        raw(&html),
        "<strong><b>a </b></strong><em>b</em>",
        "Should not add a space if the preceding element is ending with a space"
    );

    let mut html = parsed("<strong><b>a</b></strong><em> b</em>");
    let strong = walk(&html, "f");
    let em = walk(&html, "fn");
    html.insert_space_node_if_needed(Some(strong), Some(em));
    assert_eq!(
        raw(&html),
        "<strong><b>a</b></strong><em> b</em>",
        "Should not add a space if the following element is starting with a space"
    );

    let mut html = parsed("<div><b>a</b></div><em>b</em>");
    let div = walk(&html, "f");
    let em = walk(&html, "fn");
    html.insert_space_node_if_needed(Some(div), Some(em));
    assert_eq!(
        raw(&html),
        "<div><b>a</b></div><em>b</em>",
        "Should not add space between block and inline elements"
    );
}

#[test]
fn prune_body_element() {
    let mut html =
        parsed("<head><meta></head><section><div><body><p> </p>   <div> </div></body></div></section>");
    let el = walk(&html, "fn");
    let mut cursor = 0;
    html.prune(&mut cursor, el);
    assert_eq!(
        raw(&html),
        "<head><meta></head>",
        "Body element containing only whitespaces should be pruned along with all its ancestors that are empty"
    );
}

#[test]
fn prune_empty_block() {
    let mut html = parsed("<div><p></p><p> </p><p> </p></div>");
    let el = walk(&html, "f");
    let mut cursor = 0;
    html.prune(&mut cursor, el);
    assert_eq!(raw(&html), "", "Empty block element should be pruned");

    let mut html = parsed("<body><i>italic</i><section><div><p></p></div></section><b>bold</b></body>");
    let el = walk(&html, "ffnff");
    let mut cursor = 0;
    html.prune(&mut cursor, el);
    assert_eq!(
        raw(&html),
        "<body><i>italic</i> <b>bold</b></body>",
        "After pruning an empty block element, its ancestors should be pruned or replaced with a space if it's between inline elements"
    );
}

#[test]
fn prune_empty_elements() {
    let mut html = parsed("<a><i><b><sub></sub></b></i></a>");
    let el = walk(&html, "ffff");
    let mut cursor = 0;
    html.prune(&mut cursor, el);
    assert_eq!(
        raw(&html),
        "",
        "Empty elements should be pruned along with all their ancestors that are empty"
    );
}

#[test]
fn test_reposition_cursor() {
    let index = reposition_cursor(Some(0), Some(1), 2);
    assert_eq!(index, 0, "Should prioritize moving the cursor to the previous sibling");

    let index = reposition_cursor(None, Some(1), 2);
    assert_eq!(index, 1, "Should move the cursor to the next sibling if there is no previous sibling");

    let index = reposition_cursor(None, None, 2);
    assert_eq!(index, 2, "Should move the cursor to the parent if there are no siblings");
}

#[test]
fn repackage_after_emptying_a_class_list() {
    let mut dom = parsed(
        "<html class='root'><head></head><body><p class='keep me'>x</p><span class='drop'>y</span></body></html>",
    );
    let html_el = walk(&dom, "f");
    dom.remove_classes(html_el, |_: &Vec<char>| true);

    let html = raw(&dom.rebuild());
    assert!(!html.contains("class=\"root\""), "emptied <html> class should be gone: {html}");
    assert!(!html.contains("class=\"\""), "emptied list must not leave an empty class attr: {html}");
    assert!(html.contains("class=\"keep me\""), "<p> classes must survive: {html}");
    assert!(html.contains("class=\"drop\""), "<span> class must survive: {html}");
}

#[test]
fn append_to_element_without_existing_list() {
    let mut dom = parsed("<html><head></head><body></body></html>");

    let head = walk(&dom, "ff");
    let meta = dom.append_child(head, HtmlTag::meta);
    dom.append_attribute(
        meta,
        Attribute { name: AttributeName::Std(HtmlAttr::charset), value: "UTF-8".to_string() },
    );

    let body = walk(&dom, "ffn");
    dom.append_class(body, "added");

    let raw_html = raw(&dom);
    assert!(raw_html.contains("charset=\"UTF-8\""), "charset must persist: {raw_html}");
    assert!(raw_html.contains("class=\"added\""), "class must persist: {raw_html}");

    let repacked = raw(&dom.rebuild());
    assert!(repacked.contains("charset=\"UTF-8\""), "charset must survive repackage: {repacked}");
    assert!(repacked.contains("class=\"added\""), "class must survive repackage: {repacked}");
}

#[test]
fn repackage_after_emptying_an_attr_list() {
    let mut dom = parsed(
        "<html><head></head><body><a id='gone' href='/x'>link</a><p data-k='v'>keep</p></body></html>",
    );
    let anchor = dom.root().select_css("a").unwrap().first().unwrap().index();
    dom.remove_attributes(anchor, |_: &Attribute| true);

    let html = raw(&dom.rebuild());
    assert!(!html.contains("id=\"gone\""), "emptied <a> attributes should be gone: {html}");
    assert!(!html.contains("href=\"/x\""), "emptied <a> attributes should be gone: {html}");
    assert!(html.contains("data-k"), "<p> data attribute must survive: {html}");
}

#[test]
fn repackage_keeps_extended_attr_names_when_classes_compact() {
    let mut dom = parsed(
        "<html class='root'><body><p class='drop keep'>x</p><a data-mw='interface' wonky='yes' href='/x'>link</a></body></html>",
    );
    let p = dom.root().select_css("p").unwrap().first().unwrap().index();
    dom.remove_classes(p, |_: &Vec<char>| true);

    let html = raw(&dom.rebuild());
    assert!(html.contains("data-mw=\"interface\""), "extended name+value must survive symbol compaction: {html}");
    assert!(html.contains("wonky=\"yes\""), "unknown extended name+value must survive: {html}");
    assert!(html.contains("href=\"/x\""), "std attr must survive: {html}");
    assert!(html.contains("class=\"root\""), "the untouched <html> class must survive: {html}");
    assert!(!html.contains("drop"), "the emptied <p> class is gone: {html}");
}

#[test]
fn repackage_keeps_extended_tag_names_when_classes_compact() {
    let mut dom = parsed(
        "<html class='root'><body><p class='drop keep'>x</p><my-widget><data-card>c</data-card></my-widget></body></html>",
    );
    let p = dom.root().select_css("p").unwrap().first().unwrap().index();
    dom.remove_classes(p, |_: &Vec<char>| true);

    let html = raw(&dom.rebuild());
    assert!(html.contains("<my-widget>"), "custom element name must survive symbol compaction: {html}");
    assert!(html.contains("<data-card>"), "nested custom element name must survive: {html}");
    assert!(html.contains("class=\"root\""), "the untouched <html> class must survive: {html}");
    assert!(!html.contains("drop"), "the emptied <p> class is gone: {html}");
}

#[test]
fn repackage_re_derives_overflow_extended_tag_vocab() {
    let mut html_str = String::from("<div>");
    for i in 0..70u32 {
        html_str.push_str(&format!("<x-{i}>t</x-{i}>"));
    }
    html_str.push_str("</div>");

    let dom = parsed(&html_str);
    let repacked = raw(&dom.rebuild());
    for name in ["<x-0>", "<x-62>", "<x-63>", "<x-69>"] {
        assert!(repacked.contains(name), "{name} must survive repackage of the overflow vocab: {repacked}");
    }
}

#[test]
fn repackage_keeps_svg_subtree_when_classes_compact() {
    let mut dom = parsed(
        "<html class='root'><body><p class='drop keep'>x</p><svg viewBox='0 0 1 1'><clipPath><path d='M0 0'></path></clipPath></svg></body></html>",
    );
    let p = dom.root().select_css("p").unwrap().first().unwrap().index();
    dom.remove_classes(p, |_: &Vec<char>| true);

    let html = raw(&dom.rebuild());
    assert!(
        html.contains("<clipPath>") && html.contains("</clipPath>"),
        "svg child name and case must survive symbol compaction: {html}"
    );
    assert!(html.contains("viewBox=\"0 0 1 1\""), "svg attribute name and case must survive: {html}");
    assert!(html.contains("<path d=\"M0 0\">"), "nested svg element must survive: {html}");
    assert!(!html.contains("drop"), "the emptied <p> class is gone: {html}");
}

#[test]
fn replace_with_space() {
    let mut html = parsed("<strong>a</strong><em>b</em><div></div><i>c</i>");
    let strong = walk(&html, "f");
    let div = walk(&html, "fnn");
    html.replace_with(div, strong);
    assert_eq!(
        raw(&html),
        "<em>b</em> <strong>a</strong> <i>c</i>",
        "Should add a space before and after a replaced block element surrounded by inline elements"
    );

    let mut html = parsed("<strong>a</strong><em>b</em><div></div><p>c</p>");
    let strong = walk(&html, "f");
    let div = walk(&html, "fnn");
    html.replace_with(div, strong);
    assert_eq!(
        raw(&html),
        "<em>b</em> <strong>a</strong><p>c</p>",
        "Should add a space before a replaced block element preceded by an inline element"
    );

    let mut html = parsed("<strong>a</strong><aside>b</aside><div></div><i>c</i>");
    let strong = walk(&html, "f");
    let div = walk(&html, "fnn");
    html.replace_with(div, strong);
    assert_eq!(
        raw(&html),
        "<aside>b</aside><strong>a</strong> <i>c</i>",
        "Should add a space after a replaced block element followed by an inline element"
    );
}

#[test]
fn unwrap_and_prune() {
    let mut html = parsed(
        "<body><details><p>paragraph</p><summary></summary><summary>texts</summary></details></body>",
    );
    let el = walk(&html, "ff");
    html.unwrap_element(el);
    assert_eq!(
        raw(&html),
        "<body><p>paragraph</p></body>",
        "Summary elements should be pruned when their Details parent has been unwrapped"
    );

    let mut html = parsed("<body><i>italic</i><section><div><p></p></div></section></body>");
    let el = walk(&html, "ffnff");
    html.unwrap_element(el);
    assert_eq!(
        raw(&html),
        "<body><i>italic</i></body>",
        "After unwrapping an empty element, its parent should be pruned as well"
    );

    let mut html =
        parsed("<body><i>italic</i><section><div><span>   </span><p></p></div><b> </b></section></body>");
    let el = walk(&html, "ffnffn");
    html.unwrap_element(el);
    assert_eq!(
        raw(&html),
        "<body><i>italic</i></body>",
        "After unwrapping an empty element, its parent should be pruned as well if they only contain white spaces"
    );

    let mut html = parsed("<body><i>italic</i><section><div><p></p></div></section><b>bold</b></body>");
    let el = walk(&html, "ffnff");
    html.unwrap_element(el);
    assert_eq!(
        raw(&html),
        "<body><i>italic</i> <b>bold</b></body>",
        "After unwraping and pruning an empty element, replace it with a space if it's a block element between inline elements"
    );
}

#[test]
fn replace_and_prune() {
    let mut html =
        parsed("<body><section><div><p>paragraph</p></div></section><article><img></article></body>");
    let p = walk(&html, "ffff");
    let img = walk(&html, "ffffppnl");
    html.replace_with(img, p);
    assert_eq!(
        raw(&html),
        "<body><article><p>paragraph</p></article></body>",
        "After replacing an element, the replacement's original parent and ancestors should be pruned if empty"
    );

    let mut html = parsed(
        "<body><section><div><p>paragraph</p><span>  </span></div><i> </i></section><article><img></article></body>",
    );
    let p = walk(&html, "ffff");
    let img = walk(&html, "ffffppnf");
    html.replace_with(img, p);
    assert_eq!(
        raw(&html),
        "<body><article><p>paragraph</p></article></body>",
        "After replacing an element, the replacement's original parent and ancestors should be pruned if they only contain white spaces"
    );

    let mut html = parsed(
        "<body><i>italic</i><section><div><p>paragraph</p></div></section><b>bold</b><article><img></article></body>",
    );
    let p = walk(&html, "ffnff");
    let img = walk(&html, "ffnffppnnf");
    html.replace_with(img, p);
    assert_eq!(
        raw(&html),
        "<body><i>italic</i> <b>bold</b><article><p>paragraph</p></article></body>",
        "After replacing an element, the replacement's original parent and ancestors should be pruned and replaced with a space if the outer parent is a block element in between inline elements"
    );
}

#[test]
fn remove_children() {
    let mut html = parsed("<body><i>italic</i><section><div><p>paragraph</p></div></section></body>");
    let el = walk(&html, "ffn");
    assert_eq!(html.tag(el), HtmlTag::section);
    html.remove_children(el);
    assert_eq!(
        raw(&html),
        "<body><i>italic</i><section></section></body>",
        "No children left"
    );
}

#[test]
fn remove_and_prune() {
    let mut html = parsed("<body><i>italic</i><section><div><p></p></div></section></body>");
    let el = walk(&html, "ffnff");
    let cursor = html.remove(el).unwrap();
    assert_eq!(
        raw(&html),
        "<body><i>italic</i></body>",
        "After removing an element, its parent should be pruned if they are empty"
    );
    assert_eq!(html.tag(cursor), HtmlTag::i, "The element cursor should be repositioned");

    let mut html =
        parsed("<body><i>italic</i><section><b> </b><div><p></p><span> </span></div></section></body>");
    let el = walk(&html, "ffnlf");
    html.remove(el);
    assert_eq!(
        raw(&html),
        "<body><i>italic</i></body>",
        "After removing an element, its parent should be pruned if the outer parent contains only white spaces"
    );

    let mut html = parsed("<body><i>italic</i><section><div><p></p></div></section><b>bold</b></body>");
    let el = walk(&html, "ffnff");
    html.remove(el);
    assert_eq!(
        raw(&html),
        "<body><i>italic</i> <b>bold</b></body>",
        "After removing an element, its parent should be pruned and replaced with a space if the outer parent is a block element in between inline elements"
    );
}

#[test]
fn simple_html_raw() {
    const SIMPLE_HTML: &str =
        r#"<body><div class="cls1 cls2"><p>hello</p></div><br /><span>more</span></body>"#;
    let html = HtmlDoc::parse(SIMPLE_HTML).unwrap();
    assert_eq!(html.to_html(HtmlFormat::Raw), SIMPLE_HTML);
}

#[test]
fn inline_html_raw() {
    const HTML_INLINE: &str =
        r#"<body><div><b>hello <i>there</i></b> <strong>friend</strong></div><p>ship</p></body>"#;
    let html = HtmlDoc::parse(HTML_INLINE).unwrap();
    assert_eq!(html.to_html(HtmlFormat::Raw), HTML_INLINE);
}

#[test]
fn formatting_whitespace_goes() {
    let mut html = parsed("<div>\n\t<p>one\ttwo\nthree</p>\n</div>");
    html.remove_formatting();
    assert_eq!(raw(&html), "<div><p>onetwo three</p></div>");
}

#[test]
fn rebuild_renders_the_same() {
    let dom = parsed("<div id=\"x\" class=\"a b\"><p>t &amp; u</p><!--c--><br /></div>");
    let rebuilt = dom.rebuild();
    assert_eq!(raw(&rebuilt), raw(&dom));
    assert!(rebuilt.len() <= dom.len());
}

#[test]
fn test_attrs() {
    let mut inner = DomInner::new();
    let div_a = inner.append_child(0, HtmlTag::div);
    inner.append_class(div_a, "a");

    assert!(inner.attributes(div_a).is_empty());
}

#[test]
fn complex_selector_needs_every_compound_in_the_chain() {
    let dom = parsed("<section><div><div><p>x</p></div></div></section>");
    let root = dom.root();
    assert!(root.select_css("section article div p").unwrap().is_empty());
    assert_eq!(root.select_css("section div p").unwrap().len(), 1);
    assert_eq!(root.select_css("section div div p").unwrap().len(), 1);
    assert!(root.select_css("section div div div p").unwrap().is_empty());
}

#[test]
fn complex_selector_tries_every_ancestor_afresh() {
    // The nearest `div` above `p` has no `.x` parent; the one above it has.
    let dom = parsed("<div class=\"x\"><div><div><p>x</p></div></div></div>");
    let root = dom.root();
    assert_eq!(root.select_css(".x > div p").unwrap().len(), 1);
    assert_eq!(root.select_css(".x > div > div > p").unwrap().len(), 1);
    assert!(root.select_css(".x > div > p").unwrap().is_empty());
}

#[test]
fn has_follows_links_after_an_edit() {
    let mut dom = parsed("<a></a><div><p></p></div>");
    let a = walk(&dom, "f");
    let p = walk(&dom, "fnf");
    dom.replace_with(p, a);
    assert_eq!(raw(&dom), "<div><a></a></div>");
    let root = dom.root();
    assert_eq!(root.select_css("div:has(> a)").unwrap().len(), 1);
    assert_eq!(root.select_css("div > a").unwrap().len(), 1);
    let div = root.select_css("div").unwrap();
    assert_eq!(div.len(), 1);
    assert_eq!(div[0].first_child().unwrap().index(), a);
}

#[test]
fn text_content_follows_links_after_an_edit() {
    let mut dom = parsed("<b>one</b><div><p>two</p></div>");
    let b = walk(&dom, "f");
    let p = walk(&dom, "fnf");
    dom.replace_with(p, b);
    let root = dom.root();
    assert_eq!(root.select_css("div[text*=\"one\"]").unwrap().len(), 1);
}

#[test]
fn rebuild_numbers_reachable_nodes_in_document_order() {
    let mut dom = parsed("<a></a><div><p></p></div><span>t</span>");
    let a = walk(&dom, "f");
    let p = walk(&dom, "fnf");
    dom.replace_with(p, a);
    let rebuilt = dom.rebuild();
    assert_eq!(raw(&rebuilt), raw(&dom));
    // the root, then div, a, span and its text: the removed p is gone
    assert_eq!(rebuilt.len(), 5);
    assert_eq!(walk(&rebuilt, "f"), 1);
    assert_eq!(walk(&rebuilt, "ff"), 2);
    assert_eq!(walk(&rebuilt, "fn"), 3);
    assert_eq!(rebuilt.root().select_css("div > a").unwrap()[0].index(), 2);
}

#[test]
fn removed_and_unwrapped_nodes_are_no_longer_selected() {
    let mut dom = parsed("<div><p>x</p><span><b>y</b></span></div>");
    let p = walk(&dom, "ff");
    dom.remove(p);
    assert!(dom.root().select_css("p").unwrap().is_empty());
    assert_eq!(dom.root().select_css("div > span").unwrap().len(), 1);
    let span = walk(&dom, "ff");
    dom.unwrap_element(span);
    assert!(dom.root().select_css("span").unwrap().is_empty());
    assert_eq!(dom.root().select_css("div > b").unwrap().len(), 1);
    assert_eq!(raw(&dom), "<div><b>y</b></div>");
}

#[test]
fn rebuild_keeps_html_of_an_edited_document() {
    let mut dom = parsed("<p class=\"a b\" data-k=\"v\">x<x-tag id=\"i\">y</x-tag></p><div><span>z</span></div>");
    let span = walk(&dom, "fnf");
    let p = walk(&dom, "f");
    dom.replace_with(span, p);
    let rebuilt = dom.rebuild();
    assert!(rebuilt.len() + 1 < 16777212);
    assert_eq!(raw(&rebuilt), raw(&dom));
    assert_eq!(raw(&rebuilt), "<div><p class=\"a b\" data-k=\"v\">x<x-tag id=\"i\">y</x-tag></p></div>");
}
