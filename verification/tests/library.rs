use htmlarc_dom::css::parse_css;
use htmlarc_dom::fmt::HtmlFormat;
use htmlarc_dom::html_doc::HtmlDoc;

fn select(html: &str, css: &str) -> Vec<String> {
    let doc = HtmlDoc::parse(html).unwrap().dom();
    doc.root()
        .select_css(css)
        .unwrap()
        .iter()
        .map(|el| el.tag_id_class())
        .collect()
}

#[test]
fn diagnosis_underlines_the_failing_position() {
    let css = "div, ";
    let err = parse_css(css).unwrap_err();
    let message = err.to_string();
    let diagnosis = err.diagnosis(css);
    assert_eq!(diagnosis, format!("div,\u{1b}[4m \u{1b}[0m\n└─ {}\n", message));
}

#[test]
fn diagnosis_draws_the_error_tree() {
    let css = "[src]img";
    let err = parse_css(css).unwrap_err();
    let diagnosis = err.diagnosis(css);
    let lines: Vec<&str> = diagnosis.lines().collect();
    assert_eq!(lines.len(), 4);
    assert!(lines[0].starts_with("\u{1b}[4m[\u{1b}[0m"));
    assert!(lines[1].starts_with("│    └"));
    assert!(lines[3].starts_with("└"));
}

#[test]
fn selection_comes_in_document_order_without_repeats() {
    let html = "<div><p id=\"a\"></p><div><p id=\"b\"></p></div><p id=\"c\"></p></div>";
    let doc = HtmlDoc::parse(html).unwrap().dom();
    let hits = doc.root().select_css("div p, p, div > p").unwrap();
    let indices: Vec<u32> = hits.iter().map(|e| e.index()).collect();
    assert_eq!(indices.len(), 3);
    assert!(indices.windows(2).all(|w| w[0] < w[1]));
    let names: Vec<String> = hits.iter().map(|e| e.tag_id_class()).collect();
    assert_eq!(names, ["p#a", "p#b", "p#c"]);
}

#[test]
fn selected_elements_match_and_others_do_not() {
    let html = "<ul><li class=\"x\">1</li><li>2</li><li class=\"x\">3</li></ul>";
    let doc = HtmlDoc::parse(html).unwrap().dom();
    let list = parse_css("li.x").unwrap();
    let picked: Vec<u32> = doc.root().select(&list).iter().map(|e| e.index()).collect();
    for el in doc.root().forwards() {
        assert_eq!(el.matches(&list), picked.contains(&el.index()));
    }
}

#[test]
fn not_and_is_are_complementary() {
    let html = "<div><p></p><span></span><a></a></div>";
    let is = select(html, "div > :is(p, a)");
    let not = select(html, "div > :not(p, a)");
    assert_eq!(is, ["p", "a"]);
    assert_eq!(not, ["span"]);
}

#[test]
fn case_insensitive_values_use_full_lowercase() {
    let html = "<p title=\"ÉTÉ\" id=\"x\"></p><p title=\"été\" id=\"y\"></p>";
    assert_eq!(select(html, "[title=\"été\" i]"), ["p#x", "p#y"]);
    assert_eq!(select(html, "[title=\"été\"]"), ["p#y"]);
}

#[test]
fn attribute_names_are_read_in_lowercase() {
    let html = "<DIV ID=\"Main\" Data-Key=\"v\"></DIV>";
    assert_eq!(select(html, "div"), ["div#Main"]);
    assert_eq!(select(html, "[data-key=\"v\"]"), ["div#Main"]);
}

#[test]
fn void_and_self_closing_elements_take_no_children() {
    let html = "<div><br><img src=\"x\" /><p>a</p></div>";
    assert_eq!(select(html, "div > p"), ["p"]);
    assert_eq!(select(html, "br + img + p"), ["p"]);
    let out = HtmlDoc::parse(html).unwrap().to_html(HtmlFormat::Raw);
    assert_eq!(out, "<div><br /><img src=\"x\" /><p>a</p></div>");
}

#[test]
fn end_tags_without_open_element_are_ignored() {
    let html = "<div>a</span>b</div><p>c</p>";
    let out = HtmlDoc::parse(html).unwrap().to_html(HtmlFormat::Raw);
    assert_eq!(out, "<div>ab</div><p>c</p>");
}

#[test]
fn doctype_and_classes_are_written_back() {
    let html = "<!DOCTYPE html><p class=\"a  b\" id=\"i\">x</p>";
    let out = HtmlDoc::parse(html).unwrap().to_html(HtmlFormat::Raw);
    assert_eq!(out, "<!DOCTYPE html><p class=\"a b\" id=\"i\">x</p>");
}

#[test]
fn empty_and_text_content_selectors() {
    let html = "<div id=\"e\"> </div><div id=\"t\">Tom &amp; Jerry</div>";
    assert_eq!(select(html, "div:empty"), ["div#e", "div#t"]);
    assert_eq!(select(html, "[text*=\"jerry\" i]"), Vec::<String>::new());
    assert_eq!(select(html, "[text*=\"Jerry\"]"), ["div#t"]);
}

#[test]
fn parse_errors_are_reported() {
    assert!(parse_css("").is_err());
    assert!(parse_css("div,").is_err());
    assert!(parse_css("p:nth-child(2n+)").is_err());
    assert!(parse_css(".a .b").is_ok());
}
