//! The vocabulary of HTML: element tags and attribute names.
use vstd::prelude::*;

use crate::text::chars_of;

verus! {

/// An element tag. The `sys_` tags mark the document root, text, comments, the doctype
/// and elements whose names are not in this list.
#[allow(non_camel_case_types)]
#[derive(Debug, Clone, Copy, PartialEq, Eq, Structural, Hash)]
pub enum HtmlTag {
    a,
    abbr,
    address,
    area,
    article,
    aside,
    audio,
    b,
    base,
    bdi,
    bdo,
    blockquote,
    body,
    br,
    button,
    canvas,
    caption,
    center,
    cite,
    code,
    col,
    colgroup,
    data,
    datalist,
    dd,
    del,
    details,
    dfn,
    dialog,
    div,
    dl,
    dt,
    em,
    embed,
    fieldset,
    figcaption,
    figure,
    font,
    footer,
    form,
    h1,
    h2,
    h3,
    h4,
    h5,
    h6,
    head,
    header,
    hgroup,
    hr,
    html,
    i,
    iframe,
    img,
    input,
    ins,
    kbd,
    label,
    legend,
    li,
    link,
    main,
    map,
    mark,
    math,
    menu,
    meta,
    meter,
    nav,
    noscript,
    object,
    ol,
    optgroup,
    option,
    output,
    p,
    param,
    picture,
    pre,
    progress,
    q,
    rp,
    rt,
    ruby,
    s,
    samp,
    script,
    search,
    section,
    select,
    slot,
    small,
    source,
    span,
    strong,
    style,
    sub,
    summary,
    sup,
    svg,
    table,
    tbody,
    td,
    template,
    textarea,
    tfoot,
    th,
    thead,
    time,
    title,
    tr,
    track,
    u,
    ul,
    var,
    video,
    wbr,
    sys_root,
    sys_text,
    sys_comment,
    sys_doctype,
    sys_ext,
}

/// Number of [`HtmlTag`] values.
pub const TAG_COUNT: usize = 122;

/// The name of a [`HtmlTag`] as written in a document.
pub open spec fn htmltag_name(t: HtmlTag) -> Seq<char> {
    match t {
        HtmlTag::a => "a"@,
        HtmlTag::abbr => "abbr"@,
        HtmlTag::address => "address"@,
        HtmlTag::area => "area"@,
        HtmlTag::article => "article"@,
        HtmlTag::aside => "aside"@,
        HtmlTag::audio => "audio"@,
        HtmlTag::b => "b"@,
        HtmlTag::base => "base"@,
        HtmlTag::bdi => "bdi"@,
        HtmlTag::bdo => "bdo"@,
        HtmlTag::blockquote => "blockquote"@,
        HtmlTag::body => "body"@,
        HtmlTag::br => "br"@,
        HtmlTag::button => "button"@,
        HtmlTag::canvas => "canvas"@,
        HtmlTag::caption => "caption"@,
        HtmlTag::center => "center"@,
        HtmlTag::cite => "cite"@,
        HtmlTag::code => "code"@,
        HtmlTag::col => "col"@,
        HtmlTag::colgroup => "colgroup"@,
        HtmlTag::data => "data"@,
        HtmlTag::datalist => "datalist"@,
        HtmlTag::dd => "dd"@,
        HtmlTag::del => "del"@,
        HtmlTag::details => "details"@,
        HtmlTag::dfn => "dfn"@,
        HtmlTag::dialog => "dialog"@,
        HtmlTag::div => "div"@,
        HtmlTag::dl => "dl"@,
        HtmlTag::dt => "dt"@,
        HtmlTag::em => "em"@,
        HtmlTag::embed => "embed"@,
        HtmlTag::fieldset => "fieldset"@,
        HtmlTag::figcaption => "figcaption"@,
        HtmlTag::figure => "figure"@,
        HtmlTag::font => "font"@,
        HtmlTag::footer => "footer"@,
        HtmlTag::form => "form"@,
        HtmlTag::h1 => "h1"@,
        HtmlTag::h2 => "h2"@,
        HtmlTag::h3 => "h3"@,
        HtmlTag::h4 => "h4"@,
        HtmlTag::h5 => "h5"@,
        HtmlTag::h6 => "h6"@,
        HtmlTag::head => "head"@,
        HtmlTag::header => "header"@,
        HtmlTag::hgroup => "hgroup"@,
        HtmlTag::hr => "hr"@,
        HtmlTag::html => "html"@,
        HtmlTag::i => "i"@,
        HtmlTag::iframe => "iframe"@,
        HtmlTag::img => "img"@,
        HtmlTag::input => "input"@,
        HtmlTag::ins => "ins"@,
        HtmlTag::kbd => "kbd"@,
        HtmlTag::label => "label"@,
        HtmlTag::legend => "legend"@,
        HtmlTag::li => "li"@,
        HtmlTag::link => "link"@,
        HtmlTag::main => "main"@,
        HtmlTag::map => "map"@,
        HtmlTag::mark => "mark"@,
        HtmlTag::math => "math"@,
        HtmlTag::menu => "menu"@,
        HtmlTag::meta => "meta"@,
        HtmlTag::meter => "meter"@,
        HtmlTag::nav => "nav"@,
        HtmlTag::noscript => "noscript"@,
        HtmlTag::object => "object"@,
        HtmlTag::ol => "ol"@,
        HtmlTag::optgroup => "optgroup"@,
        HtmlTag::option => "option"@,
        HtmlTag::output => "output"@,
        HtmlTag::p => "p"@,
        HtmlTag::param => "param"@,
        HtmlTag::picture => "picture"@,
        HtmlTag::pre => "pre"@,
        HtmlTag::progress => "progress"@,
        HtmlTag::q => "q"@,
        HtmlTag::rp => "rp"@,
        HtmlTag::rt => "rt"@,
        HtmlTag::ruby => "ruby"@,
        HtmlTag::s => "s"@,
        HtmlTag::samp => "samp"@,
        HtmlTag::script => "script"@,
        HtmlTag::search => "search"@,
        HtmlTag::section => "section"@,
        HtmlTag::select => "select"@,
        HtmlTag::slot => "slot"@,
        HtmlTag::small => "small"@,
        HtmlTag::source => "source"@,
        HtmlTag::span => "span"@,
        HtmlTag::strong => "strong"@,
        HtmlTag::style => "style"@,
        HtmlTag::sub => "sub"@,
        HtmlTag::summary => "summary"@,
        HtmlTag::sup => "sup"@,
        HtmlTag::svg => "svg"@,
        HtmlTag::table => "table"@,
        HtmlTag::tbody => "tbody"@,
        HtmlTag::td => "td"@,
        HtmlTag::template => "template"@,
        HtmlTag::textarea => "textarea"@,
        HtmlTag::tfoot => "tfoot"@,
        HtmlTag::th => "th"@,
        HtmlTag::thead => "thead"@,
        HtmlTag::time => "time"@,
        HtmlTag::title => "title"@,
        HtmlTag::tr => "tr"@,
        HtmlTag::track => "track"@,
        HtmlTag::u => "u"@,
        HtmlTag::ul => "ul"@,
        HtmlTag::var => "var"@,
        HtmlTag::video => "video"@,
        HtmlTag::wbr => "wbr"@,
        HtmlTag::sys_root => "#root"@,
        HtmlTag::sys_text => "#text"@,
        HtmlTag::sys_comment => "#comment"@,
        HtmlTag::sys_doctype => "!DOCTYPE"@,
        HtmlTag::sys_ext => "#ext"@,
    }
}

/// The position of a [`HtmlTag`] in the list of all of them.
pub open spec fn htmltag_index(t: HtmlTag) -> nat {
    match t {
        HtmlTag::a => 0,
        HtmlTag::abbr => 1,
        HtmlTag::address => 2,
        HtmlTag::area => 3,
        HtmlTag::article => 4,
        HtmlTag::aside => 5,
        HtmlTag::audio => 6,
        HtmlTag::b => 7,
        HtmlTag::base => 8,
        HtmlTag::bdi => 9,
        HtmlTag::bdo => 10,
        HtmlTag::blockquote => 11,
        HtmlTag::body => 12,
        HtmlTag::br => 13,
        HtmlTag::button => 14,
        HtmlTag::canvas => 15,
        HtmlTag::caption => 16,
        HtmlTag::center => 17,
        HtmlTag::cite => 18,
        HtmlTag::code => 19,
        HtmlTag::col => 20,
        HtmlTag::colgroup => 21,
        HtmlTag::data => 22,
        HtmlTag::datalist => 23,
        HtmlTag::dd => 24,
        HtmlTag::del => 25,
        HtmlTag::details => 26,
        HtmlTag::dfn => 27,
        HtmlTag::dialog => 28,
        HtmlTag::div => 29,
        HtmlTag::dl => 30,
        HtmlTag::dt => 31,
        HtmlTag::em => 32,
        HtmlTag::embed => 33,
        HtmlTag::fieldset => 34,
        HtmlTag::figcaption => 35,
        HtmlTag::figure => 36,
        HtmlTag::font => 37,
        HtmlTag::footer => 38,
        HtmlTag::form => 39,
        HtmlTag::h1 => 40,
        HtmlTag::h2 => 41,
        HtmlTag::h3 => 42,
        HtmlTag::h4 => 43,
        HtmlTag::h5 => 44,
        HtmlTag::h6 => 45,
        HtmlTag::head => 46,
        HtmlTag::header => 47,
        HtmlTag::hgroup => 48,
        HtmlTag::hr => 49,
        HtmlTag::html => 50,
        HtmlTag::i => 51,
        HtmlTag::iframe => 52,
        HtmlTag::img => 53,
        HtmlTag::input => 54,
        HtmlTag::ins => 55,
        HtmlTag::kbd => 56,
        HtmlTag::label => 57,
        HtmlTag::legend => 58,
        HtmlTag::li => 59,
        HtmlTag::link => 60,
        HtmlTag::main => 61,
        HtmlTag::map => 62,
        HtmlTag::mark => 63,
        HtmlTag::math => 64,
        HtmlTag::menu => 65,
        HtmlTag::meta => 66,
        HtmlTag::meter => 67,
        HtmlTag::nav => 68,
        HtmlTag::noscript => 69,
        HtmlTag::object => 70,
        HtmlTag::ol => 71,
        HtmlTag::optgroup => 72,
        HtmlTag::option => 73,
        HtmlTag::output => 74,
        HtmlTag::p => 75,
        HtmlTag::param => 76,
        HtmlTag::picture => 77,
        HtmlTag::pre => 78,
        HtmlTag::progress => 79,
        HtmlTag::q => 80,
        HtmlTag::rp => 81,
        HtmlTag::rt => 82,
        HtmlTag::ruby => 83,
        HtmlTag::s => 84,
        HtmlTag::samp => 85,
        HtmlTag::script => 86,
        HtmlTag::search => 87,
        HtmlTag::section => 88,
        HtmlTag::select => 89,
        HtmlTag::slot => 90,
        HtmlTag::small => 91,
        HtmlTag::source => 92,
        HtmlTag::span => 93,
        HtmlTag::strong => 94,
        HtmlTag::style => 95,
        HtmlTag::sub => 96,
        HtmlTag::summary => 97,
        HtmlTag::sup => 98,
        HtmlTag::svg => 99,
        HtmlTag::table => 100,
        HtmlTag::tbody => 101,
        HtmlTag::td => 102,
        HtmlTag::template => 103,
        HtmlTag::textarea => 104,
        HtmlTag::tfoot => 105,
        HtmlTag::th => 106,
        HtmlTag::thead => 107,
        HtmlTag::time => 108,
        HtmlTag::title => 109,
        HtmlTag::tr => 110,
        HtmlTag::track => 111,
        HtmlTag::u => 112,
        HtmlTag::ul => 113,
        HtmlTag::var => 114,
        HtmlTag::video => 115,
        HtmlTag::wbr => 116,
        HtmlTag::sys_root => 117,
        HtmlTag::sys_text => 118,
        HtmlTag::sys_comment => 119,
        HtmlTag::sys_doctype => 120,
        HtmlTag::sys_ext => 121,
    }
}

/// The [`HtmlTag`] at position `i` of the list of all of them.
pub open spec fn htmltag_at(i: nat) -> HtmlTag {
    if i == 0 {
        HtmlTag::a
    } else if i == 1 {
        HtmlTag::abbr
    } else if i == 2 {
        HtmlTag::address
    } else if i == 3 {
        HtmlTag::area
    } else if i == 4 {
        HtmlTag::article
    } else if i == 5 {
        HtmlTag::aside
    } else if i == 6 {
        HtmlTag::audio
    } else if i == 7 {
        HtmlTag::b
    } else if i == 8 {
        HtmlTag::base
    } else if i == 9 {
        HtmlTag::bdi
    } else if i == 10 {
        HtmlTag::bdo
    } else if i == 11 {
        HtmlTag::blockquote
    } else if i == 12 {
        HtmlTag::body
    } else if i == 13 {
        HtmlTag::br
    } else if i == 14 {
        HtmlTag::button
    } else if i == 15 {
        HtmlTag::canvas
    } else if i == 16 {
        HtmlTag::caption
    } else if i == 17 {
        HtmlTag::center
    } else if i == 18 {
        HtmlTag::cite
    } else if i == 19 {
        HtmlTag::code
    } else if i == 20 {
        HtmlTag::col
    } else if i == 21 {
        HtmlTag::colgroup
    } else if i == 22 {
        HtmlTag::data
    } else if i == 23 {
        HtmlTag::datalist
    } else if i == 24 {
        HtmlTag::dd
    } else if i == 25 {
        HtmlTag::del
    } else if i == 26 {
        HtmlTag::details
    } else if i == 27 {
        HtmlTag::dfn
    } else if i == 28 {
        HtmlTag::dialog
    } else if i == 29 {
        HtmlTag::div
    } else if i == 30 {
        HtmlTag::dl
    } else if i == 31 {
        HtmlTag::dt
    } else if i == 32 {
        HtmlTag::em
    } else if i == 33 {
        HtmlTag::embed
    } else if i == 34 {
        HtmlTag::fieldset
    } else if i == 35 {
        HtmlTag::figcaption
    } else if i == 36 {
        HtmlTag::figure
    } else if i == 37 {
        HtmlTag::font
    } else if i == 38 {
        HtmlTag::footer
    } else if i == 39 {
        HtmlTag::form
    } else if i == 40 {
        HtmlTag::h1
    } else if i == 41 {
        HtmlTag::h2
    } else if i == 42 {
        HtmlTag::h3
    } else if i == 43 {
        HtmlTag::h4
    } else if i == 44 {
        HtmlTag::h5
    } else if i == 45 {
        HtmlTag::h6
    } else if i == 46 {
        HtmlTag::head
    } else if i == 47 {
        HtmlTag::header
    } else if i == 48 {
        HtmlTag::hgroup
    } else if i == 49 {
        HtmlTag::hr
    } else if i == 50 {
        HtmlTag::html
    } else if i == 51 {
        HtmlTag::i
    } else if i == 52 {
        HtmlTag::iframe
    } else if i == 53 {
        HtmlTag::img
    } else if i == 54 {
        HtmlTag::input
    } else if i == 55 {
        HtmlTag::ins
    } else if i == 56 {
        HtmlTag::kbd
    } else if i == 57 {
        HtmlTag::label
    } else if i == 58 {
        HtmlTag::legend
    } else if i == 59 {
        HtmlTag::li
    } else if i == 60 {
        HtmlTag::link
    } else if i == 61 {
        HtmlTag::main
    } else if i == 62 {
        HtmlTag::map
    } else if i == 63 {
        HtmlTag::mark
    } else if i == 64 {
        HtmlTag::math
    } else if i == 65 {
        HtmlTag::menu
    } else if i == 66 {
        HtmlTag::meta
    } else if i == 67 {
        HtmlTag::meter
    } else if i == 68 {
        HtmlTag::nav
    } else if i == 69 {
        HtmlTag::noscript
    } else if i == 70 {
        HtmlTag::object
    } else if i == 71 {
        HtmlTag::ol
    } else if i == 72 {
        HtmlTag::optgroup
    } else if i == 73 {
        HtmlTag::option
    } else if i == 74 {
        HtmlTag::output
    } else if i == 75 {
        HtmlTag::p
    } else if i == 76 {
        HtmlTag::param
    } else if i == 77 {
        HtmlTag::picture
    } else if i == 78 {
        HtmlTag::pre
    } else if i == 79 {
        HtmlTag::progress
    } else if i == 80 {
        HtmlTag::q
    } else if i == 81 {
        HtmlTag::rp
    } else if i == 82 {
        HtmlTag::rt
    } else if i == 83 {
        HtmlTag::ruby
    } else if i == 84 {
        HtmlTag::s
    } else if i == 85 {
        HtmlTag::samp
    } else if i == 86 {
        HtmlTag::script
    } else if i == 87 {
        HtmlTag::search
    } else if i == 88 {
        HtmlTag::section
    } else if i == 89 {
        HtmlTag::select
    } else if i == 90 {
        HtmlTag::slot
    } else if i == 91 {
        HtmlTag::small
    } else if i == 92 {
        HtmlTag::source
    } else if i == 93 {
        HtmlTag::span
    } else if i == 94 {
        HtmlTag::strong
    } else if i == 95 {
        HtmlTag::style
    } else if i == 96 {
        HtmlTag::sub
    } else if i == 97 {
        HtmlTag::summary
    } else if i == 98 {
        HtmlTag::sup
    } else if i == 99 {
        HtmlTag::svg
    } else if i == 100 {
        HtmlTag::table
    } else if i == 101 {
        HtmlTag::tbody
    } else if i == 102 {
        HtmlTag::td
    } else if i == 103 {
        HtmlTag::template
    } else if i == 104 {
        HtmlTag::textarea
    } else if i == 105 {
        HtmlTag::tfoot
    } else if i == 106 {
        HtmlTag::th
    } else if i == 107 {
        HtmlTag::thead
    } else if i == 108 {
        HtmlTag::time
    } else if i == 109 {
        HtmlTag::title
    } else if i == 110 {
        HtmlTag::tr
    } else if i == 111 {
        HtmlTag::track
    } else if i == 112 {
        HtmlTag::u
    } else if i == 113 {
        HtmlTag::ul
    } else if i == 114 {
        HtmlTag::var
    } else if i == 115 {
        HtmlTag::video
    } else if i == 116 {
        HtmlTag::wbr
    } else if i == 117 {
        HtmlTag::sys_root
    } else if i == 118 {
        HtmlTag::sys_text
    } else if i == 119 {
        HtmlTag::sys_comment
    } else if i == 120 {
        HtmlTag::sys_doctype
    } else {
        HtmlTag::sys_ext
    }
}

/// Every [`HtmlTag`] stands at its own position.
pub broadcast proof fn lemma_htmltag_index(t: HtmlTag)
    ensures
        #[trigger] htmltag_index(t) < TAG_COUNT,
        htmltag_at(htmltag_index(t)) == t,
{
}

impl HtmlTag {
    /// The name as written in a document.
    pub fn name(&self) -> (r: &'static str)
        ensures
            r@ == htmltag_name(*self),
    {
        match self {
            HtmlTag::a => "a",
            HtmlTag::abbr => "abbr",
            HtmlTag::address => "address",
            HtmlTag::area => "area",
            HtmlTag::article => "article",
            HtmlTag::aside => "aside",
            HtmlTag::audio => "audio",
            HtmlTag::b => "b",
            HtmlTag::base => "base",
            HtmlTag::bdi => "bdi",
            HtmlTag::bdo => "bdo",
            HtmlTag::blockquote => "blockquote",
            HtmlTag::body => "body",
            HtmlTag::br => "br",
            HtmlTag::button => "button",
            HtmlTag::canvas => "canvas",
            HtmlTag::caption => "caption",
            HtmlTag::center => "center",
            HtmlTag::cite => "cite",
            HtmlTag::code => "code",
            HtmlTag::col => "col",
            HtmlTag::colgroup => "colgroup",
            HtmlTag::data => "data",
            HtmlTag::datalist => "datalist",
            HtmlTag::dd => "dd",
            HtmlTag::del => "del",
            HtmlTag::details => "details",
            HtmlTag::dfn => "dfn",
            HtmlTag::dialog => "dialog",
            HtmlTag::div => "div",
            HtmlTag::dl => "dl",
            HtmlTag::dt => "dt",
            HtmlTag::em => "em",
            HtmlTag::embed => "embed",
            HtmlTag::fieldset => "fieldset",
            HtmlTag::figcaption => "figcaption",
            HtmlTag::figure => "figure",
            HtmlTag::font => "font",
            HtmlTag::footer => "footer",
            HtmlTag::form => "form",
            HtmlTag::h1 => "h1",
            HtmlTag::h2 => "h2",
            HtmlTag::h3 => "h3",
            HtmlTag::h4 => "h4",
            HtmlTag::h5 => "h5",
            HtmlTag::h6 => "h6",
            HtmlTag::head => "head",
            HtmlTag::header => "header",
            HtmlTag::hgroup => "hgroup",
            HtmlTag::hr => "hr",
            HtmlTag::html => "html",
            HtmlTag::i => "i",
            HtmlTag::iframe => "iframe",
            HtmlTag::img => "img",
            HtmlTag::input => "input",
            HtmlTag::ins => "ins",
            HtmlTag::kbd => "kbd",
            HtmlTag::label => "label",
            HtmlTag::legend => "legend",
            HtmlTag::li => "li",
            HtmlTag::link => "link",
            HtmlTag::main => "main",
            HtmlTag::map => "map",
            HtmlTag::mark => "mark",
            HtmlTag::math => "math",
            HtmlTag::menu => "menu",
            HtmlTag::meta => "meta",
            HtmlTag::meter => "meter",
            HtmlTag::nav => "nav",
            HtmlTag::noscript => "noscript",
            HtmlTag::object => "object",
            HtmlTag::ol => "ol",
            HtmlTag::optgroup => "optgroup",
            HtmlTag::option => "option",
            HtmlTag::output => "output",
            HtmlTag::p => "p",
            HtmlTag::param => "param",
            HtmlTag::picture => "picture",
            HtmlTag::pre => "pre",
            HtmlTag::progress => "progress",
            HtmlTag::q => "q",
            HtmlTag::rp => "rp",
            HtmlTag::rt => "rt",
            HtmlTag::ruby => "ruby",
            HtmlTag::s => "s",
            HtmlTag::samp => "samp",
            HtmlTag::script => "script",
            HtmlTag::search => "search",
            HtmlTag::section => "section",
            HtmlTag::select => "select",
            HtmlTag::slot => "slot",
            HtmlTag::small => "small",
            HtmlTag::source => "source",
            HtmlTag::span => "span",
            HtmlTag::strong => "strong",
            HtmlTag::style => "style",
            HtmlTag::sub => "sub",
            HtmlTag::summary => "summary",
            HtmlTag::sup => "sup",
            HtmlTag::svg => "svg",
            HtmlTag::table => "table",
            HtmlTag::tbody => "tbody",
            HtmlTag::td => "td",
            HtmlTag::template => "template",
            HtmlTag::textarea => "textarea",
            HtmlTag::tfoot => "tfoot",
            HtmlTag::th => "th",
            HtmlTag::thead => "thead",
            HtmlTag::time => "time",
            HtmlTag::title => "title",
            HtmlTag::tr => "tr",
            HtmlTag::track => "track",
            HtmlTag::u => "u",
            HtmlTag::ul => "ul",
            HtmlTag::var => "var",
            HtmlTag::video => "video",
            HtmlTag::wbr => "wbr",
            HtmlTag::sys_root => "#root",
            HtmlTag::sys_text => "#text",
            HtmlTag::sys_comment => "#comment",
            HtmlTag::sys_doctype => "!DOCTYPE",
            HtmlTag::sys_ext => "#ext",
        }
    }

    /// The value at position `i` of the list of all of them.
    pub fn at(i: usize) -> (r: HtmlTag)
        requires
            i < TAG_COUNT,
        ensures
            r == htmltag_at(i as nat),
    {
        if i == 0 {
            HtmlTag::a
        } else if i == 1 {
            HtmlTag::abbr
        } else if i == 2 {
            HtmlTag::address
        } else if i == 3 {
            HtmlTag::area
        } else if i == 4 {
            HtmlTag::article
        } else if i == 5 {
            HtmlTag::aside
        } else if i == 6 {
            HtmlTag::audio
        } else if i == 7 {
            HtmlTag::b
        } else if i == 8 {
            HtmlTag::base
        } else if i == 9 {
            HtmlTag::bdi
        } else if i == 10 {
            HtmlTag::bdo
        } else if i == 11 {
            HtmlTag::blockquote
        } else if i == 12 {
            HtmlTag::body
        } else if i == 13 {
            HtmlTag::br
        } else if i == 14 {
            HtmlTag::button
        } else if i == 15 {
            HtmlTag::canvas
        } else if i == 16 {
            HtmlTag::caption
        } else if i == 17 {
            HtmlTag::center
        } else if i == 18 {
            HtmlTag::cite
        } else if i == 19 {
            HtmlTag::code
        } else if i == 20 {
            HtmlTag::col
        } else if i == 21 {
            HtmlTag::colgroup
        } else if i == 22 {
            HtmlTag::data
        } else if i == 23 {
            HtmlTag::datalist
        } else if i == 24 {
            HtmlTag::dd
        } else if i == 25 {
            HtmlTag::del
        } else if i == 26 {
            HtmlTag::details
        } else if i == 27 {
            HtmlTag::dfn
        } else if i == 28 {
            HtmlTag::dialog
        } else if i == 29 {
            HtmlTag::div
        } else if i == 30 {
            HtmlTag::dl
        } else if i == 31 {
            HtmlTag::dt
        } else if i == 32 {
            HtmlTag::em
        } else if i == 33 {
            HtmlTag::embed
        } else if i == 34 {
            HtmlTag::fieldset
        } else if i == 35 {
            HtmlTag::figcaption
        } else if i == 36 {
            HtmlTag::figure
        } else if i == 37 {
            HtmlTag::font
        } else if i == 38 {
            HtmlTag::footer
        } else if i == 39 {
            HtmlTag::form
        } else if i == 40 {
            HtmlTag::h1
        } else if i == 41 {
            HtmlTag::h2
        } else if i == 42 {
            HtmlTag::h3
        } else if i == 43 {
            HtmlTag::h4
        } else if i == 44 {
            HtmlTag::h5
        } else if i == 45 {
            HtmlTag::h6
        } else if i == 46 {
            HtmlTag::head
        } else if i == 47 {
            HtmlTag::header
        } else if i == 48 {
            HtmlTag::hgroup
        } else if i == 49 {
            HtmlTag::hr
        } else if i == 50 {
            HtmlTag::html
        } else if i == 51 {
            HtmlTag::i
        } else if i == 52 {
            HtmlTag::iframe
        } else if i == 53 {
            HtmlTag::img
        } else if i == 54 {
            HtmlTag::input
        } else if i == 55 {
            HtmlTag::ins
        } else if i == 56 {
            HtmlTag::kbd
        } else if i == 57 {
            HtmlTag::label
        } else if i == 58 {
            HtmlTag::legend
        } else if i == 59 {
            HtmlTag::li
        } else if i == 60 {
            HtmlTag::link
        } else if i == 61 {
            HtmlTag::main
        } else if i == 62 {
            HtmlTag::map
        } else if i == 63 {
            HtmlTag::mark
        } else if i == 64 {
            HtmlTag::math
        } else if i == 65 {
            HtmlTag::menu
        } else if i == 66 {
            HtmlTag::meta
        } else if i == 67 {
            HtmlTag::meter
        } else if i == 68 {
            HtmlTag::nav
        } else if i == 69 {
            HtmlTag::noscript
        } else if i == 70 {
            HtmlTag::object
        } else if i == 71 {
            HtmlTag::ol
        } else if i == 72 {
            HtmlTag::optgroup
        } else if i == 73 {
            HtmlTag::option
        } else if i == 74 {
            HtmlTag::output
        } else if i == 75 {
            HtmlTag::p
        } else if i == 76 {
            HtmlTag::param
        } else if i == 77 {
            HtmlTag::picture
        } else if i == 78 {
            HtmlTag::pre
        } else if i == 79 {
            HtmlTag::progress
        } else if i == 80 {
            HtmlTag::q
        } else if i == 81 {
            HtmlTag::rp
        } else if i == 82 {
            HtmlTag::rt
        } else if i == 83 {
            HtmlTag::ruby
        } else if i == 84 {
            HtmlTag::s
        } else if i == 85 {
            HtmlTag::samp
        } else if i == 86 {
            HtmlTag::script
        } else if i == 87 {
            HtmlTag::search
        } else if i == 88 {
            HtmlTag::section
        } else if i == 89 {
            HtmlTag::select
        } else if i == 90 {
            HtmlTag::slot
        } else if i == 91 {
            HtmlTag::small
        } else if i == 92 {
            HtmlTag::source
        } else if i == 93 {
            HtmlTag::span
        } else if i == 94 {
            HtmlTag::strong
        } else if i == 95 {
            HtmlTag::style
        } else if i == 96 {
            HtmlTag::sub
        } else if i == 97 {
            HtmlTag::summary
        } else if i == 98 {
            HtmlTag::sup
        } else if i == 99 {
            HtmlTag::svg
        } else if i == 100 {
            HtmlTag::table
        } else if i == 101 {
            HtmlTag::tbody
        } else if i == 102 {
            HtmlTag::td
        } else if i == 103 {
            HtmlTag::template
        } else if i == 104 {
            HtmlTag::textarea
        } else if i == 105 {
            HtmlTag::tfoot
        } else if i == 106 {
            HtmlTag::th
        } else if i == 107 {
            HtmlTag::thead
        } else if i == 108 {
            HtmlTag::time
        } else if i == 109 {
            HtmlTag::title
        } else if i == 110 {
            HtmlTag::tr
        } else if i == 111 {
            HtmlTag::track
        } else if i == 112 {
            HtmlTag::u
        } else if i == 113 {
            HtmlTag::ul
        } else if i == 114 {
            HtmlTag::var
        } else if i == 115 {
            HtmlTag::video
        } else if i == 116 {
            HtmlTag::wbr
        } else if i == 117 {
            HtmlTag::sys_root
        } else if i == 118 {
            HtmlTag::sys_text
        } else if i == 119 {
            HtmlTag::sys_comment
        } else if i == 120 {
            HtmlTag::sys_doctype
        } else {
            HtmlTag::sys_ext
        }
    }

    /// The position of this value in the list of all of them.
    pub fn index(&self) -> (r: usize)
        ensures
            r == htmltag_index(*self),
    {
        match self {
            HtmlTag::a => 0,
            HtmlTag::abbr => 1,
            HtmlTag::address => 2,
            HtmlTag::area => 3,
            HtmlTag::article => 4,
            HtmlTag::aside => 5,
            HtmlTag::audio => 6,
            HtmlTag::b => 7,
            HtmlTag::base => 8,
            HtmlTag::bdi => 9,
            HtmlTag::bdo => 10,
            HtmlTag::blockquote => 11,
            HtmlTag::body => 12,
            HtmlTag::br => 13,
            HtmlTag::button => 14,
            HtmlTag::canvas => 15,
            HtmlTag::caption => 16,
            HtmlTag::center => 17,
            HtmlTag::cite => 18,
            HtmlTag::code => 19,
            HtmlTag::col => 20,
            HtmlTag::colgroup => 21,
            HtmlTag::data => 22,
            HtmlTag::datalist => 23,
            HtmlTag::dd => 24,
            HtmlTag::del => 25,
            HtmlTag::details => 26,
            HtmlTag::dfn => 27,
            HtmlTag::dialog => 28,
            HtmlTag::div => 29,
            HtmlTag::dl => 30,
            HtmlTag::dt => 31,
            HtmlTag::em => 32,
            HtmlTag::embed => 33,
            HtmlTag::fieldset => 34,
            HtmlTag::figcaption => 35,
            HtmlTag::figure => 36,
            HtmlTag::font => 37,
            HtmlTag::footer => 38,
            HtmlTag::form => 39,
            HtmlTag::h1 => 40,
            HtmlTag::h2 => 41,
            HtmlTag::h3 => 42,
            HtmlTag::h4 => 43,
            HtmlTag::h5 => 44,
            HtmlTag::h6 => 45,
            HtmlTag::head => 46,
            HtmlTag::header => 47,
            HtmlTag::hgroup => 48,
            HtmlTag::hr => 49,
            HtmlTag::html => 50,
            HtmlTag::i => 51,
            HtmlTag::iframe => 52,
            HtmlTag::img => 53,
            HtmlTag::input => 54,
            HtmlTag::ins => 55,
            HtmlTag::kbd => 56,
            HtmlTag::label => 57,
            HtmlTag::legend => 58,
            HtmlTag::li => 59,
            HtmlTag::link => 60,
            HtmlTag::main => 61,
            HtmlTag::map => 62,
            HtmlTag::mark => 63,
            HtmlTag::math => 64,
            HtmlTag::menu => 65,
            HtmlTag::meta => 66,
            HtmlTag::meter => 67,
            HtmlTag::nav => 68,
            HtmlTag::noscript => 69,
            HtmlTag::object => 70,
            HtmlTag::ol => 71,
            HtmlTag::optgroup => 72,
            HtmlTag::option => 73,
            HtmlTag::output => 74,
            HtmlTag::p => 75,
            HtmlTag::param => 76,
            HtmlTag::picture => 77,
            HtmlTag::pre => 78,
            HtmlTag::progress => 79,
            HtmlTag::q => 80,
            HtmlTag::rp => 81,
            HtmlTag::rt => 82,
            HtmlTag::ruby => 83,
            HtmlTag::s => 84,
            HtmlTag::samp => 85,
            HtmlTag::script => 86,
            HtmlTag::search => 87,
            HtmlTag::section => 88,
            HtmlTag::select => 89,
            HtmlTag::slot => 90,
            HtmlTag::small => 91,
            HtmlTag::source => 92,
            HtmlTag::span => 93,
            HtmlTag::strong => 94,
            HtmlTag::style => 95,
            HtmlTag::sub => 96,
            HtmlTag::summary => 97,
            HtmlTag::sup => 98,
            HtmlTag::svg => 99,
            HtmlTag::table => 100,
            HtmlTag::tbody => 101,
            HtmlTag::td => 102,
            HtmlTag::template => 103,
            HtmlTag::textarea => 104,
            HtmlTag::tfoot => 105,
            HtmlTag::th => 106,
            HtmlTag::thead => 107,
            HtmlTag::time => 108,
            HtmlTag::title => 109,
            HtmlTag::tr => 110,
            HtmlTag::track => 111,
            HtmlTag::u => 112,
            HtmlTag::ul => 113,
            HtmlTag::var => 114,
            HtmlTag::video => 115,
            HtmlTag::wbr => 116,
            HtmlTag::sys_root => 117,
            HtmlTag::sys_text => 118,
            HtmlTag::sys_comment => 119,
            HtmlTag::sys_doctype => 120,
            HtmlTag::sys_ext => 121,
        }
    }
}

/// Whether the tag is laid out inline.
pub open spec fn tag_is_inline(t: HtmlTag) -> bool {
    match t {
        HtmlTag::a => true,
        HtmlTag::abbr => true,
        HtmlTag::b => true,
        HtmlTag::bdi => true,
        HtmlTag::bdo => true,
        HtmlTag::br => true,
        HtmlTag::button => true,
        HtmlTag::cite => true,
        HtmlTag::code => true,
        HtmlTag::data => true,
        HtmlTag::dfn => true,
        HtmlTag::em => true,
        HtmlTag::font => true,
        HtmlTag::i => true,
        HtmlTag::img => true,
        HtmlTag::input => true,
        HtmlTag::kbd => true,
        HtmlTag::label => true,
        HtmlTag::mark => true,
        HtmlTag::q => true,
        HtmlTag::s => true,
        HtmlTag::samp => true,
        HtmlTag::select => true,
        HtmlTag::small => true,
        HtmlTag::span => true,
        HtmlTag::strong => true,
        HtmlTag::sub => true,
        HtmlTag::sup => true,
        HtmlTag::textarea => true,
        HtmlTag::time => true,
        HtmlTag::u => true,
        HtmlTag::var => true,
        HtmlTag::wbr => true,
        _ => false,
    }
}

/// Whether the tag is laid out as a block.
pub open spec fn tag_is_block(t: HtmlTag) -> bool {
    match t {
        HtmlTag::address => true,
        HtmlTag::article => true,
        HtmlTag::aside => true,
        HtmlTag::blockquote => true,
        HtmlTag::body => true,
        HtmlTag::dd => true,
        HtmlTag::details => true,
        HtmlTag::dialog => true,
        HtmlTag::div => true,
        HtmlTag::dl => true,
        HtmlTag::dt => true,
        HtmlTag::fieldset => true,
        HtmlTag::figcaption => true,
        HtmlTag::figure => true,
        HtmlTag::footer => true,
        HtmlTag::form => true,
        HtmlTag::h1 => true,
        HtmlTag::h2 => true,
        HtmlTag::h3 => true,
        HtmlTag::h4 => true,
        HtmlTag::h5 => true,
        HtmlTag::h6 => true,
        HtmlTag::head => true,
        HtmlTag::header => true,
        HtmlTag::hgroup => true,
        HtmlTag::hr => true,
        HtmlTag::html => true,
        HtmlTag::li => true,
        HtmlTag::main => true,
        HtmlTag::menu => true,
        HtmlTag::nav => true,
        HtmlTag::ol => true,
        HtmlTag::p => true,
        HtmlTag::pre => true,
        HtmlTag::section => true,
        HtmlTag::table => true,
        HtmlTag::tbody => true,
        HtmlTag::td => true,
        HtmlTag::tfoot => true,
        HtmlTag::th => true,
        HtmlTag::thead => true,
        HtmlTag::tr => true,
        HtmlTag::ul => true,
        _ => false,
    }
}

impl HtmlTag {
    pub fn is_inline_element(&self) -> (r: bool)
        ensures
            r == tag_is_inline(*self),
    {
        match self {
            HtmlTag::a => true,
            HtmlTag::abbr => true,
            HtmlTag::b => true,
            HtmlTag::bdi => true,
            HtmlTag::bdo => true,
            HtmlTag::br => true,
            HtmlTag::button => true,
            HtmlTag::cite => true,
            HtmlTag::code => true,
            HtmlTag::data => true,
            HtmlTag::dfn => true,
            HtmlTag::em => true,
            HtmlTag::font => true,
            HtmlTag::i => true,
            HtmlTag::img => true,
            HtmlTag::input => true,
            HtmlTag::kbd => true,
            HtmlTag::label => true,
            HtmlTag::mark => true,
            HtmlTag::q => true,
            HtmlTag::s => true,
            HtmlTag::samp => true,
            HtmlTag::select => true,
            HtmlTag::small => true,
            HtmlTag::span => true,
            HtmlTag::strong => true,
            HtmlTag::sub => true,
            HtmlTag::sup => true,
            HtmlTag::textarea => true,
            HtmlTag::time => true,
            HtmlTag::u => true,
            HtmlTag::var => true,
            HtmlTag::wbr => true,
            _ => false,
        }
    }

    pub fn is_block_element(&self) -> (r: bool)
        ensures
            r == tag_is_block(*self),
    {
        match self {
            HtmlTag::address => true,
            HtmlTag::article => true,
            HtmlTag::aside => true,
            HtmlTag::blockquote => true,
            HtmlTag::body => true,
            HtmlTag::dd => true,
            HtmlTag::details => true,
            HtmlTag::dialog => true,
            HtmlTag::div => true,
            HtmlTag::dl => true,
            HtmlTag::dt => true,
            HtmlTag::fieldset => true,
            HtmlTag::figcaption => true,
            HtmlTag::figure => true,
            HtmlTag::footer => true,
            HtmlTag::form => true,
            HtmlTag::h1 => true,
            HtmlTag::h2 => true,
            HtmlTag::h3 => true,
            HtmlTag::h4 => true,
            HtmlTag::h5 => true,
            HtmlTag::h6 => true,
            HtmlTag::head => true,
            HtmlTag::header => true,
            HtmlTag::hgroup => true,
            HtmlTag::hr => true,
            HtmlTag::html => true,
            HtmlTag::li => true,
            HtmlTag::main => true,
            HtmlTag::menu => true,
            HtmlTag::nav => true,
            HtmlTag::ol => true,
            HtmlTag::p => true,
            HtmlTag::pre => true,
            HtmlTag::section => true,
            HtmlTag::table => true,
            HtmlTag::tbody => true,
            HtmlTag::td => true,
            HtmlTag::tfoot => true,
            HtmlTag::th => true,
            HtmlTag::thead => true,
            HtmlTag::tr => true,
            HtmlTag::ul => true,
            _ => false,
        }
    }
}

/// A standard attribute name.
#[allow(non_camel_case_types)]
#[derive(Debug, Clone, Copy, PartialEq, Eq, Structural, Hash)]
pub enum HtmlAttr {
    accept,
    accept_charset,
    accesskey,
    action,
    align,
    allow,
    alt,
    aria_checked,
    aria_controls,
    aria_current,
    aria_describedby,
    aria_disabled,
    aria_expanded,
    aria_haspopup,
    aria_hidden,
    aria_label,
    aria_labelledby,
    aria_live,
    aria_pressed,
    aria_selected,
    autocapitalize,
    autocomplete,
    autofocus,
    autoplay,
    bgcolor,
    border,
    charset,
    checked,
    cite,
    class,
    color,
    cols,
    colspan,
    content,
    contenteditable,
    controls,
    coords,
    crossorigin,
    data,
    datetime,
    decoding,
    default,
    defer,
    dir,
    dirname,
    disabled,
    download,
    draggable,
    enctype,
    enterkeyhint,
    for_,
    form,
    formaction,
    headers,
    height,
    hidden,
    high,
    href,
    hreflang,
    http_equiv,
    id,
    inert,
    inputmode,
    integrity,
    is_,
    itemid,
    itemprop,
    itemref,
    itemscope,
    itemtype,
    kind,
    label,
    lang,
    language,
    list,
    loading,
    loop_,
    low,
    max,
    maxlength,
    media,
    method,
    min,
    minlength,
    multiple,
    muted,
    name,
    nonce,
    novalidate,
    open,
    optimum,
    pattern,
    ping,
    placeholder,
    popover,
    poster,
    preload,
    readonly,
    referrerpolicy,
    rel,
    required,
    reversed,
    role,
    rows,
    rowspan,
    sandbox,
    scope,
    selected,
    shape,
    size,
    sizes,
    slot,
    span,
    spellcheck,
    src,
    srcdoc,
    srclang,
    srcset,
    start,
    step,
    style,
    tabindex,
    target,
    title,
    translate,
    type_,
    usemap,
    value,
    width,
    wrap,
}

/// Number of [`HtmlAttr`] values.
pub const ATTR_COUNT: usize = 130;

/// The name of a [`HtmlAttr`] as written in a document.
pub open spec fn htmlattr_name(t: HtmlAttr) -> Seq<char> {
    match t {
        HtmlAttr::accept => "accept"@,
        HtmlAttr::accept_charset => "accept-charset"@,
        HtmlAttr::accesskey => "accesskey"@,
        HtmlAttr::action => "action"@,
        HtmlAttr::align => "align"@,
        HtmlAttr::allow => "allow"@,
        HtmlAttr::alt => "alt"@,
        HtmlAttr::aria_checked => "aria-checked"@,
        HtmlAttr::aria_controls => "aria-controls"@,
        HtmlAttr::aria_current => "aria-current"@,
        HtmlAttr::aria_describedby => "aria-describedby"@,
        HtmlAttr::aria_disabled => "aria-disabled"@,
        HtmlAttr::aria_expanded => "aria-expanded"@,
        HtmlAttr::aria_haspopup => "aria-haspopup"@,
        HtmlAttr::aria_hidden => "aria-hidden"@,
        HtmlAttr::aria_label => "aria-label"@,
        HtmlAttr::aria_labelledby => "aria-labelledby"@,
        HtmlAttr::aria_live => "aria-live"@,
        HtmlAttr::aria_pressed => "aria-pressed"@,
        HtmlAttr::aria_selected => "aria-selected"@,
        HtmlAttr::autocapitalize => "autocapitalize"@,
        HtmlAttr::autocomplete => "autocomplete"@,
        HtmlAttr::autofocus => "autofocus"@,
        HtmlAttr::autoplay => "autoplay"@,
        HtmlAttr::bgcolor => "bgcolor"@,
        HtmlAttr::border => "border"@,
        HtmlAttr::charset => "charset"@,
        HtmlAttr::checked => "checked"@,
        HtmlAttr::cite => "cite"@,
        HtmlAttr::class => "class"@,
        HtmlAttr::color => "color"@,
        HtmlAttr::cols => "cols"@,
        HtmlAttr::colspan => "colspan"@,
        HtmlAttr::content => "content"@,
        HtmlAttr::contenteditable => "contenteditable"@,
        HtmlAttr::controls => "controls"@,
        HtmlAttr::coords => "coords"@,
        HtmlAttr::crossorigin => "crossorigin"@,
        HtmlAttr::data => "data"@,
        HtmlAttr::datetime => "datetime"@,
        HtmlAttr::decoding => "decoding"@,
        HtmlAttr::default => "default"@,
        HtmlAttr::defer => "defer"@,
        HtmlAttr::dir => "dir"@,
        HtmlAttr::dirname => "dirname"@,
        HtmlAttr::disabled => "disabled"@,
        HtmlAttr::download => "download"@,
        HtmlAttr::draggable => "draggable"@,
        HtmlAttr::enctype => "enctype"@,
        HtmlAttr::enterkeyhint => "enterkeyhint"@,
        HtmlAttr::for_ => "for"@,
        HtmlAttr::form => "form"@,
        HtmlAttr::formaction => "formaction"@,
        HtmlAttr::headers => "headers"@,
        HtmlAttr::height => "height"@,
        HtmlAttr::hidden => "hidden"@,
        HtmlAttr::high => "high"@,
        HtmlAttr::href => "href"@,
        HtmlAttr::hreflang => "hreflang"@,
        HtmlAttr::http_equiv => "http-equiv"@,
        HtmlAttr::id => "id"@,
        HtmlAttr::inert => "inert"@,
        HtmlAttr::inputmode => "inputmode"@,
        HtmlAttr::integrity => "integrity"@,
        HtmlAttr::is_ => "is"@,
        HtmlAttr::itemid => "itemid"@,
        HtmlAttr::itemprop => "itemprop"@,
        HtmlAttr::itemref => "itemref"@,
        HtmlAttr::itemscope => "itemscope"@,
        HtmlAttr::itemtype => "itemtype"@,
        HtmlAttr::kind => "kind"@,
        HtmlAttr::label => "label"@,
        HtmlAttr::lang => "lang"@,
        HtmlAttr::language => "language"@,
        HtmlAttr::list => "list"@,
        HtmlAttr::loading => "loading"@,
        HtmlAttr::loop_ => "loop"@,
        HtmlAttr::low => "low"@,
        HtmlAttr::max => "max"@,
        HtmlAttr::maxlength => "maxlength"@,
        HtmlAttr::media => "media"@,
        HtmlAttr::method => "method"@,
        HtmlAttr::min => "min"@,
        HtmlAttr::minlength => "minlength"@,
        HtmlAttr::multiple => "multiple"@,
        HtmlAttr::muted => "muted"@,
        HtmlAttr::name => "name"@,
        HtmlAttr::nonce => "nonce"@,
        HtmlAttr::novalidate => "novalidate"@,
        HtmlAttr::open => "open"@,
        HtmlAttr::optimum => "optimum"@,
        HtmlAttr::pattern => "pattern"@,
        HtmlAttr::ping => "ping"@,
        HtmlAttr::placeholder => "placeholder"@,
        HtmlAttr::popover => "popover"@,
        HtmlAttr::poster => "poster"@,
        HtmlAttr::preload => "preload"@,
        HtmlAttr::readonly => "readonly"@,
        HtmlAttr::referrerpolicy => "referrerpolicy"@,
        HtmlAttr::rel => "rel"@,
        HtmlAttr::required => "required"@,
        HtmlAttr::reversed => "reversed"@,
        HtmlAttr::role => "role"@,
        HtmlAttr::rows => "rows"@,
        HtmlAttr::rowspan => "rowspan"@,
        HtmlAttr::sandbox => "sandbox"@,
        HtmlAttr::scope => "scope"@,
        HtmlAttr::selected => "selected"@,
        HtmlAttr::shape => "shape"@,
        HtmlAttr::size => "size"@,
        HtmlAttr::sizes => "sizes"@,
        HtmlAttr::slot => "slot"@,
        HtmlAttr::span => "span"@,
        HtmlAttr::spellcheck => "spellcheck"@,
        HtmlAttr::src => "src"@,
        HtmlAttr::srcdoc => "srcdoc"@,
        HtmlAttr::srclang => "srclang"@,
        HtmlAttr::srcset => "srcset"@,
        HtmlAttr::start => "start"@,
        HtmlAttr::step => "step"@,
        HtmlAttr::style => "style"@,
        HtmlAttr::tabindex => "tabindex"@,
        HtmlAttr::target => "target"@,
        HtmlAttr::title => "title"@,
        HtmlAttr::translate => "translate"@,
        HtmlAttr::type_ => "type"@,
        HtmlAttr::usemap => "usemap"@,
        HtmlAttr::value => "value"@,
        HtmlAttr::width => "width"@,
        HtmlAttr::wrap => "wrap"@,
    }
}

/// The position of a [`HtmlAttr`] in the list of all of them.
pub open spec fn htmlattr_index(t: HtmlAttr) -> nat {
    match t {
        HtmlAttr::accept => 0,
        HtmlAttr::accept_charset => 1,
        HtmlAttr::accesskey => 2,
        HtmlAttr::action => 3,
        HtmlAttr::align => 4,
        HtmlAttr::allow => 5,
        HtmlAttr::alt => 6,
        HtmlAttr::aria_checked => 7,
        HtmlAttr::aria_controls => 8,
        HtmlAttr::aria_current => 9,
        HtmlAttr::aria_describedby => 10,
        HtmlAttr::aria_disabled => 11,
        HtmlAttr::aria_expanded => 12,
        HtmlAttr::aria_haspopup => 13,
        HtmlAttr::aria_hidden => 14,
        HtmlAttr::aria_label => 15,
        HtmlAttr::aria_labelledby => 16,
        HtmlAttr::aria_live => 17,
        HtmlAttr::aria_pressed => 18,
        HtmlAttr::aria_selected => 19,
        HtmlAttr::autocapitalize => 20,
        HtmlAttr::autocomplete => 21,
        HtmlAttr::autofocus => 22,
        HtmlAttr::autoplay => 23,
        HtmlAttr::bgcolor => 24,
        HtmlAttr::border => 25,
        HtmlAttr::charset => 26,
        HtmlAttr::checked => 27,
        HtmlAttr::cite => 28,
        HtmlAttr::class => 29,
        HtmlAttr::color => 30,
        HtmlAttr::cols => 31,
        HtmlAttr::colspan => 32,
        HtmlAttr::content => 33,
        HtmlAttr::contenteditable => 34,
        HtmlAttr::controls => 35,
        HtmlAttr::coords => 36,
        HtmlAttr::crossorigin => 37,
        HtmlAttr::data => 38,
        HtmlAttr::datetime => 39,
        HtmlAttr::decoding => 40,
        HtmlAttr::default => 41,
        HtmlAttr::defer => 42,
        HtmlAttr::dir => 43,
        HtmlAttr::dirname => 44,
        HtmlAttr::disabled => 45,
        HtmlAttr::download => 46,
        HtmlAttr::draggable => 47,
        HtmlAttr::enctype => 48,
        HtmlAttr::enterkeyhint => 49,
        HtmlAttr::for_ => 50,
        HtmlAttr::form => 51,
        HtmlAttr::formaction => 52,
        HtmlAttr::headers => 53,
        HtmlAttr::height => 54,
        HtmlAttr::hidden => 55,
        HtmlAttr::high => 56,
        HtmlAttr::href => 57,
        HtmlAttr::hreflang => 58,
        HtmlAttr::http_equiv => 59,
        HtmlAttr::id => 60,
        HtmlAttr::inert => 61,
        HtmlAttr::inputmode => 62,
        HtmlAttr::integrity => 63,
        HtmlAttr::is_ => 64,
        HtmlAttr::itemid => 65,
        HtmlAttr::itemprop => 66,
        HtmlAttr::itemref => 67,
        HtmlAttr::itemscope => 68,
        HtmlAttr::itemtype => 69,
        HtmlAttr::kind => 70,
        HtmlAttr::label => 71,
        HtmlAttr::lang => 72,
        HtmlAttr::language => 73,
        HtmlAttr::list => 74,
        HtmlAttr::loading => 75,
        HtmlAttr::loop_ => 76,
        HtmlAttr::low => 77,
        HtmlAttr::max => 78,
        HtmlAttr::maxlength => 79,
        HtmlAttr::media => 80,
        HtmlAttr::method => 81,
        HtmlAttr::min => 82,
        HtmlAttr::minlength => 83,
        HtmlAttr::multiple => 84,
        HtmlAttr::muted => 85,
        HtmlAttr::name => 86,
        HtmlAttr::nonce => 87,
        HtmlAttr::novalidate => 88,
        HtmlAttr::open => 89,
        HtmlAttr::optimum => 90,
        HtmlAttr::pattern => 91,
        HtmlAttr::ping => 92,
        HtmlAttr::placeholder => 93,
        HtmlAttr::popover => 94,
        HtmlAttr::poster => 95,
        HtmlAttr::preload => 96,
        HtmlAttr::readonly => 97,
        HtmlAttr::referrerpolicy => 98,
        HtmlAttr::rel => 99,
        HtmlAttr::required => 100,
        HtmlAttr::reversed => 101,
        HtmlAttr::role => 102,
        HtmlAttr::rows => 103,
        HtmlAttr::rowspan => 104,
        HtmlAttr::sandbox => 105,
        HtmlAttr::scope => 106,
        HtmlAttr::selected => 107,
        HtmlAttr::shape => 108,
        HtmlAttr::size => 109,
        HtmlAttr::sizes => 110,
        HtmlAttr::slot => 111,
        HtmlAttr::span => 112,
        HtmlAttr::spellcheck => 113,
        HtmlAttr::src => 114,
        HtmlAttr::srcdoc => 115,
        HtmlAttr::srclang => 116,
        HtmlAttr::srcset => 117,
        HtmlAttr::start => 118,
        HtmlAttr::step => 119,
        HtmlAttr::style => 120,
        HtmlAttr::tabindex => 121,
        HtmlAttr::target => 122,
        HtmlAttr::title => 123,
        HtmlAttr::translate => 124,
        HtmlAttr::type_ => 125,
        HtmlAttr::usemap => 126,
        HtmlAttr::value => 127,
        HtmlAttr::width => 128,
        HtmlAttr::wrap => 129,
    }
}

/// The [`HtmlAttr`] at position `i` of the list of all of them.
pub open spec fn htmlattr_at(i: nat) -> HtmlAttr {
    if i == 0 {
        HtmlAttr::accept
    } else if i == 1 {
        HtmlAttr::accept_charset
    } else if i == 2 {
        HtmlAttr::accesskey
    } else if i == 3 {
        HtmlAttr::action
    } else if i == 4 {
        HtmlAttr::align
    } else if i == 5 {
        HtmlAttr::allow
    } else if i == 6 {
        HtmlAttr::alt
    } else if i == 7 {
        HtmlAttr::aria_checked
    } else if i == 8 {
        HtmlAttr::aria_controls
    } else if i == 9 {
        HtmlAttr::aria_current
    } else if i == 10 {
        HtmlAttr::aria_describedby
    } else if i == 11 {
        HtmlAttr::aria_disabled
    } else if i == 12 {
        HtmlAttr::aria_expanded
    } else if i == 13 {
        HtmlAttr::aria_haspopup
    } else if i == 14 {
        HtmlAttr::aria_hidden
    } else if i == 15 {
        HtmlAttr::aria_label
    } else if i == 16 {
        HtmlAttr::aria_labelledby
    } else if i == 17 {
        HtmlAttr::aria_live
    } else if i == 18 {
        HtmlAttr::aria_pressed
    } else if i == 19 {
        HtmlAttr::aria_selected
    } else if i == 20 {
        HtmlAttr::autocapitalize
    } else if i == 21 {
        HtmlAttr::autocomplete
    } else if i == 22 {
        HtmlAttr::autofocus
    } else if i == 23 {
        HtmlAttr::autoplay
    } else if i == 24 {
        HtmlAttr::bgcolor
    } else if i == 25 {
        HtmlAttr::border
    } else if i == 26 {
        HtmlAttr::charset
    } else if i == 27 {
        HtmlAttr::checked
    } else if i == 28 {
        HtmlAttr::cite
    } else if i == 29 {
        HtmlAttr::class
    } else if i == 30 {
        HtmlAttr::color
    } else if i == 31 {
        HtmlAttr::cols
    } else if i == 32 {
        HtmlAttr::colspan
    } else if i == 33 {
        HtmlAttr::content
    } else if i == 34 {
        HtmlAttr::contenteditable
    } else if i == 35 {
        HtmlAttr::controls
    } else if i == 36 {
        HtmlAttr::coords
    } else if i == 37 {
        HtmlAttr::crossorigin
    } else if i == 38 {
        HtmlAttr::data
    } else if i == 39 {
        HtmlAttr::datetime
    } else if i == 40 {
        HtmlAttr::decoding
    } else if i == 41 {
        HtmlAttr::default
    } else if i == 42 {
        HtmlAttr::defer
    } else if i == 43 {
        HtmlAttr::dir
    } else if i == 44 {
        HtmlAttr::dirname
    } else if i == 45 {
        HtmlAttr::disabled
    } else if i == 46 {
        HtmlAttr::download
    } else if i == 47 {
        HtmlAttr::draggable
    } else if i == 48 {
        HtmlAttr::enctype
    } else if i == 49 {
        HtmlAttr::enterkeyhint
    } else if i == 50 {
        HtmlAttr::for_
    } else if i == 51 {
        HtmlAttr::form
    } else if i == 52 {
        HtmlAttr::formaction
    } else if i == 53 {
        HtmlAttr::headers
    } else if i == 54 {
        HtmlAttr::height
    } else if i == 55 {
        HtmlAttr::hidden
    } else if i == 56 {
        HtmlAttr::high
    } else if i == 57 {
        HtmlAttr::href
    } else if i == 58 {
        HtmlAttr::hreflang
    } else if i == 59 {
        HtmlAttr::http_equiv
    } else if i == 60 {
        HtmlAttr::id
    } else if i == 61 {
        HtmlAttr::inert
    } else if i == 62 {
        HtmlAttr::inputmode
    } else if i == 63 {
        HtmlAttr::integrity
    } else if i == 64 {
        HtmlAttr::is_
    } else if i == 65 {
        HtmlAttr::itemid
    } else if i == 66 {
        HtmlAttr::itemprop
    } else if i == 67 {
        HtmlAttr::itemref
    } else if i == 68 {
        HtmlAttr::itemscope
    } else if i == 69 {
        HtmlAttr::itemtype
    } else if i == 70 {
        HtmlAttr::kind
    } else if i == 71 {
        HtmlAttr::label
    } else if i == 72 {
        HtmlAttr::lang
    } else if i == 73 {
        HtmlAttr::language
    } else if i == 74 {
        HtmlAttr::list
    } else if i == 75 {
        HtmlAttr::loading
    } else if i == 76 {
        HtmlAttr::loop_
    } else if i == 77 {
        HtmlAttr::low
    } else if i == 78 {
        HtmlAttr::max
    } else if i == 79 {
        HtmlAttr::maxlength
    } else if i == 80 {
        HtmlAttr::media
    } else if i == 81 {
        HtmlAttr::method
    } else if i == 82 {
        HtmlAttr::min
    } else if i == 83 {
        HtmlAttr::minlength
    } else if i == 84 {
        HtmlAttr::multiple
    } else if i == 85 {
        HtmlAttr::muted
    } else if i == 86 {
        HtmlAttr::name
    } else if i == 87 {
        HtmlAttr::nonce
    } else if i == 88 {
        HtmlAttr::novalidate
    } else if i == 89 {
        HtmlAttr::open
    } else if i == 90 {
        HtmlAttr::optimum
    } else if i == 91 {
        HtmlAttr::pattern
    } else if i == 92 {
        HtmlAttr::ping
    } else if i == 93 {
        HtmlAttr::placeholder
    } else if i == 94 {
        HtmlAttr::popover
    } else if i == 95 {
        HtmlAttr::poster
    } else if i == 96 {
        HtmlAttr::preload
    } else if i == 97 {
        HtmlAttr::readonly
    } else if i == 98 {
        HtmlAttr::referrerpolicy
    } else if i == 99 {
        HtmlAttr::rel
    } else if i == 100 {
        HtmlAttr::required
    } else if i == 101 {
        HtmlAttr::reversed
    } else if i == 102 {
        HtmlAttr::role
    } else if i == 103 {
        HtmlAttr::rows
    } else if i == 104 {
        HtmlAttr::rowspan
    } else if i == 105 {
        HtmlAttr::sandbox
    } else if i == 106 {
        HtmlAttr::scope
    } else if i == 107 {
        HtmlAttr::selected
    } else if i == 108 {
        HtmlAttr::shape
    } else if i == 109 {
        HtmlAttr::size
    } else if i == 110 {
        HtmlAttr::sizes
    } else if i == 111 {
        HtmlAttr::slot
    } else if i == 112 {
        HtmlAttr::span
    } else if i == 113 {
        HtmlAttr::spellcheck
    } else if i == 114 {
        HtmlAttr::src
    } else if i == 115 {
        HtmlAttr::srcdoc
    } else if i == 116 {
        HtmlAttr::srclang
    } else if i == 117 {
        HtmlAttr::srcset
    } else if i == 118 {
        HtmlAttr::start
    } else if i == 119 {
        HtmlAttr::step
    } else if i == 120 {
        HtmlAttr::style
    } else if i == 121 {
        HtmlAttr::tabindex
    } else if i == 122 {
        HtmlAttr::target
    } else if i == 123 {
        HtmlAttr::title
    } else if i == 124 {
        HtmlAttr::translate
    } else if i == 125 {
        HtmlAttr::type_
    } else if i == 126 {
        HtmlAttr::usemap
    } else if i == 127 {
        HtmlAttr::value
    } else if i == 128 {
        HtmlAttr::width
    } else {
        HtmlAttr::wrap
    }
}

/// Every [`HtmlAttr`] stands at its own position.
pub broadcast proof fn lemma_htmlattr_index(t: HtmlAttr)
    ensures
        #[trigger] htmlattr_index(t) < ATTR_COUNT,
        htmlattr_at(htmlattr_index(t)) == t,
{
}

impl HtmlAttr {
    /// The name as written in a document.
    pub fn name(&self) -> (r: &'static str)
        ensures
            r@ == htmlattr_name(*self),
    {
        match self {
            HtmlAttr::accept => "accept",
            HtmlAttr::accept_charset => "accept-charset",
            HtmlAttr::accesskey => "accesskey",
            HtmlAttr::action => "action",
            HtmlAttr::align => "align",
            HtmlAttr::allow => "allow",
            HtmlAttr::alt => "alt",
            HtmlAttr::aria_checked => "aria-checked",
            HtmlAttr::aria_controls => "aria-controls",
            HtmlAttr::aria_current => "aria-current",
            HtmlAttr::aria_describedby => "aria-describedby",
            HtmlAttr::aria_disabled => "aria-disabled",
            HtmlAttr::aria_expanded => "aria-expanded",
            HtmlAttr::aria_haspopup => "aria-haspopup",
            HtmlAttr::aria_hidden => "aria-hidden",
            HtmlAttr::aria_label => "aria-label",
            HtmlAttr::aria_labelledby => "aria-labelledby",
            HtmlAttr::aria_live => "aria-live",
            HtmlAttr::aria_pressed => "aria-pressed",
            HtmlAttr::aria_selected => "aria-selected",
            HtmlAttr::autocapitalize => "autocapitalize",
            HtmlAttr::autocomplete => "autocomplete",
            HtmlAttr::autofocus => "autofocus",
            HtmlAttr::autoplay => "autoplay",
            HtmlAttr::bgcolor => "bgcolor",
            HtmlAttr::border => "border",
            HtmlAttr::charset => "charset",
            HtmlAttr::checked => "checked",
            HtmlAttr::cite => "cite",
            HtmlAttr::class => "class",
            HtmlAttr::color => "color",
            HtmlAttr::cols => "cols",
            HtmlAttr::colspan => "colspan",
            HtmlAttr::content => "content",
            HtmlAttr::contenteditable => "contenteditable",
            HtmlAttr::controls => "controls",
            HtmlAttr::coords => "coords",
            HtmlAttr::crossorigin => "crossorigin",
            HtmlAttr::data => "data",
            HtmlAttr::datetime => "datetime",
            HtmlAttr::decoding => "decoding",
            HtmlAttr::default => "default",
            HtmlAttr::defer => "defer",
            HtmlAttr::dir => "dir",
            HtmlAttr::dirname => "dirname",
            HtmlAttr::disabled => "disabled",
            HtmlAttr::download => "download",
            HtmlAttr::draggable => "draggable",
            HtmlAttr::enctype => "enctype",
            HtmlAttr::enterkeyhint => "enterkeyhint",
            HtmlAttr::for_ => "for",
            HtmlAttr::form => "form",
            HtmlAttr::formaction => "formaction",
            HtmlAttr::headers => "headers",
            HtmlAttr::height => "height",
            HtmlAttr::hidden => "hidden",
            HtmlAttr::high => "high",
            HtmlAttr::href => "href",
            HtmlAttr::hreflang => "hreflang",
            HtmlAttr::http_equiv => "http-equiv",
            HtmlAttr::id => "id",
            HtmlAttr::inert => "inert",
            HtmlAttr::inputmode => "inputmode",
            HtmlAttr::integrity => "integrity",
            HtmlAttr::is_ => "is",
            HtmlAttr::itemid => "itemid",
            HtmlAttr::itemprop => "itemprop",
            HtmlAttr::itemref => "itemref",
            HtmlAttr::itemscope => "itemscope",
            HtmlAttr::itemtype => "itemtype",
            HtmlAttr::kind => "kind",
            HtmlAttr::label => "label",
            HtmlAttr::lang => "lang",
            HtmlAttr::language => "language",
            HtmlAttr::list => "list",
            HtmlAttr::loading => "loading",
            HtmlAttr::loop_ => "loop",
            HtmlAttr::low => "low",
            HtmlAttr::max => "max",
            HtmlAttr::maxlength => "maxlength",
            HtmlAttr::media => "media",
            HtmlAttr::method => "method",
            HtmlAttr::min => "min",
            HtmlAttr::minlength => "minlength",
            HtmlAttr::multiple => "multiple",
            HtmlAttr::muted => "muted",
            HtmlAttr::name => "name",
            HtmlAttr::nonce => "nonce",
            HtmlAttr::novalidate => "novalidate",
            HtmlAttr::open => "open",
            HtmlAttr::optimum => "optimum",
            HtmlAttr::pattern => "pattern",
            HtmlAttr::ping => "ping",
            HtmlAttr::placeholder => "placeholder",
            HtmlAttr::popover => "popover",
            HtmlAttr::poster => "poster",
            HtmlAttr::preload => "preload",
            HtmlAttr::readonly => "readonly",
            HtmlAttr::referrerpolicy => "referrerpolicy",
            HtmlAttr::rel => "rel",
            HtmlAttr::required => "required",
            HtmlAttr::reversed => "reversed",
            HtmlAttr::role => "role",
            HtmlAttr::rows => "rows",
            HtmlAttr::rowspan => "rowspan",
            HtmlAttr::sandbox => "sandbox",
            HtmlAttr::scope => "scope",
            HtmlAttr::selected => "selected",
            HtmlAttr::shape => "shape",
            HtmlAttr::size => "size",
            HtmlAttr::sizes => "sizes",
            HtmlAttr::slot => "slot",
            HtmlAttr::span => "span",
            HtmlAttr::spellcheck => "spellcheck",
            HtmlAttr::src => "src",
            HtmlAttr::srcdoc => "srcdoc",
            HtmlAttr::srclang => "srclang",
            HtmlAttr::srcset => "srcset",
            HtmlAttr::start => "start",
            HtmlAttr::step => "step",
            HtmlAttr::style => "style",
            HtmlAttr::tabindex => "tabindex",
            HtmlAttr::target => "target",
            HtmlAttr::title => "title",
            HtmlAttr::translate => "translate",
            HtmlAttr::type_ => "type",
            HtmlAttr::usemap => "usemap",
            HtmlAttr::value => "value",
            HtmlAttr::width => "width",
            HtmlAttr::wrap => "wrap",
        }
    }

    /// The value at position `i` of the list of all of them.
    pub fn at(i: usize) -> (r: HtmlAttr)
        requires
            i < ATTR_COUNT,
        ensures
            r == htmlattr_at(i as nat),
    {
        if i == 0 {
            HtmlAttr::accept
        } else if i == 1 {
            HtmlAttr::accept_charset
        } else if i == 2 {
            HtmlAttr::accesskey
        } else if i == 3 {
            HtmlAttr::action
        } else if i == 4 {
            HtmlAttr::align
        } else if i == 5 {
            HtmlAttr::allow
        } else if i == 6 {
            HtmlAttr::alt
        } else if i == 7 {
            HtmlAttr::aria_checked
        } else if i == 8 {
            HtmlAttr::aria_controls
        } else if i == 9 {
            HtmlAttr::aria_current
        } else if i == 10 {
            HtmlAttr::aria_describedby
        } else if i == 11 {
            HtmlAttr::aria_disabled
        } else if i == 12 {
            HtmlAttr::aria_expanded
        } else if i == 13 {
            HtmlAttr::aria_haspopup
        } else if i == 14 {
            HtmlAttr::aria_hidden
        } else if i == 15 {
            HtmlAttr::aria_label
        } else if i == 16 {
            HtmlAttr::aria_labelledby
        } else if i == 17 {
            HtmlAttr::aria_live
        } else if i == 18 {
            HtmlAttr::aria_pressed
        } else if i == 19 {
            HtmlAttr::aria_selected
        } else if i == 20 {
            HtmlAttr::autocapitalize
        } else if i == 21 {
            HtmlAttr::autocomplete
        } else if i == 22 {
            HtmlAttr::autofocus
        } else if i == 23 {
            HtmlAttr::autoplay
        } else if i == 24 {
            HtmlAttr::bgcolor
        } else if i == 25 {
            HtmlAttr::border
        } else if i == 26 {
            HtmlAttr::charset
        } else if i == 27 {
            HtmlAttr::checked
        } else if i == 28 {
            HtmlAttr::cite
        } else if i == 29 {
            HtmlAttr::class
        } else if i == 30 {
            HtmlAttr::color
        } else if i == 31 {
            HtmlAttr::cols
        } else if i == 32 {
            HtmlAttr::colspan
        } else if i == 33 {
            HtmlAttr::content
        } else if i == 34 {
            HtmlAttr::contenteditable
        } else if i == 35 {
            HtmlAttr::controls
        } else if i == 36 {
            HtmlAttr::coords
        } else if i == 37 {
            HtmlAttr::crossorigin
        } else if i == 38 {
            HtmlAttr::data
        } else if i == 39 {
            HtmlAttr::datetime
        } else if i == 40 {
            HtmlAttr::decoding
        } else if i == 41 {
            HtmlAttr::default
        } else if i == 42 {
            HtmlAttr::defer
        } else if i == 43 {
            HtmlAttr::dir
        } else if i == 44 {
            HtmlAttr::dirname
        } else if i == 45 {
            HtmlAttr::disabled
        } else if i == 46 {
            HtmlAttr::download
        } else if i == 47 {
            HtmlAttr::draggable
        } else if i == 48 {
            HtmlAttr::enctype
        } else if i == 49 {
            HtmlAttr::enterkeyhint
        } else if i == 50 {
            HtmlAttr::for_
        } else if i == 51 {
            HtmlAttr::form
        } else if i == 52 {
            HtmlAttr::formaction
        } else if i == 53 {
            HtmlAttr::headers
        } else if i == 54 {
            HtmlAttr::height
        } else if i == 55 {
            HtmlAttr::hidden
        } else if i == 56 {
            HtmlAttr::high
        } else if i == 57 {
            HtmlAttr::href
        } else if i == 58 {
            HtmlAttr::hreflang
        } else if i == 59 {
            HtmlAttr::http_equiv
        } else if i == 60 {
            HtmlAttr::id
        } else if i == 61 {
            HtmlAttr::inert
        } else if i == 62 {
            HtmlAttr::inputmode
        } else if i == 63 {
            HtmlAttr::integrity
        } else if i == 64 {
            HtmlAttr::is_
        } else if i == 65 {
            HtmlAttr::itemid
        } else if i == 66 {
            HtmlAttr::itemprop
        } else if i == 67 {
            HtmlAttr::itemref
        } else if i == 68 {
            HtmlAttr::itemscope
        } else if i == 69 {
            HtmlAttr::itemtype
        } else if i == 70 {
            HtmlAttr::kind
        } else if i == 71 {
            HtmlAttr::label
        } else if i == 72 {
            HtmlAttr::lang
        } else if i == 73 {
            HtmlAttr::language
        } else if i == 74 {
            HtmlAttr::list
        } else if i == 75 {
            HtmlAttr::loading
        } else if i == 76 {
            HtmlAttr::loop_
        } else if i == 77 {
            HtmlAttr::low
        } else if i == 78 {
            HtmlAttr::max
        } else if i == 79 {
            HtmlAttr::maxlength
        } else if i == 80 {
            HtmlAttr::media
        } else if i == 81 {
            HtmlAttr::method
        } else if i == 82 {
            HtmlAttr::min
        } else if i == 83 {
            HtmlAttr::minlength
        } else if i == 84 {
            HtmlAttr::multiple
        } else if i == 85 {
            HtmlAttr::muted
        } else if i == 86 {
            HtmlAttr::name
        } else if i == 87 {
            HtmlAttr::nonce
        } else if i == 88 {
            HtmlAttr::novalidate
        } else if i == 89 {
            HtmlAttr::open
        } else if i == 90 {
            HtmlAttr::optimum
        } else if i == 91 {
            HtmlAttr::pattern
        } else if i == 92 {
            HtmlAttr::ping
        } else if i == 93 {
            HtmlAttr::placeholder
        } else if i == 94 {
            HtmlAttr::popover
        } else if i == 95 {
            HtmlAttr::poster
        } else if i == 96 {
            HtmlAttr::preload
        } else if i == 97 {
            HtmlAttr::readonly
        } else if i == 98 {
            HtmlAttr::referrerpolicy
        } else if i == 99 {
            HtmlAttr::rel
        } else if i == 100 {
            HtmlAttr::required
        } else if i == 101 {
            HtmlAttr::reversed
        } else if i == 102 {
            HtmlAttr::role
        } else if i == 103 {
            HtmlAttr::rows
        } else if i == 104 {
            HtmlAttr::rowspan
        } else if i == 105 {
            HtmlAttr::sandbox
        } else if i == 106 {
            HtmlAttr::scope
        } else if i == 107 {
            HtmlAttr::selected
        } else if i == 108 {
            HtmlAttr::shape
        } else if i == 109 {
            HtmlAttr::size
        } else if i == 110 {
            HtmlAttr::sizes
        } else if i == 111 {
            HtmlAttr::slot
        } else if i == 112 {
            HtmlAttr::span
        } else if i == 113 {
            HtmlAttr::spellcheck
        } else if i == 114 {
            HtmlAttr::src
        } else if i == 115 {
            HtmlAttr::srcdoc
        } else if i == 116 {
            HtmlAttr::srclang
        } else if i == 117 {
            HtmlAttr::srcset
        } else if i == 118 {
            HtmlAttr::start
        } else if i == 119 {
            HtmlAttr::step
        } else if i == 120 {
            HtmlAttr::style
        } else if i == 121 {
            HtmlAttr::tabindex
        } else if i == 122 {
            HtmlAttr::target
        } else if i == 123 {
            HtmlAttr::title
        } else if i == 124 {
            HtmlAttr::translate
        } else if i == 125 {
            HtmlAttr::type_
        } else if i == 126 {
            HtmlAttr::usemap
        } else if i == 127 {
            HtmlAttr::value
        } else if i == 128 {
            HtmlAttr::width
        } else {
            HtmlAttr::wrap
        }
    }

    /// The position of this value in the list of all of them.
    pub fn index(&self) -> (r: usize)
        ensures
            r == htmlattr_index(*self),
    {
        match self {
            HtmlAttr::accept => 0,
            HtmlAttr::accept_charset => 1,
            HtmlAttr::accesskey => 2,
            HtmlAttr::action => 3,
            HtmlAttr::align => 4,
            HtmlAttr::allow => 5,
            HtmlAttr::alt => 6,
            HtmlAttr::aria_checked => 7,
            HtmlAttr::aria_controls => 8,
            HtmlAttr::aria_current => 9,
            HtmlAttr::aria_describedby => 10,
            HtmlAttr::aria_disabled => 11,
            HtmlAttr::aria_expanded => 12,
            HtmlAttr::aria_haspopup => 13,
            HtmlAttr::aria_hidden => 14,
            HtmlAttr::aria_label => 15,
            HtmlAttr::aria_labelledby => 16,
            HtmlAttr::aria_live => 17,
            HtmlAttr::aria_pressed => 18,
            HtmlAttr::aria_selected => 19,
            HtmlAttr::autocapitalize => 20,
            HtmlAttr::autocomplete => 21,
            HtmlAttr::autofocus => 22,
            HtmlAttr::autoplay => 23,
            HtmlAttr::bgcolor => 24,
            HtmlAttr::border => 25,
            HtmlAttr::charset => 26,
            HtmlAttr::checked => 27,
            HtmlAttr::cite => 28,
            HtmlAttr::class => 29,
            HtmlAttr::color => 30,
            HtmlAttr::cols => 31,
            HtmlAttr::colspan => 32,
            HtmlAttr::content => 33,
            HtmlAttr::contenteditable => 34,
            HtmlAttr::controls => 35,
            HtmlAttr::coords => 36,
            HtmlAttr::crossorigin => 37,
            HtmlAttr::data => 38,
            HtmlAttr::datetime => 39,
            HtmlAttr::decoding => 40,
            HtmlAttr::default => 41,
            HtmlAttr::defer => 42,
            HtmlAttr::dir => 43,
            HtmlAttr::dirname => 44,
            HtmlAttr::disabled => 45,
            HtmlAttr::download => 46,
            HtmlAttr::draggable => 47,
            HtmlAttr::enctype => 48,
            HtmlAttr::enterkeyhint => 49,
            HtmlAttr::for_ => 50,
            HtmlAttr::form => 51,
            HtmlAttr::formaction => 52,
            HtmlAttr::headers => 53,
            HtmlAttr::height => 54,
            HtmlAttr::hidden => 55,
            HtmlAttr::high => 56,
            HtmlAttr::href => 57,
            HtmlAttr::hreflang => 58,
            HtmlAttr::http_equiv => 59,
            HtmlAttr::id => 60,
            HtmlAttr::inert => 61,
            HtmlAttr::inputmode => 62,
            HtmlAttr::integrity => 63,
            HtmlAttr::is_ => 64,
            HtmlAttr::itemid => 65,
            HtmlAttr::itemprop => 66,
            HtmlAttr::itemref => 67,
            HtmlAttr::itemscope => 68,
            HtmlAttr::itemtype => 69,
            HtmlAttr::kind => 70,
            HtmlAttr::label => 71,
            HtmlAttr::lang => 72,
            HtmlAttr::language => 73,
            HtmlAttr::list => 74,
            HtmlAttr::loading => 75,
            HtmlAttr::loop_ => 76,
            HtmlAttr::low => 77,
            HtmlAttr::max => 78,
            HtmlAttr::maxlength => 79,
            HtmlAttr::media => 80,
            HtmlAttr::method => 81,
            HtmlAttr::min => 82,
            HtmlAttr::minlength => 83,
            HtmlAttr::multiple => 84,
            HtmlAttr::muted => 85,
            HtmlAttr::name => 86,
            HtmlAttr::nonce => 87,
            HtmlAttr::novalidate => 88,
            HtmlAttr::open => 89,
            HtmlAttr::optimum => 90,
            HtmlAttr::pattern => 91,
            HtmlAttr::ping => 92,
            HtmlAttr::placeholder => 93,
            HtmlAttr::popover => 94,
            HtmlAttr::poster => 95,
            HtmlAttr::preload => 96,
            HtmlAttr::readonly => 97,
            HtmlAttr::referrerpolicy => 98,
            HtmlAttr::rel => 99,
            HtmlAttr::required => 100,
            HtmlAttr::reversed => 101,
            HtmlAttr::role => 102,
            HtmlAttr::rows => 103,
            HtmlAttr::rowspan => 104,
            HtmlAttr::sandbox => 105,
            HtmlAttr::scope => 106,
            HtmlAttr::selected => 107,
            HtmlAttr::shape => 108,
            HtmlAttr::size => 109,
            HtmlAttr::sizes => 110,
            HtmlAttr::slot => 111,
            HtmlAttr::span => 112,
            HtmlAttr::spellcheck => 113,
            HtmlAttr::src => 114,
            HtmlAttr::srcdoc => 115,
            HtmlAttr::srclang => 116,
            HtmlAttr::srcset => 117,
            HtmlAttr::start => 118,
            HtmlAttr::step => 119,
            HtmlAttr::style => 120,
            HtmlAttr::tabindex => 121,
            HtmlAttr::target => 122,
            HtmlAttr::title => 123,
            HtmlAttr::translate => 124,
            HtmlAttr::type_ => 125,
            HtmlAttr::usemap => 126,
            HtmlAttr::value => 127,
            HtmlAttr::width => 128,
            HtmlAttr::wrap => 129,
        }
    }
}

/// Whether selectors compare the attribute's value with regard to case by default.
pub open spec fn attr_case_sensitive(a: HtmlAttr) -> bool {
    match a {
        HtmlAttr::accept => false,
        HtmlAttr::accept_charset => false,
        HtmlAttr::align => false,
        HtmlAttr::bgcolor => false,
        HtmlAttr::charset => false,
        HtmlAttr::checked => false,
        HtmlAttr::color => false,
        HtmlAttr::defer => false,
        HtmlAttr::dir => false,
        HtmlAttr::disabled => false,
        HtmlAttr::enctype => false,
        HtmlAttr::hreflang => false,
        HtmlAttr::http_equiv => false,
        HtmlAttr::lang => false,
        HtmlAttr::language => false,
        HtmlAttr::media => false,
        HtmlAttr::method => false,
        HtmlAttr::multiple => false,
        HtmlAttr::readonly => false,
        HtmlAttr::rel => false,
        HtmlAttr::scope => false,
        HtmlAttr::selected => false,
        HtmlAttr::shape => false,
        HtmlAttr::target => false,
        HtmlAttr::type_ => false,
        _ => true,
    }
}

impl HtmlAttr {
    pub fn is_case_sensitive(&self) -> (r: bool)
        ensures
            r == attr_case_sensitive(*self),
    {
        match self {
            HtmlAttr::accept => false,
            HtmlAttr::accept_charset => false,
            HtmlAttr::align => false,
            HtmlAttr::bgcolor => false,
            HtmlAttr::charset => false,
            HtmlAttr::checked => false,
            HtmlAttr::color => false,
            HtmlAttr::defer => false,
            HtmlAttr::dir => false,
            HtmlAttr::disabled => false,
            HtmlAttr::enctype => false,
            HtmlAttr::hreflang => false,
            HtmlAttr::http_equiv => false,
            HtmlAttr::lang => false,
            HtmlAttr::language => false,
            HtmlAttr::media => false,
            HtmlAttr::method => false,
            HtmlAttr::multiple => false,
            HtmlAttr::readonly => false,
            HtmlAttr::rel => false,
            HtmlAttr::scope => false,
            HtmlAttr::selected => false,
            HtmlAttr::shape => false,
            HtmlAttr::target => false,
            HtmlAttr::type_ => false,
            _ => true,
        }
    }
}

/// Whether `v` holds the characters of `s`.
pub fn eq_str(v: &Vec<char>, s: &str) -> (r: bool)
    ensures
        r == (v@ == s@),
{
    let w = chars_of(s);
    if w.len() != v.len() {
        return false;
    }
    let mut i: usize = 0;
    while i < v.len()
        invariant
            w@ == s@,
            w@.len() == v@.len(),
            0 <= i <= v@.len(),
            forall|j: int| 0 <= j < i ==> v@[j] == w@[j],
        decreases v@.len() - i,
    {
        if v[i] != w[i] {
            return false;
        }
        i = i + 1;
    }
    assert(v@ =~= w@);
    true
}

/// The first standard tag, from position `i` of the list on, whose name is `n`.
pub open spec fn tag_lookup(n: Seq<char>, i: nat) -> Option<HtmlTag>
    decreases 117 - i,
{
    if i >= 117 {
        None
    } else if htmltag_name(htmltag_at(i)) == n {
        Some(htmltag_at(i))
    } else {
        tag_lookup(n, i + 1)
    }
}

/// The first standard attribute, from position `i` of the list on, whose name is `n`.
pub open spec fn attr_lookup(n: Seq<char>, i: nat) -> Option<HtmlAttr>
    decreases ATTR_COUNT - i,
{
    if i >= ATTR_COUNT {
        None
    } else if htmlattr_name(htmlattr_at(i)) == n {
        Some(htmlattr_at(i))
    } else {
        attr_lookup(n, i + 1)
    }
}

/// A name looked up gives a tag of that name.
pub proof fn lemma_tag_lookup_name(n: Seq<char>, i: nat)
    ensures
        tag_lookup(n, i) matches Some(t) ==> htmltag_name(t) == n,
    decreases 117 - i,
{
    if i < 117 && htmltag_name(htmltag_at(i)) != n {
        lemma_tag_lookup_name(n, i + 1);
    }
}

/// The standard tag whose name is `name`, if any. The `sys_` tags are not looked up.
pub fn tag_from_name(name: &Vec<char>) -> (r: Option<HtmlTag>)
    ensures
        r == tag_lookup(name@, 0),
{
    let mut i: usize = 0;
    while i < 117
        invariant
            0 <= i <= 117,
            tag_lookup(name@, i as nat) == tag_lookup(name@, 0),
        decreases 117 - i,
    {
        let t = HtmlTag::at(i);
        if eq_str(name, t.name()) {
            return Some(t);
        }
        i = i + 1;
    }
    None
}

/// The standard attribute whose name is `name`, if any.
pub fn attr_from_name(name: &Vec<char>) -> (r: Option<HtmlAttr>)
    ensures
        r == attr_lookup(name@, 0),
{
    let mut i: usize = 0;
    while i < ATTR_COUNT
        invariant
            0 <= i <= ATTR_COUNT,
            attr_lookup(name@, i as nat) == attr_lookup(name@, 0),
        decreases ATTR_COUNT - i,
    {
        let a = HtmlAttr::at(i);
        if eq_str(name, a.name()) {
            return Some(a);
        }
        i = i + 1;
    }
    None
}

} // verus!
