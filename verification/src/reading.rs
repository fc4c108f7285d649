//! What reading HTML makes of a text: the reader's state after each node it reads,
//! and the document it ends with.
use vstd::prelude::*;

use crate::css::patterns::attribute_operator::occurs_at;
use crate::css::patterns::attribute_pattern::AttrNameV;
use crate::css::selectors::tag::lower;
use crate::dom::document::{AttrV, DomV, MAX_NODES};
use crate::dom::nav::is_elem;
use crate::dom::nodes::{code_of, spec_add_last};
use crate::dom::rebuild::root_dom;
use crate::entities::decoded_entities;
use crate::html::{attr_lookup, tag_lookup, HtmlTag};
use crate::html_doc::{void_name, HtmlError};
use crate::text::{is_ascii_alpha, is_white};

verus! {

/// The first position from `p` on that holds `c`, or the end of `s`.
pub open spec fn find_c(s: Seq<char>, p: int, c: char) -> int
    decreases s.len() - p,
{
    if 0 <= p < s.len() && s[p] != c { find_c(s, p + 1, c) } else { p }
}

/// The first position from `p` on where `pat` begins, or the end of `s`.
pub open spec fn find_s(s: Seq<char>, p: int, pat: Seq<char>) -> int
    decreases s.len() - p,
{
    if 0 <= p < s.len() && !occurs_at(s, p, pat) { find_s(s, p + 1, pat) } else { p }
}

/// The first position from `p` on that holds white space or one of `a`, `b`, `c`, or
/// the end of `s`.
pub open spec fn scan(s: Seq<char>, p: int, a: char, b: char, c: char) -> int
    decreases s.len() - p,
{
    if 0 <= p < s.len() && !is_white(s[p]) && s[p] != a && s[p] != b && s[p] != c {
        scan(s, p + 1, a, b, c)
    } else {
        p
    }
}

/// The first position from `p` on that does not hold white space, or the end of `s`.
pub open spec fn skip_w(s: Seq<char>, p: int) -> int
    decreases s.len() - p,
{
    if 0 <= p < s.len() && is_white(s[p]) { skip_w(s, p + 1) } else { p }
}

/// The words of `v` from position `i` on, separated by white space.
pub open spec fn words_from(v: Seq<char>, i: int) -> Seq<Seq<char>>
    decreases v.len() - i,
{
    if !(0 <= i < v.len()) {
        Seq::empty()
    } else {
        let a = skip_w(v, i);
        let b = scan(v, a, ' ', ' ', ' ');
        let rest = if i < b <= v.len() { words_from(v, b) } else { words_from(v, i + 1) };
        if a < b { seq![v.subrange(a, b)] + rest } else { rest }
    }
}

/// The name of an attribute written `n`: a standard one, or any other.
pub open spec fn attr_name_for(n: Seq<char>) -> AttrNameV {
    match attr_lookup(n, 0) {
        Some(a) => AttrNameV::Std(a),
        None => AttrNameV::Ext(n),
    }
}

/// The tag of an element named `n`: a standard one, or the one for other names.
pub open spec fn tag_for(n: Seq<char>) -> HtmlTag {
    match tag_lookup(n, 0) {
        Some(t) => t,
        None => HtmlTag::sys_ext,
    }
}

/// The reader's state: where it stands, the document so far and the open elements.
pub struct ReadV {
    pub pos: int,
    pub dom: DomV,
    pub stack: Seq<u32>,
}

/// `st` with the reading position at `p`.
pub open spec fn at(st: ReadV, p: int) -> ReadV {
    ReadV { pos: p, dom: st.dom, stack: st.stack }
}

/// Adding a node to the innermost open element: refused where the document is full.
pub open spec fn add_node(
    st: ReadV,
    t: HtmlTag,
    name: Seq<char>,
    attrs: Seq<AttrV>,
    classes: Seq<Seq<char>>,
    text: Seq<char>,
) -> Result<ReadV, HtmlError> {
    if st.dom.recs.len() >= MAX_NODES - 1 {
        Err(HtmlError::TooManyNodes)
    } else {
        Ok(ReadV {
            pos: st.pos,
            dom: DomV {
                recs: spec_add_last(st.dom.recs, st.stack.last() as int, code_of(t)),
                names: st.dom.names.push(name),
                attrs: st.dom.attrs.push(attrs),
                classes: st.dom.classes.push(classes),
                texts: st.dom.texts.push(text),
            },
            stack: st.stack,
        })
    }
}

/// Reading text from the current position up to the next `<` after `from`; the text,
/// its character references decoded, becomes a text node where it is not empty.
pub open spec fn read_text(s: Seq<char>, st: ReadV, from: int) -> Result<ReadV, HtmlError> {
    let end = find_c(s, from + 1, '<');
    let t = decoded_entities(s.subrange(st.pos, end));
    if t.len() > 0 {
        add_node(at(st, end), HtmlTag::sys_text, Seq::empty(), Seq::empty(), Seq::empty(), t)
    } else {
        Ok(at(st, end))
    }
}

/// Reading a comment `<!-- ... -->`, its content kept as written.
pub open spec fn read_comment(s: Seq<char>, st: ReadV) -> Result<ReadV, HtmlError> {
    let end = find_s(s, st.pos + 4, "-->"@);
    let p = if end + 3 <= s.len() { end + 3 } else { s.len() as int };
    add_node(at(st, p), HtmlTag::sys_comment, Seq::empty(), Seq::empty(), Seq::empty(), s.subrange(st.pos + 4, end))
}

/// Reading a declaration `<!...>`: a doctype, whose words become its attributes, or
/// anything else, kept as a comment.
pub open spec fn read_declaration(s: Seq<char>, st: ReadV) -> Result<ReadV, HtmlError> {
    let end = find_c(s, st.pos + 2, '>');
    let content = s.subrange(st.pos + 2, end);
    let p = if end < s.len() { end + 1 } else { end };
    let head_end = scan(content, 0, '>', '>', '>');
    if lower(content.subrange(0, head_end)) == "doctype"@ {
        let words = words_from(content.subrange(head_end, content.len() as int), 0);
        let attrs = words.map_values(|w: Seq<char>| AttrV { name: AttrNameV::Ext(w), value: Seq::empty() });
        add_node(at(st, p), HtmlTag::sys_doctype, Seq::empty(), attrs, Seq::empty(), Seq::empty())
    } else {
        add_node(at(st, p), HtmlTag::sys_comment, Seq::empty(), Seq::empty(), Seq::empty(), content)
    }
}

/// The open elements `stack`, looked at from the `k`-th down, with the innermost one
/// named `name` and those inside it closed; unchanged where none is.
pub open spec fn close_to(d: DomV, stack: Seq<u32>, name: Seq<char>, k: int) -> Seq<u32>
    decreases k,
{
    if k <= 1 {
        stack
    } else {
        let n = stack[k - 1] as int;
        if is_elem(d, n) && d.names[n] == name { stack.take(k - 1) } else { close_to(d, stack, name, k - 1) }
    }
}

/// Reading an end tag `</name>`: it closes back to the innermost open element of that
/// name.
pub open spec fn read_end_tag(s: Seq<char>, st: ReadV) -> ReadV {
    let a = st.pos + 2;
    let b = scan(s, a, '>', '/', '>');
    let name = lower(s.subrange(a, b));
    let gt = find_c(s, b, '>');
    let p = if gt < s.len() { gt + 1 } else { gt };
    ReadV { pos: p, dom: st.dom, stack: close_to(st.dom, st.stack, name, st.stack.len() as int) }
}

/// The value of an attribute from position `r` of `s` (at its `=` or not), and where
/// reading goes on after it.
pub open spec fn attr_value(s: Seq<char>, q: int, r: int) -> (Seq<char>, int) {
    if r < s.len() && s[r] == '=' {
        let v = skip_w(s, r + 1);
        if v < s.len() && (s[v] == '"' || s[v] == '\'') {
            let e = find_c(s, v + 1, s[v]);
            (decoded_entities(s.subrange(v + 1, e)), if e < s.len() { e + 1 } else { e })
        } else {
            let e = scan(s, v, '>', '>', '>');
            (decoded_entities(s.subrange(v, e)), e)
        }
    } else {
        (Seq::empty(), q)
    }
}

/// Reading the attributes of a start tag from position `pos`, with `attrs` and
/// `classes` read so far: where reading goes on, the attributes, the classes, and
/// whether the tag closes itself with `/>`.
pub open spec fn read_attrs(s: Seq<char>, pos: int, attrs: Seq<AttrV>, classes: Seq<Seq<char>>) -> (int, Seq<AttrV>, Seq<Seq<char>>, bool)
    decreases s.len() - pos,
{
    let p = skip_w(s, pos);
    if !(0 <= pos <= p) || p >= s.len() {
        (p, attrs, classes, false)
    } else if s[p] == '>' {
        (p + 1, attrs, classes, false)
    } else if s[p] == '/' && p + 1 < s.len() && s[p + 1] == '>' {
        (p + 2, attrs, classes, true)
    } else {
        let q = scan(s, p, '=', '>', '/');
        if q <= p {
            read_attrs(s, p + 1, attrs, classes)
        } else {
            let name = lower(s.subrange(p, q));
            let (value, next) = attr_value(s, q, skip_w(s, q));
            let attrs2 = if name == "class"@ { attrs } else { attrs.push(AttrV { name: attr_name_for(name), value }) };
            let classes2 = if name == "class"@ { classes + words_from(value, 0) } else { classes };
            if pos < next <= s.len() { read_attrs(s, next, attrs2, classes2) } else { (next, attrs2, classes2, false) }
        }
    }
}

/// Where the verbatim content from position `i` on ends: at the end tag written
/// `close` in any case, or at the end of `s`.
pub open spec fn raw_end(s: Seq<char>, i: int, close: Seq<char>) -> int
    decreases s.len() - i,
{
    if 0 <= i < s.len() && !(s[i] == '<' && close.len() <= s.len() - i && lower(s.subrange(i, i + close.len())) == close) {
        raw_end(s, i + 1, close)
    } else {
        i
    }
}

/// Reading the content of a `script` or `style` element named `name` verbatim, up to
/// its end tag; it becomes a text node where it is not empty.
pub open spec fn read_raw_text(s: Seq<char>, st: ReadV, name: Seq<char>) -> Result<ReadV, HtmlError> {
    let i = raw_end(s, st.pos, "</"@ + name);
    let content = s.subrange(st.pos, i);
    if content.len() > 0 {
        add_node(at(st, i), HtmlTag::sys_text, Seq::empty(), Seq::empty(), Seq::empty(), content)
    } else {
        Ok(at(st, i))
    }
}

/// Reading a start tag `<name ...>`: the element is added and, unless it closes itself
/// or is void, opened; the content of `script` and `style` is then read verbatim.
pub open spec fn read_start_tag(s: Seq<char>, st: ReadV) -> Result<ReadV, HtmlError> {
    let a = st.pos + 1;
    let b = scan(s, a, '>', '/', '>');
    let name = lower(s.subrange(a, b));
    let p = if b > a { b } else { a + 1 };
    let (p2, attrs, classes, self_closing) = read_attrs(s, p, Seq::empty(), Seq::empty());
    match add_node(at(st, p2), tag_for(name), name, attrs, classes, Seq::empty()) {
        Err(e) => Err(e),
        Ok(st3) => if !self_closing && !void_name(name) {
            let st4 = ReadV { pos: st3.pos, dom: st3.dom, stack: st3.stack.push(st.dom.recs.len() as u32) };
            if name == "script"@ || name == "style"@ { read_raw_text(s, st4, name) } else { Ok(st4) }
        } else {
            Ok(st3)
        },
    }
}

/// Reading the node that starts at the current position.
pub open spec fn read_step(s: Seq<char>, st: ReadV) -> Result<ReadV, HtmlError> {
    let p = st.pos;
    if s[p] != '<' || p + 1 >= s.len() {
        read_text(s, st, p)
    } else {
        let c = s[p + 1];
        if c == '!' {
            if p + 4 <= s.len() && s[p + 2] == '-' && s[p + 3] == '-' {
                read_comment(s, st)
            } else {
                read_declaration(s, st)
            }
        } else if c == '/' {
            Ok(read_end_tag(s, st))
        } else if is_ascii_alpha(c) {
            read_start_tag(s, st)
        } else {
            read_text(s, st, p)
        }
    }
}

/// Reading nodes from the current position to the end of `s`.
pub open spec fn read_all(s: Seq<char>, st: ReadV) -> Result<ReadV, HtmlError>
    decreases s.len() - st.pos,
{
    if !(0 <= st.pos < s.len()) {
        Ok(st)
    } else {
        match read_step(s, st) {
            Err(e) => Err(e),
            Ok(st2) => if st.pos < st2.pos <= s.len() { read_all(s, st2) } else { Ok(st2) },
        }
    }
}

/// What reading `html` gives: the document, or why there is none.
pub open spec fn read_html(html: Seq<char>) -> Result<DomV, HtmlError> {
    if html.len() > usize::MAX - 8 {
        Err(HtmlError::TooLarge)
    } else {
        match read_all(html, ReadV { pos: 0, dom: root_dom(), stack: seq![0u32] }) {
            Ok(st) => Ok(st.dom),
            Err(e) => Err(e),
        }
    }
}

} // verus!
