//! Reading HTML into a document.
//!
//! The reader keeps a stack of open elements and appends each node as the last child
//! of the innermost one: start tags open an element (void elements and `<x/>` do not
//! stay open), end tags close back to the innermost open element of that name, and are
//! ignored where none is open. Text and attribute values have their character
//! references decoded; the content of `script` and `style` is kept verbatim, and so
//! are comments. Tag and attribute names are taken in lowercase; the `class` attribute
//! is split into the element's classes.
use vstd::prelude::*;

use crate::css::patterns::attribute_operator::occurs_at_exec;
use crate::css::patterns::attribute_pattern::AttributeName;
use crate::css::selectors::tag::lower_chars;
use crate::dom::document::{attrs_view, lemma_add_last_ordered, ordered, strs_view, Attribute, DomInner, MAX_NODES};
use crate::dom::nodes::{code_of, is_string_tag};
use crate::entities::{decode, decoded_entities};
use crate::reading::{
    add_node, attr_name_for, attr_value, close_to, find_c, find_s, raw_end, read_all, read_attrs, read_comment,
    read_declaration, read_end_tag, read_html, read_raw_text, read_start_tag, read_step, read_text, scan, skip_w, tag_for,
    words_from, ReadV,
};
use crate::dom::document::DomV;
use crate::dom::rebuild::root_dom;
use crate::css::patterns::attribute_pattern::AttrNameV;
use crate::dom::document::AttrV;
use crate::html::{attr_from_name, eq_str, htmltag_index, htmltag_name, lemma_htmltag_index, tag_from_name, HtmlTag};
use crate::text::{chars_of, is_white, string_from_chars, white};

verus! {

/// Why a document could not be read.
#[derive(Debug, Clone, Copy, PartialEq, Eq, Structural)]
pub enum HtmlError {
    /// The document holds more nodes than a node index can name.
    TooManyNodes,
    /// The document is longer than the reader can index.
    TooLarge,
}

/// A document read from HTML.
pub struct HtmlDoc {
    dom: DomInner,
}

/// Tags other than text and comment have element codes, not string codes.
proof fn lemma_elem_code(t: HtmlTag)
    requires
        t != HtmlTag::sys_text,
        t != HtmlTag::sys_comment,
    ensures
        !is_string_tag(code_of(t)),
{
    broadcast use lemma_htmltag_index;
    assert(htmltag_index(HtmlTag::sys_text) == 118);
    assert(htmltag_index(HtmlTag::sys_comment) == 119);
}

/// The text and comment tags have their string codes.
proof fn lemma_code_text_comment()
    ensures
        code_of(HtmlTag::sys_text) == 118,
        code_of(HtmlTag::sys_comment) == 119,
{
    broadcast use lemma_htmltag_index;
    assert(htmltag_index(HtmlTag::sys_text) == 118);
    assert(htmltag_index(HtmlTag::sys_comment) == 119);
}

/// The characters of `s` from `a` to `b`.
fn slice(s: &Vec<char>, a: usize, b: usize) -> (r: Vec<char>)
    requires
        a <= b <= s@.len(),
    ensures
        r@ == s@.subrange(a as int, b as int),
{
    let mut out: Vec<char> = Vec::new();
    let mut i = a;
    while i < b
        invariant
            a <= i <= b,
            b <= s@.len(),
            out@ == s@.subrange(a as int, i as int),
        decreases b - i,
    {
        out.push(s[i]);
        i = i + 1;
        assert(out@ =~= s@.subrange(a as int, i as int));
    }
    out
}

/// The first position from `p` on that holds `c`, or the end.
fn find_char(s: &Vec<char>, p: usize, c: char) -> (r: usize)
    requires
        p <= s@.len(),
    ensures
        p <= r <= s@.len(),
        r < s@.len() ==> s@[r as int] == c,
        r == find_c(s@, p as int, c),
{
    let mut i = p;
    while i < s.len() && s[i] != c
        invariant
            p <= i <= s@.len(),
            find_c(s@, i as int, c) == find_c(s@, p as int, c),
        decreases s@.len() - i,
    {
        i = i + 1;
    }
    i
}

/// The first position from `p` on where `pat` begins, or the end.
fn find_str(s: &Vec<char>, p: usize, pat: &Vec<char>) -> (r: usize)
    requires
        p <= s@.len(),
    ensures
        p <= r <= s@.len(),
        r == find_s(s@, p as int, pat@),
{
    let mut i = p;
    while i < s.len() && !occurs_at_exec(s, i, pat)
        invariant
            p <= i <= s@.len(),
            find_s(s@, i as int, pat@) == find_s(s@, p as int, pat@),
        decreases s@.len() - i,
    {
        i = i + 1;
    }
    i
}

/// The first position from `p` on that is whitespace or one of `stops`, or the end.
fn scan_name(s: &Vec<char>, p: usize, stop1: char, stop2: char, stop3: char) -> (r: usize)
    requires
        p <= s@.len(),
    ensures
        p <= r <= s@.len(),
        p < s@.len() && !is_white(s@[p as int]) && s@[p as int] != stop1 && s@[p as int] != stop2
            && s@[p as int] != stop3 ==> r > p,
        r == scan(s@, p as int, stop1, stop2, stop3),
{
    let mut i = p;
    while i < s.len() && !white(s[i]) && s[i] != stop1 && s[i] != stop2 && s[i] != stop3
        invariant
            p <= i <= s@.len(),
            scan(s@, i as int, stop1, stop2, stop3) == scan(s@, p as int, stop1, stop2, stop3),
        decreases s@.len() - i,
    {
        i = i + 1;
    }
    i
}

/// The first position from `p` on that is not whitespace, or the end.
fn skip_white(s: &Vec<char>, p: usize) -> (r: usize)
    requires
        p <= s@.len(),
    ensures
        p <= r <= s@.len(),
        r == skip_w(s@, p as int),
{
    let mut i = p;
    while i < s.len() && white(s[i])
        invariant
            p <= i <= s@.len(),
            skip_w(s@, i as int) == skip_w(s@, p as int),
        decreases s@.len() - i,
    {
        i = i + 1;
    }
    i
}

/// The whitespace-separated words of `v`.
fn split_words(v: &Vec<char>) -> (r: Vec<Vec<char>>)
    ensures
        strs_view(r@) == words_from(v@, 0),
{
    let mut out: Vec<Vec<char>> = Vec::new();
    let mut i: usize = 0;
    while i < v.len()
        invariant
            i <= v@.len(),
            strs_view(out@) + words_from(v@, i as int) == words_from(v@, 0),
        decreases v@.len() - i,
    {
        let ghost before = strs_view(out@);
        let a = skip_white(v, i);
        let b = scan_name(v, a, ' ', ' ', ' ');
        let ghost rest = if i < b && b <= v@.len() { words_from(v@, b as int) } else { words_from(v@, i + 1) };
        if a < b {
            let w = slice(v, a, b);
            out.push(w);
            proof {
                assert(strs_view(out@) =~= before.push(v@.subrange(a as int, b as int)));
                assert(before + (seq![v@.subrange(a as int, b as int)] + rest) =~= strs_view(out@) + rest);
            }
        }
        if b > i {
            i = b;
        } else {
            i = i + 1;
        }
    }
    proof {
        assert(strs_view(out@) + words_from(v@, i as int) =~= strs_view(out@));
    }
    out
}

/// `v` with its character references decoded.
fn decoded(v: &Vec<char>) -> (r: Vec<char>)
    ensures
        r@ == decoded_entities(v@),
{
    let s = string_from_chars(v.as_slice());
    let d = decode(s.as_str());
    chars_of(d.as_str())
}

/// Whether `n` names a void element, which has no content and no end tag.
pub open spec fn void_name(n: Seq<char>) -> bool {
    n == "area"@ || n == "base"@ || n == "br"@ || n == "col"@ || n == "embed"@ || n == "hr"@ || n == "img"@
        || n == "input"@ || n == "link"@ || n == "meta"@ || n == "param"@ || n == "source"@ || n == "track"@
        || n == "wbr"@
}

/// Whether `name` is that of a void element, which has no content and no end tag.
pub fn is_void_name(name: &Vec<char>) -> (r: bool)
    ensures
        r == void_name(name@),
{
    eq_str(name, "area") || eq_str(name, "base") || eq_str(name, "br") || eq_str(name, "col")
        || eq_str(name, "embed") || eq_str(name, "hr") || eq_str(name, "img") || eq_str(name, "input")
        || eq_str(name, "link") || eq_str(name, "meta") || eq_str(name, "param") || eq_str(name, "source")
        || eq_str(name, "track") || eq_str(name, "wbr")
}

/// The reader's state: the input, the position in it, the document so far, and the
/// open elements.
struct Reader {
    s: Vec<char>,
    pos: usize,
    dom: DomInner,
    stack: Vec<u32>,
}

/// Whether a reading step that ended with `r`, leaving the reader at `fin`, went as
/// `sp` says: to that state, or with that error.
pub open spec fn outcome<T>(r: Result<T, HtmlError>, fin: ReadV, sp: Result<ReadV, HtmlError>) -> bool {
    match sp {
        Ok(v) => r is Ok && fin == v,
        Err(e) => r == Err::<T, HtmlError>(e),
    }
}

impl Reader {
    spec fn ok(&self) -> bool {
        &&& self.dom.wf()
        &&& ordered(self.dom@.recs)
        &&& self.pos <= self.s@.len()
        &&& self.s@.len() + 8 <= usize::MAX
        &&& self.stack@.len() >= 1
        &&& forall|k: int| 0 <= k < self.stack@.len() ==> (#[trigger] self.stack@[k]) < self.dom@.recs.len()
            && !is_string_tag(self.dom@.recs[self.stack@[k] as int].tag)
    }

    /// The reader's state as a plain value.
    spec fn rv(&self) -> ReadV {
        ReadV { pos: self.pos as int, dom: self.dom@, stack: self.stack@ }
    }

    /// Appends a node to the innermost open element.
    fn add(&mut self, tag: HtmlTag, name: Vec<char>, attrs: Vec<Attribute>, classes: Vec<Vec<char>>, text: Vec<char>) -> (r: Result<u32, HtmlError>)
        requires
            old(self).ok(),
            !is_string_tag(code_of(tag)) || tag == HtmlTag::sys_text || tag == HtmlTag::sys_comment,
        ensures
            final(self).ok(),
            final(self).s == old(self).s,
            final(self).pos == old(self).pos,
            final(self).stack == old(self).stack,
            r matches Ok(n) ==> n == old(self).dom@.recs.len() && n < final(self).dom@.recs.len() && final(self).dom@.recs[n as int].tag == code_of(tag),
            outcome(r, final(self).rv(), add_node(old(self).rv(), tag, name@, attrs_view(attrs@), strs_view(classes@), text@)),
    {
        if self.dom.len() >= MAX_NODES - 1 {
            return Err(HtmlError::TooManyNodes);
        }
        let parent = self.stack[self.stack.len() - 1];
        let ghost v = self.dom@.recs;
        proof {
            assert(self.stack@[self.stack@.len() - 1] == parent);
            lemma_add_last_ordered(v, parent as int, code_of(tag));
        }
        let n = self.dom.append_node(parent, tag, name, attrs, classes, text);
        proof {
            assert forall|k: int| 0 <= k < self.stack@.len() implies (#[trigger] self.stack@[k]) < self.dom@.recs.len()
                && !is_string_tag(self.dom@.recs[self.stack@[k] as int].tag) by {
                assert(self.stack@[k] < v.len());
            }
        }
        Ok(n)
    }

    /// Opens element `n`.
    fn open(&mut self, n: u32)
        requires
            old(self).ok(),
            n < old(self).dom@.recs.len(),
            !is_string_tag(old(self).dom@.recs[n as int].tag),
        ensures
            final(self).ok(),
            final(self).s == old(self).s,
            final(self).pos == old(self).pos,
            final(self).rv() == (ReadV { pos: old(self).rv().pos, dom: old(self).rv().dom, stack: old(self).rv().stack.push(n) }),
    {
        self.stack.push(n);
    }

    /// Reads text up to the next `<` after `from`.
    fn text(&mut self, from: usize) -> (r: Result<(), HtmlError>)
        requires
            old(self).ok(),
            old(self).pos <= from < old(self).s@.len(),
        ensures
            final(self).ok(),
            final(self).s == old(self).s,
            final(self).pos > old(self).pos,
            outcome(r, final(self).rv(), read_text(old(self).s@, old(self).rv(), from as int)),
    {
        let end = find_char(&self.s, from + 1, '<');
        let raw = slice(&self.s, self.pos, end);
        self.pos = end;
        let t = decoded(&raw);
        if t.len() > 0 {
            proof {
                lemma_code_text_comment();
            }
            self.add(HtmlTag::sys_text, Vec::new(), Vec::new(), Vec::new(), t)?;
        }
        proof {
            assert(attrs_view(Seq::<Attribute>::empty()) =~= Seq::<AttrV>::empty());
            assert(strs_view(Seq::<Vec<char>>::empty()) =~= Seq::<Seq<char>>::empty());
        }
        Ok(())
    }

    /// Reads a comment `<!-- ... -->`.
    fn comment(&mut self) -> (r: Result<(), HtmlError>)
        requires
            old(self).ok(),
            old(self).pos + 4 <= old(self).s@.len(),
        ensures
            final(self).ok(),
            final(self).s == old(self).s,
            final(self).pos > old(self).pos,
            outcome(r, final(self).rv(), read_comment(old(self).s@, old(self).rv())),
    {
        let close = chars_of("-->");
        let end = find_str(&self.s, self.pos + 4, &close);
        let content = slice(&self.s, self.pos + 4, end);
        self.pos = if end + 3 <= self.s.len() { end + 3 } else { self.s.len() };
        proof {
            lemma_code_text_comment();
            assert(attrs_view(Seq::<Attribute>::empty()) =~= Seq::<AttrV>::empty());
            assert(strs_view(Seq::<Vec<char>>::empty()) =~= Seq::<Seq<char>>::empty());
        }
        self.add(HtmlTag::sys_comment, Vec::new(), Vec::new(), Vec::new(), content)?;
        Ok(())
    }

    /// Reads a declaration `<!...>`: a doctype, whose words become its attributes, or
    /// anything else, kept as a comment.
    fn declaration(&mut self) -> (r: Result<(), HtmlError>)
        requires
            old(self).ok(),
            old(self).pos + 2 <= old(self).s@.len(),
        ensures
            final(self).ok(),
            final(self).s == old(self).s,
            final(self).pos > old(self).pos,
            outcome(r, final(self).rv(), read_declaration(old(self).s@, old(self).rv())),
    {
        let start = self.pos + 2;
        let end = find_char(&self.s, start, '>');
        let content = slice(&self.s, start, end);
        self.pos = if end < self.s.len() { end + 1 } else { end };
        let head_end = scan_name(&content, 0, '>', '>', '>');
        let head = lower_chars(&slice(&content, 0, head_end));
        proof {
            lemma_code_text_comment();
            assert(attrs_view(Seq::<Attribute>::empty()) =~= Seq::<AttrV>::empty());
            assert(strs_view(Seq::<Vec<char>>::empty()) =~= Seq::<Seq<char>>::empty());
        }
        if eq_str(&head, "doctype") {
            let words = split_words(&slice(&content, head_end, content.len()));
            let ghost wv = strs_view(words@);
            let mut attrs: Vec<Attribute> = Vec::new();
            let mut k: usize = 0;
            while k < words.len()
                invariant
                    k <= words@.len(),
                    attrs@.len() == k,
                    wv == strs_view(words@),
                    attrs_view(attrs@) == wv.take(k as int).map_values(|w: Seq<char>| AttrV { name: AttrNameV::Ext(w), value: Seq::empty() }),
                decreases words@.len() - k,
            {
                let ghost pre = attrs@;
                let a = Attribute { name: AttributeName::Ext(string_from_chars(words[k].as_slice())), value: String::new() };
                proof {
                    assert(words@[k as int]@ == wv[k as int]);
                    assert(a@ == AttrV { name: AttrNameV::Ext(wv[k as int]), value: Seq::empty() });
                }
                attrs.push(a);
                proof {
                    let target = wv.take(k + 1).map_values(|w: Seq<char>| AttrV { name: AttrNameV::Ext(w), value: Seq::empty() });
                    assert forall|j: int| 0 <= j < k + 1 implies #[trigger] attrs_view(attrs@)[j] == target[j] by {
                        if j < k {
                            assert(attrs@[j] == pre[j]);
                            assert(attrs_view(pre)[j] == wv.take(k as int).map_values(|w: Seq<char>| AttrV { name: AttrNameV::Ext(w), value: Seq::empty() })[j]);
                        }
                    }
                    assert(attrs_view(attrs@) =~= target);
                }
                k = k + 1;
            }
            proof {
                assert(wv.take(wv.len() as int) =~= wv);
                lemma_elem_code(HtmlTag::sys_doctype);
            }
            self.add(HtmlTag::sys_doctype, Vec::new(), attrs, Vec::new(), Vec::new())?;
        } else {
            self.add(HtmlTag::sys_comment, Vec::new(), Vec::new(), Vec::new(), content)?;
        }
        Ok(())
    }

    /// Reads an end tag `</name>`: closes back to the innermost open element of that
    /// name, if there is one.
    fn end_tag(&mut self)
        requires
            old(self).ok(),
            old(self).pos + 2 <= old(self).s@.len(),
        ensures
            final(self).ok(),
            final(self).s == old(self).s,
            final(self).pos > old(self).pos,
            final(self).rv() == read_end_tag(old(self).s@, old(self).rv()),
    {
        let ghost st = self.rv();
        let a = self.pos + 2;
        let b = scan_name(&self.s, a, '>', '/', '>');
        let name = lower_chars(&slice(&self.s, a, b));
        let gt = find_char(&self.s, b, '>');
        self.pos = if gt < self.s.len() { gt + 1 } else { gt };
        let ghost s0 = self.s;
        let ghost p0 = self.pos;
        let mut k = self.stack.len();
        while k > 1
            invariant
                self.ok(),
                1 <= k <= self.stack@.len(),
                self.s == s0,
                self.pos == p0,
                s0 == old(self).s,
                p0 > old(self).pos,
                self.dom@ == st.dom,
                self.stack@ == st.stack,
                close_to(st.dom, st.stack, name@, k as int) == close_to(st.dom, st.stack, name@, st.stack.len() as int),
                read_end_tag(old(self).s@, old(self).rv())
                    == (ReadV { pos: p0 as int, dom: st.dom, stack: close_to(st.dom, st.stack, name@, st.stack.len() as int) }),
            decreases k,
        {
            k = k - 1;
            let n = self.stack[k];
            if self.dom.is_element(n) && crate::text::same_chars(self.dom.name(n), &name) {
                proof {
                    assert(close_to(st.dom, st.stack, name@, k + 1) == st.stack.take(k as int));
                }
                self.stack.truncate(k);
                proof {
                    assert(self.stack@ =~= st.stack.take(k as int));
                    assert forall|j: int| 0 <= j < self.stack@.len() implies (#[trigger] self.stack@[j]) < self.dom@.recs.len()
                        && !is_string_tag(self.dom@.recs[self.stack@[j] as int].tag) by {
                        assert(self.stack@[j] == st.stack[j]);
                    }
                }
                return;
            }
        }
    }

    /// Reads the attributes of a start tag up to its `>`; gives the attributes, the
    /// classes, and whether the tag closes itself with `/>`.
    fn attributes(&mut self) -> (r: (Vec<Attribute>, Vec<Vec<char>>, bool))
        requires
            old(self).ok(),
        ensures
            final(self).ok(),
            final(self).s == old(self).s,
            final(self).pos >= old(self).pos,
            final(self).dom == old(self).dom,
            final(self).stack == old(self).stack,
            (final(self).pos as int, attrs_view(r.0@), strs_view(r.1@), r.2)
                == read_attrs(old(self).s@, old(self).pos as int, Seq::empty(), Seq::empty()),
    {
        let mut attrs: Vec<Attribute> = Vec::new();
        let mut classes: Vec<Vec<char>> = Vec::new();
        proof {
            assert(attrs_view(attrs@) =~= Seq::<AttrV>::empty());
            assert(strs_view(classes@) =~= Seq::<Seq<char>>::empty());
        }
        loop
            invariant
                self.ok(),
                self.s == old(self).s,
                self.pos >= old(self).pos,
                self.dom == old(self).dom,
                self.stack == old(self).stack,
                read_attrs(self.s@, self.pos as int, attrs_view(attrs@), strs_view(classes@))
                    == read_attrs(old(self).s@, old(self).pos as int, Seq::empty(), Seq::empty()),
            decreases self.s@.len() - self.pos,
        {
            let ghost pos0 = self.pos as int;
            let ghost av = attrs_view(attrs@);
            let ghost cv = strs_view(classes@);
            let p = skip_white(&self.s, self.pos);
            self.pos = p;
            if p >= self.s.len() {
                return (attrs, classes, false);
            }
            if self.s[p] == '>' {
                self.pos = p + 1;
                return (attrs, classes, false);
            }
            if self.s[p] == '/' && p + 1 < self.s.len() && self.s[p + 1] == '>' {
                self.pos = p + 2;
                return (attrs, classes, true);
            }
            let q = scan_name(&self.s, p, '=', '>', '/');
            if q == p {
                self.pos = p + 1;
            } else {
                let name = lower_chars(&slice(&self.s, p, q));
                let mut value: Vec<char> = Vec::new();
                let r = skip_white(&self.s, q);
                if r < self.s.len() && self.s[r] == '=' {
                    let v = skip_white(&self.s, r + 1);
                    if v < self.s.len() && (self.s[v] == '"' || self.s[v] == '\'') {
                        let quote = self.s[v];
                        let e = find_char(&self.s, v + 1, quote);
                        value = decoded(&slice(&self.s, v + 1, e));
                        self.pos = if e < self.s.len() { e + 1 } else { e };
                    } else {
                        let e = scan_name(&self.s, v, '>', '>', '>');
                        value = decoded(&slice(&self.s, v, e));
                        self.pos = e;
                    }
                } else {
                    self.pos = q;
                }
                proof {
                    assert((value@, self.pos as int) == attr_value(self.s@, q as int, r as int));
                }
                if eq_str(&name, "class") {
                    let words = split_words(&value);
                    let ghost c0 = strs_view(classes@);
                    let mut k: usize = 0;
                    while k < words.len()
                        invariant
                            k <= words@.len(),
                            classes@.len() == c0.len() + k,
                            strs_view(classes@) == c0 + strs_view(words@).take(k as int),
                        decreases words@.len() - k,
                    {
                        let ghost pre = classes@;
                        let w = words[k].clone();
                        classes.push(w);
                        proof {
                            let target = c0 + strs_view(words@).take(k + 1);
                            assert forall|j: int| 0 <= j < classes@.len() implies #[trigger] strs_view(classes@)[j] == target[j] by {
                                if j < pre.len() {
                                    assert(classes@[j] == pre[j]);
                                    assert(strs_view(pre)[j] == (c0 + strs_view(words@).take(k as int))[j]);
                                } else {
                                    assert(j == c0.len() + k);
                                    assert(classes@[j]@ == words@[k as int]@);
                                }
                            }
                            assert(strs_view(classes@) =~= target);
                        }
                        k = k + 1;
                    }
                    proof {
                        assert(strs_view(words@).take(words@.len() as int) =~= strs_view(words@));
                    }
                } else {
                    let an = match attr_from_name(&name) {
                        Some(a) => AttributeName::Std(a),
                        None => AttributeName::Ext(string_from_chars(name.as_slice())),
                    };
                    let ghost pre = attrs@;
                    let at = Attribute { name: an, value: string_from_chars(value.as_slice()) };
                    proof {
                        assert(at@ == AttrV { name: attr_name_for(name@), value: value@ });
                    }
                    attrs.push(at);
                    proof {
                        assert(attrs_view(attrs@) =~= attrs_view(pre).push(at@));
                    }
                }
            }
        }
    }

    /// Reads the content of a `script` or `style` element verbatim, up to its end tag.
    fn raw_text(&mut self, name: &Vec<char>) -> (r: Result<(), HtmlError>)
        requires
            old(self).ok(),
        ensures
            final(self).ok(),
            final(self).s == old(self).s,
            final(self).pos >= old(self).pos,
            outcome(r, final(self).rv(), read_raw_text(old(self).s@, old(self).rv(), name@)),
    {
        let mut close: Vec<char> = Vec::new();
        close.push('<');
        close.push('/');
        crate::text::push_chars(&mut close, name.as_slice());
        proof {
            reveal_strlit("</");
            assert(close@ =~= "</"@ + name@);
        }
        let start = self.pos;
        let mut i = start;
        let mut found = false;
        while i < self.s.len() && !found
            invariant
                start <= i <= self.s@.len(),
                raw_end(self.s@, i as int, close@) == raw_end(self.s@, start as int, close@),
                found ==> raw_end(self.s@, i as int, close@) == i,
            decreases self.s@.len() - i, if found { 0int } else { 1int },
        {
            if self.s[i] == '<' && close.len() <= self.s.len() - i {
                let w = lower_chars(&slice(&self.s, i, i + close.len()));
                if crate::text::same_chars(&w, &close) {
                    found = true;
                }
            }
            if !found {
                i = i + 1;
            }
        }
        let content = slice(&self.s, start, i);
        self.pos = i;
        proof {
            lemma_code_text_comment();
            assert(attrs_view(Seq::<Attribute>::empty()) =~= Seq::<AttrV>::empty());
            assert(strs_view(Seq::<Vec<char>>::empty()) =~= Seq::<Seq<char>>::empty());
        }
        if content.len() > 0 {
            self.add(HtmlTag::sys_text, Vec::new(), Vec::new(), Vec::new(), content)?;
        }
        Ok(())
    }

    /// Reads a start tag `<name ...>`, the `<` at the current position and a letter
    /// after it.
    fn start_tag(&mut self) -> (r: Result<(), HtmlError>)
        requires
            old(self).ok(),
            old(self).pos + 2 <= old(self).s@.len(),
            crate::text::is_ascii_alpha(old(self).s@[old(self).pos + 1]),
        ensures
            final(self).ok(),
            final(self).s == old(self).s,
            final(self).pos > old(self).pos,
            outcome(r, final(self).rv(), read_start_tag(old(self).s@, old(self).rv())),
    {
        let ghost st = self.rv();
        let a = self.pos + 1;
        let b = scan_name(&self.s, a, '>', '/', '>');
        let name = lower_chars(&slice(&self.s, a, b));
        self.pos = if b > a { b } else { a + 1 };
        let (attrs, classes, self_closing) = self.attributes();
        let tag = match tag_from_name(&name) {
            Some(t) => t,
            None => HtmlTag::sys_ext,
        };
        proof {
            if tag != HtmlTag::sys_ext {
                crate::html::lemma_tag_lookup_name(name@, 0);
                assert(b > a);
                assert(name@[0] == crate::css::patterns::ordinal_pattern::ascii_lower(self.s@[a as int]));
                reveal_strlit("#text");
                reveal_strlit("#comment");
                assert(htmltag_name(tag) == name@);
                assert(tag != HtmlTag::sys_text) by {
                    if tag == HtmlTag::sys_text {
                        assert(htmltag_name(HtmlTag::sys_text)[0] == '#');
                    }
                }
                assert(tag != HtmlTag::sys_comment) by {
                    if tag == HtmlTag::sys_comment {
                        assert(htmltag_name(HtmlTag::sys_comment)[0] == '#');
                    }
                }
            }
            lemma_elem_code(tag);
            assert(tag == tag_for(name@));
        }
        let n = self.add(tag, name.clone(), attrs, classes, Vec::new())?;
        if !self_closing && !is_void_name(&name) {
            self.open(n);
            if eq_str(&name, "script") || eq_str(&name, "style") {
                self.raw_text(&name)?;
            }
        }
        Ok(())
    }

    /// Reads the node that starts at the current position.
    fn step(&mut self) -> (r: Result<(), HtmlError>)
        requires
            old(self).ok(),
            old(self).pos < old(self).s@.len(),
        ensures
            final(self).ok(),
            final(self).s == old(self).s,
            final(self).pos > old(self).pos,
            outcome(r, final(self).rv(), read_step(old(self).s@, old(self).rv())),
    {
        let p = self.pos;
        let n = self.s.len();
        if self.s[p] != '<' || p + 1 >= n {
            return self.text(p);
        }
        let c = self.s[p + 1];
        if c == '!' {
            if p + 4 <= n && self.s[p + 2] == '-' && self.s[p + 3] == '-' {
                self.comment()
            } else {
                self.declaration()
            }
        } else if c == '/' {
            self.end_tag();
            Ok(())
        } else if crate::text::ascii_alpha(c) {
            self.start_tag()
        } else {
            self.text(p)
        }
    }
}

impl HtmlDoc {
    /// Reads `html` into a document whose nodes stand in document order (see
    /// `read_html`).
    pub fn parse(html: &str) -> (r: Result<HtmlDoc, HtmlError>)
        ensures
            match r {
                Ok(d) => read_html(html@) == Ok::<DomV, HtmlError>(d.spec_dom()@) && d.spec_dom().wf()
                    && ordered(d.spec_dom()@.recs),
                Err(e) => read_html(html@) == Err::<DomV, HtmlError>(e),
            },
    {
        let dom = DomInner::new();
        let mut stack: Vec<u32> = Vec::new();
        stack.push(0);
        let s = chars_of(html);
        if s.len() > usize::MAX - 8 {
            return Err(HtmlError::TooLarge);
        }
        let mut rd = Reader { s, pos: 0, dom, stack };
        let ghost init = ReadV { pos: 0, dom: root_dom(), stack: seq![0u32] };
        proof {
            assert(crate::dom::document::rec_ordered(rd.dom@.recs[0], 0));
            assert(rd.dom@ == root_dom());
            assert(rd.stack@ =~= seq![0u32]);
            assert(rd.rv() == init);
        }
        while rd.pos < rd.s.len()
            invariant
                rd.ok(),
                rd.s@ == html@,
                html@.len() <= usize::MAX - 8,
                init == (ReadV { pos: 0, dom: root_dom(), stack: seq![0u32] }),
                read_all(html@, rd.rv()) == read_all(html@, init),
            decreases rd.s@.len() - rd.pos,
        {
            let ghost before = rd.rv();
            match rd.step() {
                Ok(()) => {}
                Err(e) => {
                    proof {
                        assert(read_all(html@, before) == Err::<ReadV, HtmlError>(e));
                    }
                    return Err(e);
                }
            }
        }
        Ok(HtmlDoc { dom: rd.dom })
    }

    /// The document.
    pub fn dom(self) -> (r: DomInner)
        ensures
            r == self.spec_dom(),
    {
        self.dom
    }

    /// The document, borrowed.
    pub fn dom_ref(&self) -> (r: &DomInner)
        ensures
            *r == self.spec_dom(),
    {
        &self.dom
    }

    pub closed spec fn spec_dom(&self) -> DomInner {
        self.dom
    }
}

} // verus!
