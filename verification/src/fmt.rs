//! Writing a document back out as HTML.
use vstd::prelude::*;

use crate::css::patterns::attribute_pattern::{attr_name_text, AttributeName};
use crate::dom::document::{attrs_view, strs_view, AttrV, DomInner, DomV};
use crate::dom::nav::is_elem;
use crate::dom::nodes::{COMMENT_TAG, ROOT_TAG, TEXT_TAG};
use crate::entities::{encode_attr, encode_text, escape_attr, escape_text};
use crate::html::eq_str;
use crate::html_doc::{is_void_name, void_name, HtmlDoc};
use crate::svg_case::{svg_attr_case, svg_attr_name, svg_tag_case, svg_tag_name};
use crate::text::{chars_of, push_chars, push_str, string_from_chars};

verus! {

/// Tag code of the document type declaration.
pub const DOCTYPE_TAG: u8 = 120;

/// How a document is written out.
#[derive(Debug, Clone, Copy, PartialEq, Eq, Structural)]
pub enum HtmlFormat {
    /// The nodes as they are, without added whitespace.
    Raw,
}

/// An element name as written out: with its SVG capitals inside an `svg` element.
pub open spec fn shown_tag(n: Seq<char>, svg: bool) -> Seq<char> {
    if svg { svg_tag_case(n) } else { n }
}

/// An attribute name as written out: with its SVG capitals inside an `svg` element.
pub open spec fn shown_attr(n: Seq<char>, svg: bool) -> Seq<char> {
    if svg { svg_attr_case(n) } else { n }
}

/// Whether the start tag of the void element `n` closes itself with ` /`: that of every
/// void element but those of the document head (`base`, `link`, `meta`).
pub open spec fn self_closed_name(n: Seq<char>) -> bool {
    void_name(n) && n != "base"@ && n != "link"@ && n != "meta"@
}

/// ` name` or ` name="value"` for each attribute of `a` from the `k`-th on, the value
/// escaped for a double-quoted attribute; `svg` inside an `svg` element.
pub open spec fn attrs_html(a: Seq<AttrV>, k: int, svg: bool) -> Seq<char>
    decreases a.len() - k,
{
    if !(0 <= k < a.len()) {
        Seq::empty()
    } else {
        " "@ + shown_attr(attr_name_text(a[k].name), svg) + (if a[k].value.len() == 0 {
            Seq::empty()
        } else {
            "=\""@ + escape_attr(a[k].value) + "\""@
        }) + attrs_html(a, k + 1, svg)
    }
}

/// The classes of `cs` from the `k`-th on, separated by spaces.
pub open spec fn joined(cs: Seq<Seq<char>>, k: int) -> Seq<char>
    decreases cs.len() - k,
{
    if !(0 <= k < cs.len()) {
        Seq::empty()
    } else if k + 1 == cs.len() {
        cs[k]
    } else {
        cs[k] + " "@ + joined(cs, k + 1)
    }
}

/// ` class="a b"` for an element with classes; nothing for one without.
pub open spec fn class_html(cs: Seq<Seq<char>>) -> Seq<char> {
    if cs.len() == 0 { Seq::empty() } else { " class=\""@ + joined(cs, 0) + "\""@ }
}

/// The start tag of element `i`: its name, classes and attributes; that of a void
/// element outside the document head closes itself. `svg` inside an `svg` element.
pub open spec fn start_tag_html(d: DomV, i: int, svg: bool) -> Seq<char> {
    "<"@ + shown_tag(d.names[i], svg) + class_html(d.classes[i]) + attrs_html(d.attrs[i], 0, svg)
        + (if self_closed_name(d.names[i]) { " /"@ } else { Seq::empty() }) + ">"@
}

/// Whether the text below element `i` is written verbatim: that of `script` and `style`.
pub open spec fn raw_text_name(n: Seq<char>) -> bool {
    n == "script"@ || n == "style"@
}

/// Whether node `i` is an `svg` element, or stands inside one (`svg`).
pub open spec fn in_svg(d: DomV, i: int, svg: bool) -> bool {
    svg || (is_elem(d, i) && d.names[i] == "svg"@)
}

/// Node `i` written out, following the links of the document at most `fuel` steps
/// deep; `raw` where it stands inside `script` or `style`, whose text is written
/// verbatim, and `svg` where it stands inside an `svg` element. Text is escaped
/// otherwise; comments are written as they are.
pub open spec fn node_html(d: DomV, i: int, raw: bool, svg: bool, fuel: nat) -> Seq<char>
    decreases fuel,
{
    if fuel == 0 || !(0 <= i < d.recs.len()) {
        Seq::empty()
    } else {
        let t = d.recs[i].tag;
        let here = in_svg(d, i, svg);
        let kids = match d.recs[i].first {
            Some(c) => children_html(d, c as int, raw || (is_elem(d, i) && raw_text_name(d.names[i])), here, (fuel - 1) as nat),
            None => Seq::empty(),
        };
        if t == TEXT_TAG {
            if raw { d.texts[i] } else { escape_text(d.texts[i]) }
        } else if t == COMMENT_TAG {
            "<!--"@ + d.texts[i] + "-->"@
        } else if t == DOCTYPE_TAG {
            "<!DOCTYPE"@ + attrs_html(d.attrs[i], 0, false) + ">"@
        } else if t == ROOT_TAG {
            kids
        } else {
            start_tag_html(d, i, here) + kids + if void_name(d.names[i]) {
                Seq::empty()
            } else {
                "</"@ + shown_tag(d.names[i], here) + ">"@
            }
        }
    }
}

/// Node `c` and the siblings after it written out, at most `fuel` steps deep.
pub open spec fn children_html(d: DomV, c: int, raw: bool, svg: bool, fuel: nat) -> Seq<char>
    decreases fuel,
{
    if fuel == 0 || !(0 <= c < d.recs.len()) {
        Seq::empty()
    } else {
        node_html(d, c, raw, svg, (fuel - 1) as nat) + match d.recs[c].next {
            Some(n) => children_html(d, n as int, raw, svg, (fuel - 1) as nat),
            None => Seq::empty(),
        }
    }
}

/// How deep a walk of `d` goes: in a tree each step down or along reaches a node not
/// met before on its way, so twice the number of nodes is enough.
pub open spec fn walk_fuel(d: DomV) -> nat {
    2 * d.recs.len()
}

/// The document `d` written out: the children of its root.
pub open spec fn doc_html(d: DomV) -> Seq<char> {
    node_html(d, 0, false, false, walk_fuel(d))
}

/// What follows the `k`-th class in the list: a space and the rest, or nothing.
pub open spec fn joined_after(cs: Seq<Seq<char>>, k: int) -> Seq<char> {
    if k < cs.len() { " "@ + joined(cs, k) } else { Seq::empty() }
}

/// Appends ` class="..."` for the classes `cs`.
fn push_classes(out: &mut Vec<char>, cs: &Vec<Vec<char>>)
    ensures
        final(out)@ == old(out)@ + class_html(strs_view(cs@)),
{
    let ghost v = strs_view(cs@);
    if cs.len() == 0 {
        return;
    }
    push_str(out, " class=\"");
    let ghost start = out@;
    push_chars(out, cs[0].as_slice());
    proof {
        if 1 < cs@.len() {
            assert(joined(v, 0) == v[0] + " "@ + joined(v, 1));
        }
        assert(out@ + joined_after(v, 1) =~= start + joined(v, 0));
    }
    let mut k: usize = 1;
    while k < cs.len()
        invariant
            v == strs_view(cs@),
            1 <= k <= cs@.len(),
            out@ + joined_after(v, k as int) == start + joined(v, 0),
        decreases cs@.len() - k,
    {
        let ghost before = out@;
        push_str(out, " ");
        push_chars(out, cs[k].as_slice());
        proof {
            if k + 1 < cs@.len() {
                assert(joined(v, k as int) == v[k as int] + " "@ + joined(v, k + 1));
            }
            assert(out@ + joined_after(v, k + 1) =~= before + joined_after(v, k as int));
        }
        k = k + 1;
    }
    proof {
        assert(out@ =~= start + joined(v, 0));
    }
    push_str(out, "\"");
}

/// Appends the attributes `a`; `svg` inside an `svg` element.
fn push_attrs(out: &mut Vec<char>, a: &Vec<crate::dom::document::Attribute>, svg: bool)
    ensures
        final(out)@ == old(out)@ + attrs_html(attrs_view(a@), 0, svg),
{
    let ghost v = attrs_view(a@);
    let ghost start = out@;
    let mut k: usize = 0;
    while k < a.len()
        invariant
            v == attrs_view(a@),
            0 <= k <= a@.len(),
            out@ + attrs_html(v, k as int, svg) == start + attrs_html(v, 0, svg),
        decreases a@.len() - k,
    {
        let ghost before = out@;
        push_str(out, " ");
        let written = match &a[k].name {
            AttributeName::Std(n) => chars_of(n.name()),
            AttributeName::Ext(n) => chars_of(n.as_str()),
            AttributeName::Text => chars_of("text"),
        };
        if svg {
            push_chars(out, svg_attr_name(&written).as_slice());
        } else {
            push_chars(out, written.as_slice());
        }
        let ghost mid = out@;
        let value = chars_of(a[k].value.as_str());
        if value.len() > 0 {
            push_str(out, "=\"");
            let e = encode_attr(a[k].value.as_str());
            push_chars(out, chars_of(e.as_str()).as_slice());
            push_str(out, "\"");
        }
        proof {
            let x = v[k as int];
            assert(written@ == attr_name_text(x.name));
            assert(mid =~= before + " "@ + shown_attr(attr_name_text(x.name), svg));
            let tail = if x.value.len() == 0 { Seq::empty() } else { "=\""@ + escape_attr(x.value) + "\""@ };
            assert(out@ =~= mid + tail);
            assert(attrs_html(v, k as int, svg) == " "@ + shown_attr(attr_name_text(x.name), svg) + tail + attrs_html(v, k + 1, svg));
            assert(before + (" "@ + shown_attr(attr_name_text(x.name), svg) + tail + attrs_html(v, k + 1, svg)) =~= out@ + attrs_html(v, k + 1, svg));
        }
        k = k + 1;
    }
    proof {
        assert(attrs_html(v, k as int, svg) =~= Seq::<char>::empty());
        assert(out@ + Seq::<char>::empty() =~= out@);
    }
}

/// Appends the end tag of an element named `name`; `svg` inside an `svg` element.
fn push_end_tag(out: &mut Vec<char>, name: &Vec<char>, svg: bool)
    ensures
        final(out)@ == old(out)@ + ("</"@ + shown_tag(name@, svg) + ">"@),
{
    push_str(out, "</");
    if svg {
        push_chars(out, svg_tag_name(name).as_slice());
    } else {
        push_chars(out, name.as_slice());
    }
    push_str(out, ">");
    proof {
        assert(out@ =~= old(out)@ + ("</"@ + shown_tag(name@, svg) + ">"@));
    }
}

impl DomInner {
    /// Appends the start tag of element `i`.
    fn push_start_tag(&self, out: &mut Vec<char>, i: u32, svg: bool)
        requires
            self.wf(),
            i < self@.recs.len(),
        ensures
            final(out)@ == old(out)@ + start_tag_html(self@, i as int, svg),
    {
        let name = self.name(i);
        push_str(out, "<");
        if svg {
            push_chars(out, svg_tag_name(name).as_slice());
        } else {
            push_chars(out, name.as_slice());
        }
        push_classes(out, self.class_list(i));
        push_attrs(out, self.attributes(i), svg);
        if is_void_name(name) && !eq_str(name, "base") && !eq_str(name, "link") && !eq_str(name, "meta") {
            push_str(out, " /");
        }
        push_str(out, ">");
        proof {
            assert(out@ =~= old(out)@ + start_tag_html(self@, i as int, svg));
        }
    }

    /// Appends text, comment or doctype node `i` written out.
    fn push_leaf_html(&self, out: &mut Vec<char>, i: u32, raw: bool, svg: bool, fuel: usize)
        requires
            self.wf(),
            i < self@.recs.len(),
            fuel > 0,
            self@.recs[i as int].tag == TEXT_TAG || self@.recs[i as int].tag == COMMENT_TAG
                || self@.recs[i as int].tag == DOCTYPE_TAG,
        ensures
            final(out)@ == old(out)@ + node_html(self@, i as int, raw, svg, fuel as nat),
    {
        let t = self.tag_code(i);
        if t == TEXT_TAG {
            if raw {
                push_chars(out, self.text(i).as_slice());
            } else {
                let e = encode_text(string_from_chars(self.text(i).as_slice()).as_str());
                push_chars(out, chars_of(e.as_str()).as_slice());
            }
        } else if t == COMMENT_TAG {
            push_str(out, "<!--");
            push_chars(out, self.text(i).as_slice());
            push_str(out, "-->");
        } else {
            push_str(out, "<!DOCTYPE");
            push_attrs(out, self.attributes(i), false);
            push_str(out, ">");
        }
        proof {
            assert(out@ =~= old(out)@ + node_html(self@, i as int, raw, svg, fuel as nat));
        }
    }

    /// Appends node `i` written out, at most `fuel` steps deep.
    #[verifier::rlimit(60)]
    #[verifier::spinoff_prover]
    fn push_node_html(&self, out: &mut Vec<char>, i: u32, raw: bool, svg: bool, fuel: usize)
        requires
            self.wf(),
            i < self@.recs.len(),
        ensures
            final(out)@ == old(out)@ + node_html(self@, i as int, raw, svg, fuel as nat),
        decreases fuel, 1int,
    {
        if fuel == 0 {
            proof {
                assert(out@ =~= old(out)@ + node_html(self@, i as int, raw, svg, fuel as nat));
            }
            return;
        }
        let t = self.tag_code(i);
        if t == TEXT_TAG || t == COMMENT_TAG || t == DOCTYPE_TAG {
            self.push_leaf_html(out, i, raw, svg, fuel);
            return;
        }
        let ghost d = self@;
        let ghost o0 = out@;
        let elem = self.is_element(i);
        let name = self.name(i);
        let child_raw = raw || (elem && (crate::html::eq_str(name, "script") || crate::html::eq_str(name, "style")));
        let here = svg || (elem && eq_str(name, "svg"));
        let void = is_void_name(name);
        proof {
            assert(child_raw == (raw || (is_elem(d, i as int) && raw_text_name(d.names[i as int]))));
            assert(here == in_svg(d, i as int, svg));
        }
        let ghost kids = match d.recs[i as int].first {
            Some(c) => children_html(d, c as int, child_raw, here, (fuel - 1) as nat),
            None => Seq::empty(),
        };
        let ghost start = if t != ROOT_TAG { start_tag_html(d, i as int, here) } else { Seq::empty() };
        if t != ROOT_TAG {
            self.push_start_tag(out, i, here);
        }
        proof {
            assert(out@ =~= o0 + start);
        }
        let ghost o1 = out@;
        match self.first_child(i) {
            Some(c) => {
                proof {
                    assert(crate::dom::nodes::rec_links_ok(self@.recs[i as int], self@.recs.len() as int));
                }
                self.push_children_html(out, c, child_raw, here, fuel - 1);
            }
            None => {
                proof {
                    assert(o1 =~= o1 + kids);
                }
            }
        }
        let ghost o2 = out@;
        let ghost end = if t != ROOT_TAG && !void { "</"@ + shown_tag(d.names[i as int], here) + ">"@ } else { Seq::empty() };
        if t != ROOT_TAG && !void {
            push_end_tag(out, name, here);
        } else {
            proof {
                assert(o2 =~= o2 + end);
            }
        }
        proof {
            assert(o2 == o1 + kids);
            assert(out@ == o2 + end);
            if t == ROOT_TAG {
                assert(node_html(d, i as int, raw, svg, fuel as nat) == kids);
            } else {
                assert(node_html(d, i as int, raw, svg, fuel as nat) == start + kids + end);
            }
            assert(out@ =~= old(out)@ + node_html(self@, i as int, raw, svg, fuel as nat));
        }
    }

    /// Appends node `c` and the siblings after it written out, at most `fuel` steps deep.
    fn push_children_html(&self, out: &mut Vec<char>, c: u32, raw: bool, svg: bool, fuel: usize)
        requires
            self.wf(),
            c < self@.recs.len(),
        ensures
            final(out)@ == old(out)@ + children_html(self@, c as int, raw, svg, fuel as nat),
        decreases fuel, 0int,
    {
        let ghost start = old(out)@;
        let mut x = c;
        let mut f = fuel;
        loop
            invariant
                self.wf(),
                x < self@.recs.len(),
                f <= fuel,
                start == old(out)@,
                out@ + children_html(self@, x as int, raw, svg, f as nat) == start + children_html(self@, c as int, raw, svg, fuel as nat),
            decreases f,
        {
            if f == 0 {
                proof {
                    assert(out@ + children_html(self@, x as int, raw, svg, f as nat) =~= out@);
                }
                return;
            }
            let ghost before = out@;
            self.push_node_html(out, x, raw, svg, f - 1);
            match self.next_sibling(x) {
                Some(n) => {
                    proof {
                        assert(crate::dom::nodes::rec_links_ok(self@.recs[x as int], self@.recs.len() as int));
                        assert(before + (node_html(self@, x as int, raw, svg, (f - 1) as nat) + children_html(self@, n as int, raw, svg, (f - 1) as nat))
                            =~= out@ + children_html(self@, n as int, raw, svg, (f - 1) as nat));
                    }
                    x = n;
                    f = f - 1;
                }
                None => {
                    proof {
                        assert(children_html(self@, x as int, raw, svg, f as nat) =~= node_html(self@, x as int, raw, svg, (f - 1) as nat));
                    }
                    return;
                }
            }
        }
    }

    /// The document written out in format `fmt`.
    pub fn to_html(&self, fmt: HtmlFormat) -> (r: String)
        requires
            self.wf(),
        ensures
            fmt == HtmlFormat::Raw ==> r@ == doc_html(self@),
    {
        let mut out: Vec<char> = Vec::new();
        self.push_node_html(&mut out, 0, false, false, 2 * self.len());
        proof {
            assert(out@ =~= doc_html(self@));
        }
        string_from_chars(out.as_slice())
    }
}

impl HtmlDoc {
    /// The document written out in format `fmt`.
    pub fn to_html(&self, fmt: HtmlFormat) -> (r: String)
        requires
            self.spec_dom().wf(),
        ensures
            fmt == HtmlFormat::Raw ==> r@ == doc_html(self.spec_dom()@),
    {
        self.dom_ref().to_html(fmt)
    }
}

} // verus!
