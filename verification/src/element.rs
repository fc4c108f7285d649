//! A handle on one node of a document, for walking the tree and querying it with
//! selectors.
use vstd::prelude::*;

use crate::css::error::{PErr, ParseError};
use crate::css::parse::{parse_css, spec_parse_css};
use crate::css::patterns::attribute_pattern::AttrNameV;
use crate::css::selectors::grammar::ComplexV;
use crate::css::selectors::list::SelectorList;
use crate::css::selectors::matching::{lemma_select_below_member, list_from, select_below};
use crate::dom::document::{attrs_view, strs_view, AttrV, Attribute, DomInner, DomV};
use crate::dom::nav::{first_elem, is_elem, next_elem, prev_elem, up};
use crate::dom::nodes::tag_of_code;
use crate::css::patterns::attribute_pattern::AttributeName;
use crate::html::{HtmlAttr, HtmlTag};
use crate::text::{chars_of, push_chars, string_from_chars};

verus! {

/// The value of the first `id` attribute among `a` from the `k`-th on.
pub open spec fn id_from(a: Seq<AttrV>, k: int) -> Option<Seq<char>>
    decreases a.len() - k,
{
    if !(0 <= k < a.len()) {
        None
    } else if a[k].name == AttrNameV::Std(HtmlAttr::id) {
        Some(a[k].value)
    } else {
        id_from(a, k + 1)
    }
}

/// `.c` for each class `c` of `cs` from the `k`-th on.
pub open spec fn classes_text(cs: Seq<Seq<char>>, k: int) -> Seq<char>
    decreases cs.len() - k,
{
    if !(0 <= k < cs.len()) {
        Seq::empty()
    } else {
        seq!['.'] + cs[k] + classes_text(cs, k + 1)
    }
}

/// An element's name, then `#` and its id if it has one, then `.` and each class.
pub open spec fn tag_id_class(d: DomV, i: int) -> Seq<char> {
    d.names[i] + match id_from(d.attrs[i], 0) {
        Some(x) => seq!['#'] + x,
        None => Seq::empty(),
    } + classes_text(d.classes[i], 0)
}

/// The `data-*` attributes of `a` from the `k`-th on, each as the part of its name after
/// `data-` and its value.
pub open spec fn data_attrs(a: Seq<AttrV>, k: int) -> Seq<(Seq<char>, Seq<char>)>
    decreases a.len() - k,
{
    if !(0 <= k < a.len()) {
        Seq::empty()
    } else {
        (match a[k].name {
            AttrNameV::Ext(n) => if n.len() >= 5 && n.subrange(0, 5) == "data-"@ {
                seq![(n.subrange(5, n.len() as int), a[k].value)]
            } else {
                Seq::empty()
            },
            _ => Seq::empty(),
        }) + data_attrs(a, k + 1)
    }
}

/// The elements from node `j` on, in document order.
pub open spec fn elems_from(d: DomV, j: int) -> Seq<int>
    decreases d.recs.len() - j,
{
    if !(0 <= j < d.recs.len()) {
        Seq::empty()
    } else {
        (if is_elem(d, j) { seq![j] } else { Seq::<int>::empty() }) + elems_from(d, j + 1)
    }
}

/// A `data-*` attribute: its name after `data-`, and its value.
#[derive(Debug, Clone)]
pub struct DataAttribute {
    pub tag: String,
    pub val: String,
}

/// A copy of an attribute name.
fn copy_name(n: &AttributeName) -> (r: AttributeName)
    ensures
        r@ == n@,
{
    match n {
        AttributeName::Std(a) => AttributeName::Std(*a),
        AttributeName::Ext(s) => AttributeName::Ext(crate::text::string_of(s.as_str())),
        AttributeName::Text => AttributeName::Text,
    }
}

/// One node of a document.
#[derive(Clone, Copy)]
pub struct HtmlElement<'a> {
    dom: &'a DomInner,
    index: u32,
}

impl<'a> HtmlElement<'a> {
    #[verifier::type_invariant]
    spec fn inv(&self) -> bool {
        self.dom.wf() && self.index < self.dom@.recs.len()
    }

    /// The document this node belongs to.
    pub closed spec fn doc(&self) -> DomV {
        self.dom@
    }

    /// The node's index.
    pub closed spec fn node(&self) -> int {
        self.index as int
    }

    /// The document this node belongs to.
    pub fn dom(&self) -> (r: &'a DomInner)
        ensures
            r@ == self.doc(),
            r.wf(),
            self.node() < r@.recs.len(),
    {
        proof {
            use_type_invariant(self);
        }
        self.dom
    }

    /// The node's index.
    pub fn index(&self) -> (r: u32)
        ensures
            r == self.node(),
    {
        self.index
    }

    fn at(&self, i: u32) -> (r: HtmlElement<'a>)
        requires
            i < self.doc().recs.len(),
        ensures
            r.doc() == self.doc(),
            r.node() == i,
    {
        proof {
            use_type_invariant(self);
        }
        HtmlElement { dom: self.dom, index: i }
    }

    /// The node's tag.
    pub fn tag(&self) -> (r: HtmlTag)
        ensures
            r == tag_of_code(self.doc().recs[self.node()].tag),
    {
        proof {
            use_type_invariant(self);
        }
        self.dom.tag(self.index)
    }

    /// The parent.
    pub fn parent(&self) -> (r: Option<HtmlElement<'a>>)
        ensures
            r matches Some(e) ==> e.doc() == self.doc() && up(self.doc(), self.node()) == Some(e.node()),
            r is None ==> up(self.doc(), self.node()) is None,
    {
        proof {
            use_type_invariant(self);
        }
        match self.dom.up(self.index) {
            Some(p) => Some(self.at(p)),
            None => None,
        }
    }

    /// The first element child.
    pub fn first_child(&self) -> (r: Option<HtmlElement<'a>>)
        ensures
            r matches Some(e) ==> e.doc() == self.doc() && first_elem(self.doc(), self.node()) == Some(e.node()),
            r is None ==> first_elem(self.doc(), self.node()) is None,
    {
        proof {
            use_type_invariant(self);
            crate::dom::nav::lemma_first_elem(self.dom@, self.index as int);
        }
        match self.dom.first_element(self.index) {
            Some(c) => Some(self.at(c)),
            None => None,
        }
    }

    /// The last child, whatever its kind.
    pub fn last_child_all(&self) -> (r: Option<HtmlElement<'a>>)
        ensures
            r matches Some(e) ==> e.doc() == self.doc() && self.doc().recs[self.node()].last == Some(e.node() as u32),
            r is None ==> self.doc().recs[self.node()].last is None,
    {
        proof {
            use_type_invariant(self);
            assert(crate::dom::nodes::rec_links_ok(self.dom@.recs[self.index as int], self.dom@.recs.len() as int));
        }
        match self.dom.last_child(self.index) {
            Some(c) => Some(self.at(c)),
            None => None,
        }
    }

    /// The nearest element after this node among its siblings.
    pub fn next_sibling(&self) -> (r: Option<HtmlElement<'a>>)
        ensures
            r matches Some(e) ==> e.doc() == self.doc() && next_elem(self.doc(), self.node()) == Some(e.node()),
            r is None ==> next_elem(self.doc(), self.node()) is None,
    {
        proof {
            use_type_invariant(self);
            crate::dom::nav::lemma_next_elem_in(self.dom@, self.index as int, crate::dom::nav::steps(self.dom@));
        }
        match self.dom.next_element(self.index) {
            Some(c) => Some(self.at(c)),
            None => None,
        }
    }

    /// The nearest element before this node among its siblings.
    pub fn prev_sibling(&self) -> (r: Option<HtmlElement<'a>>)
        ensures
            r matches Some(e) ==> e.doc() == self.doc() && prev_elem(self.doc(), self.node()) == Some(e.node()),
            r is None ==> prev_elem(self.doc(), self.node()) is None,
    {
        proof {
            use_type_invariant(self);
            crate::dom::nav::lemma_prev_elem_in(self.dom@, self.index as int, crate::dom::nav::steps(self.dom@));
        }
        match self.dom.prev_element(self.index) {
            Some(c) => Some(self.at(c)),
            None => None,
        }
    }

    /// The attributes, the class attribute aside, in source order.
    pub fn attributes(&self) -> (r: Vec<Attribute>)
        ensures
            attrs_view(r@) == self.doc().attrs[self.node()],
    {
        proof {
            use_type_invariant(self);
        }
        let a = self.dom.attributes(self.index);
        let ghost av = self.dom@.attrs[self.index as int];
        let mut out: Vec<Attribute> = Vec::new();
        let mut k: usize = 0;
        while k < a.len()
            invariant
                attrs_view(a@) == av,
                0 <= k <= a@.len(),
                attrs_view(out@) == av.subrange(0, k as int),
            decreases a@.len() - k,
        {
            let ghost before = out@;
            let x = Attribute { name: copy_name(&a[k].name), value: crate::text::string_of(a[k].value.as_str()) };
            assert(x@ == a@[k as int]@);
            assert(a@[k as int]@ == av[k as int]);
            out.push(x);
            assert(attrs_view(out@) =~= attrs_view(before).push(av[k as int]));
            k = k + 1;
            assert(attrs_view(out@) =~= av.subrange(0, k as int));
        }
        assert(av.subrange(0, k as int) =~= av);
        out
    }

    /// The classes, in source order.
    pub fn classes(&self) -> (r: Vec<String>)
        ensures
            r@.map_values(|c: String| c@) == self.doc().classes[self.node()],
    {
        proof {
            use_type_invariant(self);
        }
        let cs = self.dom.class_list(self.index);
        let ghost cv = self.dom@.classes[self.index as int];
        let mut out: Vec<String> = Vec::new();
        let mut k: usize = 0;
        while k < cs.len()
            invariant
                strs_view(cs@) == cv,
                0 <= k <= cs@.len(),
                out@.map_values(|c: String| c@) == cv.subrange(0, k as int),
            decreases cs@.len() - k,
        {
            let ghost before = out@;
            let c = string_from_chars(cs[k].as_slice());
            assert(c@ == cv[k as int]);
            out.push(c);
            assert(out@.map_values(|c: String| c@) =~= before.map_values(|c: String| c@).push(cv[k as int]));
            k = k + 1;
            assert(out@.map_values(|c: String| c@) =~= cv.subrange(0, k as int));
        }
        assert(cv.subrange(0, k as int) =~= cv);
        out
    }

    /// The `data-*` attributes, in source order.
    pub fn data_attributes(&self) -> (r: Vec<DataAttribute>)
        ensures
            r@.map_values(|a: DataAttribute| (a.tag@, a.val@)) == data_attrs(self.doc().attrs[self.node()], 0),
    {
        proof {
            use_type_invariant(self);
        }
        let a = self.dom.attributes(self.index);
        let ghost av = self.dom@.attrs[self.index as int];
        let prefix = chars_of("data-");
        proof {
            reveal_strlit("data-");
        }
        let mut out: Vec<DataAttribute> = Vec::new();
        let mut k: usize = 0;
        while k < a.len()
            invariant
                attrs_view(a@) == av,
                prefix@ == "data-"@,
                0 <= k <= a@.len(),
                out@.map_values(|a: DataAttribute| (a.tag@, a.val@)) + data_attrs(av, k as int) == data_attrs(av, 0),
            decreases a@.len() - k,
        {
            let ghost before = out@.map_values(|a: DataAttribute| (a.tag@, a.val@));
            match &a[k].name {
                AttributeName::Ext(n) => {
                    let v = chars_of(n.as_str());
                    if crate::css::patterns::attribute_operator::occurs_at_exec(&v, 0, &prefix) {
                        proof {
                            reveal_strlit("data-");
                        }
                        let mut tag: Vec<char> = Vec::new();
                        let mut j: usize = 5;
                        while j < v.len()
                            invariant
                                5 <= j <= v@.len(),
                                tag@ == v@.subrange(5, j as int),
                            decreases v@.len() - j,
                        {
                            tag.push(v[j]);
                            j = j + 1;
                            assert(tag@ =~= v@.subrange(5, j as int));
                        }
                        out.push(DataAttribute { tag: string_from_chars(tag.as_slice()), val: crate::text::string_of(a[k].value.as_str()) });
                    }
                }
                _ => {}
            }
            proof {
                reveal_strlit("data-");
                let here = match av[k as int].name {
                    AttrNameV::Ext(n) => if n.len() >= 5 && n.subrange(0, 5) == "data-"@ {
                        seq![(n.subrange(5, n.len() as int), av[k as int].value)]
                    } else {
                        Seq::empty()
                    },
                    _ => Seq::empty(),
                };
                assert(out@.map_values(|a: DataAttribute| (a.tag@, a.val@)) =~= before + here);
                assert(data_attrs(av, k as int) == here + data_attrs(av, k + 1));
                assert(before + (here + data_attrs(av, k + 1)) =~= (before + here) + data_attrs(av, k + 1));
            }
            k = k + 1;
        }
        proof {
            assert(data_attrs(av, k as int) =~= Seq::empty());
            assert(out@.map_values(|a: DataAttribute| (a.tag@, a.val@)) =~= data_attrs(av, 0));
        }
        out
    }

    /// The elements after this node, in document order.
    pub fn forwards(&self) -> (r: Vec<HtmlElement<'a>>)
        ensures
            r@.map_values(|e: HtmlElement<'a>| e.node()) == elems_from(self.doc(), self.node() + 1),
            forall|k: int| 0 <= k < r@.len() ==> (#[trigger] r@[k]).doc() == self.doc(),
    {
        proof {
            use_type_invariant(self);
        }
        let len = self.dom.len();
        let ghost target = elems_from(self.dom@, self.index + 1);
        let mut out: Vec<HtmlElement<'a>> = Vec::new();
        let mut j: usize = self.index as usize + 1;
        while j < len
            invariant
                self.dom.wf(),
                len == self.dom@.recs.len(),
                self.index + 1 <= j <= len,
                target == elems_from(self.dom@, self.index + 1),
                out@.map_values(|e: HtmlElement<'a>| e.node()) + elems_from(self.dom@, j as int) == target,
                forall|k: int| 0 <= k < out@.len() ==> (#[trigger] out@[k]).doc() == self.dom@,
            decreases len - j,
        {
            let ghost before = out@.map_values(|e: HtmlElement<'a>| e.node());
            let hit = self.dom.is_element(j as u32);
            if hit {
                out.push(self.at(j as u32));
            }
            proof {
                let here = if hit { seq![j as int] } else { Seq::<int>::empty() };
                assert(elems_from(self.dom@, j as int) == here + elems_from(self.dom@, j + 1));
                assert(out@.map_values(|e: HtmlElement<'a>| e.node()) =~= before + here);
                assert(before + (here + elems_from(self.dom@, j + 1)) =~= (before + here) + elems_from(self.dom@, j + 1));
            }
            j = j + 1;
        }
        proof {
            assert(elems_from(self.dom@, j as int) =~= Seq::<int>::empty());
            assert(out@.map_values(|e: HtmlElement<'a>| e.node()) =~= target);
        }
        out
    }

    /// The element's name, id and classes: `p#intro.note.wide`.
    pub fn tag_id_class(&self) -> (r: String)
        ensures
            r@ == tag_id_class(self.doc(), self.node()),
    {
        proof {
            use_type_invariant(self);
        }
        let i = self.index;
        let mut out: Vec<char> = Vec::new();
        push_chars(&mut out, self.dom.name(i).as_slice());
        let ghost o1 = out@;
        match self.dom.id_value(i) {
            Some(v) => {
                out.push('#');
                push_chars(&mut out, v.as_slice());
            }
            None => {}
        }
        proof {
            let idp = match id_from(self.dom@.attrs[i as int], 0) {
                Some(x) => seq!['#'] + x,
                None => Seq::<char>::empty(),
            };
            assert(out@ =~= o1 + idp);
        }
        let ghost o2 = out@;
        let classes = self.dom.class_list(i);
        let ghost cv = self.dom@.classes[i as int];
        let mut c: usize = 0;
        while c < classes.len()
            invariant
                strs_view(classes@) == cv,
                0 <= c <= classes@.len(),
                out@ + classes_text(cv, c as int) == o2 + classes_text(cv, 0),
            decreases classes@.len() - c,
        {
            let ghost before = out@;
            out.push('.');
            push_chars(&mut out, classes[c].as_slice());
            proof {
                assert(out@ =~= before + (seq!['.'] + cv[c as int]));
                assert(before + classes_text(cv, c as int) =~= out@ + classes_text(cv, c + 1));
            }
            c = c + 1;
        }
        proof {
            assert(classes_text(cv, c as int) =~= Seq::<char>::empty());
            assert(out@ =~= o2 + classes_text(cv, 0));
            assert(out@ =~= tag_id_class(self.dom@, i as int));
        }
        string_from_chars(out.as_slice())
    }

    /// Whether selector list `list` matches this node.
    pub fn matches(&self, list: &SelectorList) -> (r: bool)
        ensures
            r == list_from(self.doc(), self.node(), list@, 0),
    {
        proof {
            use_type_invariant(self);
        }
        list.matches_at(self.dom, self.index)
    }

    /// Whether the selector list written `css` matches this node; the parse error where
    /// `css` is not a selector list.
    pub fn matches_css(&self, css: &str) -> (r: Result<bool, ParseError>)
        ensures
            match r {
                Ok(b) => spec_parse_css(css@) matches Ok(l) && b == list_from(self.doc(), self.node(), l, 0),
                Err(e) => spec_parse_css(css@) == Err::<Seq<ComplexV>, PErr>(e@),
            },
    {
        let list = parse_css(css)?;
        Ok(self.matches(&list))
    }

    /// The elements below this node that `list` matches, in document order.
    pub fn select(&self, list: &SelectorList) -> (r: Vec<HtmlElement<'a>>)
        ensures
            r@.len() == select_below(self.doc(), self.node(), list@).len(),
            forall|k: int| 0 <= k < r@.len() ==> (#[trigger] r@[k]).doc() == self.doc()
                && r@[k].node() == select_below(self.doc(), self.node(), list@)[k],
    {
        proof {
            use_type_invariant(self);
        }
        let found = self.dom.select_below(self.index, list);
        let ghost target = select_below(self.dom@, self.index as int, list@);
        let mut out: Vec<HtmlElement<'a>> = Vec::new();
        let mut j: usize = 0;
        while j < found.len()
            invariant
                self.dom.wf(),
                found@.map_values(|x: u32| x as int) == target,
                target == select_below(self.dom@, self.index as int, list@),
                0 <= j <= found@.len(),
                out@.len() == j,
                forall|k: int| 0 <= k < j ==> (#[trigger] out@[k]).doc() == self.dom@ && out@[k].node() == target[k],
            decreases found@.len() - j,
        {
            proof {
                assert(found@.map_values(|x: u32| x as int)[j as int] == found@[j as int] as int);
                lemma_select_below_member(self.dom@, self.index as int, list@, found@[j as int] as int);
                assert(target.contains(found@[j as int] as int));
            }
            out.push(self.at(found[j]));
            j = j + 1;
        }
        out
    }

    /// The elements below this node that the selector list written `css` matches, in
    /// document order; the parse error where `css` is not a selector list.
    pub fn select_css(&self, css: &str) -> (r: Result<Vec<HtmlElement<'a>>, ParseError>)
        ensures
            match r {
                Ok(v) => spec_parse_css(css@) matches Ok(l) && v@.len() == select_below(self.doc(), self.node(), l).len()
                    && forall|k: int| 0 <= k < v@.len() ==> (#[trigger] v@[k]).doc() == self.doc()
                        && v@[k].node() == select_below(self.doc(), self.node(), l)[k],
                Err(e) => spec_parse_css(css@) == Err::<Seq<ComplexV>, PErr>(e@),
            },
    {
        let list = parse_css(css)?;
        Ok(self.select(&list))
    }
}

impl DomInner {
    /// The value of the first `id` attribute of element `i`, if it has one.
    pub fn id_value(&self, i: u32) -> (r: Option<Vec<char>>)
        requires
            self.wf(),
            i < self@.recs.len(),
        ensures
            match r {
                Some(v) => id_from(self@.attrs[i as int], 0) == Some(v@),
                None => id_from(self@.attrs[i as int], 0) is None,
            },
    {
        let attrs = self.attributes(i);
        let ghost av = self@.attrs[i as int];
        let mut k: usize = 0;
        while k < attrs.len()
            invariant
                attrs_view(attrs@) == av,
                av == self@.attrs[i as int],
                0 <= k <= attrs@.len(),
                id_from(av, 0) == id_from(av, k as int),
            decreases attrs@.len() - k,
        {
            let is_id = match &attrs[k].name {
                AttributeName::Std(n) => *n == HtmlAttr::id,
                _ => false,
            };
            if is_id {
                return Some(chars_of(attrs[k].value.as_str()));
            }
            k = k + 1;
        }
        None
    }

    /// The document root.
    pub fn root(&self) -> (r: HtmlElement<'_>)
        requires
            self.wf(),
        ensures
            r.doc() == self@,
            r.node() == 0,
    {
        HtmlElement { dom: self, index: 0 }
    }
}

} // verus!
