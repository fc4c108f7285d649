//! The tests of a compound selector on one element that do not recurse: type, id,
//! text, attributes and classes.
use vstd::prelude::*;

use crate::css::patterns::attribute_pattern::{AttrNameV, AttributeName};
use crate::css::patterns::pattern_match::{pattern_matches_attr, pattern_matches_class};
use crate::css::selectors::attribute::AttributeSelector;
use crate::css::selectors::class::ClassSelector;
use crate::css::selectors::compound::CompoundSelector;
use crate::css::selectors::grammar::lemma_compound_view;
use crate::css::selectors::matching::{compound_local, has_attr_match, has_class, has_class_match, has_id};
use crate::css::selectors::tag::{lower, lower_chars};
use crate::dom::document::{attrs_view, strs_view, DomInner};
use crate::dom::nav::EXT_TAG;
use crate::dom::nodes::code_of;
use crate::html::{lemma_htmltag_index, HtmlAttr};
use crate::text::{chars_of, same_chars};

verus! {

impl DomInner {
    /// Whether element `i` has the id `id`.
    pub fn has_id(&self, i: u32, id: &Vec<char>) -> (r: bool)
        requires
            self.wf(),
            i < self@.recs.len(),
        ensures
            r == has_id(self@, i as int, id@),
    {
        let attrs = self.attributes(i);
        let ghost av = self@.attrs[i as int];
        let mut k: usize = 0;
        while k < attrs.len()
            invariant
                attrs_view(attrs@) == av,
                av == self@.attrs[i as int],
                0 <= k <= attrs@.len(),
                forall|m: int| 0 <= m < k ==> !(av[m].name == AttrNameV::Std(HtmlAttr::id) && av[m].value == id@),
            decreases attrs@.len() - k,
        {
            let a = &attrs[k];
            let is_id = match &a.name {
                AttributeName::Std(n) => *n == HtmlAttr::id,
                _ => false,
            };
            if is_id {
                let v = chars_of(a.value.as_str());
                if same_chars(&v, id) {
                    assert(av[k as int].name == AttrNameV::Std(HtmlAttr::id) && av[k as int].value == id@);
                    return true;
                }
            }
            k = k + 1;
        }
        false
    }

    /// Whether element `i` has the class `c`.
    pub fn has_class(&self, i: u32, c: &Vec<char>) -> (r: bool)
        requires
            self.wf(),
            i < self@.recs.len(),
        ensures
            r == has_class(self@, i as int, c@),
    {
        let classes = self.class_list(i);
        let ghost cv = self@.classes[i as int];
        let mut k: usize = 0;
        while k < classes.len()
            invariant
                strs_view(classes@) == cv,
                cv == self@.classes[i as int],
                0 <= k <= classes@.len(),
                forall|m: int| 0 <= m < k ==> cv[m] != c@,
            decreases classes@.len() - k,
        {
            if same_chars(&classes[k], c) {
                assert(cv[k as int] == c@);
                return true;
            }
            k = k + 1;
        }
        false
    }
}

impl AttributeSelector {
    /// Whether an attribute of element `i` matches.
    pub fn matches_element(&self, dom: &DomInner, i: u32) -> (r: bool)
        requires
            dom.wf(),
            i < dom@.recs.len(),
        ensures
            r == has_attr_match(dom@, i as int, self@),
    {
        let attrs = dom.attributes(i);
        let ghost av = dom@.attrs[i as int];
        let mut k: usize = 0;
        while k < attrs.len()
            invariant
                attrs_view(attrs@) == av,
                av == dom@.attrs[i as int],
                0 <= k <= attrs@.len(),
                forall|m: int| 0 <= m < k ==> !pattern_matches_attr(self@, av[m]),
            decreases attrs@.len() - k,
        {
            if self.pattern.matches_attribute(&attrs[k]) {
                assert(pattern_matches_attr(self@, av[k as int]));
                return true;
            }
            k = k + 1;
        }
        false
    }

    /// Whether a class of element `i` matches.
    pub fn matches_element_class(&self, dom: &DomInner, i: u32) -> (r: bool)
        requires
            dom.wf(),
            i < dom@.recs.len(),
        ensures
            r == has_class_match(dom@, i as int, self@),
    {
        let classes = dom.class_list(i);
        let ghost cv = dom@.classes[i as int];
        let mut k: usize = 0;
        while k < classes.len()
            invariant
                strs_view(classes@) == cv,
                cv == dom@.classes[i as int],
                0 <= k <= classes@.len(),
                forall|m: int| 0 <= m < k ==> !pattern_matches_class(self@, cv[m]),
            decreases classes@.len() - k,
        {
            if self.pattern.matches_class_chars(&classes[k]) {
                assert(pattern_matches_class(self@, cv[k as int]));
                return true;
            }
            k = k + 1;
        }
        false
    }
}

impl CompoundSelector {
    /// Whether the type selector, if any, names element `i`.
    fn type_ok(&self, dom: &DomInner, i: u32) -> (r: bool)
        requires
            dom.wf(),
            i < dom@.recs.len(),
        ensures
            r == ((self@.element matches Some(t) ==> dom@.recs[i as int].tag == code_of(t))
                && (self@.ext_element matches Some(n) ==> dom@.recs[i as int].tag == EXT_TAG
                    && lower(dom@.names[i as int]) == lower(n))),
    {
        proof {
            lemma_compound_view(self);
            broadcast use lemma_htmltag_index;
        }
        let code = dom.tag_code(i);
        match self.element {
            Some(t) => {
                if code as usize != t.index() {
                    return false;
                }
            }
            None => {}
        }
        match &self.ext_element {
            Some(e) => {
                if code != EXT_TAG {
                    return false;
                }
                let a = lower_chars(dom.name(i));
                let b = lower_chars(&chars_of(e.name.as_str()));
                same_chars(&a, &b)
            }
            None => true,
        }
    }

    /// Whether every attribute selector matches element `i`.
    fn attributes_ok(&self, dom: &DomInner, i: u32) -> (r: bool)
        requires
            dom.wf(),
            i < dom@.recs.len(),
        ensures
            r == (forall|j: int| 0 <= j < self@.attributes.len() ==> has_attr_match(dom@, i as int, #[trigger] self@.attributes[j])),
    {
        proof {
            lemma_compound_view(self);
        }
        let mut j: usize = 0;
        while j < self.attributes.len()
            invariant
                dom.wf(),
                i < dom@.recs.len(),
                self@.attributes == self.attributes@.map_values(|x: AttributeSelector| x.pattern@),
                0 <= j <= self.attributes@.len(),
                forall|m: int| 0 <= m < j ==> has_attr_match(dom@, i as int, #[trigger] self@.attributes[m]),
            decreases self.attributes@.len() - j,
        {
            if !self.attributes[j].matches_element(dom, i) {
                assert(!has_attr_match(dom@, i as int, self@.attributes[j as int]));
                return false;
            }
            j = j + 1;
        }
        true
    }

    /// Whether every `[class...]` selector matches a class of element `i`.
    fn class_attributes_ok(&self, dom: &DomInner, i: u32) -> (r: bool)
        requires
            dom.wf(),
            i < dom@.recs.len(),
        ensures
            r == (forall|j: int| 0 <= j < self@.class_attributes.len() ==> has_class_match(dom@, i as int, #[trigger] self@.class_attributes[j])),
    {
        proof {
            lemma_compound_view(self);
        }
        let mut j: usize = 0;
        while j < self.class_attributes.len()
            invariant
                dom.wf(),
                i < dom@.recs.len(),
                self@.class_attributes == self.class_attributes@.map_values(|x: AttributeSelector| x.pattern@),
                0 <= j <= self.class_attributes@.len(),
                forall|m: int| 0 <= m < j ==> has_class_match(dom@, i as int, #[trigger] self@.class_attributes[m]),
            decreases self.class_attributes@.len() - j,
        {
            if !self.class_attributes[j].matches_element_class(dom, i) {
                assert(!has_class_match(dom@, i as int, self@.class_attributes[j as int]));
                return false;
            }
            j = j + 1;
        }
        true
    }

    /// Whether element `i` has every class of the selector.
    fn classes_ok(&self, dom: &DomInner, i: u32) -> (r: bool)
        requires
            dom.wf(),
            i < dom@.recs.len(),
        ensures
            r == (forall|j: int| 0 <= j < self@.classes.len() ==> has_class(dom@, i as int, #[trigger] self@.classes[j])),
    {
        proof {
            lemma_compound_view(self);
        }
        let mut j: usize = 0;
        while j < self.classes.len()
            invariant
                dom.wf(),
                i < dom@.recs.len(),
                self@.classes == self.classes@.map_values(|x: ClassSelector| x.name@),
                0 <= j <= self.classes@.len(),
                forall|m: int| 0 <= m < j ==> has_class(dom@, i as int, #[trigger] self@.classes[m]),
            decreases self.classes@.len() - j,
        {
            let c = chars_of(self.classes[j].name.as_str());
            if !dom.has_class(i, &c) {
                assert(!has_class(dom@, i as int, self@.classes[j as int]));
                return false;
            }
            j = j + 1;
        }
        true
    }

    /// The tests of this selector on element `i` other than its pseudo-classes.
    pub fn matches_local(&self, dom: &DomInner, i: u32) -> (r: bool)
        requires
            dom.wf(),
            i < dom@.recs.len(),
        ensures
            r == compound_local(dom@, i as int, self@),
    {
        proof {
            lemma_compound_view(self);
        }
        if !self.type_ok(dom, i) {
            return false;
        }
        match &self.id {
            Some(id) => {
                let v = chars_of(id.name.as_str());
                if !dom.has_id(i, &v) {
                    return false;
                }
            }
            None => {}
        }
        match &self.text {
            Some(t) => {
                let content = dom.text_content(i);
                if !t.matches_text(&content) {
                    return false;
                }
            }
            None => {}
        }
        self.attributes_ok(dom, i) && self.classes_ok(dom, i) && self.class_attributes_ok(dom, i)
    }
}

} // verus!
