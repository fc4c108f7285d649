//! What an attribute pattern matches: an element attribute, one class of an element, or
//! an element's text content.
use vstd::prelude::*;

use crate::css::patterns::attribute_operator::{contains, contains_exec, op_matches, AttributeOperator};
use crate::css::patterns::attribute_pattern::{AttrNameV, AttrPatternV, AttributeName, AttributePattern};
use crate::css::patterns::attribute_value::AttrValueV;
use crate::css::patterns::case_indicator::CaseIndicator;
use crate::dom::document::{AttrV, Attribute};
use crate::html::{attr_case_sensitive, HtmlAttr};
use crate::text::{chars_of, lower_text, lowercase, same_chars};

verus! {

/// Whether a value comparison ignores case: as its flag says, else as `default` says.
pub open spec fn ignores_case(v: AttrValueV, default: bool) -> bool {
    match v.case {
        Some(c) => c == CaseIndicator::Insensitive,
        None => default,
    }
}

/// The comparison of the selector's value with an element's value, on the lowercase
/// forms of both where case is ignored.
pub open spec fn value_matches(v: AttrValueV, insensitive: bool, value: Seq<char>) -> bool {
    if insensitive {
        op_matches(v.operator, lowercase(v.value), lowercase(value))
    } else {
        op_matches(v.operator, v.value, value)
    }
}

/// Whether pattern `p` matches attribute `a`. A standard attribute compares without
/// regard to case unless it is one of the case-sensitive ones; any other attribute
/// compares with regard to case. An `i` or `s` flag overrides both.
pub open spec fn pattern_matches_attr(p: AttrPatternV, a: AttrV) -> bool {
    match p.name {
        AttrNameV::Std(n) => a.name == AttrNameV::Std(n) && match p.value {
            None => true,
            Some(v) => value_matches(v, ignores_case(v, !attr_case_sensitive(n)), a.value),
        },
        AttrNameV::Ext(n) => a.name == AttrNameV::Ext(n) && match p.value {
            None => true,
            Some(v) => value_matches(v, ignores_case(v, false), a.value),
        },
        AttrNameV::Text => false,
    }
}

/// Whether a `[class...]` pattern matches the class `c` of an element. Classes compare
/// with regard to case unless flagged `i`; `~=` asks for the value within the class.
pub open spec fn pattern_matches_class(p: AttrPatternV, c: Seq<char>) -> bool {
    p.name == AttrNameV::Std(HtmlAttr::class) && match p.value {
        None => true,
        Some(v) => {
            let ins = v.case == Some(CaseIndicator::Insensitive);
            let pat = if ins { lowercase(v.value) } else { v.value };
            let o = if ins { lowercase(c) } else { c };
            if v.operator == AttributeOperator::List {
                contains(o, pat)
            } else {
                op_matches(v.operator, pat, o)
            }
        }
    }
}

/// Whether a `[text...]` pattern matches the text content `t`: any text where no value is
/// given; else the comparison, with the selector's value lowercased where flagged `i`.
pub open spec fn pattern_matches_text(p: AttrPatternV, t: Seq<char>) -> bool {
    match p.value {
        None => t.len() > 0,
        Some(v) => op_matches(
            v.operator,
            if v.case == Some(CaseIndicator::Insensitive) { lowercase(v.value) } else { v.value },
            t,
        ),
    }
}

impl AttributeName {
    /// Whether two names are the same.
    pub fn same_name(&self, other: &AttributeName) -> (r: bool)
        ensures
            r == (self@ == other@),
    {
        match (self, other) {
            (AttributeName::Std(a), AttributeName::Std(b)) => *a == *b,
            (AttributeName::Ext(a), AttributeName::Ext(b)) => {
                let x = chars_of(a.as_str());
                let y = chars_of(b.as_str());
                same_chars(&x, &y)
            }
            (AttributeName::Text, AttributeName::Text) => true,
            _ => false,
        }
    }
}

/// Compares on the lowercase forms where `insensitive`.
fn compare(op: AttributeOperator, pat: &Vec<char>, value: &Vec<char>, insensitive: bool) -> (r: bool)
    ensures
        r == if insensitive {
            op_matches(op, lowercase(pat@), lowercase(value@))
        } else {
            op_matches(op, pat@, value@)
        },
{
    if insensitive {
        let p = lower_text(pat);
        let v = lower_text(value);
        op.matches_chars(&p, &v)
    } else {
        op.matches_chars(pat, value)
    }
}

impl AttributePattern {
    /// Whether this pattern matches the attribute `a`.
    pub fn matches_attribute(&self, a: &Attribute) -> (r: bool)
        ensures
            r == pattern_matches_attr(self@, a@),
    {
        match &self.name {
            AttributeName::Text => false,
            AttributeName::Std(n) => {
                if !self.name.same_name(&a.name) {
                    return false;
                }
                match &self.value {
                    None => true,
                    Some(v) => {
                        let insensitive = match v.case {
                            Some(c) => c == CaseIndicator::Insensitive,
                            None => !n.is_case_sensitive(),
                        };
                        let pat = chars_of(v.value.0.as_str());
                        let val = chars_of(a.value.as_str());
                        compare(v.operator, &pat, &val, insensitive)
                    }
                }
            }
            AttributeName::Ext(_) => {
                if !self.name.same_name(&a.name) {
                    return false;
                }
                match &self.value {
                    None => true,
                    Some(v) => {
                        let insensitive = match v.case {
                            Some(c) => c == CaseIndicator::Insensitive,
                            None => false,
                        };
                        let pat = chars_of(v.value.0.as_str());
                        let val = chars_of(a.value.as_str());
                        compare(v.operator, &pat, &val, insensitive)
                    }
                }
            }
        }
    }

    /// Whether this pattern matches the class `class` of an element.
    pub fn matches_class_chars(&self, class: &Vec<char>) -> (r: bool)
        ensures
            r == pattern_matches_class(self@, class@),
    {
        let is_class = match &self.name {
            AttributeName::Std(n) => *n == HtmlAttr::class,
            _ => false,
        };
        if !is_class {
            return false;
        }
        match &self.value {
            None => true,
            Some(v) => {
                let ins = match v.case {
                    Some(c) => c == CaseIndicator::Insensitive,
                    None => false,
                };
                let pat0 = chars_of(v.value.0.as_str());
                let pat = if ins { lower_text(&pat0) } else { pat0 };
                let o = if ins { lower_text(class) } else { class.clone() };
                if v.operator == AttributeOperator::List {
                    contains_exec(&o, &pat)
                } else {
                    v.operator.matches_chars(&pat, &o)
                }
            }
        }
    }

    /// Whether this pattern matches the class `class` of an element.
    pub fn matches_class(&self, class: &str) -> (r: bool)
        ensures
            r == pattern_matches_class(self@, class@),
    {
        let c = chars_of(class);
        self.matches_class_chars(&c)
    }

    /// Whether this `[text...]` pattern matches the text content `text`.
    pub fn matches_text(&self, text: &Vec<char>) -> (r: bool)
        ensures
            r == pattern_matches_text(self@, text@),
    {
        match &self.value {
            None => text.len() > 0,
            Some(v) => {
                let ins = match v.case {
                    Some(c) => c == CaseIndicator::Insensitive,
                    None => false,
                };
                let pat0 = chars_of(v.value.0.as_str());
                let pat = if ins { lower_text(&pat0) } else { pat0 };
                v.operator.matches_chars(&pat, text)
            }
        }
    }
}

} // verus!
