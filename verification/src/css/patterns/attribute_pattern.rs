//! The inside of an attribute selector: a name, and an optional value comparison.
use vstd::prelude::*;

use crate::css::chars::{cur, CssChars};
use crate::css::error::{context, AttributePatternError, ErrorKind, KindV, PErr, ParseError};
use crate::css::patterns::attribute_value::{attr_value_text, spec_attr_value, AttrValueV, AttributeValue};
use crate::css::patterns::text_pattern::{
    res_matches, tp_validate, tpv_allow, tpv_excl, tpv_new, tpv_start, tpv_stop, CssChar, TextPattern,
    TextPatternV, ALPHA_CODE, DIGIT_CODE,
};
use crate::html::{attr_from_name, attr_lookup, eq_str, htmlattr_name, HtmlAttr};
use crate::text::{chars_of, push_str, push_string};

verus! {

/// The name of an attribute selector: a standard attribute, any other attribute
/// (`data-*` among them), or the element's text content.
#[derive(Debug, Clone)]
pub enum AttributeName {
    Std(HtmlAttr),
    Ext(String),
    Text,
}

/// The plain-value form of [`AttributeName`].
pub enum AttrNameV {
    Std(HtmlAttr),
    Ext(Seq<char>),
    Text,
}

impl View for AttributeName {
    type V = AttrNameV;

    open spec fn view(&self) -> AttrNameV {
        match self {
            AttributeName::Std(a) => AttrNameV::Std(*a),
            AttributeName::Ext(n) => AttrNameV::Ext(n@),
            AttributeName::Text => AttrNameV::Text,
        }
    }
}

/// The name that `n` stands for: `text`, a standard attribute, or any other.
pub open spec fn attr_name_of(n: Seq<char>) -> AttrNameV {
    if n == "text"@ {
        AttrNameV::Text
    } else {
        match attr_lookup(n, 0) {
            Some(a) => AttrNameV::Std(a),
            None => AttrNameV::Ext(n),
        }
    }
}

/// The name as written.
pub open spec fn attr_name_text(a: AttrNameV) -> Seq<char> {
    match a {
        AttrNameV::Std(x) => htmlattr_name(x),
        AttrNameV::Ext(n) => n,
        AttrNameV::Text => "text"@,
    }
}

impl AttributeName {
    /// The name that `name` stands for.
    pub fn from_name(name: String) -> (r: AttributeName)
        ensures
            r@ == attr_name_of(name@),
    {
        let v = chars_of(name.as_str());
        if eq_str(&v, "text") {
            return AttributeName::Text;
        }
        match attr_from_name(&v) {
            Some(a) => AttributeName::Std(a),
            None => AttributeName::Ext(name),
        }
    }

    pub fn push_text(&self, out: &mut Vec<char>)
        ensures
            final(out)@ == old(out)@ + attr_name_text(self@),
    {
        match self {
            AttributeName::Std(a) => push_str(out, a.name()),
            AttributeName::Ext(n) => push_string(out, n),
            AttributeName::Text => push_str(out, "text"),
        }
    }
}

/// The plain-value form of [`AttributePattern`].
pub struct AttrPatternV {
    pub name: AttrNameV,
    pub value: Option<AttrValueV>,
}

/// `name` or `name="value"`, the inside of an attribute selector.
#[derive(Debug, Clone)]
pub struct AttributePattern {
    pub name: AttributeName,
    pub value: Option<AttributeValue>,
}

impl View for AttributePattern {
    type V = AttrPatternV;

    open spec fn view(&self) -> AttrPatternV {
        AttrPatternV {
            name: self.name@,
            value: match &self.value {
                Some(v) => Some(v@),
                None => None,
            },
        }
    }
}

/// The written form of an attribute pattern.
pub open spec fn attr_pattern_text(a: AttrPatternV) -> Seq<char> {
    attr_name_text(a.name) + match a.value {
        Some(v) => attr_value_text(v),
        None => Seq::empty(),
    }
}

/// The characters of an attribute name: it starts with a letter, holds letters, digits
/// and `- _ : .`, and is not made of digits and those signs alone.
pub open spec fn attr_name_pattern() -> TextPatternV {
    tpv_stop(
        tpv_excl(tpv_excl(tpv_excl(tpv_excl(tpv_excl(
            tpv_allow(tpv_allow(tpv_allow(tpv_allow(
                tpv_start(tpv_allow(tpv_allow(tpv_new(), ALPHA_CODE), DIGIT_CODE), ALPHA_CODE),
                '-' as u32), '_' as u32), ':' as u32), '.' as u32),
            CssChar::Digit), CssChar::Special('-')), CssChar::Special('_')), CssChar::Special(':')),
            CssChar::Special('.')),
        ']' as u32)
}

fn make_attr_name_pattern() -> (r: TextPattern)
    ensures
        r@ == attr_name_pattern(),
{
    TextPattern::new()
        .allow_alphabetic()
        .allow_numeric()
        .start_with(CssChar::Alphabetic)
        .allow_special('-')
        .allow_special('_')
        .allow_special(':')
        .allow_special('.')
        .not_exclusively(CssChar::Digit)
        .not_exclusively(CssChar::Special('-'))
        .not_exclusively(CssChar::Special('_'))
        .not_exclusively(CssChar::Special(':'))
        .not_exclusively(CssChar::Special('.'))
        .stop_at(']')
}

/// Reading an attribute pattern at `p`: a name, then, unless the input ends, an
/// optional value comparison.
pub open spec fn spec_attr_pattern(s: Seq<char>, p: int) -> (Result<Option<AttrPatternV>, PErr>, int) {
    match cur(s, p) {
        None => (Ok(None), p),
        Some((i, _c)) => {
            let (r1, q1) = tp_validate(attr_name_pattern(), s, p);
            match r1 {
                Err(e) => (Err(PErr::Context(KindV::AttributePattern(crate::css::error::AttributePatternErrorV::ParseName(i)), Box::new(e))), q1),
                Ok(None) => (Ok(None), q1),
                Ok(Some(n)) => {
                    let name = attr_name_of(n);
                    match cur(s, q1) {
                        None => (Ok(Some(AttrPatternV { name, value: None })), q1),
                        Some((vi, _d)) => {
                            let (r2, q2) = spec_attr_value(s, q1);
                            match r2 {
                                Err(e) => (Err(PErr::Context(KindV::AttributePattern(crate::css::error::AttributePatternErrorV::ParseValue(vi)), Box::new(e))), q2),
                                Ok(v) => (Ok(Some(AttrPatternV { name, value: v })), q2),
                            }
                        }
                    }
                }
            }
        }
    }
}

impl AttributePattern {
    pub fn from_chars(chars: &mut CssChars) -> (r: Result<Option<AttributePattern>, ParseError>)
        ensures
            final(chars).input() == old(chars).input(),
            final(chars).pos() == spec_attr_pattern(old(chars).input(), old(chars).pos()).1,
            res_matches(r, spec_attr_pattern(old(chars).input(), old(chars).pos()).0),
    {
        let Some((start_index, _)) = chars.current() else {
            return Ok(None);
        };
        let pattern = make_attr_name_pattern();
        let name = match pattern.validate(chars) {
            Err(e) => {
                return Err(e.context(ErrorKind::AttributePattern(AttributePatternError::ParseName(start_index))));
            }
            Ok(None) => {
                return Ok(None);
            }
            Ok(Some(n)) => n,
        };
        let name = AttributeName::from_name(name);
        let Some((value_index, _)) = chars.current() else {
            return Ok(Some(AttributePattern { name, value: None }));
        };
        match AttributeValue::from_chars(chars) {
            Err(e) => Err(e.context(ErrorKind::AttributePattern(AttributePatternError::ParseValue(value_index)))),
            Ok(value) => Ok(Some(AttributePattern { name, value })),
        }
    }

    pub fn push_text(&self, out: &mut Vec<char>)
        ensures
            final(out)@ == old(out)@ + attr_pattern_text(self@),
    {
        self.name.push_text(out);
        match &self.value {
            Some(v) => v.push_text(out),
            None => {}
        }
        proof {
            assert(final(out)@ =~= old(out)@ + attr_pattern_text(self@));
        }
    }
}

} // verus!
