//! The operator, quoted value and case flag of an attribute selector.
use vstd::prelude::*;

use crate::css::chars::{cur, last_idx, CssChars};
use crate::css::error::{context, AttributeValueError, ErrorKind, KindV, PErr, ParseError};
use crate::css::patterns::attribute_operator::{operator_text, spec_operator, AttributeOperator};
use crate::css::patterns::case_indicator::{case_text, spec_case, CaseIndicator};
use crate::css::patterns::quoted_string::{spec_quoted, QuotedString};
use crate::css::patterns::text_pattern::res_matches;

verus! {

/// The plain-value form of [`AttributeValue`].
pub struct AttrValueV {
    pub operator: AttributeOperator,
    pub value: Seq<char>,
    pub case: Option<CaseIndicator>,
}

/// The comparison part of an attribute selector: `="value" i`.
#[derive(Debug, Clone)]
pub struct AttributeValue {
    pub operator: AttributeOperator,
    pub value: QuotedString,
    pub case: Option<CaseIndicator>,
}

impl View for AttributeValue {
    type V = AttrValueV;

    open spec fn view(&self) -> AttrValueV {
        AttrValueV { operator: self.operator, value: self.value@, case: self.case }
    }
}

/// The written form: operator, quoted value, case flag.
pub open spec fn attr_value_text(v: AttrValueV) -> Seq<char> {
    operator_text(v.operator) + "'"@ + v.value + "'"@ + match v.case {
        Some(c) => case_text(c),
        None => Seq::empty(),
    }
}

/// Reading an attribute value at `p`: an operator, then a quoted string, then an
/// optional case flag. No operator, no value; an operator without a string is an error.
pub open spec fn spec_attr_value(s: Seq<char>, p: int) -> (Result<Option<AttrValueV>, PErr>, int) {
    match cur(s, p) {
        None => (Ok(None), p),
        Some((oi, _c)) => {
            let (r1, q1) = spec_operator(s, p);
            match r1 {
                Err(e) => (Err(PErr::Context(KindV::AttributeValue(AttributeValueError::InvalidOperator(oi)), Box::new(e))), q1),
                Ok(None) => (Ok(None), q1),
                Ok(Some(op)) => {
                    let qi = last_idx(s, q1);
                    let (r2, q2) = spec_quoted(s, q1);
                    match r2 {
                        Err(e) => (Err(PErr::Context(KindV::AttributeValue(AttributeValueError::InvalidValue(qi)), Box::new(e))), q2),
                        Ok(None) => (Err(PErr::Parsing(KindV::AttributeValue(AttributeValueError::MissingValue(last_idx(s, q2))))), q2),
                        Ok(Some(v)) => {
                            let ci = last_idx(s, q2);
                            let (r3, q3) = spec_case(s, q2);
                            match r3 {
                                Err(e) => (Err(PErr::Context(KindV::AttributeValue(AttributeValueError::InvalidCase(ci)), Box::new(e))), q3),
                                Ok(case) => (Ok(Some(AttrValueV { operator: op, value: v, case })), q3),
                            }
                        }
                    }
                }
            }
        }
    }
}

impl AttributeValue {
    pub fn from_chars(chars: &mut CssChars) -> (r: Result<Option<AttributeValue>, ParseError>)
        ensures
            final(chars).input() == old(chars).input(),
            final(chars).pos() == spec_attr_value(old(chars).input(), old(chars).pos()).1,
            res_matches(r, spec_attr_value(old(chars).input(), old(chars).pos()).0),
    {
        let Some((operator_index, _)) = chars.current() else {
            return Ok(None);
        };
        let op = match AttributeOperator::from_chars(chars) {
            Err(e) => {
                return Err(e.context(ErrorKind::AttributeValue(AttributeValueError::InvalidOperator(operator_index))));
            }
            Ok(None) => {
                return Ok(None);
            }
            Ok(Some(op)) => op,
        };
        let quote_index = chars.last_index();
        let val = match QuotedString::from_chars(chars) {
            Err(e) => {
                return Err(e.context(ErrorKind::AttributeValue(AttributeValueError::InvalidValue(quote_index))));
            }
            Ok(None) => {
                return Err(AttributeValueError::MissingValue(chars.last_index()).into_parse_error());
            }
            Ok(Some(v)) => v,
        };
        let case_index = chars.last_index();
        let case = match CaseIndicator::from_chars(chars) {
            Err(e) => {
                return Err(e.context(ErrorKind::AttributeValue(AttributeValueError::InvalidCase(case_index))));
            }
            Ok(c) => c,
        };
        Ok(Some(AttributeValue { operator: op, value: val, case }))
    }

    pub fn push_text(&self, out: &mut Vec<char>)
        ensures
            final(out)@ == old(out)@ + attr_value_text(self@),
    {
        self.operator.push_text(out);
        self.value.push_text(out);
        match &self.case {
            Some(c) => c.push_text(out),
            None => {}
        }
        proof {
            assert(final(out)@ =~= old(out)@ + attr_value_text(self@));
        }
    }
}

} // verus!
