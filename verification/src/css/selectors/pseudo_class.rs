//! Pseudo-classes: `:first-child`, `:nth-of-type(2n+1)`, `:not(...)`, `:has(...)`.
use vstd::prelude::*;

use crate::css::chars::{CssChars};
use crate::css::error::{ErrorKind, PErr, ParseError, PseudoClassSelectorError};
use crate::css::patterns::ordinal_pattern::{spec_ordinal, OrdinalPattern};
use crate::css::patterns::parenthesized::{close_delimiter, open_delimiter, spec_delimited};
use crate::css::patterns::text_pattern::{res1_matches, res_matches, CssChar, TextPattern};
use crate::css::selectors::grammar::{
    arg_result, lemma_tp_validate, pseudo_name_pattern, rem, spec_list, spec_pseudo, spec_pseudo_named, spec_rel_list, pseudo_view,
};
use crate::css::selectors::list::{RelativeSelectorList, SelectorList};
use crate::html::eq_str;
use crate::text::chars_of;

verus! {

/// [mdn: Pseudo-classes](https://developer.mozilla.org/en-US/docs/Web/CSS/Pseudo-classes)
#[derive(Debug)]
pub enum PseudoClassSelector {
    Root,
    Empty,
    NthChild(OrdinalPattern),
    NthLastChild(OrdinalPattern),
    FirstChild,
    LastChild,
    OnlyChild,
    NthOfType(OrdinalPattern),
    NthLastOfType(OrdinalPattern),
    FirstOfType,
    LastOfType,
    OnlyOfType,
    Not(SelectorList),
    Has(RelativeSelectorList),
    Is(SelectorList),
}

fn make_pseudo_name_pattern() -> (r: TextPattern)
    ensures
        r@ == pseudo_name_pattern(),
{
    TextPattern::new()
        .allow_alphabetic()
        .start_with(CssChar::Alphabetic)
        .allow_special('-')
        .stop_at('(')
        .stop_at(':')
        .stop_at('.')
        .stop_at('#')
        .stop_at(' ')
        .stop_at('>')
        .stop_at('~')
        .stop_at('+')
        .stop_at('\n')
}

/// Whether `r` agrees with the plain ordinal result `sr`.
pub open spec fn ordinal_res_matches(r: Result<OrdinalPattern, ParseError>, sr: Result<OrdinalPattern, PErr>) -> bool {
    match (r, sr) {
        (Ok(x), Ok(y)) => x == y,
        (Err(e), Err(f)) => e@ == f,
        _ => false,
    }
}

impl PseudoClassSelector {
    /// Reads the `(ordinal)` argument at the cursor.
    fn ordinal_arg(chars: &mut CssChars, pi: usize) -> (r: Result<OrdinalPattern, ParseError>)
        ensures
            final(chars).input() == old(chars).input(),
            final(chars).pos() == spec_delimited(old(chars).input(), old(chars).pos(), '(', ')', spec_ordinal(old(chars).input(), old(chars).pos() + 1)).1,
            ordinal_res_matches(r, arg_result(old(chars).input(), pi,
                spec_delimited(old(chars).input(), old(chars).pos(), '(', ')', spec_ordinal(old(chars).input(), old(chars).pos() + 1)))),
    {
        let ghost s = chars.input();
        let ghost p = chars.pos();
        let delimited = match open_delimiter(chars, '(') {
            Err(e) => Err(e),
            Ok(None) => Ok(None),
            Ok(Some(content_index)) => {
                let content = OrdinalPattern::from_chars(chars);
                close_delimiter(chars, content, content_index, ')', Ghost(spec_ordinal(s, p + 1)))
            }
        };
        match delimited {
            Err(e) => Err(e.context(ErrorKind::PseudoClassSelector(PseudoClassSelectorError::ParseParameter(pi)))),
            Ok(None) => Err(PseudoClassSelectorError::MissingParameter(chars.last_index()).into_parse_error()),
            Ok(Some(d)) => match d.inner() {
                None => Err(PseudoClassSelectorError::EmptyParameter(chars.last_index()).into_parse_error()),
                Some(o) => Ok(o),
            },
        }
    }

    /// Reads the `(selector list)` argument at the cursor.
    fn list_arg(chars: &mut CssChars, pi: usize) -> (r: Result<SelectorList, ParseError>)
        ensures
            final(chars).input() == old(chars).input(),
            final(chars).pos() == spec_delimited(old(chars).input(), old(chars).pos(), '(', ')', spec_list(old(chars).input(), old(chars).pos() + 1)).1,
            res1_matches(r, arg_result(old(chars).input(), pi,
                spec_delimited(old(chars).input(), old(chars).pos(), '(', ')', spec_list(old(chars).input(), old(chars).pos() + 1)))),
        decreases rem(old(chars).input(), old(chars).pos()), 21nat,
    {
        let ghost s = chars.input();
        let ghost p = chars.pos();
        let delimited = match open_delimiter(chars, '(') {
            Err(e) => Err(e),
            Ok(None) => Ok(None),
            Ok(Some(content_index)) => {
                let content = SelectorList::from_chars(chars);
                close_delimiter(chars, content, content_index, ')', Ghost(spec_list(s, p + 1)))
            }
        };
        match delimited {
            Err(e) => Err(e.context(ErrorKind::PseudoClassSelector(PseudoClassSelectorError::ParseParameter(pi)))),
            Ok(None) => Err(PseudoClassSelectorError::MissingParameter(chars.last_index()).into_parse_error()),
            Ok(Some(d)) => match d.inner() {
                None => Err(PseudoClassSelectorError::EmptyParameter(chars.last_index()).into_parse_error()),
                Some(l) => Ok(l),
            },
        }
    }

    /// Reads the `(relative selector list)` argument at the cursor.
    fn rel_list_arg(chars: &mut CssChars, pi: usize) -> (r: Result<RelativeSelectorList, ParseError>)
        ensures
            final(chars).input() == old(chars).input(),
            final(chars).pos() == spec_delimited(old(chars).input(), old(chars).pos(), '(', ')', spec_rel_list(old(chars).input(), old(chars).pos() + 1)).1,
            res1_matches(r, arg_result(old(chars).input(), pi,
                spec_delimited(old(chars).input(), old(chars).pos(), '(', ')', spec_rel_list(old(chars).input(), old(chars).pos() + 1)))),
        decreases rem(old(chars).input(), old(chars).pos()), 21nat,
    {
        let ghost s = chars.input();
        let ghost p = chars.pos();
        let delimited = match open_delimiter(chars, '(') {
            Err(e) => Err(e),
            Ok(None) => Ok(None),
            Ok(Some(content_index)) => {
                let content = RelativeSelectorList::from_chars(chars);
                close_delimiter(chars, content, content_index, ')', Ghost(spec_rel_list(s, p + 1)))
            }
        };
        match delimited {
            Err(e) => Err(e.context(ErrorKind::PseudoClassSelector(PseudoClassSelectorError::ParseParameter(pi)))),
            Ok(None) => Err(PseudoClassSelectorError::MissingParameter(chars.last_index()).into_parse_error()),
            Ok(Some(d)) => match d.inner() {
                None => Err(PseudoClassSelectorError::EmptyParameter(chars.last_index()).into_parse_error()),
                Some(l) => Ok(l),
            },
        }
    }

    pub fn from_chars(chars: &mut CssChars) -> (r: Result<Option<PseudoClassSelector>, ParseError>)
        ensures
            final(chars).input() == old(chars).input(),
            final(chars).pos() == spec_pseudo(old(chars).input(), old(chars).pos()).1,
            res_matches(r, spec_pseudo(old(chars).input(), old(chars).pos()).0),
        decreases rem(old(chars).input(), old(chars).pos()), 12nat,
    {
        let ghost s = chars.input();
        let ghost p = chars.pos();
        proof {
            reveal(spec_pseudo);
            reveal(spec_pseudo_named);
            reveal(spec_list);
            reveal(spec_rel_list);
            reveal(pseudo_view);
        }
        let Some((colon_index, colon_char)) = chars.current() else {
            return Ok(None);
        };
        if colon_char != ':' {
            return Ok(None);
        }
        let pattern = make_pseudo_name_pattern();
        chars.next();
        let name = match pattern.validate(chars) {
            Err(e) => {
                let li = chars.last_index();
                return Err(e.context(ErrorKind::PseudoClassSelector(PseudoClassSelectorError::ParseFail(li))));
            }
            Ok(None) => {
                return Err(PseudoClassSelectorError::MissingKeyword(colon_index).into_parse_error());
            }
            Ok(Some(n)) => n,
        };
        proof {
            lemma_tp_validate(pseudo_name_pattern(), s, p + 1);
            CssChars::lemma_pos_bound(chars);
            crate::text::lemma_offset_mono(s, p, s.len() as int);
        }
        let parameter_index = chars.last_index();
        let v = chars_of(name.as_str());
        if eq_str(&v, "root") {
            Ok(Some(PseudoClassSelector::Root))
        } else if eq_str(&v, "empty") {
            Ok(Some(PseudoClassSelector::Empty))
        } else if eq_str(&v, "nth-child") {
            match Self::ordinal_arg(chars, parameter_index) {
                Ok(o) => Ok(Some(PseudoClassSelector::NthChild(o))),
                Err(e) => Err(e),
            }
        } else if eq_str(&v, "nth-last-child") {
            match Self::ordinal_arg(chars, parameter_index) {
                Ok(o) => Ok(Some(PseudoClassSelector::NthLastChild(o))),
                Err(e) => Err(e),
            }
        } else if eq_str(&v, "first-child") {
            Ok(Some(PseudoClassSelector::FirstChild))
        } else if eq_str(&v, "last-child") {
            Ok(Some(PseudoClassSelector::LastChild))
        } else if eq_str(&v, "only-child") {
            Ok(Some(PseudoClassSelector::OnlyChild))
        } else if eq_str(&v, "nth-of-type") {
            match Self::ordinal_arg(chars, parameter_index) {
                Ok(o) => Ok(Some(PseudoClassSelector::NthOfType(o))),
                Err(e) => Err(e),
            }
        } else if eq_str(&v, "nth-last-of-type") {
            match Self::ordinal_arg(chars, parameter_index) {
                Ok(o) => Ok(Some(PseudoClassSelector::NthLastOfType(o))),
                Err(e) => Err(e),
            }
        } else if eq_str(&v, "first-of-type") {
            Ok(Some(PseudoClassSelector::FirstOfType))
        } else if eq_str(&v, "last-of-type") {
            Ok(Some(PseudoClassSelector::LastOfType))
        } else if eq_str(&v, "only-of-type") {
            Ok(Some(PseudoClassSelector::OnlyOfType))
        } else if eq_str(&v, "not") {
            match Self::list_arg(chars, parameter_index) {
                Ok(l) => Ok(Some(PseudoClassSelector::Not(l))),
                Err(e) => Err(e),
            }
        } else if eq_str(&v, "has") {
            match Self::rel_list_arg(chars, parameter_index) {
                Ok(l) => Ok(Some(PseudoClassSelector::Has(l))),
                Err(e) => Err(e),
            }
        } else if eq_str(&v, "is") {
            match Self::list_arg(chars, parameter_index) {
                Ok(l) => Ok(Some(PseudoClassSelector::Is(l))),
                Err(e) => Err(e),
            }
        } else {
            Err(PseudoClassSelectorError::InvalidKeyword(colon_index + 1).into_parse_error())
        }
    }
}

} // verus!
