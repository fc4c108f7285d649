//! The ` i` / ` s` flag after an attribute value.
use vstd::prelude::*;

use crate::css::chars::{cur, CssChars};
use crate::css::error::{CaseIndicatorError, KindV, PErr, ParseError};
use crate::css::patterns::text_pattern::res_matches;
use crate::text::{byte_offset, push_str};

verus! {

/// Whether an attribute value compares with or without regard to case.
#[derive(Debug, PartialEq, Eq, Clone, Copy, Structural)]
pub enum CaseIndicator {
    Sensitive,
    Insensitive,
}

impl View for CaseIndicator {
    type V = CaseIndicator;

    open spec fn view(&self) -> CaseIndicator {
        *self
    }
}

/// ` s` or ` i`.
pub open spec fn case_text(c: CaseIndicator) -> Seq<char> {
    match c {
        CaseIndicator::Sensitive => " s"@,
        CaseIndicator::Insensitive => " i"@,
    }
}

/// Reading a case indicator at `p`: nothing unless the current character is a space;
/// then `i` or `s` must follow.
pub open spec fn spec_case(s: Seq<char>, p: int) -> (Result<Option<CaseIndicator>, PErr>, int) {
    match cur(s, p) {
        None => (Ok(None), p),
        Some((i, c)) => {
            if c != ' ' {
                (Ok(None), p)
            } else if p + 1 >= s.len() {
                (Err(PErr::Parsing(KindV::CaseIndicator(CaseIndicatorError::MissingCaseIndicator(i)))), p + 1)
            } else if s[p + 1] == 'i' {
                (Ok(Some(CaseIndicator::Insensitive)), p + 2)
            } else if s[p + 1] == 's' {
                (Ok(Some(CaseIndicator::Sensitive)), p + 2)
            } else {
                (Err(PErr::Parsing(KindV::CaseIndicator(CaseIndicatorError::InvalidCaseIndicator(byte_offset(s, p + 1) as usize)))), p + 1)
            }
        }
    }
}

impl CaseIndicator {
    pub fn from_chars(chars: &mut CssChars) -> (r: Result<Option<CaseIndicator>, ParseError>)
        ensures
            final(chars).input() == old(chars).input(),
            final(chars).pos() == spec_case(old(chars).input(), old(chars).pos()).1,
            res_matches(r, spec_case(old(chars).input(), old(chars).pos()).0),
    {
        let Some((start_index, start_char)) = chars.current() else {
            return Ok(None);
        };
        if start_char != ' ' {
            return Ok(None);
        }
        if let Some((next_index, next_char)) = chars.next() {
            if next_char == 'i' {
                chars.next();
                Ok(Some(CaseIndicator::Insensitive))
            } else if next_char == 's' {
                chars.next();
                Ok(Some(CaseIndicator::Sensitive))
            } else {
                Err(CaseIndicatorError::InvalidCaseIndicator(next_index).into_parse_error())
            }
        } else {
            Err(CaseIndicatorError::MissingCaseIndicator(start_index).into_parse_error())
        }
    }

    pub fn push_text(&self, out: &mut Vec<char>)
        ensures
            final(out)@ == old(out)@ + case_text(*self),
    {
        match self {
            CaseIndicator::Sensitive => push_str(out, " s"),
            CaseIndicator::Insensitive => push_str(out, " i"),
        }
    }
}

} // verus!
