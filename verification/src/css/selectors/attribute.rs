//! Attribute selectors: `[href]`, `[lang|="en"]`, `[title~="foo" i]`.
use vstd::prelude::*;

use crate::css::chars::{cur, CssChars};
use crate::css::error::{AttributeSelectorError, ErrorKind, KindV, PErr, ParseError};
use crate::css::patterns::attribute_pattern::{attr_pattern_text, spec_attr_pattern, AttrPatternV, AttributePattern};
use crate::css::patterns::parenthesized::{close_delimiter, open_delimiter, spec_delimited};
use crate::css::patterns::text_pattern::res_matches;
use crate::text::push_str;

verus! {

/// [mdn: Attribute selectors](https://developer.mozilla.org/en-US/docs/Web/CSS/Attribute_selectors)
#[derive(Debug, Clone)]
pub struct AttributeSelector {
    pub pattern: AttributePattern,
}

impl View for AttributeSelector {
    type V = AttrPatternV;

    open spec fn view(&self) -> AttrPatternV {
        self.pattern@
    }
}

/// Reading an attribute selector at `p`: a pattern between brackets, which may not be
/// empty.
pub open spec fn spec_attr_selector(s: Seq<char>, p: int) -> (Result<Option<AttrPatternV>, PErr>, int) {
    match cur(s, p) {
        None => (Ok(None), p),
        Some((i, _c)) => {
            let (r, q) = spec_delimited(s, p, '[', ']', spec_attr_pattern(s, p + 1));
            match r {
                Err(e) => (Err(PErr::Context(KindV::AttributeSelector(AttributeSelectorError::ParseFail(i)), Box::new(e))), q),
                Ok(None) => (Ok(None), q),
                Ok(Some(None)) => (Err(PErr::Parsing(KindV::AttributeSelector(AttributeSelectorError::EmptyBrackets(i)))), q),
                Ok(Some(Some(a))) => (Ok(Some(a)), q),
            }
        }
    }
}

/// The written form: the pattern between brackets.
pub open spec fn attr_selector_text(a: AttrPatternV) -> Seq<char> {
    "["@ + attr_pattern_text(a) + "]"@
}

impl AttributeSelector {
    pub fn new(pattern: AttributePattern) -> (r: AttributeSelector)
        ensures
            r@ == pattern@,
    {
        AttributeSelector { pattern }
    }

    pub fn from_chars(chars: &mut CssChars) -> (r: Result<Option<AttributeSelector>, ParseError>)
        ensures
            final(chars).input() == old(chars).input(),
            final(chars).pos() == spec_attr_selector(old(chars).input(), old(chars).pos()).1,
            res_matches(r, spec_attr_selector(old(chars).input(), old(chars).pos()).0),
    {
        let ghost s = chars.input();
        let ghost p = chars.pos();
        let Some((i, _)) = chars.current() else {
            return Ok(None);
        };
        let delimited = match open_delimiter(chars, '[') {
            Err(e) => Err(e),
            Ok(None) => Ok(None),
            Ok(Some(content_index)) => {
                let ghost inner = spec_attr_pattern(s, p + 1);
                let content = AttributePattern::from_chars(chars);
                close_delimiter(chars, content, content_index, ']', Ghost(inner))
            }
        };
        match delimited {
            Err(e) => Err(e.context(ErrorKind::AttributeSelector(AttributeSelectorError::ParseFail(i)))),
            Ok(None) => Ok(None),
            Ok(Some(d)) => match d.inner() {
                None => Err(AttributeSelectorError::EmptyBrackets(i).into_parse_error()),
                Some(a) => Ok(Some(AttributeSelector { pattern: a })),
            },
        }
    }

    pub fn push_text(&self, out: &mut Vec<char>)
        ensures
            final(out)@ == old(out)@ + attr_selector_text(self@),
    {
        push_str(out, "[");
        self.pattern.push_text(out);
        push_str(out, "]");
        proof {
            assert(final(out)@ =~= old(out)@ + attr_selector_text(self@));
        }
    }
}

} // verus!
