//! Complex selectors (`div > p.red + span`) and complex relative selectors (`> p span`).
use vstd::prelude::*;

use crate::css::chars::{CssChars};
use crate::css::error::{
    ComplexRelativeSelectorError, ComplexSelectorError, ErrorKind, PErr, ParseError,
};
use crate::css::patterns::text_pattern::res_matches;
use crate::css::selectors::compound::{CompoundSelector, RelativeSelector};
use crate::css::selectors::grammar::{
    complex_view, lemma_rels_push, lemma_skip_ws, rels_view, rem, spec_complex, spec_complex_loop, spec_complex_rel, spec_complex_rel_loop, spec_compound, spec_relative, compound_view, lemma_views_empty, ComplexV, RelV,
};

verus! {

/// [mdn: Complex selectors](https://developer.mozilla.org/en-US/docs/Web/CSS/CSS_selectors/Selector_structure#complex_selector)
#[derive(Debug)]
pub struct ComplexSelector {
    pub first: CompoundSelector,
    pub selectors: Vec<RelativeSelector>,
}

/// The relative selectors of a `:has()` argument.
#[derive(Debug)]
pub struct ComplexRelativeSelector {
    pub selectors: Vec<RelativeSelector>,
}

impl ComplexSelector {
    pub fn from_chars(chars: &mut CssChars) -> (r: Result<Option<ComplexSelector>, ParseError>)
        ensures
            final(chars).input() == old(chars).input(),
            final(chars).pos() == spec_complex(old(chars).input(), old(chars).pos()).1,
            res_matches(r, spec_complex(old(chars).input(), old(chars).pos()).0),
        decreases rem(old(chars).input(), old(chars).pos()), 18nat,
    {
        let ghost s = chars.input();
        let ghost p = chars.pos();
        proof {
            reveal(spec_complex);
            reveal(spec_complex_loop);
            reveal(spec_compound);
            reveal(spec_relative);
        }
        let start = chars.position();
        chars.skip_spaces();
        proof {
            lemma_skip_ws(s, p);
        }
        let Some((index, _)) = chars.current() else {
            return Ok(None);
        };
        let first = match CompoundSelector::from_chars(chars) {
            Err(e) => {
                return Err(e.context(ErrorKind::ComplexSelector(ComplexSelectorError::ParseFail(index))));
            }
            Ok(None) => {
                return Ok(None);
            }
            Ok(Some(f)) => f,
        };
        let mut selectors: Vec<RelativeSelector> = Vec::new();
        proof {
            lemma_views_empty();
        }
        if chars.position() < start {
            proof {
                reveal(complex_view);
                reveal(compound_view);
                reveal(rels_view);
                lemma_views_empty();
            }
            return Ok(Some(ComplexSelector { first, selectors }));
        }
        let len = chars.len();
        loop
            invariant_except_break
                chars.input() == s,
                s == old(chars).input(),
                p == old(chars).pos(),
                len == s.len(),
                chars.pos() >= p,
                spec_complex(s, p) == spec_complex_loop(s, chars.pos(), index, first@, rels_view(selectors@)),
            ensures
                chars.input() == s,
                spec_complex(s, p) == (Ok::<Option<ComplexV>, PErr>(Some(ComplexV { first: first@, selectors: rels_view(selectors@) })), chars.pos()),
            decreases rem(s, chars.pos()),
        {
            proof {
                reveal(spec_complex);
                reveal(spec_complex_loop);
                reveal(spec_relative);
            }
            let before = chars.position();
            match RelativeSelector::from_chars(chars) {
                Err(e) => {
                    return Err(e.context(ErrorKind::ComplexSelector(ComplexSelectorError::ParseFail(index))));
                }
                Ok(None) => {
                    break;
                }
                Ok(Some(rel)) => {
                    let ghost old_sel = selectors@;
                    selectors.push(rel);
                    proof {
                        lemma_rels_push(old_sel, rel);
                    }
                    if !(before < chars.position() && before < len) {
                        break;
                    }
                }
            }
        }
        proof {
            reveal(complex_view);
            reveal(compound_view);
            reveal(rels_view);
        }
        Ok(Some(ComplexSelector { first, selectors }))
    }
}

impl ComplexRelativeSelector {
    pub fn from_chars(chars: &mut CssChars) -> (r: Result<Option<ComplexRelativeSelector>, ParseError>)
        ensures
            final(chars).input() == old(chars).input(),
            final(chars).pos() == spec_complex_rel(old(chars).input(), old(chars).pos()).1,
            res_matches(r, spec_complex_rel(old(chars).input(), old(chars).pos()).0),
        decreases rem(old(chars).input(), old(chars).pos()), 18nat,
    {
        let ghost s = chars.input();
        let ghost p = chars.pos();
        proof {
            reveal(spec_complex_rel);
            reveal(spec_complex_rel_loop);
            reveal(spec_relative);
        }
        let Some((index, _)) = chars.current() else {
            return Ok(None);
        };
        let mut selectors: Vec<RelativeSelector> = Vec::new();
        proof {
            lemma_views_empty();
        }
        let len = chars.len();
        loop
            invariant_except_break
                chars.input() == s,
                s == old(chars).input(),
                p == old(chars).pos(),
                len == s.len(),
                chars.pos() >= p,
                spec_complex_rel(s, p) == spec_complex_rel_loop(s, chars.pos(), index, rels_view(selectors@)),
            ensures
                chars.input() == s,
                spec_complex_rel(s, p) == (Ok::<Option<Seq<RelV>>, PErr>(Some(rels_view(selectors@))), chars.pos()),
            decreases rem(s, chars.pos()),
        {
            proof {
                reveal(spec_complex_rel);
                reveal(spec_complex_rel_loop);
                reveal(spec_relative);
            }
            let before = chars.position();
            match RelativeSelector::from_chars(chars) {
                Err(e) => {
                    return Err(e.context(ErrorKind::ComplexRelativeSelector(ComplexRelativeSelectorError::ParseFail(index))));
                }
                Ok(None) => {
                    break;
                }
                Ok(Some(rel)) => {
                    let ghost old_sel = selectors@;
                    selectors.push(rel);
                    proof {
                        lemma_rels_push(old_sel, rel);
                    }
                    if !(before < chars.position() && before < len) {
                        break;
                    }
                }
            }
        }
        Ok(Some(ComplexRelativeSelector { selectors }))
    }
}

} // verus!
