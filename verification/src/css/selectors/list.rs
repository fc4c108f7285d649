//! Selector lists (`h1, p.red`) and relative selector lists (the argument of `:has()`).
use vstd::prelude::*;

use crate::css::chars::{last_idx, CssChars};
use crate::css::error::{ErrorKind, KindV, PErr, ParseError, RelativeSelectorListError, SelectorListError};
use crate::css::patterns::text_pattern::res_matches;
use crate::css::selectors::complex::{ComplexRelativeSelector, ComplexSelector};
use crate::css::selectors::grammar::{
    complex_rels_view, complexes_view, lemma_complex_rels_push, lemma_complexes_push, rem, spec_list,
    spec_list_loop, spec_rel_list, spec_rel_list_loop, spec_complex, spec_complex_rel, lemma_views_empty, ComplexV, RelV,
};

verus! {

/// [mdn: Selector lists](https://developer.mozilla.org/en-US/docs/Web/CSS/CSS_selectors/Selector_structure#selector_list)
#[derive(Debug)]
pub struct SelectorList {
    pub selectors: Vec<ComplexSelector>,
}

/// The argument of `:has()`: complex relative selectors separated by `,`.
#[derive(Debug)]
pub struct RelativeSelectorList {
    pub selectors: Vec<ComplexRelativeSelector>,
}

impl SelectorList {
    pub fn from_chars(chars: &mut CssChars) -> (r: Result<Option<SelectorList>, ParseError>)
        ensures
            final(chars).input() == old(chars).input(),
            final(chars).pos() == spec_list(old(chars).input(), old(chars).pos()).1,
            res_matches(r, spec_list(old(chars).input(), old(chars).pos()).0),
        decreases rem(old(chars).input(), old(chars).pos()), 20nat,
    {
        let ghost s = chars.input();
        let ghost p = chars.pos();
        proof {
            reveal(spec_list);
            reveal(spec_list_loop);
            reveal(spec_complex);
        }
        let Some((index, _)) = chars.current() else {
            return Ok(None);
        };
        let mut selectors: Vec<ComplexSelector> = Vec::new();
        let mut expect_selector = true;
        proof {
            lemma_views_empty();
        }
        let len = chars.len();
        loop
            invariant_except_break
                chars.input() == s,
                s == old(chars).input(),
                p == old(chars).pos(),
                len == s.len(),
                chars.pos() >= p,
                spec_list(s, p) == spec_list_loop(s, chars.pos(), index, complexes_view(selectors@), expect_selector),
            ensures
                chars.input() == s,
                spec_list(s, p) == (if expect_selector {
                    Err(PErr::Parsing(KindV::SelectorList(SelectorListError::Unterminated(last_idx(s, chars.pos())))))
                } else {
                    Ok::<Option<Seq<ComplexV>>, PErr>(Some(complexes_view(selectors@)))
                }, chars.pos()),
            decreases rem(s, chars.pos()),
        {
            proof {
                reveal(spec_list);
                reveal(spec_list_loop);
                reveal(spec_complex);
            }
            let before = chars.position();
            match ComplexSelector::from_chars(chars) {
                Err(e) => {
                    return Err(e.context(ErrorKind::SelectorList(SelectorListError::ParseFail(index))));
                }
                Ok(None) => {
                    break;
                }
                Ok(Some(selector)) => {
                    let ghost old_sel = selectors@;
                    selectors.push(selector);
                    proof {
                        lemma_complexes_push(old_sel, selector);
                    }
                    chars.skip_spaces();
                    expect_selector = false;
                    match chars.current() {
                        None => {
                            break;
                        }
                        Some((_, c)) => {
                            if c == ',' {
                                expect_selector = true;
                                chars.next();
                                chars.skip_spaces();
                                if !(before < chars.position() && before < len) {
                                    expect_selector = false;
                                    break;
                                }
                            } else {
                                break;
                            }
                        }
                    }
                }
            }
        }
        if expect_selector {
            return Err(SelectorListError::Unterminated(chars.last_index()).into_parse_error());
        }
        Ok(Some(SelectorList { selectors }))
    }
}

impl RelativeSelectorList {
    pub fn from_chars(chars: &mut CssChars) -> (r: Result<Option<RelativeSelectorList>, ParseError>)
        ensures
            final(chars).input() == old(chars).input(),
            final(chars).pos() == spec_rel_list(old(chars).input(), old(chars).pos()).1,
            res_matches(r, spec_rel_list(old(chars).input(), old(chars).pos()).0),
        decreases rem(old(chars).input(), old(chars).pos()), 20nat,
    {
        let ghost s = chars.input();
        let ghost p = chars.pos();
        proof {
            reveal(spec_rel_list);
            reveal(spec_rel_list_loop);
            reveal(spec_complex_rel);
        }
        let Some((index, _)) = chars.current() else {
            return Ok(None);
        };
        let mut selectors: Vec<ComplexRelativeSelector> = Vec::new();
        let mut expect_selector = true;
        proof {
            lemma_views_empty();
        }
        let len = chars.len();
        loop
            invariant_except_break
                chars.input() == s,
                s == old(chars).input(),
                p == old(chars).pos(),
                len == s.len(),
                chars.pos() >= p,
                spec_rel_list(s, p) == spec_rel_list_loop(s, chars.pos(), index, complex_rels_view(selectors@), expect_selector),
            ensures
                chars.input() == s,
                spec_rel_list(s, p) == (if expect_selector {
                    Err(PErr::Parsing(KindV::RelativeSelectorList(RelativeSelectorListError::Unterminated(last_idx(s, chars.pos())))))
                } else {
                    Ok::<Option<Seq<Seq<RelV>>>, PErr>(Some(complex_rels_view(selectors@)))
                }, chars.pos()),
            decreases rem(s, chars.pos()),
        {
            proof {
                reveal(spec_rel_list);
                reveal(spec_rel_list_loop);
                reveal(spec_complex_rel);
            }
            let before = chars.position();
            match ComplexRelativeSelector::from_chars(chars) {
                Err(e) => {
                    return Err(e.context(ErrorKind::RelativeSelectorList(RelativeSelectorListError::ParseFail(index))));
                }
                Ok(None) => {
                    break;
                }
                Ok(Some(selector)) => {
                    let ghost old_sel = selectors@;
                    selectors.push(selector);
                    proof {
                        lemma_complex_rels_push(old_sel, selector);
                    }
                    chars.skip_spaces();
                    expect_selector = false;
                    match chars.current() {
                        None => {
                            break;
                        }
                        Some((_, c)) => {
                            if c == ',' {
                                expect_selector = true;
                                chars.next();
                                chars.skip_spaces();
                                if !(before < chars.position() && before < len) {
                                    expect_selector = false;
                                    break;
                                }
                            } else {
                                break;
                            }
                        }
                    }
                }
            }
        }
        if expect_selector {
            return Err(RelativeSelectorListError::Unterminated(chars.last_index()).into_parse_error());
        }
        Ok(Some(RelativeSelectorList { selectors }))
    }
}

} // verus!
