//! Compound selectors (`div#main.red[title]:first-child`) and relative selectors (`> p`).
use vstd::prelude::*;

use crate::css::chars::{CssChars};
use crate::css::error::{CompoundSelectorError, ErrorKind, PErr, ParseError, RelativeSelectorError};
use crate::css::patterns::attribute_pattern::{AttributeName, AttributePattern};
use crate::css::patterns::combinator::{spec_combinator, Combinator};
use crate::css::patterns::text_pattern::res_matches;
use crate::css::selectors::attribute::AttributeSelector;
use crate::css::selectors::class::ClassSelector;
use crate::css::selectors::grammar::{
    add_attribute, compound_view, lemma_views_empty, rel_view, empty_compound, is_alphabetic_char, lemma_combinator, lemma_pseudos_push, lemma_tp_validate, pseudos_view, rem, spec_compound, spec_compound_loop, spec_compound_step, spec_pseudo, spec_relative, CompoundV,
};
use crate::css::selectors::id::IdSelector;
use crate::css::selectors::pseudo_class::PseudoClassSelector;
use crate::css::selectors::tag::{tag_pattern, ExtTagSelector, TagSelector};
use crate::html::{HtmlAttr, HtmlTag};

verus! {

/// [mdn: Compound selectors](https://developer.mozilla.org/en-US/docs/Web/CSS/CSS_selectors/Selector_structure#compound_selector)
#[derive(Debug)]
pub struct CompoundSelector {
    /// A standard type selector (`div`).
    pub element: Option<HtmlTag>,
    /// Any other type selector (`my-widget`); a compound holds at most one of the two.
    pub ext_element: Option<ExtTagSelector>,
    pub id: Option<IdSelector>,
    pub classes: Vec<ClassSelector>,
    /// Attribute selectors other than `[class...]` and `[text...]`.
    pub attributes: Vec<AttributeSelector>,
    /// `[class]` and `[class=...]`, which test the element's class names.
    pub class_attributes: Vec<AttributeSelector>,
    pub pseudo_classes: Vec<PseudoClassSelector>,
    /// `[text]` and `[text=...]`, which test the element's text content.
    pub text: Option<AttributePattern>,
}

impl Default for CompoundSelector {
    /// The compound selector with nothing in it.
    fn default() -> (r: CompoundSelector)
        ensures
            r@ == empty_compound(),
    {
        proof {
            reveal(compound_view);
            lemma_views_empty();
        }
        let r = CompoundSelector {
            element: None,
            ext_element: None,
            id: None,
            classes: Vec::new(),
            attributes: Vec::new(),
            class_attributes: Vec::new(),
            pseudo_classes: Vec::new(),
            text: None,
        };
        proof {
            assert(r@.classes =~= Seq::<Seq<char>>::empty());
            assert(r@.attributes =~= Seq::empty());
            assert(r@.class_attributes =~= Seq::empty());
        }
        r
    }
}

impl CompoundSelector {
    /// Adds an attribute selector where its name sends it.
    fn add_attribute(&mut self, a: AttributeSelector)
        ensures
            final(self)@ == add_attribute(old(self)@, a@),
    {
        proof {
            reveal(compound_view);
        }
        let ghost o = old(self)@;
        match &a.pattern.name {
            AttributeName::Std(HtmlAttr::class) => {
                self.class_attributes.push(a);
                proof {
                    assert(final(self)@.class_attributes =~= o.class_attributes.push(a@));
                }
            }
            AttributeName::Text => {
                self.text = Some(a.pattern);
            }
            _ => {
                self.attributes.push(a);
                proof {
                    assert(final(self)@.attributes =~= o.attributes.push(a@));
                }
            }
        }
    }

    /// Reads one class, id, attribute selector or pseudo-class, by the current character,
    /// into this compound.
    fn step(&mut self, chars: &mut CssChars) -> (r: Result<(), ParseError>)
        ensures
            final(chars).input() == old(chars).input(),
            final(chars).pos() == spec_compound_step(old(chars).input(), old(chars).pos(), old(self)@).1,
            match (r, spec_compound_step(old(chars).input(), old(chars).pos(), old(self)@).0) {
                (Ok(_), Ok(v)) => final(self)@ == v,
                (Err(e), Err(f)) => e@ == f,
                _ => false,
            },
        decreases rem(old(chars).input(), old(chars).pos()), 13nat,
    {
        proof {
            reveal(spec_compound_step);
            reveal(spec_pseudo);
            reveal(compound_view);
            reveal(pseudos_view);
        }
        let ghost acc = old(self)@;
        let Some((index, c)) = chars.current() else {
            return Ok(());
        };
        if c == '.' {
            match ClassSelector::from_chars(chars) {
                Err(e) => Err(e.context(ErrorKind::CompoundSelector(CompoundSelectorError::ClassFail(index)))),
                Ok(None) => Err(CompoundSelectorError::ExpectedClass(index).into_parse_error()),
                Ok(Some(cl)) => {
                    self.classes.push(cl);
                    proof {
                        assert(self@.classes =~= acc.classes.push(cl@));
                    }
                    Ok(())
                }
            }
        } else if c == '#' {
            match IdSelector::from_chars(chars) {
                Err(e) => Err(e.context(ErrorKind::CompoundSelector(CompoundSelectorError::IdFail(index)))),
                Ok(None) => Err(CompoundSelectorError::ExpectedId(index).into_parse_error()),
                Ok(Some(id)) => {
                    let duplicate = match &self.id {
                        Some(current) => !crate::html::eq_str(&crate::text::chars_of(current.name.as_str()), id.name.as_str()),
                        None => false,
                    };
                    if duplicate {
                        return Err(CompoundSelectorError::DuplicateId(index).into_parse_error());
                    }
                    self.id = Some(id);
                    Ok(())
                }
            }
        } else if c == '[' {
            match AttributeSelector::from_chars(chars) {
                Err(e) => Err(e.context(ErrorKind::CompoundSelector(CompoundSelectorError::AttributeFail(index)))),
                Ok(None) => Err(CompoundSelectorError::ExpectedAttribute(index).into_parse_error()),
                Ok(Some(a)) => {
                    self.add_attribute(a);
                    Ok(())
                }
            }
        } else if c == ':' {
            match PseudoClassSelector::from_chars(chars) {
                Err(e) => Err(e.context(ErrorKind::CompoundSelector(CompoundSelectorError::PseudoClassFail(index)))),
                Ok(None) => Err(CompoundSelectorError::ExpectedPseudoClass(index).into_parse_error()),
                Ok(Some(ps)) => {
                    let ghost old_ps = self.pseudo_classes@;
                    self.pseudo_classes.push(ps);
                    proof {
                        lemma_pseudos_push(old_ps, ps);
                    }
                    Ok(())
                }
            }
        } else {
            Ok(())
        }
    }

    pub fn from_chars(chars: &mut CssChars) -> (r: Result<Option<CompoundSelector>, ParseError>)
        ensures
            final(chars).input() == old(chars).input(),
            final(chars).pos() == spec_compound(old(chars).input(), old(chars).pos()).1,
            res_matches(r, spec_compound(old(chars).input(), old(chars).pos()).0),
        decreases rem(old(chars).input(), old(chars).pos()), 15nat,
    {
        let ghost s = chars.input();
        let ghost p0 = chars.pos();
        proof {
            reveal(spec_compound);
            reveal(spec_compound_loop);
            reveal(spec_compound_step);
            reveal(compound_view);
            reveal(pseudos_view);
        }
        let Some((_, c)) = chars.current() else {
            return Ok(None);
        };
        if c == ',' || c == ')' {
            return Ok(None);
        }
        let mut compound = CompoundSelector::default();
        match TagSelector::from_chars(chars) {
            Err(e) => {
                return Err(e);
            }
            Ok(Some(TagSelector::Std(tag))) => {
                compound.element = Some(tag);
            }
            Ok(Some(TagSelector::Ext(ext))) => {
                compound.ext_element = Some(ext);
            }
            Ok(None) => {}
        }
        proof {
            lemma_tp_validate(tag_pattern(), s, p0);
        }
        let len = chars.len();
        loop
            invariant_except_break
                chars.input() == s,
                s == old(chars).input(),
                p0 == old(chars).pos(),
                len == s.len(),
                chars.pos() >= p0,
                spec_compound(s, p0) == spec_compound_loop(s, chars.pos(), compound@),
            ensures
                chars.input() == s,
                spec_compound(s, p0) == (Ok::<Option<CompoundV>, PErr>(Some(compound@)), chars.pos()),
            decreases rem(s, chars.pos()),
        {
            proof {
                reveal(spec_compound);
                reveal(spec_compound_loop);
                reveal(spec_compound_step);
            }
            let before = chars.position();
            let Some((index, c)) = chars.current() else {
                break;
            };
            if c == '.' || c == '#' || c == '[' || c == ':' {
                match compound.step(chars) {
                    Err(e) => {
                        return Err(e);
                    }
                    Ok(()) => {}
                }
            } else if is_alphabetic_char(c) {
                return Err(CompoundSelectorError::UnexpectedChar(index).into_parse_error());
            } else {
                break;
            }
            if !(before < chars.position() && before < len) {
                break;
            }
        }
        Ok(Some(compound))
    }
}

/// A compound selector with the combinator that relates it to the one before.
#[derive(Debug)]
pub struct RelativeSelector {
    pub combinator: Combinator,
    pub selector: CompoundSelector,
}

impl RelativeSelector {
    pub fn from_chars(chars: &mut CssChars) -> (r: Result<Option<RelativeSelector>, ParseError>)
        ensures
            final(chars).input() == old(chars).input(),
            final(chars).pos() == spec_relative(old(chars).input(), old(chars).pos()).1,
            res_matches(r, spec_relative(old(chars).input(), old(chars).pos()).0),
        decreases rem(old(chars).input(), old(chars).pos()), 16nat,
    {
        let ghost s = chars.input();
        let ghost p = chars.pos();
        proof {
            reveal(spec_relative);
            reveal(spec_compound);
        }
        let Some(_) = chars.current() else {
            return Ok(None);
        };
        let combinator = Combinator::from_chars(chars);
        proof {
            lemma_combinator(s, p);
        }
        let ghost q1 = chars.pos();
        assert(combinator == spec_combinator(s, p).0 && q1 == spec_combinator(s, p).1);
        let selector_index = chars.last_index();
        let compound = CompoundSelector::from_chars(chars);
        let ghost q2 = chars.pos();
        assert(q2 == spec_compound(s, q1).1);
        match compound {
            Err(e) => {
                Err(e.context(ErrorKind::RelativeSelector(RelativeSelectorError::SelectorFail(selector_index))))
            }
            Ok(Some(selector)) => {
                chars.skip_spaces();
                let combinator = match combinator {
                    Some(c) => c,
                    None => Combinator::Descendant,
                };
                let r = RelativeSelector { combinator, selector };
                proof {
                    reveal(rel_view);
                    reveal(compound_view);
                }
                Ok(Some(r))
            }
            Ok(None) => {
                if combinator.is_none() {
                    Ok(None)
                } else {
                    Err(RelativeSelectorError::MissingSelector(selector_index).into_parse_error())
                }
            }
        }
    }
}

} // verus!
