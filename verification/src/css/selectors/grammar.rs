//! The selector grammar as plain values: what the selector types stand for, and what
//! reading each of them from a position of the source gives.
use vstd::prelude::*;

use crate::css::chars::{cur, last_idx, skip_ws};
use crate::css::error::{
    ComplexRelativeSelectorError, ComplexSelectorError, CompoundSelectorError, KindV, PErr,
    PseudoClassSelectorError, RelativeSelectorError, RelativeSelectorListError, SelectorListError,
};
use crate::css::patterns::attribute_pattern::{AttrNameV, AttrPatternV};
use crate::css::patterns::combinator::{spec_combinator, Combinator};
use crate::css::patterns::ordinal_pattern::{spec_ordinal, OrdinalPattern};
use crate::css::patterns::parenthesized::spec_delimited;
use crate::css::patterns::text_pattern::{
    tp_scan, tp_validate, tpv_allow, tpv_new, tpv_start, tpv_stop, TextPatternV, ALPHA_CODE,
};
use crate::css::selectors::attribute::spec_attr_selector;
use crate::css::selectors::class::spec_class;
use crate::css::selectors::id::spec_id;
use crate::css::selectors::tag::{spec_tag, tag_pattern, TagV};
use crate::css::selectors::complex::{ComplexRelativeSelector, ComplexSelector};
use crate::css::selectors::compound::{CompoundSelector, RelativeSelector};
use crate::css::selectors::list::{RelativeSelectorList, SelectorList};
use crate::css::selectors::pseudo_class::PseudoClassSelector;
use crate::html::HtmlAttr;
use crate::text::is_white;

verus! {

/// The plain-value form of a pseudo-class.
pub enum PseudoV {
    Root,
    Empty,
    NthChild(OrdinalPattern),
    NthLastChild(OrdinalPattern),
    FirstChild,
    LastChild,
    OnlyChild,
    NthOfType(OrdinalPattern),
    NthLastOfType(OrdinalPattern),
    FirstOfType,
    LastOfType,
    OnlyOfType,
    Not(Seq<ComplexV>),
    Has(Seq<Seq<RelV>>),
    Is(Seq<ComplexV>),
}

/// The plain-value form of a compound selector.
pub struct CompoundV {
    pub element: Option<crate::html::HtmlTag>,
    pub ext_element: Option<Seq<char>>,
    pub id: Option<Seq<char>>,
    pub classes: Seq<Seq<char>>,
    pub attributes: Seq<AttrPatternV>,
    pub class_attributes: Seq<AttrPatternV>,
    pub pseudo_classes: Seq<PseudoV>,
    pub text: Option<AttrPatternV>,
}

/// The plain-value form of a relative selector.
pub struct RelV {
    pub combinator: Combinator,
    pub selector: CompoundV,
}

/// The plain-value form of a complex selector.
pub struct ComplexV {
    pub first: CompoundV,
    pub selectors: Seq<RelV>,
}

/// The plain value of a pseudo-class.
#[verifier::opaque]
pub open spec fn pseudo_view(p: &PseudoClassSelector) -> PseudoV
    decreases p, 2nat,
{
    match p {
        PseudoClassSelector::Root => PseudoV::Root,
        PseudoClassSelector::Empty => PseudoV::Empty,
        PseudoClassSelector::NthChild(o) => PseudoV::NthChild(*o),
        PseudoClassSelector::NthLastChild(o) => PseudoV::NthLastChild(*o),
        PseudoClassSelector::FirstChild => PseudoV::FirstChild,
        PseudoClassSelector::LastChild => PseudoV::LastChild,
        PseudoClassSelector::OnlyChild => PseudoV::OnlyChild,
        PseudoClassSelector::NthOfType(o) => PseudoV::NthOfType(*o),
        PseudoClassSelector::NthLastOfType(o) => PseudoV::NthLastOfType(*o),
        PseudoClassSelector::FirstOfType => PseudoV::FirstOfType,
        PseudoClassSelector::LastOfType => PseudoV::LastOfType,
        PseudoClassSelector::OnlyOfType => PseudoV::OnlyOfType,
        PseudoClassSelector::Not(l) => PseudoV::Not(complexes_view(l.selectors@)),
        PseudoClassSelector::Has(l) => PseudoV::Has(complex_rels_view(l.selectors@)),
        PseudoClassSelector::Is(l) => PseudoV::Is(complexes_view(l.selectors@)),
    }
}

/// The plain values of pseudo-classes.
#[verifier::opaque]
pub open spec fn pseudos_view(s: Seq<PseudoClassSelector>) -> Seq<PseudoV>
    decreases s, 0nat,
{
    if s.len() == 0 {
        Seq::empty()
    } else {
        pseudos_view(s.drop_last()).push(pseudo_view(&s.last()))
    }
}

/// The plain value of a compound selector.
#[verifier::opaque]
pub open spec fn compound_view(c: &CompoundSelector) -> CompoundV
    decreases c, 2nat,
{
    CompoundV {
        element: c.element,
        ext_element: match &c.ext_element {
            Some(e) => Some(e.name@),
            None => None,
        },
        id: match &c.id {
            Some(i) => Some(i.name@),
            None => None,
        },
        classes: c.classes@.map_values(|x: crate::css::selectors::class::ClassSelector| x.name@),
        attributes: c.attributes@.map_values(|x: crate::css::selectors::attribute::AttributeSelector| x.pattern@),
        class_attributes: c.class_attributes@.map_values(|x: crate::css::selectors::attribute::AttributeSelector| x.pattern@),
        pseudo_classes: pseudos_view(c.pseudo_classes@),
        text: match &c.text {
            Some(t) => Some(t@),
            None => None,
        },
    }
}

/// The plain value of a relative selector.
#[verifier::opaque]
pub open spec fn rel_view(r: &RelativeSelector) -> RelV
    decreases r, 3nat,
{
    RelV { combinator: r.combinator, selector: compound_view(&r.selector) }
}

/// The plain values of relative selectors.
#[verifier::opaque]
pub open spec fn rels_view(s: Seq<RelativeSelector>) -> Seq<RelV>
    decreases s, 0nat,
{
    if s.len() == 0 {
        Seq::empty()
    } else {
        rels_view(s.drop_last()).push(rel_view(&s.last()))
    }
}

/// The plain value of a complex selector.
#[verifier::opaque]
pub open spec fn complex_view(c: &ComplexSelector) -> ComplexV
    decreases c, 3nat,
{
    ComplexV { first: compound_view(&c.first), selectors: rels_view(c.selectors@) }
}

/// The plain values of complex selectors.
#[verifier::opaque]
pub open spec fn complexes_view(s: Seq<ComplexSelector>) -> Seq<ComplexV>
    decreases s, 0nat,
{
    if s.len() == 0 {
        Seq::empty()
    } else {
        complexes_view(s.drop_last()).push(complex_view(&s.last()))
    }
}

/// The plain values of complex relative selectors.
#[verifier::opaque]
pub open spec fn complex_rels_view(s: Seq<ComplexRelativeSelector>) -> Seq<Seq<RelV>>
    decreases s, 0nat,
{
    if s.len() == 0 {
        Seq::empty()
    } else {
        complex_rels_view(s.drop_last()).push(rels_view(s.last().selectors@))
    }
}

impl View for PseudoClassSelector {
    type V = PseudoV;

    open spec fn view(&self) -> PseudoV {
        pseudo_view(self)
    }
}

impl View for CompoundSelector {
    type V = CompoundV;

    open spec fn view(&self) -> CompoundV {
        compound_view(self)
    }
}

impl View for RelativeSelector {
    type V = RelV;

    open spec fn view(&self) -> RelV {
        rel_view(self)
    }
}

impl View for ComplexSelector {
    type V = ComplexV;

    open spec fn view(&self) -> ComplexV {
        complex_view(self)
    }
}

impl View for ComplexRelativeSelector {
    type V = Seq<RelV>;

    open spec fn view(&self) -> Seq<RelV> {
        rels_view(self.selectors@)
    }
}

impl View for SelectorList {
    type V = Seq<ComplexV>;

    open spec fn view(&self) -> Seq<ComplexV> {
        complexes_view(self.selectors@)
    }
}

impl View for RelativeSelectorList {
    type V = Seq<Seq<RelV>>;

    open spec fn view(&self) -> Seq<Seq<RelV>> {
        complex_rels_view(self.selectors@)
    }
}

/// The compound selector with nothing in it.
pub open spec fn empty_compound() -> CompoundV {
    CompoundV {
        element: None,
        ext_element: None,
        id: None,
        classes: Seq::empty(),
        attributes: Seq::empty(),
        class_attributes: Seq::empty(),
        pseudo_classes: Seq::empty(),
        text: None,
    }
}

/// What is left of the input from position `p`: the measure that every read shortens.
pub open spec fn rem(s: Seq<char>, p: int) -> nat {
    if p < s.len() { (s.len() - p) as nat } else { 0 }
}

pub proof fn lemma_skip_ws(s: Seq<char>, p: int)
    ensures
        skip_ws(s, p) >= p,
        0 <= p <= s.len() ==> skip_ws(s, p) <= s.len(),
    decreases s.len() - p,
{
    if 0 <= p < s.len() && is_white(s[p]) {
        lemma_skip_ws(s, p + 1);
    }
}

pub proof fn lemma_scan(t: TextPatternV, s: Seq<char>, q: int, end: int, valid: bool)
    ensures
        tp_scan(t, s, q, end, valid).0 >= q || tp_scan(t, s, q, end, valid).0 == s.len(),
        q <= s.len() ==> tp_scan(t, s, q, end, valid).0 >= q,
    decreases s.len() - q,
{
    if 0 <= q < s.len() && !t.stop_at.contains(s[q] as u32) && t.allowed.contains(crate::css::patterns::text_pattern::char_code(s[q])) {
        lemma_scan(t, s, q + 1, q, valid || !crate::css::patterns::text_pattern::excl_contains(t, crate::css::patterns::text_pattern::char_code(s[q])));
    }
}

/// A name read never ends before where it began.
pub proof fn lemma_tp_validate(t: TextPatternV, s: Seq<char>, p: int)
    ensures
        tp_validate(t, s, p).1 >= p,
{
    if 0 <= p < s.len() {
        lemma_scan(t, s, p + 1, p, true);
        lemma_scan(t, s, p + 1, p, false);
    }
}

pub proof fn lemma_combinator(s: Seq<char>, p: int)
    ensures
        spec_combinator(s, p).1 >= p,
{
    lemma_skip_ws(s, p);
    lemma_skip_ws(s, p + 1);
    let q = skip_ws(s, p);
    lemma_skip_ws(s, q + 1);
}

/// The characters of a pseudo-class name.
pub open spec fn pseudo_name_pattern() -> TextPatternV {
    tpv_stop(tpv_stop(tpv_stop(tpv_stop(tpv_stop(tpv_stop(tpv_stop(tpv_stop(tpv_stop(
        tpv_allow(tpv_start(tpv_allow(tpv_new(), ALPHA_CODE), ALPHA_CODE), '-' as u32),
        '(' as u32), ':' as u32), '.' as u32), '#' as u32), ' ' as u32), '>' as u32), '~' as u32), '+' as u32),
        '\n' as u32)
}

/// A pseudo-class error as a plain value.
pub open spec fn pc_err(e: PseudoClassSelectorError) -> PErr {
    PErr::Parsing(KindV::PseudoClassSelector(e))
}

/// The argument of a pseudo-class, from the result `r` of reading it between
/// parentheses: it must be there and not be empty.
pub open spec fn arg_result<V>(s: Seq<char>, pi: usize, r: (Result<Option<Option<V>>, PErr>, int)) -> Result<V, PErr> {
    let (res, q2) = r;
    match res {
        Err(e) => Err(PErr::Context(KindV::PseudoClassSelector(PseudoClassSelectorError::ParseParameter(pi)), Box::new(e))),
        Ok(None) => Err(pc_err(PseudoClassSelectorError::MissingParameter(last_idx(s, q2)))),
        Ok(Some(None)) => Err(pc_err(PseudoClassSelectorError::EmptyParameter(last_idx(s, q2)))),
        Ok(Some(Some(v))) => Ok(v),
    }
}

/// The pseudo-class that `wrap` makes of the argument read with result `r`.
pub open spec fn pseudo_arg<V>(s: Seq<char>, pi: usize, r: (Result<Option<Option<V>>, PErr>, int), wrap: spec_fn(V) -> PseudoV) -> (Result<Option<PseudoV>, PErr>, int) {
    (match arg_result(s, pi, r) {
        Ok(v) => Ok(Some(wrap(v))),
        Err(e) => Err(e),
    }, r.1)
}

/// What the view of a relative selector is made of.
pub proof fn lemma_rel_view(r: &RelativeSelector)
    ensures
        rel_view(r) == (RelV { combinator: r.combinator, selector: compound_view(&r.selector) }),
{
    reveal(rel_view);
    reveal(compound_view);
}

/// What the view of a complex selector is made of.
pub proof fn lemma_complex_view(c: &ComplexSelector)
    ensures
        complex_view(c) == (ComplexV { first: compound_view(&c.first), selectors: rels_view(c.selectors@) }),
{
    reveal(complex_view);
    reveal(compound_view);
    reveal(rels_view);
}

/// What the view of a compound selector is made of.
pub proof fn lemma_compound_view(c: &CompoundSelector)
    ensures
        compound_view(c) == (CompoundV {
            element: c.element,
            ext_element: match &c.ext_element {
                Some(e) => Some(e.name@),
                None => None,
            },
            id: match &c.id {
                Some(i) => Some(i.name@),
                None => None,
            },
            classes: c.classes@.map_values(|x: crate::css::selectors::class::ClassSelector| x.name@),
            attributes: c.attributes@.map_values(|x: crate::css::selectors::attribute::AttributeSelector| x.pattern@),
            class_attributes: c.class_attributes@.map_values(|x: crate::css::selectors::attribute::AttributeSelector| x.pattern@),
            pseudo_classes: pseudos_view(c.pseudo_classes@),
            text: match &c.text {
                Some(t) => Some(t@),
                None => None,
            },
        }),
{
    reveal(compound_view);
    reveal(pseudos_view);
}

/// What the view of a pseudo-class is made of.
pub proof fn lemma_pseudo_view(p: &PseudoClassSelector)
    ensures
        pseudo_view(p) == match p {
            PseudoClassSelector::Root => PseudoV::Root,
            PseudoClassSelector::Empty => PseudoV::Empty,
            PseudoClassSelector::NthChild(o) => PseudoV::NthChild(*o),
            PseudoClassSelector::NthLastChild(o) => PseudoV::NthLastChild(*o),
            PseudoClassSelector::FirstChild => PseudoV::FirstChild,
            PseudoClassSelector::LastChild => PseudoV::LastChild,
            PseudoClassSelector::OnlyChild => PseudoV::OnlyChild,
            PseudoClassSelector::NthOfType(o) => PseudoV::NthOfType(*o),
            PseudoClassSelector::NthLastOfType(o) => PseudoV::NthLastOfType(*o),
            PseudoClassSelector::FirstOfType => PseudoV::FirstOfType,
            PseudoClassSelector::LastOfType => PseudoV::LastOfType,
            PseudoClassSelector::OnlyOfType => PseudoV::OnlyOfType,
            PseudoClassSelector::Not(l) => PseudoV::Not(complexes_view(l.selectors@)),
            PseudoClassSelector::Has(l) => PseudoV::Has(complex_rels_view(l.selectors@)),
            PseudoClassSelector::Is(l) => PseudoV::Is(complexes_view(l.selectors@)),
        },
{
    reveal(pseudo_view);
    reveal(complexes_view);
    reveal(complex_rels_view);
}

/// The view of a sequence of pseudo-classes is theirs, one by one.
pub proof fn lemma_pseudos_index(s: Seq<PseudoClassSelector>)
    ensures
        pseudos_view(s).len() == s.len(),
        forall|i: int| 0 <= i < s.len() ==> #[trigger] pseudos_view(s)[i] == pseudo_view(&s[i]),
    decreases s.len(),
{
    reveal(pseudos_view);
    reveal(pseudo_view);
    if s.len() > 0 {
        lemma_pseudos_index(s.drop_last());
    }
}

/// The view of a sequence of relative selectors is theirs, one by one.
pub proof fn lemma_rels_index(s: Seq<RelativeSelector>)
    ensures
        rels_view(s).len() == s.len(),
        forall|i: int| 0 <= i < s.len() ==> #[trigger] rels_view(s)[i] == rel_view(&s[i]),
    decreases s.len(),
{
    reveal(rels_view);
    reveal(rel_view);
    if s.len() > 0 {
        lemma_rels_index(s.drop_last());
    }
}

/// The view of a sequence of complex selectors is theirs, one by one.
pub proof fn lemma_complexes_index(s: Seq<ComplexSelector>)
    ensures
        complexes_view(s).len() == s.len(),
        forall|i: int| 0 <= i < s.len() ==> #[trigger] complexes_view(s)[i] == complex_view(&s[i]),
    decreases s.len(),
{
    reveal(complexes_view);
    reveal(complex_view);
    if s.len() > 0 {
        lemma_complexes_index(s.drop_last());
    }
}

/// The view of a sequence of complex relative selectors is theirs, one by one.
pub proof fn lemma_complex_rels_index(s: Seq<ComplexRelativeSelector>)
    ensures
        complex_rels_view(s).len() == s.len(),
        forall|i: int| 0 <= i < s.len() ==> #[trigger] complex_rels_view(s)[i] == rels_view(s[i].selectors@),
    decreases s.len(),
{
    reveal(complex_rels_view);
    reveal(rels_view);
    if s.len() > 0 {
        lemma_complex_rels_index(s.drop_last());
    }
}

/// The views of empty sequences are empty.
pub proof fn lemma_views_empty()
    ensures
        pseudos_view(Seq::empty()) == Seq::<PseudoV>::empty(),
        rels_view(Seq::empty()) == Seq::<RelV>::empty(),
        complexes_view(Seq::empty()) == Seq::<ComplexV>::empty(),
        complex_rels_view(Seq::empty()) == Seq::<Seq<RelV>>::empty(),
{
    reveal(pseudos_view);
    reveal(rels_view);
    reveal(complexes_view);
    reveal(complex_rels_view);
}

pub proof fn lemma_pseudos_push(s: Seq<PseudoClassSelector>, x: PseudoClassSelector)
    ensures
        pseudos_view(s.push(x)) == pseudos_view(s).push(pseudo_view(&x)),
{
    reveal(pseudos_view);
    reveal(pseudo_view);
    assert(s.push(x).drop_last() =~= s);
    assert(s.push(x).last() == x);
}

pub proof fn lemma_rels_push(s: Seq<RelativeSelector>, x: RelativeSelector)
    ensures
        rels_view(s.push(x)) == rels_view(s).push(rel_view(&x)),
{
    reveal(rels_view);
    reveal(rel_view);
    assert(s.push(x).drop_last() =~= s);
    assert(s.push(x).last() == x);
}

pub proof fn lemma_complexes_push(s: Seq<ComplexSelector>, x: ComplexSelector)
    ensures
        complexes_view(s.push(x)) == complexes_view(s).push(complex_view(&x)),
{
    reveal(complexes_view);
    reveal(complex_view);
    assert(s.push(x).drop_last() =~= s);
    assert(s.push(x).last() == x);
}

pub proof fn lemma_complex_rels_push(s: Seq<ComplexRelativeSelector>, x: ComplexRelativeSelector)
    ensures
        complex_rels_view(s.push(x)) == complex_rels_view(s).push(rels_view(x.selectors@)),
{
    reveal(complex_rels_view);
    reveal(rels_view);
    assert(s.push(x).drop_last() =~= s);
    assert(s.push(x).last() == x);
}

/// The pseudo-class named `name` whose argument, if it takes one, starts at `q`.
#[verifier::opaque]
pub open spec fn spec_pseudo_named(s: Seq<char>, p: int, ci: usize, q: int, name: Seq<char>) -> (Result<Option<PseudoV>, PErr>, int)
    decreases rem(s, p), 11nat,
{
    let pi = last_idx(s, q);
    if q <= p || p >= s.len() {
        (Ok(None), q)
    } else if name == "root"@ {
        (Ok(Some(PseudoV::Root)), q)
    } else if name == "empty"@ {
        (Ok(Some(PseudoV::Empty)), q)
    } else if name == "nth-child"@ {
        pseudo_arg(s, pi, spec_delimited(s, q, '(', ')', spec_ordinal(s, q + 1)), |o: OrdinalPattern| PseudoV::NthChild(o))
    } else if name == "nth-last-child"@ {
        pseudo_arg(s, pi, spec_delimited(s, q, '(', ')', spec_ordinal(s, q + 1)), |o: OrdinalPattern| PseudoV::NthLastChild(o))
    } else if name == "first-child"@ {
        (Ok(Some(PseudoV::FirstChild)), q)
    } else if name == "last-child"@ {
        (Ok(Some(PseudoV::LastChild)), q)
    } else if name == "only-child"@ {
        (Ok(Some(PseudoV::OnlyChild)), q)
    } else if name == "nth-of-type"@ {
        pseudo_arg(s, pi, spec_delimited(s, q, '(', ')', spec_ordinal(s, q + 1)), |o: OrdinalPattern| PseudoV::NthOfType(o))
    } else if name == "nth-last-of-type"@ {
        pseudo_arg(s, pi, spec_delimited(s, q, '(', ')', spec_ordinal(s, q + 1)), |o: OrdinalPattern| PseudoV::NthLastOfType(o))
    } else if name == "first-of-type"@ {
        (Ok(Some(PseudoV::FirstOfType)), q)
    } else if name == "last-of-type"@ {
        (Ok(Some(PseudoV::LastOfType)), q)
    } else if name == "only-of-type"@ {
        (Ok(Some(PseudoV::OnlyOfType)), q)
    } else if name == "not"@ {
        pseudo_arg(s, pi, spec_delimited(s, q, '(', ')', spec_list(s, q + 1)), |l: Seq<ComplexV>| PseudoV::Not(l))
    } else if name == "has"@ {
        pseudo_arg(s, pi, spec_delimited(s, q, '(', ')', spec_rel_list(s, q + 1)), |l: Seq<Seq<RelV>>| PseudoV::Has(l))
    } else if name == "is"@ {
        pseudo_arg(s, pi, spec_delimited(s, q, '(', ')', spec_list(s, q + 1)), |l: Seq<ComplexV>| PseudoV::Is(l))
    } else {
        (Err(pc_err(PseudoClassSelectorError::InvalidKeyword((ci + 1) as usize))), q)
    }
}

/// Reading a pseudo-class at `p`: `:`, a name, and the argument that the name takes.
#[verifier::opaque]
pub open spec fn spec_pseudo(s: Seq<char>, p: int) -> (Result<Option<PseudoV>, PErr>, int)
    decreases rem(s, p), 12nat,
{
    match cur(s, p) {
        None => (Ok(None), p),
        Some((ci, c)) => {
            if c != ':' {
                (Ok(None), p)
            } else {
                let (r, q) = tp_validate(pseudo_name_pattern(), s, p + 1);
                match r {
                    Err(e) => (Err(PErr::Context(KindV::PseudoClassSelector(PseudoClassSelectorError::ParseFail(last_idx(s, q))), Box::new(e))), q),
                    Ok(None) => (Err(pc_err(PseudoClassSelectorError::MissingKeyword(ci))), q),
                    Ok(Some(name)) => {
                        proof { lemma_tp_validate(pseudo_name_pattern(), s, p + 1); }
                        spec_pseudo_named(s, p, ci, q, name)
                    }
                }
            }
        }
    }
}

/// `acc` with an attribute selector added where its name sends it: `[class...]` to the
/// class checks, `[text...]` to the text check, any other to the attribute checks.
pub open spec fn add_attribute(acc: CompoundV, a: AttrPatternV) -> CompoundV {
    match a.name {
        AttrNameV::Std(HtmlAttr::class) => CompoundV { class_attributes: acc.class_attributes.push(a), ..acc },
        AttrNameV::Text => CompoundV { text: Some(a), ..acc },
        _ => CompoundV { attributes: acc.attributes.push(a), ..acc },
    }
}

/// Whether `c` is alphabetic, as `char::is_alphabetic` decides.
pub uninterp spec fn alphabetic(c: char) -> bool;

/// `char::is_alphabetic`: whether `c` has the Unicode `Alphabetic` property. Its
/// documentation states the result for ASCII: the letters are alphabetic, the other
/// ASCII characters are not. Beyond ASCII, the result is named, not stated.
#[verifier::external_body]
pub fn is_alphabetic_char(c: char) -> (r: bool)
    ensures
        r == alphabetic(c),
        crate::text::is_ascii_alpha(c) ==> r,
        (c as u32) < 128 && !crate::text::is_ascii_alpha(c) ==> !r,
{
    c.is_alphabetic()
}

/// A compound selector error as a plain value.
pub open spec fn cs_err(e: CompoundSelectorError) -> PErr {
    PErr::Parsing(KindV::CompoundSelector(e))
}

/// A compound selector error wrapped around `inner`.
pub open spec fn cs_ctx(e: CompoundSelectorError, inner: PErr) -> PErr {
    PErr::Context(KindV::CompoundSelector(e), Box::new(inner))
}

/// One simple selector of a compound (a class, an id, an attribute selector or a
/// pseudo-class, by the current character) read at `p` and added to `acc`.
#[verifier::opaque]
pub open spec fn spec_compound_step(s: Seq<char>, p: int, acc: CompoundV) -> (Result<CompoundV, PErr>, int)
    decreases rem(s, p), 13nat,
{
    match cur(s, p) {
        None => (Ok(acc), p),
        Some((index, c)) => {
            if c == '.' {
                let (r, q) = spec_class(s, p);
                match r {
                    Err(e) => (Err(cs_ctx(CompoundSelectorError::ClassFail(index), e)), q),
                    Ok(None) => (Err(cs_err(CompoundSelectorError::ExpectedClass(index))), q),
                    Ok(Some(cl)) => (Ok(CompoundV { classes: acc.classes.push(cl), ..acc }), q),
                }
            } else if c == '#' {
                let (r, q) = spec_id(s, p);
                match r {
                    Err(e) => (Err(cs_ctx(CompoundSelectorError::IdFail(index), e)), q),
                    Ok(None) => (Err(cs_err(CompoundSelectorError::ExpectedId(index))), q),
                    Ok(Some(id)) => {
                        if acc.id is Some && acc.id->0 != id {
                            (Err(cs_err(CompoundSelectorError::DuplicateId(index))), q)
                        } else {
                            (Ok(CompoundV { id: Some(id), ..acc }), q)
                        }
                    }
                }
            } else if c == '[' {
                let (r, q) = spec_attr_selector(s, p);
                match r {
                    Err(e) => (Err(cs_ctx(CompoundSelectorError::AttributeFail(index), e)), q),
                    Ok(None) => (Err(cs_err(CompoundSelectorError::ExpectedAttribute(index))), q),
                    Ok(Some(a)) => (Ok(add_attribute(acc, a)), q),
                }
            } else if c == ':' {
                let (r, q) = spec_pseudo(s, p);
                match r {
                    Err(e) => (Err(cs_ctx(CompoundSelectorError::PseudoClassFail(index), e)), q),
                    Ok(None) => (Err(cs_err(CompoundSelectorError::ExpectedPseudoClass(index))), q),
                    Ok(Some(ps)) => (Ok(CompoundV { pseudo_classes: acc.pseudo_classes.push(ps), ..acc }), q),
                }
            } else {
                (Ok(acc), p)
            }
        }
    }
}

/// The simple selectors of a compound after its type selector, from `p` on, added to
/// `acc`. Reading goes on while the position advances.
#[verifier::opaque]
pub open spec fn spec_compound_loop(s: Seq<char>, p: int, acc: CompoundV) -> (Result<Option<CompoundV>, PErr>, int)
    decreases rem(s, p), 14nat,
{
    match cur(s, p) {
        None => (Ok(Some(acc)), p),
        Some((index, c)) => {
            if c == '.' || c == '#' || c == '[' || c == ':' {
                let (step, q) = spec_compound_step(s, p, acc);
                match step {
                    Err(e) => (Err(e), q),
                    Ok(next) => {
                        if p < q && p < s.len() {
                            spec_compound_loop(s, q, next)
                        } else {
                            (Ok(Some(next)), q)
                        }
                    }
                }
            } else if alphabetic(c) {
                (Err(cs_err(CompoundSelectorError::UnexpectedChar(index))), p)
            } else {
                (Ok(Some(acc)), p)
            }
        }
    }
}

/// Reading a compound selector at `p`: nothing at the end, `,` or `)`; else an optional
/// type selector and the simple selectors after it.
#[verifier::opaque]
pub open spec fn spec_compound(s: Seq<char>, p: int) -> (Result<Option<CompoundV>, PErr>, int)
    decreases rem(s, p), 15nat,
{
    match cur(s, p) {
        None => (Ok(None), p),
        Some((_i, c)) => {
            if c == ',' || c == ')' {
                (Ok(None), p)
            } else {
                let (r, q) = spec_tag(s, p);
                proof { lemma_tp_validate(tag_pattern(), s, p); }
                match r {
                    Err(e) => (Err(e), q),
                    Ok(t) => {
                        let acc = match t {
                            Some(TagV::Std(x)) => CompoundV { element: Some(x), ..empty_compound() },
                            Some(TagV::Ext(n)) => CompoundV { ext_element: Some(n), ..empty_compound() },
                            None => empty_compound(),
                        };
                        spec_compound_loop(s, q, acc)
                    }
                }
            }
        }
    }
}

/// Reading a relative selector at `p`: an optional combinator and a compound selector,
/// with the spaces after it.
#[verifier::opaque]
pub open spec fn spec_relative(s: Seq<char>, p: int) -> (Result<Option<RelV>, PErr>, int)
    decreases rem(s, p), 16nat,
{
    match cur(s, p) {
        None => (Ok(None), p),
        Some(_) => {
            let comb = spec_combinator(s, p);
            proof { lemma_combinator(s, p); }
            let si = last_idx(s, comb.1);
            let res = spec_compound(s, comb.1);
            let q2 = res.1;
            match res.0 {
                Err(e) => (Err(PErr::Context(KindV::RelativeSelector(RelativeSelectorError::SelectorFail(si)), Box::new(e))), q2),
                Ok(Some(sel)) => (Ok(Some(RelV {
                    combinator: match comb.0 { Some(x) => x, None => Combinator::Descendant },
                    selector: sel,
                })), skip_ws(s, q2)),
                Ok(None) => {
                    if comb.0 is None {
                        (Ok(None), q2)
                    } else {
                        (Err(PErr::Parsing(KindV::RelativeSelector(RelativeSelectorError::MissingSelector(si)))), q2)
                    }
                }
            }
        }
    }
}

/// The relative selectors of a complex selector, from `p` on.
#[verifier::opaque]
pub open spec fn spec_complex_loop(s: Seq<char>, p: int, idx: usize, first: CompoundV, acc: Seq<RelV>) -> (Result<Option<ComplexV>, PErr>, int)
    decreases rem(s, p), 17nat,
{
    let (r, q) = spec_relative(s, p);
    match r {
        Err(e) => (Err(PErr::Context(KindV::ComplexSelector(ComplexSelectorError::ParseFail(idx)), Box::new(e))), q),
        Ok(None) => (Ok(Some(ComplexV { first, selectors: acc })), q),
        Ok(Some(rel)) => {
            if p < q && p < s.len() {
                spec_complex_loop(s, q, idx, first, acc.push(rel))
            } else {
                (Ok(Some(ComplexV { first, selectors: acc.push(rel) })), q)
            }
        }
    }
}

/// Reading a complex selector at `p`: spaces, a compound selector, and the relative
/// selectors after it.
#[verifier::opaque]
pub open spec fn spec_complex(s: Seq<char>, p: int) -> (Result<Option<ComplexV>, PErr>, int)
    decreases rem(s, p), 18nat,
{
    let p1 = skip_ws(s, p);
    proof { lemma_skip_ws(s, p); }
    match cur(s, p1) {
        None => (Ok(None), p1),
        Some((idx, _c)) => {
            let (r, q) = spec_compound(s, p1);
            match r {
                Err(e) => (Err(PErr::Context(KindV::ComplexSelector(ComplexSelectorError::ParseFail(idx)), Box::new(e))), q),
                Ok(None) => (Ok(None), q),
                Ok(Some(first)) => {
                    if p <= q {
                        spec_complex_loop(s, q, idx, first, Seq::empty())
                    } else {
                        (Ok(Some(ComplexV { first, selectors: Seq::empty() })), q)
                    }
                }
            }
        }
    }
}

/// The complex selectors of a list, from `p` on; `expect` when a `,` was just read.
#[verifier::opaque]
pub open spec fn spec_list_loop(s: Seq<char>, p: int, idx: usize, acc: Seq<ComplexV>, expect: bool) -> (Result<Option<Seq<ComplexV>>, PErr>, int)
    decreases rem(s, p), 19nat,
{
    let (r, q) = spec_complex(s, p);
    match r {
        Err(e) => (Err(PErr::Context(KindV::SelectorList(SelectorListError::ParseFail(idx)), Box::new(e))), q),
        Ok(None) => {
            if expect {
                (Err(PErr::Parsing(KindV::SelectorList(SelectorListError::Unterminated(last_idx(s, q))))), q)
            } else {
                (Ok(Some(acc)), q)
            }
        }
        Ok(Some(c)) => {
            let q1 = skip_ws(s, q);
            match cur(s, q1) {
                None => (Ok(Some(acc.push(c))), q1),
                Some((_j, d)) => {
                    if d == ',' {
                        let q2 = skip_ws(s, q1 + 1);
                        if p < q2 && p < s.len() {
                            spec_list_loop(s, q2, idx, acc.push(c), true)
                        } else {
                            (Ok(Some(acc.push(c))), q2)
                        }
                    } else {
                        (Ok(Some(acc.push(c))), q1)
                    }
                }
            }
        }
    }
}

/// Reading a selector list at `p`: complex selectors separated by `,`.
#[verifier::opaque]
pub open spec fn spec_list(s: Seq<char>, p: int) -> (Result<Option<Seq<ComplexV>>, PErr>, int)
    decreases rem(s, p), 20nat,
{
    match cur(s, p) {
        None => (Ok(None), p),
        Some((idx, _c)) => spec_list_loop(s, p, idx, Seq::empty(), true),
    }
}

/// The relative selectors of a complex relative selector, from `p` on.
#[verifier::opaque]
pub open spec fn spec_complex_rel_loop(s: Seq<char>, p: int, idx: usize, acc: Seq<RelV>) -> (Result<Option<Seq<RelV>>, PErr>, int)
    decreases rem(s, p), 17nat,
{
    let (r, q) = spec_relative(s, p);
    match r {
        Err(e) => (Err(PErr::Context(KindV::ComplexRelativeSelector(ComplexRelativeSelectorError::ParseFail(idx)), Box::new(e))), q),
        Ok(None) => (Ok(Some(acc)), q),
        Ok(Some(rel)) => {
            if p < q && p < s.len() {
                spec_complex_rel_loop(s, q, idx, acc.push(rel))
            } else {
                (Ok(Some(acc.push(rel))), q)
            }
        }
    }
}

/// Reading a complex relative selector at `p`: relative selectors, one after the other.
#[verifier::opaque]
pub open spec fn spec_complex_rel(s: Seq<char>, p: int) -> (Result<Option<Seq<RelV>>, PErr>, int)
    decreases rem(s, p), 18nat,
{
    match cur(s, p) {
        None => (Ok(None), p),
        Some((idx, _c)) => spec_complex_rel_loop(s, p, idx, Seq::empty()),
    }
}

/// The complex relative selectors of a list, from `p` on.
#[verifier::opaque]
pub open spec fn spec_rel_list_loop(s: Seq<char>, p: int, idx: usize, acc: Seq<Seq<RelV>>, expect: bool) -> (Result<Option<Seq<Seq<RelV>>>, PErr>, int)
    decreases rem(s, p), 19nat,
{
    let (r, q) = spec_complex_rel(s, p);
    match r {
        Err(e) => (Err(PErr::Context(KindV::RelativeSelectorList(RelativeSelectorListError::ParseFail(idx)), Box::new(e))), q),
        Ok(None) => {
            if expect {
                (Err(PErr::Parsing(KindV::RelativeSelectorList(RelativeSelectorListError::Unterminated(last_idx(s, q))))), q)
            } else {
                (Ok(Some(acc)), q)
            }
        }
        Ok(Some(c)) => {
            let q1 = skip_ws(s, q);
            match cur(s, q1) {
                None => (Ok(Some(acc.push(c))), q1),
                Some((_j, d)) => {
                    if d == ',' {
                        let q2 = skip_ws(s, q1 + 1);
                        if p < q2 && p < s.len() {
                            spec_rel_list_loop(s, q2, idx, acc.push(c), true)
                        } else {
                            (Ok(Some(acc.push(c))), q2)
                        }
                    } else {
                        (Ok(Some(acc.push(c))), q1)
                    }
                }
            }
        }
    }
}

/// Reading a relative selector list at `p`: complex relative selectors separated by `,`.
#[verifier::opaque]
pub open spec fn spec_rel_list(s: Seq<char>, p: int) -> (Result<Option<Seq<Seq<RelV>>>, PErr>, int)
    decreases rem(s, p), 20nat,
{
    match cur(s, p) {
        None => (Ok(None), p),
        Some((idx, _c)) => spec_rel_list_loop(s, p, idx, Seq::empty(), true),
    }
}

} // verus!
