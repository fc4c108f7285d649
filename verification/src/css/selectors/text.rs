//! The written form of selectors, as they are displayed.
use vstd::prelude::*;

use crate::css::patterns::attribute_pattern::{attr_pattern_text, AttrPatternV};
use crate::css::patterns::combinator::{combinator_text, Combinator};
use crate::css::patterns::ordinal_pattern::ordinal_text;
use crate::css::selectors::attribute::{attr_selector_text, AttributeSelector};
use crate::css::selectors::class::ClassSelector;
use crate::css::selectors::complex::{ComplexRelativeSelector, ComplexSelector};
use crate::css::selectors::compound::{CompoundSelector, RelativeSelector};
use crate::css::selectors::grammar::{
    complex_rels_view, complex_view, complexes_view, pseudo_view, pseudos_view, rel_view, rels_view, lemma_complex_view, lemma_compound_view, lemma_pseudo_view, lemma_pseudos_index, lemma_rel_view, lemma_rels_index, lemma_complexes_index, lemma_complex_rels_index, ComplexV, CompoundV, PseudoV, RelV,
};
use crate::css::selectors::list::{RelativeSelectorList, SelectorList};
use crate::css::selectors::pseudo_class::PseudoClassSelector;
use crate::html::htmltag_name;
use crate::text::{push_str, push_string, string_from_chars};

verus! {

/// The written form of a pseudo-class.
pub open spec fn pseudo_text(p: PseudoV) -> Seq<char>
    decreases p, 2nat,
{
    match p {
        PseudoV::Root => ":root"@,
        PseudoV::Empty => ":empty"@,
        PseudoV::NthChild(o) => ":nth-child("@ + ordinal_text(o) + ")"@,
        PseudoV::NthLastChild(o) => ":nth-last-child("@ + ordinal_text(o) + ")"@,
        PseudoV::FirstChild => ":first-child"@,
        PseudoV::LastChild => ":last-child"@,
        PseudoV::OnlyChild => ":only-child"@,
        PseudoV::NthOfType(o) => ":nth-of-type("@ + ordinal_text(o) + ")"@,
        PseudoV::NthLastOfType(o) => ":nth-last-of-type("@ + ordinal_text(o) + ")"@,
        PseudoV::FirstOfType => ":first-of-type"@,
        PseudoV::LastOfType => ":last-of-type"@,
        PseudoV::OnlyOfType => ":only-of-type"@,
        PseudoV::Not(l) => ":not("@ + list_text(l) + ")"@,
        PseudoV::Has(l) => ":has("@ + rel_list_text(l) + ")"@,
        PseudoV::Is(l) => ":is("@ + list_text(l) + ")"@,
    }
}

/// The written forms of pseudo-classes, one after the other.
pub open spec fn pseudos_text(s: Seq<PseudoV>) -> Seq<char>
    decreases s, 0nat,
{
    if s.len() == 0 {
        Seq::empty()
    } else {
        pseudos_text(s.drop_last()) + pseudo_text(s.last())
    }
}

/// The written forms of attribute selectors, one after the other.
pub open spec fn attrs_text(s: Seq<AttrPatternV>) -> Seq<char>
    decreases s.len(),
{
    if s.len() == 0 {
        Seq::empty()
    } else {
        attrs_text(s.drop_last()) + attr_selector_text(s.last())
    }
}

/// The written forms of class selectors, one after the other.
pub open spec fn classes_text(s: Seq<Seq<char>>) -> Seq<char>
    decreases s.len(),
{
    if s.len() == 0 {
        Seq::empty()
    } else {
        classes_text(s.drop_last()) + "."@ + s.last()
    }
}

/// The type and id of a compound selector, as written.
pub open spec fn compound_head_text(c: CompoundV) -> Seq<char> {
    (match c.element {
        Some(t) => htmltag_name(t),
        None => Seq::empty(),
    }) + (match c.ext_element {
        Some(n) => n,
        None => Seq::empty(),
    }) + (match c.id {
        Some(i) => "#"@ + i,
        None => Seq::empty(),
    })
}

/// The attribute selectors of a compound selector, as written.
pub open spec fn compound_attrs_text(c: CompoundV) -> Seq<char> {
    attrs_text(c.attributes) + (match c.text {
        Some(t) => "["@ + attr_pattern_text(t) + "]"@,
        None => Seq::empty(),
    }) + attrs_text(c.class_attributes)
}

/// The written form of a compound selector: type, id, attributes, text, class
/// attributes, pseudo-classes and classes, in this order.
pub open spec fn compound_text(c: CompoundV) -> Seq<char>
    decreases c, 3nat,
{
    compound_head_text(c) + compound_attrs_text(c) + pseudos_text(c.pseudo_classes) + classes_text(c.classes)
}

/// The relative selectors of a complex selector, each after a space or its combinator.
pub open spec fn complex_rest_text(s: Seq<RelV>) -> Seq<char>
    decreases s, 0nat,
{
    if s.len() == 0 {
        Seq::empty()
    } else {
        complex_rest_text(s.drop_last()) + (if s.last().combinator != Combinator::Descendant {
            " "@ + combinator_text(s.last().combinator)
        } else {
            " "@
        }) + compound_text(s.last().selector)
    }
}

/// The written form of a complex selector.
pub open spec fn complex_text(c: ComplexV) -> Seq<char>
    decreases c, 4nat,
{
    compound_text(c.first) + complex_rest_text(c.selectors)
}

/// The written form of a complex relative selector from its `i`-th part on, `first`
/// while no descendant part was written yet.
pub open spec fn complex_rel_text(s: Seq<RelV>) -> Seq<char>
    decreases s, 1nat,
{
    complex_rel_text_from(s, 0, true)
}

/// The parts of a complex relative selector from the `i`-th on.
pub open spec fn complex_rel_text_from(s: Seq<RelV>, i: int, first: bool) -> Seq<char>
    decreases s, 0nat, s.len() - i,
{
    if i < 0 || i >= s.len() {
        Seq::empty()
    } else if s[i].combinator == Combinator::Descendant {
        if first {
            compound_text(s[i].selector) + complex_rel_text_from(s, i + 1, false)
        } else {
            combinator_text(s[i].combinator) + compound_text(s[i].selector) + complex_rel_text_from(s, i + 1, false)
        }
    } else {
        " "@ + combinator_text(s[i].combinator) + " "@ + compound_text(s[i].selector) + complex_rel_text_from(s, i + 1, first)
    }
}

/// Complex selectors separated by `, `.
pub open spec fn list_text(l: Seq<ComplexV>) -> Seq<char>
    decreases l, 0nat,
{
    if l.len() == 0 {
        Seq::empty()
    } else if l.len() == 1 {
        complex_text(l[0])
    } else {
        list_text(l.drop_last()) + ", "@ + complex_text(l.last())
    }
}

/// Complex relative selectors separated by `, `.
pub open spec fn rel_list_text(l: Seq<Seq<RelV>>) -> Seq<char>
    decreases l, 0nat,
{
    if l.len() == 0 {
        Seq::empty()
    } else if l.len() == 1 {
        complex_rel_text(l[0])
    } else {
        rel_list_text(l.drop_last()) + ", "@ + complex_rel_text(l.last())
    }
}

} // verus!

verus! {

impl PseudoClassSelector {
    pub fn push_text(&self, out: &mut Vec<char>)
        ensures
            final(out)@ == old(out)@ + pseudo_text(self@),
        decreases self, 2nat,
    {
        proof {
            lemma_pseudo_view(self);
        }
        match self {
            PseudoClassSelector::Root => push_str(out, ":root"),
            PseudoClassSelector::Empty => push_str(out, ":empty"),
            PseudoClassSelector::NthChild(o) => {
                push_str(out, ":nth-child(");
                o.push_text(out);
                push_str(out, ")");
            }
            PseudoClassSelector::NthLastChild(o) => {
                push_str(out, ":nth-last-child(");
                o.push_text(out);
                push_str(out, ")");
            }
            PseudoClassSelector::FirstChild => push_str(out, ":first-child"),
            PseudoClassSelector::LastChild => push_str(out, ":last-child"),
            PseudoClassSelector::OnlyChild => push_str(out, ":only-child"),
            PseudoClassSelector::NthOfType(o) => {
                push_str(out, ":nth-of-type(");
                o.push_text(out);
                push_str(out, ")");
            }
            PseudoClassSelector::NthLastOfType(o) => {
                push_str(out, ":nth-last-of-type(");
                o.push_text(out);
                push_str(out, ")");
            }
            PseudoClassSelector::FirstOfType => push_str(out, ":first-of-type"),
            PseudoClassSelector::LastOfType => push_str(out, ":last-of-type"),
            PseudoClassSelector::OnlyOfType => push_str(out, ":only-of-type"),
            PseudoClassSelector::Not(l) => {
                push_str(out, ":not(");
                l.push_text(out);
                push_str(out, ")");
            }
            PseudoClassSelector::Has(l) => {
                push_str(out, ":has(");
                l.push_text(out);
                push_str(out, ")");
            }
            PseudoClassSelector::Is(l) => {
                push_str(out, ":is(");
                l.push_text(out);
                push_str(out, ")");
            }
        }
        proof {
            assert(final(out)@ =~= old(out)@ + pseudo_text(self@));
        }
    }
}

/// Appends the written forms of attribute selectors.
fn push_attrs(v: &Vec<AttributeSelector>, out: &mut Vec<char>)
    ensures
        final(out)@ == old(out)@ + attrs_text(v@.map_values(|x: AttributeSelector| x.pattern@)),
{
    let ghost m = v@.map_values(|x: AttributeSelector| x.pattern@);
    let mut i: usize = 0;
    while i < v.len()
        invariant
            0 <= i <= v@.len(),
            m == v@.map_values(|x: AttributeSelector| x.pattern@),
            out@ == old(out)@ + attrs_text(m.subrange(0, i as int)),
        decreases v@.len() - i,
    {
        v[i].push_text(out);
        proof {
            assert(m.subrange(0, i + 1).drop_last() =~= m.subrange(0, i as int));
        }
        i = i + 1;
    }
    proof {
        assert(m.subrange(0, v@.len() as int) =~= m);
    }
}

/// Appends the written forms of class selectors.
fn push_classes(v: &Vec<ClassSelector>, out: &mut Vec<char>)
    ensures
        final(out)@ == old(out)@ + classes_text(v@.map_values(|x: ClassSelector| x.name@)),
{
    let ghost m = v@.map_values(|x: ClassSelector| x.name@);
    let mut i: usize = 0;
    while i < v.len()
        invariant
            0 <= i <= v@.len(),
            m == v@.map_values(|x: ClassSelector| x.name@),
            out@ == old(out)@ + classes_text(m.subrange(0, i as int)),
        decreases v@.len() - i,
    {
        v[i].push_text(out);
        proof {
            assert(m.subrange(0, i + 1).drop_last() =~= m.subrange(0, i as int));
            assert(out@ =~= old(out)@ + classes_text(m.subrange(0, i + 1)));
        }
        i = i + 1;
    }
    proof {
        assert(m.subrange(0, v@.len() as int) =~= m);
    }
}

/// Appends the written forms of pseudo-classes.
fn push_pseudos(v: &Vec<PseudoClassSelector>, out: &mut Vec<char>)
    ensures
        final(out)@ == old(out)@ + pseudos_text(pseudos_view(v@)),
    decreases v, 0nat,
{
    proof {
        lemma_pseudos_index(v@);
    }
    let ghost ps = pseudos_view(v@);
    let mut i: usize = 0;
    while i < v.len()
        invariant
            0 <= i <= v@.len(),
            ps == pseudos_view(v@),
            ps.len() == v@.len(),
            forall|k: int| 0 <= k < ps.len() ==> #[trigger] ps[k] == pseudo_view(&v@[k]),
            out@ == old(out)@ + pseudos_text(ps.subrange(0, i as int)),
        decreases v@.len() - i,
    {
        v[i].push_text(out);
        proof {
            assert(ps.subrange(0, i + 1).drop_last() =~= ps.subrange(0, i as int));
            assert(out@ =~= old(out)@ + pseudos_text(ps.subrange(0, i + 1)));
        }
        i = i + 1;
    }
    proof {
        assert(ps.subrange(0, ps.len() as int) =~= ps);
    }
}

impl CompoundSelector {
    fn push_head(&self, out: &mut Vec<char>)
        ensures
            final(out)@ == old(out)@ + compound_head_text(self@),
    {
        proof {
            lemma_compound_view(self);
        }
        match &self.element {
            Some(t) => push_str(out, t.name()),
            None => {}
        }
        match &self.ext_element {
            Some(e) => push_string(out, &e.name),
            None => {}
        }
        match &self.id {
            Some(i) => i.push_text(out),
            None => {}
        }
        proof {
            assert(final(out)@ =~= old(out)@ + compound_head_text(self@));
        }
    }

    fn push_attrs_part(&self, out: &mut Vec<char>)
        ensures
            final(out)@ == old(out)@ + compound_attrs_text(self@),
    {
        proof {
            lemma_compound_view(self);
        }
        push_attrs(&self.attributes, out);
        match &self.text {
            Some(t) => {
                push_str(out, "[");
                t.push_text(out);
                push_str(out, "]");
            }
            None => {}
        }
        push_attrs(&self.class_attributes, out);
        proof {
            assert(final(out)@ =~= old(out)@ + compound_attrs_text(self@));
        }
    }

    pub fn push_text(&self, out: &mut Vec<char>)
        ensures
            final(out)@ == old(out)@ + compound_text(self@),
        decreases self, 3nat,
    {
        proof {
            lemma_compound_view(self);
        }
        self.push_head(out);
        self.push_attrs_part(out);
        push_pseudos(&self.pseudo_classes, out);
        push_classes(&self.classes, out);
        proof {
            assert(final(out)@ =~= old(out)@ + compound_text(self@));
        }
    }
}

impl RelativeSelector {
    /// The combinator's written form, then the compound selector's.
    pub fn push_text(&self, out: &mut Vec<char>)
        ensures
            final(out)@ == old(out)@ + combinator_text(self@.combinator) + compound_text(self@.selector),
    {
        proof {
            lemma_rel_view(self);
        }
        self.combinator.push_text(out);
        self.selector.push_text(out);
        proof {
            assert(final(out)@ =~= old(out)@ + combinator_text(self@.combinator) + compound_text(self@.selector));
        }
    }
}

impl ComplexSelector {
    pub fn push_text(&self, out: &mut Vec<char>)
        ensures
            final(out)@ == old(out)@ + complex_text(self@),
        decreases self, 4nat,
    {
        proof {
            lemma_complex_view(self);
            lemma_rels_index(self.selectors@);
        }
        self.first.push_text(out);
        let ghost rs = rels_view(self.selectors@);
        let ghost mid = out@;
        let mut i: usize = 0;
        while i < self.selectors.len()
            invariant
                0 <= i <= self.selectors@.len(),
                rs == rels_view(self.selectors@),
                rs.len() == self.selectors@.len(),
                forall|k: int| 0 <= k < rs.len() ==> #[trigger] rs[k] == rel_view(&self.selectors@[k]),
                out@ == mid + complex_rest_text(rs.subrange(0, i as int)),
            decreases self.selectors@.len() - i,
        {
            let r = &self.selectors[i];
            proof {
                lemma_rel_view(r);
            }
            let ghost before = out@;
            if r.combinator != Combinator::Descendant {
                push_str(out, " ");
                r.combinator.push_text(out);
            } else {
                push_str(out, " ");
            }
            r.selector.push_text(out);
            proof {
                assert(rs.subrange(0, i + 1).drop_last() =~= rs.subrange(0, i as int));
                assert(rs.subrange(0, i + 1).last() == rs[i as int]);
                assert(out@ =~= mid + complex_rest_text(rs.subrange(0, i + 1)));
            }
            i = i + 1;
        }
        proof {
            assert(rs.subrange(0, rs.len() as int) =~= rs);
        }
    }

    pub fn to_string(&self) -> (r: String)
        ensures
            r@ == complex_text(self@),
    {
        let mut v: Vec<char> = Vec::new();
        self.push_text(&mut v);
        string_from_chars(v.as_slice())
    }
}

impl ComplexRelativeSelector {
    pub fn push_text(&self, out: &mut Vec<char>)
        ensures
            final(out)@ == old(out)@ + complex_rel_text(self@),
        decreases self, 4nat,
    {
        proof {
            lemma_rels_index(self.selectors@);
        }
        let ghost rs = rels_view(self.selectors@);
        let mut first = true;
        let mut i: usize = 0;
        while i < self.selectors.len()
            invariant
                0 <= i <= self.selectors@.len(),
                rs == rels_view(self.selectors@),
                rs.len() == self.selectors@.len(),
                forall|k: int| 0 <= k < rs.len() ==> #[trigger] rs[k] == rel_view(&self.selectors@[k]),
                old(out)@ + complex_rel_text_from(rs, 0, true) == out@ + complex_rel_text_from(rs, i as int, first),
            decreases self.selectors@.len() - i,
        {
            let ghost before = out@;
            let ghost first0 = first;
            let r = &self.selectors[i];
            proof {
                lemma_rel_view(r);
                assert(rs[i as int] == rel_view(r));
            }
            if r.combinator == Combinator::Descendant {
                if first {
                    first = false;
                    r.selector.push_text(out);
                } else {
                    r.combinator.push_text(out);
                    r.selector.push_text(out);
                }
            } else {
                push_str(out, " ");
                r.combinator.push_text(out);
                push_str(out, " ");
                r.selector.push_text(out);
            }
            proof {
                let piece = out@.subrange(before.len() as int, out@.len() as int);
                assert(out@ =~= before + piece);
                assert(complex_rel_text_from(rs, i as int, first0) =~= piece + complex_rel_text_from(rs, i + 1, first));
            }
            i = i + 1;
        }
    }
}

impl SelectorList {
    pub fn push_text(&self, out: &mut Vec<char>)
        ensures
            final(out)@ == old(out)@ + list_text(self@),
        decreases self, 0nat,
    {
        proof {
            lemma_complexes_index(self.selectors@);
        }
        let ghost cs = complexes_view(self.selectors@);
        let mut i: usize = 0;
        while i < self.selectors.len()
            invariant
                0 <= i <= self.selectors@.len(),
                cs == complexes_view(self.selectors@),
                cs.len() == self.selectors@.len(),
                forall|k: int| 0 <= k < cs.len() ==> #[trigger] cs[k] == complex_view(&self.selectors@[k]),
                out@ == old(out)@ + list_text(cs.subrange(0, i as int)),
            decreases self.selectors@.len() - i,
        {
            if i > 0 {
                push_str(out, ", ");
            }
            self.selectors[i].push_text(out);
            proof {
                assert(cs.subrange(0, i + 1).drop_last() =~= cs.subrange(0, i as int));
                assert(out@ =~= old(out)@ + list_text(cs.subrange(0, i + 1)));
            }
            i = i + 1;
        }
        proof {
            assert(cs.subrange(0, cs.len() as int) =~= cs);
        }
    }

    pub fn to_string(&self) -> (r: String)
        ensures
            r@ == list_text(self@),
    {
        let mut v: Vec<char> = Vec::new();
        self.push_text(&mut v);
        string_from_chars(v.as_slice())
    }
}

impl RelativeSelectorList {
    pub fn push_text(&self, out: &mut Vec<char>)
        ensures
            final(out)@ == old(out)@ + rel_list_text(self@),
        decreases self, 0nat,
    {
        proof {
            lemma_complex_rels_index(self.selectors@);
        }
        let ghost cs = complex_rels_view(self.selectors@);
        let mut i: usize = 0;
        while i < self.selectors.len()
            invariant
                0 <= i <= self.selectors@.len(),
                cs == complex_rels_view(self.selectors@),
                cs.len() == self.selectors@.len(),
                forall|k: int| 0 <= k < cs.len() ==> #[trigger] cs[k] == rels_view(self.selectors@[k].selectors@),
                out@ == old(out)@ + rel_list_text(cs.subrange(0, i as int)),
            decreases self.selectors@.len() - i,
        {
            if i > 0 {
                push_str(out, ", ");
            }
            self.selectors[i].push_text(out);
            proof {
                assert(cs.subrange(0, i + 1).drop_last() =~= cs.subrange(0, i as int));
                assert(out@ =~= old(out)@ + rel_list_text(cs.subrange(0, i + 1)));
            }
            i = i + 1;
        }
        proof {
            assert(cs.subrange(0, cs.len() as int) =~= cs);
        }
    }
}

} // verus!
