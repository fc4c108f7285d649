//! Matching selectors against a document, proved to agree with the plain-value rules of
//! the matching module.
use vstd::prelude::*;

use crate::css::patterns::combinator::Combinator;
use crate::css::selectors::complex::{ComplexSelector};
use crate::css::selectors::compound::{CompoundSelector, RelativeSelector};
use crate::css::selectors::grammar::{
    lemma_complex_rels_index, lemma_complex_view, lemma_complexes_index, lemma_compound_view, lemma_pseudo_view, lemma_pseudos_index, lemma_rel_view, lemma_rels_index, rels_view,
};
use crate::css::selectors::list::{RelativeSelectorList, SelectorList};
use crate::css::selectors::matching::{
    anc_any, chain, comb_at, complex_matches, compound_matches, desc_loop, list_from, psib_any, pseudo_matches,
    pseudos_from, rel_list_from, rel_step, rel_verify, sel_at, sel_forest, sel_tree, select_all, select_below, sibs_from,
};
use crate::css::selectors::pseudo_class::PseudoClassSelector;
use crate::dom::document::DomInner;
use crate::dom::nav::{lemma_count_next_bound, lemma_count_prev_bound, lemma_next_elem_in, lemma_prev_elem_in, steps};

verus! {

impl CompoundSelector {
    /// Whether this selector matches node `i`.
    pub fn matches_at(&self, dom: &DomInner, i: u32) -> (r: bool)
        requires
            dom.wf(),
            i < dom@.recs.len(),
        ensures
            r == compound_matches(dom@, i as int, self@),
        decreases self, 0int, 0int,
    {
        proof {
            lemma_compound_view(self);
            lemma_pseudos_index(self.pseudo_classes@);
        }
        if !self.matches_local(dom, i) {
            return false;
        }
        let ghost ps = self@.pseudo_classes;
        let mut j: usize = 0;
        while j < self.pseudo_classes.len()
            invariant
                dom.wf(),
                i < dom@.recs.len(),
                ps == self@.pseudo_classes,
                ps.len() == self.pseudo_classes@.len(),
                forall|m: int| 0 <= m < ps.len() ==> #[trigger] ps[m] == self.pseudo_classes@[m]@,
                0 <= j <= ps.len(),
                pseudos_from(dom@, i as int, ps, 0) == pseudos_from(dom@, i as int, ps, j as int),
            decreases ps.len() - j,
        {
            proof {
                assert(decreases_to!(self => self.pseudo_classes));
                assert(decreases_to!(self.pseudo_classes => self.pseudo_classes@));
                assert(decreases_to!(self.pseudo_classes@ => self.pseudo_classes@[j as int]));
            }
            if !self.pseudo_classes[j].matches_at(dom, i) {
                return false;
            }
            j = j + 1;
        }
        true
    }
}

impl PseudoClassSelector {
    /// Whether this pseudo-class matches node `i`.
    pub fn matches_at(&self, dom: &DomInner, i: u32) -> (r: bool)
        requires
            dom.wf(),
            i < dom@.recs.len(),
        ensures
            r == pseudo_matches(dom@, i as int, self@),
        decreases self, 0int, 0int,
    {
        proof {
            lemma_pseudo_view(self);
            lemma_count_prev_bound(dom@, i as int, None, steps(dom@));
            lemma_count_next_bound(dom@, i as int, None, steps(dom@));
            lemma_count_prev_bound(dom@, i as int, Some(dom@.names[i as int]), steps(dom@));
            lemma_count_next_bound(dom@, i as int, Some(dom@.names[i as int]), steps(dom@));
        }
        match self {
            PseudoClassSelector::Root => i == 0,
            PseudoClassSelector::Empty => dom.first_element(i).is_none(),
            PseudoClassSelector::NthChild(o) => o.matches(dom.count_prev(i, None) + 1),
            PseudoClassSelector::NthLastChild(o) => o.matches(dom.count_next(i, None) + 1),
            PseudoClassSelector::FirstChild => dom.prev_element(i).is_none(),
            PseudoClassSelector::LastChild => dom.next_element(i).is_none(),
            PseudoClassSelector::OnlyChild => dom.prev_element(i).is_none() && dom.next_element(i).is_none(),
            PseudoClassSelector::NthOfType(o) => o.matches(dom.count_prev(i, Some(dom.name(i))) + 1),
            PseudoClassSelector::NthLastOfType(o) => o.matches(dom.count_next(i, Some(dom.name(i))) + 1),
            PseudoClassSelector::FirstOfType => dom.count_prev(i, Some(dom.name(i))) == 0,
            PseudoClassSelector::LastOfType => dom.count_next(i, Some(dom.name(i))) == 0,
            PseudoClassSelector::OnlyOfType => {
                dom.count_prev(i, Some(dom.name(i))) == 0 && dom.count_next(i, Some(dom.name(i))) == 0
            }
            PseudoClassSelector::Not(l) => !l.matches_at(dom, i),
            PseudoClassSelector::Has(l) => l.matches_at(dom, i),
            PseudoClassSelector::Is(l) => l.matches_at(dom, i),
        }
    }
}

impl SelectorList {
    /// Whether one of the selectors matches node `i`.
    pub fn matches_at(&self, dom: &DomInner, i: u32) -> (r: bool)
        requires
            dom.wf(),
            i < dom@.recs.len(),
        ensures
            r == list_from(dom@, i as int, self@, 0),
        decreases self, 0int, 0int,
    {
        proof {
            lemma_complexes_index(self.selectors@);
        }
        let ghost l = self@;
        let mut k: usize = 0;
        while k < self.selectors.len()
            invariant
                dom.wf(),
                i < dom@.recs.len(),
                l == self@,
                l.len() == self.selectors@.len(),
                forall|m: int| 0 <= m < l.len() ==> #[trigger] l[m] == self.selectors@[m]@,
                0 <= k <= l.len(),
                list_from(dom@, i as int, l, 0) == list_from(dom@, i as int, l, k as int),
            decreases l.len() - k,
        {
            proof {
                assert(decreases_to!(self => self.selectors));
                assert(decreases_to!(self.selectors => self.selectors@));
                assert(decreases_to!(self.selectors@ => self.selectors@[k as int]));
            }
            if self.selectors[k].matches_at(dom, i) {
                return true;
            }
            k = k + 1;
        }
        false
    }
}

impl ComplexSelector {
    /// Whether this selector matches node `i`.
    pub fn matches_at(&self, dom: &DomInner, i: u32) -> (r: bool)
        requires
            dom.wf(),
            i < dom@.recs.len(),
        ensures
            r == complex_matches(dom@, i as int, self@),
        decreases self, self.selectors@.len() + 2, 0int,
    {
        proof {
            lemma_complex_view(self);
        }
        self.chain_at(dom, 0, i)
    }

    /// Whether the compound at position `kp` from the right matches node `a`.
    fn sel_at(&self, dom: &DomInner, kp: usize, a: u32) -> (r: bool)
        requires
            dom.wf(),
            a < dom@.recs.len(),
        ensures
            r == sel_at(dom@, self@, kp as nat, a as int),
        decreases self, 0int, 0int,
    {
        proof {
            lemma_complex_view(self);
            lemma_rels_index(self.selectors@);
        }
        let n = self.selectors.len();
        if kp < n {
            proof {
                lemma_rel_view(&self.selectors@[n - 1 - kp]);
                assert(decreases_to!(self => self.selectors));
                assert(decreases_to!(self.selectors => self.selectors@));
                assert(decreases_to!(self.selectors@ => self.selectors@[n - 1 - kp]));
                assert(decreases_to!(self.selectors@[n - 1 - kp] => self.selectors@[n - 1 - kp].selector));
            }
            self.selectors[n - 1 - kp].selector.matches_at(dom, a)
        } else {
            self.first.matches_at(dom, a)
        }
    }

    /// The combinator that joins the compound at position `kp` to the one on its left.
    fn comb_at(&self, kp: usize) -> (r: Combinator)
        ensures
            r == comb_at(self@, kp as nat),
    {
        proof {
            lemma_complex_view(self);
            lemma_rels_index(self.selectors@);
        }
        let n = self.selectors.len();
        if kp < n {
            proof {
                lemma_rel_view(&self.selectors@[n - 1 - kp]);
            }
            self.selectors[n - 1 - kp].combinator
        } else {
            Combinator::Descendant
        }
    }

    /// Whether the compound at position `k` matches node `a` and some chain leftwards
    /// from `a` matches the compounds left of it.
    fn chain_at(&self, dom: &DomInner, k: usize, a: u32) -> (r: bool)
        requires
            dom.wf(),
            a < dom@.recs.len(),
            k <= self.selectors@.len(),
        ensures
            r == chain(dom@, self@, k as nat, a as int),
        decreases self, self.selectors@.len() + 1 - k, 0int,
    {
        proof {
            lemma_complex_view(self);
            lemma_rels_index(self.selectors@);
        }
        if !self.sel_at(dom, k, a) {
            return false;
        }
        if k >= self.selectors.len() {
            return true;
        }
        match self.comb_at(k) {
            Combinator::Descendant => match dom.up(a) {
                None => false,
                Some(p) => self.anc_any(dom, k + 1, p, dom.len()),
            },
            Combinator::Child => match dom.up(a) {
                None => false,
                Some(p) => self.chain_at(dom, k + 1, p),
            },
            Combinator::SubsequentSibling => match dom.prev_node(a) {
                None => false,
                Some(p) => self.psib_any(dom, k + 1, p, dom.len()),
            },
            Combinator::NextSibling => {
                proof {
                    lemma_prev_elem_in(dom@, a as int, steps(dom@));
                }
                match dom.prev_element(a) {
                    None => false,
                    Some(p) => self.chain_at(dom, k + 1, p),
                }
            }
        }
    }

    /// Whether the chain from position `k` holds at node `a` or at one of its ancestors,
    /// at most `f` parent links up.
    fn anc_any(&self, dom: &DomInner, k: usize, a: u32, f: usize) -> (r: bool)
        requires
            dom.wf(),
            a < dom@.recs.len(),
            k <= self.selectors@.len(),
        ensures
            r == anc_any(dom@, self@, k as nat, a as int, f as nat),
        decreases self, self.selectors@.len() + 1 - k, f + 1,
    {
        proof {
            lemma_complex_view(self);
        }
        let ghost target = anc_any(dom@, self@, k as nat, a as int, f as nat);
        let mut x = a;
        let mut g = f;
        loop
            invariant
                dom.wf(),
                x < dom@.recs.len(),
                k <= self.selectors@.len(),
                g <= f,
                anc_any(dom@, self@, k as nat, x as int, g as nat) == target,
                target == anc_any(dom@, self@, k as nat, a as int, f as nat),
            decreases g,
        {
            if g == 0 {
                return false;
            }
            if self.chain_at(dom, k, x) {
                return true;
            }
            match dom.up(x) {
                None => {
                    return false;
                }
                Some(p) => {
                    x = p;
                    g = g - 1;
                }
            }
        }
    }

    /// Whether the chain from position `k` holds at an element among node `a` and the
    /// siblings before it, at most `f` links back.
    fn psib_any(&self, dom: &DomInner, k: usize, a: u32, f: usize) -> (r: bool)
        requires
            dom.wf(),
            a < dom@.recs.len(),
            k <= self.selectors@.len(),
        ensures
            r == psib_any(dom@, self@, k as nat, a as int, f as nat),
        decreases self, self.selectors@.len() + 1 - k, f + 1,
    {
        proof {
            lemma_complex_view(self);
        }
        let ghost target = psib_any(dom@, self@, k as nat, a as int, f as nat);
        let mut x = a;
        let mut g = f;
        loop
            invariant
                dom.wf(),
                x < dom@.recs.len(),
                k <= self.selectors@.len(),
                g <= f,
                psib_any(dom@, self@, k as nat, x as int, g as nat) == target,
                target == psib_any(dom@, self@, k as nat, a as int, f as nat),
            decreases g,
        {
            if g == 0 {
                return false;
            }
            if dom.is_element(x) && self.chain_at(dom, k, x) {
                return true;
            }
            match dom.prev_node(x) {
                None => {
                    return false;
                }
                Some(p) => {
                    x = p;
                    g = g - 1;
                }
            }
        }
    }
}

impl RelativeSelectorList {
    /// Whether one of the complex relative selectors matches from node `i`.
    pub fn matches_at(&self, dom: &DomInner, i: u32) -> (r: bool)
        requires
            dom.wf(),
            i < dom@.recs.len(),
        ensures
            r == rel_list_from(dom@, i as int, self@, 0),
        decreases self, 0int, 0int,
    {
        proof {
            lemma_complex_rels_index(self.selectors@);
        }
        let ghost l = self@;
        let mut k: usize = 0;
        while k < self.selectors.len()
            invariant
                dom.wf(),
                i < dom@.recs.len(),
                l == self@,
                l.len() == self.selectors@.len(),
                forall|m: int| 0 <= m < l.len() ==> #[trigger] l[m] == rels_view(self.selectors@[m].selectors@),
                0 <= k <= l.len(),
                rel_list_from(dom@, i as int, l, 0) == rel_list_from(dom@, i as int, l, k as int),
            decreases l.len() - k,
        {
            proof {
                assert(decreases_to!(self => self.selectors));
                assert(decreases_to!(self.selectors => self.selectors@));
                assert(decreases_to!(self.selectors@ => self.selectors@[k as int]));
                assert(decreases_to!(self.selectors@[k as int] => self.selectors@[k as int].selectors));
            }
            if rel_verify_at(&self.selectors[k].selectors, dom, 0, i) {
                return true;
            }
            k = k + 1;
        }
        false
    }
}

/// Whether the relative selectors of `rs` from the `c`-th on match from node `el`.
fn rel_verify_at(rs: &Vec<RelativeSelector>, dom: &DomInner, c: usize, el: u32) -> (r: bool)
    requires
        dom.wf(),
        el < dom@.recs.len(),
    ensures
        r == rel_verify(dom@, rels_view(rs@), c as int, el as int),
    decreases rs, rs@.len() - c, dom@.recs.len() + 1,
{
    proof {
        lemma_rels_index(rs@);
    }
    if c >= rs.len() {
        return true;
    }
    proof {
        lemma_rel_view(&rs@[c as int]);
    }
    let len = dom.len();
    match rs[c].combinator {
        Combinator::Descendant => {
            let ghost target = desc_loop(dom@, rels_view(rs@), c as int, el as int, 0);
            let mut j: usize = 0;
            while j < len
                invariant
                    dom.wf(),
                    len == dom@.recs.len(),
                    el < len,
                    c < rs@.len(),
                    rels_view(rs@).len() == rs@.len(),
                    0 <= j <= len,
                    desc_loop(dom@, rels_view(rs@), c as int, el as int, j as int) == target,
                    target == rel_verify(dom@, rels_view(rs@), c as int, el as int),
                decreases len - j,
            {
                if dom.is_descendant(j as u32, el) && rel_step_at(rs, dom, c, j as u32) {
                    return true;
                }
                j = j + 1;
            }
            false
        }
        Combinator::Child => match dom.first_node(el) {
            None => false,
            Some(x) => sibs_from_at(rs, dom, c, x, len),
        },
        Combinator::SubsequentSibling => match dom.next_node(el) {
            None => false,
            Some(x) => sibs_from_at(rs, dom, c, x, len),
        },
        Combinator::NextSibling => {
            proof {
                lemma_next_elem_in(dom@, el as int, steps(dom@));
            }
            match dom.next_element(el) {
                None => false,
                Some(x) => rel_step_at(rs, dom, c, x),
            }
        }
    }
}

/// Whether node `x` or a sibling after it, at most `f` links on, carries the match on.
fn sibs_from_at(rs: &Vec<RelativeSelector>, dom: &DomInner, c: usize, x: u32, f: usize) -> (r: bool)
    requires
        dom.wf(),
        x < dom@.recs.len(),
        c < rs@.len(),
    ensures
        r == sibs_from(dom@, rels_view(rs@), c as int, x as int, f as nat),
    decreases rs, rs@.len() - c, f,
{
    let ghost target = sibs_from(dom@, rels_view(rs@), c as int, x as int, f as nat);
    proof {
        lemma_rels_index(rs@);
    }
    let mut y = x;
    let mut g = f;
    loop
        invariant
            dom.wf(),
            y < dom@.recs.len(),
            c < rs@.len(),
            g <= f,
            rels_view(rs@).len() == rs@.len(),
            sibs_from(dom@, rels_view(rs@), c as int, y as int, g as nat) == target,
            target == sibs_from(dom@, rels_view(rs@), c as int, x as int, f as nat),
        decreases g,
    {
        if g == 0 {
            return false;
        }
        if rel_step_at(rs, dom, c, y) {
            return true;
        }
        match dom.next_node(y) {
            None => {
                return false;
            }
            Some(z) => {
                y = z;
                g = g - 1;
            }
        }
    }
}

/// Whether element `x` matches the `c`-th relative selector and the rest match from it.
fn rel_step_at(rs: &Vec<RelativeSelector>, dom: &DomInner, c: usize, x: u32) -> (r: bool)
    requires
        dom.wf(),
        x < dom@.recs.len(),
    ensures
        r == rel_step(dom@, rels_view(rs@), c as int, x as int),
    decreases rs, rs@.len() - c, 0int,
{
    proof {
        lemma_rels_index(rs@);
    }
    if c >= rs.len() || !dom.is_element(x) {
        return false;
    }
    proof {
        lemma_rel_view(&rs@[c as int]);
        assert(decreases_to!(rs => rs@));
        assert(decreases_to!(rs@ => rs@[c as int]));
        assert(decreases_to!(rs@[c as int] => rs@[c as int].selector));
    }
    rs[c].selector.matches_at(dom, x) && rel_verify_at(rs, dom, c + 1, x)
}

impl DomInner {
    /// Appends the nodes of the subtree of node `i` that `list` selects, in document
    /// order, at most `f` steps deep.
    fn push_sel_tree(&self, out: &mut Vec<u32>, list: &SelectorList, i: u32, f: usize)
        requires
            self.wf(),
            i < self@.recs.len(),
        ensures
            final(out)@.map_values(|x: u32| x as int) == old(out)@.map_values(|x: u32| x as int) + sel_tree(self@, list@, i as int, f as nat),
        decreases f, 1int,
    {
        let ghost o0 = old(out)@.map_values(|x: u32| x as int);
        if f == 0 {
            proof {
                assert(out@.map_values(|x: u32| x as int) =~= o0 + sel_tree(self@, list@, i as int, f as nat));
            }
            return;
        }
        let hit = self.is_element(i) && list.matches_at(self, i);
        if hit {
            out.push(i);
        }
        let ghost here = if hit { seq![i as int] } else { Seq::<int>::empty() };
        proof {
            assert(out@.map_values(|x: u32| x as int) =~= o0 + here);
        }
        let ghost o1 = out@.map_values(|x: u32| x as int);
        match self.first_child(i) {
            Some(c) => {
                proof {
                    assert(crate::dom::nodes::rec_links_ok(self@.recs[i as int], self@.recs.len() as int));
                }
                self.push_sel_forest(out, list, c, f - 1);
                proof {
                    assert(o0 + (here + sel_forest(self@, list@, c as int, (f - 1) as nat)) =~= o1 + sel_forest(self@, list@, c as int, (f - 1) as nat));
                }
            }
            None => {
                proof {
                    assert(o0 + (here + Seq::<int>::empty()) =~= o1);
                }
            }
        }
    }

    /// Appends the nodes of the subtrees of node `c` and of the siblings after it that
    /// `list` selects, in document order, at most `f` steps deep.
    fn push_sel_forest(&self, out: &mut Vec<u32>, list: &SelectorList, c: u32, f: usize)
        requires
            self.wf(),
            c < self@.recs.len(),
        ensures
            final(out)@.map_values(|x: u32| x as int) == old(out)@.map_values(|x: u32| x as int) + sel_forest(self@, list@, c as int, f as nat),
        decreases f, 0int,
    {
        let ghost start = old(out)@.map_values(|x: u32| x as int);
        let mut x = c;
        let mut g = f;
        loop
            invariant
                self.wf(),
                x < self@.recs.len(),
                g <= f,
                start == old(out)@.map_values(|x: u32| x as int),
                out@.map_values(|x: u32| x as int) + sel_forest(self@, list@, x as int, g as nat) == start + sel_forest(self@, list@, c as int, f as nat),
            decreases g,
        {
            if g == 0 {
                proof {
                    assert(out@.map_values(|x: u32| x as int) + sel_forest(self@, list@, x as int, g as nat) =~= out@.map_values(|x: u32| x as int));
                }
                return;
            }
            let ghost before = out@.map_values(|x: u32| x as int);
            self.push_sel_tree(out, list, x, g - 1);
            match self.next_sibling(x) {
                Some(n) => {
                    proof {
                        assert(crate::dom::nodes::rec_links_ok(self@.recs[x as int], self@.recs.len() as int));
                        assert(before + (sel_tree(self@, list@, x as int, (g - 1) as nat) + sel_forest(self@, list@, n as int, (g - 1) as nat))
                            =~= out@.map_values(|x: u32| x as int) + sel_forest(self@, list@, n as int, (g - 1) as nat));
                    }
                    x = n;
                    g = g - 1;
                }
                None => {
                    proof {
                        assert(sel_forest(self@, list@, x as int, g as nat) =~= sel_tree(self@, list@, x as int, (g - 1) as nat));
                    }
                    return;
                }
            }
        }
    }

    /// The elements below node `i` that `list` matches, in document order.
    pub fn select_below(&self, i: u32, list: &SelectorList) -> (r: Vec<u32>)
        requires
            self.wf(),
            i < self@.recs.len(),
        ensures
            r@.map_values(|x: u32| x as int) == select_below(self@, i as int, list@),
    {
        let mut out: Vec<u32> = Vec::new();
        proof {
            assert(out@.map_values(|x: u32| x as int) =~= Seq::<int>::empty());
        }
        match self.first_child(i) {
            Some(c) => {
                proof {
                    assert(crate::dom::nodes::rec_links_ok(self@.recs[i as int], self@.recs.len() as int));
                }
                self.push_sel_forest(&mut out, list, c, 2 * self.len() - 1);
                proof {
                    assert(out@.map_values(|x: u32| x as int) =~= select_below(self@, i as int, list@));
                }
            }
            None => {}
        }
        out
    }

    /// The elements below the root that `list` matches, in document order.
    pub fn select(&self, list: &SelectorList) -> (r: Vec<u32>)
        requires
            self.wf(),
        ensures
            r@.map_values(|x: u32| x as int) == select_all(self@, list@),
    {
        self.select_below(0, list)
    }
}

} // verus!
